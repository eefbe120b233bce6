//! The notification card that the shell draws itself in the lower right corner
//! of the screen.
use vstd::prelude::*;

use crate::desktop::{
    notification_action, NotificationAction, PageWindow, PageWindowView, Platform, WindowFlag,
};
use crate::text::{same_text, text_reply};

verus! {

/// Label of the card window.
pub const NOTIFY_POPUP_LABEL: &'static str = "notify_popup";

/// Event under which a card is handed to the card window.
pub const NOTIFY_POPUP_EVENT: &'static str = "notify:show";

/// Width of the card window in logical pixels; its height follows its content.
pub const NOTIFY_POPUP_WIDTH: u32 = 600;

/// Height of the card window before its content is known.
pub const NOTIFY_POPUP_HEIGHT: u32 = 180;

/// Space between the card window and the corner of the screen.
pub const NOTIFY_POPUP_MARGIN: u32 = 16;

/// The card window is never lower than this.
pub const NOTIFY_POPUP_MIN_HEIGHT: u32 = 60;

/// The card window is never higher than this.
pub const NOTIFY_POPUP_MAX_HEIGHT: u32 = 2000;

/// What the card window is told to show. The details of the order are passed on
/// as they came, whatever they hold.
pub struct NotifyPopupPayload<D> {
    /// Comes back unchanged with the click on the card.
    pub id: Option<i32>,
    pub title: String,
    pub body: String,
    /// Icon of the card: `order`, `info` or `error`.
    pub kind: String,
    /// Where the card leads; without it the card has no button to open anything.
    pub path: Option<String>,
    /// Details of the order.
    pub data: Option<D>,
}

/// The card for a notification request of the page. A request without a body
/// gets an empty one.
pub fn notify<D>(title: String, body: Option<String>, id: Option<i32>, data: Option<D>) -> (payload:
    NotifyPopupPayload<D>)
    ensures
        payload.id == id,
        payload.title@ == title@,
        payload.body@ == (match body {
            Some(text) => text@,
            None => Seq::empty(),
        }),
        payload.kind@ == "order"@,
        payload.path is Some,
        payload.path->0@ == "/orders"@,
        payload.data == data,
{
    NotifyPopupPayload {
        id,
        title,
        body: match body {
            Some(text) => text,
            None => String::new(),
        },
        kind: "order".to_owned(),
        path: Some("/orders".to_owned()),
        data,
    }
}

/// The properties of the card window. It must not take the focus away from what
/// the user is doing. Transparency is not to be had on macOS.
pub open spec fn popup_flags(platform: Platform) -> Seq<WindowFlag> {
    let common = seq![
        WindowFlag::Resizable(false),
        WindowFlag::Decorations(false),
        WindowFlag::AlwaysOnTop(true),
        WindowFlag::SkipTaskbar(true),
        WindowFlag::Shadow(false),
        WindowFlag::Focused(false),
        WindowFlag::Visible(false),
    ];
    if platform == Platform::MacOs {
        common
    } else {
        common.push(WindowFlag::Transparent(true))
    }
}

/// The card window.
pub open spec fn card_window(platform: Platform) -> PageWindowView {
    PageWindowView {
        label: NOTIFY_POPUP_LABEL@,
        page: "notify-popup.html"@,
        title: "通知"@,
        width: NOTIFY_POPUP_WIDTH as nat,
        height: NOTIFY_POPUP_HEIGHT as nat,
        flags: popup_flags(platform),
    }
}

/// The card window to build: none where it is there already.
pub open spec fn to_build(exists: bool, platform: Platform) -> Option<PageWindowView> {
    if exists {
        None
    } else {
        Some(card_window(platform))
    }
}

/// The card window to build, or `None` where it is there already.
pub fn ensure_notify_popup(exists: bool, platform: Platform) -> (window: Option<PageWindow>)
    ensures
        (match window {
            Some(w) => Some(w@),
            None => None,
        }) == to_build(exists, platform),
{
    if exists {
        return None;
    }
    let mut flags: Vec<WindowFlag> = Vec::new();
    flags.push(WindowFlag::Resizable(false));
    flags.push(WindowFlag::Decorations(false));
    flags.push(WindowFlag::AlwaysOnTop(true));
    flags.push(WindowFlag::SkipTaskbar(true));
    flags.push(WindowFlag::Shadow(false));
    flags.push(WindowFlag::Focused(false));
    flags.push(WindowFlag::Visible(false));
    if platform != Platform::MacOs {
        flags.push(WindowFlag::Transparent(true));
    }
    Some(
        PageWindow {
            label: NOTIFY_POPUP_LABEL.to_owned(),
            page: "notify-popup.html".to_owned(),
            title: "通知".to_owned(),
            width: NOTIFY_POPUP_WIDTH,
            height: NOTIFY_POPUP_HEIGHT,
            flags,
        },
    )
}

/// The card window to use: the one that was there, or else the one that was
/// built.
pub open spec fn in_use<W>(existing: Option<W>, built: Option<W>) -> Option<W> {
    if existing is Some {
        existing
    } else {
        built
    }
}

/// The card window to use, where `existing` is the one that was there and `built`
/// the one that was built.
pub fn notify_popup_window<W>(existing: Option<W>, built: Option<W>) -> (window: Option<W>)
    ensures
        window == in_use(existing, built),
{
    match existing {
        Some(window) => Some(window),
        None => built,
    }
}

/// A card window that is there is used as it is, and no other is built. Otherwise
/// one is built, and there is none to use if and only if building it failed. Once
/// there is one, nothing more is built.
pub proof fn law_one_card_window<W>(existing: Option<W>, built: Option<W>, platform: Platform)
    ensures
        existing is Some ==> to_build(existing is Some, platform) is None && in_use(existing, built)
            == existing,
        existing is None ==> to_build(existing is Some, platform) == Some(card_window(platform))
            && in_use(existing, built) == built,
        in_use(existing, built) is None <==> existing is None && built is None,
        in_use(existing, built) is Some ==> to_build(
            in_use(existing, built) is Some,
            platform,
        ) is None,
{
}

/// The steps that bring a card on the screen.
#[derive(Clone, Copy, Debug, PartialEq, Eq, Structural)]
pub enum PopupStep {
    /// Find the card window, or build it.
    Ensure,
    /// Hand the card to the window.
    Emit,
    /// Move the window into its corner, while it is still hidden.
    Place,
    /// Show the window.
    Show,
}

/// What follows a step.
pub enum PopupNext {
    /// The next step.
    Proceed(PopupStep),
    /// Nothing: this is what the page is told.
    Finished(Result<(), String>),
}

/// The mathematical content of a `PopupNext`.
pub enum PopupNextView {
    Proceed(PopupStep),
    Finished(Result<(), Seq<char>>),
}

impl View for PopupNext {
    type V = PopupNextView;

    open spec fn view(&self) -> PopupNextView {
        match self {
            PopupNext::Proceed(step) => PopupNextView::Proceed(*step),
            PopupNext::Finished(reply) => PopupNextView::Finished(text_reply(*reply)),
        }
    }
}

/// What follows a step that came out like this. A failure ends the attempt,
/// except that a card that could not be moved is shown where it is.
pub open spec fn popup_next(step: PopupStep, outcome: Result<(), Seq<char>>) -> PopupNextView {
    match (step, outcome) {
        (PopupStep::Ensure, Ok(_)) => PopupNextView::Proceed(PopupStep::Emit),
        (PopupStep::Ensure, Err(_)) => PopupNextView::Finished(Err("通知窗口创建失败"@)),
        (PopupStep::Emit, Ok(_)) => PopupNextView::Proceed(PopupStep::Place),
        (PopupStep::Emit, Err(error)) => PopupNextView::Finished(Err(error)),
        (PopupStep::Place, _) => PopupNextView::Proceed(PopupStep::Show),
        (PopupStep::Show, outcome) => PopupNextView::Finished(outcome),
    }
}

/// Decides what follows a step. The first step is `PopupStep::Ensure`.
pub fn show_notify_popup(step: PopupStep, outcome: Result<(), String>) -> (next: PopupNext)
    ensures
        next@ == popup_next(step, text_reply(outcome)),
{
    match step {
        PopupStep::Ensure => match outcome {
            Ok(_) => PopupNext::Proceed(PopupStep::Emit),
            Err(_) => PopupNext::Finished(Err("通知窗口创建失败".to_owned())),
        },
        PopupStep::Emit => match outcome {
            Ok(_) => PopupNext::Proceed(PopupStep::Place),
            Err(error) => PopupNext::Finished(Err(error)),
        },
        PopupStep::Place => PopupNext::Proceed(PopupStep::Show),
        PopupStep::Show => PopupNext::Finished(outcome),
    }
}

/// How many steps are left from a step on.
pub open spec fn steps_left(step: PopupStep) -> nat {
    match step {
        PopupStep::Ensure => 4,
        PopupStep::Emit => 3,
        PopupStep::Place => 2,
        PopupStep::Show => 1,
    }
}

/// What the page is told in the end, where each step comes out as `outcomes`
/// says.
pub open spec fn popup_result(
    step: PopupStep,
    outcomes: spec_fn(PopupStep) -> Result<(), Seq<char>>,
) -> Result<(), Seq<char>>
    decreases steps_left(step),
{
    match popup_next(step, outcomes(step)) {
        PopupNextView::Proceed(next) => popup_result(next, outcomes),
        PopupNextView::Finished(reply) => reply,
    }
}

/// The page hears of success if and only if the window was there, took the card
/// and was shown; otherwise it hears of the first of these that failed. Whether
/// the window could be moved makes no difference.
pub proof fn law_popup_result(outcomes: spec_fn(PopupStep) -> Result<(), Seq<char>>)
    ensures
        popup_result(PopupStep::Ensure, outcomes) == (if outcomes(PopupStep::Ensure) is Err {
            Err("通知窗口创建失败"@)
        } else if outcomes(PopupStep::Emit) is Err {
            outcomes(PopupStep::Emit)
        } else {
            outcomes(PopupStep::Show)
        }),
{
    reveal_with_fuel(popup_result, 4);
}

/// What follows a click on a card: `view` restores the main window and emits the
/// payload to the page, every other action leaves both alone.
pub fn notify_popup_action(id: Option<i32>, action: &str) -> (reply: Option<NotificationAction>)
    ensures
        reply == (if action@ == "view"@ {
            Some(crate::desktop::action_for(id))
        } else {
            None
        }),
{
    if !same_text(action, "view") {
        return None;
    }
    Some(notification_action(id))
}

/// The card window is the same on every platform: it shows the card page under
/// its own label and size, it is bare and on top of others, it neither takes the
/// focus nor shows before there is a card, and it is see-through wherever it can
/// be.
pub proof fn law_card_window(platform: Platform)
    ensures
        ({
            let window = card_window(platform);
            &&& window.label == "notify_popup"@
            &&& window.page == "notify-popup.html"@
            &&& window.title == "通知"@
            &&& window.width == 600
            &&& window.height == 180
            &&& window.flags.contains(WindowFlag::Focused(false))
            &&& window.flags.contains(WindowFlag::Visible(false))
            &&& window.flags.contains(WindowFlag::Resizable(false))
            &&& window.flags.contains(WindowFlag::Decorations(false))
            &&& window.flags.contains(WindowFlag::AlwaysOnTop(true))
            &&& window.flags.contains(WindowFlag::SkipTaskbar(true))
            &&& window.flags.contains(WindowFlag::Shadow(false))
            &&& window.flags.contains(WindowFlag::Transparent(true)) <==> !(platform is MacOs)
            &&& window.flags.len() == if platform is MacOs {
                7int
            } else {
                8int
            }
        }),
{
    let flags = card_window(platform).flags;
    assert(flags[0] == WindowFlag::Resizable(false));
    assert(flags[1] == WindowFlag::Decorations(false));
    assert(flags[2] == WindowFlag::AlwaysOnTop(true));
    assert(flags[3] == WindowFlag::SkipTaskbar(true));
    assert(flags[4] == WindowFlag::Shadow(false));
    assert(flags[5] == WindowFlag::Focused(false));
    assert(flags[6] == WindowFlag::Visible(false));
    if !(platform is MacOs) {
        assert(flags[7] == WindowFlag::Transparent(true));
    }
}

/// The card window stays within its bounds before and after its content is known.
pub proof fn law_card_size()
    ensures
        NOTIFY_POPUP_MIN_HEIGHT == 60,
        NOTIFY_POPUP_MAX_HEIGHT == 2000,
        NOTIFY_POPUP_MIN_HEIGHT <= NOTIFY_POPUP_HEIGHT <= NOTIFY_POPUP_MAX_HEIGHT,
        NOTIFY_POPUP_MARGIN == 16,
{
}

/// A card is handed over only to a window that is there, the window is moved only
/// once it has the card, and it is shown only after it was moved or could not be:
/// each step follows the one before it and no other.
pub proof fn law_steps_in_order(step: PopupStep, outcome: Result<(), Seq<char>>)
    ensures
        popup_next(step, outcome) == PopupNextView::Proceed(PopupStep::Emit) <==> step is Ensure
            && outcome is Ok,
        popup_next(step, outcome) == PopupNextView::Proceed(PopupStep::Place) <==> step is Emit
            && outcome is Ok,
        popup_next(step, outcome) == PopupNextView::Proceed(PopupStep::Show) <==> step is Place,
        popup_next(step, outcome) != PopupNextView::Proceed(PopupStep::Ensure),
        popup_next(step, outcome) is Finished <==> step is Show || (outcome is Err && !(
        step is Place)),
{
}

/// A card shows the title, the body and the details of the request as they came,
/// and carries its identifier; only a missing body is replaced, by an empty one.
/// It leads to the orders.
pub proof fn law_card_shows_request<D>(
    title: String,
    body: Option<String>,
    id: Option<i32>,
    data: Option<D>,
    card: NotifyPopupPayload<D>,
)
    requires
        call_ensures(notify::<D>, (title, body, id, data), card),
    ensures
        card.title@ == title@,
        body matches Some(text) ==> card.body@ == text@,
        body is None ==> card.body@.len() == 0,
        card.id == id,
        card.data == data,
        card.kind@ == "order"@,
        card.path matches Some(path) && path@ == "/orders"@,
{
}

/// The card window is built if and only if it is not there, and it is built the
/// same on every platform but for its transparency.
pub proof fn law_card_window_built(exists: bool, platform: Platform, window: Option<PageWindow>)
    requires
        ensure_notify_popup.ensures((exists, platform), window),
    ensures
        window is None <==> exists,
        window matches Some(built) ==> {
            &&& built.label@ == "notify_popup"@
            &&& built.page@ == "notify-popup.html"@
            &&& built.title@ == "通知"@
            &&& built.width == 600
            &&& built.height == 180
            &&& built.flags@.contains(WindowFlag::Focused(false))
            &&& built.flags@.contains(WindowFlag::Visible(false))
            &&& built.flags@.contains(WindowFlag::Resizable(false))
            &&& built.flags@.contains(WindowFlag::Decorations(false))
            &&& built.flags@.contains(WindowFlag::AlwaysOnTop(true))
            &&& built.flags@.contains(WindowFlag::SkipTaskbar(true))
            &&& built.flags@.contains(WindowFlag::Shadow(false))
            &&& built.flags@.contains(WindowFlag::Transparent(true)) <==> !(platform is MacOs)
            &&& built.flags@.len() == if platform is MacOs {
                7int
            } else {
                8int
            }
        },
{
    law_card_window(platform);
    if let Some(built) = window {
        assert(Some(built@) == to_build(exists, platform));
        assert(built@.width == built.width && built@.height == built.height);
        assert(built@.flags == built.flags@);
    }
}

/// A card window that was there is the one in use, whatever was built besides;
/// without it the one that was built is.
pub proof fn law_card_window_used<W>(existing: Option<W>, built: Option<W>, window: Option<W>)
    requires
        call_ensures(notify_popup_window::<W>, (existing, built), window),
    ensures
        existing is Some ==> window == existing,
        existing is None ==> window == built,
{
}

/// What a step leads to: the step after it, or the end of the attempt with the
/// error as it came. Whether the window could be moved makes no difference.
pub proof fn law_step_taken(step: PopupStep, outcome: Result<(), String>, next: PopupNext)
    requires
        show_notify_popup.ensures((step, outcome), next),
    ensures
        step is Ensure && outcome is Ok ==> next == PopupNext::Proceed(PopupStep::Emit),
        step is Emit && outcome is Ok ==> next == PopupNext::Proceed(PopupStep::Place),
        step is Place ==> next == PopupNext::Proceed(PopupStep::Show),
        step is Show && outcome is Ok ==> next matches PopupNext::Finished(Ok(_)),
        step is Ensure && outcome is Err ==> (next matches PopupNext::Finished(Err(text)) && text@
            == "通知窗口创建失败"@),
        (step is Emit || step is Show) && outcome is Err ==> (next matches PopupNext::Finished(
            Err(text),
        ) && text@ == outcome->Err_0@),
{
}

/// A click asks for the order if and only if its action is `view`; the page then
/// hears of the identifier that the card carried.
pub proof fn law_card_clicked(id: Option<i32>, action: &str, reply: Option<NotificationAction>)
    requires
        notify_popup_action.ensures((id, action), reply),
    ensures
        reply is Some <==> action@ == "view"@,
        reply matches Some(heard) ==> (heard.id is Some <==> id is Some) && (id matches Some(i)
            ==> (heard.id->0 - i) % 0x1_0000_0000 == 0),
{
    if let Some(i) = id {
        crate::desktop::law_id_modulo(i);
    }
}

} // verus!
