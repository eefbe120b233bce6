//! Vocabulary shared by the decisions: platforms, windows, dialogs, and the
//! identifier that a notification carries to the page and back.
use vstd::prelude::*;

verus! {

/// Application user model id of the shell. Windows attributes a toast to the
/// shell only where the process, the bundle and the registry agree on it.
pub const APP_ID: &'static str = "com.dev.pengmaitw";

/// Label of the main window.
pub const MAIN_LABEL: &'static str = "main";

/// Operating systems that the shell is built for.
#[derive(Clone, Copy, Debug, PartialEq, Eq, Structural)]
pub enum Platform {
    Linux,
    Windows,
    MacOs,
}

/// Something to do to an existing window.
#[derive(Clone, Copy, Debug, PartialEq, Eq, Structural)]
pub enum WindowOp {
    Show,
    Unminimize,
    Focus,
}

/// The operations that bring a window back in front of the user.
pub open spec fn restoring() -> Seq<WindowOp> {
    seq![WindowOp::Show, WindowOp::Unminimize, WindowOp::Focus]
}

/// What to do, in order, to bring the main window back: nothing where there is
/// no such window.
pub fn restore_window(found: bool) -> (ops: Vec<WindowOp>)
    ensures
        ops@ == (if found {
            restoring()
        } else {
            Seq::empty()
        }),
{
    let mut ops: Vec<WindowOp> = Vec::new();
    if found {
        ops.push(WindowOp::Show);
        ops.push(WindowOp::Unminimize);
        ops.push(WindowOp::Focus);
    }
    ops
}

/// A property that is set on a window before it is built.
#[derive(Clone, Copy, Debug, PartialEq, Eq, Structural)]
pub enum WindowFlag {
    Resizable(bool),
    Decorations(bool),
    AlwaysOnTop(bool),
    SkipTaskbar(bool),
    Shadow(bool),
    Focused(bool),
    Visible(bool),
    Transparent(bool),
    Center,
}

/// A window that loads one of the pages shipped with the shell. Sizes are in
/// logical pixels.
pub struct PageWindow {
    pub label: String,
    pub page: String,
    pub title: String,
    pub width: u32,
    pub height: u32,
    pub flags: Vec<WindowFlag>,
}

/// The mathematical content of a `PageWindow`.
#[verifier::ext_equal]
pub struct PageWindowView {
    pub label: Seq<char>,
    pub page: Seq<char>,
    pub title: Seq<char>,
    pub width: nat,
    pub height: nat,
    pub flags: Seq<WindowFlag>,
}

impl View for PageWindow {
    type V = PageWindowView;

    open spec fn view(&self) -> PageWindowView {
        PageWindowView {
            label: self.label@,
            page: self.page@,
            title: self.title@,
            width: self.width as nat,
            height: self.height as nat,
            flags: self.flags@,
        }
    }
}

/// The buttons of a message dialog.
pub enum DialogButtons {
    /// Whatever the platform offers.
    Default,
    /// A single confirmation.
    Confirm,
    /// Accept and decline, each with its own caption.
    Choice { accept: String, decline: String },
}

/// The mathematical content of `DialogButtons`.
pub enum DialogButtonsView {
    Default,
    Confirm,
    Choice { accept: Seq<char>, decline: Seq<char> },
}

impl View for DialogButtons {
    type V = DialogButtonsView;

    open spec fn view(&self) -> DialogButtonsView {
        match self {
            DialogButtons::Default => DialogButtonsView::Default,
            DialogButtons::Confirm => DialogButtonsView::Confirm,
            DialogButtons::Choice { accept, decline } => DialogButtonsView::Choice {
                accept: accept@,
                decline: decline@,
            },
        }
    }
}

/// A message dialog.
pub struct Dialog {
    pub title: String,
    pub message: String,
    pub buttons: DialogButtons,
}

/// The mathematical content of a `Dialog`.
#[verifier::ext_equal]
pub struct DialogView {
    pub title: Seq<char>,
    pub message: Seq<char>,
    pub buttons: DialogButtonsView,
}

impl View for Dialog {
    type V = DialogView;

    open spec fn view(&self) -> DialogView {
        DialogView { title: self.title@, message: self.message@, buttons: self.buttons@ }
    }
}

/// An identifier as the page receives it: the 32 bits of the signed number read
/// without a sign.
pub open spec fn unsigned_id(id: i32) -> u32 {
    if id >= 0 {
        id as u32
    } else {
        (id + 0x1_0000_0000) as u32
    }
}

/// Reads a signed identifier without its sign.
pub fn wire_id(id: i32) -> (wire: u32)
    ensures
        wire == unsigned_id(id),
{
    assert(id < 0 ==> id as u32 == id + 0x1_0000_0000) by (bit_vector);
    #[verifier::truncate]
    (id as u32)
}

/// Payload of the event that asks the page to open what a notification is about.
#[derive(Clone, Copy, Debug, PartialEq, Eq, Structural)]
pub struct NotificationAction {
    pub id: Option<u32>,
}

/// Event under which a `NotificationAction` is emitted to the page.
pub const NOTIFICATION_EVENT: &'static str = "notification:action";

/// What the page is told of a click on a notification with this identifier.
pub open spec fn action_for(id: Option<i32>) -> NotificationAction {
    NotificationAction {
        id: match id {
            Some(i) => Some(unsigned_id(i)),
            None => None,
        },
    }
}

/// What the page is told of a click on a notification with this identifier.
pub fn notification_action(id: Option<i32>) -> (action: NotificationAction)
    ensures
        action == action_for(id),
{
    NotificationAction {
        id: match id {
            Some(i) => Some(wire_id(i)),
            None => None,
        },
    }
}

/// An identifier that is not negative reaches the page as it is, and a
/// notification without one tells the page of none.
pub proof fn law_click_returns_id(id: i32)
    requires
        id >= 0,
    ensures
        action_for(Some(id)).id is Some,
        action_for(Some(id)).id->0 == id,
        action_for(None).id is None,
{
}

/// Clicks on notifications with different identifiers are told apart.
pub proof fn law_clicks_told_apart(a: Option<i32>, b: Option<i32>)
    requires
        a != b,
    ensures
        action_for(a) != action_for(b),
{
}

/// The identifier that the page hears of is the one of the notification, counted
/// modulo 2 to the power of 32; no two readings of 32 bits have that in common.
pub proof fn law_id_modulo(id: i32)
    ensures
        (unsigned_id(id) - id) % 0x1_0000_0000 == 0,
        action_for(Some(id)).id is Some,
        (action_for(Some(id)).id->0 - id) % 0x1_0000_0000 == 0,
{
}

/// A window that is there is shown, unminimized and focused, in this order; where
/// there is none, nothing is done.
pub proof fn law_window_restored(found: bool, ops: Vec<WindowOp>)
    requires
        restore_window.ensures((found,), ops),
    ensures
        found ==> ops@ == seq![WindowOp::Show, WindowOp::Unminimize, WindowOp::Focus],
        !found ==> ops@.len() == 0,
{
}

/// The identifier of a notification comes back with its click: as it is, counted
/// modulo 2 to the power of 32, and only where the notification had one.
pub proof fn law_id_comes_back(id: Option<i32>, action: NotificationAction)
    requires
        notification_action.ensures((id,), action),
    ensures
        action.id is Some <==> id is Some,
        id matches Some(i) ==> (action.id->0 - i) % 0x1_0000_0000 == 0,
{
    if let Some(i) = id {
        law_id_modulo(i);
    }
}

/// A signed identifier and its reading without a sign agree modulo 2 to the power
/// of 32.
pub proof fn law_wire_id(id: i32, wire: u32)
    requires
        wire_id.ensures((id,), wire),
    ensures
        (wire - id) % 0x1_0000_0000 == 0,
        id >= 0 ==> wire == id,
{
    law_id_modulo(id);
}

} // verus!
