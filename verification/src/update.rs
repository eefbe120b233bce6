//! Looking for new versions: what a check leads to, and how the user is asked.
use vstd::prelude::*;

use crate::desktop::{Dialog, DialogButtons, DialogButtonsView, DialogView, Platform};
use crate::text::{joined, same_text};
use crate::toast::ACTION_CLOSED;

verus! {

/// The versions that the user was told of since the shell started.
pub struct Reminders {
    versions: Vec<String>,
}

impl View for Reminders {
    type V = Set<Seq<char>>;

    closed spec fn view(&self) -> Set<Seq<char>> {
        Set::new(|v: Seq<char>| exists|i: int| 0 <= i < self.versions@.len() && (#[trigger] self.versions@[i])@ == v)
    }
}

impl Reminders {
    /// Nobody was told of anything yet.
    pub fn new() -> (reminders: Reminders)
        ensures
            reminders@ == Set::<Seq<char>>::empty(),
    {
        let reminders = Reminders { versions: Vec::new() };
        assert(reminders@ =~= Set::<Seq<char>>::empty());
        reminders
    }
}

/// Marks a version as told of, and says whether it had not been before.
pub fn update_remind_once(reminders: &mut Reminders, version: &str) -> (fresh: bool)
    ensures
        fresh == !old(reminders)@.contains(version@),
        final(reminders)@ == old(reminders)@.insert(version@),
{
    let mut i: usize = 0;
    while i < reminders.versions.len()
        invariant
            i <= reminders.versions.len(),
            reminders == old(reminders),
            forall|k: int| 0 <= k < i ==> (#[trigger] reminders.versions@[k])@ != version@,
        decreases reminders.versions.len() - i,
    {
        if same_text(reminders.versions[i].as_str(), version) {
            assert(reminders.versions@[i as int]@ == version@);
            assert(reminders@ =~= old(reminders)@.insert(version@));
            return false;
        }
        i = i + 1;
    }
    reminders.versions.push(version.to_owned());
    proof {
        let before = old(reminders).versions@;
        let after = reminders.versions@;
        assert forall|v: Seq<char>|
            reminders@.contains(v) == old(reminders)@.insert(version@).contains(v) by {
            if old(reminders)@.contains(v) {
                let k = choose|k: int| 0 <= k < before.len() && (#[trigger] before[k])@ == v;
                assert(after[k]@ == v);
            }
            if v == version@ {
                assert(after[before.len() as int]@ == v);
            }
            if reminders@.contains(v) {
                let k = choose|k: int| 0 <= k < after.len() && (#[trigger] after[k])@ == v;
                if k < before.len() {
                    assert(before[k]@ == v);
                }
            }
        }
        assert(reminders@ =~= old(reminders)@.insert(version@));
    }
    true
}

/// What the update server answered.
pub enum CheckResult {
    /// There is a newer version.
    Found(String),
    /// There is none.
    UpToDate,
    /// The check did not succeed; the reason.
    Failed(String),
}

/// The mathematical content of a `CheckResult`.
pub enum CheckResultView {
    Found(Seq<char>),
    UpToDate,
    Failed(Seq<char>),
}

impl View for CheckResult {
    type V = CheckResultView;

    open spec fn view(&self) -> CheckResultView {
        match self {
            CheckResult::Found(version) => CheckResultView::Found(version@),
            CheckResult::UpToDate => CheckResultView::UpToDate,
            CheckResult::Failed(error) => CheckResultView::Failed(error@),
        }
    }
}

/// What a check leads to.
pub enum CheckAction {
    /// Send a notification; the update starts when the user clicks it.
    Notify,
    /// Ask the user right away.
    Prompt,
    /// Tell the user how the check went.
    Inform(Dialog),
    /// Leave the user alone.
    Quiet,
}

/// The mathematical content of a `CheckAction`.
pub enum CheckActionView {
    Notify,
    Prompt,
    Inform(DialogView),
    Quiet,
}

impl View for CheckAction {
    type V = CheckActionView;

    open spec fn view(&self) -> CheckActionView {
        match self {
            CheckAction::Notify => CheckActionView::Notify,
            CheckAction::Prompt => CheckActionView::Prompt,
            CheckAction::Inform(dialog) => CheckActionView::Inform(dialog@),
            CheckAction::Quiet => CheckActionView::Quiet,
        }
    }
}

/// The dialog that reports on a check.
pub open spec fn check_dialog(message: Seq<char>) -> DialogView {
    DialogView { title: "检查更新"@, message, buttons: DialogButtonsView::Confirm }
}

/// What a check leads to. `manual` checks were asked for by the user and report
/// also that there is nothing new or that the check failed. `periodic` checks run
/// in the background and tell of a version once.
pub open spec fn check_action(
    reminded: Set<Seq<char>>,
    manual: bool,
    periodic: bool,
    result: CheckResultView,
) -> CheckActionView {
    match result {
        CheckResultView::Found(version) => if !periodic {
            CheckActionView::Prompt
        } else if reminded.contains(version) {
            CheckActionView::Quiet
        } else {
            CheckActionView::Notify
        },
        CheckResultView::UpToDate => if manual {
            CheckActionView::Inform(check_dialog("当前已是最新版本。"@))
        } else {
            CheckActionView::Quiet
        },
        CheckResultView::Failed(error) => if manual {
            CheckActionView::Inform(
                check_dialog("检查更新失败："@ + error + "\n请确认网络连接或稍后重试。"@),
            )
        } else {
            CheckActionView::Quiet
        },
    }
}

/// The versions told of once a check is dealt with.
pub open spec fn reminded_after(reminded: Set<Seq<char>>, result: CheckResultView) -> Set<
    Seq<char>,
> {
    match result {
        CheckResultView::Found(version) => reminded.insert(version),
        _ => reminded,
    }
}

/// Decides what a check leads to, and remembers the version that it found.
pub fn check_for_updates(
    reminders: &mut Reminders,
    manual: bool,
    periodic: bool,
    result: &CheckResult,
) -> (action: CheckAction)
    ensures
        action@ == check_action(old(reminders)@, manual, periodic, result@),
        final(reminders)@ == reminded_after(old(reminders)@, result@),
{
    match result {
        CheckResult::Found(version) => {
            let fresh = update_remind_once(reminders, version.as_str());
            if !periodic {
                CheckAction::Prompt
            } else if fresh {
                CheckAction::Notify
            } else {
                CheckAction::Quiet
            }
        },
        CheckResult::UpToDate => if manual {
            CheckAction::Inform(
                Dialog {
                    title: "检查更新".to_owned(),
                    message: "当前已是最新版本。".to_owned(),
                    buttons: DialogButtons::Confirm,
                },
            )
        } else {
            CheckAction::Quiet
        },
        CheckResult::Failed(error) => if manual {
            let start = joined("检查更新失败：", error.as_str());
            CheckAction::Inform(
                Dialog {
                    title: "检查更新".to_owned(),
                    message: joined(start.as_str(), "\n请确认网络连接或稍后重试。"),
                    buttons: DialogButtons::Confirm,
                },
            )
        } else {
            CheckAction::Quiet
        },
    }
}

/// How the user learns of a version that a periodic check found.
#[derive(Clone, Copy, Debug, PartialEq, Eq, Structural)]
pub enum UpdateOffer {
    /// By a notification that can be clicked.
    Toast,
    /// By the dialog of `prompt_update`.
    Prompt,
}

/// Clicks on notifications are not reported on macOS, so the user is asked
/// directly there.
pub fn notify_update_available(platform: Platform) -> (offer: UpdateOffer)
    ensures
        offer == (if platform == Platform::MacOs {
            UpdateOffer::Prompt
        } else {
            UpdateOffer::Toast
        }),
{
    if platform == Platform::MacOs {
        UpdateOffer::Prompt
    } else {
        UpdateOffer::Toast
    }
}

/// The dialog that asks whether to install a version.
pub fn prompt_update(version: &str, current: &str) -> (dialog: Dialog)
    ensures
        dialog@ == (DialogView {
            title: "发现新版本"@,
            message: "检测到新版本 v"@ + version@ + "（当前 v"@ + current@
                + "）。\n\n点击「立即更新」将自动下载并安装，完成后应用会自动重启。"@,
            buttons: DialogButtonsView::Choice { accept: "立即更新"@, decline: "稍后"@ },
        }),
{
    let start = joined("检测到新版本 v", version);
    let middle = joined(start.as_str(), "（当前 v");
    let known = joined(middle.as_str(), current);
    Dialog {
        title: "发现新版本".to_owned(),
        message: joined(
            known.as_str(),
            "）。\n\n点击「立即更新」将自动下载并安装，完成后应用会自动重启。",
        ),
        buttons: DialogButtons::Choice {
            accept: "立即更新".to_owned(),
            decline: "稍后".to_owned(),
        },
    }
}

/// What the answer to the dialog of `prompt_update` starts: the update that the
/// user was asked about, where they accepted it.
pub fn prompt_answered<T>(accepted: bool, update: T) -> (start: Option<T>)
    ensures
        start == (if accepted {
            Some(update)
        } else {
            None
        }),
{
    if accepted {
        Some(update)
    } else {
        None
    }
}

/// What an action on a notification hands out of a waiting update: all of it,
/// unless the notification was only closed.
pub open spec fn handed_out<T>(pending: Option<T>, action: Seq<char>) -> Option<T> {
    if action == ACTION_CLOSED@ {
        None
    } else {
        pending
    }
}

/// What an action on a notification leaves of a waiting update.
pub open spec fn still_pending<T>(pending: Option<T>, action: Seq<char>) -> Option<T> {
    if action == ACTION_CLOSED@ {
        pending
    } else {
        None
    }
}

/// An update that waits for a click on its notification.
pub struct PendingUpdate<T> {
    pending: Option<T>,
}

impl<T> View for PendingUpdate<T> {
    type V = Option<T>;

    closed spec fn view(&self) -> Option<T> {
        self.pending
    }
}

impl<T> PendingUpdate<T> {
    /// An update that nobody has clicked on.
    pub fn new(update: T) -> (pending: PendingUpdate<T>)
        ensures
            pending@ == Some(update),
    {
        PendingUpdate { pending: Some(update) }
    }

    /// Hands the update out at the first action that is not the closing of the
    /// notification.
    pub fn on_action(&mut self, action: &str) -> (start: Option<T>)
        ensures
            start == handed_out(old(self)@, action@),
            final(self)@ == still_pending(old(self)@, action@),
    {
        if !same_text(action, ACTION_CLOSED) {
            self.pending.take()
        } else {
            None
        }
    }
}

/// One check and its answer.
pub struct Check {
    pub manual: bool,
    pub periodic: bool,
    pub result: CheckResultView,
}

/// The versions told of after a run of checks.
pub open spec fn reminded_after_all(reminded: Set<Seq<char>>, checks: Seq<Check>) -> Set<Seq<char>>
    decreases checks.len(),
{
    if checks.len() == 0 {
        reminded
    } else {
        reminded_after(
            reminded_after_all(reminded, checks.drop_last()),
            checks.last().result,
        )
    }
}

/// Whether a check leads to a notification about a version.
pub open spec fn notifies(reminded: Set<Seq<char>>, check: Check, version: Seq<char>) -> bool {
    &&& check.result == CheckResultView::Found(version)
    &&& check_action(reminded, check.manual, check.periodic, check.result) is Notify
}

/// How many notifications about a version a run of checks leads to.
pub open spec fn notices(
    reminded: Set<Seq<char>>,
    checks: Seq<Check>,
    version: Seq<char>,
) -> nat
    decreases checks.len(),
{
    if checks.len() == 0 {
        0
    } else {
        let init = checks.drop_last();
        notices(reminded, init, version) + if notifies(
            reminded_after_all(reminded, init),
            checks.last(),
            version,
        ) {
            1nat
        } else {
            0nat
        }
    }
}

/// However the checks of a run are mixed, the user is notified of a version at
/// most once, and not at all where they were told of it before.
pub proof fn law_notified_once(reminded: Set<Seq<char>>, checks: Seq<Check>, version: Seq<char>)
    ensures
        notices(reminded, checks, version) <= 1,
        reminded.contains(version) ==> notices(reminded, checks, version) == 0,
{
    lemma_notices(reminded, checks, version);
}

proof fn lemma_notices(reminded: Set<Seq<char>>, checks: Seq<Check>, version: Seq<char>)
    ensures
        notices(reminded, checks, version) + (if reminded.contains(version) {
            1nat
        } else {
            0nat
        }) <= (if reminded_after_all(reminded, checks).contains(version) {
            1nat
        } else {
            0nat
        }),
    decreases checks.len(),
{
    if checks.len() > 0 {
        lemma_notices(reminded, checks.drop_last(), version);
    }
}

/// Checks that nobody asked for never show a dialog about how they went.
pub proof fn law_automatic_checks_silent(
    reminded: Set<Seq<char>>,
    periodic: bool,
    result: CheckResultView,
)
    ensures
        check_action(reminded, false, periodic, result) !is Inform,
        !(result is Found) ==> check_action(reminded, false, periodic, result) is Quiet,
{
}

/// What a run of actions on a notification leaves of a waiting update.
pub open spec fn pending_after<T>(pending: Option<T>, actions: Seq<Seq<char>>) -> Option<T>
    decreases actions.len(),
{
    if actions.len() == 0 {
        pending
    } else {
        still_pending(pending_after(pending, actions.drop_last()), actions.last())
    }
}

/// How often a run of actions on a notification hands an update out.
pub open spec fn starts<T>(pending: Option<T>, actions: Seq<Seq<char>>) -> nat
    decreases actions.len(),
{
    if actions.len() == 0 {
        0
    } else {
        let init = actions.drop_last();
        starts(pending, init) + if handed_out(pending_after(pending, init), actions.last()) is Some {
            1nat
        } else {
            0nat
        }
    }
}

/// However often a notification is clicked, its update starts at most once, and
/// it starts if and only if some action was more than closing it.
pub proof fn law_update_starts_once<T>(update: T, actions: Seq<Seq<char>>)
    ensures
        starts(Some(update), actions) <= 1,
        starts(Some(update), actions) == 1 <==> exists|i: int|
            0 <= i < actions.len() && #[trigger] actions[i] != ACTION_CLOSED@,
{
    lemma_starts(update, actions);
}

proof fn lemma_starts<T>(update: T, actions: Seq<Seq<char>>)
    ensures
        starts(Some(update), actions) == (if pending_after(Some(update), actions) is Some {
            0nat
        } else {
            1nat
        }),
        pending_after(Some(update), actions) is Some <==> forall|i: int|
            0 <= i < actions.len() ==> #[trigger] actions[i] == ACTION_CLOSED@,
    decreases actions.len(),
{
    if actions.len() > 0 {
        let init = actions.drop_last();
        lemma_starts(update, init);
        assert(actions.last() == actions[actions.len() - 1]);
        assert(forall|i: int| 0 <= i < init.len() ==> #[trigger] init[i] == actions[i]);
        if pending_after(Some(update), actions) is Some {
            assert forall|i: int| 0 <= i < actions.len() implies #[trigger] actions[i]
                == ACTION_CLOSED@ by {
                if i < init.len() {
                    assert(init[i] == ACTION_CLOSED@);
                }
            }
        }
    }
}

/// A version that a periodic check finds is notified of, whatever the version,
/// unless the user was told of it before; they are left alone where they were. A
/// check that is not periodic asks about what it found, every time.
pub proof fn law_found_version_is_told(
    reminded: Set<Seq<char>>,
    manual: bool,
    version: Seq<char>,
)
    ensures
        !reminded.contains(version) ==> check_action(
            reminded,
            manual,
            true,
            CheckResultView::Found(version),
        ) is Notify,
        reminded.contains(version) ==> check_action(
            reminded,
            manual,
            true,
            CheckResultView::Found(version),
        ) is Quiet,
        check_action(reminded, manual, false, CheckResultView::Found(version)) is Prompt,
{
}

/// A version counts as told of once a check found it, and no other version does:
/// of another one the user hears as if there had been no check.
pub proof fn law_only_found_is_remembered(
    reminded: Set<Seq<char>>,
    result: CheckResultView,
    version: Seq<char>,
)
    ensures
        reminded_after(reminded, result).contains(version) <==> reminded.contains(version) || result
            == CheckResultView::Found(version),
{
}

/// A manual check that finds nothing says so, and one that fails shows the reason
/// whole, whatever was told of before and however the check was started.
pub proof fn law_manual_check_answers(
    reminded: Set<Seq<char>>,
    periodic: bool,
    error: Seq<char>,
)
    ensures
        check_action(reminded, true, periodic, CheckResultView::UpToDate) matches CheckActionView::Inform(
            dialog,
        ) && dialog.title == "检查更新"@ && dialog.message == "当前已是最新版本。"@
            && dialog.buttons is Confirm,
        check_action(
            reminded,
            true,
            periodic,
            CheckResultView::Failed(error),
        ) matches CheckActionView::Inform(dialog) && dialog.title == "检查更新"@ && dialog.message
            == "检查更新失败："@ + error + "\n请确认网络连接或稍后重试。"@ && dialog.buttons is Confirm,
{
}

/// A version that the user was not told of is notified of exactly once, if the
/// first check that finds it is a periodic one, and never if that check asks
/// right away.
pub proof fn law_first_find_decides(
    reminded: Set<Seq<char>>,
    checks: Seq<Check>,
    version: Seq<char>,
    first: int,
)
    requires
        !reminded.contains(version),
        0 <= first < checks.len(),
        checks[first].result == CheckResultView::Found(version),
        forall|i: int|
            0 <= i < first ==> (#[trigger] checks[i]).result != CheckResultView::Found(version),
    ensures
        notices(reminded, checks, version) == (if checks[first].periodic {
            1nat
        } else {
            0nat
        }),
        reminded_after_all(reminded, checks).contains(version),
    decreases checks.len(),
{
    let init = checks.drop_last();
    if first == checks.len() - 1 {
        lemma_not_found(reminded, init, version);
        assert(checks.last() == checks[first]);
    } else {
        assert(init[first] == checks[first]);
        assert forall|i: int| 0 <= i < first implies (#[trigger] init[i]).result
            != CheckResultView::Found(version) by {
            assert(init[i] == checks[i]);
        }
        law_first_find_decides(reminded, init, version, first);
    }
}

proof fn lemma_not_found(reminded: Set<Seq<char>>, checks: Seq<Check>, version: Seq<char>)
    requires
        !reminded.contains(version),
        forall|i: int|
            0 <= i < checks.len() ==> (#[trigger] checks[i]).result != CheckResultView::Found(
                version,
            ),
    ensures
        notices(reminded, checks, version) == 0,
        !reminded_after_all(reminded, checks).contains(version),
    decreases checks.len(),
{
    if checks.len() > 0 {
        let init = checks.drop_last();
        assert forall|i: int| 0 <= i < init.len() implies (#[trigger] init[i]).result
            != CheckResultView::Found(version) by {
            assert(init[i] == checks[i]);
        }
        lemma_not_found(reminded, init, version);
        assert(checks.last() == checks[checks.len() - 1]);
    }
}

/// In a run of periodic checks, a version that the user was not told of before is
/// notified of exactly once if some check finds it, and not at all if none does.
pub proof fn law_periodic_checks_notify_once(
    reminded: Set<Seq<char>>,
    checks: Seq<Check>,
    version: Seq<char>,
)
    requires
        !reminded.contains(version),
        forall|i: int| 0 <= i < checks.len() ==> (#[trigger] checks[i]).periodic,
    ensures
        (exists|i: int|
            0 <= i < checks.len() && (#[trigger] checks[i]).result == CheckResultView::Found(
                version,
            )) ==> notices(reminded, checks, version) == 1,
        !(exists|i: int|
            0 <= i < checks.len() && (#[trigger] checks[i]).result == CheckResultView::Found(
                version,
            )) ==> notices(reminded, checks, version) == 0,
{
    if exists|i: int|
        0 <= i < checks.len() && (#[trigger] checks[i]).result == CheckResultView::Found(version) {
        let i = choose|i: int|
            0 <= i < checks.len() && (#[trigger] checks[i]).result == CheckResultView::Found(
                version,
            );
        let first = lemma_first_find(checks, version, i);
        law_first_find_decides(reminded, checks, version, first);
    } else {
        lemma_not_found(reminded, checks, version);
    }
}

proof fn lemma_first_find(checks: Seq<Check>, version: Seq<char>, i: int) -> (first: int)
    requires
        0 <= i < checks.len(),
        checks[i].result == CheckResultView::Found(version),
    ensures
        0 <= first <= i,
        checks[first].result == CheckResultView::Found(version),
        forall|k: int|
            0 <= k < first ==> (#[trigger] checks[k]).result != CheckResultView::Found(version),
    decreases i,
{
    if exists|k: int|
        0 <= k < i && (#[trigger] checks[k]).result == CheckResultView::Found(version) {
        let k = choose|k: int|
            0 <= k < i && (#[trigger] checks[k]).result == CheckResultView::Found(version);
        lemma_first_find(checks, version, k)
    } else {
        i
    }
}

/// Every action on a notification but its closing hands the waiting update out,
/// that very update, and leaves none behind; closing it hands nothing out and
/// keeps the update.
pub proof fn law_click_hands_out<T>(pending: Option<T>, action: Seq<char>)
    ensures
        action != "__closed"@ ==> handed_out(pending, action) == pending && still_pending(
            pending,
            action,
        ) is None,
        action == "__closed"@ ==> handed_out(pending, action) is None && still_pending(
            pending,
            action,
        ) == pending,
{
}

/// At the start the user was told of no version.
pub proof fn law_nothing_told_at_first(reminders: Reminders, version: Seq<char>)
    requires
        Reminders::new.ensures((), reminders),
    ensures
        !reminders@.contains(version),
{
}

/// A version is fresh if and only if it was not marked before; marking it marks no
/// other version and forgets none.
pub proof fn law_marked_once(
    reminders: &mut Reminders,
    version: &str,
    fresh: bool,
    other: Seq<char>,
)
    requires
        call_ensures(update_remind_once, (reminders, version), fresh),
    ensures
        fresh <==> !old(reminders)@.contains(version@),
        final(reminders)@.contains(other) <==> old(reminders)@.contains(other) || other == version@,
{
}

/// A check that finds a version notifies of it if it is periodic and the user was
/// not told of the version before, leaves them alone if they were, and asks right
/// away if it is not periodic. Either way the version counts as told of from then
/// on, and no other one does.
pub proof fn law_found_version_reaches_user(
    reminders: &mut Reminders,
    manual: bool,
    periodic: bool,
    version: String,
    action: CheckAction,
    other: Seq<char>,
)
    requires
        call_ensures(
            check_for_updates,
            (reminders, manual, periodic, &CheckResult::Found(version)),
            action,
        ),
    ensures
        periodic && !old(reminders)@.contains(version@) ==> action is Notify,
        periodic && old(reminders)@.contains(version@) ==> action is Quiet,
        !periodic ==> action is Prompt,
        final(reminders)@.contains(other) <==> old(reminders)@.contains(other) || other == version@,
{
    law_only_found_is_remembered(old(reminders)@, CheckResultView::Found(version@), other);
}

/// A check that found nothing, or failed, is answered with a dialog if the user
/// asked for it and with silence if they did not; a failure is told whole. What
/// the user was told of stays as it was.
pub proof fn law_fruitless_check_answered(
    reminders: &mut Reminders,
    manual: bool,
    periodic: bool,
    result: CheckResult,
    action: CheckAction,
)
    requires
        call_ensures(check_for_updates, (reminders, manual, periodic, &result), action),
        !(result is Found),
    ensures
        !manual ==> action is Quiet,
        manual ==> (action matches CheckAction::Inform(dialog) && dialog.title@ == "检查更新"@
            && dialog.buttons is Confirm && dialog.message@ == (match result {
            CheckResult::Failed(error) => "检查更新失败："@ + error@
                + "\n请确认网络连接或稍后重试。"@,
            _ => "当前已是最新版本。"@,
        })),
        final(reminders)@ == old(reminders)@,
{
}

/// The user learns of an update by a notification wherever clicks on one are
/// reported, and is asked directly on macOS.
pub proof fn law_offer_by_platform(platform: Platform, offer: UpdateOffer)
    requires
        notify_update_available.ensures((platform,), offer),
    ensures
        offer == UpdateOffer::Prompt <==> platform is MacOs,
        offer == UpdateOffer::Toast <==> platform is Linux || platform is Windows,
{
}

/// The question names the version that was found and then the one that runs, both
/// whole, and offers to install it now or later.
pub proof fn law_prompt_names_versions(version: &str, current: &str, dialog: Dialog)
    requires
        prompt_update.ensures((version, current), dialog),
    ensures
        dialog.title@ == "发现新版本"@,
        dialog.message@ == "检测到新版本 v"@ + version@ + "（当前 v"@ + current@
            + "）。\n\n点击「立即更新」将自动下载并安装，完成后应用会自动重启。"@,
        dialog.buttons matches DialogButtons::Choice { accept, decline } && accept@ == "立即更新"@
            && decline@ == "稍后"@,
{
}

/// An update starts if and only if the user accepted it, and it is the one that
/// they were asked about.
pub proof fn law_accepted_update_starts<T>(accepted: bool, update: T, start: Option<T>)
    requires
        call_ensures(prompt_answered::<T>, (accepted, update), start),
    ensures
        start is Some <==> accepted,
        start matches Some(started) ==> started == update,
{
}

/// An update waits for its click from the start. Any action but closing the
/// notification starts it and leaves none waiting, so that the next action starts
/// nothing; closing the notification starts nothing and keeps it waiting.
pub proof fn law_waiting_update<T>(
    update: T,
    made: PendingUpdate<T>,
    pending: &mut PendingUpdate<T>,
    action: &str,
    start: Option<T>,
)
    requires
        call_ensures(PendingUpdate::<T>::new, (update,), made),
        call_ensures(PendingUpdate::<T>::on_action, (pending, action), start),
    ensures
        made@ == Some(update),
        action@ != "__closed"@ ==> start == old(pending)@ && final(pending)@ is None,
        action@ == "__closed"@ ==> start is None && final(pending)@ == old(pending)@,
{
}

} // verus!
