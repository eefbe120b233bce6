//! The life of the shell: start-up, the main window and its children, the tray,
//! and the timetable of update checks.
use vstd::arithmetic::power::pow;
use vstd::prelude::*;

use crate::desktop::{Dialog, DialogButtons, DialogButtonsView, DialogView, APP_ID, MAIN_LABEL};
use crate::text::{decimal_text, joined, law_decimal_digits, law_decimal_length, same_text};

verus! {

/// What the shell does at start-up.
#[derive(Clone, Copy, Debug, PartialEq, Eq, Structural)]
pub enum SetupStep {
    /// Remove the caches of the web view.
    ClearCaches,
    /// Build the main window.
    MainWindow,
    /// Build the tray icon and its menu.
    Tray,
    /// Listen for barcode scanners.
    ScanListener,
    /// Start the timetable of update checks.
    UpdateChecks,
    /// Build the card window, hidden, so that the first card appears at once.
    PopupWindow,
}

/// Whether a step opens a web view, which locks its caches.
pub open spec fn opens_web_view(step: SetupStep) -> bool {
    step == SetupStep::MainWindow || step == SetupStep::PopupWindow
}

/// The steps of the start-up, in order.
pub open spec fn setup_order(release: bool) -> Seq<SetupStep> {
    let start = seq![
        SetupStep::ClearCaches,
        SetupStep::MainWindow,
        SetupStep::Tray,
        SetupStep::ScanListener,
    ];
    if release {
        start.push(SetupStep::UpdateChecks).push(SetupStep::PopupWindow)
    } else {
        start.push(SetupStep::PopupWindow)
    }
}

/// The steps of the start-up. Only release builds check for updates on their own.
pub fn setup_steps(release: bool) -> (steps: Vec<SetupStep>)
    ensures
        steps@ == setup_order(release),
{
    let mut steps: Vec<SetupStep> = Vec::new();
    steps.push(SetupStep::ClearCaches);
    steps.push(SetupStep::MainWindow);
    steps.push(SetupStep::Tray);
    steps.push(SetupStep::ScanListener);
    if release {
        steps.push(SetupStep::UpdateChecks);
    }
    steps.push(SetupStep::PopupWindow);
    steps
}

/// The caches are cleared before any web view can lock them.
pub proof fn law_caches_cleared_first(release: bool, i: int)
    requires
        0 <= i < setup_order(release).len(),
        opens_web_view(setup_order(release)[i]),
    ensures
        exists|k: int| 0 <= k < i && #[trigger] setup_order(release)[k] == SetupStep::ClearCaches,
{
    assert(setup_order(release)[0] == SetupStep::ClearCaches);
}

/// A directory below the directory of local application data, as its path
/// components.
pub open spec fn cache_dir(name: Seq<char>) -> Seq<Seq<char>> {
    seq![APP_ID@, "EBWebView"@, "Default"@, name]
}

/// The directories that are removed at start-up.
pub open spec fn cache_dirs_spec() -> Seq<Seq<Seq<char>>> {
    seq![cache_dir("Cache"@), cache_dir("Code Cache"@), cache_dir("GPUCache"@)]
}

/// The texts of a list.
pub open spec fn texts(list: Seq<String>) -> Seq<Seq<char>> {
    list.map_values(|s: String| s@)
}

fn cache_path(name: &str) -> (path: Vec<String>)
    ensures
        texts(path@) == cache_dir(name@),
{
    let mut path: Vec<String> = Vec::new();
    path.push(APP_ID.to_owned());
    path.push("EBWebView".to_owned());
    path.push("Default".to_owned());
    path.push(name.to_owned());
    assert(texts(path@) =~= cache_dir(name@));
    path
}

/// The directories to remove at start-up, each as its path components below the
/// directory of local application data. They hold caches and nothing else.
pub fn cache_dirs() -> (dirs: Vec<Vec<String>>)
    ensures
        dirs@.map_values(|dir: Vec<String>| texts(dir@)) == cache_dirs_spec(),
{
    let mut dirs: Vec<Vec<String>> = Vec::new();
    dirs.push(cache_path("Cache"));
    dirs.push(cache_path("Code Cache"));
    dirs.push(cache_path("GPUCache"));
    assert(dirs@.map_values(|dir: Vec<String>| texts(dir@)) =~= cache_dirs_spec());
    dirs
}

/// Whether removing the caches removes what is at a path.
pub open spec fn is_cleared(path: Seq<Seq<char>>) -> bool {
    exists|i: int|
        0 <= i < cache_dirs_spec().len() && (#[trigger] cache_dirs_spec()[i]).is_prefix_of(path)
}

/// Clearing the caches touches nothing but three directories of the profile: the
/// login state, the databases and the cookies in it survive.
pub proof fn law_profile_survives(path: Seq<Seq<char>>)
    ensures
        is_cleared(path) <==> {
            &&& path.len() >= 4
            &&& path[0] == APP_ID@
            &&& path[1] == "EBWebView"@
            &&& path[2] == "Default"@
            &&& path[3] == "Cache"@ || path[3] == "Code Cache"@ || path[3] == "GPUCache"@
        },
        is_cleared(path) ==> path[3] != "Local Storage"@ && path[3] != "IndexedDB"@ && path[3]
            != "Network"@,
{
    if is_cleared(path) {
        let i = choose|i: int|
            0 <= i < cache_dirs_spec().len() && (#[trigger] cache_dirs_spec()[i]).is_prefix_of(
                path,
            );
        let dir = cache_dirs_spec()[i];
        assert(dir.len() == 4);
        assert(path[0] == dir[0]);
        assert(path[1] == dir[1]);
        assert(path[2] == dir[2]);
        assert(path[3] == dir[3]);
    }
    if path.len() >= 4 && path[0] == APP_ID@ && path[1] == "EBWebView"@ && path[2] == "Default"@ {
        assert(cache_dirs_spec()[0] == cache_dir("Cache"@));
        assert(cache_dirs_spec()[1] == cache_dir("Code Cache"@));
        assert(cache_dirs_spec()[2] == cache_dir("GPUCache"@));
    }
    reveal_strlit("Cache");
    reveal_strlit("Code Cache");
    reveal_strlit("GPUCache");
    reveal_strlit("Local Storage");
    reveal_strlit("IndexedDB");
    reveal_strlit("Network");
    assert("Cache"@.len() == 5);
    assert("Code Cache"@.len() == 10);
    assert("GPUCache"@.len() == 8);
    assert("Local Storage"@.len() == 13);
    assert("IndexedDB"@.len() == 9);
    assert("Network"@.len() == 7);
}

/// The page that the main window loads, unless the environment names another.
pub fn frontend_url(configured: Option<String>) -> (url: String)
    ensures
        url@ == (match configured {
            Some(other) => other@,
            None => "http://110.42.239.85:5000"@,
        }),
{
    match configured {
        Some(other) => other,
        None => "http://110.42.239.85:5000".to_owned(),
    }
}

/// Width of the main window in logical pixels.
pub const MAIN_WIDTH: u32 = 1200;

/// Height of the main window in logical pixels.
pub const MAIN_HEIGHT: u32 = 800;

/// What the tray icon says when pointed at.
pub const TRAY_TOOLTIP: &'static str = "芃麦印刷";

/// The title of the main window.
pub fn main_window_title(version: &str) -> (title: String)
    ensures
        title@ == "芃麦印刷-"@ + version@,
{
    joined("芃麦印刷-", version)
}

/// The title of a window whose page asks for another one: the main window keeps
/// the `fixed` title, the windows that pages open follow their pages.
pub fn title_changed(label: &str, fixed: &str, asked: &str) -> (title: String)
    ensures
        title@ == (if label@ == MAIN_LABEL@ {
            fixed@
        } else {
            asked@
        }),
{
    if same_text(label, MAIN_LABEL) {
        fixed.to_owned()
    } else {
        asked.to_owned()
    }
}

/// A window that a page opened.
pub struct ChildWindow {
    pub label: String,
    pub target: String,
    pub title: String,
}

/// The mathematical content of a `ChildWindow`.
#[verifier::ext_equal]
pub struct ChildWindowView {
    pub label: Seq<char>,
    pub target: Seq<char>,
    pub title: Seq<char>,
}

impl View for ChildWindow {
    type V = ChildWindowView;

    open spec fn view(&self) -> ChildWindowView {
        ChildWindowView { label: self.label@, target: self.target@, title: self.title@ }
    }
}

/// The label of a window opened at a time in milliseconds.
pub open spec fn child_label(millis: nat) -> Seq<char> {
    "window_"@ + crate::text::decimal(millis)
}

/// What a window shows that was opened with an address. Without an address it is
/// blank, for the page to write into.
pub open spec fn child_target(url: Seq<char>) -> Seq<char> {
    if url.len() == 0 {
        "about:blank"@
    } else {
        url
    }
}

/// The window to build where a page opens one at a time in milliseconds.
pub fn child_window(url: &str, millis: u128) -> (window: ChildWindow)
    ensures
        window@ == (ChildWindowView {
            label: child_label(millis as nat),
            target: child_target(url@),
            title: url@,
        }),
{
    let target = if url.is_empty() || same_text(url, "about:blank") {
        "about:blank".to_owned()
    } else {
        url.to_owned()
    };
    ChildWindow {
        label: joined("window_", decimal_text(millis).as_str()),
        target,
        title: url.to_owned(),
    }
}

/// What a page is answered that asked for a window.
pub enum ChildAnswer<W> {
    /// The window that was built for it.
    Create(W),
    /// It gets none.
    Deny,
}

/// Answers a page that asked for a window: it gets the one that was built, and is
/// denied where none could be built.
pub fn child_built<W>(built: Option<W>) -> (answer: ChildAnswer<W>)
    ensures
        answer == (match built {
            Some(window) => ChildAnswer::Create(window),
            None => ChildAnswer::Deny,
        }),
{
    match built {
        Some(window) => ChildAnswer::Create(window),
        None => ChildAnswer::Deny,
    }
}

/// Windows opened at different times have different labels.
pub proof fn law_child_labels_distinct(a: nat, b: nat)
    requires
        a != b,
    ensures
        child_label(a) != child_label(b),
{
    if child_label(a) == child_label(b) {
        let n = "window_"@.len() as int;
        assert(child_label(a).skip(n) == crate::text::decimal(a));
        assert(child_label(b).skip(n) == crate::text::decimal(b));
        crate::text::law_decimal_injective(a, b);
    }
}

/// A window that a page opened never takes the label of one of the shell's own.
pub proof fn law_child_labels_reserved(millis: nat)
    ensures
        child_label(millis) != MAIN_LABEL@,
        child_label(millis) != crate::popup::NOTIFY_POPUP_LABEL@,
        child_label(millis) != "update_progress"@,
{
    reveal_strlit("window_");
    reveal_strlit("main");
    reveal_strlit("notify_popup");
    reveal_strlit("update_progress");
    assert(child_label(millis)[0] == 'w');
    assert(MAIN_LABEL@[0] == 'm');
    assert(crate::popup::NOTIFY_POPUP_LABEL@[0] == 'n');
    assert("update_progress"@[0] == 'u');
}

/// The dialog that asks whether to keep running in the background.
pub open spec fn close_dialog() -> DialogView {
    DialogView {
        title: "是否后台挂起？"@,
        message:
            "关闭后程序将最小化到系统托盘后台运行，仍可接收系统通知。你也可以选择退出程序。"@,
        buttons: DialogButtonsView::Choice { accept: "后台挂起"@, decline: "退出程序"@ },
    }
}

/// What to do where the user closes a window: the main window stays open and
/// asks, every other window just closes.
pub fn close_requested(label: &str) -> (ask: Option<Dialog>)
    ensures
        ask is Some <==> label@ == MAIN_LABEL@,
        ask is Some ==> ask->0@ == close_dialog(),
{
    if same_text(label, MAIN_LABEL) {
        Some(
            Dialog {
                title: "是否后台挂起？".to_owned(),
                message:
                    "关闭后程序将最小化到系统托盘后台运行，仍可接收系统通知。你也可以选择退出程序。".to_owned(),
                buttons: DialogButtons::Choice {
                    accept: "后台挂起".to_owned(),
                    decline: "退出程序".to_owned(),
                },
            },
        )
    } else {
        None
    }
}

/// What the answer to the closing dialog leads to.
#[derive(Clone, Copy, Debug, PartialEq, Eq, Structural)]
pub enum CloseAction {
    /// Hide the window; the shell stays in the tray.
    Hide,
    /// End the shell.
    Exit,
}

/// Decides by the answer to the closing dialog.
pub fn close_answered(accepted: bool) -> (action: CloseAction)
    ensures
        action == (if accepted {
            CloseAction::Hide
        } else {
            CloseAction::Exit
        }),
{
    if accepted {
        CloseAction::Hide
    } else {
        CloseAction::Exit
    }
}

/// An entry of the tray menu.
pub struct MenuEntry {
    pub id: String,
    pub label: String,
}

/// The identifiers and captions of a menu.
pub open spec fn menu_view(entries: Seq<MenuEntry>) -> Seq<(Seq<char>, Seq<char>)> {
    entries.map_values(|e: MenuEntry| (e.id@, e.label@))
}

/// The tray menu.
pub open spec fn menu_spec() -> Seq<(Seq<char>, Seq<char>)> {
    seq![("show"@, "显示主界面"@), ("update"@, "检查更新…"@), ("quit"@, "退出"@)]
}

/// The entries of the tray menu, from top to bottom.
pub fn menu_entries() -> (entries: Vec<MenuEntry>)
    ensures
        menu_view(entries@) == menu_spec(),
{
    let mut entries: Vec<MenuEntry> = Vec::new();
    entries.push(MenuEntry { id: "show".to_owned(), label: "显示主界面".to_owned() });
    entries.push(MenuEntry { id: "update".to_owned(), label: "检查更新…".to_owned() });
    entries.push(MenuEntry { id: "quit".to_owned(), label: "退出".to_owned() });
    assert(menu_view(entries@) =~= menu_spec());
    entries
}

/// What a menu entry leads to.
#[derive(Clone, Copy, Debug, PartialEq, Eq, Structural)]
pub enum MenuAction {
    /// Restore the main window.
    ShowMain,
    /// Check for updates.
    CheckUpdates { manual: bool, periodic: bool },
    /// End the shell.
    Quit,
    /// Nothing.
    Nothing,
}

/// What a menu entry leads to. A check from the menu is one that the user asked
/// for.
pub open spec fn menu_action(id: Seq<char>) -> MenuAction {
    if id == "show"@ {
        MenuAction::ShowMain
    } else if id == "update"@ {
        MenuAction::CheckUpdates { manual: true, periodic: false }
    } else if id == "quit"@ {
        MenuAction::Quit
    } else {
        MenuAction::Nothing
    }
}

/// Decides by the identifier of a menu entry.
pub fn menu_event(id: &str) -> (action: MenuAction)
    ensures
        action == menu_action(id@),
{
    if same_text(id, "show") {
        MenuAction::ShowMain
    } else if same_text(id, "update") {
        MenuAction::CheckUpdates { manual: true, periodic: false }
    } else if same_text(id, "quit") {
        MenuAction::Quit
    } else {
        MenuAction::Nothing
    }
}

/// An identifier leads somewhere if and only if the tray menu offers it.
pub proof fn law_menu_complete(id: Seq<char>)
    ensures
        menu_action(id) != MenuAction::Nothing <==> exists|i: int|
            0 <= i < menu_spec().len() && (#[trigger] menu_spec()[i]).0 == id,
{
    assert(menu_spec()[0].0 == "show"@);
    assert(menu_spec()[1].0 == "update"@);
    assert(menu_spec()[2].0 == "quit"@);
}

/// A mouse button.
#[derive(Clone, Copy, Debug, PartialEq, Eq, Structural)]
pub enum MouseButton {
    Left,
    Right,
    Middle,
}

/// Whether a mouse button went down or came up.
#[derive(Clone, Copy, Debug, PartialEq, Eq, Structural)]
pub enum ButtonState {
    Up,
    Down,
}

/// Whether a click on the tray icon restores the main window: the left button
/// does, when it comes up.
pub fn tray_clicked(button: MouseButton, state: ButtonState) -> (restore: bool)
    ensures
        restore == (button == MouseButton::Left && state == ButtonState::Up),
{
    button == MouseButton::Left && state == ButtonState::Up
}

/// An update check that the shell makes on its own.
#[derive(Clone, Copy, Debug, PartialEq, Eq, Structural)]
pub struct ScheduledCheck {
    /// Seconds to wait before it.
    pub delay: u64,
    pub manual: bool,
    pub periodic: bool,
}

/// The checks of the timetable, counted from zero: one shortly after the start
/// that may ask the user at once, then one every hour in the background.
pub open spec fn timetable(n: nat) -> ScheduledCheck {
    if n == 0 {
        ScheduledCheck { delay: 8, manual: false, periodic: false }
    } else {
        ScheduledCheck { delay: 3600, manual: false, periodic: true }
    }
}

/// The next check of the timetable, where `first` says that none was made yet.
pub fn scheduled_check(first: bool) -> (check: ScheduledCheck)
    ensures
        forall|n: nat| first == (n == 0) ==> check == #[trigger] timetable(n),
{
    if first {
        ScheduledCheck { delay: 8, manual: false, periodic: false }
    } else {
        ScheduledCheck { delay: 3600, manual: false, periodic: true }
    }
}

/// Seconds waited in all before a check of the timetable.
pub open spec fn waited(n: nat) -> nat
    decreases n,
{
    timetable(n).delay as nat + if n == 0 {
        0
    } else {
        waited((n - 1) as nat)
    }
}

/// The checks come eight seconds after the start and every hour from then on,
/// and none of them is manual.
pub proof fn law_timetable(n: nat)
    ensures
        waited(n) == 8 + 3600 * n,
        !timetable(n).manual,
        timetable(n).periodic <==> n > 0,
    decreases n,
{
    if n > 0 {
        law_timetable((n - 1) as nat);
    }
}

/// Every step of the start-up is taken exactly once, the update checks in release
/// builds only.
pub proof fn law_setup_complete(release: bool, step: SetupStep)
    ensures
        setup_order(release).contains(step) <==> release || step != SetupStep::UpdateChecks,
        setup_order(release).no_duplicates(),
{
    let order = setup_order(release);
    assert(order[0] == SetupStep::ClearCaches);
    assert(order[1] == SetupStep::MainWindow);
    assert(order[2] == SetupStep::Tray);
    assert(order[3] == SetupStep::ScanListener);
    assert(order[4] == SetupStep::UpdateChecks || order[4] == SetupStep::PopupWindow);
    assert(order.last() == SetupStep::PopupWindow);
    assert(order[order.len() - 1] == SetupStep::PopupWindow);
}

/// A release build starts up like any other, but for the update checks.
pub proof fn law_release_only_adds_checks()
    ensures
        setup_order(true).filter(|step: SetupStep| step != SetupStep::UpdateChecks) == setup_order(
            false,
        ),
{
    let keep = |step: SetupStep| step != SetupStep::UpdateChecks;
    let release = setup_order(true);
    let start = seq![
        SetupStep::ClearCaches,
        SetupStep::MainWindow,
        SetupStep::Tray,
        SetupStep::ScanListener,
    ];
    assert(release.drop_last().drop_last() == start);
    reveal_with_fuel(Seq::filter, 7);
    assert(start.drop_last().drop_last().drop_last().drop_last() == Seq::<SetupStep>::empty());
    assert(start.filter(keep) == start);
}

/// Every address that is not empty is shown as it is, whatever it is; only without
/// an address the window is blank.
pub proof fn law_address_shown(url: Seq<char>)
    ensures
        url.len() > 0 ==> child_target(url) == url,
        url.len() == 0 ==> child_target(url) == "about:blank"@,
{
}

/// Two different addresses, neither of them empty, are shown as different pages.
pub proof fn law_addresses_told_apart(a: Seq<char>, b: Seq<char>)
    requires
        a != b,
        a.len() > 0,
        b.len() > 0,
    ensures
        child_target(a) != child_target(b),
{
}

/// The label of a window spells the time at which it was opened, in decimal, the
/// digit of each place behind the word `window_`.
pub proof fn law_child_label_spells_time(millis: nat, place: nat)
    requires
        place + 7 < child_label(millis).len(),
    ensures
        child_label(millis).take(7) == "window_"@,
        child_label(millis)[child_label(millis).len() - 1 - place] as u32 == 48 + (millis as int
            / pow(10, place)) % 10,
        millis < pow(10, (child_label(millis).len() - 7) as nat),
        millis > 0 ==> millis >= pow(10, (child_label(millis).len() - 8) as nat),
{
    reveal_strlit("window_");
    assert("window_"@.len() == 7);
    let number = crate::text::decimal(millis);
    let label = child_label(millis);
    assert(label.take(7) == "window_"@);
    assert(label[label.len() - 1 - place] == number[number.len() - 1 - place]);
    law_decimal_digits(millis, place);
    law_decimal_length(millis);
}

/// Each entry of the tray menu does what it says, and no other identifier does
/// anything: a check from the menu is manual and never periodic.
pub proof fn law_menu_entries_act(id: Seq<char>)
    ensures
        menu_action(id) is ShowMain <==> id == "show"@,
        menu_action(id) is CheckUpdates <==> id == "update"@,
        menu_action(id) is Quit <==> id == "quit"@,
        menu_action(id) matches MenuAction::CheckUpdates { manual, periodic } ==> manual
            && !periodic,
{
    reveal_strlit("show");
    reveal_strlit("update");
    reveal_strlit("quit");
    assert("show"@[0] == 's');
    assert("update"@[0] == 'u');
    assert("quit"@[0] == 'q');
}

/// The start-up takes its steps in order: the caches go first, the main window
/// comes before everything that needs it, and the hidden card window comes last.
pub proof fn law_start_up(release: bool, steps: Vec<SetupStep>)
    requires
        setup_steps.ensures((release,), steps),
    ensures
        steps@.first() == SetupStep::ClearCaches,
        steps@[1] == SetupStep::MainWindow,
        steps@.last() == SetupStep::PopupWindow,
        forall|step: SetupStep| #[trigger]
            steps@.contains(step) <==> release || step != SetupStep::UpdateChecks,
        steps@.no_duplicates(),
{
    assert forall|step: SetupStep| #[trigger]
        steps@.contains(step) <==> release || step != SetupStep::UpdateChecks by {
        law_setup_complete(release, step);
    }
    law_setup_complete(release, SetupStep::Tray);
}

/// The directories that are removed are the three caches of the profile and no
/// other.
pub proof fn law_caches_removed(dirs: Vec<Vec<String>>, i: int)
    requires
        cache_dirs.ensures((), dirs),
    ensures
        dirs@.len() == 3,
        0 <= i < 3 ==> dirs@[i]@.len() == 4 && dirs@[i]@[0]@ == "com.dev.pengmaitw"@
            && dirs@[i]@[1]@ == "EBWebView"@ && dirs@[i]@[2]@ == "Default"@,
        dirs@[0]@[3]@ == "Cache"@,
        dirs@[1]@[3]@ == "Code Cache"@,
        dirs@[2]@[3]@ == "GPUCache"@,
{
    let view = dirs@.map_values(|dir: Vec<String>| texts(dir@));
    assert(view.len() == 3);
    assert forall|n: int| 0 <= n < 3 implies #[trigger] view[n] == texts(dirs@[n]@) by {}
    assert(view[0] == cache_dir("Cache"@));
    assert(view[1] == cache_dir("Code Cache"@));
    assert(view[2] == cache_dir("GPUCache"@));
    assert forall|n: int, m: int|
        0 <= n < 3 && 0 <= m < 4 implies #[trigger] view[n][m] == dirs@[n]@[m]@ by {
        assert(view[n].len() == dirs@[n]@.len());
    }
    assert(view[0][3] == dirs@[0]@[3]@);
    assert(view[1][3] == dirs@[1]@[3]@);
    assert(view[2][3] == dirs@[2]@[3]@);
    if 0 <= i < 3 {
        assert(view[i][0] == dirs@[i]@[0]@);
        assert(view[i][1] == dirs@[i]@[1]@);
        assert(view[i][2] == dirs@[i]@[2]@);
        assert(view[i].len() == dirs@[i]@.len());
    }
}

/// The main window loads the page that the environment names, whatever it names,
/// and the online one where it names none.
pub proof fn law_page_loaded(configured: Option<String>, url: String)
    requires
        frontend_url.ensures((configured,), url),
    ensures
        configured matches Some(other) ==> url@ == other@,
        configured is None ==> url@ == "http://110.42.239.85:5000"@,
{
}

/// The title of the main window ends with the version, whole, so that different
/// versions have different titles.
pub proof fn law_title_shows_version(
    version: &str,
    title: String,
    other_version: &str,
    other_title: String,
)
    requires
        main_window_title.ensures((version,), title),
        main_window_title.ensures((other_version,), other_title),
    ensures
        title@ == "芃麦印刷-"@ + version@,
        title@ == other_title@ <==> version@ == other_version@,
{
    let n = "芃麦印刷-"@.len() as int;
    assert(title@.skip(n) == version@);
    assert(other_title@.skip(n) == other_version@);
}

/// The main window keeps its title, whatever title its page asks for; every other
/// window takes the title that its page asks for, whatever it is.
pub proof fn law_main_title_fixed(label: &str, fixed: &str, asked: &str, title: String)
    requires
        title_changed.ensures((label, fixed, asked), title),
    ensures
        label@ == "main"@ ==> title@ == fixed@,
        label@ != "main"@ ==> title@ == asked@,
{
}

/// A page that opens an address gets a window that shows this address, whole,
/// under the address as its title; without an address it gets a blank one.
pub proof fn law_child_shows_address(url: &str, millis: u128, window: ChildWindow)
    requires
        child_window.ensures((url, millis), window),
    ensures
        url@.len() > 0 ==> window.target@ == url@,
        url@.len() == 0 ==> window.target@ == "about:blank"@,
        window.title@ == url@,
{
    law_address_shown(url@);
    assert(window@.target == window.target@);
    assert(window@.title == window.title@);
}

/// Two windows have the same label if and only if they were opened at the same
/// time, whatever they show, and no window has a label of the shell's own.
pub proof fn law_child_labels(
    url: &str,
    millis: u128,
    window: ChildWindow,
    other_url: &str,
    other_millis: u128,
    other: ChildWindow,
)
    requires
        child_window.ensures((url, millis), window),
        child_window.ensures((other_url, other_millis), other),
    ensures
        window.label@ == other.label@ <==> millis == other_millis,
        window.label@ == "window_"@ + crate::text::decimal(millis as nat),
        window.label@ != "main"@,
        window.label@ != "notify_popup"@,
        window.label@ != "update_progress"@,
{
    assert(window@.label == window.label@);
    assert(other@.label == other.label@);
    law_child_labels_reserved(millis as nat);
    if millis != other_millis {
        law_child_labels_distinct(millis as nat, other_millis as nat);
    }
}

/// A page that asked for a window gets the one that was built for it, and is
/// denied if and only if none was.
pub proof fn law_child_answered<W>(built: Option<W>, answer: ChildAnswer<W>)
    requires
        call_ensures(child_built::<W>, (built,), answer),
    ensures
        answer is Deny <==> built is None,
        answer matches ChildAnswer::Create(window) ==> built == Some(window),
{
}

/// Closing the main window asks first, closing any other window does not.
pub proof fn law_closing_asks(label: &str, ask: Option<Dialog>)
    requires
        close_requested.ensures((label,), ask),
    ensures
        ask is Some <==> label@ == "main"@,
        ask matches Some(dialog) ==> dialog.title@ == "是否后台挂起？"@ && dialog.message@
            == "关闭后程序将最小化到系统托盘后台运行，仍可接收系统通知。你也可以选择退出程序。"@ && (
        dialog.buttons matches DialogButtons::Choice { accept, decline } && accept@
            == "后台挂起"@ && decline@ == "退出程序"@),
{
    if let Some(dialog) = ask {
        assert(dialog@.title == dialog.title@ && dialog@.message == dialog.message@);
    }
}

/// The shell ends if and only if the user declines to keep it in the background.
pub proof fn law_close_answer(accepted: bool, action: CloseAction)
    requires
        close_answered.ensures((accepted,), action),
    ensures
        action == CloseAction::Hide <==> accepted,
        action == CloseAction::Exit <==> !accepted,
{
}

/// Every entry of the tray menu leads somewhere, and an identifier that is in no
/// entry leads nowhere.
pub proof fn law_menu_acts(entries: Vec<MenuEntry>, id: &str, action: MenuAction)
    requires
        menu_entries.ensures((), entries),
        menu_event.ensures((id,), action),
    ensures
        entries@.len() == 3,
        action == MenuAction::ShowMain <==> id@ == entries@[0].id@,
        action == (MenuAction::CheckUpdates { manual: true, periodic: false }) <==> id@
            == entries@[1].id@,
        action == MenuAction::Quit <==> id@ == entries@[2].id@,
        action == MenuAction::Nothing <==> id@ != "show"@ && id@ != "update"@ && id@ != "quit"@,
        entries@[0].label@ == "显示主界面"@,
        entries@[1].label@ == "检查更新…"@,
        entries@[2].label@ == "退出"@,
{
    law_menu_entries_act(id@);
    let view = menu_view(entries@);
    assert(view.len() == entries@.len());
    assert(view[0] == (entries@[0].id@, entries@[0].label@));
    assert(view[1] == (entries@[1].id@, entries@[1].label@));
    assert(view[2] == (entries@[2].id@, entries@[2].label@));
}

/// The main window comes back by a click of the left button, once it comes up, and
/// by no other.
pub proof fn law_tray_click(button: MouseButton, state: ButtonState, restore: bool)
    requires
        tray_clicked.ensures((button, state), restore),
    ensures
        restore <==> button is Left && state is Up,
{
}

/// The shell checks eight seconds after its start and then every hour; only the
/// checks after the first one are periodic, and none is manual.
pub proof fn law_checks_scheduled(first: bool, check: ScheduledCheck)
    requires
        scheduled_check.ensures((first,), check),
    ensures
        first ==> check.delay == 8,
        !first ==> check.delay == 3600,
        !check.manual,
        check.periodic <==> !first,
{
    let n: nat = if first {
        0
    } else {
        1
    };
    assert(check == timetable(n));
}

/// The tray icon says the name that the main window has in front of its version.
pub proof fn law_tooltip_is_name(version: &str, title: String)
    requires
        main_window_title.ensures((version,), title),
    ensures
        title@ == TRAY_TOOLTIP@ + "-"@ + version@,
{
    reveal_strlit("芃麦印刷");
    reveal_strlit("-");
    reveal_strlit("芃麦印刷-");
    assert("芃麦印刷-"@ == TRAY_TOOLTIP@ + "-"@);
}

/// The main window opens at 1200 by 800 logical pixels.
pub proof fn law_main_window_size()
    ensures
        MAIN_WIDTH == 1200,
        MAIN_HEIGHT == 800,
{
}

} // verus!
