use pengmai_shell::desktop::DialogButtons;
use pengmai_shell::shell::{
    cache_dirs, child_built, child_window, close_answered, close_requested, frontend_url, main_window_title,
    menu_entries, menu_event, scheduled_check, setup_steps, title_changed, tray_clicked,
    ButtonState, ChildAnswer, CloseAction, MenuAction, MouseButton, ScheduledCheck, SetupStep,
};

#[test]
fn start_up_order() {
    assert_eq!(
        setup_steps(true),
        vec![
            SetupStep::ClearCaches,
            SetupStep::MainWindow,
            SetupStep::Tray,
            SetupStep::ScanListener,
            SetupStep::UpdateChecks,
            SetupStep::PopupWindow,
        ]
    );
    assert!(!setup_steps(false).contains(&SetupStep::UpdateChecks));
    assert_eq!(setup_steps(false).len(), 5);
}

#[test]
fn only_caches_are_cleared() {
    let dirs: Vec<String> = cache_dirs().iter().map(|dir| dir.join("/")).collect();
    assert_eq!(
        dirs,
        vec![
            "com.dev.pengmaitw/EBWebView/Default/Cache",
            "com.dev.pengmaitw/EBWebView/Default/Code Cache",
            "com.dev.pengmaitw/EBWebView/Default/GPUCache",
        ]
    );
    for kept in ["Local Storage", "IndexedDB", "Network/Cookies"] {
        let path = "com.dev.pengmaitw/EBWebView/Default/".to_string() + kept;
        assert!(dirs.iter().all(|dir| !path.starts_with(dir.as_str())));
    }
}

#[test]
fn page_of_the_main_window() {
    assert_eq!(frontend_url(None), "http://110.42.239.85:5000");
    assert_eq!(frontend_url(Some("http://localhost:5000".to_string())), "http://localhost:5000");
    assert_eq!(frontend_url(Some(String::new())), "");
}

#[test]
fn titles() {
    assert_eq!(main_window_title("0.3.1"), "芃麦印刷-0.3.1");
    assert_eq!(title_changed("main", "芃麦印刷-0.3.1", "订单"), "芃麦印刷-0.3.1");
    assert_eq!(title_changed("window_1", "芃麦印刷-0.3.1", "订单"), "订单");
}

#[test]
fn windows_opened_by_pages() {
    let window = child_window("http://localhost:5000/a", 1_767_225_600_123);
    assert_eq!(window.label, "window_1767225600123");
    assert_eq!(window.target, "http://localhost:5000/a");
    assert_eq!(window.title, "http://localhost:5000/a");
    let blank = child_window("", 0);
    assert_eq!(blank.label, "window_0");
    assert_eq!(blank.target, "about:blank");
    assert_eq!(blank.title, "");
    let blank = child_window("about:blank", 1);
    assert_eq!(blank.target, "about:blank");
    assert_eq!(blank.title, "about:blank");
}

#[test]
fn answers_to_pages_that_open_windows() {
    assert!(matches!(child_built(Some(3)), ChildAnswer::Create(3)));
    assert!(matches!(child_built::<u8>(None), ChildAnswer::Deny));
}

#[test]
fn labels_of_opened_windows_differ() {
    assert_ne!(child_window("", 12).label, child_window("", 120).label);
    assert_ne!(child_window("", 0).label, "main");
}

#[test]
fn closing_windows() {
    let dialog = close_requested("main").unwrap();
    assert_eq!(dialog.title, "是否后台挂起？");
    assert_eq!(
        dialog.message,
        "关闭后程序将最小化到系统托盘后台运行，仍可接收系统通知。你也可以选择退出程序。"
    );
    match dialog.buttons {
        DialogButtons::Choice { accept, decline } => {
            assert_eq!(accept, "后台挂起");
            assert_eq!(decline, "退出程序");
        }
        _ => panic!("two buttons were expected"),
    }
    assert!(close_requested("notify_popup").is_none());
    assert!(close_requested("").is_none());
    assert_eq!(close_answered(true), CloseAction::Hide);
    assert_eq!(close_answered(false), CloseAction::Exit);
}

#[test]
fn tray_menu() {
    let entries = menu_entries();
    let pairs: Vec<(&str, &str)> =
        entries.iter().map(|e| (e.id.as_str(), e.label.as_str())).collect();
    assert_eq!(pairs, vec![("show", "显示主界面"), ("update", "检查更新…"), ("quit", "退出")]);
    assert_eq!(menu_event("show"), MenuAction::ShowMain);
    assert_eq!(menu_event("update"), MenuAction::CheckUpdates { manual: true, periodic: false });
    assert_eq!(menu_event("quit"), MenuAction::Quit);
    assert_eq!(menu_event("Show"), MenuAction::Nothing);
    assert!(entries.iter().all(|e| menu_event(&e.id) != MenuAction::Nothing));
}

#[test]
fn tray_clicks() {
    assert!(tray_clicked(MouseButton::Left, ButtonState::Up));
    assert!(!tray_clicked(MouseButton::Left, ButtonState::Down));
    assert!(!tray_clicked(MouseButton::Right, ButtonState::Up));
    assert!(!tray_clicked(MouseButton::Middle, ButtonState::Up));
}

#[test]
fn timetable_of_checks() {
    assert_eq!(
        scheduled_check(true),
        ScheduledCheck { delay: 8, manual: false, periodic: false }
    );
    assert_eq!(
        scheduled_check(false),
        ScheduledCheck { delay: 3600, manual: false, periodic: true }
    );
}
