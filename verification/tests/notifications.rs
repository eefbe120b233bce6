use notify_rust::Notification;
use pengmai_shell::desktop::{
    notification_action, restore_window, wire_id, NotificationAction, Platform, WindowFlag,
    WindowOp, APP_ID, NOTIFICATION_EVENT,
};
use pengmai_shell::popup::{
    ensure_notify_popup, notify, notify_popup_action, notify_popup_window, show_notify_popup, PopupNext, PopupStep,
    NOTIFY_POPUP_EVENT, NOTIFY_POPUP_LABEL,
};
use pengmai_shell::toast::{
    notification_clicked, notification_sent, send_notification, update_notification, ACTION_IGNORE,
    ACTION_VIEW,
};

#[test]
fn order_notification_is_filled_in() {
    let mut n = Notification::new();
    n.icon("kept");
    send_notification(&mut n, "新订单", "WEB1", Some(-1));
    assert_eq!(n.summary, "新订单");
    assert_eq!(n.body, "WEB1");
    assert_eq!(n.appname, APP_ID);
    assert_eq!(n.actions, vec!["default", "查看订单", "ignore", "忽略"]);
    assert_eq!(n.icon, "kept");
    assert!(format!("{:?}", n).contains("id: Some(4294967295)"));
}

#[test]
fn order_notification_without_id() {
    let mut n = Notification::new();
    send_notification(&mut n, "", "", None);
    assert!(format!("{:?}", n).contains("id: None"));
}

#[test]
fn update_notification_is_filled_in() {
    let mut n = Notification::new();
    update_notification(&mut n, "0.4.0");
    assert_eq!(n.summary, "发现新版本 v0.4.0");
    assert_eq!(n.body, "点击立即更新（将自动下载并重启）");
    assert_eq!(n.appname, "com.dev.pengmaitw");
    assert!(n.actions.is_empty());
}

#[test]
fn sending_is_reported() {
    assert_eq!(notification_sent(Platform::Linux, Ok(())), Ok(()));
    assert_eq!(notification_sent(Platform::MacOs, Ok(())), Ok(()));
    assert_eq!(
        notification_sent(Platform::Windows, Err("bus".to_string())),
        Err("发送通知失败: bus".to_string())
    );
    assert_eq!(notification_sent(Platform::MacOs, Err("bus".to_string())), Err("bus".to_string()));
}

#[test]
fn clicks_on_toasts() {
    assert_eq!(notification_clicked(ACTION_VIEW, Some(5)), Some(NotificationAction { id: Some(5) }));
    assert_eq!(notification_clicked("anything", None), Some(NotificationAction { id: None }));
    assert_eq!(notification_clicked(ACTION_IGNORE, Some(5)), None);
    assert_eq!(notification_clicked("__closed", Some(5)), None);
}

#[test]
fn ids_on_the_wire() {
    assert_eq!(wire_id(0), 0);
    assert_eq!(wire_id(i32::MAX), 2_147_483_647);
    assert_eq!(wire_id(-1), 4_294_967_295);
    assert_eq!(wire_id(i32::MIN), 2_147_483_648);
    assert_eq!(notification_action(None).id, None);
    assert_ne!(notification_action(Some(-1)), notification_action(Some(1)));
    assert_eq!(NOTIFICATION_EVENT, "notification:action");
}

#[test]
fn restoring_a_window() {
    assert_eq!(restore_window(true), vec![WindowOp::Show, WindowOp::Unminimize, WindowOp::Focus]);
    assert!(restore_window(false).is_empty());
}

#[test]
fn card_of_a_request() {
    let card = notify("新订单".to_string(), Some("WEB1".to_string()), Some(9), Some("details"));
    assert_eq!(card.id, Some(9));
    assert_eq!(card.title, "新订单");
    assert_eq!(card.body, "WEB1");
    assert_eq!(card.kind, "order");
    assert_eq!(card.path, Some("/orders".to_string()));
    assert_eq!(card.data, Some("details"));
}

#[test]
fn card_without_body() {
    let card = notify::<u8>("t".to_string(), None, None, None);
    assert_eq!(card.body, "");
    assert_eq!(card.id, None);
    assert_eq!(card.data, None);
}

#[test]
fn card_window_is_built_once() {
    assert!(ensure_notify_popup(true, Platform::Windows).is_none());
    let window = ensure_notify_popup(false, Platform::Windows).unwrap();
    assert_eq!(window.label, NOTIFY_POPUP_LABEL);
    assert_eq!(window.page, "notify-popup.html");
    assert_eq!(window.title, "通知");
    assert_eq!((window.width, window.height), (600, 180));
    assert_eq!(
        window.flags,
        vec![
            WindowFlag::Resizable(false),
            WindowFlag::Decorations(false),
            WindowFlag::AlwaysOnTop(true),
            WindowFlag::SkipTaskbar(true),
            WindowFlag::Shadow(false),
            WindowFlag::Focused(false),
            WindowFlag::Visible(false),
            WindowFlag::Transparent(true),
        ]
    );
}

#[test]
fn card_window_in_use() {
    assert_eq!(notify_popup_window(Some(1), None), Some(1));
    assert_eq!(notify_popup_window(Some(1), Some(2)), Some(1));
    assert_eq!(notify_popup_window(None, Some(2)), Some(2));
    assert_eq!(notify_popup_window::<u8>(None, None), None);
}

#[test]
fn card_window_is_opaque_on_macos() {
    let window = ensure_notify_popup(false, Platform::MacOs).unwrap();
    assert_eq!(window.flags.len(), 7);
    assert!(!window.flags.contains(&WindowFlag::Transparent(true)));
}

fn run_popup(fail: Option<PopupStep>) -> (Vec<PopupStep>, Result<(), String>) {
    let mut done = vec![];
    let mut step = PopupStep::Ensure;
    loop {
        done.push(step);
        let outcome = if fail == Some(step) { Err("broken".to_string()) } else { Ok(()) };
        match show_notify_popup(step, outcome) {
            PopupNext::Proceed(next) => step = next,
            PopupNext::Finished(reply) => return (done, reply),
        }
    }
}

#[test]
fn showing_a_card() {
    let all = vec![PopupStep::Ensure, PopupStep::Emit, PopupStep::Place, PopupStep::Show];
    assert_eq!(run_popup(None), (all.clone(), Ok(())));
    assert_eq!(run_popup(Some(PopupStep::Place)), (all.clone(), Ok(())));
    assert_eq!(
        run_popup(Some(PopupStep::Ensure)),
        (vec![PopupStep::Ensure], Err("通知窗口创建失败".to_string()))
    );
    assert_eq!(
        run_popup(Some(PopupStep::Emit)),
        (vec![PopupStep::Ensure, PopupStep::Emit], Err("broken".to_string()))
    );
    assert_eq!(run_popup(Some(PopupStep::Show)), (all, Err("broken".to_string())));
    assert_eq!(NOTIFY_POPUP_EVENT, "notify:show");
}

#[test]
fn clicks_on_cards() {
    assert_eq!(notify_popup_action(Some(3), "view"), Some(NotificationAction { id: Some(3) }));
    assert_eq!(notify_popup_action(None, "view"), Some(NotificationAction { id: None }));
    assert_eq!(notify_popup_action(Some(3), "ignore"), None);
    assert_eq!(notify_popup_action(Some(3), "View"), None);
    assert_eq!(notify_popup_action(Some(3), ""), None);
}
