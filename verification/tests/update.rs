use pengmai_shell::desktop::{Dialog, DialogButtons, Platform};
use pengmai_shell::update::{
    check_for_updates, notify_update_available, prompt_answered, prompt_update, update_remind_once,
    CheckAction, CheckResult, PendingUpdate, Reminders, UpdateOffer,
};

fn found(version: &str) -> CheckResult {
    CheckResult::Found(version.to_string())
}

fn informed(action: CheckAction) -> Dialog {
    match action {
        CheckAction::Inform(dialog) => dialog,
        _ => panic!("a dialog was expected"),
    }
}

#[test]
fn version_is_fresh_once() {
    let mut reminders = Reminders::new();
    assert!(update_remind_once(&mut reminders, "0.3.1"));
    assert!(!update_remind_once(&mut reminders, "0.3.1"));
    assert!(update_remind_once(&mut reminders, "0.3.2"));
    assert!(!update_remind_once(&mut reminders, "0.3.2"));
    assert!(!update_remind_once(&mut reminders, "0.3.1"));
}

#[test]
fn periodic_check_notifies_once() {
    let mut reminders = Reminders::new();
    assert!(matches!(check_for_updates(&mut reminders, false, true, &found("2")), CheckAction::Notify));
    assert!(matches!(check_for_updates(&mut reminders, false, true, &found("2")), CheckAction::Quiet));
    assert!(matches!(check_for_updates(&mut reminders, false, true, &found("3")), CheckAction::Notify));
    assert!(matches!(check_for_updates(&mut reminders, true, true, &found("2")), CheckAction::Quiet));
}

#[test]
fn direct_check_prompts_every_time_and_counts_as_reminder() {
    let mut reminders = Reminders::new();
    assert!(matches!(check_for_updates(&mut reminders, false, false, &found("2")), CheckAction::Prompt));
    assert!(matches!(check_for_updates(&mut reminders, true, false, &found("2")), CheckAction::Prompt));
    assert!(matches!(check_for_updates(&mut reminders, false, true, &found("2")), CheckAction::Quiet));
}

#[test]
fn manual_check_reports_up_to_date() {
    let mut reminders = Reminders::new();
    let dialog = informed(check_for_updates(&mut reminders, true, false, &CheckResult::UpToDate));
    assert_eq!(dialog.title, "检查更新");
    assert_eq!(dialog.message, "当前已是最新版本。");
    assert!(matches!(dialog.buttons, DialogButtons::Confirm));
}

#[test]
fn manual_check_reports_failure() {
    let mut reminders = Reminders::new();
    let failed = CheckResult::Failed("dns".to_string());
    let dialog = informed(check_for_updates(&mut reminders, true, false, &failed));
    assert_eq!(dialog.message, "检查更新失败：dns\n请确认网络连接或稍后重试。");
    assert_eq!(dialog.title, "检查更新");
}

#[test]
fn automatic_checks_are_silent() {
    let mut reminders = Reminders::new();
    let failed = CheckResult::Failed("dns".to_string());
    for periodic in [false, true] {
        assert!(matches!(check_for_updates(&mut reminders, false, periodic, &failed), CheckAction::Quiet));
        assert!(matches!(
            check_for_updates(&mut reminders, false, periodic, &CheckResult::UpToDate),
            CheckAction::Quiet
        ));
    }
    assert!(update_remind_once(&mut reminders, "dns"));
}

#[test]
fn offers_by_platform() {
    assert_eq!(notify_update_available(Platform::Linux), UpdateOffer::Toast);
    assert_eq!(notify_update_available(Platform::Windows), UpdateOffer::Toast);
    assert_eq!(notify_update_available(Platform::MacOs), UpdateOffer::Prompt);
}

#[test]
fn prompt_names_both_versions() {
    let dialog = prompt_update("0.4.0", "0.3.1");
    assert_eq!(dialog.title, "发现新版本");
    assert_eq!(
        dialog.message,
        "检测到新版本 v0.4.0（当前 v0.3.1）。\n\n点击「立即更新」将自动下载并安装，完成后应用会自动重启。"
    );
    match dialog.buttons {
        DialogButtons::Choice { accept, decline } => {
            assert_eq!(accept, "立即更新");
            assert_eq!(decline, "稍后");
        }
        _ => panic!("two buttons were expected"),
    }
}

#[test]
fn clicked_update_starts_once() {
    let mut pending = PendingUpdate::new(7);
    assert_eq!(pending.on_action("__closed"), None);
    assert_eq!(pending.on_action("default"), Some(7));
    assert_eq!(pending.on_action("default"), None);
    assert_eq!(pending.on_action("__closed"), None);
}

#[test]
fn answer_to_the_prompt() {
    assert_eq!(prompt_answered(true, 7), Some(7));
    assert_eq!(prompt_answered(false, 7), None);
}
