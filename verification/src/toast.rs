//! Notifications of the operating system: what they say and what a click on
//! them means.
use notify_rust::Notification;
use vstd::prelude::*;

use crate::desktop::{notification_action, wire_id, NotificationAction, Platform, APP_ID};
use crate::text::{joined, same_text};

verus! {

/// Identifier of the button that opens the order. It is also what a click on the
/// body of a notification reports.
pub const ACTION_VIEW: &'static str = "default";

/// Identifier of the button that dismisses the notification.
pub const ACTION_IGNORE: &'static str = "ignore";

/// Reported in place of an action where the user closed the notification.
pub const ACTION_CLOSED: &'static str = "__closed";

/// `notify_rust::Notification`, a notification that is being put together.
#[verifier::external_type_specification]
#[verifier::external_body]
pub struct ExNotification(notify_rust::Notification);

/// What a notification says, as far as the shell sets it. The actions are a flat
/// list: the identifier of a button, then its caption, then the next button.
#[verifier::ext_equal]
pub struct NotificationContent {
    pub summary: Seq<char>,
    pub body: Seq<char>,
    pub appname: Seq<char>,
    pub id: Option<u32>,
    pub actions: Seq<Seq<char>>,
}

/// What a `notify_rust::Notification` holds in its fields `summary`, `body`,
/// `appname`, `id` and `actions`.
pub uninterp spec fn notification_content(n: Notification) -> NotificationContent;

/// `Notification::summary`: stores the text in the field `summary` and leaves
/// the other fields alone.
#[verifier::external_body]
fn set_summary(n: &mut Notification, summary: &str)
    ensures
        notification_content(*final(n)) == (NotificationContent {
            summary: summary@,
            ..notification_content(*old(n))
        }),
{
    n.summary(summary);
}

/// `Notification::body`: stores the text in the field `body` and leaves the
/// other fields alone.
#[verifier::external_body]
fn set_body(n: &mut Notification, body: &str)
    ensures
        notification_content(*final(n)) == (NotificationContent {
            body: body@,
            ..notification_content(*old(n))
        }),
{
    n.body(body);
}

/// `Notification::appname`: stores the text in the field `appname` and leaves
/// the other fields alone.
#[verifier::external_body]
fn set_appname(n: &mut Notification, appname: &str)
    ensures
        notification_content(*final(n)) == (NotificationContent {
            appname: appname@,
            ..notification_content(*old(n))
        }),
{
    n.appname(appname);
}

/// `Notification::id`: stores the number in the field `id` and leaves the other
/// fields alone.
#[verifier::external_body]
fn set_id(n: &mut Notification, id: u32)
    ensures
        notification_content(*final(n)) == (NotificationContent {
            id: Some(id),
            ..notification_content(*old(n))
        }),
{
    n.id(id);
}

/// `Notification::action`: appends the identifier and the caption to the list
/// `actions` and leaves the other fields alone.
#[verifier::external_body]
fn add_action(n: &mut Notification, identifier: &str, label: &str)
    ensures
        notification_content(*final(n)) == (NotificationContent {
            actions: notification_content(*old(n)).actions.push(identifier@).push(label@),
            ..notification_content(*old(n))
        }),
{
    n.action(identifier, label);
}

/// Puts an order notification together. The application name is the id that the
/// process registers under: Windows shows name and icon only where they agree.
pub fn send_notification(n: &mut Notification, title: &str, body: &str, id: Option<i32>)
    ensures
        notification_content(*final(n)) == (NotificationContent {
            summary: title@,
            body: body@,
            appname: APP_ID@,
            id: match id {
                Some(i) => Some(crate::desktop::unsigned_id(i)),
                None => notification_content(*old(n)).id,
            },
            actions: notification_content(*old(n)).actions + seq![
                ACTION_VIEW@,
                "查看订单"@,
                ACTION_IGNORE@,
                "忽略"@,
            ],
        }),
{
    set_summary(n, title);
    set_body(n, body);
    set_appname(n, APP_ID);
    if let Some(i) = id {
        set_id(n, wire_id(i));
    }
    add_action(n, ACTION_VIEW, "查看订单");
    add_action(n, ACTION_IGNORE, "忽略");
}

/// Puts the notification about a new version together, under the same application
/// name as every other notification.
pub fn update_notification(n: &mut Notification, version: &str)
    ensures
        notification_content(*final(n)) == (NotificationContent {
            summary: "发现新版本 v"@ + version@,
            body: "点击立即更新（将自动下载并重启）"@,
            appname: APP_ID@,
            ..notification_content(*old(n))
        }),
{
    let summary = joined("发现新版本 v", version);
    set_summary(n, summary.as_str());
    set_body(n, "点击立即更新（将自动下载并重启）");
    set_appname(n, APP_ID);
}

/// What the page is told of an attempt to send a notification.
pub fn notification_sent(platform: Platform, result: Result<(), String>) -> (reply: Result<
    (),
    String,
>)
    ensures
        reply is Ok <==> result is Ok,
        reply is Err ==> reply->Err_0@ == (if platform == Platform::MacOs {
            result->Err_0@
        } else {
            "发送通知失败: "@ + result->Err_0@
        }),
{
    match result {
        Ok(_) => Ok(()),
        Err(error) => if platform == Platform::MacOs {
            Err(error)
        } else {
            Err(joined("发送通知失败: ", error.as_str()))
        },
    }
}

/// Whether an action asks for the order: closing and ignoring do not, every
/// other action does.
pub open spec fn opens_order(action: Seq<char>) -> bool {
    action != ACTION_CLOSED@ && action != ACTION_IGNORE@
}

/// What follows an action on an order notification: with `Some` the main window
/// is restored and the payload emitted to the page, with `None` nothing happens.
pub fn notification_clicked(action: &str, id: Option<i32>) -> (reply: Option<NotificationAction>)
    ensures
        reply == (if opens_order(action@) {
            Some(crate::desktop::action_for(id))
        } else {
            None
        }),
{
    if !same_text(action, ACTION_CLOSED) && !same_text(action, ACTION_IGNORE) {
        Some(notification_action(id))
    } else {
        None
    }
}

/// Every action on an order notification asks for the order, whatever it is
/// called, but for closing the notification and for the button that ignores it.
pub proof fn law_actions_open_order(action: Seq<char>)
    ensures
        opens_order(action) <==> action != "__closed"@ && action != "ignore"@,
        opens_order(ACTION_VIEW@),
{
    reveal_strlit("default");
    reveal_strlit("__closed");
    reveal_strlit("ignore");
    assert("default"@[0] == 'd');
    assert("__closed"@[0] == '_');
    assert("ignore"@[0] == 'i');
}

/// An order notification says what it was given: title and body whole, the
/// identifier modulo 2 to the power of 32 where there is one, under the name that
/// the process registers. The buttons that open and ignore the order come last.
pub proof fn law_order_notification(
    n: &mut Notification,
    title: &str,
    body: &str,
    id: Option<i32>,
)
    requires
        call_ensures(send_notification, (n, title, body, id), ()),
    ensures
        notification_content(*final(n)).summary == title@,
        notification_content(*final(n)).body == body@,
        notification_content(*final(n)).appname == "com.dev.pengmaitw"@,
        id matches Some(i) ==> (notification_content(*final(n)).id matches Some(sent) && (sent - i)
            % 0x1_0000_0000 == 0),
        id is None ==> notification_content(*final(n)).id == notification_content(*old(n)).id,
        notification_content(*final(n)).actions == notification_content(*old(n)).actions + seq![
            "default"@,
            "查看订单"@,
            "ignore"@,
            "忽略"@,
        ],
{
    if let Some(i) = id {
        crate::desktop::law_id_modulo(i);
    }
}

/// The notification about a new version names it, whole, under the name that the
/// process registers, and has no buttons and no identifier of its own.
pub proof fn law_update_notification(n: &mut Notification, version: &str)
    requires
        call_ensures(update_notification, (n, version), ()),
    ensures
        notification_content(*final(n)).summary == "发现新版本 v"@ + version@,
        notification_content(*final(n)).body == "点击立即更新（将自动下载并重启）"@,
        notification_content(*final(n)).appname == "com.dev.pengmaitw"@,
        notification_content(*final(n)).id == notification_content(*old(n)).id,
        notification_content(*final(n)).actions == notification_content(*old(n)).actions,
{
}

/// The page hears that a notification was sent, or why it was not, whole; only
/// on macOS the reason comes without a word in front of it.
pub proof fn law_sending_heard(
    platform: Platform,
    result: Result<(), String>,
    reply: Result<(), String>,
)
    requires
        notification_sent.ensures((platform, result), reply),
    ensures
        reply is Ok <==> result is Ok,
        result matches Err(error) ==> (reply matches Err(text) && text@ == (
        if platform is MacOs {
            error@
        } else {
            "发送通知失败: "@ + error@
        })),
{
}

/// An action on an order notification asks for the order unless it closes or
/// ignores the notification; the page then hears of the identifier that the
/// notification had.
pub proof fn law_notification_clicked(
    action: &str,
    id: Option<i32>,
    reply: Option<NotificationAction>,
)
    requires
        notification_clicked.ensures((action, id), reply),
    ensures
        reply is Some <==> action@ != "__closed"@ && action@ != "ignore"@,
        reply matches Some(heard) ==> (heard.id is Some <==> id is Some) && (id matches Some(i)
            ==> (heard.id->0 - i) % 0x1_0000_0000 == 0),
{
    law_actions_open_order(action@);
    if let Some(i) = id {
        crate::desktop::law_id_modulo(i);
    }
}

} // verus!
