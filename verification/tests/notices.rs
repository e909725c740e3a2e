use qa_manager_desktop::notifications::{
    desktop_notify, notification_app_id, notification_clicked, notify_step, on_notification_click,
    script_for_argument, set_badge, NotificationResponse, NotifyAction, NotifyEvent,
};
use qa_manager_desktop::permission::{
    ensure_notification_permission, notification_permission, open_notification_settings,
    request_notification_permission, settled_permission, show_notification_guidance,
    AuthorizationStatus, Permission, PermissionAction, PermissionEvent, Platform, RequestReply,
    SettingsReply,
};

const BEFORE: &str = "(function(){var b=window.__QAM_DESKTOP__;if(b&&typeof b.onNotificationClick==='function'){try{b.onNotificationClick(";
const AFTER: &str = ")}catch(e){console.warn('[QAM desktop] onNotificationClick 실패:',e)}}})();";

fn escaped(c: char) -> String {
    match c {
        '"' => "\\\"".to_string(),
        '\\' => "\\\\".to_string(),
        '\u{8}' => "\\b".to_string(),
        '\t' => "\\t".to_string(),
        '\n' => "\\n".to_string(),
        '\u{c}' => "\\f".to_string(),
        '\r' => "\\r".to_string(),
        c if (c as u32) < 0x20 => format!("\\u00{:x}{:x}", c as u32 / 16, c as u32 % 16),
        c => c.to_string(),
    }
}

#[test]
fn an_empty_title_becomes_the_applications_name() {
    let shown = desktop_notify(String::new(), "body".to_string());
    assert_eq!((shown.title.as_str(), shown.body.as_str()), ("QA Manager", "body"));
    let shown = desktop_notify(" ".to_string(), String::new());
    assert_eq!((shown.title.as_str(), shown.body.as_str()), (" ", ""));
}

#[test]
fn only_the_default_action_is_a_click() {
    assert!(notification_clicked(&NotificationResponse::Default));
    assert!(notification_clicked(&NotificationResponse::Action("default".to_string())));
    assert!(!notification_clicked(&NotificationResponse::Action("Default".to_string())));
    assert!(!notification_clicked(&NotificationResponse::Action(String::new())));
    assert!(!notification_clicked(&NotificationResponse::Other));
}

#[test]
fn a_notification_is_shown_waited_for_and_passed_on() {
    assert_eq!(notify_step(&NotifyEvent::Ready), NotifyAction::Show);
    assert_eq!(notify_step(&NotifyEvent::Shown), NotifyAction::Wait);
    assert_eq!(
        notify_step(&NotifyEvent::Responded(NotificationResponse::Default)),
        NotifyAction::Click
    );
    assert_eq!(
        notify_step(&NotifyEvent::Responded(NotificationResponse::Other)),
        NotifyAction::Stop
    );
    for event in [NotifyEvent::NotBundled, NotifyEvent::ShowFailed, NotifyEvent::WaitFailed] {
        assert_eq!(notify_step(&event), NotifyAction::Stop);
    }
}

#[test]
fn builds_have_no_application_id() {
    let id = |d: &str, s: &str| notification_app_id(Some(d), s, "com.example.qa");
    assert_eq!(id("C:\\Program Files\\QA", "\\"), Some("com.example.qa".to_string()));
    assert_eq!(id("C:\\src\\target\\debug", "\\"), None);
    assert_eq!(id("C:\\src\\target\\release", "\\"), None);
    assert_eq!(id("C:\\src\\target\\release\\deps", "\\"), Some("com.example.qa".to_string()));
    assert_eq!(id("/src/target/debug", "\\"), Some("com.example.qa".to_string()));
    assert_eq!(id("/src/target/debug", "/"), None);
    assert_eq!(id("target/debug", "/"), Some("com.example.qa".to_string()));
    assert_eq!(id("", "/"), Some("com.example.qa".to_string()));
    assert_eq!(notification_app_id(None, "/", "com.example.qa"), None);
}

#[test]
fn a_click_hands_over_the_tag() {
    assert_eq!(
        on_notification_click(Some("issue-7".to_string())),
        Some(format!("{BEFORE}\"issue-7\"{AFTER}"))
    );
    assert_eq!(on_notification_click(None), None);
    assert_eq!(on_notification_click(Some(String::new())), Some(format!("{BEFORE}\"\"{AFTER}")));
}

#[test]
fn a_tag_cannot_leave_its_literal() {
    assert_eq!(
        on_notification_click(Some("\");alert(1);(\"\\\n\u{1}".to_string())),
        Some(format!("{BEFORE}\"\\\");alert(1);(\\\"\\\\\\n\\u0001\"{AFTER}"))
    );
}

#[test]
fn every_character_is_written_as_stated() {
    for c in '\0'..=char::MAX {
        let script = on_notification_click(Some(c.to_string())).unwrap();
        let literal = &script[BEFORE.len()..script.len() - AFTER.len()];
        assert_eq!(literal, format!("\"{}\"", escaped(c)));
        let back: String = serde_json::from_str(literal).unwrap();
        assert_eq!(back, c.to_string());
    }
}

#[test]
fn a_tag_that_cannot_be_written_is_null() {
    assert_eq!(script_for_argument(None), format!("{BEFORE}null{AFTER}"));
    assert_eq!(script_for_argument(Some("1".to_string())), format!("{BEFORE}1{AFTER}"));
}

#[test]
fn the_badge_shows_positive_counts() {
    assert_eq!(set_badge(3), Some(3));
    assert_eq!(set_badge(1), Some(1));
    assert_eq!(set_badge(0), None);
    assert_eq!(set_badge(-1), None);
    assert_eq!(set_badge(i64::MIN), None);
    assert_eq!(set_badge(i64::MAX), Some(i64::MAX));
}

#[test]
fn permission_by_the_settings() {
    assert_eq!(notification_permission(SettingsReply::NotBundled).to_word(), "unsupported");
    assert_eq!(notification_permission(SettingsReply::Failed).to_word(), "unsupported");
    let by = |s| notification_permission(SettingsReply::Status(s)).to_word();
    assert_eq!(by(AuthorizationStatus::NotDetermined), "not_determined");
    assert_eq!(by(AuthorizationStatus::Denied), "denied");
    assert_eq!(by(AuthorizationStatus::Granted), "granted");
}

#[test]
fn permission_by_asking() {
    assert_eq!(request_notification_permission(RequestReply::NotBundled).to_word(), "unsupported");
    assert_eq!(request_notification_permission(RequestReply::Failed).to_word(), "unsupported");
    assert_eq!(request_notification_permission(RequestReply::Answered(true)).to_word(), "granted");
    assert_eq!(request_notification_permission(RequestReply::Answered(false)).to_word(), "denied");
}

#[test]
fn permission_is_settled_but_on_macos() {
    assert_eq!(settled_permission(Platform::Macos), None);
    assert_eq!(settled_permission(Platform::Windows), Some(Permission::Granted));
    assert_eq!(settled_permission(Platform::Linux), Some(Permission::Granted));
    assert_eq!(settled_permission(Platform::Other), Some(Permission::Granted));
}

#[test]
fn the_start_asks_the_undecided_and_advises_who_refused() {
    let settings = |r| ensure_notification_permission(PermissionEvent::Settings(r));
    assert_eq!(settings(SettingsReply::NotBundled), PermissionAction::Stop);
    assert_eq!(settings(SettingsReply::Failed), PermissionAction::Stop);
    assert_eq!(
        settings(SettingsReply::Status(AuthorizationStatus::NotDetermined)),
        PermissionAction::AskUser
    );
    assert_eq!(
        settings(SettingsReply::Status(AuthorizationStatus::Denied)),
        PermissionAction::ShowGuidance
    );
    assert_eq!(
        settings(SettingsReply::Status(AuthorizationStatus::Granted)),
        PermissionAction::Stop
    );
    let request = |r| ensure_notification_permission(PermissionEvent::Request(r));
    assert_eq!(request(RequestReply::Answered(true)), PermissionAction::Stop);
    assert_eq!(request(RequestReply::Answered(false)), PermissionAction::ShowGuidance);
    assert_eq!(request(RequestReply::Failed), PermissionAction::Stop);
    assert_eq!(request(RequestReply::NotBundled), PermissionAction::Stop);
}

#[test]
fn settings_are_opened_where_there_are_any() {
    assert_eq!(
        open_notification_settings(Platform::Macos, "com.example.qa"),
        Some("x-apple.systempreferences:com.apple.Notifications-Settings.extension?id=com.example.qa".to_string())
    );
    assert_eq!(
        open_notification_settings(Platform::Windows, "com.example.qa"),
        Some("ms-settings:notifications".to_string())
    );
    assert_eq!(open_notification_settings(Platform::Linux, "com.example.qa"), None);
    assert_eq!(open_notification_settings(Platform::Other, "com.example.qa"), None);
}

#[test]
fn advice_opens_the_settings_on_request() {
    assert_eq!(
        show_notification_guidance(true, "com.example.qa"),
        Some("x-apple.systempreferences:com.apple.Notifications-Settings.extension?id=com.example.qa".to_string())
    );
    assert_eq!(show_notification_guidance(false, "com.example.qa"), None);
}
