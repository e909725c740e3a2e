//! Whether the application may show notifications.

use vstd::prelude::*;

use crate::text::text_of;

verus! {

/// The notification settings of macOS, up to the application's identifier.
pub const MACOS_SETTINGS: &'static str =
    "x-apple.systempreferences:com.apple.Notifications-Settings.extension?id=";

/// The notification settings of Windows.
pub const WINDOWS_SETTINGS: &'static str = "ms-settings:notifications";

/// The title of the advice to switch notifications on.
pub const GUIDANCE_TITLE: &'static str = "알림 권한 필요";

/// The advice to switch notifications on.
pub const GUIDANCE_MESSAGE: &'static str =
    "QA Manager 의 알림이 꺼져 있어 새 알림을 받을 수 없습니다.\n시스템 설정 > 알림 > QA Manager 에서 알림 허용을 켜 주세요.";

/// The button that opens the settings.
pub const GUIDANCE_OPEN_BUTTON: &'static str = "시스템 설정 열기";

/// The button that does not.
pub const GUIDANCE_LATER_BUTTON: &'static str = "나중에";

/// The operating system that the application runs on.
#[derive(Debug, Clone, Copy, PartialEq, Eq, Structural)]
pub enum Platform {
    Macos,
    Windows,
    Linux,
    Other,
}

/// What the system says of the application's right to show notifications.
#[derive(Debug, Clone, Copy, PartialEq, Eq, Structural)]
pub enum AuthorizationStatus {
    /// The user has not been asked.
    NotDetermined,
    /// The user has refused.
    Denied,
    /// Any form of consent.
    Granted,
}

/// The answer to the question whether notifications may be shown.
#[derive(Debug, Clone, Copy, PartialEq, Eq, Structural)]
pub enum Permission {
    Granted,
    Denied,
    NotDetermined,
    /// The system cannot be asked.
    Unsupported,
}

impl Permission {
    /// The word that the web application knows the answer by.
    pub open spec fn word(self) -> Seq<char> {
        match self {
            Permission::Granted => "granted"@,
            Permission::Denied => "denied"@,
            Permission::NotDetermined => "not_determined"@,
            Permission::Unsupported => "unsupported"@,
        }
    }

    /// The word that the web application knows the answer by.
    pub fn to_word(self) -> (r: String)
        ensures
            r@ == self.word(),
    {
        match self {
            Permission::Granted => "granted".to_owned(),
            Permission::Denied => "denied".to_owned(),
            Permission::NotDetermined => "not_determined".to_owned(),
            Permission::Unsupported => "unsupported".to_owned(),
        }
    }
}

/// What is known of the permission without asking the system: only macOS has one,
/// all others allow notifications.
pub fn settled_permission(platform: Platform) -> (r: Option<Permission>)
    ensures
        r == if platform == Platform::Macos {
            None
        } else {
            Some(Permission::Granted)
        },
{
    match platform {
        Platform::Macos => None,
        Platform::Windows | Platform::Linux | Platform::Other => Some(Permission::Granted),
    }
}

/// What the system said when it was asked for the notification settings.
#[derive(Debug, Clone, Copy, PartialEq, Eq, Structural)]
pub enum SettingsReply {
    /// The application is not one that the system keeps settings for.
    NotBundled,
    /// The settings could not be read.
    Failed,
    /// The settings.
    Status(AuthorizationStatus),
}

/// What the system said when it was to ask the user.
#[derive(Debug, Clone, Copy, PartialEq, Eq, Structural)]
pub enum RequestReply {
    /// The application is not one that the system asks for.
    NotBundled,
    /// The user could not be asked.
    Failed,
    /// The user was asked, and agreed or not.
    Answered(bool),
}

/// Whether notifications may be shown.
pub open spec fn permission_by_settings(reply: SettingsReply) -> Permission {
    match reply {
        SettingsReply::NotBundled | SettingsReply::Failed => Permission::Unsupported,
        SettingsReply::Status(AuthorizationStatus::NotDetermined) => Permission::NotDetermined,
        SettingsReply::Status(AuthorizationStatus::Denied) => Permission::Denied,
        SettingsReply::Status(AuthorizationStatus::Granted) => Permission::Granted,
    }
}

/// Whether notifications may be shown, by the notification settings.
pub fn notification_permission(reply: SettingsReply) -> (r: Permission)
    ensures
        r == permission_by_settings(reply),
{
    match reply {
        SettingsReply::NotBundled | SettingsReply::Failed => Permission::Unsupported,
        SettingsReply::Status(status) => match status {
            AuthorizationStatus::NotDetermined => Permission::NotDetermined,
            AuthorizationStatus::Denied => Permission::Denied,
            AuthorizationStatus::Granted => Permission::Granted,
        },
    }
}

/// Whether notifications may be shown once the user was to be asked.
pub open spec fn permission_by_request(reply: RequestReply) -> Permission {
    match reply {
        RequestReply::NotBundled | RequestReply::Failed => Permission::Unsupported,
        RequestReply::Answered(granted) => if granted {
            Permission::Granted
        } else {
            Permission::Denied
        },
    }
}

/// Whether notifications may be shown, by what came of asking the user.
pub fn request_notification_permission(reply: RequestReply) -> (r: Permission)
    ensures
        r == permission_by_request(reply),
{
    match reply {
        RequestReply::NotBundled | RequestReply::Failed => Permission::Unsupported,
        RequestReply::Answered(granted) => if granted {
            Permission::Granted
        } else {
            Permission::Denied
        },
    }
}

/// What came of the last step of making sure that notifications may be shown.
#[derive(Debug, Clone, Copy, PartialEq, Eq, Structural)]
pub enum PermissionEvent {
    /// The settings were asked for.
    Settings(SettingsReply),
    /// The user was to be asked.
    Request(RequestReply),
}

/// The next step of making sure that notifications may be shown.
#[derive(Debug, Clone, Copy, PartialEq, Eq, Structural)]
pub enum PermissionAction {
    /// Let the system ask the user.
    AskUser,
    /// Advise the user to switch notifications on.
    ShowGuidance,
    /// Nothing more.
    Stop,
}

/// The next step of making sure that notifications may be shown, by what is known
/// of the permission: an undecided user is asked, one who refuses is advised.
pub open spec fn permission_action(event: PermissionEvent) -> PermissionAction {
    let known = match event {
        PermissionEvent::Settings(reply) => permission_by_settings(reply),
        PermissionEvent::Request(reply) => permission_by_request(reply),
    };
    match known {
        Permission::NotDetermined => PermissionAction::AskUser,
        Permission::Denied => PermissionAction::ShowGuidance,
        Permission::Granted | Permission::Unsupported => PermissionAction::Stop,
    }
}

/// Decides, at the start, what is done about the permission to show
/// notifications: where the user has not decided, the system asks; where the user
/// has refused, then or before, advice is shown; otherwise nothing happens.
pub fn ensure_notification_permission(event: PermissionEvent) -> (r: PermissionAction)
    ensures
        r == permission_action(event),
{
    let known = match event {
        PermissionEvent::Settings(reply) => notification_permission(reply),
        PermissionEvent::Request(reply) => request_notification_permission(reply),
    };
    match known {
        Permission::NotDetermined => PermissionAction::AskUser,
        Permission::Denied => PermissionAction::ShowGuidance,
        Permission::Granted | Permission::Unsupported => PermissionAction::Stop,
    }
}

/// Where the notification settings of the application with the given identifier
/// are, on systems that have them.
pub open spec fn settings_url(platform: Platform, identifier: Seq<char>) -> Option<Seq<char>> {
    match platform {
        Platform::Macos => Some(MACOS_SETTINGS@ + identifier),
        Platform::Windows => Some(WINDOWS_SETTINGS@),
        Platform::Linux | Platform::Other => None,
    }
}

/// What is opened to show the notification settings, on systems that have them.
pub fn open_notification_settings(platform: Platform, identifier: &str) -> (r: Option<String>)
    ensures
        text_of(r) == settings_url(platform, identifier@),
{
    match platform {
        Platform::Macos => Some(MACOS_SETTINGS.to_owned().concat(identifier)),
        Platform::Windows => Some(WINDOWS_SETTINGS.to_owned()),
        Platform::Linux | Platform::Other => None,
    }
}

/// What is opened after the advice to switch notifications on was answered: the
/// settings where the user wants them, nothing otherwise.
pub fn show_notification_guidance(open_settings: bool, identifier: &str) -> (r: Option<String>)
    ensures
        text_of(r) == if open_settings {
            settings_url(Platform::Macos, identifier@)
        } else {
            None
        },
{
    if open_settings {
        open_notification_settings(Platform::Macos, identifier)
    } else {
        None
    }
}

/// The four answers have four different words.
pub proof fn law_words_differ(a: Permission, b: Permission)
    ensures
        a.word() == b.word() ==> a == b,
{
    reveal_strlit("granted");
    reveal_strlit("denied");
    reveal_strlit("not_determined");
    reveal_strlit("unsupported");
    if a != b {
        assert(a.word().len() != b.word().len() || a.word()[0] != b.word()[0]);
    }
}

/// The user is asked at most once: whatever comes of asking, nobody is asked again.
pub proof fn law_user_is_asked_once(reply: RequestReply)
    ensures
        permission_action(PermissionEvent::Request(reply)) != PermissionAction::AskUser,
{
}

/// Advice is shown exactly to a user who has refused.
pub proof fn law_advice_is_for_refusals(event: PermissionEvent)
    ensures
        permission_action(event) == PermissionAction::ShowGuidance <==> event
            == PermissionEvent::Settings(SettingsReply::Status(AuthorizationStatus::Denied))
            || event == PermissionEvent::Request(RequestReply::Answered(false)),
{
}

/// The words that the web application knows.
pub proof fn law_words_are_the_known_ones()
    ensures
        Permission::Granted.word() == "granted"@,
        Permission::Denied.word() == "denied"@,
        Permission::NotDetermined.word() == "not_determined"@,
        Permission::Unsupported.word() == "unsupported"@,
{
}

/// The settings answer by the user's decision where there is one, and say so where
/// there is none; where they cannot be read, and only there, the answer is that the
/// system cannot be asked.
pub proof fn law_settings_tell_the_decision(reply: SettingsReply)
    ensures
        permission_by_settings(reply) == Permission::Unsupported <==> !(reply is Status),
        permission_by_settings(reply) == Permission::Denied <==> reply == SettingsReply::Status(
            AuthorizationStatus::Denied,
        ),
        permission_by_settings(reply) == Permission::NotDetermined <==> reply
            == SettingsReply::Status(AuthorizationStatus::NotDetermined),
        permission_by_settings(reply) == Permission::Granted <==> reply == SettingsReply::Status(
            AuthorizationStatus::Granted,
        ),
{
}

/// Asking the user ends with what the user said, or, where nobody could be asked, with
/// that.
pub proof fn law_asking_tells_the_answer(reply: RequestReply)
    ensures
        permission_by_request(reply) == Permission::Granted <==> reply == RequestReply::Answered(
            true,
        ),
        permission_by_request(reply) == Permission::Denied <==> reply == RequestReply::Answered(
            false,
        ),
        permission_by_request(reply) == Permission::Unsupported <==> !(reply is Answered),
{
}

/// The user is asked exactly where the settings say that there is no decision yet.
pub proof fn law_undecided_user_is_asked(event: PermissionEvent)
    ensures
        permission_action(event) == PermissionAction::AskUser <==> event
            == PermissionEvent::Settings(SettingsReply::Status(AuthorizationStatus::NotDetermined)),
{
}

/// macOS has settings for each application, told apart by the identifier as it is;
/// Windows has one place for all; no other system has any.
pub proof fn law_settings_are_found(identifier: Seq<char>, platform: Platform)
    ensures
        settings_url(Platform::Macos, identifier) == Some(
            "x-apple.systempreferences:com.apple.Notifications-Settings.extension?id="@ + identifier,
        ),
        settings_url(Platform::Windows, identifier) == Some("ms-settings:notifications"@),
        platform != Platform::Macos && platform != Platform::Windows ==> settings_url(
            platform,
            identifier,
        ) is None,
{
}

}
