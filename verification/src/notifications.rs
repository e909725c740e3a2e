//! Native notifications and the badge on the application's icon.

use vstd::prelude::*;

use crate::json_text::encode_json;
use crate::json_text::{json_literal, law_literal_reads_back, read_literal};
use crate::text::has_suffix;
use crate::text::text_of;

verus! {

/// The title of a notification that came without one.
pub const DEFAULT_TITLE: &'static str = "QA Manager";

/// The name of the action that a click on the notification itself triggers.
pub const CLICK_ACTION: &'static str = "default";

/// The label of that action.
pub const CLICK_ACTION_LABEL: &'static str = "열기";

/// What is handed to the click handler where the tag cannot be written.
pub const NO_TAG: &'static str = "null";

/// The script that tells the web application about a click, up to the tag.
pub const CLICK_SCRIPT_BEFORE: &'static str =
    "(function(){var b=window.__QAM_DESKTOP__;if(b&&typeof b.onNotificationClick==='function'){try{b.onNotificationClick(";

/// The rest of that script.
pub const CLICK_SCRIPT_AFTER: &'static str =
    ")}catch(e){console.warn('[QAM desktop] onNotificationClick 실패:',e)}}})();";

/// What a notification shows.
#[derive(Debug, PartialEq, Eq)]
pub struct Notification {
    pub title: String,
    pub body: String,
}

/// The title under which a notification is shown.
pub open spec fn shown_title(title: Seq<char>) -> Seq<char> {
    if title.len() == 0 {
        DEFAULT_TITLE@
    } else {
        title
    }
}

/// What is shown for a notification of the web application: its title and its
/// body, with the application's name where the title is empty.
pub fn desktop_notify(title: String, body: String) -> (r: Notification)
    ensures
        r.title@ == shown_title(title@),
        title@.len() > 0 ==> r.title@ == title@,
        r.body@ == body@,
{
    if title.as_str().is_empty() {
        Notification { title: DEFAULT_TITLE.to_owned(), body }
    } else {
        Notification { title, body }
    }
}

/// What the user did with a notification.
#[derive(Debug, PartialEq, Eq)]
pub enum NotificationResponse {
    /// The notification itself was clicked.
    Default,
    /// The action of this name was chosen.
    Action(String),
    /// Anything else: it was dismissed, or it ran out of time.
    Other,
}

/// The response is a click on the notification.
pub open spec fn is_click(response: NotificationResponse) -> bool {
    match response {
        NotificationResponse::Default => true,
        NotificationResponse::Action(name) => name@ == CLICK_ACTION@,
        NotificationResponse::Other => false,
    }
}

/// Whether the response is a click on the notification.
pub fn notification_clicked(response: &NotificationResponse) -> (r: bool)
    ensures
        r == is_click(*response),
{
    match response {
        NotificationResponse::Default => true,
        NotificationResponse::Action(name) => *name.as_str() == *CLICK_ACTION,
        NotificationResponse::Other => false,
    }
}

/// What came of the last step of showing a notification.
#[derive(Debug, PartialEq, Eq)]
pub enum NotifyEvent {
    /// The application is not one that may show notifications.
    NotBundled,
    /// The application may show notifications.
    Ready,
    /// The notification could not be shown.
    ShowFailed,
    /// The notification is shown.
    Shown,
    /// Waiting for a response failed.
    WaitFailed,
    /// The user responded.
    Responded(NotificationResponse),
}

/// The next step of showing a notification.
#[derive(Debug, PartialEq, Eq, Structural)]
pub enum NotifyAction {
    /// Show it.
    Show,
    /// Wait for the user's response.
    Wait,
    /// Bring up the window and tell the web application.
    Click,
    /// Nothing more.
    Stop,
}

/// The next step of showing a notification.
pub open spec fn notify_action(event: NotifyEvent) -> NotifyAction {
    match event {
        NotifyEvent::Ready => NotifyAction::Show,
        NotifyEvent::Shown => NotifyAction::Wait,
        NotifyEvent::Responded(response) => if is_click(response) {
            NotifyAction::Click
        } else {
            NotifyAction::Stop
        },
        NotifyEvent::NotBundled | NotifyEvent::ShowFailed | NotifyEvent::WaitFailed => NotifyAction::Stop,
    }
}

/// Decides the next step of showing a notification: it is shown where that is
/// possible, its response is waited for, and only a click on it is passed on.
pub fn notify_step(event: &NotifyEvent) -> (r: NotifyAction)
    ensures
        r == notify_action(*event),
{
    match event {
        NotifyEvent::Ready => NotifyAction::Show,
        NotifyEvent::Shown => NotifyAction::Wait,
        NotifyEvent::Responded(response) => if notification_clicked(response) {
            NotifyAction::Click
        } else {
            NotifyAction::Stop
        },
        NotifyEvent::NotBundled | NotifyEvent::ShowFailed | NotifyEvent::WaitFailed => NotifyAction::Stop,
    }
}

/// The directory is one that builds are put in: it ends with `target/debug` or
/// `target/release` below another one.
pub open spec fn is_build_directory(directory: Seq<char>, separator: Seq<char>) -> bool {
    ||| (separator + "target"@ + separator + "debug"@).is_suffix_of(directory)
    ||| (separator + "target"@ + separator + "release"@).is_suffix_of(directory)
}

/// The application id that a notification is shown under, given the directory of
/// the executable where it is known: the application's identifier, except for an
/// executable that is run from where it was built, which has none.
pub fn notification_app_id(
    directory: Option<&str>,
    separator: &str,
    identifier: &str,
) -> (r: Option<String>)
    ensures
        match directory {
            Some(d) => if is_build_directory(d@, separator@) {
                r is None
            } else {
                r matches Some(id) && id@ == identifier@
            },
            None => r is None,
        },
{
    match directory {
        Some(d) => {
            let target = separator.to_owned().concat("target").concat(separator);
            let debug = target.clone().concat("debug");
            let release = target.concat("release");
            if has_suffix(d, debug.as_str()) || has_suffix(d, release.as_str()) {
                None
            } else {
                Some(identifier.to_owned())
            }
        },
        None => None,
    }
}

/// The script that hands `argument` to the web application's click handler.
pub open spec fn click_script(argument: Seq<char>) -> Seq<char> {
    CLICK_SCRIPT_BEFORE@ + argument + CLICK_SCRIPT_AFTER@
}

/// The script that hands a tag to the web application's click handler, given the
/// tag as it is written in a script, where it could be.
pub fn script_for_argument(argument: Option<String>) -> (r: String)
    ensures
        r@ == click_script(
            match argument {
                Some(a) => a@,
                None => NO_TAG@,
            },
        ),
{
    let argument = match argument {
        Some(a) => a,
        None => NO_TAG.to_owned(),
    };
    CLICK_SCRIPT_BEFORE.to_owned().concat(argument.as_str()).concat(CLICK_SCRIPT_AFTER)
}

/// The script that is run after a click on a notification with the given tag.
pub open spec fn script_after_click(tag: Option<Seq<char>>) -> Option<Seq<char>> {
    match tag {
        Some(t) => Some(click_script(json_literal(t))),
        None => None,
    }
}

/// What is run in the window, once it is up, after a click on a notification: the
/// call of the web application's handler with the tag, or nothing where the
/// notification had no tag.
pub fn on_notification_click(tag: Option<String>) -> (r: Option<String>)
    ensures
        text_of(r) == script_after_click(text_of(tag)),
        tag matches Some(t) ==> (r matches Some(script) && script@ == CLICK_SCRIPT_BEFORE@
            + json_literal(t@) + CLICK_SCRIPT_AFTER@),
        tag is None ==> r is None,
{
    match tag {
        Some(t) => {
            let argument = match encode_json(t.as_str()) {
                Ok(literal) => Some(literal),
                Err(_) => None,
            };
            Some(script_for_argument(argument))
        },
        None => None,
    }
}

/// The count that the badge shows; `None` takes the badge away.
pub fn set_badge(count: i64) -> (r: Option<i64>)
    ensures
        r == if count > 0 {
            Some(count)
        } else {
            None
        },
{
    if count > 0 {
        Some(count)
    } else {
        None
    }
}

/// The script that follows a click hands the handler a literal that stands for
/// exactly the notification's tag, whatever the tag holds.
pub proof fn law_click_hands_over_tag(tag: Seq<char>)
    ensures
        script_after_click(Some(tag)) == Some(
            CLICK_SCRIPT_BEFORE@ + json_literal(tag) + CLICK_SCRIPT_AFTER@,
        ),
        read_literal(json_literal(tag)) == Some(tag),
{
    law_literal_reads_back(tag);
}

/// Different tags lead to different scripts.
pub proof fn law_tags_are_told_apart(a: Seq<char>, b: Seq<char>)
    requires
        script_after_click(Some(a)) == script_after_click(Some(b)),
    ensures
        a == b,
{
    let before = CLICK_SCRIPT_BEFORE@;
    let after = CLICK_SCRIPT_AFTER@;
    let (x, y) = (json_literal(a), json_literal(b));
    let (s, t) = (click_script(x), click_script(y));
    assert(s.len() == t.len());
    assert(s.subrange(before.len() as int, s.len() - after.len()) =~= x);
    assert(t.subrange(before.len() as int, t.len() - after.len()) =~= y);
    law_literal_reads_back(a);
    law_literal_reads_back(b);
}

/// A notification is never passed on as clicked before the user has responded.
pub proof fn law_click_needs_response(event: NotifyEvent)
    ensures
        notify_action(event) == NotifyAction::Click <==> (event matches NotifyEvent::Responded(r)
            && is_click(r)),
{
}

/// A notification that came with a title shows exactly that title, and one that came
/// without shows the application's name.
pub proof fn law_title_is_shown_as_it_came(title: Seq<char>)
    ensures
        title.len() > 0 ==> shown_title(title) == title,
        title.len() == 0 ==> shown_title(title) == "QA Manager"@,
{
}

/// A click is the system's own response to one, or the action of that name and of no
/// other.
pub proof fn law_clicks_are_told_by_name(name: String)
    ensures
        is_click(NotificationResponse::Default),
        is_click(NotificationResponse::Action(name)) <==> name@ == "default"@,
        !is_click(NotificationResponse::Other),
{
}

/// A notification that may be shown is shown, one that is shown is waited for, and
/// every failure on the way is the end of it.
pub proof fn law_notification_goes_its_way(event: NotifyEvent)
    ensures
        notify_action(event) == NotifyAction::Show <==> event is Ready,
        notify_action(event) == NotifyAction::Wait <==> event is Shown,
        event is NotBundled || event is ShowFailed || event is WaitFailed ==> notify_action(event)
            == NotifyAction::Stop,
        event matches NotifyEvent::Responded(r) ==> !is_click(r) ==> notify_action(event)
            == NotifyAction::Stop,
{
}

/// Whatever stands above them, the two directories of a build are known as such, and
/// no other directory is.
pub proof fn law_build_directories_are_known(
    above: Seq<char>,
    separator: Seq<char>,
    directory: Seq<char>,
)
    ensures
        is_build_directory(above + (separator + "target"@ + separator + "debug"@), separator),
        is_build_directory(above + (separator + "target"@ + separator + "release"@), separator),
        !(separator + "target"@ + separator + "debug"@).is_suffix_of(directory) && !(separator
            + "target"@ + separator + "release"@).is_suffix_of(directory) ==> !is_build_directory(
            directory,
            separator,
        ),
{
    let debug = separator + "target"@ + separator + "debug"@;
    let release = separator + "target"@ + separator + "release"@;
    assert(debug.is_suffix_of(above + debug)) by {
        assert((above + debug).subrange(above.len() as int, (above + debug).len() as int)
            =~= debug);
    }
    assert(release.is_suffix_of(above + release)) by {
        assert((above + release).subrange(above.len() as int, (above + release).len() as int)
            =~= release);
    }
}

/// The script hands its argument on as it is, between its own two halves, and without
/// a tag there is no script.
pub proof fn law_script_holds_its_argument(argument: Seq<char>)
    ensures
        CLICK_SCRIPT_BEFORE@.is_prefix_of(click_script(argument)),
        CLICK_SCRIPT_AFTER@.is_suffix_of(click_script(argument)),
        click_script(argument).subrange(
            CLICK_SCRIPT_BEFORE@.len() as int,
            click_script(argument).len() - CLICK_SCRIPT_AFTER@.len(),
        ) == argument,
        click_script(argument).len() == CLICK_SCRIPT_BEFORE@.len() + argument.len()
            + CLICK_SCRIPT_AFTER@.len(),
        script_after_click(None) is None,
{
    assert(click_script(argument).subrange(
        CLICK_SCRIPT_BEFORE@.len() as int,
        click_script(argument).len() - CLICK_SCRIPT_AFTER@.len(),
    ) =~= argument);
}

}
