//! Checking for updates and installing them.
//!
//! A check is asked for by the user (manual) or comes by the clock (automatic).
//! The application performs one action after the other and hands back what came
//! of each.

use vstd::prelude::*;

use crate::text::text_of;

verus! {

/// The title of what a check reports.
pub const CHECK_TITLE: &'static str = "업데이트 확인";

/// The title of the question whether to install.
pub const ASK_TITLE: &'static str = "QA Manager 업데이트";

/// The title of what a failed installation reports.
pub const INSTALL_FAILED_TITLE: &'static str = "업데이트 실패";

/// The button that installs.
pub const INSTALL_BUTTON: &'static str = "지금 업데이트";

/// The button that does not.
pub const LATER_BUTTON: &'static str = "나중에";

/// What stands before the message of an updater that could not be set up.
pub const UPDATER_FAILED_BEFORE: &'static str = "업데이트를 확인할 수 없습니다.\n";

/// What stands before the message of a check that failed.
pub const CHECK_FAILED_BEFORE: &'static str = "업데이트 정보를 가져올 수 없습니다.\n";

/// What stands before the message of an installation that failed.
pub const INSTALL_FAILED_BEFORE: &'static str = "업데이트를 설치하지 못했습니다.\n";

/// What stands before the application's version where it is the newest.
pub const UP_TO_DATE_BEFORE: &'static str = "최신 버전입니다 (v";

/// What stands after it.
pub const UP_TO_DATE_AFTER: &'static str = ").";

/// What stands before the new version in the question.
pub const ASK_BEFORE_NEW: &'static str = "새 버전 v";

/// What stands between the new version and the present one.
pub const ASK_BEFORE_CURRENT: &'static str = " 이 있습니다 (현재 v";

/// What stands after the present version.
pub const ASK_AFTER: &'static str = ").\n지금 다운로드해 설치하고 앱을 다시 시작할까요?";

/// How long after the start the first automatic check comes, in seconds.
pub const FIRST_CHECK_SECS: u64 = 5;

/// How long after an automatic check the next one comes, in seconds.
pub const NEXT_CHECK_SECS: u64 = 6 * 60 * 60;

/// What came of the last action.
#[derive(Debug, PartialEq, Eq)]
pub enum UpdateEvent {
    /// The updater is set up.
    Ready,
    /// The updater could not be set up; its message.
    UpdaterFailed(String),
    /// There is a new version; the version that runs now.
    Found { version: String, current: String },
    /// There is no new version.
    UpToDate,
    /// The check failed; its message.
    CheckFailed(String),
    /// The user was asked whether to install, and agreed or not.
    Answered(bool),
    /// The new version is installed.
    Installed,
    /// The installation failed; its message.
    InstallFailed(String),
}

/// What is to be done next.
#[derive(Debug, PartialEq, Eq)]
pub enum UpdateAction {
    /// Ask for the newest version.
    Check,
    /// Ask the user whether to install.
    Ask { title: String, message: String },
    /// Tell the user.
    Inform { title: String, message: String },
    /// Download the new version and install it.
    Install,
    /// Start the application anew.
    Restart,
    /// Nothing more.
    Stop,
}

/// What came of the last action, in contracts.
pub enum UpdateEventModel {
    Ready,
    UpdaterFailed(Seq<char>),
    Found { version: Seq<char>, current: Seq<char> },
    UpToDate,
    CheckFailed(Seq<char>),
    Answered(bool),
    Installed,
    InstallFailed(Seq<char>),
}

/// What is to be done next, in contracts.
pub enum UpdateActionModel {
    Check,
    Ask { title: Seq<char>, message: Seq<char> },
    Inform { title: Seq<char>, message: Seq<char> },
    Install,
    Restart,
    Stop,
}

impl View for UpdateEvent {
    type V = UpdateEventModel;

    open spec fn view(&self) -> UpdateEventModel {
        match *self {
            UpdateEvent::Ready => UpdateEventModel::Ready,
            UpdateEvent::UpdaterFailed(m) => UpdateEventModel::UpdaterFailed(m@),
            UpdateEvent::Found { version, current } => UpdateEventModel::Found {
                version: version@,
                current: current@,
            },
            UpdateEvent::UpToDate => UpdateEventModel::UpToDate,
            UpdateEvent::CheckFailed(m) => UpdateEventModel::CheckFailed(m@),
            UpdateEvent::Answered(yes) => UpdateEventModel::Answered(yes),
            UpdateEvent::Installed => UpdateEventModel::Installed,
            UpdateEvent::InstallFailed(m) => UpdateEventModel::InstallFailed(m@),
        }
    }
}

impl View for UpdateAction {
    type V = UpdateActionModel;

    open spec fn view(&self) -> UpdateActionModel {
        match *self {
            UpdateAction::Check => UpdateActionModel::Check,
            UpdateAction::Ask { title, message } => UpdateActionModel::Ask {
                title: title@,
                message: message@,
            },
            UpdateAction::Inform { title, message } => UpdateActionModel::Inform {
                title: title@,
                message: message@,
            },
            UpdateAction::Install => UpdateActionModel::Install,
            UpdateAction::Restart => UpdateActionModel::Restart,
            UpdateAction::Stop => UpdateActionModel::Stop,
        }
    }
}

/// The question whether to install `version` in place of `current`.
pub open spec fn question(version: Seq<char>, current: Seq<char>) -> Seq<char> {
    ASK_BEFORE_NEW@ + version + ASK_BEFORE_CURRENT@ + current + ASK_AFTER@
}

/// A report that only a manual check makes.
pub open spec fn report(manual: bool, message: Seq<char>) -> UpdateActionModel {
    if manual {
        UpdateActionModel::Inform { title: CHECK_TITLE@, message }
    } else {
        UpdateActionModel::Stop
    }
}

/// What is done next, where `announced` is the version that an automatic check
/// last asked about and `app_version` is the version of the application.
pub open spec fn update_action(
    announced: Option<Seq<char>>,
    manual: bool,
    app_version: Seq<char>,
    event: UpdateEventModel,
) -> UpdateActionModel {
    match event {
        UpdateEventModel::Ready => UpdateActionModel::Check,
        UpdateEventModel::UpdaterFailed(m) => report(manual, UPDATER_FAILED_BEFORE@ + m),
        UpdateEventModel::Found { version, current } => if !manual && announced == Some(version) {
            UpdateActionModel::Stop
        } else {
            UpdateActionModel::Ask { title: ASK_TITLE@, message: question(version, current) }
        },
        UpdateEventModel::UpToDate => report(
            manual,
            UP_TO_DATE_BEFORE@ + app_version + UP_TO_DATE_AFTER@,
        ),
        UpdateEventModel::CheckFailed(m) => report(manual, CHECK_FAILED_BEFORE@ + m),
        UpdateEventModel::Answered(yes) => if yes {
            UpdateActionModel::Install
        } else {
            UpdateActionModel::Stop
        },
        UpdateEventModel::Installed => UpdateActionModel::Restart,
        UpdateEventModel::InstallFailed(m) => UpdateActionModel::Inform {
            title: INSTALL_FAILED_TITLE@,
            message: INSTALL_FAILED_BEFORE@ + m,
        },
    }
}

/// The version that an automatic check last asked about, after `event`.
pub open spec fn announced_after(
    announced: Option<Seq<char>>,
    manual: bool,
    event: UpdateEventModel,
) -> Option<Seq<char>> {
    match event {
        UpdateEventModel::Found { version, .. } => if manual {
            announced
        } else {
            Some(version)
        },
        _ => announced,
    }
}

/// A manual check tells what came of it; an automatic one does not.
fn report_if_manual(manual: bool, message: String) -> (r: UpdateAction)
    ensures
        r@ == report(manual, message@),
{
    if manual {
        UpdateAction::Inform { title: CHECK_TITLE.to_owned(), message }
    } else {
        UpdateAction::Stop
    }
}

/// What automatic checks have asked about since the application started.
#[derive(Debug, PartialEq, Eq)]
pub struct UpdateMemory {
    /// The version that was last asked about.
    pub announced: Option<String>,
}

impl UpdateMemory {
    /// The version that was last asked about, in contracts.
    pub open spec fn last_announced(self) -> Option<Seq<char>> {
        text_of(self.announced)
    }

    /// Nothing was asked about yet.
    pub fn new() -> (r: UpdateMemory)
        ensures
            r.last_announced() is None,
    {
        UpdateMemory { announced: None }
    }

    /// Decides what follows `event` in a check. A manual check always tells what
    /// came of it. An automatic one speaks up only about a new version, and not
    /// about the one it asked about before. Installing waits for the user's
    /// consent, and a finished installation restarts the application.
    pub fn check_for_update(
        &mut self,
        manual: bool,
        app_version: &str,
        event: UpdateEvent,
    ) -> (r: UpdateAction)
        ensures
            r@ == update_action(old(self).last_announced(), manual, app_version@, event@),
            final(self).last_announced() == announced_after(
                old(self).last_announced(),
                manual,
                event@,
            ),
            event is Ready ==> r is Check,
            event matches UpdateEvent::Answered(yes) ==> (r is Install <==> yes),
            event is Installed ==> r is Restart,
            event is InstallFailed ==> r is Inform,
            manual || !(event is Found) ==> final(self).announced == old(self).announced,
            !manual ==> (event matches UpdateEvent::Found { version, .. } ==> (
            final(self).announced matches Some(v) && v@ == version@)),
    {
        match event {
            UpdateEvent::Ready => UpdateAction::Check,
            UpdateEvent::UpdaterFailed(message) => report_if_manual(
                manual,
                UPDATER_FAILED_BEFORE.to_owned().concat(message.as_str()),
            ),
            UpdateEvent::Found { version, current } => {
                if !manual {
                    let known = match &self.announced {
                        Some(announced) => *announced == version,
                        None => false,
                    };
                    if known {
                        return UpdateAction::Stop;
                    }
                    self.announced = Some(version.clone());
                }
                let message = ASK_BEFORE_NEW.to_owned().concat(version.as_str()).concat(
                    ASK_BEFORE_CURRENT,
                ).concat(current.as_str()).concat(ASK_AFTER);
                UpdateAction::Ask { title: ASK_TITLE.to_owned(), message }
            },
            UpdateEvent::UpToDate => report_if_manual(
                manual,
                UP_TO_DATE_BEFORE.to_owned().concat(app_version).concat(UP_TO_DATE_AFTER),
            ),
            UpdateEvent::CheckFailed(message) => report_if_manual(
                manual,
                CHECK_FAILED_BEFORE.to_owned().concat(message.as_str()),
            ),
            UpdateEvent::Answered(yes) => if yes {
                UpdateAction::Install
            } else {
                UpdateAction::Stop
            },
            UpdateEvent::Installed => UpdateAction::Restart,
            UpdateEvent::InstallFailed(message) => UpdateAction::Inform {
                title: INSTALL_FAILED_TITLE.to_owned(),
                message: INSTALL_FAILED_BEFORE.to_owned().concat(message.as_str()),
            },
        }
    }
}

/// How long to wait for the next automatic check, in seconds: a short while after
/// the start, then hours.
pub fn next_check_delay(checks_done: u64) -> (r: u64)
    ensures
        r == if checks_done == 0 {
            FIRST_CHECK_SECS
        } else {
            NEXT_CHECK_SECS
        },
{
    if checks_done == 0 {
        FIRST_CHECK_SECS
    } else {
        NEXT_CHECK_SECS
    }
}

/// A manual check ends with the user being told or asked, whatever came of it.
pub proof fn law_manual_check_speaks(
    announced: Option<Seq<char>>,
    app_version: Seq<char>,
    event: UpdateEventModel,
)
    requires
        event is UpdaterFailed || event is Found || event is UpToDate || event is CheckFailed,
    ensures
        ({
            let action = update_action(announced, true, app_version, event);
            action is Ask || action is Inform
        }),
{
}

/// An automatic check that finds no new version says nothing, and one that finds
/// one asks or says nothing.
pub proof fn law_automatic_check_is_quiet(
    announced: Option<Seq<char>>,
    app_version: Seq<char>,
    event: UpdateEventModel,
)
    requires
        event is UpdaterFailed || event is Found || event is UpToDate || event is CheckFailed,
    ensures
        ({
            let action = update_action(announced, false, app_version, event);
            action is Stop || (event is Found && action is Ask)
        }),
{
}

/// A new version is installed exactly when the user has agreed to it, and the
/// application starts anew exactly when that is done.
pub proof fn law_installing_waits_for_consent(
    announced: Option<Seq<char>>,
    manual: bool,
    app_version: Seq<char>,
    event: UpdateEventModel,
)
    ensures
        update_action(announced, manual, app_version, event) is Install <==> event
            == UpdateEventModel::Answered(true),
        update_action(announced, manual, app_version, event) is Restart <==> event
            == UpdateEventModel::Installed,
{
}

/// A manual check leaves the memory of automatic ones alone.
pub proof fn law_manual_check_leaves_no_trace(
    announced: Option<Seq<char>>,
    event: UpdateEventModel,
)
    ensures
        announced_after(announced, true, event) == announced,
{
}

/// One step of a check.
pub struct UpdateStep {
    pub manual: bool,
    pub app_version: Seq<char>,
    pub event: UpdateEventModel,
}

impl UpdateStep {
    /// An automatic check that has found a new version.
    pub open spec fn finds_by_itself(self) -> bool {
        !self.manual && self.event is Found
    }

    /// What is done next.
    pub open spec fn action(self, announced: Option<Seq<char>>) -> UpdateActionModel {
        update_action(announced, self.manual, self.app_version, self.event)
    }
}

/// The version that an automatic check last asked about, after a row of steps.
pub open spec fn announced_by(
    announced: Option<Seq<char>>,
    steps: Seq<UpdateStep>,
) -> Option<Seq<char>>
    decreases steps.len(),
{
    if steps.len() == 0 {
        announced
    } else {
        announced_after(
            announced_by(announced, steps.drop_last()),
            steps.last().manual,
            steps.last().event,
        )
    }
}

/// Once an automatic check has asked about a version, no later one asks about it
/// again, however many checks of either kind follow, as long as the automatic ones
/// find no other version in between.
pub proof fn law_asked_once_about_a_version(version: Seq<char>, steps: Seq<UpdateStep>, i: int)
    requires
        forall|j: int|
            0 <= j < i && (#[trigger] steps[j]).finds_by_itself()
                ==> steps[j].event->version == version,
        0 <= i < steps.len(),
        steps[i].finds_by_itself(),
        steps[i].event->version == version,
    ensures
        steps[i].action(announced_by(Some(version), steps.take(i))) is Stop,
{
    lemma_stays_announced(version, steps, i);
}

proof fn lemma_stays_announced(version: Seq<char>, steps: Seq<UpdateStep>, i: int)
    requires
        forall|j: int|
            0 <= j < i && (#[trigger] steps[j]).finds_by_itself()
                ==> steps[j].event->version == version,
        0 <= i <= steps.len(),
    ensures
        announced_by(Some(version), steps.take(i)) == Some(version),
    decreases i,
{
    if i > 0 {
        lemma_stays_announced(version, steps, i - 1);
        assert(steps.take(i).drop_last() =~= steps.take(i - 1));
        assert(steps.take(i).last() == steps[i - 1]);
        if steps[i - 1].finds_by_itself() {
            assert(steps[i - 1].event->version == version);
        }
    }
}

/// The first automatic check that finds a version asks about it, and that version
/// is then the one asked about.
pub proof fn law_new_version_is_asked_about(
    announced: Option<Seq<char>>,
    app_version: Seq<char>,
    version: Seq<char>,
    current: Seq<char>,
)
    requires
        announced != Some(version),
    ensures
        update_action(
            announced,
            false,
            app_version,
            UpdateEventModel::Found { version, current },
        ) == (UpdateActionModel::Ask { title: ASK_TITLE@, message: question(version, current) }),
        announced_after(announced, false, UpdateEventModel::Found { version, current }) == Some(
            version,
        ),
{
}

/// What came of an action, and what is to be done, stand for just what they hold.
pub proof fn law_steps_are_taken_whole(event: UpdateEvent, action: UpdateAction, memory: UpdateMemory)
    ensures
        event is Ready ==> event@ is Ready,
        event matches UpdateEvent::UpdaterFailed(m) ==> event@ == UpdateEventModel::UpdaterFailed(m@),
        event matches UpdateEvent::Found { version, current } ==> event@
            == (UpdateEventModel::Found { version: version@, current: current@ }),
        event is UpToDate ==> event@ is UpToDate,
        event matches UpdateEvent::CheckFailed(m) ==> event@ == UpdateEventModel::CheckFailed(m@),
        event matches UpdateEvent::Answered(yes) ==> event@ == UpdateEventModel::Answered(yes),
        event is Installed ==> event@ is Installed,
        event matches UpdateEvent::InstallFailed(m) ==> event@ == UpdateEventModel::InstallFailed(m@),
        action is Check ==> action@ is Check,
        action matches UpdateAction::Ask { title, message } ==> action@
            == (UpdateActionModel::Ask { title: title@, message: message@ }),
        action matches UpdateAction::Inform { title, message } ==> action@
            == (UpdateActionModel::Inform { title: title@, message: message@ }),
        action is Install ==> action@ is Install,
        action is Restart ==> action@ is Restart,
        action is Stop ==> action@ is Stop,
        memory.announced is None ==> memory.last_announced() is None,
        memory.announced matches Some(v) ==> memory.last_announced() == Some(v@),
{
}

/// Every check whose updater is set up goes on to ask for the newest version, manual
/// or automatic, whatever was asked about before.
pub proof fn law_ready_updater_is_asked(
    announced: Option<Seq<char>>,
    manual: bool,
    app_version: Seq<char>,
)
    ensures
        update_action(announced, manual, app_version, UpdateEventModel::Ready) is Check,
{
}

/// Nothing but a set-up updater leads to asking for the newest version, nothing but a
/// new version to asking the user, and nothing that was asked of the user goes on
/// without an answer that agrees.
pub proof fn law_each_step_has_its_cause(
    announced: Option<Seq<char>>,
    manual: bool,
    app_version: Seq<char>,
    event: UpdateEventModel,
)
    ensures
        update_action(announced, manual, app_version, event) is Check <==> event is Ready,
        update_action(announced, manual, app_version, event) is Ask ==> event is Found,
        event == UpdateEventModel::Answered(false) ==> update_action(
            announced,
            manual,
            app_version,
            event,
        ) is Stop,
{
}

/// A manual check that finds a new version asks about it every time; an automatic one
/// exactly where that is not the version asked about last.
pub proof fn law_found_version_is_asked_about(
    announced: Option<Seq<char>>,
    manual: bool,
    app_version: Seq<char>,
    version: Seq<char>,
    current: Seq<char>,
)
    ensures
        ({
            let action = update_action(
                announced,
                manual,
                app_version,
                UpdateEventModel::Found { version, current },
            );
            &&& manual || announced != Some(version) ==> action == (UpdateActionModel::Ask {
                title: "QA Manager 업데이트"@,
                message: "새 버전 v"@ + version + " 이 있습니다 (현재 v"@ + current
                    + ").\n지금 다운로드해 설치하고 앱을 다시 시작할까요?"@,
            })
            &&& !manual && announced == Some(version) ==> action is Stop
        }),
{
}

/// What a manual check reports is what came of it: the updater's message, that the
/// application's own version is the newest, or the check's message; an automatic
/// check says nothing of these.
pub proof fn law_report_tells_what_came(
    announced: Option<Seq<char>>,
    app_version: Seq<char>,
    message: Seq<char>,
)
    ensures
        update_action(announced, true, app_version, UpdateEventModel::UpdaterFailed(message))
            == (UpdateActionModel::Inform {
            title: "업데이트 확인"@,
            message: "업데이트를 확인할 수 없습니다.\n"@ + message,
        }),
        update_action(announced, true, app_version, UpdateEventModel::UpToDate)
            == (UpdateActionModel::Inform {
            title: "업데이트 확인"@,
            message: "최신 버전입니다 (v"@ + app_version + ")."@,
        }),
        update_action(announced, true, app_version, UpdateEventModel::CheckFailed(message))
            == (UpdateActionModel::Inform {
            title: "업데이트 확인"@,
            message: "업데이트 정보를 가져올 수 없습니다.\n"@ + message,
        }),
        update_action(announced, false, app_version, UpdateEventModel::UpdaterFailed(message)) is Stop,
        update_action(announced, false, app_version, UpdateEventModel::UpToDate) is Stop,
        update_action(announced, false, app_version, UpdateEventModel::CheckFailed(message)) is Stop,
{
}

/// A failed installation is always reported, with its message, however the check
/// came about.
pub proof fn law_failed_installation_is_reported(
    announced: Option<Seq<char>>,
    manual: bool,
    app_version: Seq<char>,
    message: Seq<char>,
)
    ensures
        update_action(announced, manual, app_version, UpdateEventModel::InstallFailed(message))
            == (UpdateActionModel::Inform {
            title: "업데이트 실패"@,
            message: "업데이트를 설치하지 못했습니다.\n"@ + message,
        }),
{
}

/// Only an automatic check that finds a version changes what was asked about last,
/// and it is then that version.
pub proof fn law_memory_holds_the_last_find(
    announced: Option<Seq<char>>,
    manual: bool,
    event: UpdateEventModel,
)
    ensures
        manual || !(event is Found) ==> announced_after(announced, manual, event) == announced,
        !manual && event is Found ==> announced_after(announced, manual, event) == Some(
            event->version,
        ),
{
}

/// The first automatic check comes five seconds after the start, and every later one
/// six hours after the one before.
pub proof fn law_checks_come_in_time()
    ensures
        FIRST_CHECK_SECS == 5,
        NEXT_CHECK_SECS == 6 * 3600,
{
}

}
