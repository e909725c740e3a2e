use qa_manager_desktop::shell::{
    desktop_info, on_menu_event, on_window_event, tray_menu, TrayAction, WindowAction, WindowEvent,
};
use qa_manager_desktop::updates::{next_check_delay, UpdateAction, UpdateEvent, UpdateMemory};

fn found(version: &str) -> UpdateEvent {
    UpdateEvent::Found { version: version.to_string(), current: "1.0.0".to_string() }
}

fn inform(title: &str, message: &str) -> UpdateAction {
    UpdateAction::Inform { title: title.to_string(), message: message.to_string() }
}

#[test]
fn a_check_starts_once_the_updater_is_ready() {
    assert_eq!(
        UpdateMemory::new().check_for_update(false, "1.0.0", UpdateEvent::Ready),
        UpdateAction::Check
    );
}

#[test]
fn a_manual_check_always_reports() {
    let mut memory = UpdateMemory::new();
    assert_eq!(
        memory.check_for_update(true, "1.0.0", UpdateEvent::UpdaterFailed("no key".to_string())),
        inform("업데이트 확인", "업데이트를 확인할 수 없습니다.\nno key")
    );
    assert_eq!(
        memory.check_for_update(true, "1.0.0", UpdateEvent::UpToDate),
        inform("업데이트 확인", "최신 버전입니다 (v1.0.0).")
    );
    assert_eq!(
        memory.check_for_update(true, "1.0.0", UpdateEvent::CheckFailed("offline".to_string())),
        inform("업데이트 확인", "업데이트 정보를 가져올 수 없습니다.\noffline")
    );
    assert_eq!(memory.announced, None);
}

#[test]
fn an_automatic_check_is_quiet_without_a_new_version() {
    let mut memory = UpdateMemory::new();
    for event in [
        UpdateEvent::UpdaterFailed("no key".to_string()),
        UpdateEvent::UpToDate,
        UpdateEvent::CheckFailed("offline".to_string()),
    ] {
        assert_eq!(memory.check_for_update(false, "1.0.0", event), UpdateAction::Stop);
    }
    assert_eq!(memory.announced, None);
}

#[test]
fn a_new_version_is_asked_about() {
    let ask = UpdateAction::Ask {
        title: "QA Manager 업데이트".to_string(),
        message: "새 버전 v1.2.0 이 있습니다 (현재 v1.0.0).\n지금 다운로드해 설치하고 앱을 다시 시작할까요?".to_string(),
    };
    let mut memory = UpdateMemory::new();
    assert_eq!(memory.check_for_update(true, "1.0.0", found("1.2.0")), ask);
    assert_eq!(memory.announced, None);
    assert_eq!(memory.check_for_update(false, "1.0.0", found("1.2.0")), ask);
    assert_eq!(memory.announced, Some("1.2.0".to_string()));
}

#[test]
fn automatic_checks_ask_once_about_a_version() {
    let mut memory = UpdateMemory::new();
    assert!(matches!(memory.check_for_update(false, "1.0.0", found("1.2.0")), UpdateAction::Ask { .. }));
    assert_eq!(memory.check_for_update(false, "1.0.0", found("1.2.0")), UpdateAction::Stop);
    assert!(matches!(memory.check_for_update(true, "1.0.0", found("1.2.0")), UpdateAction::Ask { .. }));
    assert_eq!(memory.check_for_update(false, "1.0.0", UpdateEvent::UpToDate), UpdateAction::Stop);
    assert_eq!(memory.check_for_update(false, "1.0.0", found("1.2.0")), UpdateAction::Stop);
    assert!(matches!(memory.check_for_update(false, "1.0.0", found("1.3.0")), UpdateAction::Ask { .. }));
    assert!(matches!(memory.check_for_update(false, "1.0.0", found("1.2.0")), UpdateAction::Ask { .. }));
}

#[test]
fn installing_waits_for_consent() {
    let mut memory = UpdateMemory::new();
    assert_eq!(
        memory.check_for_update(false, "1.0.0", UpdateEvent::Answered(true)),
        UpdateAction::Install
    );
    assert_eq!(
        memory.check_for_update(true, "1.0.0", UpdateEvent::Answered(false)),
        UpdateAction::Stop
    );
}

#[test]
fn an_installation_restarts_or_is_reported() {
    let mut memory = UpdateMemory::new();
    assert_eq!(
        memory.check_for_update(false, "1.0.0", UpdateEvent::Installed),
        UpdateAction::Restart
    );
    assert_eq!(
        memory.check_for_update(false, "1.0.0", UpdateEvent::InstallFailed("disk".to_string())),
        inform("업데이트 실패", "업데이트를 설치하지 못했습니다.\ndisk")
    );
}

#[test]
fn checks_come_after_seconds_and_then_after_hours() {
    assert_eq!(next_check_delay(0), 5);
    assert_eq!(next_check_delay(1), 21600);
    assert_eq!(next_check_delay(u64::MAX), 21600);
}

#[test]
fn the_menu_has_four_entries() {
    let menu: Vec<(String, String)> = tray_menu().into_iter().map(|e| (e.id, e.label)).collect();
    let expected = [
        ("show", "열기"),
        ("servers", "서버 선택"),
        ("update", "업데이트 확인"),
        ("quit", "종료"),
    ];
    assert_eq!(menu.len(), 4);
    for (entry, (id, label)) in menu.iter().zip(expected) {
        assert_eq!((entry.0.as_str(), entry.1.as_str()), (id, label));
    }
}

#[test]
fn menu_entries_act() {
    assert_eq!(on_menu_event("show"), TrayAction::Show);
    assert_eq!(on_menu_event("servers"), TrayAction::ShowLauncher);
    assert_eq!(on_menu_event("update"), TrayAction::CheckForUpdate);
    assert_eq!(on_menu_event("quit"), TrayAction::Quit);
    assert_eq!(on_menu_event("Quit"), TrayAction::Ignore);
    assert_eq!(on_menu_event(""), TrayAction::Ignore);
    for entry in tray_menu() {
        assert_ne!(on_menu_event(&entry.id), TrayAction::Ignore);
    }
}

#[test]
fn closing_the_window_hides_it() {
    assert_eq!(on_window_event(WindowEvent::CloseRequested), WindowAction::HideInstead);
    assert_eq!(on_window_event(WindowEvent::Other), WindowAction::Ignore);
}

#[test]
fn the_web_application_learns_version_and_platform() {
    let info = desktop_info("1.0.0".to_string(), "linux".to_string());
    assert_eq!(info.version, "1.0.0");
    assert_eq!(info.platform, "linux");
}
