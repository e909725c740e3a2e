//! The tray icon, the window, and what the web application may ask of the shell.

use vstd::prelude::*;

verus! {

/// The menu entry that brings up the window.
pub const MENU_SHOW: &'static str = "show";

/// The menu entry that goes back to the launcher.
pub const MENU_SERVERS: &'static str = "servers";

/// The menu entry that checks for updates.
pub const MENU_UPDATE: &'static str = "update";

/// The menu entry that ends the application.
pub const MENU_QUIT: &'static str = "quit";

/// An entry of the tray menu.
#[derive(Debug, PartialEq, Eq)]
pub struct MenuEntry {
    pub id: String,
    pub label: String,
}

/// An entry of the tray menu, in contracts.
pub struct MenuModel {
    pub id: Seq<char>,
    pub label: Seq<char>,
}

impl View for MenuEntry {
    type V = MenuModel;

    open spec fn view(&self) -> MenuModel {
        MenuModel { id: self.id@, label: self.label@ }
    }
}

/// The entries of the tray menu, from top to bottom.
pub open spec fn menu_entries() -> Seq<MenuModel> {
    seq![
        MenuModel { id: MENU_SHOW@, label: "열기"@ },
        MenuModel { id: MENU_SERVERS@, label: "서버 선택"@ },
        MenuModel { id: MENU_UPDATE@, label: "업데이트 확인"@ },
        MenuModel { id: MENU_QUIT@, label: "종료"@ },
    ]
}

/// An entry of the tray menu.
fn menu_entry(id: &str, label: &str) -> (r: MenuEntry)
    ensures
        r@ == (MenuModel { id: id@, label: label@ }),
{
    MenuEntry { id: id.to_owned(), label: label.to_owned() }
}

/// The entries of the tray menu, from top to bottom.
pub fn tray_menu() -> (r: Vec<MenuEntry>)
    ensures
        r@.map_values(|e: MenuEntry| e@) == menu_entries(),
{
    let mut entries: Vec<MenuEntry> = Vec::new();
    entries.push(menu_entry(MENU_SHOW, "열기"));
    entries.push(menu_entry(MENU_SERVERS, "서버 선택"));
    entries.push(menu_entry(MENU_UPDATE, "업데이트 확인"));
    entries.push(menu_entry(MENU_QUIT, "종료"));
    proof {
        assert(entries@.map_values(|e: MenuEntry| e@) =~= menu_entries());
    }
    entries
}

/// What an entry of the tray menu does.
#[derive(Debug, Clone, Copy, PartialEq, Eq, Structural)]
pub enum TrayAction {
    /// Bring up the window.
    Show,
    /// Bring up the window and go back to the launcher.
    ShowLauncher,
    /// Check for updates, as the user's own request.
    CheckForUpdate,
    /// End the application.
    Quit,
    /// Nothing.
    Ignore,
}

/// What the entry with the given id does.
pub open spec fn tray_action(id: Seq<char>) -> TrayAction {
    if id == MENU_SHOW@ {
        TrayAction::Show
    } else if id == MENU_SERVERS@ {
        TrayAction::ShowLauncher
    } else if id == MENU_UPDATE@ {
        TrayAction::CheckForUpdate
    } else if id == MENU_QUIT@ {
        TrayAction::Quit
    } else {
        TrayAction::Ignore
    }
}

/// Decides what the entry with the given id does.
pub fn on_menu_event(id: &str) -> (r: TrayAction)
    ensures
        r == tray_action(id@),
{
    if *id == *MENU_SHOW {
        TrayAction::Show
    } else if *id == *MENU_SERVERS {
        TrayAction::ShowLauncher
    } else if *id == *MENU_UPDATE {
        TrayAction::CheckForUpdate
    } else if *id == *MENU_QUIT {
        TrayAction::Quit
    } else {
        TrayAction::Ignore
    }
}

/// What happened to the window.
#[derive(Debug, Clone, Copy, PartialEq, Eq, Structural)]
pub enum WindowEvent {
    /// The user wants to close it.
    CloseRequested,
    /// Anything else.
    Other,
}

/// What is done about what happened to the window.
#[derive(Debug, Clone, Copy, PartialEq, Eq, Structural)]
pub enum WindowAction {
    /// Keep the window, and hide it.
    HideInstead,
    /// Nothing.
    Ignore,
}

/// Decides what is done about what happened to the window: closing it hides it, so
/// that the application goes on in the tray.
pub fn on_window_event(event: WindowEvent) -> (r: WindowAction)
    ensures
        r == match event {
            WindowEvent::CloseRequested => WindowAction::HideInstead,
            WindowEvent::Other => WindowAction::Ignore,
        },
{
    match event {
        WindowEvent::CloseRequested => WindowAction::HideInstead,
        WindowEvent::Other => WindowAction::Ignore,
    }
}

/// What the web application is told about the shell.
#[derive(Debug, PartialEq, Eq)]
pub struct DesktopInfo {
    /// The version of the application.
    pub version: String,
    /// The operating system: `macos`, `windows`, `linux`.
    pub platform: String,
}

/// What the web application is told about the shell.
pub fn desktop_info(version: String, platform: String) -> (r: DesktopInfo)
    ensures
        r.version@ == version@,
        r.platform@ == platform@,
{
    DesktopInfo { version, platform }
}

/// Every entry of the tray menu does something.
pub proof fn law_menu_entries_act(i: int)
    requires
        0 <= i < menu_entries().len(),
    ensures
        tray_action(menu_entries()[i].id) != TrayAction::Ignore,
{
}

/// The application ends by the tray menu's last entry and by no other.
pub proof fn law_only_quit_ends(id: Seq<char>)
    ensures
        tray_action(id) == TrayAction::Quit <==> id == MENU_QUIT@,
{
    reveal_strlit("show");
    reveal_strlit("servers");
    reveal_strlit("update");
    reveal_strlit("quit");
    assert(MENU_QUIT@.len() == 4 && MENU_QUIT@[0] == 'q');
    assert(MENU_SHOW@[0] == 's' && MENU_SERVERS@.len() == 7 && MENU_UPDATE@.len() == 6);
}

/// Each of the four ids does its own thing, and any other id does nothing.
pub proof fn law_ids_do_their_own_thing(id: Seq<char>)
    ensures
        tray_action(id) == TrayAction::Show <==> id == "show"@,
        tray_action(id) == TrayAction::ShowLauncher <==> id == "servers"@,
        tray_action(id) == TrayAction::CheckForUpdate <==> id == "update"@,
        tray_action(id) == TrayAction::Quit <==> id == "quit"@,
        tray_action(id) == TrayAction::Ignore <==> id != "show"@ && id != "servers"@ && id
            != "update"@ && id != "quit"@,
{
    reveal_strlit("show");
    reveal_strlit("servers");
    reveal_strlit("update");
    reveal_strlit("quit");
    assert("quit"@.len() == 4 && "quit"@[0] == 'q');
    assert("show"@.len() == 4 && "show"@[0] == 's');
    assert("servers"@.len() == 7 && "update"@.len() == 6);
}

/// The menu offers the four, in this order and with these labels.
pub proof fn law_menu_offers_all()
    ensures
        menu_entries().len() == 4,
        menu_entries()[0] == (MenuModel { id: "show"@, label: "열기"@ }),
        menu_entries()[1] == (MenuModel { id: "servers"@, label: "서버 선택"@ }),
        menu_entries()[2] == (MenuModel { id: "update"@, label: "업데이트 확인"@ }),
        menu_entries()[3] == (MenuModel { id: "quit"@, label: "종료"@ }),
{
}

/// A menu entry stands for just its id and its label.
pub proof fn law_menu_entry_is_taken_whole(entry: MenuEntry)
    ensures
        entry@.id == entry.id@,
        entry@.label == entry.label@,
{
}

}
