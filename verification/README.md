# QA Manager Desktop

The desktop shell of QA Manager: a launcher in which self-hosted servers are added
and chosen, and one web view that is taken to the chosen server. The application
stays in the tray when its window is closed, shows the web application's
notifications natively, and keeps itself up to date.

## Layout

- `src/` is the library: what the shell decides and computes, written in Verus and
  verified.
  - `text`: trimming and comparing texts.
  - `web_url`: parsed URLs and their origins.
  - `servers`: the list of servers and the choice; removing, opening, going back to
    the launcher.
  - `registration`: checking what was typed for a new server, judging its health
    endpoint's answer, entering it in the list.
  - `navigation`: requests for a new window.
  - `notifications`, `json_text`: native notifications, the script that passes a
    click on, the badge.
  - `permission`: the permission to show notifications.
  - `updates`: checking for updates and installing them.
  - `shell`: the tray menu and the window.
  - `laws`: what holds of adding, removing and opening servers and of links,
    whatever the input. The laws of the other modules stand at their ends.
- `app/` is the application: windows, dialogs, files and network around the library.
  It needs `tauri` with its dialog and updater plugins and, on macOS,
  `mac-usernotifications`.
- `tests/` runs the library.

The settings file is `servers.json` in the application's configuration directory:
`{ servers: [{ id, name, url }], last }`.
