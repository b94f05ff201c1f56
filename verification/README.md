# desktop_tray

Verified decision logic for a desktop shell's tray icon and close-to-background
behaviour, written in Verus.

- `src/` is the library. `settings` turns stored values into settings,
  `policy` answers window-close and exit requests, `state` holds what the shell
  knows about its settings, tray and toggle-window shortcut, `tray` decides what
  happens to the tray icon and its menu, `title_bar` how the window's title bar
  follows the settings, and `session_bus` validates the StatusNotifierWatcher's
  bus name through zbus.
- `app/` is the Tauri side: it reads the settings store, drives windows and the
  tray, probes for appindicator and the StatusNotifierItem host, and asks the
  library what to do at each step.
- `tests/` exercises the library on concrete values.

app/ also uses `tauri` and `tauri-plugin-store`, which `Cargo.toml` does not
name: together they pull in more than 400 packages and build only where the
GTK 3 and WebKit system libraries are installed. Add them to build app/.
