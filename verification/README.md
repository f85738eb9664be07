# ffwebapps

Runs websites as web apps: chromeless browser windows of their own, each with an icon in the system
tray, an unread badge and close-to-tray.

- `src/` is the library. It decides and computes: which step of a launch, an installation, an update
  or an uninstallation follows which, what the browser and the tray are started with, what the tray
  shows and does, and the KWin scripts that hide and show a window. It is verified with Verus.
- `app/` is the program around it: processes, files, sockets, D-Bus and the prompt.
- `tests/` runs the library on concrete values.

Steps that reach the outside world come out of the library as an action. The program performs it and
hands back what came of it; an event that does not answer the action changes nothing.

What holds of the whole is stated as proof functions whose names begin with `law_`: of single values
in `text.rs`, `ids.rs`, `link.rs`, `paths.rs`, `process.rs` and `kwin.rs`, of the tray in
`tray_laws.rs`, of launches in `launch_laws.rs`, and of what is kept on disk in `storage_laws.rs`.

Calls into other crates stand in small functions marked `external_body`, each with a comment that
says what is claimed of the call.
