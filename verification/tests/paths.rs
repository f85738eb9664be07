use ffwebapps::paths::{app_file_path, log_path, rt_dir, script_path, tray_pidfile, AppFile};

#[test]
fn the_session_directory_has_a_fallback() {
    assert_eq!(rt_dir(Some("/run/user/1000".to_string())), "/run/user/1000");
    assert_eq!(rt_dir(Some(String::new())), "");
    assert_eq!(rt_dir(None), "/tmp");
}

#[test]
fn every_file_has_its_name() {
    let cases = [
        (AppFile::Unread, "/rt/ffwebapps-X.unread"),
        (AppFile::Hide, "/rt/ffwebapps-X.hide"),
        (AppFile::Show, "/rt/ffwebapps-X.show"),
        (AppFile::Hidden, "/rt/ffwebapps-X.hidden"),
        (AppFile::Running, "/rt/ffwebapps-X.running"),
        (AppFile::Socket, "/rt/ffwebapps-X.sock"),
        (AppFile::TrayPid, "/rt/ffwebapps-tray-X.pid"),
    ];
    for (kind, path) in cases {
        assert_eq!(app_file_path("/rt", "X", kind), path);
    }
    assert_eq!(tray_pidfile("/rt", "X"), "/rt/ffwebapps-tray-X.pid");
    assert_eq!(log_path("/rt"), "/rt/ffwebapps-tray.log");
    assert_eq!(script_path("/rt"), "/rt/ffwebapps-kwin.js");
}

#[test]
fn no_two_files_share_a_path() {
    let kinds = [
        AppFile::Unread,
        AppFile::Hide,
        AppFile::Show,
        AppFile::Hidden,
        AppFile::Running,
        AppFile::Socket,
        AppFile::TrayPid,
    ];
    let mut paths: Vec<String> = vec![];
    for id in ["A", "B", "tray-A", "A.hide", ""] {
        for kind in kinds {
            let path = app_file_path("/rt", id, kind);
            assert!(!paths.contains(&path), "{path}");
            paths.push(path);
        }
    }
}
