use ffwebapps::effects::Effect;
use ffwebapps::options::parse_args;
use ffwebapps::tray::{
    cleanup, hide_window, is_hidden, pid_alive, process_path, read_pid, read_unread, show_window,
    AppTray, MenuAction, MenuEntry, State, Status,
};

fn tray(unread: u32) -> AppTray {
    let args: Vec<String> = ["--id", "X", "--name", "Mail", "--icon", "mail", "--wmclass", "W", "--exec", "go"]
        .iter()
        .map(|arg| arg.to_string())
        .collect();
    AppTray { opts: parse_args(&args, "/rt"), state: State { unread } }
}

fn described(effects: &[Effect]) -> Vec<String> {
    effects
        .iter()
        .map(|effect| match effect {
            Effect::Log(line) => format!("log {line}"),
            Effect::Complain(line) => format!("complain {line}"),
            Effect::Write(path, contents) => format!("write {path} {contents}"),
            Effect::Remove(path) => format!("remove {path}"),
            Effect::Script(script) => {
                if script.contains("-50000") {
                    "script hide".to_string()
                } else {
                    "script show".to_string()
                }
            }
            Effect::Start(words) => format!("start {}", words.join("|")),
            Effect::Call(words) => format!("call {}", words.join("|")),
            Effect::Refresh => "refresh".to_string(),
            Effect::Sleep(millis) => format!("sleep {millis}"),
            Effect::Exit(status) => format!("exit {status}"),
        })
        .collect()
}

const CLEANUP: [&str; 5] = [
    "remove /rt/ffwebapps-X.unread",
    "remove /rt/ffwebapps-X.hide",
    "remove /rt/ffwebapps-X.show",
    "remove /rt/ffwebapps-X.hidden",
    "remove /rt/ffwebapps-tray-X.pid",
];

#[test]
fn process_numbers_are_read_with_white_space_around() {
    assert_eq!(read_pid(Some(" 42\n")), Some(42));
    assert_eq!(read_pid(Some("-1")), Some(-1));
    assert_eq!(read_pid(Some("")), None);
    assert_eq!(read_pid(Some("4x")), None);
    assert_eq!(read_pid(Some("2147483648")), None);
    assert_eq!(read_pid(None), None);
}

#[test]
fn unread_messages_count_as_none_in_doubt() {
    assert_eq!(read_unread(Some("3\n")), 3);
    assert_eq!(read_unread(Some("-3")), 0);
    assert_eq!(read_unread(Some("many")), 0);
    assert_eq!(read_unread(None), 0);
    assert_eq!(read_unread(Some("4294967295")), u32::MAX);
}

#[test]
fn a_process_is_alive_while_its_directory_is_there() {
    let present = vec!["/proc/42".to_string()];
    assert_eq!(process_path(Some("42\n")).as_deref(), Some("/proc/42"));
    assert_eq!(process_path(Some("-7")).as_deref(), Some("/proc/-7"));
    assert_eq!(process_path(Some("x")), None);
    assert!(pid_alive(Some("42\n"), &present));
    assert!(!pid_alive(Some("43"), &present));
    assert!(!pid_alive(Some("x"), &present));
    assert!(!pid_alive(None, &present));
}

#[test]
fn a_mark_tells_a_hidden_window() {
    let tray = tray(0);
    assert!(is_hidden(&tray.opts, &vec!["/rt/ffwebapps-X.hidden".to_string()]));
    assert!(!is_hidden(&tray.opts, &vec!["/rt/ffwebapps-Y.hidden".to_string()]));
}

#[test]
fn hiding_marks_and_showing_unmarks() {
    let tray = tray(0);
    assert_eq!(
        described(&hide_window(&tray.opts)),
        ["script hide", "write /rt/ffwebapps-X.hidden 1"]
    );
    assert_eq!(
        described(&show_window(&tray.opts)),
        ["script show", "remove /rt/ffwebapps-X.hidden"]
    );
}

#[test]
fn without_a_class_only_the_mark_changes() {
    let opts = parse_args(&vec!["--id".to_string(), "X".to_string()], "/rt");
    assert_eq!(described(&hide_window(&opts)), ["write /rt/ffwebapps-X.hidden 1"]);
    assert_eq!(described(&show_window(&opts)), ["remove /rt/ffwebapps-X.hidden"]);
}

#[test]
fn cleaning_up_spares_the_runtimes_own_file() {
    assert_eq!(described(&cleanup(&tray(0).opts)), CLEANUP);
}

#[test]
fn a_click_toggles_a_running_app() {
    let tray = tray(0);
    let shown = vec!["/proc/42".to_string()];
    let hidden = vec!["/proc/42".to_string(), "/rt/ffwebapps-X.hidden".to_string()];
    assert_eq!(
        described(&tray.activate_app(Some("42"), &shown)),
        ["log activate: hide", "script hide", "write /rt/ffwebapps-X.hidden 1"]
    );
    assert_eq!(
        described(&tray.activate_app(Some("42"), &hidden)),
        ["log activate: show", "script show", "remove /rt/ffwebapps-X.hidden"]
    );
    assert_eq!(
        described(&tray.activate(Some("42"), &shown))[0],
        "log ksni activate() (single click)"
    );
    assert_eq!(tray.activate(Some("42"), &shown).len(), 4);
}

#[test]
fn a_click_launches_an_app_that_is_not_running() {
    assert_eq!(
        described(&tray(0).activate_app(Some("42"), &vec!["/rt/ffwebapps-X.hidden".to_string()])),
        [
            "log activate: not running -> launch",
            "start sh|-c|go",
            "remove /rt/ffwebapps-X.hidden",
        ]
    );
}

#[test]
fn quitting_asks_the_runtime_to_end_and_waits() {
    assert_eq!(
        described(&tray(0).quit_app(Some("42\n"))),
        ["log quit: terminating runtime", "call kill|-TERM|42", "sleep 5000"]
    );
    assert_eq!(described(&tray(0).quit_app(None)), ["log quit: terminating runtime"]);
}

#[test]
fn quitting_ends_a_runtime_that_is_still_there() {
    let mut expected = vec!["call kill|-KILL|42"];
    expected.extend(CLEANUP);
    expected.push("exit 0");
    let present = vec!["/proc/42".to_string()];
    assert_eq!(described(&tray(0).quit_end(Some("42\n"), &present)), expected);
}

#[test]
fn quitting_leaves_a_runtime_that_is_gone() {
    let mut expected = CLEANUP.to_vec();
    expected.push("exit 0");
    assert_eq!(described(&tray(0).quit_end(Some("42\n"), &vec![])), expected);
    assert_eq!(described(&tray(0).quit_end(None, &vec!["/proc/42".to_string()])), expected);
}

#[test]
fn the_icon_tells_what_it_stands_for() {
    let tray = tray(0);
    assert_eq!(tray.icon_name(), "mail");
    assert_eq!(tray.id(), "ffwebapps-X");
    assert_eq!(tray.title(), "Mail");
    assert_eq!(tray.status(), Status::Active);
}

#[test]
fn the_badge_is_there_with_unread_messages() {
    assert_eq!(tray(0).overlay_icon_name(), "");
    assert_eq!(tray(0).tool_tip().description, "");
    assert_eq!(tray(12).overlay_icon_name(), "mail-unread");
    let tip = tray(12).tool_tip();
    assert_eq!(tip.description, "12 unread");
    assert_eq!(tip.title, "Mail");
    assert_eq!(tip.icon_name, "mail");
}

#[test]
fn the_menu_opens_and_quits() {
    let menu: Vec<String> = tray(0)
        .menu()
        .iter()
        .map(|entry| match entry {
            MenuEntry::Item { label, icon_name, action: MenuAction::Activate } => {
                format!("{label} {icon_name} activate")
            }
            MenuEntry::Item { label, icon_name, action: MenuAction::Quit } => {
                format!("{label} {icon_name} quit")
            }
            MenuEntry::Separator => "-".to_string(),
        })
        .collect();
    assert_eq!(menu, ["Open mail activate", "-", "Quit application-exit quit"]);
}
