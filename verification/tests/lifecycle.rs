use ffwebapps::effects::Effect;
use ffwebapps::lifecycle::{
    already_running, run, watch_start, watch_step, Probe, RunEvent, RunStage, Sight, Watch,
};
use ffwebapps::options::{parse_args, Options};

fn opts() -> Options {
    let args: Vec<String> =
        ["--id", "X", "--wmclass", "W"].iter().map(|arg| arg.to_string()).collect();
    parse_args(&args, "/rt")
}

fn kinds(effects: &[Effect]) -> Vec<String> {
    effects
        .iter()
        .map(|effect| match effect {
            Effect::Log(line) => format!("log {line}"),
            Effect::Complain(line) => format!("complain {line}"),
            Effect::Write(path, contents) => format!("write {path} {contents}"),
            Effect::Remove(path) => format!("remove {path}"),
            Effect::Script(_) => "script".to_string(),
            Effect::Start(words) => format!("start {}", words.join("|")),
            Effect::Call(words) => format!("call {}", words.join("|")),
            Effect::Refresh => "refresh".to_string(),
            Effect::Sleep(millis) => format!("sleep {millis}"),
            Effect::Exit(status) => format!("exit {status}"),
        })
        .collect()
}

fn watch(next: Probe) -> Watch {
    Watch { was_alive: false, unread: 0, next }
}

fn alive() -> Sight {
    Sight::Runtime(Some("9\n".to_string()), vec!["/proc/9".to_string()], 0)
}

fn dead(elapsed: u128) -> Sight {
    Sight::Runtime(None, vec![], elapsed)
}

#[test]
fn a_tray_first_waits_and_then_looks_at_the_runtime() {
    let (watch, effects) = watch_start(3);
    assert_eq!(watch, Watch { was_alive: false, unread: 3, next: Probe::Runtime });
    assert_eq!(kinds(&effects), ["sleep 250"]);
}

#[test]
fn a_runtime_that_is_there_is_remembered() {
    let (next, effects) = watch_step(&opts(), watch(Probe::Runtime), &alive());
    assert_eq!(next, Watch { was_alive: true, unread: 0, next: Probe::HideRequest });
    assert!(effects.is_empty());
}

#[test]
fn a_tray_ends_with_its_runtime() {
    let before = Watch { was_alive: true, unread: 0, next: Probe::Runtime };
    let (_, effects) = watch_step(&opts(), before, &dead(1));
    assert_eq!(
        kinds(&effects),
        [
            "log runtime exited -> tray quitting",
            "remove /rt/ffwebapps-X.unread",
            "remove /rt/ffwebapps-X.hide",
            "remove /rt/ffwebapps-X.show",
            "remove /rt/ffwebapps-X.hidden",
            "remove /rt/ffwebapps-tray-X.pid",
            "exit 0",
        ]
    );
}

#[test]
fn a_runtime_is_given_twenty_seconds() {
    let (next, effects) = watch_step(&opts(), watch(Probe::Runtime), &dead(20_000_000_000));
    assert!(effects.is_empty());
    assert_eq!(next.next, Probe::HideRequest);
    assert!(!next.was_alive);
    let (_, effects) = watch_step(&opts(), watch(Probe::Runtime), &dead(20_000_000_001));
    assert_eq!(kinds(&effects)[0], "log runtime never started -> tray quitting");
    assert_eq!(kinds(&effects)[6], "exit 0");
}

#[test]
fn a_request_to_hide_is_taken_away_and_honoured() {
    let hide = "/rt/ffwebapps-X.hide".to_string();
    let hidden = "/rt/ffwebapps-X.hidden".to_string();
    let (next, effects) =
        watch_step(&opts(), watch(Probe::HideRequest), &Sight::HideRequest(vec![hide.clone()]));
    assert_eq!(next.next, Probe::ShowRequest);
    assert_eq!(
        kinds(&effects),
        [
            "remove /rt/ffwebapps-X.hide",
            "log hide request -> hide window",
            "script",
            "write /rt/ffwebapps-X.hidden 1",
        ]
    );
    let (_, effects) =
        watch_step(&opts(), watch(Probe::HideRequest), &Sight::HideRequest(vec![hidden.clone(), hide]));
    assert_eq!(kinds(&effects), ["remove /rt/ffwebapps-X.hide"]);
    let (_, effects) =
        watch_step(&opts(), watch(Probe::HideRequest), &Sight::HideRequest(vec![hidden]));
    assert!(effects.is_empty());
}

#[test]
fn a_request_to_show_is_taken_away_and_honoured() {
    let show = "/rt/ffwebapps-X.show".to_string();
    let (next, effects) =
        watch_step(&opts(), watch(Probe::ShowRequest), &Sight::ShowRequest(vec![show]));
    assert_eq!(next.next, Probe::Unread);
    assert_eq!(
        kinds(&effects),
        [
            "remove /rt/ffwebapps-X.show",
            "log show request -> restore/raise window",
            "script",
            "remove /rt/ffwebapps-X.hidden",
        ]
    );
    let (_, effects) = watch_step(&opts(), watch(Probe::ShowRequest), &Sight::ShowRequest(vec![]));
    assert!(effects.is_empty());
}

#[test]
fn the_icon_is_drawn_anew_when_the_count_changes() {
    let seen = Sight::Unread(Some("2".to_string()), true);
    let (next, effects) = watch_step(&opts(), watch(Probe::Unread), &seen);
    assert_eq!(next, Watch { was_alive: false, unread: 2, next: Probe::Runtime });
    assert_eq!(kinds(&effects), ["refresh", "sleep 250"]);
    let (next, effects) = watch_step(&opts(), Watch { next: Probe::Unread, ..next }, &seen);
    assert_eq!(next.unread, 2);
    assert_eq!(kinds(&effects), ["sleep 250"]);
    let unregistered = Sight::Unread(None, false);
    let (next, effects) = watch_step(&opts(), Watch { next: Probe::Unread, ..next }, &unregistered);
    assert_eq!(next.unread, 0);
    assert_eq!(kinds(&effects), ["sleep 250"]);
}

#[test]
fn a_sight_out_of_turn_changes_nothing() {
    let before = watch(Probe::HideRequest);
    let (next, effects) = watch_step(&opts(), before, &dead(99_000_000_000));
    assert_eq!(next, before);
    assert!(effects.is_empty());
}

#[test]
fn a_tray_needs_an_identifier() {
    let opts = parse_args(&vec![], "/rt");
    let (stage, effects) = run(&opts, RunStage::Start, &RunEvent::Begin);
    assert_eq!(stage, RunStage::Stopped);
    assert_eq!(kinds(&effects), ["complain ffwebapps-tray: --id is required", "exit 1"]);
}

fn texts(texts: &[&str]) -> Vec<String> {
    texts.iter().map(|text| text.to_string()).collect()
}

#[test]
fn there_is_one_tray_per_app() {
    let (stage, effects) = run(&opts(), RunStage::Start, &RunEvent::Begin);
    assert_eq!(stage, RunStage::Guard);
    assert!(effects.is_empty());
    let words = texts(&["/usr/bin/ffwebapps-tray", "--name", "Mail", "--id", "X"]);
    let present = texts(&["/proc/7"]);
    let other = RunEvent::Guarded(Some("7".to_string()), present.clone(), words.clone(), 8);
    let (stage, effects) = run(&opts(), RunStage::Guard, &other);
    assert_eq!(stage, RunStage::Stopped);
    assert!(effects.is_empty());
    assert!(already_running("X", Some("7"), &present, &words, 8));
}

#[test]
fn a_tray_under_another_name_is_a_tray() {
    let words = texts(&["renamed-tray", "--id", "X"]);
    assert!(already_running("X", Some("7"), &texts(&["/proc/7"]), &words, 8));
}

#[test]
fn a_life_over_several_looks() {
    let (mut watch, _) = watch_start(0);
    let mut ended = vec![];
    for sight in [
        dead(1),
        Sight::HideRequest(vec![]),
        alive(),
        Sight::ShowRequest(vec![]),
        Sight::Unread(None, true),
        dead(2),
        Sight::HideRequest(vec![]),
        Sight::ShowRequest(vec![]),
        Sight::Unread(None, true),
        alive(),
        Sight::HideRequest(vec![]),
        Sight::ShowRequest(vec![]),
        Sight::Unread(None, true),
        dead(3),
    ] {
        let (next, effects) = watch_step(&opts(), watch, &sight);
        watch = next;
        ended.push(kinds(&effects).contains(&"exit 0".to_string()));
    }
    assert_eq!(ended.iter().filter(|exit| **exit).count(), 1);
    assert!(ended[13]);
}

#[test]
fn a_number_left_behind_stops_no_tray() {
    let stale = RunEvent::Guarded(Some("7".to_string()), vec![], vec![], 4_000_000_000);
    let (stage, effects) = run(&opts(), RunStage::Guard, &stale);
    assert_eq!(stage, RunStage::Count);
    assert_eq!(kinds(&effects), ["write /rt/ffwebapps-tray-X.pid 4000000000"]);
    let words = texts(&["ffwebapps-tray", "--id", "X"]);
    assert!(!already_running("X", Some("7"), &vec![], &words, 8));
    assert!(!already_running("X", None, &texts(&["/proc/7"]), &words, 8));
}

#[test]
fn an_unrelated_process_stops_no_tray() {
    let present = texts(&["/proc/7"]);
    for words in [
        texts(&[]),
        texts(&["/usr/bin/editor", "X"]),
        texts(&["--id", "X"]),
        texts(&["/usr/bin/ffwebapps-tray", "--id", "Y"]),
        texts(&["/usr/bin/ffwebapps-tray"]),
    ] {
        assert!(!already_running("X", Some("7"), &present, &words, 8));
        let event = RunEvent::Guarded(Some("7".to_string()), present.clone(), words, 8);
        let (stage, effects) = run(&opts(), RunStage::Guard, &event);
        assert_eq!(stage, RunStage::Count);
        assert_eq!(kinds(&effects), ["write /rt/ffwebapps-tray-X.pid 8"]);
    }
    let own = texts(&["/usr/bin/ffwebapps-tray", "--id", "X"]);
    assert!(already_running("X", Some("7"), &present, &own, 8));
    assert!(!already_running("X", Some("7"), &present, &own, 7));
}

#[test]
fn a_tray_serves_until_its_process_ends() {
    let (stage, effects) =
        run(&opts(), RunStage::Count, &RunEvent::Counted(Some("5\n".to_string())));
    assert_eq!(stage, RunStage::Serve(5));
    assert!(effects.is_empty());
    let (stage, effects) = run(&opts(), stage, &RunEvent::Ended);
    assert_eq!(stage, RunStage::Serve(5));
    assert_eq!(kinds(&effects), ["log tray service ended -> re-registering", "sleep 500"]);
    let (stage, effects) = run(&opts(), RunStage::Stopped, &RunEvent::Ended);
    assert_eq!(stage, RunStage::Stopped);
    assert!(effects.is_empty());
}
