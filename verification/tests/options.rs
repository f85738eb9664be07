use ffwebapps::effects::Effect;
use ffwebapps::kwin::set_window_hidden;
use ffwebapps::launch::spawn_tray;
use ffwebapps::options::{parse_args, Options};
use ffwebapps::tray::{AppTray, State};

fn parsed(args: &[&str]) -> Options {
    let args: Vec<String> = args.iter().map(|arg| arg.to_string()).collect();
    parse_args(&args, "/rt")
}

#[test]
fn every_flag_takes_the_next_word() {
    let opts = parsed(&[
        "--id", "X", "--name", "Mail", "--icon", "mail", "--wmclass", "FFPWA-X", "--exec", "run it",
    ]);
    assert_eq!(opts.id, "X");
    assert_eq!(opts.name, "Mail");
    assert_eq!(opts.icon, "mail");
    assert_eq!(opts.wmclass, "FFPWA-X");
    assert_eq!(opts.command, "run it");
    assert_eq!(opts.rt, "/rt");
    assert_eq!(opts.unread_file, "/rt/ffwebapps-X.unread");
    assert_eq!(opts.hide_file, "/rt/ffwebapps-X.hide");
    assert_eq!(opts.show_file, "/rt/ffwebapps-X.show");
    assert_eq!(opts.hidden_file, "/rt/ffwebapps-X.hidden");
    assert_eq!(opts.running_file, "/rt/ffwebapps-X.running");
}

#[test]
fn flags_that_are_missing_have_defaults() {
    let opts = parsed(&[]);
    assert_eq!(opts.id, "");
    assert_eq!(opts.name, "Web App");
    assert_eq!(opts.icon, "applications-internet");
    assert_eq!(opts.wmclass, "");
    assert_eq!(opts.command, "");
}

#[test]
fn the_last_of_two_flags_counts_and_unknown_words_are_skipped() {
    let opts = parsed(&["--id", "A", "word", "--other", "--id", "B"]);
    assert_eq!(opts.id, "B");
}

#[test]
fn a_flag_takes_whatever_follows() {
    let opts = parsed(&["--id", "--name", "Mail", "--icon"]);
    assert_eq!(opts.id, "--name");
    assert_eq!(opts.name, "Web App");
    assert_eq!(opts.icon, "");
}

#[test]
fn the_tray_understands_its_launcher() {
    let command = spawn_tray(1, "--name", "FFPWA-1", "ffwebapps site launch 1", Some(true));
    let opts = parse_args(&command.args, "/rt");
    assert_eq!(opts.id, "00000000000000000000000001");
    assert_eq!(opts.name, "--name");
    assert_eq!(opts.icon, "FFPWA-00000000000000000000000001");
    assert_eq!(opts.wmclass, "FFPWA-1");
    assert_eq!(opts.command, "ffwebapps site launch 1");
}

#[test]
fn a_launched_tray_moves_the_window_of_its_app() {
    let command = spawn_tray(1, "Mail", "FFPWA-1", "go", None);
    let tray = AppTray { opts: parse_args(&command.args, "/rt"), state: State { unread: 0 } };
    let running = vec!["/proc/9".to_string()];
    let marked = vec!["/proc/9".to_string(), tray.opts.hidden_file.clone()];
    let script = |effects: &Vec<Effect>, hidden: bool| {
        let wanted = set_window_hidden("FFPWA-1", hidden).unwrap();
        effects.iter().any(|effect| matches!(effect, Effect::Script(script) if *script == wanted))
    };
    assert!(script(&tray.activate_app(Some("9"), &running), true));
    assert!(script(&tray.activate_app(Some("9"), &marked), false));
    let started = tray.activate_app(None, &running);
    assert!(matches!(&started[1], Effect::Start(words) if words.join("|") == "sh|-c|go"));
}
