use std::collections::BTreeMap;

use ffwebapps::ids::identifier;
use ffwebapps::launch::{
    assign_webapp_id, failure_context, handler_text, lacks_webapp_id, only_target, runtime_show,
    spawn_tray, Build, LaunchAction, LaunchError, LaunchEvent, Platform, SiteLaunchCommand,
    TrayBinary,
};
use ffwebapps::link::{Link, LinkError};
use ffwebapps::storage::{
    Manifest, Profile, ProtocolHandler, Site, SiteConfig, Storage, Variables,
};

fn link(text: &str) -> Link {
    match Link::parse(text) {
        Ok(link) => link,
        Err(error) => panic!("{}", error.message),
    }
}

fn config() -> SiteConfig {
    SiteConfig {
        name: Some("Mail".to_string()),
        description: None,
        categories: None,
        keywords: None,
        document_url: link("https://mail.example/"),
        manifest_url: link("https://mail.example/app.webmanifest"),
        start_url: None,
        icon_url: None,
        enabled_url_handlers: vec![],
        enabled_protocol_handlers: vec![],
        custom_protocol_handlers: vec![],
        launch_on_login: false,
        launch_on_browser: false,
        webapp_id: Some(77),
        external_links: None,
        allowed_domains: vec![],
        hardware_webrtc: false,
        software_rendering: false,
        scheduling: None,
        user_agent: None,
        start_hidden: false,
    }
}

fn site(ulid: u128, profile: u128) -> Site {
    Site { ulid, profile, config: config(), manifest: Manifest { protocol_handlers: vec![] } }
}

fn storage(profiles: &[(u128, &[u128])]) -> Storage {
    let mut kept = Storage {
        arguments: vec!["--kept".to_string()],
        variables: Variables::new().with("LANG", "C"),
        use_linked_runtime: false,
        profiles: BTreeMap::new(),
        sites: BTreeMap::new(),
    };
    for (ulid, sites) in profiles {
        kept.profiles.insert(*ulid, Profile { ulid: *ulid, sites: sites.to_vec() });
        for id in sites.iter() {
            kept.sites.insert(*id, site(*id, *ulid));
        }
    }
    kept
}

const LINUX: Build = Build { platform: Platform::Linux, immutable_runtime: false };
const MACOS: Build = Build { platform: Platform::MacOs, immutable_runtime: false };
const WINDOWS: Build = Build { platform: Platform::Windows, immutable_runtime: false };

fn plain(id: u128) -> SiteLaunchCommand {
    SiteLaunchCommand {
        id,
        url: vec![],
        protocol: None,
        arguments: vec![],
        hidden: false,
        direct_launch: false,
    }
}

fn through(id: u128, protocol: &str) -> SiteLaunchCommand {
    SiteLaunchCommand { protocol: Some(Some(link(protocol))), ..plain(id) }
}

fn handler(protocol: &str, url: Option<&str>) -> ProtocolHandler {
    ProtocolHandler { protocol: protocol.to_string(), url: url.map(|url| url.to_string()) }
}

fn url_texts(urls: Result<Vec<Link>, LaunchError>) -> Result<Vec<String>, LaunchError> {
    urls.map(|urls| urls.iter().map(|url| url.as_str().to_string()).collect())
}

#[test]
fn the_message_for_the_runtime() {
    let request = runtime_show("/rt", 0, true);
    assert_eq!(request.socket, "/rt/ffwebapps-00000000000000000000000000.sock");
    assert_eq!(request.message, "hello v1 launcher\nshow\n");
    let request = runtime_show("/rt", u128::MAX, false);
    assert_eq!(request.socket, "/rt/ffwebapps-7ZZZZZZZZZZZZZZZZZZZZZZZZZ.sock");
    assert_eq!(request.message, "hello v1 launcher\n");
    assert_eq!(plain(0).show_request("/rt").message, "hello v1 launcher\nshow\n");
    let hidden = SiteLaunchCommand { hidden: true, ..plain(0) };
    assert_eq!(hidden.show_request("/rt").message, "hello v1 launcher\n");
}

#[test]
fn identifiers_are_written_in_base_32() {
    for text in ["01KTVNB6PT0YSDPX9X083P5Z6N", "01KTVNKW9TNPEH9Z3C3X63EPQ3"] {
        let id = ulid::Ulid::from_string(text).unwrap().0;
        assert_eq!(spawn_tray(id, "", "", "", None).args[1], text);
    }
    assert_eq!(spawn_tray(31, "", "", "", None).args[1], "0000000000000000000000000Z");
    assert_eq!(spawn_tray(32, "", "", "", None).args[1], "00000000000000000000000010");
}

#[test]
fn the_tray_is_looked_for_beside_the_program() {
    assert_eq!(spawn_tray(0, "Mail", "W", "go", Some(true)).binary, TrayBinary::Sibling);
    assert_eq!(spawn_tray(0, "Mail", "W", "go", Some(false)).binary, TrayBinary::Installed);
    assert_eq!(spawn_tray(0, "Mail", "W", "go", None).binary, TrayBinary::Installed);
    assert_eq!(
        spawn_tray(0, "Mail", "W", "go", None).args,
        [
            "--id",
            "00000000000000000000000000",
            "--name",
            "Mail",
            "--icon",
            "FFPWA-00000000000000000000000000",
            "--wmclass",
            "W",
            "--exec",
            "go",
        ]
    );
}

#[test]
fn a_protocol_url_goes_through_its_handler() {
    let mut app = site(1, 0);
    app.config.enabled_protocol_handlers = vec!["web+mail".to_string()];
    app.manifest.protocol_handlers = vec![
        handler("web+news", Some("https://mail.example/news?u=%s")),
        handler("web+mail", Some("https://mail.example/to?u=%s&again=%s")),
        handler("web+mail", Some("https://mail.example/second?u=%s")),
    ];
    let text = handler_text(&app, &link("web+mail:a b"));
    assert_eq!(text, Ok("https://mail.example/to?u=web%2Bmail%3Aa%20b&again=%s".to_string()));
    assert_eq!(
        url_texts(through(1, "web+mail:ab").targets(&app)),
        Ok(vec!["https://mail.example/to?u=web%2Bmail%3Aab&again=%s".to_string()])
    );
}

#[test]
fn the_users_own_handlers_come_first() {
    let mut app = site(1, 0);
    app.config.enabled_protocol_handlers = vec!["web+mail".to_string()];
    app.manifest.protocol_handlers = vec![handler("web+mail", Some("https://site.example/%s"))];
    app.config.custom_protocol_handlers = vec![handler("web+mail", Some("https://own.example/%s"))];
    assert_eq!(
        url_texts(through(1, "web+mail:x").targets(&app)),
        Ok(vec!["https://own.example/web%2Bmail%3Ax".to_string()])
    );
}

#[test]
fn a_protocol_that_cannot_be_opened_is_refused() {
    let mut app = site(1, 0);
    let command = through(1, "web+mail:x");
    assert_eq!(url_texts(command.targets(&app)), Err(LaunchError::SchemeNotEnabled));
    assert_eq!(command.message(LaunchError::SchemeNotEnabled), "Scheme web+mail not enabled");
    app.config.enabled_protocol_handlers = vec!["web+mail".to_string()];
    assert_eq!(url_texts(command.targets(&app)), Err(LaunchError::SchemeNotFound));
    assert_eq!(command.message(LaunchError::SchemeNotFound), "Scheme web+mail not found");
    app.manifest.protocol_handlers = vec![handler("web+mail", None)];
    assert_eq!(url_texts(command.targets(&app)), Err(LaunchError::HandlerNotConverted));
    assert_eq!(command.handler_failure(&app), None);
    app.manifest.protocol_handlers = vec![handler("web+mail", Some("/%s"))];
    assert_eq!(url_texts(command.targets(&app)), Err(LaunchError::HandlerNotConverted));
    assert_eq!(
        command.handler_failure(&app).as_deref(),
        Some("relative URL without a base")
    );
    assert_eq!(
        command.message(LaunchError::HandlerNotConverted),
        "Failed to convert protocol handler"
    );
}

#[test]
fn a_parsed_handler_is_the_only_target() {
    assert_eq!(
        url_texts(only_target(Link::parse("https://a.example"))),
        Ok(vec!["https://a.example/".to_string()])
    );
    let refused = Err(LinkError { message: "no".to_string() });
    assert_eq!(url_texts(only_target(refused)), Err(LaunchError::HandlerNotConverted));
}

#[test]
fn urls_are_opened_as_they_are_given() {
    let app = site(1, 0);
    let command = SiteLaunchCommand { url: vec![link("https://a.example/x")], ..plain(1) };
    assert_eq!(url_texts(command.targets(&app)), Ok(vec!["https://a.example/x".to_string()]));
    assert_eq!(url_texts(plain(1).targets(&app)), Ok(vec![]));
    let flag = SiteLaunchCommand { protocol: Some(None), ..plain(1) };
    assert_eq!(url_texts(flag.targets(&app)), Ok(vec![]));
    assert!(command.has_target());
    assert!(through(1, "web+mail:x").has_target());
    assert!(!flag.has_target());
    assert!(!plain(1).has_target());
}

#[test]
fn the_browser_gets_arguments_and_variables() {
    let kept = storage(&[(0, &[1])]);
    let request = match plain(1).request(LINUX, &kept) {
        Ok(request) => request,
        Err(error) => panic!("{error:?}"),
    };
    assert_eq!(request.arguments, ["--kept"]);
    assert_eq!(request.variables.get("LANG"), Some("C"));
    assert_eq!(request.variables.get("FFWEBAPPS_START_HIDDEN"), None);
    assert!(!request.wait);
    let command = SiteLaunchCommand {
        arguments: vec!["--own".to_string()],
        hidden: true,
        ..plain(1)
    };
    let request = match command.request(MACOS, &kept) {
        Ok(request) => request,
        Err(error) => panic!("{error:?}"),
    };
    assert_eq!(request.arguments, ["--own"]);
    assert_eq!(request.variables.get("FFWEBAPPS_START_HIDDEN"), Some("1"));
    assert_eq!(request.variables.get("LANG"), Some("C"));
    assert!(request.wait);
    assert_eq!(kept.variables.get("FFWEBAPPS_START_HIDDEN"), None);
    match plain(2).request(LINUX, &kept) {
        Ok(_) => panic!("launched"),
        Err(error) => assert_eq!(error, LaunchError::NoSuchApp),
    }
}

#[test]
fn a_running_app_is_brought_forward() {
    let mut kept = storage(&[(0, &[1])]);
    let command = plain(1);
    let action = command.run(LINUX, &mut kept, LaunchAction::Begin, &LaunchEvent::Done);
    assert_eq!(action, LaunchAction::Contact);
    let action = command.run(LINUX, &mut kept, action, &LaunchEvent::Answered(true));
    assert_eq!(action, LaunchAction::FocusTray);
    let action = command.run(LINUX, &mut kept, action, &LaunchEvent::Done);
    assert_eq!(action, LaunchAction::Finished);
    let action = command.run(LINUX, &mut kept, action, &LaunchEvent::Done);
    assert_eq!(action, LaunchAction::Finished);
}

#[test]
fn an_app_is_launched_step_by_step() {
    let mut kept = storage(&[(0, &[1])]);
    kept.use_linked_runtime = true;
    let command = plain(1);
    let steps = [
        (LaunchEvent::Done, LaunchAction::Contact),
        (LaunchEvent::Answered(false), LaunchAction::OpenRuntime),
        (LaunchEvent::Opened(true), LaunchAction::Compare),
        (LaunchEvent::Compared(vec![1], vec![2]), LaunchAction::Relink),
        (LaunchEvent::Done, LaunchAction::PatchRuntime),
        (LaunchEvent::Done, LaunchAction::PatchProfile),
        (LaunchEvent::Done, LaunchAction::SyncRegistry),
        (LaunchEvent::Done, LaunchAction::WritePreferences),
        (LaunchEvent::Done, LaunchAction::Start),
        (LaunchEvent::Done, LaunchAction::SpawnTray),
        (LaunchEvent::Done, LaunchAction::Finished),
    ];
    let mut action = LaunchAction::Begin;
    for (event, expected) in &steps {
        action = command.run(LINUX, &mut kept, action, event);
        assert_eq!(action, *expected);
    }
}

#[test]
fn the_same_browser_is_not_linked_again() {
    let mut kept = storage(&[(0, &[1])]);
    let same = LaunchEvent::Compared(vec![1, 2], vec![1, 2]);
    let action = plain(1).run(LINUX, &mut kept, LaunchAction::Compare, &same);
    assert_eq!(action, LaunchAction::PatchRuntime);
}

#[test]
fn a_runtime_that_cannot_change_is_left_alone() {
    let mut kept = storage(&[(0, &[1])]);
    kept.use_linked_runtime = true;
    let build = Build { platform: Platform::Linux, immutable_runtime: true };
    let opened = LaunchEvent::Opened(true);
    let action = plain(1).run(build, &mut kept, LaunchAction::OpenRuntime, &opened);
    assert_eq!(action, LaunchAction::PatchProfile);
}

#[test]
fn a_target_opens_the_runtime_at_once() {
    let mut kept = storage(&[(0, &[1])]);
    let command = SiteLaunchCommand { url: vec![link("https://a.example/")], ..plain(1) };
    let action = command.run(LINUX, &mut kept, LaunchAction::Begin, &LaunchEvent::Done);
    assert_eq!(action, LaunchAction::OpenRuntime);
}

#[test]
fn other_systems_launch_differently() {
    let mut kept = storage(&[(0, &[1])]);
    kept.use_linked_runtime = true;
    let done = LaunchEvent::Done;
    assert_eq!(
        plain(1).run(MACOS, &mut kept, LaunchAction::Begin, &done),
        LaunchAction::HandOver
    );
    assert_eq!(
        plain(1).run(MACOS, &mut kept, LaunchAction::HandOver, &done),
        LaunchAction::Finished
    );
    let direct = SiteLaunchCommand { direct_launch: true, ..plain(1) };
    assert_eq!(
        direct.run(MACOS, &mut kept, LaunchAction::Begin, &done),
        LaunchAction::OpenRuntime
    );
    assert_eq!(
        plain(1).run(WINDOWS, &mut kept, LaunchAction::Begin, &done),
        LaunchAction::OpenRuntime
    );
    assert_eq!(
        plain(1).run(WINDOWS, &mut kept, LaunchAction::OpenRuntime, &LaunchEvent::Opened(true)),
        LaunchAction::PatchRuntime
    );
    assert_eq!(
        plain(1).run(WINDOWS, &mut kept, LaunchAction::Start, &done),
        LaunchAction::Finished
    );
}

#[test]
fn a_launch_comes_to_nothing() {
    let mut kept = storage(&[(0, &[1])]);
    let action = plain(2).run(LINUX, &mut kept, LaunchAction::Begin, &LaunchEvent::Done);
    assert_eq!(action, LaunchAction::Failed(LaunchError::NoSuchApp));
    assert_eq!(plain(2).message(LaunchError::NoSuchApp), "Web app does not exist");
    let missing = LaunchEvent::Opened(false);
    let action = plain(1).run(LINUX, &mut kept, LaunchAction::OpenRuntime, &missing);
    assert_eq!(action, LaunchAction::Failed(LaunchError::RuntimeNotInstalled));
    assert_eq!(plain(1).message(LaunchError::RuntimeNotInstalled), "Runtime not installed");
    kept.profiles.remove(&0);
    let action = plain(1).run(LINUX, &mut kept, LaunchAction::OpenRuntime, &missing);
    assert_eq!(action, LaunchAction::Failed(LaunchError::NoProfile));
    assert_eq!(plain(1).message(LaunchError::NoProfile), "Web app without a profile");
    let command = through(1, "web+mail:x");
    let action = command.run(LINUX, &mut kept, LaunchAction::PatchProfile, &LaunchEvent::Done);
    assert_eq!(action, LaunchAction::Failed(LaunchError::SchemeNotEnabled));
    let action = command.run(LINUX, &mut kept, action, &LaunchEvent::Done);
    assert_eq!(action, LaunchAction::Failed(LaunchError::SchemeNotEnabled));
}

#[test]
fn an_app_is_given_an_identifier_once() {
    let mut kept = storage(&[(0, &[1])]);
    kept.sites.get_mut(&1).unwrap().config.webapp_id = None;
    assert!(lacks_webapp_id(&kept, 1));
    assert!(!lacks_webapp_id(&kept, 2));
    let command = plain(1);
    let action = command.run(LINUX, &mut kept, LaunchAction::Begin, &LaunchEvent::Done);
    assert_eq!(action, LaunchAction::Store);
    let given = kept.sites[&1].config.webapp_id.unwrap();
    assert_eq!(kept.profiles[&0].sites, [1]);
    assert_eq!(kept.sites[&1].config.name.as_deref(), Some("Mail"));
    assert_eq!((given >> 76) & 0xf, 4);
    assert_eq!((given >> 62) & 0x3, 2);
    let action = command.run(LINUX, &mut kept, action, &LaunchEvent::Done);
    assert_eq!(action, LaunchAction::Contact);
    let action = command.run(LINUX, &mut kept, LaunchAction::Begin, &LaunchEvent::Done);
    assert_eq!(action, LaunchAction::Contact);
    assert_eq!(kept.sites[&1].config.webapp_id, Some(given));
    assert!(!assign_webapp_id(&mut kept, 1, 5));
    assert!(!assign_webapp_id(&mut kept, 2, 5));
    assert_eq!(kept.sites[&1].config.webapp_id, Some(given));
}

#[test]
fn an_identifier_that_is_missing_is_set() {
    let mut kept = storage(&[(0, &[1, 2])]);
    kept.sites.get_mut(&1).unwrap().config.webapp_id = None;
    assert!(assign_webapp_id(&mut kept, 1, 5));
    assert_eq!(kept.sites[&1].config.webapp_id, Some(5));
    assert_eq!(kept.sites[&2].config.webapp_id, Some(77));
    assert_eq!(kept.sites[&1].config.name.as_deref(), Some("Mail"));
}

#[test]
fn an_event_out_of_turn_does_not_launch() {
    let mut kept = storage(&[(0, &[1])]);
    let action = plain(1).run(LINUX, &mut kept, LaunchAction::Contact, &LaunchEvent::Done);
    assert_eq!(action, LaunchAction::Contact);
    let action = plain(1).run(LINUX, &mut kept, LaunchAction::Start, &LaunchEvent::Opened(true));
    assert_eq!(action, LaunchAction::Start);
}

#[test]
fn some_failures_of_a_launch_are_introduced() {
    assert_eq!(
        failure_context(LaunchAction::SyncRegistry).as_deref(),
        Some("Failed to update the Web Apps registry")
    );
    assert_eq!(
        failure_context(LaunchAction::WritePreferences).as_deref(),
        Some("Failed to write web app preferences")
    );
    assert_eq!(failure_context(LaunchAction::Start), None);
}

#[test]
fn identifiers_have_one_text_each() {
    assert_eq!(identifier(0), "00000000000000000000000000");
    assert_eq!(identifier(33), "00000000000000000000000011");
    assert_eq!(identifier(u128::MAX), "7ZZZZZZZZZZZZZZZZZZZZZZZZZ");
    for id in [1u128, 31, 1 << 64, u128::MAX - 1] {
        assert_eq!(ulid::Ulid::from_string(&identifier(id)).unwrap().0, id);
    }
}
