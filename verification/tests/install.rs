use std::collections::BTreeMap;

use ffwebapps::install::{
    register, InstallAction, InstallError, InstallEvent, SiteInstallCommand,
};
use ffwebapps::link::Link;
use ffwebapps::storage::{Manifest, Profile, Site, SiteConfig, Storage, Variables};
use ffwebapps::uninstall::{SiteUninstallCommand, UninstallAction, UninstallEvent};

fn link(text: &str) -> Link {
    match Link::parse(text) {
        Ok(link) => link,
        Err(error) => panic!("{}", error.message),
    }
}

fn config() -> SiteConfig {
    SiteConfig {
        name: Some("Mail".to_string()),
        description: None,
        categories: None,
        keywords: None,
        document_url: link("https://mail.example/"),
        manifest_url: link("https://mail.example/app.webmanifest"),
        start_url: None,
        icon_url: None,
        enabled_url_handlers: vec![],
        enabled_protocol_handlers: vec![],
        custom_protocol_handlers: vec![],
        launch_on_login: false,
        launch_on_browser: false,
        webapp_id: Some(77),
        external_links: None,
        allowed_domains: vec![],
        hardware_webrtc: false,
        software_rendering: false,
        scheduling: None,
        user_agent: None,
        start_hidden: false,
    }
}

fn site(ulid: u128, profile: u128) -> Site {
    Site { ulid, profile, config: config(), manifest: Manifest { protocol_handlers: vec![] } }
}

fn storage(profiles: &[(u128, &[u128])]) -> Storage {
    let mut kept = Storage {
        arguments: vec!["--kept".to_string()],
        variables: Variables::new().with("LANG", "C"),
        use_linked_runtime: false,
        profiles: BTreeMap::new(),
        sites: BTreeMap::new(),
    };
    for (ulid, sites) in profiles {
        kept.profiles.insert(*ulid, Profile { ulid: *ulid, sites: sites.to_vec() });
        for id in sites.iter() {
            kept.sites.insert(*id, site(*id, *ulid));
        }
    }
    kept
}

fn command(manifest: &str) -> SiteInstallCommand {
    SiteInstallCommand {
        manifest_url: link(manifest),
        document_url: None,
        start_url: Some(link("https://mail.example/start")),
        icon_url: None,
        profile: None,
        name: Some("Mail".to_string()),
        description: Some("Letters".to_string()),
        categories: Some(vec!["a".to_string(), "b".to_string()]),
        keywords: None,
        launch_on_login: Some(true),
        launch_on_browser: None,
        hardware_webrtc: true,
        software_rendering: false,
        scheduling: Some("fifo".to_string()),
        system_integration: true,
        launch_now: true,
    }
}

const DATA: &str = "data:application/json,{}";
const HTTPS: &str = "https://mail.example/app/app.webmanifest";

#[test]
fn an_app_is_installed_step_by_step() {
    let mut kept = storage(&[(0, &[1])]);
    let command = command(HTTPS);
    let mut action = InstallAction::Begin;
    for expected in [
        InstallAction::Load,
        InstallAction::MakeClient,
        InstallAction::Fetch,
        InstallAction::Integrate,
        InstallAction::Register,
    ] {
        action = command._run(&mut kept, action, InstallEvent::Done);
        assert_eq!(action, expected);
        assert_eq!(kept.profiles[&0].sites, [1]);
        assert_eq!(kept.sites.len(), 1);
    }
    action = command._run(&mut kept, action, InstallEvent::Fetched(site(2, 0)));
    assert_eq!(action, InstallAction::Store);
    assert_eq!(kept.profiles[&0].sites, [1, 2]);
    assert_eq!(kept.sites[&2].ulid, 2);
    action = command._run(&mut kept, action, InstallEvent::Done);
    assert_eq!(action, InstallAction::Launch);
    action = command._run(&mut kept, action, InstallEvent::Done);
    assert_eq!(action, InstallAction::Finished);
    action = command._run(&mut kept, action, InstallEvent::Fetched(site(3, 0)));
    assert_eq!(action, InstallAction::Finished);
    assert_eq!(kept.sites.len(), 2);
}

#[test]
fn steps_that_are_not_wanted_are_left_out() {
    let mut kept = storage(&[(0, &[])]);
    let command =
        SiteInstallCommand { system_integration: false, launch_now: false, ..command(HTTPS) };
    assert_eq!(
        command._run(&mut kept, InstallAction::Fetch, InstallEvent::Done),
        InstallAction::Register
    );
    assert_eq!(
        command._run(&mut kept, InstallAction::Store, InstallEvent::Done),
        InstallAction::Finished
    );
}

#[test]
fn a_data_manifest_needs_a_document() {
    let mut kept = storage(&[(0, &[])]);
    let refused = command(DATA);
    let action = refused._run(&mut kept, InstallAction::Begin, InstallEvent::Done);
    assert_eq!(action, InstallAction::Failed(InstallError::DocumentUrlRequired));
    assert_eq!(
        refused.message(InstallError::DocumentUrlRequired),
        "The document URL is required when the manifest URL is a data URL"
    );
    let accepted =
        SiteInstallCommand { document_url: Some(link("https://mail.example/")), ..command(DATA) };
    let action = accepted._run(&mut kept, InstallAction::Begin, InstallEvent::Done);
    assert_eq!(action, InstallAction::Load);
    assert_eq!(
        accepted._run(&mut kept, InstallAction::Load, InstallEvent::Done),
        InstallAction::MakeClient
    );
}

#[test]
fn a_profile_is_needed() {
    let mut kept = storage(&[(5, &[])]);
    let default = command(HTTPS);
    assert_eq!(default.profile_id(), 0);
    assert_eq!(
        default._run(&mut kept, InstallAction::Load, InstallEvent::Done),
        InstallAction::Failed(InstallError::NoProfile)
    );
    assert_eq!(default.message(InstallError::NoProfile), "Profile does not exist");
    assert_eq!(
        default._run(&mut kept, InstallAction::Register, InstallEvent::Fetched(site(1, 0))),
        InstallAction::Failed(InstallError::NoProfile)
    );
    assert!(kept.sites.is_empty());
    let other = SiteInstallCommand { profile: Some(5), ..command(HTTPS) };
    assert_eq!(other.profile_id(), 5);
    assert_eq!(
        other._run(&mut kept, InstallAction::Load, InstallEvent::Done),
        InstallAction::MakeClient
    );
}

#[test]
fn an_app_is_fetched_for_the_profile_that_is_kept() {
    let mut kept = storage(&[(0, &[]), (5, &[])]);
    assert_eq!(command(HTTPS).home(&kept), Some(0));
    let other = SiteInstallCommand { profile: Some(5), ..command(HTTPS) };
    assert_eq!(other.home(&kept), Some(5));
    kept.profiles.get_mut(&5).unwrap().ulid = 6;
    assert_eq!(other.home(&kept), Some(6));
    kept.profiles.remove(&5);
    assert_eq!(other.home(&kept), None);
}

#[test]
fn a_manifest_without_a_directory_gives_no_document() {
    let mut kept = storage(&[(0, &[])]);
    let command = command("mailto:a@b");
    assert_eq!(
        command._run(&mut kept, InstallAction::Begin, InstallEvent::Done),
        InstallAction::Load
    );
    assert_eq!(
        command._run(&mut kept, InstallAction::Load, InstallEvent::Done),
        InstallAction::Failed(InstallError::DocumentUrlUnknown)
    );
    assert_eq!(
        command.message(InstallError::DocumentUrlUnknown),
        "relative URL with a cannot-be-a-base base"
    );
    assert!(command.config().is_err());
}

#[test]
fn the_settings_come_from_the_command() {
    let config = match command(HTTPS).config() {
        Ok(config) => config,
        Err(error) => panic!("{}", error.message),
    };
    assert_eq!(config.name.as_deref(), Some("Mail"));
    assert_eq!(config.description.as_deref(), Some("Letters"));
    assert_eq!(config.categories, Some(vec!["a".to_string(), "b".to_string()]));
    assert_eq!(config.keywords, None);
    assert_eq!(config.document_url.as_str(), "https://mail.example/app/");
    assert_eq!(config.manifest_url.as_str(), HTTPS);
    assert_eq!(
        config.start_url.as_ref().map(|url| url.as_str()),
        Some("https://mail.example/start")
    );
    assert!(config.icon_url.is_none());
    assert!(config.enabled_url_handlers.is_empty());
    assert!(config.enabled_protocol_handlers.is_empty());
    assert!(config.custom_protocol_handlers.is_empty());
    assert!(config.launch_on_login);
    assert!(!config.launch_on_browser);
    assert_eq!(config.external_links, None);
    assert!(config.allowed_domains.is_empty());
    assert!(config.hardware_webrtc);
    assert!(!config.software_rendering);
    assert_eq!(config.scheduling.as_deref(), Some("fifo"));
    assert_eq!(config.user_agent, None);
    assert!(!config.start_hidden);
    let id = config.webapp_id.unwrap();
    assert_eq!((id >> 76) & 0xf, 4);
    assert_eq!((id >> 62) & 0x3, 2);
}

#[test]
fn identifiers_for_the_browser_are_random() {
    let command = command(HTTPS);
    let ids: Vec<Option<u128>> =
        (0..8).map(|_| command.config().ok().and_then(|config| config.webapp_id)).collect();
    for i in 0..8 {
        for j in 0..i {
            assert_ne!(ids[i], ids[j]);
        }
    }
    let given = command.config_with(link("https://other.example/"), 9);
    assert_eq!(given.webapp_id, Some(9));
    assert_eq!(given.document_url.as_str(), "https://other.example/");
}

#[test]
fn a_document_that_is_given_is_taken() {
    let command =
        SiteInstallCommand { document_url: Some(link("https://page.example/")), ..command(HTTPS) };
    match command.document() {
        Ok(url) => assert_eq!(url.as_str(), "https://page.example/"),
        Err(error) => panic!("{}", error.message),
    }
}

#[test]
fn the_installed_app_is_launched_plainly() {
    let launch = command(HTTPS).launch_command(6);
    assert_eq!(launch.id, 6);
    assert!(launch.url.is_empty());
    assert!(launch.protocol.is_none());
    assert!(launch.arguments.is_empty());
    assert!(!launch.hidden);
    assert!(!launch.direct_launch);
}

#[test]
fn the_desktop_is_told_everything_on_installation() {
    let integration = command(HTTPS).integration();
    assert!(integration.update_manifest);
    assert!(integration.update_icons);
    assert_eq!(integration.old_name, None);
    assert_eq!(
        command(HTTPS).failure_context(InstallAction::Integrate).as_deref(),
        Some("Failed to install system integration")
    );
    assert_eq!(command(HTTPS).failure_context(InstallAction::Fetch), None);
}

#[test]
fn registering_needs_the_profile() {
    let mut kept = storage(&[(0, &[1]), (5, &[2])]);
    assert!(register(&mut kept, 5, site(3, 5)));
    assert_eq!(kept.profiles[&5].sites, [2, 3]);
    assert_eq!(kept.profiles[&0].sites, [1]);
    assert!(!register(&mut kept, 9, site(4, 9)));
    assert_eq!(kept.sites.len(), 3);
}

#[test]
fn uninstalling_undoes_an_installation() {
    let mut kept = storage(&[(0, &[1])]);
    assert!(register(&mut kept, 0, site(2, 0)));
    let uninstall = SiteUninstallCommand { id: 2, quiet: true, system_integration: false };
    let (action, removed) =
        uninstall.run(&mut kept, UninstallAction::Begin, &UninstallEvent::Done);
    assert_eq!(action, UninstallAction::Store);
    assert_eq!(removed.map(|site| site.ulid), Some(2));
    assert_eq!(kept.profiles[&0].sites, [1]);
    assert_eq!(kept.sites.len(), 1);
}
