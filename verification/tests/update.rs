use std::collections::BTreeMap;

use ffwebapps::link::Link;
use ffwebapps::storage::{
    Manifest, Profile, ProtocolHandler, Site, SiteConfig, Storage, Variables,
};
use ffwebapps::update::{SiteUpdateCommand, UpdateAction, UpdateEvent};

fn link(text: &str) -> Link {
    match Link::parse(text) {
        Ok(link) => link,
        Err(error) => panic!("{}", error.message),
    }
}

fn config() -> SiteConfig {
    SiteConfig {
        name: Some("Mail".to_string()),
        description: None,
        categories: None,
        keywords: None,
        document_url: link("https://mail.example/"),
        manifest_url: link("https://mail.example/app.webmanifest"),
        start_url: None,
        icon_url: None,
        enabled_url_handlers: vec![],
        enabled_protocol_handlers: vec![],
        custom_protocol_handlers: vec![],
        launch_on_login: false,
        launch_on_browser: false,
        webapp_id: Some(77),
        external_links: None,
        allowed_domains: vec![],
        hardware_webrtc: false,
        software_rendering: false,
        scheduling: None,
        user_agent: None,
        start_hidden: false,
    }
}

fn site(ulid: u128, profile: u128) -> Site {
    Site { ulid, profile, config: config(), manifest: Manifest { protocol_handlers: vec![] } }
}

fn storage(profiles: &[(u128, &[u128])]) -> Storage {
    let mut kept = Storage {
        arguments: vec!["--kept".to_string()],
        variables: Variables::new().with("LANG", "C"),
        use_linked_runtime: false,
        profiles: BTreeMap::new(),
        sites: BTreeMap::new(),
    };
    for (ulid, sites) in profiles {
        kept.profiles.insert(*ulid, Profile { ulid: *ulid, sites: sites.to_vec() });
        for id in sites.iter() {
            kept.sites.insert(*id, site(*id, *ulid));
        }
    }
    kept
}

fn nothing(id: u128) -> SiteUpdateCommand {
    SiteUpdateCommand {
        id,
        name: None,
        description: None,
        start_url: None,
        icon_url: None,
        categories: None,
        keywords: None,
        enabled_url_handlers: None,
        enabled_protocol_handlers: None,
        launch_on_login: None,
        launch_on_browser: None,
        hardware_webrtc: None,
        software_rendering: None,
        scheduling: None,
        user_agent: None,
        start_hidden: None,
        update_manifest: false,
        update_icons: false,
        system_integration: false,
    }
}

fn everything(id: u128) -> SiteUpdateCommand {
    SiteUpdateCommand {
        id,
        name: Some(None),
        description: Some(Some("new".to_string())),
        start_url: Some(Some(link("https://mail.example/new"))),
        icon_url: Some(None),
        categories: Some(Some(vec!["c".to_string()])),
        keywords: Some(None),
        enabled_url_handlers: Some(vec!["https://u.example".to_string()]),
        enabled_protocol_handlers: Some(vec!["web+mail".to_string()]),
        launch_on_login: Some(true),
        launch_on_browser: Some(true),
        hardware_webrtc: Some(true),
        software_rendering: Some(true),
        scheduling: Some(Some("batch".to_string())),
        user_agent: Some(Some("agent".to_string())),
        start_hidden: Some(true),
        update_manifest: true,
        update_icons: false,
        system_integration: true,
    }
}

#[test]
fn what_is_given_replaces_what_was_kept() {
    let config = everything(1).apply(config());
    assert_eq!(config.name, None);
    assert_eq!(config.description.as_deref(), Some("new"));
    assert_eq!(
        config.start_url.as_ref().map(|url| url.as_str()),
        Some("https://mail.example/new")
    );
    assert!(config.icon_url.is_none());
    assert_eq!(config.categories, Some(vec!["c".to_string()]));
    assert_eq!(config.keywords, None);
    assert_eq!(config.enabled_url_handlers, ["https://u.example"]);
    assert_eq!(config.enabled_protocol_handlers, ["web+mail"]);
    assert!(config.launch_on_login && config.launch_on_browser);
    assert!(config.hardware_webrtc && config.software_rendering);
    assert_eq!(config.scheduling.as_deref(), Some("batch"));
    assert_eq!(config.user_agent.as_deref(), Some("agent"));
    assert!(config.start_hidden);
    assert_eq!(config.webapp_id, Some(77));
    assert_eq!(config.document_url.as_str(), "https://mail.example/");
}

#[test]
fn what_is_not_given_is_kept() {
    let mut kept = config();
    kept.keywords = Some(vec!["k".to_string()]);
    kept.start_hidden = true;
    kept.scheduling = Some("fifo".to_string());
    let config = nothing(1).apply(kept);
    assert_eq!(config.name.as_deref(), Some("Mail"));
    assert_eq!(config.keywords, Some(vec!["k".to_string()]));
    assert!(config.start_hidden);
    assert_eq!(config.scheduling.as_deref(), Some("fifo"));
}

#[test]
fn updating_twice_is_updating_once() {
    let once = everything(1).apply(config());
    let twice = everything(1).apply(everything(1).apply(config()));
    assert_eq!(once.description, twice.description);
    assert_eq!(once.categories, twice.categories);
    assert_eq!(once.enabled_protocol_handlers, twice.enabled_protocol_handlers);
    assert_eq!(once.name, twice.name);
}

#[test]
fn an_app_is_updated_step_by_step() {
    let mut kept = storage(&[(0, &[1, 2])]);
    let command = everything(1);
    let (action, before) = command.run(&mut kept, UpdateAction::Begin, UpdateEvent::Done);
    assert_eq!(action, UpdateAction::MakeClient);
    let before = before.unwrap();
    assert_eq!(before.ulid, 1);
    assert_eq!(before.config.name.as_deref(), Some("Mail"));
    assert_eq!(before.config.user_agent, None);
    assert_eq!(kept.sites[&1].config.name, None);
    assert_eq!(kept.sites[&1].config.user_agent.as_deref(), Some("agent"));
    assert_eq!(kept.sites[&2].config.user_agent, None);
    assert_eq!(kept.profiles[&0].sites, [1, 2]);
    let (action, _) = command.run(&mut kept, action, UpdateEvent::Done);
    assert_eq!(action, UpdateAction::Fetch);
    let manifest = Manifest {
        protocol_handlers: vec![ProtocolHandler { protocol: "web+mail".to_string(), url: None }],
    };
    let (action, _) = command.run(&mut kept, action, UpdateEvent::Fetched(manifest));
    assert_eq!(action, UpdateAction::Integrate);
    assert_eq!(kept.sites[&1].manifest.protocol_handlers[0].protocol, "web+mail");
    assert_eq!(kept.sites[&1].config.user_agent.as_deref(), Some("agent"));
    assert!(kept.sites[&2].manifest.protocol_handlers.is_empty());
    let (action, _) = command.run(&mut kept, action, UpdateEvent::Done);
    assert_eq!(action, UpdateAction::Store);
    let (action, _) = command.run(&mut kept, action, UpdateEvent::Done);
    assert_eq!(action, UpdateAction::Finished);
    let (action, _) = command.run(&mut kept, action, UpdateEvent::Done);
    assert_eq!(action, UpdateAction::Finished);
}

#[test]
fn nothing_is_fetched_unasked() {
    let mut kept = storage(&[(0, &[1])]);
    let (action, _) = nothing(1).run(&mut kept, UpdateAction::MakeClient, UpdateEvent::Done);
    assert_eq!(action, UpdateAction::Store);
    let command = SiteUpdateCommand { system_integration: true, ..nothing(1) };
    let (action, _) = command.run(&mut kept, UpdateAction::MakeClient, UpdateEvent::Done);
    assert_eq!(action, UpdateAction::Integrate);
}

#[test]
fn what_is_not_there_cannot_be_updated() {
    let mut kept = storage(&[(0, &[2])]);
    let (action, _) = everything(1).run(&mut kept, UpdateAction::Begin, UpdateEvent::Done);
    assert_eq!(action, UpdateAction::NoSuchApp);
    assert_eq!(everything(1).message(), "Web app does not exist");
    assert_eq!(kept.sites[&2].config.description, None);
    let manifest = Manifest { protocol_handlers: vec![] };
    let (action, _) = everything(1).run(&mut kept, UpdateAction::Fetch, UpdateEvent::Fetched(manifest));
    assert_eq!(action, UpdateAction::NoSuchApp);
}

#[test]
fn the_desktop_is_told_what_the_command_asks_for() {
    let integration = everything(1).integration("Mail");
    assert_eq!(integration.old_name.as_deref(), Some("Mail"));
    assert!(integration.update_manifest);
    assert!(!integration.update_icons);
    assert_eq!(
        everything(1).failure_context(UpdateAction::Fetch).as_deref(),
        Some("Failed to update web app manifest")
    );
    assert_eq!(
        everything(1).failure_context(UpdateAction::Integrate).as_deref(),
        Some("Failed to update system integration")
    );
    assert_eq!(everything(1).failure_context(UpdateAction::Store), None);
}
