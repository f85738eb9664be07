use std::collections::BTreeMap;

use ffwebapps::link::Link;
use ffwebapps::storage::{Manifest, Profile, Site, SiteConfig, Storage, Variables};
use ffwebapps::uninstall::{
    consents, drop_site, SiteUninstallCommand, UninstallAction, UninstallError, UninstallEvent,
};

fn link(text: &str) -> Link {
    match Link::parse(text) {
        Ok(link) => link,
        Err(error) => panic!("{}", error.message),
    }
}

fn config() -> SiteConfig {
    SiteConfig {
        name: Some("Mail".to_string()),
        description: None,
        categories: None,
        keywords: None,
        document_url: link("https://mail.example/"),
        manifest_url: link("https://mail.example/app.webmanifest"),
        start_url: None,
        icon_url: None,
        enabled_url_handlers: vec![],
        enabled_protocol_handlers: vec![],
        custom_protocol_handlers: vec![],
        launch_on_login: false,
        launch_on_browser: false,
        webapp_id: Some(77),
        external_links: None,
        allowed_domains: vec![],
        hardware_webrtc: false,
        software_rendering: false,
        scheduling: None,
        user_agent: None,
        start_hidden: false,
    }
}

fn site(ulid: u128, profile: u128) -> Site {
    Site { ulid, profile, config: config(), manifest: Manifest { protocol_handlers: vec![] } }
}

fn storage(profiles: &[(u128, &[u128])]) -> Storage {
    let mut kept = Storage {
        arguments: vec!["--kept".to_string()],
        variables: Variables::new().with("LANG", "C"),
        use_linked_runtime: false,
        profiles: BTreeMap::new(),
        sites: BTreeMap::new(),
    };
    for (ulid, sites) in profiles {
        kept.profiles.insert(*ulid, Profile { ulid: *ulid, sites: sites.to_vec() });
        for id in sites.iter() {
            kept.sites.insert(*id, site(*id, *ulid));
        }
    }
    kept
}

fn command(quiet: bool, system_integration: bool) -> SiteUninstallCommand {
    SiteUninstallCommand { id: 1, quiet, system_integration }
}

fn answer(text: &str) -> UninstallEvent {
    UninstallEvent::Answered(text.to_string())
}

#[test]
fn only_a_y_is_consent() {
    for text in ["y", "Y", " y\n", "Y\r\n"] {
        assert!(consents(text));
    }
    for text in ["", "n", "yes", "yy", "\n", "ý"] {
        assert!(!consents(text));
    }
}

#[test]
fn an_app_is_uninstalled_after_consent() {
    let mut kept = storage(&[(0, &[1, 2]), (5, &[3])]);
    let command = command(false, true);
    let (action, removed) = command.run(&mut kept, UninstallAction::Begin, &UninstallEvent::Done);
    assert_eq!(action, UninstallAction::Ask);
    assert!(removed.is_none());
    assert_eq!(kept.sites.len(), 3);
    let (action, removed) = command.run(&mut kept, action, &answer("y\n"));
    assert_eq!(action, UninstallAction::Disintegrate);
    assert_eq!(removed.map(|site| site.ulid), Some(1));
    assert_eq!(kept.profiles[&0].sites, [2]);
    assert_eq!(kept.profiles[&5].sites, [3]);
    assert!(!kept.sites.contains_key(&1));
    assert!(kept.sites.contains_key(&2) && kept.sites.contains_key(&3));
    let (action, _) = command.run(&mut kept, action, &UninstallEvent::Done);
    assert_eq!(action, UninstallAction::Store);
    let (action, _) = command.run(&mut kept, action, &UninstallEvent::Done);
    assert_eq!(action, UninstallAction::Finished);
    let (action, _) = command.run(&mut kept, action, &UninstallEvent::Done);
    assert_eq!(action, UninstallAction::Finished);
}

#[test]
fn an_app_that_is_kept_changes_nothing() {
    let mut kept = storage(&[(0, &[1])]);
    let (action, removed) = command(false, true).run(&mut kept, UninstallAction::Ask, &answer("n"));
    assert_eq!(action, UninstallAction::Aborted);
    assert!(removed.is_none());
    assert_eq!(kept.profiles[&0].sites, [1]);
    assert!(kept.sites.contains_key(&1));
    let (action, _) = command(false, true).run(&mut kept, action, &answer("y"));
    assert_eq!(action, UninstallAction::Aborted);
    assert!(kept.sites.contains_key(&1));
}

#[test]
fn quietly_nobody_is_asked() {
    let mut kept = storage(&[(0, &[1])]);
    let (action, removed) =
        command(true, false).run(&mut kept, UninstallAction::Begin, &UninstallEvent::Done);
    assert_eq!(action, UninstallAction::Store);
    assert!(removed.is_some());
    assert!(kept.profiles[&0].sites.is_empty());
}

#[test]
fn what_is_not_there_cannot_be_uninstalled() {
    let mut kept = storage(&[(0, &[2])]);
    for quiet in [true, false] {
        let (action, removed) =
            command(quiet, true).run(&mut kept, UninstallAction::Begin, &UninstallEvent::Done);
        assert_eq!(action, UninstallAction::Failed(UninstallError::NoSuchApp));
        assert!(removed.is_none());
    }
    assert_eq!(command(true, true).message(UninstallError::NoSuchApp), "Web app does not exist");
    assert_eq!(kept.profiles[&0].sites, [2]);
}

#[test]
fn an_app_without_its_profile_stays() {
    let mut kept = storage(&[(0, &[1])]);
    kept.profiles.remove(&0);
    let (action, removed) =
        command(true, true).run(&mut kept, UninstallAction::Begin, &UninstallEvent::Done);
    assert_eq!(action, UninstallAction::Failed(UninstallError::InvalidProfile));
    assert!(removed.is_none());
    assert!(kept.sites.contains_key(&1));
    assert_eq!(
        command(true, true).message(UninstallError::InvalidProfile),
        "Web app with invalid profile"
    );
}

#[test]
fn the_failure_of_the_desktop_is_introduced() {
    assert_eq!(
        command(true, true).failure_context(UninstallAction::Disintegrate).as_deref(),
        Some("Failed to uninstall system integration")
    );
    assert_eq!(command(true, true).failure_context(UninstallAction::Store), None);
}

#[test]
fn every_entry_of_an_app_leaves_a_list() {
    assert_eq!(drop_site(&vec![1, 2, 1, 3], 1), [2, 3]);
    assert_eq!(drop_site(&vec![2, 3], 1), [2, 3]);
    assert!(drop_site(&vec![1, 1], 1).is_empty());
}
