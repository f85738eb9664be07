//! Updating a web app.

use vstd::prelude::*;

use crate::install::{Integration, IntegrationModel};
use crate::link::Link;
use crate::storage::{
    copy_optional_texts, copy_site, copy_texts, lemma_viewed, shown, ConfigModel, HandlerModel,
    Manifest, Site, SiteConfig, SiteModel, Storage, StorageModel,
};

verus! {

/// The command that updates a web app. What is not given is kept; a setting that may be missing can
/// be given as missing.
pub struct SiteUpdateCommand {
    pub id: u128,
    pub name: Option<Option<String>>,
    pub description: Option<Option<String>>,
    pub start_url: Option<Option<Link>>,
    pub icon_url: Option<Option<Link>>,
    pub categories: Option<Option<Vec<String>>>,
    pub keywords: Option<Option<Vec<String>>>,
    pub enabled_url_handlers: Option<Vec<String>>,
    pub enabled_protocol_handlers: Option<Vec<String>>,
    pub launch_on_login: Option<bool>,
    pub launch_on_browser: Option<bool>,
    pub hardware_webrtc: Option<bool>,
    pub software_rendering: Option<bool>,
    pub scheduling: Option<Option<String>>,
    pub user_agent: Option<Option<String>>,
    pub start_hidden: Option<bool>,
    /// Fetch the manifest anew.
    pub update_manifest: bool,
    /// Fetch the icons anew.
    pub update_icons: bool,
    /// Bring the desktop up to date.
    pub system_integration: bool,
}

/// The model of a `SiteUpdateCommand`.
pub ghost struct UpdateModel {
    pub id: u128,
    pub name: Option<Option<Seq<char>>>,
    pub description: Option<Option<Seq<char>>>,
    pub start_url: Option<Option<Seq<char>>>,
    pub icon_url: Option<Option<Seq<char>>>,
    pub categories: Option<Option<Seq<Seq<char>>>>,
    pub keywords: Option<Option<Seq<Seq<char>>>>,
    pub enabled_url_handlers: Option<Seq<Seq<char>>>,
    pub enabled_protocol_handlers: Option<Seq<Seq<char>>>,
    pub launch_on_login: Option<bool>,
    pub launch_on_browser: Option<bool>,
    pub hardware_webrtc: Option<bool>,
    pub software_rendering: Option<bool>,
    pub scheduling: Option<Option<Seq<char>>>,
    pub user_agent: Option<Option<Seq<char>>>,
    pub start_hidden: Option<bool>,
    pub update_manifest: bool,
    pub update_icons: bool,
    pub system_integration: bool,
}

impl View for SiteUpdateCommand {
    type V = UpdateModel;

    open spec fn view(&self) -> UpdateModel {
        UpdateModel {
            id: self.id,
            name: self.name.deep_view(),
            description: self.description.deep_view(),
            start_url: self.start_url.deep_view(),
            icon_url: self.icon_url.deep_view(),
            categories: self.categories.deep_view(),
            keywords: self.keywords.deep_view(),
            enabled_url_handlers: self.enabled_url_handlers.deep_view(),
            enabled_protocol_handlers: self.enabled_protocol_handlers.deep_view(),
            launch_on_login: self.launch_on_login,
            launch_on_browser: self.launch_on_browser,
            hardware_webrtc: self.hardware_webrtc,
            software_rendering: self.software_rendering,
            scheduling: self.scheduling.deep_view(),
            user_agent: self.user_agent.deep_view(),
            start_hidden: self.start_hidden,
            update_manifest: self.update_manifest,
            update_icons: self.update_icons,
            system_integration: self.system_integration,
        }
    }
}

/// The value given, or else the one kept.
pub open spec fn given_or<T>(given: Option<T>, kept: T) -> T {
    match given {
        Some(value) => value,
        None => kept,
    }
}

/// Settings with what a command gives in place of what was kept.
pub open spec fn updated(command: UpdateModel, config: ConfigModel) -> ConfigModel {
    ConfigModel {
        name: given_or(command.name, config.name),
        description: given_or(command.description, config.description),
        start_url: given_or(command.start_url, config.start_url),
        icon_url: given_or(command.icon_url, config.icon_url),
        categories: given_or(command.categories, config.categories),
        keywords: given_or(command.keywords, config.keywords),
        enabled_url_handlers: given_or(command.enabled_url_handlers, config.enabled_url_handlers),
        enabled_protocol_handlers: given_or(
            command.enabled_protocol_handlers,
            config.enabled_protocol_handlers,
        ),
        launch_on_login: given_or(command.launch_on_login, config.launch_on_login),
        launch_on_browser: given_or(command.launch_on_browser, config.launch_on_browser),
        hardware_webrtc: given_or(command.hardware_webrtc, config.hardware_webrtc),
        software_rendering: given_or(command.software_rendering, config.software_rendering),
        scheduling: given_or(command.scheduling, config.scheduling),
        user_agent: given_or(command.user_agent, config.user_agent),
        start_hidden: given_or(command.start_hidden, config.start_hidden),
        ..config
    }
}

/// How far an update has come: what is to be done next.
#[derive(Clone, Copy, Debug, PartialEq, Eq, Structural)]
pub enum UpdateAction {
    /// Nothing is done yet.
    Begin,
    /// Make the client that fetches from the web.
    MakeClient,
    /// Fetch the manifest anew.
    Fetch,
    /// Bring the desktop up to date.
    Integrate,
    /// Write the storage.
    Store,
    /// Nothing is left to do.
    Finished,
    /// There is no such web app.
    NoSuchApp,
}

/// What came of a step.
pub enum UpdateEvent {
    /// It is done.
    Done,
    /// The manifest.
    Fetched(Manifest),
}

/// The model of an `UpdateEvent`.
pub ghost enum UpdateEventModel {
    Done,
    Fetched(Seq<HandlerModel>),
}

impl View for UpdateEvent {
    type V = UpdateEventModel;

    open spec fn view(&self) -> UpdateEventModel {
        match self {
            UpdateEvent::Done => UpdateEventModel::Done,
            UpdateEvent::Fetched(manifest) => UpdateEventModel::Fetched(
                manifest.protocol_handlers.deep_view(),
            ),
        }
    }
}

/// The step after the manifest is as it is to be.
pub open spec fn after_manifest(command: UpdateModel) -> UpdateAction {
    if command.system_integration {
        UpdateAction::Integrate
    } else {
        UpdateAction::Store
    }
}

/// The step after `action`, once `event` has answered it, the storage then, and at the beginning the
/// web app as it was kept, under whose name the desktop knows it. An event that does not answer the
/// step changes nothing.
pub open spec fn update_next(
    command: UpdateModel,
    storage: StorageModel,
    action: UpdateAction,
    event: UpdateEventModel,
) -> (UpdateAction, StorageModel, Option<SiteModel>) {
    let site = storage.sites[command.id];
    match (action, event) {
        (UpdateAction::Begin, UpdateEventModel::Done) => if storage.sites.contains_key(
            command.id,
        ) {
            (
                UpdateAction::MakeClient,
                storage.with_site(
                    command.id,
                    SiteModel { config: updated(command, site.config), ..site },
                ),
                Some(site),
            )
        } else {
            (UpdateAction::NoSuchApp, storage, None)
        },
        (UpdateAction::MakeClient, UpdateEventModel::Done) => if command.update_manifest {
            (UpdateAction::Fetch, storage, None)
        } else {
            (after_manifest(command), storage, None)
        },
        (UpdateAction::Fetch, UpdateEventModel::Fetched(handlers)) => if storage.sites.contains_key(
            command.id,
        ) {
            (
                after_manifest(command),
                storage.with_site(command.id, SiteModel { handlers, ..site }),
                None,
            )
        } else {
            (UpdateAction::NoSuchApp, storage, None)
        },
        (UpdateAction::Integrate, UpdateEventModel::Done) => (UpdateAction::Store, storage, None),
        (UpdateAction::Store, UpdateEventModel::Done) => (UpdateAction::Finished, storage, None),
        _ => (action, storage, None),
    }
}

/// What the desktop is asked to bring up to date, for a web app that it knows as `old_name`.
pub open spec fn integration_of(command: UpdateModel, old_name: Seq<char>) -> IntegrationModel {
    IntegrationModel {
        update_manifest: command.update_manifest,
        update_icons: command.update_icons,
        old_name: Some(old_name),
    }
}

/// The text given, or else the one kept.
fn text_or(given: &Option<Option<String>>, kept: Option<String>) -> (r: Option<String>)
    ensures
        r.deep_view() == given_or(given.deep_view(), kept.deep_view()),
{
    match given {
        Some(value) => value.clone(),
        None => kept,
    }
}

/// The link given, or else the one kept.
fn link_or(given: &Option<Option<Link>>, kept: Option<Link>) -> (r: Option<Link>)
    ensures
        r.deep_view() == given_or(given.deep_view(), kept.deep_view()),
{
    match given {
        Some(value) => value.clone(),
        None => kept,
    }
}

/// The list that may be missing given, or else the one kept.
fn optional_texts_or(given: &Option<Option<Vec<String>>>, kept: Option<Vec<String>>) -> (r: Option<
    Vec<String>,
>)
    ensures
        r.deep_view() == given_or(given.deep_view(), kept.deep_view()),
{
    match given {
        Some(value) => copy_optional_texts(value),
        None => kept,
    }
}

/// The list given, or else the one kept.
fn texts_or(given: &Option<Vec<String>>, kept: Vec<String>) -> (r: Vec<String>)
    ensures
        r.deep_view() == given_or(given.deep_view(), kept.deep_view()),
{
    match given {
        Some(value) => copy_texts(value),
        None => kept,
    }
}

/// The choice given, or else the one kept.
fn flag_or(given: Option<bool>, kept: bool) -> (r: bool)
    ensures
        r == given_or(given, kept),
{
    match given {
        Some(value) => value,
        None => kept,
    }
}

impl SiteUpdateCommand {
    /// Puts what the command gives in place of the settings kept.
    pub fn apply(&self, config: SiteConfig) -> (r: SiteConfig)
        ensures
            r@ == updated(self@, config@),
    {
        SiteConfig {
            name: text_or(&self.name, config.name),
            description: text_or(&self.description, config.description),
            start_url: link_or(&self.start_url, config.start_url),
            icon_url: link_or(&self.icon_url, config.icon_url),
            categories: optional_texts_or(&self.categories, config.categories),
            keywords: optional_texts_or(&self.keywords, config.keywords),
            enabled_url_handlers: texts_or(&self.enabled_url_handlers, config.enabled_url_handlers),
            enabled_protocol_handlers: texts_or(&self.enabled_protocol_handlers, config.enabled_protocol_handlers),
            launch_on_login: flag_or(self.launch_on_login, config.launch_on_login),
            launch_on_browser: flag_or(self.launch_on_browser, config.launch_on_browser),
            hardware_webrtc: flag_or(self.hardware_webrtc, config.hardware_webrtc),
            software_rendering: flag_or(self.software_rendering, config.software_rendering),
            scheduling: text_or(&self.scheduling, config.scheduling),
            user_agent: text_or(&self.user_agent, config.user_agent),
            start_hidden: flag_or(self.start_hidden, config.start_hidden),
            document_url: config.document_url,
            manifest_url: config.manifest_url,
            custom_protocol_handlers: config.custom_protocol_handlers,
            webapp_id: config.webapp_id,
            external_links: config.external_links,
            allowed_domains: config.allowed_domains,
        }
    }

    /// What the desktop is asked to bring up to date, for a web app that it knows as `old_name`: the
    /// name that the web app had as it was kept.
    pub fn integration(&self, old_name: &str) -> (r: Integration)
        ensures
            r@ == integration_of(self@, old_name@),
    {
        Integration {
            update_manifest: self.update_manifest,
            update_icons: self.update_icons,
            old_name: Some(old_name.to_owned()),
        }
    }

    /// What is said when there is no such web app.
    pub fn message(&self) -> (r: String)
        ensures
            r@ == "Web app does not exist"@,
    {
        "Web app does not exist".to_owned()
    }

    /// What is said, before the reason, when a step fails; nothing where the reason speaks for
    /// itself.
    pub fn failure_context(&self, action: UpdateAction) -> (r: Option<String>)
        ensures
            r.deep_view() == (match action {
                UpdateAction::Fetch => Some("Failed to update web app manifest"@),
                UpdateAction::Integrate => Some("Failed to update system integration"@),
                _ => None,
            }),
    {
        match action {
            UpdateAction::Fetch => Some("Failed to update web app manifest".to_owned()),
            UpdateAction::Integrate => Some("Failed to update system integration".to_owned()),
            _ => None,
        }
    }

    fn manifest_known(&self) -> (r: UpdateAction)
        ensures
            r == after_manifest(self@),
    {
        if self.system_integration {
            UpdateAction::Integrate
        } else {
            UpdateAction::Store
        }
    }

    /// The step after `action`, once `event` has answered it, with the web app as it was kept where
    /// the step has put the new settings in place.
    pub fn run(&self, storage: &mut Storage, action: UpdateAction, event: UpdateEvent) -> (r: (
        UpdateAction,
        Option<Site>,
    ))
        ensures
            r.0 == update_next(self@, old(storage)@, action, event@).0,
            final(storage)@ == update_next(self@, old(storage)@, action, event@).1,
            shown(r.1) == update_next(self@, old(storage)@, action, event@).2,
    {
        let ghost sites = storage.sites@;
        match (action, event) {
            (UpdateAction::Begin, UpdateEvent::Done) => match storage.sites.remove(&self.id) {
                Some(kept) => {
                    let copy = copy_site(&kept);
                    let site = Site {
                        ulid: copy.ulid,
                        profile: copy.profile,
                        config: self.apply(copy.config),
                        manifest: copy.manifest,
                    };
                    proof {
                        lemma_viewed(sites, self.id, site);
                        assert(sites.remove(self.id).insert(self.id, site) =~= sites.insert(
                            self.id,
                            site,
                        ));
                    }
                    storage.sites.insert(self.id, site);
                    (UpdateAction::MakeClient, Some(kept))
                },
                None => {
                    assert(sites.remove(self.id) =~= sites);
                    (UpdateAction::NoSuchApp, None)
                },
            },
            (UpdateAction::MakeClient, UpdateEvent::Done) => if self.update_manifest {
                (UpdateAction::Fetch, None)
            } else {
                (self.manifest_known(), None)
            },
            (UpdateAction::Fetch, UpdateEvent::Fetched(manifest)) => match storage.sites.remove(
                &self.id,
            ) {
                Some(site) => {
                    let site = Site {
                        ulid: site.ulid,
                        profile: site.profile,
                        config: site.config,
                        manifest,
                    };
                    proof {
                        lemma_viewed(sites, self.id, site);
                        assert(sites.remove(self.id).insert(self.id, site) =~= sites.insert(
                            self.id,
                            site,
                        ));
                    }
                    storage.sites.insert(self.id, site);
                    (self.manifest_known(), None)
                },
                None => {
                    assert(sites.remove(self.id) =~= sites);
                    (UpdateAction::NoSuchApp, None)
                },
            },
            (UpdateAction::Integrate, UpdateEvent::Done) => (UpdateAction::Store, None),
            (UpdateAction::Store, UpdateEvent::Done) => (UpdateAction::Finished, None),
            _ => (action, None),
        }
    }
}

} // verus!
