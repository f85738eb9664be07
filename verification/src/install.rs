//! Installing a web app.

use vstd::prelude::*;

use crate::ids::{is_random_uuid, nil_ulid, random_uuid};
use crate::launch::{LaunchModel, SiteLaunchCommand};
use crate::link::{scheme_of, url_joined, Link, LinkError};
use crate::storage::{
    copy_optional_texts, lemma_viewed, ConfigModel, ProfileModel, Site, SiteConfig, SiteModel,
    Storage, StorageModel,
};
use crate::text::same_text;

verus! {

/// The command that installs a web app.
pub struct SiteInstallCommand {
    pub manifest_url: Link,
    pub document_url: Option<Link>,
    pub start_url: Option<Link>,
    pub icon_url: Option<Link>,
    /// The profile that the web app is to share; the default one if none is given.
    pub profile: Option<u128>,
    pub name: Option<String>,
    pub description: Option<String>,
    pub categories: Option<Vec<String>>,
    pub keywords: Option<Vec<String>>,
    pub launch_on_login: Option<bool>,
    pub launch_on_browser: Option<bool>,
    pub hardware_webrtc: bool,
    pub software_rendering: bool,
    pub scheduling: Option<String>,
    /// Make the web app known to the desktop.
    pub system_integration: bool,
    /// Launch the web app once it is installed.
    pub launch_now: bool,
}

/// The model of a `SiteInstallCommand`.
pub ghost struct InstallModel {
    pub manifest_url: Seq<char>,
    pub document_url: Option<Seq<char>>,
    pub start_url: Option<Seq<char>>,
    pub icon_url: Option<Seq<char>>,
    pub profile: Option<u128>,
    pub name: Option<Seq<char>>,
    pub description: Option<Seq<char>>,
    pub categories: Option<Seq<Seq<char>>>,
    pub keywords: Option<Seq<Seq<char>>>,
    pub launch_on_login: Option<bool>,
    pub launch_on_browser: Option<bool>,
    pub hardware_webrtc: bool,
    pub software_rendering: bool,
    pub scheduling: Option<Seq<char>>,
    pub system_integration: bool,
    pub launch_now: bool,
}

impl View for SiteInstallCommand {
    type V = InstallModel;

    open spec fn view(&self) -> InstallModel {
        InstallModel {
            manifest_url: self.manifest_url@,
            document_url: self.document_url.deep_view(),
            start_url: self.start_url.deep_view(),
            icon_url: self.icon_url.deep_view(),
            profile: self.profile,
            name: self.name.deep_view(),
            description: self.description.deep_view(),
            categories: self.categories.deep_view(),
            keywords: self.keywords.deep_view(),
            launch_on_login: self.launch_on_login,
            launch_on_browser: self.launch_on_browser,
            hardware_webrtc: self.hardware_webrtc,
            software_rendering: self.software_rendering,
            scheduling: self.scheduling.deep_view(),
            system_integration: self.system_integration,
            launch_now: self.launch_now,
        }
    }
}

/// Why an installation comes to nothing.
#[derive(Clone, Copy, Debug, PartialEq, Eq, Structural)]
pub enum InstallError {
    DocumentUrlRequired,
    NoProfile,
    DocumentUrlUnknown,
}

/// How far an installation has come: what is to be done next.
#[derive(Clone, Copy, Debug, PartialEq, Eq, Structural)]
pub enum InstallAction {
    /// Nothing is done yet.
    Begin,
    /// Read the storage.
    Load,
    /// Make the client that fetches from the web.
    MakeClient,
    /// Fetch what makes the web app.
    Fetch,
    /// Make the web app known to the desktop.
    Integrate,
    /// Hand the web app over for the storage.
    Register,
    /// Write the storage.
    Store,
    /// Launch the web app.
    Launch,
    /// Nothing is left to do.
    Finished,
    /// The installation has come to nothing.
    Failed(InstallError),
}

/// What came of a step.
pub enum InstallEvent {
    /// It is done.
    Done,
    /// The web app.
    Fetched(Site),
}

/// The model of an `InstallEvent`.
pub ghost enum InstallEventModel {
    Done,
    Fetched(SiteModel),
}

impl View for InstallEvent {
    type V = InstallEventModel;

    open spec fn view(&self) -> InstallEventModel {
        match self {
            InstallEvent::Done => InstallEventModel::Done,
            InstallEvent::Fetched(site) => InstallEventModel::Fetched(site@),
        }
    }
}

/// What the desktop is asked to bring up to date, and the name under which it knew the web app
/// before.
pub struct Integration {
    pub update_manifest: bool,
    pub update_icons: bool,
    pub old_name: Option<String>,
}

/// The model of an `Integration`.
pub ghost struct IntegrationModel {
    pub update_manifest: bool,
    pub update_icons: bool,
    pub old_name: Option<Seq<char>>,
}

impl View for Integration {
    type V = IntegrationModel;

    open spec fn view(&self) -> IntegrationModel {
        IntegrationModel {
            update_manifest: self.update_manifest,
            update_icons: self.update_icons,
            old_name: self.old_name.deep_view(),
        }
    }
}

/// The manifest is written into its URL, and no page is given.
pub open spec fn lacks_document(command: InstallModel) -> bool {
    scheme_of(command.manifest_url) == "data"@ && command.document_url is None
}

/// The profile of a web app: the one given, or the default one, whose identifier is zero.
pub open spec fn profile_of(command: InstallModel) -> u128 {
    match command.profile {
        Some(profile) => profile,
        None => 0,
    }
}

/// The identifier of the profile that a web app is fetched for, if there is such a profile.
pub open spec fn home_of(command: InstallModel, storage: StorageModel) -> Option<u128> {
    if storage.profiles.contains_key(profile_of(command)) {
        Some(storage.profiles[profile_of(command)].ulid)
    } else {
        None
    }
}

/// The page of a web app: the one given, or the directory of the manifest. Where neither is to be
/// had, what the error says.
pub open spec fn document_of(command: InstallModel) -> Result<Seq<char>, Seq<char>> {
    match command.document_url {
        Some(url) => Ok(url),
        None => url_joined(command.manifest_url, "."@),
    }
}

/// The settings of a web app that is being installed.
pub open spec fn new_config(
    command: InstallModel,
    document_url: Seq<char>,
    webapp_id: u128,
) -> ConfigModel {
    ConfigModel {
        name: command.name,
        description: command.description,
        categories: command.categories,
        keywords: command.keywords,
        document_url,
        manifest_url: command.manifest_url,
        start_url: command.start_url,
        icon_url: command.icon_url,
        enabled_url_handlers: seq![],
        enabled_protocol_handlers: seq![],
        custom_protocol_handlers: seq![],
        launch_on_login: command.launch_on_login == Some(true),
        launch_on_browser: command.launch_on_browser == Some(true),
        webapp_id: Some(webapp_id),
        external_links: None,
        allowed_domains: seq![],
        hardware_webrtc: command.hardware_webrtc,
        software_rendering: command.software_rendering,
        scheduling: command.scheduling,
        user_agent: None,
        start_hidden: false,
    }
}

/// The storage with a web app in it, listed last in a profile.
pub open spec fn registered(storage: StorageModel, profile: u128, site: SiteModel) -> StorageModel {
    storage.with_profile(
        profile,
        ProfileModel {
            ulid: storage.profiles[profile].ulid,
            sites: storage.profiles[profile].sites.push(site.ulid),
        },
    ).with_site(site.ulid, site)
}

/// The step after `action`, once `event` has answered it, and the storage then. An event that does
/// not answer the step changes nothing.
pub open spec fn install_next(
    command: InstallModel,
    storage: StorageModel,
    action: InstallAction,
    event: InstallEventModel,
) -> (InstallAction, StorageModel) {
    match (action, event) {
        (InstallAction::Begin, InstallEventModel::Done) => if lacks_document(command) {
            (InstallAction::Failed(InstallError::DocumentUrlRequired), storage)
        } else {
            (InstallAction::Load, storage)
        },
        (InstallAction::Load, InstallEventModel::Done) => if !storage.profiles.contains_key(
            profile_of(command),
        ) {
            (InstallAction::Failed(InstallError::NoProfile), storage)
        } else if document_of(command) is Err {
            (InstallAction::Failed(InstallError::DocumentUrlUnknown), storage)
        } else {
            (InstallAction::MakeClient, storage)
        },
        (InstallAction::MakeClient, InstallEventModel::Done) => (InstallAction::Fetch, storage),
        (InstallAction::Fetch, InstallEventModel::Done) => if command.system_integration {
            (InstallAction::Integrate, storage)
        } else {
            (InstallAction::Register, storage)
        },
        (InstallAction::Integrate, InstallEventModel::Done) => (InstallAction::Register, storage),
        (InstallAction::Register, InstallEventModel::Fetched(site)) => if storage.profiles
            .contains_key(profile_of(command)) {
            (InstallAction::Store, registered(storage, profile_of(command), site))
        } else {
            (InstallAction::Failed(InstallError::NoProfile), storage)
        },
        (InstallAction::Store, InstallEventModel::Done) => if command.launch_now {
            (InstallAction::Launch, storage)
        } else {
            (InstallAction::Finished, storage)
        },
        (InstallAction::Launch, InstallEventModel::Done) => (InstallAction::Finished, storage),
        _ => (action, storage),
    }
}

/// A launch of a web app without anything in particular.
pub open spec fn plain_launch(id: u128) -> LaunchModel {
    LaunchModel {
        id,
        url: seq![],
        protocol: None,
        arguments: seq![],
        hidden: false,
        direct_launch: false,
    }
}

/// What is said when an installation comes to nothing.
pub open spec fn install_message(command: InstallModel, error: InstallError) -> Seq<char> {
    match error {
        InstallError::DocumentUrlRequired =>
            "The document URL is required when the manifest URL is a data URL"@,
        InstallError::NoProfile => "Profile does not exist"@,
        InstallError::DocumentUrlUnknown => match document_of(command) {
            Ok(_) => ""@,
            Err(message) => message,
        },
    }
}

/// Puts a web app into the storage and lists it last in a profile, if there is such a profile.
pub fn register(storage: &mut Storage, profile: u128, site: Site) -> (r: bool)
    ensures
        r == old(storage)@.profiles.contains_key(profile),
        r ==> final(storage)@ == registered(old(storage)@, profile, site@),
        !r ==> final(storage)@ == old(storage)@,
{
    let ghost before = storage@;
    let ghost profiles = storage.profiles@;
    let ghost sites = storage.sites@;
    match storage.profiles.remove(&profile) {
        Some(kept) => {
            let mut kept = kept;
            kept.sites.push(site.ulid);
            let id = site.ulid;
            proof {
                lemma_viewed(profiles.remove(profile), profile, kept);
                lemma_viewed(profiles, profile, kept);
                lemma_viewed(sites, id, site);
                assert(profiles.remove(profile).insert(profile, kept) =~= profiles.insert(
                    profile,
                    kept,
                ));
            }
            storage.profiles.insert(profile, kept);
            storage.sites.insert(id, site);
            true
        },
        None => {
            assert(profiles.remove(profile) =~= profiles);
            false
        },
    }
}

impl SiteInstallCommand {
    /// The profile that the web app is to share.
    pub fn profile_id(&self) -> (r: u128)
        ensures
            r == profile_of(self@),
    {
        match self.profile {
            Some(profile) => profile,
            None => nil_ulid(),
        }
    }

    /// The identifier of the profile that the web app is fetched for, if there is such a profile:
    /// the one that the profile itself holds.
    pub fn home(&self, storage: &Storage) -> (r: Option<u128>)
        ensures
            r == home_of(self@, storage@),
    {
        match storage.profiles.get(&self.profile_id()) {
            Some(profile) => Some(profile.ulid),
            None => None,
        }
    }

    /// The page of the web app.
    pub fn document(&self) -> (r: Result<Link, LinkError>)
        ensures
            match r {
                Ok(link) => document_of(self@) == Ok::<Seq<char>, Seq<char>>(link@),
                Err(error) => document_of(self@) == Err::<Seq<char>, Seq<char>>(error.message@),
            },
    {
        match &self.document_url {
            Some(url) => Ok(url.clone()),
            None => self.manifest_url.join("."),
        }
    }

    /// The settings of the web app, with its page and its identifier for the browser.
    pub fn config_with(&self, document_url: Link, webapp_id: u128) -> (r: SiteConfig)
        ensures
            r@ == new_config(self@, document_url@, webapp_id),
    {
        let r = SiteConfig {
            name: self.name.clone(),
            description: self.description.clone(),
            categories: copy_optional_texts(&self.categories),
            keywords: copy_optional_texts(&self.keywords),
            document_url,
            manifest_url: self.manifest_url.clone(),
            start_url: self.start_url.clone(),
            icon_url: self.icon_url.clone(),
            enabled_url_handlers: Vec::new(),
            enabled_protocol_handlers: Vec::new(),
            custom_protocol_handlers: Vec::new(),
            launch_on_login: match self.launch_on_login {
                Some(value) => value,
                None => false,
            },
            launch_on_browser: match self.launch_on_browser {
                Some(value) => value,
                None => false,
            },
            webapp_id: Some(webapp_id),
            external_links: None,
            allowed_domains: Vec::new(),
            hardware_webrtc: self.hardware_webrtc,
            software_rendering: self.software_rendering,
            scheduling: self.scheduling.clone(),
            user_agent: None,
            start_hidden: false,
        };
        proof {
            assert(r.enabled_url_handlers.deep_view() =~= seq![]);
            assert(r.enabled_protocol_handlers.deep_view() =~= seq![]);
            assert(r.custom_protocol_handlers.deep_view() =~= seq![]);
            assert(r.allowed_domains.deep_view() =~= seq![]);
        }
        r
    }

    /// The settings of the web app, with a random identifier for the browser.
    pub fn config(&self) -> (r: Result<SiteConfig, LinkError>)
        ensures
            match r {
                Ok(config) => document_of(self@) is Ok && exists|webapp_id: u128|
                    is_random_uuid(webapp_id) && config@ == #[trigger] new_config(
                        self@,
                        document_of(self@)->Ok_0,
                        webapp_id,
                    ),
                Err(error) => document_of(self@) == Err::<Seq<char>, Seq<char>>(error.message@),
            },
    {
        match self.document() {
            Ok(document) => {
                let webapp_id = random_uuid();
                assert(document_of(self@)->Ok_0 == document@);
                Ok(self.config_with(document, webapp_id))
            },
            Err(error) => Err(error),
        }
    }

    /// What the desktop is asked to bring up to date: everything, for a web app that it does not
    /// know yet.
    pub fn integration(&self) -> (r: Integration)
        ensures
            r@ == (IntegrationModel { update_manifest: true, update_icons: true, old_name: None }),
    {
        Integration { update_manifest: true, update_icons: true, old_name: None }
    }

    /// The command that launches the web app once it is installed: plainly.
    pub fn launch_command(&self, id: u128) -> (r: SiteLaunchCommand)
        ensures
            r@ == plain_launch(id),
    {
        let r = SiteLaunchCommand {
            id,
            url: Vec::new(),
            protocol: None,
            arguments: Vec::new(),
            hidden: false,
            direct_launch: false,
        };
        assert(r.url.deep_view() =~= seq![]);
        assert(r.arguments.deep_view() =~= seq![]);
        r
    }

    /// What is said when the installation comes to nothing.
    pub fn message(&self, error: InstallError) -> (r: String)
        ensures
            r@ == install_message(self@, error),
    {
        match error {
            InstallError::DocumentUrlRequired =>
                "The document URL is required when the manifest URL is a data URL".to_owned(),
            InstallError::NoProfile => "Profile does not exist".to_owned(),
            InstallError::DocumentUrlUnknown => match self.document() {
                Ok(_) => "".to_owned(),
                Err(error) => error.message,
            },
        }
    }

    /// What is said, before the reason, when a step fails; nothing where the reason speaks for
    /// itself.
    pub fn failure_context(&self, action: InstallAction) -> (r: Option<String>)
        ensures
            r.deep_view() == (if action == InstallAction::Integrate {
                Some("Failed to install system integration"@)
            } else {
                None
            }),
    {
        match action {
            InstallAction::Integrate => Some("Failed to install system integration".to_owned()),
            _ => None,
        }
    }

    /// The step after `action`, once `event` has answered it, and the storage then.
    pub fn _run(&self, storage: &mut Storage, action: InstallAction, event: InstallEvent) -> (r:
        InstallAction)
        ensures
            r == install_next(self@, old(storage)@, action, event@).0,
            final(storage)@ == install_next(self@, old(storage)@, action, event@).1,
    {
        match (action, event) {
            (InstallAction::Begin, InstallEvent::Done) => {
                if same_text(self.manifest_url.scheme(), "data") && self.document_url.is_none() {
                    InstallAction::Failed(InstallError::DocumentUrlRequired)
                } else {
                    InstallAction::Load
                }
            },
            (InstallAction::Load, InstallEvent::Done) => {
                if !storage.profiles.contains_key(&self.profile_id()) {
                    InstallAction::Failed(InstallError::NoProfile)
                } else {
                    match self.document() {
                        Ok(_) => InstallAction::MakeClient,
                        Err(_) => InstallAction::Failed(InstallError::DocumentUrlUnknown),
                    }
                }
            },
            (InstallAction::MakeClient, InstallEvent::Done) => InstallAction::Fetch,
            (InstallAction::Fetch, InstallEvent::Done) => if self.system_integration {
                InstallAction::Integrate
            } else {
                InstallAction::Register
            },
            (InstallAction::Integrate, InstallEvent::Done) => InstallAction::Register,
            (InstallAction::Register, InstallEvent::Fetched(site)) => if register(
                storage,
                self.profile_id(),
                site,
            ) {
                InstallAction::Store
            } else {
                InstallAction::Failed(InstallError::NoProfile)
            },
            (InstallAction::Store, InstallEvent::Done) => if self.launch_now {
                InstallAction::Launch
            } else {
                InstallAction::Finished
            },
            (InstallAction::Launch, InstallEvent::Done) => InstallAction::Finished,
            _ => action,
        }
    }
}

} // verus!
