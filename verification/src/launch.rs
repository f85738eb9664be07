//! Launching a web app: which steps follow each other, and what the browser is started with.

use vstd::prelude::*;
use vstd::string::StringExecFns;

use crate::ids::{format_ulid, is_random_uuid, random_uuid, ulid_text};
use crate::link::{encode_component, percent_encoded, scheme_of, url_parsed, Link, LinkError};
use crate::paths::{app_file, app_file_path, AppFile};
use crate::runtime::{blake3_digest, runtime_outdated};
use crate::storage::{
    copy_links, copy_texts, lemma_viewed, ConfigModel, HandlerModel, ProtocolHandler, Site,
    SiteModel, Storage, StorageModel, Variables,
};
use crate::text::{contains_text, fill, filled, same_text};

verus! {

/// The system that the program is made for.
#[derive(Clone, Copy, Debug, PartialEq, Eq, Structural)]
pub enum Platform {
    Linux,
    MacOs,
    Windows,
}

/// How the program is made.
#[derive(Clone, Copy, Debug, PartialEq, Eq, Structural)]
pub struct Build {
    pub platform: Platform,
    /// The runtime cannot be changed.
    pub immutable_runtime: bool,
}

/// The command that launches a web app.
pub struct SiteLaunchCommand {
    pub id: u128,
    /// URLs to open in place of the start URL.
    pub url: Vec<Link>,
    /// A URL to open through a protocol handler; the flag may stand without one.
    pub protocol: Option<Option<Link>>,
    /// Arguments for the browser.
    pub arguments: Vec<String>,
    /// Start without showing the window.
    pub hidden: bool,
    /// Start the browser without the system's help.
    pub direct_launch: bool,
}

/// The model of a `SiteLaunchCommand`.
pub ghost struct LaunchModel {
    pub id: u128,
    pub url: Seq<Seq<char>>,
    pub protocol: Option<Option<Seq<char>>>,
    pub arguments: Seq<Seq<char>>,
    pub hidden: bool,
    pub direct_launch: bool,
}

impl View for SiteLaunchCommand {
    type V = LaunchModel;

    open spec fn view(&self) -> LaunchModel {
        LaunchModel {
            id: self.id,
            url: self.url.deep_view(),
            protocol: self.protocol.deep_view(),
            arguments: self.arguments.deep_view(),
            hidden: self.hidden,
            direct_launch: self.direct_launch,
        }
    }
}

/// Why a launch comes to nothing.
#[derive(Clone, Copy, Debug, PartialEq, Eq, Structural)]
pub enum LaunchError {
    NoSuchApp,
    NoProfile,
    RuntimeNotInstalled,
    SchemeNotEnabled,
    SchemeNotFound,
    HandlerNotConverted,
}

/// How far a launch has come: what is to be done next.
#[derive(Clone, Copy, Debug, PartialEq, Eq, Structural)]
pub enum LaunchAction {
    /// Nothing is done yet.
    Begin,
    /// Write the storage.
    Store,
    /// Ask the runtime of the web app to show its window.
    Contact,
    /// Start the tray of the web app that is running already.
    FocusTray,
    /// Leave the launch to the system.
    HandOver,
    /// Look at the runtime.
    OpenRuntime,
    /// Read the system's browser and the linked one.
    Compare,
    /// Link the system's browser anew.
    Relink,
    /// Bring the runtime's own files up to date.
    PatchRuntime,
    /// Bring the profile's own files up to date.
    PatchProfile,
    /// Enter the web app in the browser's registry.
    SyncRegistry,
    /// Write the preferences of the web app.
    WritePreferences,
    /// Start the browser.
    Start,
    /// Start the tray of the web app that was started.
    SpawnTray,
    /// Nothing is left to do.
    Finished,
    /// The launch has come to nothing.
    Failed(LaunchError),
}

/// What came of a step.
pub enum LaunchEvent {
    /// It is done.
    Done,
    /// Whether the runtime took the message.
    Answered(bool),
    /// Whether a runtime is installed.
    Opened(bool),
    /// The system's browser and the linked one.
    Compared(Vec<u8>, Vec<u8>),
}

/// The model of a `LaunchEvent`.
pub ghost enum LaunchEventModel {
    Done,
    Answered(bool),
    Opened(bool),
    Compared(Seq<u8>, Seq<u8>),
}

impl View for LaunchEvent {
    type V = LaunchEventModel;

    open spec fn view(&self) -> LaunchEventModel {
        match self {
            LaunchEvent::Done => LaunchEventModel::Done,
            LaunchEvent::Answered(answered) => LaunchEventModel::Answered(*answered),
            LaunchEvent::Opened(installed) => LaunchEventModel::Opened(*installed),
            LaunchEvent::Compared(system, linked) => LaunchEventModel::Compared(system@, linked@),
        }
    }
}

/// A message for the runtime of a web app.
pub struct ShowRequest {
    pub socket: String,
    pub message: String,
}

/// The lines that a launcher sends: who it is, and whether the window is to be shown.
pub open spec fn show_message(show: bool) -> Seq<char> {
    if show {
        "hello v1 launcher\n"@ + "show\n"@
    } else {
        "hello v1 launcher\n"@
    }
}

/// Where and what to write to the runtime of a web app, to learn whether it is running and, if it
/// is to, to have it show its window.
pub fn runtime_show(rt: &str, id: u128, show: bool) -> (r: ShowRequest)
    ensures
        r.socket@ == app_file(rt@, ulid_text(id), AppFile::Socket),
        r.message@ == show_message(show),
{
    let mut message = "hello v1 launcher\n".to_owned();
    if show {
        message.append("show\n");
    }
    ShowRequest { socket: app_file_path(rt, format_ulid(id).as_str(), AppFile::Socket), message }
}

/// What a launch writes to the runtime of its web app.
pub open spec fn greeting(command: LaunchModel) -> Seq<char> {
    show_message(!command.hidden)
}

/// Where the program of the tray is.
#[derive(Clone, Copy, Debug, PartialEq, Eq, Structural)]
pub enum TrayBinary {
    /// Beside the running program.
    Sibling,
    /// In the directory for programs.
    Installed,
}

/// How to start the tray of a web app.
pub struct TrayCommand {
    pub binary: TrayBinary,
    pub args: Vec<String>,
}

/// Which program of the tray is started: the one beside the running program where it is known to
/// exist, or else the installed one.
pub open spec fn tray_binary(sibling: Option<bool>) -> TrayBinary {
    if sibling == Some(true) {
        TrayBinary::Sibling
    } else {
        TrayBinary::Installed
    }
}

/// The arguments for the tray of a web app.
pub open spec fn tray_args(
    id: u128,
    name: Seq<char>,
    wmclass: Seq<char>,
    command: Seq<char>,
) -> Seq<Seq<char>> {
    seq![
        "--id"@,
        ulid_text(id),
        "--name"@,
        name,
        "--icon"@,
        "FFPWA-"@ + ulid_text(id),
        "--wmclass"@,
        wmclass,
        "--exec"@,
        command,
    ]
}

/// How to start the tray of a web app: with its name, the class of its windows, and the command
/// line that starts it. `sibling` tells whether the program of the tray exists beside the running
/// one, if it is known where that is.
pub fn spawn_tray(
    id: u128,
    name: &str,
    wmclass: &str,
    command: &str,
    sibling: Option<bool>,
) -> (r: TrayCommand)
    ensures
        r.binary == tray_binary(sibling),
        r.args.deep_view() == tray_args(id, name@, wmclass@, command@),
{
    let mut icon = "FFPWA-".to_owned();
    icon.append(format_ulid(id).as_str());
    let args = vec![
        "--id".to_owned(),
        format_ulid(id),
        "--name".to_owned(),
        name.to_owned(),
        "--icon".to_owned(),
        icon,
        "--wmclass".to_owned(),
        wmclass.to_owned(),
        "--exec".to_owned(),
        command.to_owned(),
    ];
    assert(args.deep_view() =~= tray_args(id, name@, wmclass@, command@));
    let binary = match sibling {
        Some(true) => TrayBinary::Sibling,
        _ => TrayBinary::Installed,
    };
    TrayCommand { binary, args }
}

/// The first handler for a scheme.
pub open spec fn first_handler(handlers: Seq<HandlerModel>, scheme: Seq<char>) -> Option<
    HandlerModel,
>
    decreases handlers.len(),
{
    if handlers.len() == 0 {
        None
    } else if handlers[0].protocol == scheme {
        Some(handlers[0])
    } else {
        first_handler(handlers.skip(1), scheme)
    }
}

/// The URL, not yet parsed, that stands for `protocol`: the handler for its scheme, the user's own
/// handlers before those of the website, with the encoded URL in place of its first `%s`. The
/// scheme must be enabled.
pub open spec fn handler_for(site: SiteModel, protocol: Seq<char>) -> Result<
    Seq<char>,
    LaunchError,
> {
    let scheme = scheme_of(protocol);
    if !site.config.enabled_protocol_handlers.contains(scheme) {
        Err(LaunchError::SchemeNotEnabled)
    } else {
        match first_handler(site.config.custom_protocol_handlers + site.handlers, scheme) {
            None => Err(LaunchError::SchemeNotFound),
            Some(handler) => match handler.url {
                None => Err(LaunchError::HandlerNotConverted),
                Some(template) => Ok(
                    filled(template, percent_encoded(vstd::utf8::encode_utf8(protocol))),
                ),
            },
        }
    }
}

/// The URLs that a launch opens: the one that stands for the protocol URL, or those that the
/// command gives.
pub open spec fn targets_of(command: LaunchModel, site: SiteModel) -> Result<
    Seq<Seq<char>>,
    LaunchError,
> {
    match command.protocol {
        Some(Some(protocol)) => match handler_for(site, protocol) {
            Err(error) => Err(error),
            Ok(text) => match url_parsed(text) {
                Err(_) => Err(LaunchError::HandlerNotConverted),
                Ok(url) => Ok(seq![url]),
            },
        },
        _ => Ok(command.url),
    }
}

/// What the URL parser says against the handler that stands for a protocol URL.
pub open spec fn handler_complaint(command: LaunchModel, site: SiteModel) -> Option<Seq<char>> {
    match command.protocol {
        Some(Some(protocol)) => match handler_for(site, protocol) {
            Ok(text) => match url_parsed(text) {
                Ok(_) => None,
                Err(message) => Some(message),
            },
            Err(_) => None,
        },
        _ => None,
    }
}

/// The place of the first handler for a scheme.
fn find_handler(handlers: &Vec<ProtocolHandler>, scheme: &str) -> (r: Option<usize>)
    ensures
        match r {
            Some(i) => i < handlers.len() && first_handler(handlers.deep_view(), scheme@) == Some(
                handlers.deep_view()[i as int],
            ),
            None => first_handler(handlers.deep_view(), scheme@) is None,
        },
{
    let ghost all = handlers.deep_view();
    let mut i: usize = 0;
    assert(all.skip(0) =~= all);
    while i < handlers.len()
        invariant
            i <= handlers.len(),
            all == handlers.deep_view(),
            first_handler(all, scheme@) == first_handler(all.skip(i as int), scheme@),
        decreases handlers.len() - i,
    {
        assert(all.skip(i as int)[0] == handlers[i as int].deep_view());
        assert(all.skip(i as int).skip(1) =~= all.skip(i + 1));
        if same_text(handlers[i].protocol.as_str(), scheme) {
            return Some(i);
        }
        i = i + 1;
    }
    None
}

/// The first handler of two lists is the first of the one, or else the first of the other.
pub(crate) proof fn lemma_first_handler_of_both(
    first: Seq<HandlerModel>,
    second: Seq<HandlerModel>,
    scheme: Seq<char>,
)
    ensures
        first_handler(first + second, scheme) == (match first_handler(first, scheme) {
            Some(handler) => Some(handler),
            None => first_handler(second, scheme),
        }),
    decreases first.len(),
{
    if first.len() == 0 {
        assert(first + second =~= second);
    } else {
        assert((first + second).skip(1) =~= first.skip(1) + second);
        lemma_first_handler_of_both(first.skip(1), second, scheme);
    }
}

/// The URL, not yet parsed, that a web app opens in place of one of a protocol.
pub fn handler_text(site: &Site, protocol: &Link) -> (r: Result<String, LaunchError>)
    ensures
        match r {
            Ok(text) => handler_for(site@, protocol@) == Ok::<Seq<char>, LaunchError>(text@),
            Err(error) => handler_for(site@, protocol@) == Err::<Seq<char>, LaunchError>(error),
        },
{
    let scheme = protocol.scheme();
    if !contains_text(&site.config.enabled_protocol_handlers, scheme) {
        return Err(LaunchError::SchemeNotEnabled);
    }
    proof {
        lemma_first_handler_of_both(
            site@.config.custom_protocol_handlers,
            site@.handlers,
            scheme@,
        );
    }
    let handler = match find_handler(&site.config.custom_protocol_handlers, scheme) {
        Some(i) => &site.config.custom_protocol_handlers[i],
        None => match find_handler(&site.manifest.protocol_handlers, scheme) {
            Some(i) => &site.manifest.protocol_handlers[i],
            None => {
                return Err(LaunchError::SchemeNotFound);
            },
        },
    };
    match &handler.url {
        Some(template) => Ok(
            fill(template.as_str(), encode_component(protocol.as_str()).as_str()),
        ),
        None => Err(LaunchError::HandlerNotConverted),
    }
}

/// What a launch opens once the handler has been parsed: the one URL, if it is one.
pub fn only_target(parsed: Result<Link, LinkError>) -> (r: Result<Vec<Link>, LaunchError>)
    ensures
        match (parsed, r) {
            (Ok(url), Ok(urls)) => urls.deep_view() == seq![url@],
            (Err(_), Err(error)) => error == LaunchError::HandlerNotConverted,
            _ => false,
        },
{
    match parsed {
        Ok(url) => {
            let urls = vec![url];
            assert(urls.deep_view() =~= seq![url@]);
            Ok(urls)
        },
        Err(_) => Err(LaunchError::HandlerNotConverted),
    }
}

/// What the browser is started with.
pub struct LaunchRequest {
    pub urls: Vec<Link>,
    pub arguments: Vec<String>,
    pub variables: Variables,
    /// Whether to wait until the browser ends.
    pub wait: bool,
}

/// The arguments for the browser: those of the command, or else those of the storage.
pub open spec fn arguments_of(command: LaunchModel, storage: StorageModel) -> Seq<Seq<char>> {
    if command.arguments.len() > 0 {
        command.arguments
    } else {
        storage.arguments
    }
}

/// The variables for the browser: those of the storage, and the wish to start hidden.
pub open spec fn variables_of(command: LaunchModel, storage: StorageModel) -> Map<
    Seq<char>,
    Seq<char>,
> {
    if command.hidden {
        storage.variables.insert("FFWEBAPPS_START_HIDDEN"@, "1"@)
    } else {
        storage.variables
    }
}

/// The launcher waits until the browser ends.
pub open spec fn waits(build: Build) -> bool {
    build.platform == Platform::MacOs
}

/// A launch is to open something in particular.
pub open spec fn has_target(command: LaunchModel) -> bool {
    command.url.len() > 0 || command.protocol matches Some(Some(_))
}

/// The step after the web app is known to have an identifier for the browser: without a particular
/// target, the runtime may be there already; on macOS the system launches.
pub open spec fn after_identity(command: LaunchModel, build: Build) -> LaunchAction {
    match build.platform {
        Platform::Linux => if has_target(command) {
            LaunchAction::OpenRuntime
        } else {
            LaunchAction::Contact
        },
        Platform::MacOs => if command.direct_launch {
            LaunchAction::OpenRuntime
        } else {
            LaunchAction::HandOver
        },
        Platform::Windows => LaunchAction::OpenRuntime,
    }
}

/// The step after a runtime has been found that fits.
pub open spec fn after_runtime(build: Build) -> LaunchAction {
    if build.immutable_runtime {
        LaunchAction::PatchProfile
    } else {
        LaunchAction::PatchRuntime
    }
}

/// The step after the runtime has been looked at.
pub open spec fn after_opening(
    site: SiteModel,
    build: Build,
    storage: StorageModel,
    installed: bool,
) -> LaunchAction {
    if !storage.profiles.contains_key(site.profile) {
        LaunchAction::Failed(LaunchError::NoProfile)
    } else if !installed {
        LaunchAction::Failed(LaunchError::RuntimeNotInstalled)
    } else if build.platform == Platform::Linux && !build.immutable_runtime
        && storage.use_linked_runtime {
        LaunchAction::Compare
    } else {
        after_runtime(build)
    }
}

/// The step after `action`, once `event` has answered it. An event that does not answer the step
/// leaves it as it is.
pub open spec fn launch_next(
    command: LaunchModel,
    build: Build,
    storage: StorageModel,
    action: LaunchAction,
    event: LaunchEventModel,
) -> LaunchAction {
    let site = storage.sites[command.id];
    match (action, event) {
        (LaunchAction::Finished, _) => action,
        (LaunchAction::Failed(_), _) => action,
        (_, _) if !storage.sites.contains_key(command.id) => LaunchAction::Failed(
            LaunchError::NoSuchApp,
        ),
        (LaunchAction::Begin, LaunchEventModel::Done) => if site.config.webapp_id is None {
            LaunchAction::Store
        } else {
            after_identity(command, build)
        },
        (LaunchAction::Store, LaunchEventModel::Done) => after_identity(command, build),
        (LaunchAction::Contact, LaunchEventModel::Answered(answered)) => if answered {
            LaunchAction::FocusTray
        } else {
            LaunchAction::OpenRuntime
        },
        (LaunchAction::FocusTray, LaunchEventModel::Done) => LaunchAction::Finished,
        (LaunchAction::HandOver, LaunchEventModel::Done) => LaunchAction::Finished,
        (LaunchAction::OpenRuntime, LaunchEventModel::Opened(installed)) => after_opening(
            site,
            build,
            storage,
            installed,
        ),
        (LaunchAction::Compare, LaunchEventModel::Compared(system, linked)) => if blake3_digest(
            system,
        ) != blake3_digest(linked) {
            LaunchAction::Relink
        } else {
            after_runtime(build)
        },
        (LaunchAction::Relink, LaunchEventModel::Done) => after_runtime(build),
        (LaunchAction::PatchRuntime, LaunchEventModel::Done) => LaunchAction::PatchProfile,
        (LaunchAction::PatchProfile, LaunchEventModel::Done) => match targets_of(command, site) {
            Ok(_) => LaunchAction::SyncRegistry,
            Err(error) => LaunchAction::Failed(error),
        },
        (LaunchAction::SyncRegistry, LaunchEventModel::Done) => LaunchAction::WritePreferences,
        (LaunchAction::WritePreferences, LaunchEventModel::Done) => LaunchAction::Start,
        (LaunchAction::Start, LaunchEventModel::Done) => if build.platform == Platform::Linux {
            LaunchAction::SpawnTray
        } else {
            LaunchAction::Finished
        },
        (LaunchAction::SpawnTray, LaunchEventModel::Done) => LaunchAction::Finished,
        _ => action,
    }
}

/// A web app with an identifier for the browser.
pub open spec fn identified(site: SiteModel, webapp_id: u128) -> SiteModel {
    SiteModel { config: ConfigModel { webapp_id: Some(webapp_id), ..site.config }, ..site }
}

/// The step after one more event, and the storage then: at the beginning a web app without an
/// identifier for the browser is given the identifier `fresh`.
pub open spec fn launch_step(
    command: LaunchModel,
    build: Build,
    state: (LaunchAction, StorageModel),
    fresh: u128,
    event: LaunchEventModel,
) -> (LaunchAction, StorageModel) {
    let (action, storage) = state;
    let next = launch_next(command, build, storage, action, event);
    if action == LaunchAction::Begin && next == LaunchAction::Store {
        (next, storage.with_site(command.id, identified(storage.sites[command.id], fresh)))
    } else {
        (next, storage)
    }
}

/// Whether a web app is there that has no identifier for the browser.
pub fn lacks_webapp_id(storage: &Storage, id: u128) -> (r: bool)
    ensures
        r == (storage@.sites.contains_key(id) && storage@.sites[id].config.webapp_id is None),
{
    match storage.sites.get(&id) {
        Some(site) => site.config.webapp_id.is_none(),
        None => false,
    }
}

/// Gives a web app the identifier `fresh` for the browser, if it has none. Tells whether the
/// storage has changed.
pub fn assign_webapp_id(storage: &mut Storage, id: u128, fresh: u128) -> (r: bool)
    ensures
        r == (old(storage)@.sites.contains_key(id)
            && old(storage)@.sites[id].config.webapp_id is None),
        r ==> final(storage)@ == old(storage)@.with_site(
            id,
            identified(old(storage)@.sites[id], fresh),
        ),
        !r ==> final(storage)@ == old(storage)@,
{
    if !lacks_webapp_id(storage, id) {
        return false;
    }
    let ghost before = storage.sites@;
    match storage.sites.remove(&id) {
        Some(site) => {
            let mut site = site;
            site.config.webapp_id = Some(fresh);
            proof {
                lemma_viewed(before.remove(id), id, site);
                lemma_viewed(before, id, site);
            }
            storage.sites.insert(id, site);
            proof {
                assert(before.remove(id).insert(id, site) =~= before.insert(id, site));
            }
        },
        None => {},
    }
    true
}

/// What is said when a launch comes to nothing.
pub open spec fn launch_message(command: LaunchModel, error: LaunchError) -> Seq<char> {
    let scheme = match command.protocol {
        Some(Some(protocol)) => scheme_of(protocol),
        _ => ""@,
    };
    match error {
        LaunchError::NoSuchApp => "Web app does not exist"@,
        LaunchError::NoProfile => "Web app without a profile"@,
        LaunchError::RuntimeNotInstalled => "Runtime not installed"@,
        LaunchError::SchemeNotEnabled => "Scheme "@ + scheme + " not enabled"@,
        LaunchError::SchemeNotFound => "Scheme "@ + scheme + " not found"@,
        LaunchError::HandlerNotConverted => "Failed to convert protocol handler"@,
    }
}

/// What is said, before the reason, when a step fails; nothing where the reason speaks for itself.
pub open spec fn launch_context(action: LaunchAction) -> Option<Seq<char>> {
    match action {
        LaunchAction::SyncRegistry => Some("Failed to update the Web Apps registry"@),
        LaunchAction::WritePreferences => Some("Failed to write web app preferences"@),
        _ => None,
    }
}

/// What is said, before the reason, when a step of a launch fails.
pub fn failure_context(action: LaunchAction) -> (r: Option<String>)
    ensures
        r.deep_view() == launch_context(action),
{
    match action {
        LaunchAction::SyncRegistry => Some("Failed to update the Web Apps registry".to_owned()),
        LaunchAction::WritePreferences => Some("Failed to write web app preferences".to_owned()),
        _ => None,
    }
}

impl SiteLaunchCommand {
    /// Whether something in particular is to be opened.
    pub fn has_target(&self) -> (r: bool)
        ensures
            r == has_target(self@),
    {
        if self.url.len() > 0 {
            return true;
        }
        match &self.protocol {
            Some(Some(_)) => true,
            _ => false,
        }
    }

    /// What to write to the runtime of the web app to learn whether it is running: it is asked to
    /// show its window unless the launch is hidden.
    pub fn show_request(&self, rt: &str) -> (r: ShowRequest)
        ensures
            r.socket@ == app_file(rt@, ulid_text(self.id), AppFile::Socket),
            r.message@ == greeting(self@),
    {
        runtime_show(rt, self.id, !self.hidden)
    }

    /// The URLs that the launch opens.
    pub fn targets(&self, site: &Site) -> (r: Result<Vec<Link>, LaunchError>)
        ensures
            match r {
                Ok(urls) => targets_of(self@, site@) == Ok::<Seq<Seq<char>>, LaunchError>(
                    urls.deep_view(),
                ),
                Err(error) => targets_of(self@, site@) == Err::<Seq<Seq<char>>, LaunchError>(
                    error,
                ),
            },
    {
        match &self.protocol {
            Some(Some(protocol)) => match handler_text(site, protocol) {
                Ok(text) => only_target(Link::parse(text.as_str())),
                Err(error) => Err(error),
            },
            _ => Ok(copy_links(&self.url)),
        }
    }

    /// What the URL parser says against the handler, where that is why the launch comes to nothing.
    pub fn handler_failure(&self, site: &Site) -> (r: Option<String>)
        ensures
            r.deep_view() == handler_complaint(self@, site@),
    {
        match &self.protocol {
            Some(Some(protocol)) => match handler_text(site, protocol) {
                Ok(text) => match Link::parse(text.as_str()) {
                    Ok(_) => None,
                    Err(error) => Some(error.message),
                },
                Err(_) => None,
            },
            _ => None,
        }
    }

    /// The arguments for the browser.
    pub fn browser_arguments(&self, storage: &Storage) -> (r: Vec<String>)
        ensures
            r.deep_view() == arguments_of(self@, storage@),
    {
        if self.arguments.len() > 0 {
            copy_texts(&self.arguments)
        } else {
            copy_texts(&storage.arguments)
        }
    }

    /// The variables for the browser.
    pub fn browser_variables(&self, storage: &Storage) -> (r: Variables)
        ensures
            r@ == variables_of(self@, storage@),
    {
        let variables = storage.variables.clone();
        if self.hidden {
            variables.with("FFWEBAPPS_START_HIDDEN", "1")
        } else {
            variables
        }
    }

    /// What the browser is started with, for a web app that is there.
    pub fn request(&self, build: Build, storage: &Storage) -> (r: Result<
        LaunchRequest,
        LaunchError,
    >)
        ensures
            match r {
                Ok(request) => {
                    &&& storage@.sites.contains_key(self.id)
                    &&& targets_of(self@, storage@.sites[self.id]) == Ok::<
                        Seq<Seq<char>>,
                        LaunchError,
                    >(request.urls.deep_view())
                    &&& request.arguments.deep_view() == arguments_of(self@, storage@)
                    &&& request.variables@ == variables_of(self@, storage@)
                    &&& request.wait == waits(build)
                },
                Err(error) => if storage@.sites.contains_key(self.id) {
                    targets_of(self@, storage@.sites[self.id]) == Err::<
                        Seq<Seq<char>>,
                        LaunchError,
                    >(error)
                } else {
                    error == LaunchError::NoSuchApp
                },
            },
    {
        match storage.sites.get(&self.id) {
            None => Err(LaunchError::NoSuchApp),
            Some(site) => match self.targets(site) {
                Err(error) => Err(error),
                Ok(urls) => Ok(
                    LaunchRequest {
                        urls,
                        arguments: self.browser_arguments(storage),
                        variables: self.browser_variables(storage),
                        wait: build.platform == Platform::MacOs,
                    },
                ),
            },
        }
    }

    /// What is said when the launch comes to nothing.
    pub fn message(&self, error: LaunchError) -> (r: String)
        ensures
            r@ == launch_message(self@, error),
    {
        let scheme = match &self.protocol {
            Some(Some(protocol)) => protocol.scheme(),
            _ => "",
        };
        match error {
            LaunchError::NoSuchApp => "Web app does not exist".to_owned(),
            LaunchError::NoProfile => "Web app without a profile".to_owned(),
            LaunchError::RuntimeNotInstalled => "Runtime not installed".to_owned(),
            LaunchError::SchemeNotEnabled => {
                let mut text = "Scheme ".to_owned();
                text.append(scheme);
                text.append(" not enabled");
                text
            },
            LaunchError::SchemeNotFound => {
                let mut text = "Scheme ".to_owned();
                text.append(scheme);
                text.append(" not found");
                text
            },
            LaunchError::HandlerNotConverted => "Failed to convert protocol handler".to_owned(),
        }
    }

    /// The step after `action`, once `event` has answered it. At the beginning, a web app without
    /// an identifier for the browser is given a random one; nothing else is changed.
    pub fn run(
        &self,
        build: Build,
        storage: &mut Storage,
        action: LaunchAction,
        event: &LaunchEvent,
    ) -> (r: LaunchAction)
        ensures
            r == launch_next(self@, build, old(storage)@, action, event@),
            action == LaunchAction::Begin && r == LaunchAction::Store ==> exists|fresh: u128|
                is_random_uuid(fresh) && final(storage)@ == #[trigger] old(storage)@.with_site(
                    self.id,
                    identified(old(storage)@.sites[self.id], fresh),
                ),
            action != LaunchAction::Begin || r != LaunchAction::Store ==> final(storage)@ == old(
                storage,
            )@,
            exists|fresh: u128|
                is_random_uuid(fresh) && (r, final(storage)@) == #[trigger] launch_step(
                    self@,
                    build,
                    (action, old(storage)@),
                    fresh,
                    event@,
                ),
    {
        let ghost some: u128 = 0x0000_0000_0000_4000_8000_0000_0000_0000;
        proof {
            assert(is_random_uuid(some)) by {
                assert((0x0000_0000_0000_4000_8000_0000_0000_0000u128 >> 76) & 0xf == 4
                    && (0x0000_0000_0000_4000_8000_0000_0000_0000u128 >> 62) & 0x3 == 2)
                    by (bit_vector);
            }
            // Where no identifier is given, any will do.
            assert(launch_step(self@, build, (action, storage@), some, event@).0 == launch_next(
                self@,
                build,
                storage@,
                action,
                event@,
            ));
        }
        match action {
            LaunchAction::Finished => {
                return action;
            },
            LaunchAction::Failed(_) => {
                return action;
            },
            _ => {},
        }
        if !storage.sites.contains_key(&self.id) {
            return LaunchAction::Failed(LaunchError::NoSuchApp);
        }
        match (action, event) {
            (LaunchAction::Begin, LaunchEvent::Done) => {
                if lacks_webapp_id(storage, self.id) {
                    let fresh = random_uuid();
                    assign_webapp_id(storage, self.id, fresh);
                    assert((LaunchAction::Store, storage@) == launch_step(
                        self@,
                        build,
                        (action, old(storage)@),
                        fresh,
                        event@,
                    ));
                    LaunchAction::Store
                } else {
                    self.identity_known(build)
                }
            },
            (LaunchAction::Store, LaunchEvent::Done) => self.identity_known(build),
            (LaunchAction::Contact, LaunchEvent::Answered(answered)) => if *answered {
                LaunchAction::FocusTray
            } else {
                LaunchAction::OpenRuntime
            },
            (LaunchAction::FocusTray, LaunchEvent::Done) => LaunchAction::Finished,
            (LaunchAction::HandOver, LaunchEvent::Done) => LaunchAction::Finished,
            (LaunchAction::OpenRuntime, LaunchEvent::Opened(installed)) => self.runtime_opened(
                build,
                storage,
                *installed,
            ),
            (LaunchAction::Compare, LaunchEvent::Compared(system, linked)) => if runtime_outdated(
                system,
                linked,
            ) {
                LaunchAction::Relink
            } else {
                runtime_fits(build)
            },
            (LaunchAction::Relink, LaunchEvent::Done) => runtime_fits(build),
            (LaunchAction::PatchRuntime, LaunchEvent::Done) => LaunchAction::PatchProfile,
            (LaunchAction::PatchProfile, LaunchEvent::Done) => match self.request(build, storage) {
                Ok(_) => LaunchAction::SyncRegistry,
                Err(error) => LaunchAction::Failed(error),
            },
            (LaunchAction::SyncRegistry, LaunchEvent::Done) => LaunchAction::WritePreferences,
            (LaunchAction::WritePreferences, LaunchEvent::Done) => LaunchAction::Start,
            (LaunchAction::Start, LaunchEvent::Done) => match build.platform {
                Platform::Linux => LaunchAction::SpawnTray,
                _ => LaunchAction::Finished,
            },
            (LaunchAction::SpawnTray, LaunchEvent::Done) => LaunchAction::Finished,
            _ => action,
        }
    }

    fn identity_known(&self, build: Build) -> (r: LaunchAction)
        ensures
            r == after_identity(self@, build),
    {
        match build.platform {
            Platform::Linux => if self.has_target() {
                LaunchAction::OpenRuntime
            } else {
                LaunchAction::Contact
            },
            Platform::MacOs => if self.direct_launch {
                LaunchAction::OpenRuntime
            } else {
                LaunchAction::HandOver
            },
            Platform::Windows => LaunchAction::OpenRuntime,
        }
    }

    fn runtime_opened(&self, build: Build, storage: &Storage, installed: bool) -> (r: LaunchAction)
        requires
            storage@.sites.contains_key(self.id),
        ensures
            r == after_opening(storage@.sites[self.id], build, storage@, installed),
    {
        let profile: u128 = match storage.sites.get(&self.id) {
            Some(site) => site.profile,
            None => 0,
        };
        if !storage.profiles.contains_key(&profile) {
            LaunchAction::Failed(LaunchError::NoProfile)
        } else if !installed {
            LaunchAction::Failed(LaunchError::RuntimeNotInstalled)
        } else if build.platform == Platform::Linux && !build.immutable_runtime
            && storage.use_linked_runtime {
            LaunchAction::Compare
        } else {
            runtime_fits(build)
        }
    }
}

fn runtime_fits(build: Build) -> (r: LaunchAction)
    ensures
        r == after_runtime(build),
{
    if build.immutable_runtime {
        LaunchAction::PatchProfile
    } else {
        LaunchAction::PatchRuntime
    }
}

} // verus!
