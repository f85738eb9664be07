//! What installing, uninstalling and updating are for: which steps a command leads through, what it
//! puts into the settings, and what the storage is afterwards.

use vstd::prelude::*;

use crate::install::{
    document_of, home_of, install_message, install_next, new_config, plain_launch, profile_of,
    InstallAction, InstallError, InstallEventModel, InstallModel,
};
use crate::launch::{arguments_of, has_target};
use crate::link::{scheme_of, url_joined};
use crate::storage::{ConfigModel, HandlerModel, SiteModel, StorageModel};
use crate::storage_laws::{install_after, lemma_without, uninstall_after, update_after};
use crate::text::{law_trimming_takes_the_padding, white_space};
use crate::uninstall::{
    is_consent, uninstall_next, without, SiteUninstallCommand, UninstallAction, UninstallError,
    UninstallEventModel,
};
use crate::update::{
    integration_of, update_next, updated, UpdateAction, UpdateEventModel, UpdateModel,
};

verus! {

/// Every setting of a new web app is the one that the command gives; the page and the identifier for
/// the browser are those handed in; and what a command cannot give is empty.
pub proof fn law_the_settings_of_a_new_app(command: InstallModel, page: Seq<char>, id: u128)
    ensures
        ({
            let config = new_config(command, page, id);
            &&& config.name == command.name
            &&& config.description == command.description
            &&& config.categories == command.categories
            &&& config.keywords == command.keywords
            &&& config.document_url == page
            &&& config.manifest_url == command.manifest_url
            &&& config.start_url == command.start_url
            &&& config.icon_url == command.icon_url
            &&& config.launch_on_login <==> command.launch_on_login == Some(true)
            &&& config.launch_on_browser <==> command.launch_on_browser == Some(true)
            &&& config.webapp_id == Some(id)
            &&& config.hardware_webrtc == command.hardware_webrtc
            &&& config.software_rendering == command.software_rendering
            &&& config.scheduling == command.scheduling
            &&& config.enabled_url_handlers.len() == 0
            &&& config.enabled_protocol_handlers.len() == 0
            &&& config.custom_protocol_handlers.len() == 0
            &&& config.allowed_domains.len() == 0
            &&& config.external_links is None
            &&& config.user_agent is None
            &&& !config.start_hidden
        }),
{
}

/// A web app goes to the profile that the command gives, or to the default one, and is fetched for
/// the identifier which that profile holds.
pub proof fn law_the_profile_of_a_new_app(command: InstallModel, storage: StorageModel)
    ensures
        command.profile is Some ==> profile_of(command) == command.profile->0,
        command.profile is None ==> profile_of(command) == 0,
        home_of(command, storage) is Some <==> storage.profiles.contains_key(profile_of(command)),
        home_of(command, storage) matches Some(id) ==> id == storage.profiles[profile_of(
            command,
        )].ulid,
{
}

/// The page of a web app is the one that the command gives, or else the directory of the manifest.
pub proof fn law_the_page_of_a_new_app(command: InstallModel)
    ensures
        command.document_url matches Some(url) ==> document_of(command) == Ok::<
            Seq<char>,
            Seq<char>,
        >(url),
        command.document_url is None ==> document_of(command) == url_joined(
            command.manifest_url,
            "."@,
        ),
{
}

/// An installation is refused at once just where the manifest is written into its URL and no page is
/// given; then just where there is no such profile; then just where no page is known. Nothing else
/// refuses it, whatever else the command asks for.
pub proof fn law_what_an_installation_is_refused_for(command: InstallModel, storage: StorageModel)
    ensures
        ({
            let (begun, kept) = install_next(
                command,
                storage,
                InstallAction::Begin,
                InstallEventModel::Done,
            );
            let pageless = command.document_url is None && scheme_of(command.manifest_url)
                == "data"@;
            &&& kept == storage
            &&& pageless ==> begun == InstallAction::Failed(InstallError::DocumentUrlRequired)
            &&& !pageless ==> begun == InstallAction::Load
        }),
        ({
            let (loaded, kept) = install_next(
                command,
                storage,
                InstallAction::Load,
                InstallEventModel::Done,
            );
            let profile = if command.profile is Some {
                command.profile->0
            } else {
                0
            };
            let known = command.document_url is Some || url_joined(command.manifest_url, "."@)
                is Ok;
            &&& kept == storage
            &&& !storage.profiles.contains_key(profile) ==> loaded == InstallAction::Failed(
                InstallError::NoProfile,
            )
            &&& storage.profiles.contains_key(profile) && !known ==> loaded
                == InstallAction::Failed(InstallError::DocumentUrlUnknown)
            &&& storage.profiles.contains_key(profile) && known ==> loaded
                == InstallAction::MakeClient
        }),
{
}

/// After the client is made the web app is fetched. The step after that is the desktop if and only
/// if the command asks for it, whatever else it asks for, and from there the web app is registered.
/// Once the storage is written the web app is launched if and only if the command asks for that.
pub proof fn law_the_steps_of_an_installation(command: InstallModel, storage: StorageModel)
    ensures
        ({
            let done = InstallEventModel::Done;
            let made = install_next(command, storage, InstallAction::MakeClient, done);
            let fetched = install_next(command, storage, InstallAction::Fetch, done);
            let integrated = install_next(command, storage, InstallAction::Integrate, done);
            let stored = install_next(command, storage, InstallAction::Store, done);
            let launched = install_next(command, storage, InstallAction::Launch, done);
            &&& made == (InstallAction::Fetch, storage)
            &&& fetched.0 == InstallAction::Integrate <==> command.system_integration
            &&& fetched.0 == InstallAction::Register <==> !command.system_integration
            &&& integrated == (InstallAction::Register, storage)
            &&& stored.0 == InstallAction::Launch <==> command.launch_now
            &&& stored.0 == InstallAction::Finished <==> !command.launch_now
            &&& launched == (InstallAction::Finished, storage)
            &&& fetched.1 == storage && stored.1 == storage
        }),
{
}

/// Over a whole installation, the desktop is told if and only if the command asks for it: one that
/// asks comes to registering, and to everything behind it, only through that step; one that does not
/// never comes to it. The same holds of launching and the end.
pub proof fn law_an_installation_does_what_it_is_asked(
    command: InstallModel,
    storage: StorageModel,
    events: Seq<InstallEventModel>,
)
    ensures
        ({
            let action = install_after(command, storage, events).0;
            let behind = action == InstallAction::Register || action == InstallAction::Store
                || action == InstallAction::Launch || action == InstallAction::Finished;
            &&& command.system_integration && behind ==> exists|i: int|
                0 <= i < events.len() && (#[trigger] install_after(
                    command,
                    storage,
                    events.take(i),
                )).0 == InstallAction::Integrate
            &&& !command.system_integration ==> action != InstallAction::Integrate
            &&& command.launch_now && action == InstallAction::Finished ==> exists|i: int|
                0 <= i < events.len() && (#[trigger] install_after(
                    command,
                    storage,
                    events.take(i),
                )).0 == InstallAction::Launch
            &&& !command.launch_now ==> action != InstallAction::Launch
        }),
    decreases events.len(),
{
    if events.len() > 0 {
        let shorter = events.drop_last();
        let last = events.len() - 1;
        law_an_installation_does_what_it_is_asked(command, storage, shorter);
        assert(events.take(last) =~= shorter);
        assert forall|i: int| 0 <= i < shorter.len() implies #[trigger] shorter.take(i)
            == events.take(i) by {
            assert(shorter.take(i) =~= events.take(i));
        }
        let before = install_after(command, storage, shorter).0;
        assert(install_after(command, storage, events.take(last)).0 == before);
        let action = install_after(command, storage, events).0;
        let behind = before == InstallAction::Register || before == InstallAction::Store || before
            == InstallAction::Launch || before == InstallAction::Finished;
        if command.system_integration && behind {
            let i = choose|i: int|
                0 <= i < shorter.len() && (#[trigger] install_after(
                    command,
                    storage,
                    shorter.take(i),
                )).0 == InstallAction::Integrate;
            assert(shorter.take(i) == events.take(i));
            assert(install_after(command, storage, events.take(i)).0 == InstallAction::Integrate);
        }
        if command.launch_now && before == InstallAction::Finished {
            let i = choose|i: int|
                0 <= i < shorter.len() && (#[trigger] install_after(
                    command,
                    storage,
                    shorter.take(i),
                )).0 == InstallAction::Launch;
            assert(shorter.take(i) == events.take(i));
            assert(install_after(command, storage, events.take(i)).0 == InstallAction::Launch);
        }
    }
}

/// Registering puts the web app under its own identifier and behind all others of its profile, and
/// changes nothing else; without the profile nothing is registered.
pub proof fn law_what_registering_changes(
    command: InstallModel,
    storage: StorageModel,
    site: SiteModel,
)
    ensures
        ({
            let (next, after) = install_next(
                command,
                storage,
                InstallAction::Register,
                InstallEventModel::Fetched(site),
            );
            let p = if command.profile is Some {
                command.profile->0
            } else {
                0
            };
            &&& !storage.profiles.contains_key(p) ==> (next, after) == (
                InstallAction::Failed(InstallError::NoProfile),
                storage,
            )
            &&& storage.profiles.contains_key(p) ==> {
                &&& next == InstallAction::Store
                &&& after.sites == storage.sites.insert(site.ulid, site)
                &&& after.profiles.dom() == storage.profiles.dom()
                &&& after.profiles[p].ulid == storage.profiles[p].ulid
                &&& after.profiles[p].sites == storage.profiles[p].sites.push(site.ulid)
                &&& after.profiles.remove(p) == storage.profiles.remove(p)
                &&& after.arguments == storage.arguments
                &&& after.variables == storage.variables
                &&& after.use_linked_runtime == storage.use_linked_runtime
            }
        }),
{
    let after = install_next(
        command,
        storage,
        InstallAction::Register,
        InstallEventModel::Fetched(site),
    ).1;
    let p = profile_of(command);
    if storage.profiles.contains_key(p) {
        assert(after.profiles.dom() =~= storage.profiles.dom());
        assert(after.profiles.remove(p) =~= storage.profiles.remove(p));
    }
}

/// A web app that was just installed is launched itself, visibly, without a target, with the
/// arguments that are kept.
pub proof fn law_the_installed_app_is_launched(id: u128, storage: StorageModel)
    ensures
        plain_launch(id).id == id,
        plain_launch(id).url.len() == 0,
        plain_launch(id).protocol is None,
        !plain_launch(id).hidden,
        !plain_launch(id).direct_launch,
        !has_target(plain_launch(id)),
        arguments_of(plain_launch(id), storage) == storage.arguments,
{
}

/// An event that does not answer a step of an installation changes nothing.
pub proof fn law_an_installation_waits_for_its_answer(
    command: InstallModel,
    storage: StorageModel,
    action: InstallAction,
    event: InstallEventModel,
)
    requires
        event is Done <==> action == InstallAction::Register,
    ensures
        install_next(command, storage, action, event) == (action, storage),
{
}

/// What is said of an installation that came to nothing; of an unknown page, what the URL parser
/// said.
pub proof fn law_what_is_said_of_an_installation(command: InstallModel, message: Seq<char>)
    ensures
        install_message(command, InstallError::DocumentUrlRequired)
            == "The document URL is required when the manifest URL is a data URL"@,
        install_message(command, InstallError::NoProfile) == "Profile does not exist"@,
        command.document_url is None && url_joined(command.manifest_url, "."@) == Err::<
            Seq<char>,
            Seq<char>,
        >(message) ==> install_message(command, InstallError::DocumentUrlUnknown) == message,
{
}

/// An answer is consent just where it is a `y` in either case, with white space around it or not.
pub proof fn law_consent_is_a_y(before: Seq<char>, text: Seq<char>, after: Seq<char>)
    requires
        forall|i: int| 0 <= i < before.len() ==> white_space(#[trigger] before[i]),
        forall|i: int| 0 <= i < after.len() ==> white_space(#[trigger] after[i]),
        text.len() > 0 ==> !white_space(text.first()) && !white_space(text.last()),
    ensures
        is_consent(before + text + after) <==> text == seq!['y'] || text == seq!['Y'],
{
    law_trimming_takes_the_padding(before, text, after);
    reveal_strlit("y");
    reveal_strlit("Y");
    assert("y"@ =~= seq!['y']);
    assert("Y"@ =~= seq!['Y']);
}

/// An uninstallation is refused at once just where there is no such web app; otherwise the user is
/// asked just where the command is not to be quiet.
pub proof fn law_how_an_uninstallation_begins(
    command: SiteUninstallCommand,
    storage: StorageModel,
)
    ensures
        ({
            let (next, after, _) = uninstall_next(
                command,
                storage,
                UninstallAction::Begin,
                UninstallEventModel::Done,
            );
            &&& next == UninstallAction::Failed(UninstallError::NoSuchApp)
                <==> !storage.sites.contains_key(command.id)
            &&& next == UninstallAction::Ask <==> storage.sites.contains_key(command.id)
                && !command.quiet
            &&& next == UninstallAction::Ask ==> after == storage
        }),
{
}

/// Without consent nothing is uninstalled, whatever the command asks for.
pub proof fn law_without_consent_all_stays(
    command: SiteUninstallCommand,
    storage: StorageModel,
    answer: Seq<char>,
)
    requires
        !is_consent(answer),
    ensures
        uninstall_next(
            command,
            storage,
            UninstallAction::Ask,
            UninstallEventModel::Answered(answer),
        ) == (UninstallAction::Aborted, storage, None::<SiteModel>),
{
}

/// A web app that is there, in a profile that is there, is taken out of both, whether the user was
/// asked or not: it is handed out as it was kept, its profile lists it no more and all others as
/// before, and nothing else changes. The next step is the desktop if and only if the command asks for
/// it, and the storage is written otherwise. Without the profile nothing changes.
pub proof fn law_what_uninstalling_changes(
    command: SiteUninstallCommand,
    storage: StorageModel,
    action: UninstallAction,
    event: UninstallEventModel,
)
    requires
        storage.sites.contains_key(command.id),
        ({
            ||| action == UninstallAction::Begin && event == UninstallEventModel::Done
                && command.quiet
            ||| action == UninstallAction::Ask && event is Answered && is_consent(
                event->Answered_0,
            )
        }),
    ensures
        ({
            let (next, after, site) = uninstall_next(command, storage, action, event);
            let p = storage.sites[command.id].profile;
            &&& !storage.profiles.contains_key(p) ==> (next, after, site) == (
                UninstallAction::Failed(UninstallError::InvalidProfile),
                storage,
                None::<SiteModel>,
            )
            &&& storage.profiles.contains_key(p) ==> {
                &&& next == UninstallAction::Disintegrate <==> command.system_integration
                &&& next == UninstallAction::Store <==> !command.system_integration
                &&& site == Some(storage.sites[command.id])
                &&& after.sites == storage.sites.remove(command.id)
                &&& after.profiles.dom() == storage.profiles.dom()
                &&& after.profiles.remove(p) == storage.profiles.remove(p)
                &&& after.profiles[p].ulid == storage.profiles[p].ulid
                &&& !after.profiles[p].sites.contains(command.id)
                &&& forall|other: u128|
                    other != command.id ==> (#[trigger] after.profiles[p].sites.contains(other)
                        <==> storage.profiles[p].sites.contains(other))
                &&& !storage.profiles[p].sites.contains(command.id) ==> after.profiles[p].sites
                    == storage.profiles[p].sites
                &&& after.arguments == storage.arguments
                &&& after.variables == storage.variables
                &&& after.use_linked_runtime == storage.use_linked_runtime
            }
        }),
{
    let after = uninstall_next(command, storage, action, event).1;
    let p = storage.sites[command.id].profile;
    lemma_without(storage.profiles[p].sites, command.id);
    if storage.profiles.contains_key(p) {
        assert(after.profiles.dom() =~= storage.profiles.dom());
        assert(after.profiles.remove(p) =~= storage.profiles.remove(p));
    }
}

/// Every entry of the web app leaves a list, however often it stands there, and every other entry
/// stays in its place.
pub proof fn law_every_entry_leaves_the_list(sites: Seq<u128>, site: u128, id: u128)
    ensures
        without(Seq::<u128>::empty(), id).len() == 0,
        site == id ==> without(sites.push(site), id) == without(sites, id),
        site != id ==> without(sites.push(site), id) == without(sites, id).push(site),
{
    reveal(Seq::filter);
    assert(sites.push(site).drop_last() =~= sites);
}

/// The list of a profile keeps its order: what stands before and behind the entry of the web app
/// closes up.
pub proof fn law_a_list_closes_up(
    command: SiteUninstallCommand,
    storage: StorageModel,
    before: Seq<u128>,
    behind: Seq<u128>,
)
    requires
        command.quiet,
        storage.sites.contains_key(command.id),
        storage.profiles.contains_key(storage.sites[command.id].profile),
        storage.profiles[storage.sites[command.id].profile].sites == before + seq![command.id]
            + behind,
        !before.contains(command.id),
        !behind.contains(command.id),
    ensures
        uninstall_next(
            command,
            storage,
            UninstallAction::Begin,
            UninstallEventModel::Done,
        ).1.profiles[storage.sites[command.id].profile].sites == before + behind,
{
    let id = command.id;
    lemma_without(before, id);
    lemma_without(behind, id);
    lemma_without(seq![], id);
    assert(seq![].push(id) =~= seq![id]);
    lemma_without_both(before, seq![id], id);
    lemma_without_both(before + seq![id], behind, id);
    assert(before + seq![] + behind =~= before + behind);
}

proof fn lemma_without_both(a: Seq<u128>, b: Seq<u128>, id: u128)
    ensures
        without(a + b, id) == without(a, id) + without(b, id),
    decreases b.len(),
{
    reveal(Seq::filter);
    if b.len() == 0 {
        assert(a + b =~= a);
        assert(without(b, id) =~= seq![]);
        assert(without(a, id) + seq![] =~= without(a, id));
    } else {
        lemma_without_both(a, b.drop_last(), id);
        assert((a + b).drop_last() =~= a + b.drop_last());
        assert((a + b).last() == b.last());
        assert(without(a + b, id) =~= without(a, id) + without(b, id));
    }
}

/// Once the desktop no longer knows the web app the storage is written, and then all is done; and an
/// event that does not answer a step changes nothing.
pub proof fn law_how_an_uninstallation_ends(
    command: SiteUninstallCommand,
    storage: StorageModel,
    action: UninstallAction,
    event: UninstallEventModel,
)
    ensures
        uninstall_next(command, storage, UninstallAction::Disintegrate, UninstallEventModel::Done)
            == (UninstallAction::Store, storage, None::<SiteModel>),
        uninstall_next(command, storage, UninstallAction::Store, UninstallEventModel::Done) == (
            UninstallAction::Finished,
            storage,
            None::<SiteModel>,
        ),
        (event is Answered <==> action != UninstallAction::Ask) ==> uninstall_next(
            command,
            storage,
            action,
            event,
        ) == (action, storage, None::<SiteModel>),
{
}

/// Over a whole uninstallation, the web app is taken from the desktop if and only if the command
/// asks for it: one that asks comes to writing the storage, and to the end, only through that step,
/// and one that does not never comes to it.
pub proof fn law_an_uninstallation_does_what_it_is_asked(
    command: SiteUninstallCommand,
    storage: StorageModel,
    events: Seq<UninstallEventModel>,
)
    ensures
        ({
            let action = uninstall_after(command, storage, events).0;
            &&& command.system_integration && (action == UninstallAction::Store || action
                == UninstallAction::Finished) ==> exists|i: int|
                0 <= i < events.len() && (#[trigger] uninstall_after(
                    command,
                    storage,
                    events.take(i),
                )).0 == UninstallAction::Disintegrate
            &&& !command.system_integration ==> action != UninstallAction::Disintegrate
            &&& command.quiet ==> action != UninstallAction::Ask && action
                != UninstallAction::Aborted
        }),
    decreases events.len(),
{
    if events.len() > 0 {
        let shorter = events.drop_last();
        let last = events.len() - 1;
        law_an_uninstallation_does_what_it_is_asked(command, storage, shorter);
        assert(events.take(last) =~= shorter);
        let before = uninstall_after(command, storage, shorter).0;
        assert(uninstall_after(command, storage, events.take(last)).0 == before);
        if command.system_integration && (before == UninstallAction::Store || before
            == UninstallAction::Finished) {
            let i = choose|i: int|
                0 <= i < shorter.len() && (#[trigger] uninstall_after(
                    command,
                    storage,
                    shorter.take(i),
                )).0 == UninstallAction::Disintegrate;
            assert(shorter.take(i) =~= events.take(i));
            assert(uninstall_after(command, storage, events.take(i)).0
                == UninstallAction::Disintegrate);
        }
    }
}

/// Setting by setting: what an update gives is the setting afterwards, also where it gives a setting
/// as missing.
pub proof fn law_what_is_given_is_set(command: UpdateModel, config: ConfigModel)
    ensures
        ({
            let after = updated(command, config);
            &&& command.name matches Some(v) ==> after.name == v
            &&& command.description matches Some(v) ==> after.description == v
            &&& command.start_url matches Some(v) ==> after.start_url == v
            &&& command.icon_url matches Some(v) ==> after.icon_url == v
            &&& command.categories matches Some(v) ==> after.categories == v
            &&& command.keywords matches Some(v) ==> after.keywords == v
            &&& command.enabled_url_handlers matches Some(v) ==> after.enabled_url_handlers == v
            &&& command.enabled_protocol_handlers matches Some(v)
                ==> after.enabled_protocol_handlers == v
            &&& command.launch_on_login matches Some(v) ==> after.launch_on_login == v
            &&& command.launch_on_browser matches Some(v) ==> after.launch_on_browser == v
            &&& command.hardware_webrtc matches Some(v) ==> after.hardware_webrtc == v
            &&& command.software_rendering matches Some(v) ==> after.software_rendering == v
            &&& command.scheduling matches Some(v) ==> after.scheduling == v
            &&& command.user_agent matches Some(v) ==> after.user_agent == v
            &&& command.start_hidden matches Some(v) ==> after.start_hidden == v
        }),
{
}

/// Setting by setting: what an update does not give stays what it was, and so does what no update can
/// give.
pub proof fn law_what_is_not_given_stays(command: UpdateModel, config: ConfigModel)
    ensures
        ({
            let after = updated(command, config);
            &&& command.name is None ==> after.name == config.name
            &&& command.description is None ==> after.description == config.description
            &&& command.start_url is None ==> after.start_url == config.start_url
            &&& command.icon_url is None ==> after.icon_url == config.icon_url
            &&& command.categories is None ==> after.categories == config.categories
            &&& command.keywords is None ==> after.keywords == config.keywords
            &&& command.enabled_url_handlers is None ==> after.enabled_url_handlers
                == config.enabled_url_handlers
            &&& command.enabled_protocol_handlers is None ==> after.enabled_protocol_handlers
                == config.enabled_protocol_handlers
            &&& command.launch_on_login is None ==> after.launch_on_login == config.launch_on_login
            &&& command.launch_on_browser is None ==> after.launch_on_browser
                == config.launch_on_browser
            &&& command.hardware_webrtc is None ==> after.hardware_webrtc == config.hardware_webrtc
            &&& command.software_rendering is None ==> after.software_rendering
                == config.software_rendering
            &&& command.scheduling is None ==> after.scheduling == config.scheduling
            &&& command.user_agent is None ==> after.user_agent == config.user_agent
            &&& command.start_hidden is None ==> after.start_hidden == config.start_hidden
            &&& after.document_url == config.document_url
            &&& after.manifest_url == config.manifest_url
            &&& after.custom_protocol_handlers == config.custom_protocol_handlers
            &&& after.webapp_id == config.webapp_id
            &&& after.external_links == config.external_links
            &&& after.allowed_domains == config.allowed_domains
        }),
{
}

/// A later update has the last word, and what only the earlier one gives stays given.
pub proof fn law_the_later_update_counts(
    first: UpdateModel,
    second: UpdateModel,
    config: ConfigModel,
)
    ensures
        ({
            let after = updated(second, updated(first, config));
            &&& second.name matches Some(v) ==> after.name == v
            &&& second.name is None && first.name is Some ==> after.name == first.name->0
            &&& second.scheduling matches Some(v) ==> after.scheduling == v
            &&& second.scheduling is None && first.scheduling is Some ==> after.scheduling
                == first.scheduling->0
        }),
{
    law_what_is_given_is_set(second, updated(first, config));
    law_what_is_not_given_stays(second, updated(first, config));
    law_what_is_given_is_set(first, config);
}

/// An update of a web app that is there puts the new settings in place and hands out what was kept;
/// of one that is not, it comes to nothing. Nothing but the settings changes.
pub proof fn law_how_an_update_begins(command: UpdateModel, storage: StorageModel)
    ensures
        ({
            let (next, after, kept) = update_next(
                command,
                storage,
                UpdateAction::Begin,
                UpdateEventModel::Done,
            );
            let site = storage.sites[command.id];
            &&& !storage.sites.contains_key(command.id) ==> (next, after, kept) == (
                UpdateAction::NoSuchApp,
                storage,
                None::<SiteModel>,
            )
            &&& storage.sites.contains_key(command.id) ==> {
                &&& next == UpdateAction::MakeClient
                &&& kept == Some(site)
                &&& after.sites.dom() == storage.sites.dom()
                &&& after.sites.remove(command.id) == storage.sites.remove(command.id)
                &&& after.sites[command.id].config == updated(command, site.config)
                &&& after.sites[command.id].ulid == site.ulid
                &&& after.sites[command.id].profile == site.profile
                &&& after.sites[command.id].handlers == site.handlers
                &&& after.profiles == storage.profiles
                &&& after.arguments == storage.arguments
                &&& after.variables == storage.variables
                &&& after.use_linked_runtime == storage.use_linked_runtime
            }
        }),
{
    let after = update_next(command, storage, UpdateAction::Begin, UpdateEventModel::Done).1;
    if storage.sites.contains_key(command.id) {
        assert(after.sites.dom() =~= storage.sites.dom());
        assert(after.sites.remove(command.id) =~= storage.sites.remove(command.id));
    }
}

/// After the client is made the manifest is fetched if and only if the command asks for it. After
/// that, or without it, the desktop is next if and only if the command asks for that; then the
/// storage is written, and all is done. None of this changes the storage.
pub proof fn law_the_steps_of_an_update(command: UpdateModel, storage: StorageModel)
    ensures
        ({
            let done = UpdateEventModel::Done;
            let made = update_next(command, storage, UpdateAction::MakeClient, done);
            let integrated = update_next(command, storage, UpdateAction::Integrate, done);
            let stored = update_next(command, storage, UpdateAction::Store, done);
            &&& made.0 == UpdateAction::Fetch <==> command.update_manifest
            &&& made.0 == UpdateAction::Integrate <==> !command.update_manifest
                && command.system_integration
            &&& made.0 == UpdateAction::Store <==> !command.update_manifest
                && !command.system_integration
            &&& integrated.0 == UpdateAction::Store
            &&& stored.0 == UpdateAction::Finished
            &&& made.1 == storage && integrated.1 == storage && stored.1 == storage
        }),
{
}

/// A manifest that was fetched gives the web app its handlers and changes nothing else; then the
/// desktop is next if and only if the command asks for it.
pub proof fn law_what_a_manifest_changes(
    command: UpdateModel,
    storage: StorageModel,
    handlers: Seq<HandlerModel>,
)
    ensures
        ({
            let (next, after, _) = update_next(
                command,
                storage,
                UpdateAction::Fetch,
                UpdateEventModel::Fetched(handlers),
            );
            let site = storage.sites[command.id];
            &&& !storage.sites.contains_key(command.id) ==> (next, after) == (
                UpdateAction::NoSuchApp,
                storage,
            )
            &&& storage.sites.contains_key(command.id) ==> {
                &&& next == UpdateAction::Integrate <==> command.system_integration
                &&& next == UpdateAction::Store <==> !command.system_integration
                &&& after.sites.remove(command.id) == storage.sites.remove(command.id)
                &&& after.sites.contains_key(command.id)
                &&& after.sites[command.id].handlers == handlers
                &&& after.sites[command.id].config == site.config
                &&& after.sites[command.id].ulid == site.ulid
                &&& after.sites[command.id].profile == site.profile
                &&& after.profiles == storage.profiles
                &&& after.arguments == storage.arguments
                &&& after.variables == storage.variables
                &&& after.use_linked_runtime == storage.use_linked_runtime
            }
        }),
{
    let after = update_next(
        command,
        storage,
        UpdateAction::Fetch,
        UpdateEventModel::Fetched(handlers),
    ).1;
    if storage.sites.contains_key(command.id) {
        assert(after.sites.remove(command.id) =~= storage.sites.remove(command.id));
    }
}

/// An event that does not answer a step of an update changes nothing.
pub proof fn law_an_update_waits_for_its_answer(
    command: UpdateModel,
    storage: StorageModel,
    action: UpdateAction,
    event: UpdateEventModel,
)
    requires
        event is Done <==> action == UpdateAction::Fetch,
    ensures
        update_next(command, storage, action, event) == (action, storage, None::<SiteModel>),
{
}

/// Over a whole update, the desktop is told if and only if the command asks for it, and the manifest
/// is fetched if and only if it asks for that: one that asks comes to writing the storage, and to the
/// end, only through those steps, and one that does not never comes to them.
pub proof fn law_an_update_does_what_it_is_asked(
    command: UpdateModel,
    storage: StorageModel,
    events: Seq<UpdateEventModel>,
)
    ensures
        ({
            let action = update_after(command, storage, events).0;
            let behind = action == UpdateAction::Store || action == UpdateAction::Finished;
            &&& command.system_integration && behind ==> exists|i: int|
                0 <= i < events.len() && (#[trigger] update_after(
                    command,
                    storage,
                    events.take(i),
                )).0 == UpdateAction::Integrate
            &&& command.update_manifest && (behind || action == UpdateAction::Integrate)
                ==> exists|i: int|
                0 <= i < events.len() && (#[trigger] update_after(
                    command,
                    storage,
                    events.take(i),
                )).0 == UpdateAction::Fetch
            &&& !command.system_integration ==> action != UpdateAction::Integrate
            &&& !command.update_manifest ==> action != UpdateAction::Fetch
        }),
    decreases events.len(),
{
    if events.len() > 0 {
        let shorter = events.drop_last();
        let last = events.len() - 1;
        law_an_update_does_what_it_is_asked(command, storage, shorter);
        assert(events.take(last) =~= shorter);
        let before = update_after(command, storage, shorter).0;
        assert(update_after(command, storage, events.take(last)).0 == before);
        let behind = before == UpdateAction::Store || before == UpdateAction::Finished;
        if command.system_integration && behind {
            let i = choose|i: int|
                0 <= i < shorter.len() && (#[trigger] update_after(
                    command,
                    storage,
                    shorter.take(i),
                )).0 == UpdateAction::Integrate;
            assert(shorter.take(i) =~= events.take(i));
            assert(update_after(command, storage, events.take(i)).0 == UpdateAction::Integrate);
        }
        if command.update_manifest && (behind || before == UpdateAction::Integrate) {
            let i = choose|i: int|
                0 <= i < shorter.len() && (#[trigger] update_after(
                    command,
                    storage,
                    shorter.take(i),
                )).0 == UpdateAction::Fetch;
            assert(shorter.take(i) =~= events.take(i));
            assert(update_after(command, storage, events.take(i)).0 == UpdateAction::Fetch);
        }
    }
}

/// The desktop is told just what the command asks for, and the name that it knew the web app by.
pub proof fn law_what_the_desktop_is_told(command: UpdateModel, old_name: Seq<char>)
    ensures
        integration_of(command, old_name).update_manifest == command.update_manifest,
        integration_of(command, old_name).update_icons == command.update_icons,
        integration_of(command, old_name).old_name == Some(old_name),
{
}

} // verus!
