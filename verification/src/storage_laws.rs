//! What holds of the storage, whatever is installed, updated or uninstalled.

use vstd::prelude::*;

use crate::install::{
    install_next, lacks_document, profile_of, registered, InstallAction, InstallError,
    InstallEventModel, InstallModel,
};
use crate::launch::{
    identified, launch_next, Build, LaunchAction, LaunchError, LaunchEventModel, LaunchModel,
};
use crate::storage::{ConfigModel, HandlerModel, SiteModel, StorageModel};
use crate::uninstall::{
    is_consent, removal, removed, uninstall_next, without, SiteUninstallCommand, UninstallAction,
    UninstallError, UninstallEventModel,
};
use crate::update::{update_next, updated, UpdateAction, UpdateEventModel, UpdateModel};

verus! {

/// A list without a web app holds just the others, each as often as before, in the same order.
pub(crate) proof fn lemma_without(sites: Seq<u128>, id: u128)
    ensures
        !without(sites, id).contains(id),
        forall|other: u128|
            other != id ==> (#[trigger] without(sites, id).contains(other) <==> sites.contains(
                other,
            )),
        sites.no_duplicates() ==> without(sites, id).no_duplicates(),
        !sites.contains(id) ==> without(sites, id) == sites,
        without(sites.push(id), id) == without(sites, id),
    decreases sites.len(),
{
    reveal(Seq::filter);
    assert(sites.push(id).drop_last() =~= sites);
    if sites.len() > 0 {
        let shorter = sites.drop_last();
        let last = sites.last();
        lemma_without(shorter, id);
        assert(sites =~= shorter.push(last));
        assert forall|other: u128| sites.contains(other) <==> shorter.contains(other) || other
            == last by {
            if sites.contains(other) {
                let i = choose|i: int| 0 <= i < sites.len() && sites[i] == other;
                if i < shorter.len() {
                    assert(shorter[i] == other);
                }
            }
            if shorter.contains(other) {
                let i = choose|i: int| 0 <= i < shorter.len() && shorter[i] == other;
                assert(sites[i] == other);
            }
            if other == last {
                assert(sites[sites.len() - 1] == other);
            }
        }
        let rest = without(shorter, id);
        if last != id {
            assert(without(sites, id) == rest.push(last));
            assert forall|other: u128| rest.push(last).contains(other) <==> rest.contains(other)
                || other == last by {
                if rest.push(last).contains(other) {
                    let i = choose|i: int|
                        0 <= i < rest.push(last).len() && rest.push(last)[i] == other;
                    if i < rest.len() {
                        assert(rest[i] == other);
                    }
                }
                if rest.contains(other) {
                    let i = choose|i: int| 0 <= i < rest.len() && rest[i] == other;
                    assert(rest.push(last)[i] == other);
                }
                if other == last {
                    assert(rest.push(last)[rest.len() as int] == other);
                }
            }
            if sites.no_duplicates() {
                assert(shorter.no_duplicates());
                assert(!shorter.contains(last)) by {
                    if shorter.contains(last) {
                        let i = choose|i: int| 0 <= i < shorter.len() && shorter[i] == last;
                        assert(sites[i] == sites[sites.len() - 1]);
                    }
                }
                assert forall|i: int, j: int|
                    0 <= i < rest.push(last).len() && 0 <= j < rest.push(last).len() && i
                        != j implies rest.push(last)[i] != rest.push(last)[j] by {
                    if i < rest.len() {
                        assert(rest.contains(rest[i]));
                    }
                    if j < rest.len() {
                        assert(rest.contains(rest[j]));
                    }
                }
            }
        } else {
            assert(without(sites, id) == rest);
            if sites.no_duplicates() {
                assert(shorter.no_duplicates());
            }
        }
        assert forall|other: u128| other != id implies (#[trigger] without(sites, id).contains(other)
            <==> sites.contains(other)) by {
            assert(rest.contains(other) <==> shorter.contains(other));
        }
    }
}

/// Every step of an installation keeps the storage consistent, provided that the web app that was
/// fetched is a new one and belongs to the profile it is installed in.
pub proof fn law_installing_keeps_the_storage_consistent(
    command: InstallModel,
    storage: StorageModel,
    action: InstallAction,
    event: InstallEventModel,
)
    requires
        storage.consistent(),
        event matches InstallEventModel::Fetched(site) ==> !storage.sites.contains_key(site.ulid)
            && site.profile == profile_of(command),
    ensures
        install_next(command, storage, action, event).1.consistent(),
{
    let after = install_next(command, storage, action, event).1;
    if after != storage {
        let site = event->Fetched_0;
        let p = profile_of(command);
        let before = storage.profiles[p].sites;
        assert(after == registered(storage, p, site));
        assert(after.profiles[p].sites == before.push(site.ulid));
        assert forall|i: int| 0 <= i < before.len() implies before[i] != site.ulid by {
            assert(storage.sites.contains_key(storage.profiles[p].sites[i]));
        }
        assert(after.profiles[p].sites.no_duplicates());
        assert forall|q: u128, i: int|
            #![trigger after.profiles[q].sites[i]]
            after.profiles.contains_key(q) && 0 <= i < after.profiles[q].sites.len() implies {
            &&& after.sites.contains_key(after.profiles[q].sites[i])
            &&& after.sites[after.profiles[q].sites[i]].profile == q
        } by {
            if i < storage.profiles[q].sites.len() {
                assert(storage.sites.contains_key(storage.profiles[q].sites[i]));
            }
        }
        assert forall|s: u128| #[trigger] after.sites.contains_key(s) implies {
            &&& after.sites[s].ulid == s
            &&& after.profiles.contains_key(after.sites[s].profile)
            &&& after.profiles[after.sites[s].profile].sites.contains(s)
        } by {
            if s == site.ulid {
                assert(after.profiles[p].sites[before.len() as int] == s);
            } else {
                assert(storage.sites.contains_key(s));
                if storage.sites[s].profile == p {
                    let i = choose|i: int| 0 <= i < before.len() && before[i] == s;
                    assert(after.profiles[p].sites[i] == s);
                }
            }
        }
    }
}

/// Every step of an uninstallation keeps the storage consistent.
pub proof fn law_uninstalling_keeps_the_storage_consistent(
    command: SiteUninstallCommand,
    storage: StorageModel,
    action: UninstallAction,
    event: UninstallEventModel,
)
    requires
        storage.consistent(),
    ensures
        uninstall_next(command, storage, action, event).1.consistent(),
{
    let after = uninstall_next(command, storage, action, event).1;
    if after != storage {
        let id = command.id;
        let p = storage.sites[id].profile;
        let before = storage.profiles[p].sites;
        assert(after == removed(storage, id));
        lemma_without(before, id);
        assert(after.profiles[p].sites == without(before, id));
        assert forall|q: u128, i: int|
            #![trigger after.profiles[q].sites[i]]
            after.profiles.contains_key(q) && 0 <= i < after.profiles[q].sites.len() implies {
            &&& after.sites.contains_key(after.profiles[q].sites[i])
            &&& after.sites[after.profiles[q].sites[i]].profile == q
        } by {
            let s = after.profiles[q].sites[i];
            if q == p {
                assert(without(before, id).contains(s));
                let j = choose|j: int| 0 <= j < before.len() && before[j] == s;
                assert(storage.sites.contains_key(storage.profiles[p].sites[j]));
            } else {
                assert(storage.sites.contains_key(storage.profiles[q].sites[i]));
                assert(s != id);
            }
        }
        assert forall|s: u128| #[trigger] after.sites.contains_key(s) implies {
            &&& after.sites[s].ulid == s
            &&& after.profiles.contains_key(after.sites[s].profile)
            &&& after.profiles[after.sites[s].profile].sites.contains(s)
        } by {
            assert(storage.sites.contains_key(s));
        }
    }
}

/// A web app in place of another with the same identifier, in the same profile, keeps the storage
/// consistent.
proof fn lemma_exchange_is_consistent(storage: StorageModel, id: u128, site: SiteModel)
    requires
        storage.consistent(),
        storage.sites.contains_key(id),
        site.ulid == storage.sites[id].ulid,
        site.profile == storage.sites[id].profile,
    ensures
        storage.with_site(id, site).consistent(),
{
    let after = storage.with_site(id, site);
    assert forall|q: u128, i: int|
        #![trigger after.profiles[q].sites[i]]
        after.profiles.contains_key(q) && 0 <= i < after.profiles[q].sites.len() implies {
        &&& after.sites.contains_key(after.profiles[q].sites[i])
        &&& after.sites[after.profiles[q].sites[i]].profile == q
    } by {
        assert(storage.sites.contains_key(storage.profiles[q].sites[i]));
    }
    assert forall|s: u128| #[trigger] after.sites.contains_key(s) implies {
        &&& after.sites[s].ulid == s
        &&& after.profiles.contains_key(after.sites[s].profile)
        &&& after.profiles[after.sites[s].profile].sites.contains(s)
    } by {
        assert(storage.sites.contains_key(s));
    }
}

/// Every step of an update keeps the storage consistent.
pub proof fn law_updating_keeps_the_storage_consistent(
    command: UpdateModel,
    storage: StorageModel,
    action: UpdateAction,
    event: UpdateEventModel,
)
    requires
        storage.consistent(),
    ensures
        update_next(command, storage, action, event).1.consistent(),
{
    let after = update_next(command, storage, action, event).1;
    if storage.sites.contains_key(command.id) && after != storage {
        lemma_exchange_is_consistent(storage, command.id, after.sites[command.id]);
    }
}

/// A web app that is given an identifier for the browser keeps the storage consistent.
pub proof fn law_identifying_keeps_the_storage_consistent(
    storage: StorageModel,
    id: u128,
    fresh: u128,
)
    requires
        storage.consistent(),
        storage.sites.contains_key(id),
    ensures
        storage.with_site(id, identified(storage.sites[id], fresh)).consistent(),
{
    lemma_exchange_is_consistent(storage, id, identified(storage.sites[id], fresh));
}

/// Uninstalling a web app that has just been installed leaves the storage as it was before, whether
/// the user was asked or not.
pub proof fn law_uninstalling_undoes_installing(
    install: InstallModel,
    uninstall: SiteUninstallCommand,
    storage: StorageModel,
    site: SiteModel,
    answer: Seq<char>,
)
    requires
        storage.profiles.contains_key(profile_of(install)),
        !storage.profiles[profile_of(install)].sites.contains(site.ulid),
        !storage.sites.contains_key(site.ulid),
        site.profile == profile_of(install),
        uninstall.id == site.ulid,
        is_consent(answer),
    ensures
        ({
            let installed = install_next(
                install,
                storage,
                InstallAction::Register,
                InstallEventModel::Fetched(site),
            ).1;
            let uninstalled = if uninstall.quiet {
                uninstall_next(
                    uninstall,
                    installed,
                    UninstallAction::Begin,
                    UninstallEventModel::Done,
                )
            } else {
                uninstall_next(
                    uninstall,
                    installed,
                    UninstallAction::Ask,
                    UninstallEventModel::Answered(answer),
                )
            };
            &&& installed.sites.contains_key(site.ulid)
            &&& uninstalled.1 == storage
            &&& uninstalled.2 == Some(site)
        }),
{
    let p = profile_of(install);
    let installed = registered(storage, p, site);
    let before = storage.profiles[p].sites;
    lemma_without(before, site.ulid);
    let uninstalled = removed(installed, site.ulid);
    assert(uninstalled.profiles[p] == storage.profiles[p]);
    assert(uninstalled.profiles =~= storage.profiles);
    assert(uninstalled.sites =~= storage.sites);
}

/// A web app is taken out of the storage only where the user did not want to be asked, or has
/// agreed.
pub proof fn law_nothing_is_uninstalled_without_consent(
    command: SiteUninstallCommand,
    storage: StorageModel,
    action: UninstallAction,
    event: UninstallEventModel,
)
    requires
        uninstall_next(command, storage, action, event).1 != storage,
    ensures
        ({
            ||| action == UninstallAction::Begin && command.quiet
            ||| action == UninstallAction::Ask && (event matches UninstallEventModel::Answered(
                answer,
            ) && is_consent(answer))
        }),
{
}

/// An uninstallation that is refused or called off has changed nothing.
pub proof fn law_a_refused_uninstallation_changes_nothing(
    command: SiteUninstallCommand,
    storage: StorageModel,
    action: UninstallAction,
    event: UninstallEventModel,
)
    requires
        ({
            let next = uninstall_next(command, storage, action, event).0;
            next == UninstallAction::Aborted || next is Failed
        }),
    ensures
        uninstall_next(command, storage, action, event).1 == storage,
        uninstall_next(command, storage, action, event).2 is None,
{
}

/// An uninstallation leaves the other web apps, the other profiles, and everything else in the
/// storage as they are.
pub proof fn law_uninstalling_touches_one_app(
    command: SiteUninstallCommand,
    storage: StorageModel,
    action: UninstallAction,
    event: UninstallEventModel,
)
    ensures
        ({
            let after = uninstall_next(command, storage, action, event).1;
            &&& after.arguments == storage.arguments
            &&& after.variables == storage.variables
            &&& after.use_linked_runtime == storage.use_linked_runtime
            &&& after.sites.remove(command.id) == storage.sites.remove(command.id)
            &&& after.profiles.dom() == storage.profiles.dom()
            &&& forall|p: u128| #[trigger]
                storage.profiles.contains_key(p) && p != storage.sites[command.id].profile
                    ==> after.profiles[p] == storage.profiles[p]
            &&& forall|p: u128, other: u128|
                storage.profiles.contains_key(p) && other != command.id ==> (
                #[trigger] after.profiles[p].sites.contains(other)
                    <==> storage.profiles[p].sites.contains(other))
        }),
{
    let after = uninstall_next(command, storage, action, event).1;
    assert(after.sites.remove(command.id) =~= storage.sites.remove(command.id));
    assert(after.profiles.dom() =~= storage.profiles.dom());
    if after != storage {
        lemma_without(storage.profiles[storage.sites[command.id].profile].sites, command.id);
    }
}

/// Once a web app is uninstalled, no profile lists it, and it can be neither launched, updated nor
/// uninstalled again.
pub proof fn law_an_uninstalled_app_is_gone(
    command: SiteUninstallCommand,
    storage: StorageModel,
    launch: LaunchModel,
    build: Build,
    update: UpdateModel,
)
    requires
        storage.consistent(),
        storage.sites.contains_key(command.id),
        launch.id == command.id,
        update.id == command.id,
    ensures
        ({
            let after = removal(command, storage).1;
            &&& !after.sites.contains_key(command.id)
            &&& forall|p: u128|
                after.profiles.contains_key(p) ==> !(
                #[trigger] after.profiles[p].sites.contains(command.id))
            &&& launch_next(launch, build, after, LaunchAction::Begin, LaunchEventModel::Done)
                == LaunchAction::Failed(LaunchError::NoSuchApp)
            &&& update_next(update, after, UpdateAction::Begin, UpdateEventModel::Done).0
                == UpdateAction::NoSuchApp
            &&& uninstall_next(command, after, UninstallAction::Begin, UninstallEventModel::Done).0
                == UninstallAction::Failed(UninstallError::NoSuchApp)
        }),
{
    let after = removal(command, storage).1;
    let home = storage.sites[command.id].profile;
    lemma_without(storage.profiles[home].sites, command.id);
    assert forall|p: u128| after.profiles.contains_key(p) implies !(
    #[trigger] after.profiles[p].sites.contains(command.id)) by {
        if p != home && after.profiles[p].sites.contains(command.id) {
            let sites = storage.profiles[p].sites;
            let i = choose|i: int| 0 <= i < sites.len() && sites[i] == command.id;
            assert(storage.sites[storage.profiles[p].sites[i]].profile == p);
        }
    }
}

/// An installation changes the storage in one step only, and there only by adding: every web app
/// that was there before, but for one of the same identifier, is kept as it is.
pub proof fn law_installing_only_adds(
    command: InstallModel,
    storage: StorageModel,
    action: InstallAction,
    event: InstallEventModel,
)
    ensures
        ({
            let after = install_next(command, storage, action, event).1;
            &&& after != storage ==> action == InstallAction::Register && event is Fetched
            &&& forall|id: u128| #[trigger]
                storage.sites.contains_key(id) && (event matches InstallEventModel::Fetched(site)
                    ==> site.ulid != id) ==> after.sites.contains_key(id) && after.sites[id]
                    == storage.sites[id]
            &&& forall|p: u128| #[trigger]
                storage.profiles.contains_key(p) ==> after.profiles.contains_key(p)
                    && after.profiles[p].ulid == storage.profiles[p].ulid
                    && storage.profiles[p].sites.is_prefix_of(after.profiles[p].sites)
        }),
{
    let after = install_next(command, storage, action, event).1;
    assert forall|p: u128| #[trigger] storage.profiles.contains_key(
        p,
    ) implies after.profiles.contains_key(p) && after.profiles[p].ulid == storage.profiles[p].ulid
        && storage.profiles[p].sites.is_prefix_of(after.profiles[p].sites) by {
        let sites = storage.profiles[p].sites;
        assert(after.profiles[p].sites.subrange(0, sites.len() as int) =~= sites);
    }
}

/// A manifest that is written into its URL needs a page: without one the installation comes to
/// nothing before anything is read.
pub proof fn law_a_data_manifest_needs_a_page(command: InstallModel, storage: StorageModel)
    requires
        lacks_document(command),
    ensures
        install_next(command, storage, InstallAction::Begin, InstallEventModel::Done) == (
            InstallAction::Failed(InstallError::DocumentUrlRequired),
            storage,
        ),
{
}

/// An installation that has come to nothing stays so, and so does one that is done.
pub proof fn law_an_installation_ends(
    command: InstallModel,
    storage: StorageModel,
    action: InstallAction,
    event: InstallEventModel,
)
    requires
        action == InstallAction::Finished || action is Failed,
    ensures
        install_next(command, storage, action, event) == (action, storage),
{
}

/// An uninstallation that has come to nothing or was called off stays so, and so does one that is
/// done.
pub proof fn law_an_uninstallation_ends(
    command: SiteUninstallCommand,
    storage: StorageModel,
    action: UninstallAction,
    event: UninstallEventModel,
)
    requires
        action == UninstallAction::Finished || action == UninstallAction::Aborted || action
            is Failed,
    ensures
        uninstall_next(command, storage, action, event) == (action, storage, None::<SiteModel>),
{
}

/// An update that has come to nothing stays so, and so does one that is done.
pub proof fn law_an_update_ends(
    command: UpdateModel,
    storage: StorageModel,
    action: UpdateAction,
    event: UpdateEventModel,
)
    requires
        action == UpdateAction::Finished || action == UpdateAction::NoSuchApp,
    ensures
        update_next(command, storage, action, event) == (action, storage, None::<SiteModel>),
{
}

/// A command that gives no setting.
pub open spec fn gives_nothing(command: UpdateModel) -> bool {
    &&& command.name is None
    &&& command.description is None
    &&& command.start_url is None
    &&& command.icon_url is None
    &&& command.categories is None
    &&& command.keywords is None
    &&& command.enabled_url_handlers is None
    &&& command.enabled_protocol_handlers is None
    &&& command.launch_on_login is None
    &&& command.launch_on_browser is None
    &&& command.hardware_webrtc is None
    &&& command.software_rendering is None
    &&& command.scheduling is None
    &&& command.user_agent is None
    &&& command.start_hidden is None
}

/// An update that gives no setting and fetches nothing leaves the storage as it is.
pub proof fn law_an_empty_update_changes_nothing(
    command: UpdateModel,
    storage: StorageModel,
    action: UpdateAction,
    event: UpdateEventModel,
)
    requires
        gives_nothing(command),
        event == UpdateEventModel::Done,
    ensures
        update_next(command, storage, action, event).1 == storage,
{
    let after = update_next(command, storage, action, event).1;
    assert(after.sites =~= storage.sites);
}

/// Updating twice with the same command is updating once.
pub proof fn law_updating_is_idempotent(command: UpdateModel, config: ConfigModel)
    ensures
        updated(command, updated(command, config)) == updated(command, config),
{
}

/// An update never adds or removes a web app, and never changes where one comes from, its identifier
/// for the browser, how it treats links that lead elsewhere, or the user's own handlers.
pub proof fn law_updating_keeps_the_identity(
    command: UpdateModel,
    storage: StorageModel,
    action: UpdateAction,
    event: UpdateEventModel,
    id: u128,
)
    requires
        storage.sites.contains_key(id),
    ensures
        ({
            let before = storage.sites[id];
            let after = update_next(command, storage, action, event).1.sites[id];
            &&& update_next(command, storage, action, event).1.sites.dom() == storage.sites.dom()
            &&& after.ulid == before.ulid
            &&& after.profile == before.profile
            &&& after.config.document_url == before.config.document_url
            &&& after.config.manifest_url == before.config.manifest_url
            &&& after.config.webapp_id == before.config.webapp_id
            &&& after.config.external_links == before.config.external_links
            &&& after.config.allowed_domains == before.config.allowed_domains
            &&& after.config.custom_protocol_handlers == before.config.custom_protocol_handlers
        }),
{
    assert(update_next(command, storage, action, event).1.sites.dom() =~= storage.sites.dom());
}

/// An update leaves the other web apps, the profiles, and everything else in the storage as they
/// are.
pub proof fn law_updating_touches_one_app(
    command: UpdateModel,
    storage: StorageModel,
    action: UpdateAction,
    event: UpdateEventModel,
)
    ensures
        ({
            let after = update_next(command, storage, action, event).1;
            &&& after.sites.remove(command.id) == storage.sites.remove(command.id)
            &&& after == (StorageModel { sites: after.sites, ..storage })
        }),
{
    let after = update_next(command, storage, action, event).1;
    assert(after.sites.remove(command.id) =~= storage.sites.remove(command.id));
}

/// Whatever happens before, the web app that an update hands out, for the name under which the
/// desktop knows it, is the one that was kept when the update began, whatever the command renames.
pub proof fn law_an_update_hands_out_what_was_kept(
    command: UpdateModel,
    storage: StorageModel,
    events: Seq<UpdateEventModel>,
    event: UpdateEventModel,
)
    ensures
        ({
            let (action, then) = update_after(command, storage, events);
            let (next, after, handed) = update_next(command, then, action, event);
            &&& handed is Some <==> action == UpdateAction::Begin && next
                == UpdateAction::MakeClient
            &&& handed is Some ==> handed == Some(storage.sites[command.id])
                && after.sites[command.id].config == updated(
                command,
                storage.sites[command.id].config,
            )
        }),
{
    law_an_update_settles_the_settings(command, storage, events);
}

/// The manifest is fetched anew only where the command asks for it.
pub proof fn law_no_manifest_is_fetched_unasked(
    command: UpdateModel,
    storage: StorageModel,
    action: UpdateAction,
    event: UpdateEventModel,
)
    requires
        action != UpdateAction::Fetch,
        update_next(command, storage, action, event).0 == UpdateAction::Fetch,
    ensures
        command.update_manifest,
{
}

/// Fetching the manifest anew keeps all settings, and replaces the handlers of the website.
pub proof fn law_a_manifest_changes_no_setting(
    command: UpdateModel,
    storage: StorageModel,
    handlers: Seq<HandlerModel>,
)
    requires
        storage.sites.contains_key(command.id),
    ensures
        ({
            let after = update_next(
                command,
                storage,
                UpdateAction::Fetch,
                UpdateEventModel::Fetched(handlers),
            ).1;
            &&& after.sites[command.id].config == storage.sites[command.id].config
            &&& after.sites[command.id].handlers == handlers
        }),
{
}

/// The step that an installation has come to after some events, and the storage then.
pub open spec fn install_after(
    command: InstallModel,
    storage: StorageModel,
    events: Seq<InstallEventModel>,
) -> (InstallAction, StorageModel)
    decreases events.len(),
{
    if events.len() == 0 {
        (InstallAction::Begin, storage)
    } else {
        let (action, then) = install_after(command, storage, events.drop_last());
        install_next(command, then, action, events.last())
    }
}

/// Whatever happens during an installation, the storage is either as it was, and nothing is
/// written, or it holds one web app more, one that was fetched.
pub proof fn law_an_installation_adds_one_app(
    command: InstallModel,
    storage: StorageModel,
    events: Seq<InstallEventModel>,
)
    ensures
        ({
            let (action, after) = install_after(command, storage, events);
            if action == InstallAction::Store || action == InstallAction::Launch || action
                == InstallAction::Finished {
                exists|site: SiteModel|
                    events.contains(InstallEventModel::Fetched(site)) && after
                        == #[trigger] registered(storage, profile_of(command), site)
            } else {
                after == storage
            }
        }),
    decreases events.len(),
{
    if events.len() > 0 {
        let shorter = events.drop_last();
        let event = events.last();
        law_an_installation_adds_one_app(command, storage, shorter);
        let (action, then) = install_after(command, storage, shorter);
        let (next, after) = install_next(command, then, action, event);
        if action == InstallAction::Store || action == InstallAction::Launch || action
            == InstallAction::Finished {
            let site = choose|site: SiteModel|
                shorter.contains(InstallEventModel::Fetched(site)) && then == #[trigger] registered(
                    storage,
                    profile_of(command),
                    site,
                );
            let i = choose|i: int|
                0 <= i < shorter.len() && shorter[i] == InstallEventModel::Fetched(site);
            assert(events[i] == InstallEventModel::Fetched(site));
        } else if next == InstallAction::Store {
            assert(events[events.len() - 1] == event);
            assert(after == registered(storage, profile_of(command), event->Fetched_0));
        }
    }
}

/// The step that an uninstallation has come to after some events, and the storage then.
pub open spec fn uninstall_after(
    command: SiteUninstallCommand,
    storage: StorageModel,
    events: Seq<UninstallEventModel>,
) -> (UninstallAction, StorageModel)
    decreases events.len(),
{
    if events.len() == 0 {
        (UninstallAction::Begin, storage)
    } else {
        let (action, then) = uninstall_after(command, storage, events.drop_last());
        let (next, after, _) = uninstall_next(command, then, action, events.last());
        (next, after)
    }
}

/// Whatever happens during an uninstallation, the storage is either as it was, and nothing is
/// written, or just the one web app is gone.
pub proof fn law_an_uninstallation_removes_one_app(
    command: SiteUninstallCommand,
    storage: StorageModel,
    events: Seq<UninstallEventModel>,
)
    ensures
        ({
            let (action, after) = uninstall_after(command, storage, events);
            if action == UninstallAction::Disintegrate || action == UninstallAction::Store || action
                == UninstallAction::Finished {
                storage.sites.contains_key(command.id) && after == removed(storage, command.id)
            } else {
                after == storage
            }
        }),
    decreases events.len(),
{
    if events.len() > 0 {
        law_an_uninstallation_removes_one_app(command, storage, events.drop_last());
    }
}

/// The step that an update has come to after some events, and the storage then.
pub open spec fn update_after(
    command: UpdateModel,
    storage: StorageModel,
    events: Seq<UpdateEventModel>,
) -> (UpdateAction, StorageModel)
    decreases events.len(),
{
    if events.len() == 0 {
        (UpdateAction::Begin, storage)
    } else {
        let (action, then) = update_after(command, storage, events.drop_last());
        let (next, after, _) = update_next(command, then, action, events.last());
        (next, after)
    }
}

/// Whatever happens during an update, once it has begun the web app has the settings that the
/// command gives, and those that it had where the command gives none; before, and where there is
/// no such web app, the storage is as it was.
pub proof fn law_an_update_settles_the_settings(
    command: UpdateModel,
    storage: StorageModel,
    events: Seq<UpdateEventModel>,
)
    ensures
        ({
            let (action, after) = update_after(command, storage, events);
            if action == UpdateAction::Begin || action == UpdateAction::NoSuchApp {
                after == storage
            } else {
                &&& storage.sites.contains_key(command.id)
                &&& after.sites.contains_key(command.id)
                &&& after.sites[command.id].config == updated(
                    command,
                    storage.sites[command.id].config,
                )
            }
        }),
    decreases events.len(),
{
    if events.len() > 0 {
        law_an_update_settles_the_settings(command, storage, events.drop_last());
    }
}

} // verus!
