//! Uninstalling a web app.

use vstd::prelude::*;

use crate::storage::{lemma_viewed, shown, ProfileModel, Site, SiteModel, Storage, StorageModel};
use crate::text::{same_text, trim, trimmed};

verus! {

/// The command that uninstalls a web app.
pub struct SiteUninstallCommand {
    pub id: u128,
    /// Do not ask.
    pub quiet: bool,
    /// Take the web app from the desktop.
    pub system_integration: bool,
}

/// Why an uninstallation comes to nothing.
#[derive(Clone, Copy, Debug, PartialEq, Eq, Structural)]
pub enum UninstallError {
    NoSuchApp,
    InvalidProfile,
}

/// How far an uninstallation has come: what is to be done next.
#[derive(Clone, Copy, Debug, PartialEq, Eq, Structural)]
pub enum UninstallAction {
    /// Nothing is done yet.
    Begin,
    /// Ask whether to go on.
    Ask,
    /// Take the web app from the desktop.
    Disintegrate,
    /// Write the storage.
    Store,
    /// Nothing is left to do.
    Finished,
    /// The user does not want to go on.
    Aborted,
    /// The uninstallation has come to nothing.
    Failed(UninstallError),
}

/// What came of a step.
pub enum UninstallEvent {
    /// It is done.
    Done,
    /// What the user answered.
    Answered(String),
}

/// The model of an `UninstallEvent`.
pub ghost enum UninstallEventModel {
    Done,
    Answered(Seq<char>),
}

impl View for UninstallEvent {
    type V = UninstallEventModel;

    open spec fn view(&self) -> UninstallEventModel {
        match self {
            UninstallEvent::Done => UninstallEventModel::Done,
            UninstallEvent::Answered(text) => UninstallEventModel::Answered(text@),
        }
    }
}

/// An answer that means to go on: `y`, in either case, with white space around it or not.
pub open spec fn is_consent(answer: Seq<char>) -> bool {
    trimmed(answer) == "Y"@ || trimmed(answer) == "y"@
}

/// A list without the entries for one web app.
pub open spec fn without(sites: Seq<u128>, id: u128) -> Seq<u128> {
    sites.filter(|site: u128| site != id)
}

/// The storage without a web app: neither there nor listed in its profile.
pub open spec fn removed(storage: StorageModel, id: u128) -> StorageModel {
    let profile = storage.sites[id].profile;
    let kept = storage.profiles[profile];
    StorageModel {
        profiles: storage.profiles.insert(
            profile,
            ProfileModel { ulid: kept.ulid, sites: without(kept.sites, id) },
        ),
        sites: storage.sites.remove(id),
        ..storage
    }
}

/// The step that takes the web app away, the storage then, and the web app.
pub open spec fn removal(
    command: SiteUninstallCommand,
    storage: StorageModel,
) -> (UninstallAction, StorageModel, Option<SiteModel>) {
    if !storage.sites.contains_key(command.id) {
        (UninstallAction::Failed(UninstallError::NoSuchApp), storage, None)
    } else if !storage.profiles.contains_key(storage.sites[command.id].profile) {
        (UninstallAction::Failed(UninstallError::InvalidProfile), storage, None)
    } else {
        (
            if command.system_integration {
                UninstallAction::Disintegrate
            } else {
                UninstallAction::Store
            },
            removed(storage, command.id),
            Some(storage.sites[command.id]),
        )
    }
}

/// The step after `action`, once `event` has answered it, the storage then, and the web app where
/// the step took it away. An event that does not answer the step changes nothing.
pub open spec fn uninstall_next(
    command: SiteUninstallCommand,
    storage: StorageModel,
    action: UninstallAction,
    event: UninstallEventModel,
) -> (UninstallAction, StorageModel, Option<SiteModel>) {
    match (action, event) {
        (UninstallAction::Begin, UninstallEventModel::Done) => if !storage.sites.contains_key(
            command.id,
        ) {
            (UninstallAction::Failed(UninstallError::NoSuchApp), storage, None)
        } else if command.quiet {
            removal(command, storage)
        } else {
            (UninstallAction::Ask, storage, None)
        },
        (UninstallAction::Ask, UninstallEventModel::Answered(answer)) => if is_consent(answer) {
            removal(command, storage)
        } else {
            (UninstallAction::Aborted, storage, None)
        },
        (UninstallAction::Disintegrate, UninstallEventModel::Done) => (
            UninstallAction::Store,
            storage,
            None,
        ),
        (UninstallAction::Store, UninstallEventModel::Done) => (
            UninstallAction::Finished,
            storage,
            None,
        ),
        _ => (action, storage, None),
    }
}

/// Whether an answer means to go on.
pub fn consents(answer: &str) -> (r: bool)
    ensures
        r == is_consent(answer@),
{
    let answer = trim(answer);
    same_text(answer, "Y") || same_text(answer, "y")
}

/// A list without the entries for one web app.
pub fn drop_site(sites: &Vec<u128>, id: u128) -> (r: Vec<u128>)
    ensures
        r@ == without(sites@, id),
{
    let mut r: Vec<u128> = Vec::new();
    let mut i: usize = 0;
    proof {
        reveal(Seq::filter);
        assert(sites@.take(0) =~= seq![]);
    }
    while i < sites.len()
        invariant
            i <= sites.len(),
            r@ == without(sites@.take(i as int), id),
        decreases sites.len() - i,
    {
        proof {
            reveal(Seq::filter);
            assert(sites@.take(i + 1).drop_last() =~= sites@.take(i as int));
        }
        if sites[i] != id {
            r.push(sites[i]);
        }
        i = i + 1;
    }
    assert(sites@.take(i as int) =~= sites@);
    r
}

impl SiteUninstallCommand {
    /// Takes the web app out of its profile and out of the storage.
    fn remove(&self, storage: &mut Storage) -> (r: (UninstallAction, Option<Site>))
        ensures
            r.0 == removal(*self, old(storage)@).0,
            final(storage)@ == removal(*self, old(storage)@).1,
            shown(r.1) == removal(*self, old(storage)@).2,
    {
        let profile = match storage.sites.get(&self.id) {
            Some(site) => site.profile,
            None => {
                return (UninstallAction::Failed(UninstallError::NoSuchApp), None);
            },
        };
        let ghost profiles = storage.profiles@;
        let ghost sites = storage.sites@;
        match storage.profiles.remove(&profile) {
            None => {
                assert(profiles.remove(profile) =~= profiles);
                (UninstallAction::Failed(UninstallError::InvalidProfile), None)
            },
            Some(kept) => {
                let mut kept = kept;
                let left = drop_site(&kept.sites, self.id);
                kept.sites = left;
                proof {
                    lemma_viewed(profiles.remove(profile), profile, kept);
                    lemma_viewed(profiles, profile, kept);
                    lemma_viewed(sites, self.id, sites[self.id]);
                    assert(profiles.remove(profile).insert(profile, kept) =~= profiles.insert(
                        profile,
                        kept,
                    ));
                }
                storage.profiles.insert(profile, kept);
                let site = storage.sites.remove(&self.id);
                if self.system_integration {
                    (UninstallAction::Disintegrate, site)
                } else {
                    (UninstallAction::Store, site)
                }
            },
        }
    }

    /// What is said when the uninstallation comes to nothing.
    pub fn message(&self, error: UninstallError) -> (r: String)
        ensures
            r@ == (match error {
                UninstallError::NoSuchApp => "Web app does not exist"@,
                UninstallError::InvalidProfile => "Web app with invalid profile"@,
            }),
    {
        match error {
            UninstallError::NoSuchApp => "Web app does not exist".to_owned(),
            UninstallError::InvalidProfile => "Web app with invalid profile".to_owned(),
        }
    }

    /// What is said, before the reason, when a step fails; nothing where the reason speaks for
    /// itself.
    pub fn failure_context(&self, action: UninstallAction) -> (r: Option<String>)
        ensures
            r.deep_view() == (if action == UninstallAction::Disintegrate {
                Some("Failed to uninstall system integration"@)
            } else {
                None
            }),
    {
        match action {
            UninstallAction::Disintegrate => Some(
                "Failed to uninstall system integration".to_owned(),
            ),
            _ => None,
        }
    }

    /// The step after `action`, once `event` has answered it, with the web app where the step took
    /// it out of the storage.
    pub fn run(&self, storage: &mut Storage, action: UninstallAction, event: &UninstallEvent) -> (r:
        (UninstallAction, Option<Site>))
        ensures
            r.0 == uninstall_next(*self, old(storage)@, action, event@).0,
            final(storage)@ == uninstall_next(*self, old(storage)@, action, event@).1,
            shown(r.1) == uninstall_next(*self, old(storage)@, action, event@).2,
    {
        match (action, event) {
            (UninstallAction::Begin, UninstallEvent::Done) => {
                if !storage.sites.contains_key(&self.id) {
                    (UninstallAction::Failed(UninstallError::NoSuchApp), None)
                } else if self.quiet {
                    self.remove(storage)
                } else {
                    (UninstallAction::Ask, None)
                }
            },
            (UninstallAction::Ask, UninstallEvent::Answered(answer)) => {
                if consents(answer.as_str()) {
                    self.remove(storage)
                } else {
                    (UninstallAction::Aborted, None)
                }
            },
            (UninstallAction::Disintegrate, UninstallEvent::Done) => (UninstallAction::Store, None),
            (UninstallAction::Store, UninstallEvent::Done) => (UninstallAction::Finished, None),
            _ => (action, None),
        }
    }
}

} // verus!
