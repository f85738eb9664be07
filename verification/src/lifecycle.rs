//! The life of a tray: how it starts, what it watches for, and when it ends.

use vstd::prelude::*;

use crate::effects::{followed_by, Deed, Effect};
use crate::options::{Options, OptionsModel};
use crate::paths::tray_pidfile;
use crate::process::{is_tray_of, serves_app};
use crate::text::{contains_text, decimal, decimal_text};
use crate::tray::{
    alive, cleanup, cleanup_deeds, hide_deeds, hide_window, is_hidden, pid_alive, pid_of, read_pid,
    read_unread, show_deeds, show_window, unread_of,
};

verus! {

/// How long a tray waits for a runtime that has not come up, in nanoseconds.
pub const GRACE_NANOS: u128 = 20_000_000_000;

/// How long a tray waits between two looks at its files, in milliseconds.
pub const POLL_MILLIS: u64 = 250;

/// How long a tray waits before it registers its icon anew, in milliseconds.
pub const RETRY_MILLIS: u64 = 500;

/// What a tray looks at next.
#[derive(Clone, Copy, Debug, PartialEq, Eq, Structural)]
pub enum Probe {
    /// Whether the runtime is alive.
    Runtime,
    /// Whether the runtime wants its window hidden.
    HideRequest,
    /// Whether someone wants the window shown.
    ShowRequest,
    /// How many messages are unread.
    Unread,
}

/// What a tray knows between two looks.
#[derive(Clone, Copy, Debug, PartialEq, Eq, Structural)]
pub struct Watch {
    pub was_alive: bool,
    pub unread: u32,
    pub next: Probe,
}

/// What a look has shown.
pub enum Sight {
    /// The contents of the file that holds the runtime's process number, the paths that exist, and
    /// the time since the start of the tray.
    Runtime(Option<String>, Vec<String>, u128),
    /// The paths that exist.
    HideRequest(Vec<String>),
    /// The paths that exist.
    ShowRequest(Vec<String>),
    /// The contents of the file that holds the number of unread messages, and whether an icon is
    /// registered.
    Unread(Option<String>, bool),
}

/// The model of a `Sight`.
pub ghost enum SightModel {
    Runtime(Option<Seq<char>>, Seq<Seq<char>>, u128),
    HideRequest(Seq<Seq<char>>),
    ShowRequest(Seq<Seq<char>>),
    Unread(Option<Seq<char>>, bool),
}

impl View for Sight {
    type V = SightModel;

    open spec fn view(&self) -> SightModel {
        match self {
            Sight::Runtime(running, present, elapsed) => SightModel::Runtime(
                running.deep_view(),
                present.deep_view(),
                *elapsed,
            ),
            Sight::HideRequest(present) => SightModel::HideRequest(present.deep_view()),
            Sight::ShowRequest(present) => SightModel::ShowRequest(present.deep_view()),
            Sight::Unread(contents, registered) => SightModel::Unread(
                contents.deep_view(),
                *registered,
            ),
        }
    }
}

/// Ending the tray, with a reason for the log.
pub open spec fn farewell_deeds(opts: OptionsModel, reason: Seq<char>) -> Seq<Deed> {
    seq![Deed::Log(reason)] + cleanup_deeds(opts) + seq![Deed::Exit(0)]
}

/// What a tray does on a look at the runtime: it ends once a runtime that was there is gone, and
/// when none has come up in time.
pub open spec fn runtime_deeds(
    opts: OptionsModel,
    was_alive: bool,
    is_alive: bool,
    elapsed: u128,
) -> Seq<Deed> {
    if is_alive {
        seq![]
    } else if was_alive {
        farewell_deeds(opts, "runtime exited -> tray quitting"@)
    } else if elapsed > GRACE_NANOS {
        farewell_deeds(opts, "runtime never started -> tray quitting"@)
    } else {
        seq![]
    }
}

/// What a tray does on a look at the request to hide: the request is taken away, and the window
/// hidden unless it is hidden already.
pub open spec fn hide_request_deeds(opts: OptionsModel, present: Seq<Seq<char>>) -> Seq<Deed> {
    if !present.contains(opts.hide_file) {
        seq![]
    } else if present.contains(opts.hidden_file) {
        seq![Deed::Remove(opts.hide_file)]
    } else {
        seq![Deed::Remove(opts.hide_file), Deed::Log("hide request -> hide window"@)]
            + hide_deeds(opts)
    }
}

/// What a tray does on a look at the request to show: the request is taken away, and the window
/// shown, hidden or not.
pub open spec fn show_request_deeds(opts: OptionsModel, present: Seq<Seq<char>>) -> Seq<Deed> {
    if present.contains(opts.show_file) {
        seq![Deed::Remove(opts.show_file), Deed::Log("show request -> restore/raise window"@)]
            + show_deeds(opts)
    } else {
        seq![]
    }
}

/// What a tray does on a look at the unread messages: it draws the icon anew where the number has
/// changed and there is an icon, and waits for the next round.
pub open spec fn unread_deeds(before: u32, now: u32, registered: bool) -> Seq<Deed> {
    if before != now && registered {
        seq![Deed::Refresh, Deed::Sleep(POLL_MILLIS)]
    } else {
        seq![Deed::Sleep(POLL_MILLIS)]
    }
}

/// What a tray does and knows after a look. A sight of something else than what was to be looked
/// at changes nothing.
pub open spec fn watch_next(opts: OptionsModel, watch: Watch, sight: SightModel) -> (
    Watch,
    Seq<Deed>,
) {
    match (watch.next, sight) {
        (Probe::Runtime, SightModel::Runtime(running, present, elapsed)) => {
            let is_alive = alive(running, present);
            (
                Watch {
                    was_alive: watch.was_alive || is_alive,
                    next: Probe::HideRequest,
                    ..watch
                },
                runtime_deeds(opts, watch.was_alive, is_alive, elapsed),
            )
        },
        (Probe::HideRequest, SightModel::HideRequest(present)) => (
            Watch { next: Probe::ShowRequest, ..watch },
            hide_request_deeds(opts, present),
        ),
        (Probe::ShowRequest, SightModel::ShowRequest(present)) => (
            Watch { next: Probe::Unread, ..watch },
            show_request_deeds(opts, present),
        ),
        (Probe::Unread, SightModel::Unread(contents, registered)) => (
            Watch { unread: unread_of(contents), next: Probe::Runtime, ..watch },
            unread_deeds(watch.unread, unread_of(contents), registered),
        ),
        _ => (watch, seq![]),
    }
}

/// The contents of a file that could be read.
fn text_of(contents: &Option<String>) -> (r: Option<&str>)
    ensures
        r.deep_view() == contents.deep_view(),
{
    match contents {
        Some(text) => Some(text.as_str()),
        None => None,
    }
}

fn farewell(opts: &Options, reason: &str) -> (r: Vec<Effect>)
    ensures
        r.deep_view() == farewell_deeds(opts@, reason@),
{
    let first = vec![Effect::Log(reason.to_owned())];
    assert(first.deep_view() =~= seq![Deed::Log(reason@)]);
    let mut r = followed_by(first, cleanup(opts));
    r.push(Effect::Exit(0));
    assert(r.deep_view() =~= farewell_deeds(opts@, reason@));
    r
}

/// The first look of a tray that counts `unread` messages: at the runtime, after a wait.
pub fn watch_start(unread: u32) -> (r: (Watch, Vec<Effect>))
    ensures
        r.0 == (Watch { was_alive: false, unread, next: Probe::Runtime }),
        r.1.deep_view() == seq![Deed::Sleep(POLL_MILLIS)],
{
    let effects = vec![Effect::Sleep(POLL_MILLIS)];
    assert(effects.deep_view() =~= seq![Deed::Sleep(POLL_MILLIS)]);
    (Watch { was_alive: false, unread, next: Probe::Runtime }, effects)
}

/// What a tray does and knows after a look.
pub fn watch_step(opts: &Options, watch: Watch, sight: &Sight) -> (r: (Watch, Vec<Effect>))
    ensures
        r.0 == watch_next(opts@, watch, sight@).0,
        r.1.deep_view() == watch_next(opts@, watch, sight@).1,
{
    let (next, effects) = match (watch.next, sight) {
        (Probe::Runtime, Sight::Runtime(running, present, elapsed)) => {
            let is_alive = pid_alive(text_of(running), present);
            let effects = if is_alive {
                Vec::new()
            } else if watch.was_alive {
                farewell(opts, "runtime exited -> tray quitting")
            } else if *elapsed > GRACE_NANOS {
                farewell(opts, "runtime never started -> tray quitting")
            } else {
                Vec::new()
            };
            (
                Watch {
                    was_alive: watch.was_alive || is_alive,
                    unread: watch.unread,
                    next: Probe::HideRequest,
                },
                effects,
            )
        },
        (Probe::HideRequest, Sight::HideRequest(present)) => {
            let effects = if !contains_text(present, opts.hide_file.as_str()) {
                Vec::new()
            } else if is_hidden(opts, present) {
                vec![Effect::Remove(opts.hide_file.clone())]
            } else {
                followed_by(
                    vec![
                        Effect::Remove(opts.hide_file.clone()),
                        Effect::Log("hide request -> hide window".to_owned()),
                    ],
                    hide_window(opts),
                )
            };
            (
                Watch {
                    was_alive: watch.was_alive,
                    unread: watch.unread,
                    next: Probe::ShowRequest,
                },
                effects,
            )
        },
        (Probe::ShowRequest, Sight::ShowRequest(present)) => {
            let effects = if contains_text(present, opts.show_file.as_str()) {
                followed_by(
                    vec![
                        Effect::Remove(opts.show_file.clone()),
                        Effect::Log("show request -> restore/raise window".to_owned()),
                    ],
                    show_window(opts),
                )
            } else {
                Vec::new()
            };
            (
                Watch { was_alive: watch.was_alive, unread: watch.unread, next: Probe::Unread },
                effects,
            )
        },
        (Probe::Unread, Sight::Unread(contents, registered)) => {
            let current = read_unread(text_of(contents));
            let effects = if current != watch.unread && *registered {
                vec![Effect::Refresh, Effect::Sleep(POLL_MILLIS)]
            } else {
                vec![Effect::Sleep(POLL_MILLIS)]
            };
            (
                Watch { was_alive: watch.was_alive, unread: current, next: Probe::Runtime },
                effects,
            )
        },
        _ => (watch, Vec::new()),
    };
    assert(effects.deep_view() =~= watch_next(opts@, watch, sight@).1);
    (next, effects)
}

/// How far a tray has come.
#[derive(Clone, Copy, Debug, PartialEq, Eq, Structural)]
pub enum RunStage {
    /// Nothing is done yet.
    Start,
    /// Look whether a tray of the same web app is there.
    Guard,
    /// Read the number of unread messages.
    Count,
    /// Keep the icon registered, first with this many unread messages.
    Serve(u32),
    /// The tray has nothing to do.
    Stopped,
}

/// What came of a stage.
pub enum RunEvent {
    Begin,
    /// The contents of the file that holds the process number of a tray, the paths that exist, the
    /// command line of the process of that number, and the process number of this tray.
    Guarded(Option<String>, Vec<String>, Vec<String>, u32),
    /// The contents of the file that holds the number of unread messages.
    Counted(Option<String>),
    /// The icon is no longer registered.
    Ended,
}

/// The model of a `RunEvent`.
pub ghost enum RunEventModel {
    Begin,
    Guarded(Option<Seq<char>>, Seq<Seq<char>>, Seq<Seq<char>>, u32),
    Counted(Option<Seq<char>>),
    Ended,
}

impl View for RunEvent {
    type V = RunEventModel;

    open spec fn view(&self) -> RunEventModel {
        match self {
            RunEvent::Begin => RunEventModel::Begin,
            RunEvent::Guarded(contents, present, words, own) => RunEventModel::Guarded(
                contents.deep_view(),
                present.deep_view(),
                words.deep_view(),
                *own,
            ),
            RunEvent::Counted(contents) => RunEventModel::Counted(contents.deep_view()),
            RunEvent::Ended => RunEventModel::Ended,
        }
    }
}

/// Another tray of the web app `id` is there: a file with these contents holds the number of a
/// process that is alive, that is not this one, and whose command line is that of such a tray.
pub open spec fn served(
    id: Seq<char>,
    contents: Option<Seq<char>>,
    present: Seq<Seq<char>>,
    words: Seq<Seq<char>>,
    own: u32,
) -> bool {
    alive(contents, present) && pid_of(contents)->0 as int != own as int && is_tray_of(words, id)
}

/// What a tray does, and how far it has come, once `event` has answered `stage`. An event that does
/// not answer the stage changes nothing.
pub open spec fn run_next(opts: OptionsModel, stage: RunStage, event: RunEventModel) -> (
    RunStage,
    Seq<Deed>,
) {
    match (stage, event) {
        (RunStage::Start, RunEventModel::Begin) => if opts.id.len() == 0 {
            (
                RunStage::Stopped,
                seq![Deed::Complain("ffwebapps-tray: --id is required"@), Deed::Exit(1)],
            )
        } else {
            (RunStage::Guard, seq![])
        },
        (RunStage::Guard, RunEventModel::Guarded(contents, present, words, own)) => if served(
            opts.id,
            contents,
            present,
            words,
            own,
        ) {
            (RunStage::Stopped, seq![])
        } else {
            (RunStage::Count, seq![Deed::Write(opts.pid_file(), decimal_text(own as nat))])
        },
        (RunStage::Count, RunEventModel::Counted(contents)) => (
            RunStage::Serve(unread_of(contents)),
            seq![],
        ),
        (RunStage::Serve(unread), RunEventModel::Ended) => (
            stage,
            seq![Deed::Log("tray service ended -> re-registering"@), Deed::Sleep(RETRY_MILLIS)],
        ),
        _ => (stage, seq![]),
    }
}

/// Whether another tray of the web app `id` is alive, from the contents of the file that holds its
/// process number, the paths that exist, the command line of the process of that number, and the
/// process number of this tray. A process that has come by a number left behind, and does not serve
/// the web app, is no tray.
pub fn already_running(
    id: &str,
    contents: Option<&str>,
    present: &Vec<String>,
    words: &Vec<String>,
    own: u32,
) -> (r: bool)
    ensures
        r == served(id@, contents.deep_view(), present.deep_view(), words.deep_view(), own),
{
    if !pid_alive(contents, present) {
        return false;
    }
    match read_pid(contents) {
        Some(pid) => pid as i64 != own as i64 && serves_app(words, id),
        None => false,
    }
}

/// What a tray does, and how far it has come, once `event` has answered `stage`.
pub fn run(opts: &Options, stage: RunStage, event: &RunEvent) -> (r: (RunStage, Vec<Effect>))
    ensures
        r.0 == run_next(opts@, stage, event@).0,
        r.1.deep_view() == run_next(opts@, stage, event@).1,
{
    let (next, effects) = match (stage, event) {
        (RunStage::Start, RunEvent::Begin) => if opts.id.as_str().is_empty() {
            (
                RunStage::Stopped,
                vec![
                    Effect::Complain("ffwebapps-tray: --id is required".to_owned()),
                    Effect::Exit(1),
                ],
            )
        } else {
            (RunStage::Guard, Vec::new())
        },
        (RunStage::Guard, RunEvent::Guarded(contents, present, words, own)) => if already_running(
            opts.id.as_str(),
            text_of(contents),
            present,
            words,
            *own,
        ) {
            (RunStage::Stopped, Vec::new())
        } else {
            (
                RunStage::Count,
                vec![
                    Effect::Write(
                        tray_pidfile(opts.rt.as_str(), opts.id.as_str()),
                        decimal(*own),
                    ),
                ],
            )
        },
        (RunStage::Count, RunEvent::Counted(contents)) => (
            RunStage::Serve(read_unread(text_of(contents))),
            Vec::new(),
        ),
        (RunStage::Serve(_), RunEvent::Ended) => (
            stage,
            vec![
                Effect::Log("tray service ended -> re-registering".to_owned()),
                Effect::Sleep(RETRY_MILLIS),
            ],
        ),
        _ => (stage, Vec::new()),
    };
    assert(effects.deep_view() =~= run_next(opts@, stage, event@).1);
    (next, effects)
}

} // verus!
