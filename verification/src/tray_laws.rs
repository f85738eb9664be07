//! What holds of the tray as a whole: of its marks on disk, of clicks, of requests, and of its
//! beginning and end. Where a law speaks of files, it speaks of deeds that succeed.

use vstd::prelude::*;

use crate::effects::{files_after, lemma_files_after_both, Deed};
use crate::kwin::{
    after_script, hide_plan, law_the_desktop_comes_back, lemma_hidden, lemma_scripts_differ,
    lemma_shown, lies_between, names_class, same_places, script_text, show_plan, Desktop,
    HIDING_DISTANCE, SCREEN_EDGE,
};
use crate::lifecycle::{
    farewell_deeds, hide_request_deeds, run_next, show_request_deeds, unread_deeds, watch_next,
    Probe, RunEventModel, RunStage, SightModel, Watch, GRACE_NANOS,
};
use crate::options::{options_of, Flags, OptionsModel};
use crate::paths::{app_file, law_app_files_distinct, AppFile};
use crate::process::{is_tray_of, law_every_tray_is_recognised};
use crate::text::{decimal_text, law_decimal_round_trip};
use crate::tray::{
    activate_deeds, alive, cleanup_deeds, force_deeds, hide_deeds, pid_of, process_dir, quit_deeds,
    quit_end_deeds, script_deeds, show_deeds, signal, QUIT_MILLIS,
};

verus! {

/// The paths that were found to exist agree with the files that are there, as to `path`.
pub open spec fn seen(
    present: Seq<Seq<char>>,
    files: Map<Seq<char>, Seq<char>>,
    path: Seq<char>,
) -> bool {
    present.contains(path) <==> files.contains_key(path)
}

/// Some deed of a list ends the process.
pub open spec fn exits(deeds: Seq<Deed>) -> bool {
    exists|i: int| 0 <= i < deeds.len() && (#[trigger] deeds[i]) is Exit
}

/// The files of a web app that its tray answers for.
pub open spec fn answered_for(opts: OptionsModel, path: Seq<char>) -> bool {
    path == opts.unread_file || path == opts.hide_file || path == opts.show_file || path
        == opts.hidden_file || path == opts.pid_file()
}

/// A desktop after one deed of a tray: only the scripts for its own window touch it.
pub open spec fn desktop_after_one(opts: OptionsModel, desktop: Desktop, deed: Deed) -> Desktop {
    if deed == Deed::Script(script_text(opts.wmclass, hide_plan())) {
        after_script(desktop, opts.wmclass, hide_plan())
    } else if deed == Deed::Script(script_text(opts.wmclass, show_plan())) {
        after_script(desktop, opts.wmclass, show_plan())
    } else {
        desktop
    }
}

/// A desktop after deeds of a tray.
pub open spec fn desktop_after(opts: OptionsModel, desktop: Desktop, deeds: Seq<Deed>) -> Desktop
    decreases deeds.len(),
{
    if deeds.len() == 0 {
        desktop
    } else {
        desktop_after_one(opts, desktop_after(opts, desktop, deeds.drop_last()), deeds.last())
    }
}

/// Every window of the web app can be hidden and shown: it is neither at the edge itself, nor the
/// hiding distance or more beyond it.
pub open spec fn within_reach(opts: OptionsModel, desktop: Desktop) -> bool {
    &&& lies_between(
        desktop,
        opts.wmclass,
        SCREEN_EDGE - HIDING_DISTANCE,
        SCREEN_EDGE + HIDING_DISTANCE,
    )
    &&& forall|i: int|
        0 <= i < desktop.windows.len() && (#[trigger] desktop.windows[i]).class == opts.wmclass
            ==> desktop.windows[i].x != SCREEN_EDGE
}

/// The mark is there if every window of the web app is off-screen, and not there if every one is
/// on-screen.
pub open spec fn agrees(
    opts: OptionsModel,
    files: Map<Seq<char>, Seq<char>>,
    desktop: Desktop,
) -> bool {
    forall|i: int|
        0 <= i < desktop.windows.len() && (#[trigger] desktop.windows[i]).class == opts.wmclass
            ==> (desktop.windows[i].x < SCREEN_EDGE <==> files.contains_key(opts.hidden_file))
}

proof fn lemma_desktop_after_single(opts: OptionsModel, desktop: Desktop, deed: Deed)
    ensures
        desktop_after(opts, desktop, seq![deed]) == desktop_after_one(opts, desktop, deed),
{
    reveal_with_fuel(desktop_after, 2);
    assert(seq![deed].drop_last() =~= seq![]);
}

proof fn lemma_desktop_after_both(
    opts: OptionsModel,
    desktop: Desktop,
    first: Seq<Deed>,
    second: Seq<Deed>,
)
    ensures
        desktop_after(opts, desktop, first + second) == desktop_after(
            opts,
            desktop_after(opts, desktop, first),
            second,
        ),
    decreases second.len(),
{
    if second.len() == 0 {
        assert(first + second =~= first);
    } else {
        lemma_desktop_after_both(opts, desktop, first, second.drop_last());
        assert((first + second).drop_last() =~= first + second.drop_last());
    }
}

/// What hiding and showing do to the desktop, for a web app whose class is known.
proof fn lemma_desktop_after_scripts(opts: OptionsModel, desktop: Desktop)
    requires
        opts.wmclass.len() > 0,
    ensures
        desktop_after(opts, desktop, hide_deeds(opts)) == after_script(
            desktop,
            opts.wmclass,
            hide_plan(),
        ),
        desktop_after(opts, desktop, show_deeds(opts)) == after_script(
            desktop,
            opts.wmclass,
            show_plan(),
        ),
{
    let hide = Deed::Script(script_text(opts.wmclass, hide_plan()));
    let show = Deed::Script(script_text(opts.wmclass, show_plan()));
    let mark = Deed::Write(opts.hidden_file, "1"@);
    let unmark = Deed::Remove(opts.hidden_file);
    let hidden = after_script(desktop, opts.wmclass, hide_plan());
    let shown = after_script(desktop, opts.wmclass, show_plan());
    lemma_scripts_differ(opts.wmclass);
    lemma_desktop_after_single(opts, desktop, hide);
    lemma_desktop_after_single(opts, desktop, show);
    lemma_desktop_after_single(opts, hidden, mark);
    lemma_desktop_after_single(opts, shown, unmark);
    lemma_desktop_after_both(opts, desktop, seq![hide], seq![mark]);
    lemma_desktop_after_both(opts, desktop, seq![show], seq![unmark]);
    assert(hide_deeds(opts) =~= seq![hide] + seq![mark]);
    assert(show_deeds(opts) =~= seq![show] + seq![unmark]);
}

/// What a click does to the desktop, for a web app that is running and whose class is known.
proof fn lemma_desktop_after_click(
    opts: OptionsModel,
    desktop: Desktop,
    running: Option<Seq<char>>,
    present: Seq<Seq<char>>,
)
    requires
        opts.wmclass.len() > 0,
        alive(running, present),
    ensures
        desktop_after(opts, desktop, activate_deeds(opts, running, present)) == after_script(
            desktop,
            opts.wmclass,
            if present.contains(opts.hidden_file) {
                show_plan()
            } else {
                hide_plan()
            },
        ),
{
    lemma_desktop_after_scripts(opts, desktop);
    if present.contains(opts.hidden_file) {
        let line = Deed::Log("activate: show"@);
        lemma_desktop_after_single(opts, desktop, line);
        lemma_desktop_after_both(opts, desktop, seq![line], show_deeds(opts));
    } else {
        let line = Deed::Log("activate: hide"@);
        lemma_desktop_after_single(opts, desktop, line);
        lemma_desktop_after_both(opts, desktop, seq![line], hide_deeds(opts));
    }
}

/// A list of one deed.
proof fn lemma_files_after_single(files: Map<Seq<char>, Seq<char>>, deed: Deed)
    ensures
        files_after(files, seq![deed]) == crate::effects::files_after_one(files, deed),
{
    reveal_with_fuel(files_after, 2);
    assert(seq![deed].drop_last() =~= seq![]);
}

proof fn lemma_files_after_script(
    opts: OptionsModel,
    hidden: bool,
    files: Map<Seq<char>, Seq<char>>,
)
    ensures
        files_after(files, script_deeds(opts, hidden)) == files,
{
    if opts.wmclass.len() > 0 {
        lemma_files_after_single(files, script_deeds(opts, hidden)[0]);
        assert(script_deeds(opts, hidden) =~= seq![script_deeds(opts, hidden)[0]]);
    }
}

/// Hiding the window puts the mark there and touches no other file.
pub proof fn law_hiding_marks(opts: OptionsModel, files: Map<Seq<char>, Seq<char>>)
    ensures
        files_after(files, hide_deeds(opts)) == files.insert(opts.hidden_file, "1"@),
{
    let mark = Deed::Write(opts.hidden_file, "1"@);
    lemma_files_after_script(opts, true, files);
    lemma_files_after_both(files, script_deeds(opts, true), seq![mark]);
    lemma_files_after_single(files, mark);
}

/// Showing the window takes the mark away and touches no other file.
pub proof fn law_showing_unmarks(opts: OptionsModel, files: Map<Seq<char>, Seq<char>>)
    ensures
        files_after(files, show_deeds(opts)) == files.remove(opts.hidden_file),
{
    let unmark = Deed::Remove(opts.hidden_file);
    lemma_files_after_script(opts, false, files);
    lemma_files_after_both(files, script_deeds(opts, false), seq![unmark]);
    lemma_files_after_single(files, unmark);
}

/// A mark that does not agree with the window is put right the next time: whatever the mark was
/// before, after hiding the windows are off-screen and marked, and after showing they are on-screen
/// and not marked.
pub proof fn law_a_stale_mark_is_put_right(
    opts: OptionsModel,
    files: Map<Seq<char>, Seq<char>>,
    desktop: Desktop,
)
    requires
        names_class(opts.wmclass),
        within_reach(opts, desktop),
    ensures
        ({
            let marks = files_after(files, hide_deeds(opts));
            let after = desktop_after(opts, desktop, hide_deeds(opts));
            marks.contains_key(opts.hidden_file) && agrees(opts, marks, after) && within_reach(
                opts,
                after,
            )
        }),
        ({
            let marks = files_after(files, show_deeds(opts));
            let after = desktop_after(opts, desktop, show_deeds(opts));
            !marks.contains_key(opts.hidden_file) && agrees(opts, marks, after) && within_reach(
                opts,
                after,
            )
        }),
{
    law_hiding_marks(opts, files);
    law_showing_unmarks(opts, files);
    lemma_desktop_after_scripts(opts, desktop);
    lemma_hidden(desktop, opts.wmclass);
    lemma_shown(desktop, opts.wmclass);
}

/// A click on the icon of a web app that is running toggles the mark and touches no other file.
pub proof fn law_a_click_toggles(
    opts: OptionsModel,
    files: Map<Seq<char>, Seq<char>>,
    running: Option<Seq<char>>,
    present: Seq<Seq<char>>,
)
    requires
        alive(running, present),
        seen(present, files, opts.hidden_file),
    ensures
        ({
            let after = files_after(files, activate_deeds(opts, running, present));
            &&& after.contains_key(opts.hidden_file) <==> !files.contains_key(opts.hidden_file)
            &&& after.remove(opts.hidden_file) == files.remove(opts.hidden_file)
        }),
{
    if present.contains(opts.hidden_file) {
        let line = Deed::Log("activate: show"@);
        lemma_files_after_single(files, line);
        lemma_files_after_both(files, seq![line], show_deeds(opts));
        law_showing_unmarks(opts, files);
    } else {
        let line = Deed::Log("activate: hide"@);
        lemma_files_after_single(files, line);
        lemma_files_after_both(files, seq![line], hide_deeds(opts));
        law_hiding_marks(opts, files);
    }
    assert(files_after(files, activate_deeds(opts, running, present)).remove(opts.hidden_file)
        =~= files.remove(opts.hidden_file));
}

/// A click keeps the mark and the windows together: where they agreed, they agree again, each the
/// other way round, and windows of other web apps are not touched.
pub proof fn law_a_click_moves_mark_and_window_together(
    opts: OptionsModel,
    files: Map<Seq<char>, Seq<char>>,
    desktop: Desktop,
    running: Option<Seq<char>>,
    present: Seq<Seq<char>>,
)
    requires
        names_class(opts.wmclass),
        alive(running, present),
        seen(present, files, opts.hidden_file),
        within_reach(opts, desktop),
        agrees(opts, files, desktop),
    ensures
        ({
            let deeds = activate_deeds(opts, running, present);
            let marks = files_after(files, deeds);
            let after = desktop_after(opts, desktop, deeds);
            &&& marks.contains_key(opts.hidden_file) <==> !files.contains_key(opts.hidden_file)
            &&& agrees(opts, marks, after)
            &&& within_reach(opts, after)
            &&& after.windows.len() == desktop.windows.len()
            &&& forall|i: int|
                0 <= i < desktop.windows.len() && (#[trigger] desktop.windows[i]).class
                    != opts.wmclass ==> after.windows[i] == desktop.windows[i]
        }),
{
    law_a_click_toggles(opts, files, running, present);
    lemma_desktop_after_click(opts, desktop, running, present);
    lemma_hidden(desktop, opts.wmclass);
    lemma_shown(desktop, opts.wmclass);
}

/// Two clicks undo each other: the mark is there or not as it was, no other file is touched, and
/// where mark and windows agreed every window of the web app is back at the same position and size
/// and every other one is untouched.
pub proof fn law_two_clicks_undo_each_other(
    opts: OptionsModel,
    files: Map<Seq<char>, Seq<char>>,
    desktop: Desktop,
    running: Option<Seq<char>>,
    present: Seq<Seq<char>>,
    present_later: Seq<Seq<char>>,
)
    requires
        alive(running, present),
        alive(running, present_later),
        seen(present, files, opts.hidden_file),
        seen(
            present_later,
            files_after(files, activate_deeds(opts, running, present)),
            opts.hidden_file,
        ),
    ensures
        ({
            let once = files_after(files, activate_deeds(opts, running, present));
            let twice = files_after(once, activate_deeds(opts, running, present_later));
            &&& twice.contains_key(opts.hidden_file) <==> files.contains_key(opts.hidden_file)
            &&& twice.remove(opts.hidden_file) == files.remove(opts.hidden_file)
        }),
        names_class(opts.wmclass) && within_reach(opts, desktop) && agrees(opts, files, desktop)
            ==> same_places(
            desktop_after(
                opts,
                desktop_after(opts, desktop, activate_deeds(opts, running, present)),
                activate_deeds(opts, running, present_later),
            ),
            desktop,
            opts.wmclass,
        ),
{
    let once = files_after(files, activate_deeds(opts, running, present));
    law_a_click_toggles(opts, files, running, present);
    law_a_click_toggles(opts, once, running, present_later);
    if names_class(opts.wmclass) && within_reach(opts, desktop) && agrees(opts, files, desktop) {
        let between = desktop_after(opts, desktop, activate_deeds(opts, running, present));
        lemma_desktop_after_click(opts, desktop, running, present);
        lemma_desktop_after_click(opts, between, running, present_later);
        law_the_desktop_comes_back(desktop, opts.wmclass);
    }
}

/// Cleaning up removes the files that the tray answers for, and touches no other.
pub proof fn law_cleanup_removes_just_its_files(
    opts: OptionsModel,
    files: Map<Seq<char>, Seq<char>>,
)
    ensures
        ({
            let after = files_after(files, cleanup_deeds(opts));
            &&& forall|path: Seq<char>|
                #[trigger] after.contains_key(path) <==> files.contains_key(path) && !answered_for(
                    opts,
                    path,
                )
            &&& forall|path: Seq<char>|
                after.contains_key(path) ==> #[trigger] after[path] == files[path]
        }),
{
    let deeds = cleanup_deeds(opts);
    reveal_with_fuel(files_after, 6);
    assert(deeds.drop_last() =~= seq![deeds[0], deeds[1], deeds[2], deeds[3]]);
    assert(deeds.drop_last().drop_last() =~= seq![deeds[0], deeds[1], deeds[2]]);
    assert(deeds.drop_last().drop_last().drop_last() =~= seq![deeds[0], deeds[1]]);
    assert(deeds.drop_last().drop_last().drop_last().drop_last() =~= seq![deeds[0]]);
    assert(deeds.drop_last().drop_last().drop_last().drop_last().drop_last() =~= seq![]);
}

/// Cleaning up after one web app leaves every file of another as it is.
pub proof fn law_cleanup_spares_other_apps(
    opts: OptionsModel,
    files: Map<Seq<char>, Seq<char>>,
    other: Seq<char>,
    kind: AppFile,
)
    requires
        opts.well_formed(),
        other != opts.id,
    ensures
        ({
            let after = files_after(files, cleanup_deeds(opts));
            let path = app_file(opts.rt, other, kind);
            &&& after.contains_key(path) <==> files.contains_key(path)
            &&& after.contains_key(path) ==> after[path] == files[path]
        }),
{
    let path = app_file(opts.rt, other, kind);
    law_cleanup_removes_just_its_files(opts, files);
    if path == opts.unread_file {
        law_app_files_distinct(opts.rt, other, kind, opts.id, AppFile::Unread);
    }
    if path == opts.hide_file {
        law_app_files_distinct(opts.rt, other, kind, opts.id, AppFile::Hide);
    }
    if path == opts.show_file {
        law_app_files_distinct(opts.rt, other, kind, opts.id, AppFile::Show);
    }
    if path == opts.hidden_file {
        law_app_files_distinct(opts.rt, other, kind, opts.id, AppFile::Hidden);
    }
    if path == opts.pid_file() {
        law_app_files_distinct(opts.rt, other, kind, opts.id, AppFile::TrayPid);
    }
    assert(!answered_for(opts, path));
}

/// Quitting ends the runtime itself where its process number is known: it is asked to end and
/// waited for, and ended whatever it does if it is still there; then the tray cleans up and ends.
pub proof fn law_quitting_ends_the_runtime(
    opts: OptionsModel,
    files: Map<Seq<char>, Seq<char>>,
    running: Option<Seq<char>>,
    present: Seq<Seq<char>>,
)
    ensures
        pid_of(running) matches Some(pid) ==> {
            &&& quit_deeds(running)[1] == signal("-TERM"@, pid)
            &&& quit_deeds(running)[2] == Deed::Sleep(QUIT_MILLIS)
            &&& alive(running, present) ==> quit_end_deeds(opts, running, present)[0] == signal(
                "-KILL"@,
                pid,
            )
        },
        !exits(quit_deeds(running)),
        quit_end_deeds(opts, running, present).last() == Deed::Exit(0),
        files_after(files, quit_deeds(running) + quit_end_deeds(opts, running, present))
            == files_after(files, cleanup_deeds(opts)),
{
    let first = quit_deeds(running);
    let force = force_deeds(running, present);
    assert(files_after(files, first) == files) by {
        reveal_with_fuel(files_after, 4);
        if first.len() == 3 {
            assert(first.drop_last() =~= seq![first[0], first[1]]);
            assert(first.drop_last().drop_last() =~= seq![first[0]]);
            assert(first.drop_last().drop_last().drop_last() =~= seq![]);
        } else {
            assert(first.drop_last() =~= seq![]);
        }
    }
    if force.len() > 0 {
        lemma_files_after_single(files, force[0]);
        assert(force =~= seq![force[0]]);
    }
    lemma_files_after_both(files, force, cleanup_deeds(opts));
    let cleaned = files_after(files, cleanup_deeds(opts));
    lemma_files_after_single(cleaned, Deed::Exit(0));
    lemma_files_after_both(files, force + cleanup_deeds(opts), seq![Deed::Exit(0)]);
    lemma_files_after_both(files, first, quit_end_deeds(opts, running, present));
}

/// A tray ends on its own only on a look at the runtime that shows it gone: after it had been
/// there, or when it has not come up in time. While the runtime is alive the tray stays.
pub proof fn law_the_tray_ends_with_the_runtime(
    opts: OptionsModel,
    watch: Watch,
    sight: SightModel,
)
    ensures
        exits(watch_next(opts, watch, sight).1) <==> {
            &&& watch.next == Probe::Runtime
            &&& sight matches SightModel::Runtime(running, present, elapsed)
            &&& !alive(running, present)
            &&& watch.was_alive || elapsed > GRACE_NANOS
        },
{
    let deeds = watch_next(opts, watch, sight).1;
    match (watch.next, sight) {
        (Probe::Runtime, SightModel::Runtime(running, present, elapsed)) => {
            if !alive(running, present) && (watch.was_alive || elapsed > GRACE_NANOS) {
                assert(deeds[deeds.len() - 1] is Exit);
            }
        },
        (Probe::HideRequest, SightModel::HideRequest(present)) => {
            assert(forall|i: int|
                0 <= i < deeds.len() ==> !((#[trigger] hide_request_deeds(opts, present)[i]) is Exit));
        },
        (Probe::ShowRequest, SightModel::ShowRequest(present)) => {
            assert(forall|i: int|
                0 <= i < deeds.len() ==> !((#[trigger] show_request_deeds(opts, present)[i]) is Exit));
        },
        _ => {},
    }
}

/// What a tray that began with `unread` messages knows after some sights.
pub open spec fn watch_after(opts: OptionsModel, unread: u32, sights: Seq<SightModel>) -> Watch
    decreases sights.len(),
{
    if sights.len() == 0 {
        Watch { was_alive: false, unread, next: Probe::Runtime }
    } else {
        watch_next(opts, watch_after(opts, unread, sights.drop_last()), sights.last()).0
    }
}

/// The sight at a place answered a look at the runtime, and showed it alive.
pub open spec fn shows_alive(
    opts: OptionsModel,
    unread: u32,
    sights: Seq<SightModel>,
    i: int,
) -> bool {
    &&& watch_after(opts, unread, sights.take(i)).next == Probe::Runtime
    &&& sights[i] matches SightModel::Runtime(running, present, _)
    &&& alive(running, present)
}

/// Some sight answered a look at the runtime, and showed it alive.
pub open spec fn was_seen_alive(opts: OptionsModel, unread: u32, sights: Seq<SightModel>) -> bool {
    exists|i: int| 0 <= i < sights.len() && #[trigger] shows_alive(opts, unread, sights, i)
}

/// A tray remembers that it has seen its runtime alive, and nothing else makes it think so.
pub proof fn law_a_tray_remembers_its_runtime(
    opts: OptionsModel,
    unread: u32,
    sights: Seq<SightModel>,
)
    ensures
        watch_after(opts, unread, sights).was_alive <==> was_seen_alive(opts, unread, sights),
    decreases sights.len(),
{
    if sights.len() > 0 {
        let shorter = sights.drop_last();
        let last = sights.len() - 1;
        law_a_tray_remembers_its_runtime(opts, unread, shorter);
        assert(sights.take(last) =~= shorter);
        assert forall|i: int| 0 <= i < last implies (#[trigger] shows_alive(
            opts,
            unread,
            sights,
            i,
        ) <==> shows_alive(opts, unread, shorter, i)) by {
            assert(sights.take(i) =~= shorter.take(i));
        }
        if was_seen_alive(opts, unread, shorter) {
            let i = choose|i: int|
                0 <= i < shorter.len() && #[trigger] shows_alive(opts, unread, shorter, i);
            assert(shows_alive(opts, unread, sights, i));
        }
        if shows_alive(opts, unread, sights, last) {
            assert(was_seen_alive(opts, unread, sights));
        }
        if was_seen_alive(opts, unread, sights) {
            let i = choose|i: int|
                0 <= i < sights.len() && #[trigger] shows_alive(opts, unread, sights, i);
            if i < last {
                assert(shows_alive(opts, unread, shorter, i));
            }
        }
    }
}

/// Over its whole life, a tray ends on its own just at a look at the runtime that shows it not
/// alive, where either some earlier look has shown it alive, or the time for it to come up is over.
pub proof fn law_a_life_ends_with_the_runtime(
    opts: OptionsModel,
    unread: u32,
    sights: Seq<SightModel>,
    sight: SightModel,
)
    ensures
        exits(watch_next(opts, watch_after(opts, unread, sights), sight).1) <==> {
            &&& watch_after(opts, unread, sights).next == Probe::Runtime
            &&& sight matches SightModel::Runtime(running, present, elapsed)
            &&& !alive(running, present)
            &&& was_seen_alive(opts, unread, sights) || elapsed > GRACE_NANOS
        },
{
    law_a_tray_remembers_its_runtime(opts, unread, sights);
    law_the_tray_ends_with_the_runtime(opts, watch_after(opts, unread, sights), sight);
}

/// Where the tray ends with the runtime, it has cleaned up first.
pub proof fn law_the_tray_leaves_nothing_behind(
    opts: OptionsModel,
    files: Map<Seq<char>, Seq<char>>,
    watch: Watch,
    sight: SightModel,
)
    requires
        exits(watch_next(opts, watch, sight).1),
    ensures
        files_after(files, watch_next(opts, watch, sight).1) == files_after(
            files,
            cleanup_deeds(opts),
        ),
{
    law_the_tray_ends_with_the_runtime(opts, watch, sight);
    let reason = if watch.was_alive {
        "runtime exited -> tray quitting"@
    } else {
        "runtime never started -> tray quitting"@
    };
    let line = Deed::Log(reason);
    let cleaned = files_after(files, cleanup_deeds(opts));
    assert(watch_next(opts, watch, sight).1 == farewell_deeds(opts, reason));
    lemma_files_after_single(files, line);
    lemma_files_after_both(files, seq![line], cleanup_deeds(opts));
    lemma_files_after_single(cleaned, Deed::Exit(0));
    lemma_files_after_both(files, seq![line] + cleanup_deeds(opts), seq![Deed::Exit(0)]);
}

/// A request to hide is answered once: after the look the request is gone, the window is marked as
/// hidden, and no other file is touched.
pub proof fn law_a_request_to_hide_is_answered(
    opts: OptionsModel,
    files: Map<Seq<char>, Seq<char>>,
    present: Seq<Seq<char>>,
)
    requires
        opts.well_formed(),
        present.contains(opts.hide_file),
        seen(present, files, opts.hidden_file),
    ensures
        ({
            let after = files_after(files, hide_request_deeds(opts, present));
            &&& !after.contains_key(opts.hide_file)
            &&& after.contains_key(opts.hidden_file)
            &&& after.remove(opts.hidden_file) == files.remove(opts.hidden_file).remove(
                opts.hide_file,
            )
        }),
{
    let taken = Deed::Remove(opts.hide_file);
    let line = Deed::Log("hide request -> hide window"@);
    let without = files.remove(opts.hide_file);
    if opts.hide_file == opts.hidden_file {
        law_app_files_distinct(opts.rt, opts.id, AppFile::Hide, opts.id, AppFile::Hidden);
    }
    lemma_files_after_single(files, taken);
    if !present.contains(opts.hidden_file) {
        lemma_files_after_single(without, line);
        lemma_files_after_both(files, seq![taken], seq![line]);
        assert(seq![taken] + seq![line] =~= seq![taken, line]);
        lemma_files_after_both(files, seq![taken, line], hide_deeds(opts));
        law_hiding_marks(opts, without);
    }
    let after = files_after(files, hide_request_deeds(opts, present));
    assert(after.remove(opts.hidden_file) =~= files.remove(opts.hidden_file).remove(
        opts.hide_file,
    ));
}

/// A request to show is answered once: after the look the request is gone, the window is not marked
/// as hidden, and no other file is touched.
pub proof fn law_a_request_to_show_is_answered(
    opts: OptionsModel,
    files: Map<Seq<char>, Seq<char>>,
    present: Seq<Seq<char>>,
)
    requires
        present.contains(opts.show_file),
    ensures
        files_after(files, show_request_deeds(opts, present)) == files.remove(
            opts.show_file,
        ).remove(opts.hidden_file),
{
    let taken = Deed::Remove(opts.show_file);
    let line = Deed::Log("show request -> restore/raise window"@);
    let without = files.remove(opts.show_file);
    lemma_files_after_single(files, taken);
    lemma_files_after_single(without, line);
    lemma_files_after_both(files, seq![taken], seq![line]);
    assert(seq![taken] + seq![line] =~= seq![taken, line]);
    lemma_files_after_both(files, seq![taken, line], show_deeds(opts));
    law_showing_unmarks(opts, without);
}

/// A request to hide hides the windows: where mark and windows agreed, all of them are off-screen
/// after the look, and mark and windows agree again.
pub proof fn law_a_request_to_hide_hides_the_window(
    opts: OptionsModel,
    files: Map<Seq<char>, Seq<char>>,
    desktop: Desktop,
    present: Seq<Seq<char>>,
)
    requires
        opts.well_formed(),
        names_class(opts.wmclass),
        present.contains(opts.hide_file),
        seen(present, files, opts.hidden_file),
        within_reach(opts, desktop),
        agrees(opts, files, desktop),
    ensures
        ({
            let deeds = hide_request_deeds(opts, present);
            let marks = files_after(files, deeds);
            let after = desktop_after(opts, desktop, deeds);
            &&& marks.contains_key(opts.hidden_file)
            &&& agrees(opts, marks, after)
            &&& within_reach(opts, after)
        }),
{
    law_a_request_to_hide_is_answered(opts, files, present);
    let taken = Deed::Remove(opts.hide_file);
    let line = Deed::Log("hide request -> hide window"@);
    lemma_desktop_after_single(opts, desktop, taken);
    if !present.contains(opts.hidden_file) {
        lemma_desktop_after_single(opts, desktop, line);
        lemma_desktop_after_both(opts, desktop, seq![taken], seq![line]);
        assert(seq![taken] + seq![line] =~= seq![taken, line]);
        lemma_desktop_after_both(opts, desktop, seq![taken, line], hide_deeds(opts));
        lemma_desktop_after_scripts(opts, desktop);
        lemma_hidden(desktop, opts.wmclass);
    }
}

/// A request to show shows the windows: all of them are on-screen after the look, and mark and
/// windows agree, whether they did before or not.
pub proof fn law_a_request_to_show_shows_the_window(
    opts: OptionsModel,
    files: Map<Seq<char>, Seq<char>>,
    desktop: Desktop,
    present: Seq<Seq<char>>,
)
    requires
        names_class(opts.wmclass),
        present.contains(opts.show_file),
        within_reach(opts, desktop),
    ensures
        ({
            let deeds = show_request_deeds(opts, present);
            let marks = files_after(files, deeds);
            let after = desktop_after(opts, desktop, deeds);
            &&& !marks.contains_key(opts.hidden_file)
            &&& agrees(opts, marks, after)
            &&& within_reach(opts, after)
        }),
{
    law_a_request_to_show_is_answered(opts, files, present);
    let taken = Deed::Remove(opts.show_file);
    let line = Deed::Log("show request -> restore/raise window"@);
    lemma_desktop_after_single(opts, desktop, taken);
    lemma_desktop_after_single(opts, desktop, line);
    lemma_desktop_after_both(opts, desktop, seq![taken], seq![line]);
    assert(seq![taken] + seq![line] =~= seq![taken, line]);
    lemma_desktop_after_both(opts, desktop, seq![taken, line], show_deeds(opts));
    lemma_desktop_after_scripts(opts, desktop);
    lemma_shown(desktop, opts.wmclass);
}

/// The badge is drawn anew when, and only when, the number of unread messages has changed and
/// there is an icon; either way the new number is the one that counts from there on.
pub proof fn law_the_badge_follows_the_count(
    opts: OptionsModel,
    watch: Watch,
    contents: Option<Seq<char>>,
    registered: bool,
)
    requires
        watch.next == Probe::Unread,
    ensures
        ({
            let (after, deeds) = watch_next(opts, watch, SightModel::Unread(contents, registered));
            &&& after.unread == crate::tray::unread_of(contents)
            &&& deeds.contains(Deed::Refresh) <==> after.unread != watch.unread && registered
        }),
{
    let now = crate::tray::unread_of(contents);
    let deeds = unread_deeds(watch.unread, now, registered);
    if watch.unread != now && registered {
        assert(deeds[0] == Deed::Refresh);
    }
}

/// After four sights that answer what was to be looked at, a tray is at the runtime again.
pub proof fn law_a_round_comes_back_to_the_runtime(
    opts: OptionsModel,
    watch: Watch,
    runtime: SightModel,
    hide: SightModel,
    show: SightModel,
    unread: SightModel,
)
    requires
        watch.next == Probe::Runtime,
        runtime is Runtime,
        hide is HideRequest,
        show is ShowRequest,
        unread is Unread,
    ensures
        ({
            let one = watch_next(opts, watch, runtime).0;
            let two = watch_next(opts, one, hide).0;
            let three = watch_next(opts, two, show).0;
            let four = watch_next(opts, three, unread).0;
            &&& one.next == Probe::HideRequest
            &&& two.next == Probe::ShowRequest
            &&& three.next == Probe::Unread
            &&& four.next == Probe::Runtime
            &&& watch.was_alive ==> four.was_alive
        }),
{
}

/// One tray per web app. A tray that finds no other leaves its own number, and touches no other file,
/// so no number of another web app's tray. While its process lives, a later tray of the same web app,
/// which is another process, stops and leaves every file as it is. Under which name the first tray
/// was started does not matter.
pub proof fn law_one_tray_per_app(
    program: Seq<char>,
    args: Seq<Seq<char>>,
    rt: Seq<char>,
    files: Map<Seq<char>, Seq<char>>,
    contents: Option<Seq<char>>,
    present: Seq<Seq<char>>,
    words: Seq<Seq<char>>,
    own: u32,
    present_later: Seq<Seq<char>>,
    other: u32,
    other_id: Seq<char>,
)
    requires
        own <= i32::MAX,
        !alive(contents, present) || !is_tray_of(words, Flags::unset().after(args).id),
        present_later.contains(process_dir(own as i32)),
        other != own,
        other_id != Flags::unset().after(args).id,
    ensures
        ({
            let opts = options_of(Flags::unset().after(args), rt);
            let first = run_next(
                opts,
                RunStage::Guard,
                RunEventModel::Guarded(contents, present, words, own),
            );
            let after = files_after(files, first.1);
            let second = run_next(
                opts,
                RunStage::Guard,
                RunEventModel::Guarded(
                    Some(after[opts.pid_file()]),
                    present_later,
                    seq![program] + args,
                    other,
                ),
            );
            let elsewhere = app_file(rt, other_id, AppFile::TrayPid);
            &&& first.0 == RunStage::Count
            &&& after == files.insert(opts.pid_file(), decimal_text(own as nat))
            &&& after.contains_key(elsewhere) == files.contains_key(elsewhere)
            &&& after[elsewhere] == files[elsewhere]
            &&& second.0 == RunStage::Stopped
            &&& files_after(after, second.1) == after
        }),
{
    let opts = options_of(Flags::unset().after(args), rt);
    let text = decimal_text(own as nat);
    lemma_files_after_single(files, Deed::Write(opts.pid_file(), text));
    law_decimal_round_trip(own, seq![], seq![]);
    assert(seq![] + text + seq![] =~= text);
    law_every_tray_is_recognised(program, args, rt);
    if app_file(rt, other_id, AppFile::TrayPid) == opts.pid_file() {
        law_app_files_distinct(rt, other_id, AppFile::TrayPid, opts.id, AppFile::TrayPid);
    }
}

/// A tray looks for another just once, before it does anything else.
pub proof fn law_the_guard_is_passed_once(
    opts: OptionsModel,
    stage: RunStage,
    event: RunEventModel,
)
    requires
        run_next(opts, stage, event).0 == RunStage::Guard,
    ensures
        stage == RunStage::Start || stage == RunStage::Guard,
        run_next(opts, stage, event).1.len() == 0,
{
}

/// A number left behind by a process that is gone stops no tray.
pub proof fn law_a_stale_number_stops_no_tray(
    opts: OptionsModel,
    contents: Option<Seq<char>>,
    present: Seq<Seq<char>>,
    words: Seq<Seq<char>>,
    own: u32,
)
    requires
        !alive(contents, present),
    ensures
        run_next(opts, RunStage::Guard, RunEventModel::Guarded(contents, present, words, own)).0
            == RunStage::Count,
{
}

/// A number that has come to a process that is no tray of the web app, or to this very process,
/// stops no tray.
pub proof fn law_an_unrelated_process_stops_no_tray(
    opts: OptionsModel,
    contents: Option<Seq<char>>,
    present: Seq<Seq<char>>,
    words: Seq<Seq<char>>,
    own: u32,
)
    requires
        !is_tray_of(words, opts.id) || (pid_of(contents) matches Some(pid) && pid as int
            == own as int),
    ensures
        run_next(opts, RunStage::Guard, RunEventModel::Guarded(contents, present, words, own)) == (
            RunStage::Count,
            seq![Deed::Write(opts.pid_file(), decimal_text(own as nat))],
        ),
{
}

/// A tray that starts, or registers its icon anew, writes its own number at most: the mark of a
/// hidden window, like every other file, survives a restart of the tray.
pub proof fn law_a_restart_keeps_the_mark(
    opts: OptionsModel,
    files: Map<Seq<char>, Seq<char>>,
    stage: RunStage,
    event: RunEventModel,
)
    requires
        opts.well_formed(),
    ensures
        ({
            let after = files_after(files, run_next(opts, stage, event).1);
            &&& after.remove(opts.pid_file()) == files.remove(opts.pid_file())
            &&& after.contains_key(opts.hidden_file) <==> files.contains_key(opts.hidden_file)
        }),
{
    let deeds = run_next(opts, stage, event).1;
    let after = files_after(files, deeds);
    reveal_with_fuel(files_after, 3);
    if deeds.len() > 0 {
        assert(deeds.drop_last().len() == 0 || deeds.drop_last() =~= seq![deeds[0]]);
        assert(deeds.len() == 2 ==> deeds.drop_last().drop_last() =~= seq![]);
    }
    if opts.hidden_file == opts.pid_file() {
        law_app_files_distinct(opts.rt, opts.id, AppFile::Hidden, opts.id, AppFile::TrayPid);
    }
    assert(after.remove(opts.pid_file()) =~= files.remove(opts.pid_file()));
}

/// Once it serves, a tray goes on serving: it registers its icon anew whenever that has ended.
pub proof fn law_a_serving_tray_goes_on(opts: OptionsModel, unread: u32, event: RunEventModel)
    ensures
        run_next(opts, RunStage::Serve(unread), event).0 == RunStage::Serve(unread),
        !exits(run_next(opts, RunStage::Serve(unread), event).1),
{
}

} // verus!
