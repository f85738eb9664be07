//! What a tray does on a click, on a request and at its beginning and end, deed by deed.

use vstd::prelude::*;

use crate::effects::Deed;
use crate::kwin::{hide_plan, script_text, show_plan};
use crate::lifecycle::{
    run_next, served, watch_next, Probe, RunEventModel, RunStage, SightModel, Watch,
};
use crate::options::{Flags, OptionsModel};
use crate::paths::session_dir;
use crate::text::{
    decimal_text, i32_of, law_trimming_takes_the_padding, signed_text, u32_of, white_space,
};
use crate::tray::{
    activate_deeds, alive, badge, cleanup_deeds, click_deeds, hide_deeds, item_name, menu_entries,
    pid_of, quit_deeds, quit_end_deeds, show_deeds, unread_note, unread_of, MenuAction,
};

verus! {

/// A file tells the number that stands in it between white space, if that is one; a file that cannot
/// be read tells no process, and no unread messages, and neither does one that holds anything else.
pub proof fn law_a_file_tells_its_number(before: Seq<char>, text: Seq<char>, after: Seq<char>)
    requires
        forall|i: int| 0 <= i < before.len() ==> white_space(#[trigger] before[i]),
        forall|i: int| 0 <= i < after.len() ==> white_space(#[trigger] after[i]),
        text.len() > 0 ==> !white_space(text.first()) && !white_space(text.last()),
    ensures
        pid_of(Some(before + text + after)) == i32_of(text),
        u32_of(text) matches Some(n) ==> unread_of(Some(before + text + after)) == n,
        u32_of(text) is None ==> unread_of(Some(before + text + after)) == 0,
        pid_of(None) is None,
        unread_of(None) == 0,
{
    law_trimming_takes_the_padding(before, text, after);
}

/// A process is alive just while its number is known and its directory is there.
pub proof fn law_a_process_lives_in_its_directory(
    contents: Option<Seq<char>>,
    present: Seq<Seq<char>>,
)
    ensures
        pid_of(contents) is None ==> !alive(contents, present),
        pid_of(contents) matches Some(pid) ==> (alive(contents, present) <==> present.contains(
            "/proc/"@ + signed_text(pid as int),
        )),
{
}

/// Hiding and showing run the script for the windows of the class first, if a class is known, and
/// then change the mark; they do nothing else.
pub proof fn law_script_first_then_mark(opts: OptionsModel)
    ensures
        hide_deeds(opts).last() == Deed::Write(opts.hidden_file, "1"@),
        show_deeds(opts).last() == Deed::Remove(opts.hidden_file),
        opts.wmclass.len() == 0 ==> hide_deeds(opts).len() == 1 && show_deeds(opts).len() == 1,
        opts.wmclass.len() > 0 ==> hide_deeds(opts).drop_last() == seq![
            Deed::Script(script_text(opts.wmclass, hide_plan())),
        ] && show_deeds(opts).drop_last() == seq![
            Deed::Script(script_text(opts.wmclass, show_plan())),
        ],
{
    if opts.wmclass.len() > 0 {
        assert(hide_deeds(opts).drop_last() =~= seq![
            Deed::Script(script_text(opts.wmclass, hide_plan())),
        ]);
        assert(show_deeds(opts).drop_last() =~= seq![
            Deed::Script(script_text(opts.wmclass, show_plan())),
        ]);
    }
}

/// A click on a web app that runs hides or shows, by the mark alone, with a line for the log before
/// it; a click on one that does not run starts it with its command line and takes the mark away.
pub proof fn law_what_a_click_does(
    opts: OptionsModel,
    running: Option<Seq<char>>,
    present: Seq<Seq<char>>,
)
    ensures
        ({
            let deeds = activate_deeds(opts, running, present);
            let marked = present.contains(opts.hidden_file);
            &&& alive(running, present) && marked ==> deeds.skip(1) == show_deeds(opts) && deeds[0]
                == Deed::Log("activate: show"@)
            &&& alive(running, present) && !marked ==> deeds.skip(1) == hide_deeds(opts)
                && deeds[0] == Deed::Log("activate: hide"@)
            &&& !alive(running, present) ==> deeds.len() == 3 && deeds[0] == Deed::Log(
                "activate: not running -> launch"@,
            ) && deeds[1] == Deed::Start(seq!["sh"@, "-c"@, opts.command]) && deeds[2]
                == Deed::Remove(opts.hidden_file)
        }),
{
    let deeds = activate_deeds(opts, running, present);
    if alive(running, present) {
        if present.contains(opts.hidden_file) {
            assert(deeds.skip(1) =~= show_deeds(opts));
        } else {
            assert(deeds.skip(1) =~= hide_deeds(opts));
        }
    }
}

/// A single click does what the entry for opening does, behind a line for the log; and the menu
/// offers that entry, under the icon of the web app, and the one for quitting, apart from each other.
pub proof fn law_what_the_icon_offers(
    opts: OptionsModel,
    running: Option<Seq<char>>,
    present: Seq<Seq<char>>,
)
    ensures
        click_deeds(opts, running, present)[0] == Deed::Log("ksni activate() (single click)"@),
        click_deeds(opts, running, present).skip(1) == activate_deeds(opts, running, present),
        ({
            let menu = menu_entries(opts);
            &&& menu.len() == 3
            &&& menu[0] is Item && menu[0]->action == MenuAction::Activate && menu[0]->label
                == "Open"@ && menu[0]->icon_name == opts.icon
            &&& menu[1] is Separator
            &&& menu[2] is Item && menu[2]->action == MenuAction::Quit && menu[2]->label
                == "Quit"@ && menu[2]->icon_name == "application-exit"@
        }),
{
    assert(click_deeds(opts, running, present).skip(1) =~= activate_deeds(opts, running, present));
}

/// The tray item is named after the web app, and so items of different web apps have different
/// names.
pub proof fn law_items_are_named_apart(a: OptionsModel, b: OptionsModel)
    ensures
        item_name(a) == "ffwebapps-"@ + a.id,
        item_name(a) == item_name(b) ==> a.id == b.id,
{
    if item_name(a) == item_name(b) {
        let n = "ffwebapps-"@.len() as int;
        assert(item_name(a).skip(n) =~= a.id);
        assert(item_name(b).skip(n) =~= b.id);
    }
}

/// Cleaning up removes five files, and does nothing but remove.
pub proof fn law_cleaning_up_only_removes(opts: OptionsModel)
    ensures
        cleanup_deeds(opts).len() == 5,
        cleanup_deeds(opts).contains(Deed::Remove(opts.unread_file)),
        cleanup_deeds(opts).contains(Deed::Remove(opts.hide_file)),
        cleanup_deeds(opts).contains(Deed::Remove(opts.show_file)),
        cleanup_deeds(opts).contains(Deed::Remove(opts.hidden_file)),
        cleanup_deeds(opts).contains(Deed::Remove(opts.pid_file())),
        forall|i: int|
            0 <= i < cleanup_deeds(opts).len() ==> (#[trigger] cleanup_deeds(opts)[i]) is Remove,
{
    let deeds = cleanup_deeds(opts);
    assert(deeds[0] == Deed::Remove(opts.unread_file));
    assert(deeds[1] == Deed::Remove(opts.hide_file));
    assert(deeds[2] == Deed::Remove(opts.show_file));
    assert(deeds[3] == Deed::Remove(opts.hidden_file));
    assert(deeds[4] == Deed::Remove(opts.pid_file()));
}

/// Quitting asks the runtime to end where its number is known, and waits five seconds for it then;
/// where none is known it does neither.
pub proof fn law_quitting_asks_and_waits(running: Option<Seq<char>>)
    ensures
        quit_deeds(running)[0] == Deed::Log("quit: terminating runtime"@),
        pid_of(running) is None ==> quit_deeds(running).len() == 1,
        pid_of(running) matches Some(pid) ==> quit_deeds(running).skip(1) == seq![
            Deed::Call(seq!["kill"@, "-TERM"@, signed_text(pid as int)]),
            Deed::Sleep(5000),
        ],
{
    if pid_of(running) is Some {
        let pid = pid_of(running)->0;
        assert(quit_deeds(running).skip(1) =~= seq![
            Deed::Call(seq!["kill"@, "-TERM"@, signed_text(pid as int)]),
            Deed::Sleep(5000),
        ]);
    }
}

/// When quitting ends, a runtime is killed just where it is still alive; then the tray cleans up and
/// ends without a fault, and does nothing else.
pub proof fn law_quitting_kills_what_is_left(
    opts: OptionsModel,
    running: Option<Seq<char>>,
    present: Seq<Seq<char>>,
)
    ensures
        !alive(running, present) ==> quit_end_deeds(opts, running, present) == cleanup_deeds(
            opts,
        ).push(Deed::Exit(0)),
        alive(running, present) ==> quit_end_deeds(opts, running, present) == seq![
            Deed::Call(seq!["kill"@, "-KILL"@, signed_text(pid_of(running)->0 as int)]),
        ] + cleanup_deeds(opts).push(Deed::Exit(0)),
{
    let deeds = quit_end_deeds(opts, running, present);
    if alive(running, present) {
        assert(deeds =~= seq![
            Deed::Call(seq!["kill"@, "-KILL"@, signed_text(pid_of(running)->0 as int)]),
        ] + cleanup_deeds(opts).push(Deed::Exit(0)));
    } else {
        assert(deeds =~= cleanup_deeds(opts).push(Deed::Exit(0)));
    }
}

/// The badge is there, and the text under the pointer tells the number, just while there are unread
/// messages.
pub proof fn law_the_badge_tells_of_unread_messages(unread: u32)
    ensures
        unread == 0 ==> badge(unread).len() == 0 && unread_note(unread).len() == 0,
        unread > 0 ==> badge(unread) == "mail-unread"@ && unread_note(unread) == decimal_text(
            unread as nat,
        ) + " unread"@,
{
    reveal_strlit("");
}

/// A look at the runtime does nothing while the runtime is alive, or not yet up and still in time;
/// otherwise the tray says why in the log, cleans up and ends. It goes on to the requests to hide,
/// and keeps the count.
pub proof fn law_a_look_at_the_runtime(
    opts: OptionsModel,
    watch: Watch,
    running: Option<Seq<char>>,
    present: Seq<Seq<char>>,
    elapsed: u128,
)
    requires
        watch.next == Probe::Runtime,
    ensures
        ({
            let (after, deeds) = watch_next(
                opts,
                watch,
                SightModel::Runtime(running, present, elapsed),
            );
            let lives = alive(running, present);
            &&& after.was_alive == (watch.was_alive || lives)
            &&& after.unread == watch.unread
            &&& after.next == Probe::HideRequest
            &&& lives || !watch.was_alive && elapsed <= 20_000_000_000 ==> deeds.len() == 0
            &&& !lives && watch.was_alive ==> deeds == seq![
                Deed::Log("runtime exited -> tray quitting"@),
            ] + cleanup_deeds(opts).push(Deed::Exit(0))
            &&& !lives && !watch.was_alive && elapsed > 20_000_000_000 ==> deeds == seq![
                Deed::Log("runtime never started -> tray quitting"@),
            ] + cleanup_deeds(opts).push(Deed::Exit(0))
        }),
{
    let deeds = watch_next(opts, watch, SightModel::Runtime(running, present, elapsed)).1;
    if !alive(running, present) {
        if watch.was_alive {
            assert(deeds =~= seq![Deed::Log("runtime exited -> tray quitting"@)] + cleanup_deeds(
                opts,
            ).push(Deed::Exit(0)));
        } else if elapsed > 20_000_000_000 {
            assert(deeds =~= seq![
                Deed::Log("runtime never started -> tray quitting"@),
            ] + cleanup_deeds(opts).push(Deed::Exit(0)));
        }
    }
}

/// A look for a request to hide does nothing without one; with one it takes it away, and hides the
/// window unless it is marked. It goes on to the requests to show, and keeps the rest.
pub proof fn law_a_look_for_a_request_to_hide(
    opts: OptionsModel,
    watch: Watch,
    present: Seq<Seq<char>>,
)
    requires
        watch.next == Probe::HideRequest,
    ensures
        ({
            let (after, deeds) = watch_next(opts, watch, SightModel::HideRequest(present));
            let asked = present.contains(opts.hide_file);
            let marked = present.contains(opts.hidden_file);
            &&& (after.was_alive, after.unread) == (watch.was_alive, watch.unread)
            &&& after.next == Probe::ShowRequest
            &&& !asked ==> deeds.len() == 0
            &&& asked ==> deeds.len() > 0 && deeds[0] == Deed::Remove(opts.hide_file)
            &&& asked && marked ==> deeds.len() == 1
            &&& asked && !marked ==> deeds[1] == Deed::Log("hide request -> hide window"@)
                && deeds.skip(2) == hide_deeds(opts)
        }),
{
    let deeds = watch_next(opts, watch, SightModel::HideRequest(present)).1;
    if present.contains(opts.hide_file) && !present.contains(opts.hidden_file) {
        assert(deeds.skip(2) =~= hide_deeds(opts));
    }
}

/// A look for a request to show does nothing without one; with one it takes it away and shows the
/// window, marked or not. It goes on to the unread messages, and keeps the rest.
pub proof fn law_a_look_for_a_request_to_show(
    opts: OptionsModel,
    watch: Watch,
    present: Seq<Seq<char>>,
)
    requires
        watch.next == Probe::ShowRequest,
    ensures
        ({
            let (after, deeds) = watch_next(opts, watch, SightModel::ShowRequest(present));
            let asked = present.contains(opts.show_file);
            &&& (after.was_alive, after.unread) == (watch.was_alive, watch.unread)
            &&& after.next == Probe::Unread
            &&& !asked ==> deeds.len() == 0
            &&& asked ==> deeds[0] == Deed::Remove(opts.show_file) && deeds[1] == Deed::Log(
                "show request -> restore/raise window"@,
            ) && deeds.skip(2) == show_deeds(opts)
        }),
{
    let deeds = watch_next(opts, watch, SightModel::ShowRequest(present)).1;
    if present.contains(opts.show_file) {
        assert(deeds.skip(2) =~= show_deeds(opts));
    }
}

/// A look at the unread messages has the icon drawn anew just where the count has changed and there
/// is an icon, and ends the round with a wait of a quarter of a second.
pub proof fn law_a_look_at_the_unread_messages(
    opts: OptionsModel,
    watch: Watch,
    contents: Option<Seq<char>>,
    registered: bool,
)
    requires
        watch.next == Probe::Unread,
    ensures
        ({
            let (after, deeds) = watch_next(opts, watch, SightModel::Unread(contents, registered));
            &&& after.was_alive == watch.was_alive
            &&& after.unread == unread_of(contents)
            &&& after.next == Probe::Runtime
            &&& deeds.last() == Deed::Sleep(250)
            &&& deeds.drop_last() == if registered && unread_of(contents) != watch.unread {
                seq![Deed::Refresh]
            } else {
                seq![]
            }
        }),
{
    let deeds = watch_next(opts, watch, SightModel::Unread(contents, registered)).1;
    if registered && unread_of(contents) != watch.unread {
        assert(deeds.drop_last() =~= seq![Deed::Refresh]);
    } else {
        assert(deeds.drop_last() =~= seq![]);
    }
}

/// A sight of something else than what was to be looked at changes nothing and does nothing.
pub proof fn law_a_sight_out_of_turn(opts: OptionsModel, watch: Watch, sight: SightModel)
    requires
        match sight {
            SightModel::Runtime(..) => watch.next != Probe::Runtime,
            SightModel::HideRequest(..) => watch.next != Probe::HideRequest,
            SightModel::ShowRequest(..) => watch.next != Probe::ShowRequest,
            SightModel::Unread(..) => watch.next != Probe::Unread,
        },
    ensures
        watch_next(opts, watch, sight).0 == watch,
        watch_next(opts, watch, sight).1.len() == 0,
{
}

/// A tray begins just where it is told a web app, and otherwise complains and fails.
pub proof fn law_a_tray_needs_a_web_app(opts: OptionsModel)
    ensures
        ({
            let (stage, deeds) = run_next(opts, RunStage::Start, RunEventModel::Begin);
            &&& opts.id.len() > 0 ==> stage == RunStage::Guard && deeds.len() == 0
            &&& opts.id.len() == 0 ==> stage == RunStage::Stopped && deeds == seq![
                Deed::Complain("ffwebapps-tray: --id is required"@),
                Deed::Exit(1),
            ]
        }),
{
}

/// A tray gives way just to another process that is alive under the number left behind and whose
/// flags name the same web app; otherwise it leaves its own number and goes on.
pub proof fn law_a_tray_gives_way_to_another(
    opts: OptionsModel,
    contents: Option<Seq<char>>,
    present: Seq<Seq<char>>,
    program: Seq<char>,
    args: Seq<Seq<char>>,
    own: u32,
)
    ensures
        ({
            let words = seq![program] + args;
            let (stage, deeds) = run_next(
                opts,
                RunStage::Guard,
                RunEventModel::Guarded(contents, present, words, own),
            );
            let other = match pid_of(contents) {
                Some(pid) => pid as int != own as int && present.contains(
                    "/proc/"@ + signed_text(pid as int),
                ) && Flags::unset().after(args).id == opts.id,
                None => false,
            };
            &&& served(opts.id, contents, present, words, own) == other
            &&& other ==> stage == RunStage::Stopped && deeds.len() == 0
            &&& !other ==> stage == RunStage::Count && deeds == seq![
                Deed::Write(opts.pid_file(), decimal_text(own as nat)),
            ]
            &&& !served(opts.id, contents, present, seq![], own)
        }),
{
    assert((seq![program] + args).skip(1) =~= args);
}

/// A tray serves with the count that it has read, and when its icon is gone it waits half a second
/// and registers it anew.
pub proof fn law_a_tray_counts_and_serves(
    opts: OptionsModel,
    contents: Option<Seq<char>>,
    unread: u32,
)
    ensures
        run_next(opts, RunStage::Count, RunEventModel::Counted(contents)).0 == RunStage::Serve(
            unread_of(contents),
        ),
        run_next(opts, RunStage::Count, RunEventModel::Counted(contents)).1.len() == 0,
        run_next(opts, RunStage::Serve(unread), RunEventModel::Ended) == (
            RunStage::Serve(unread),
            seq![Deed::Log("tray service ended -> re-registering"@), Deed::Sleep(500)],
        ),
{
}

/// An event that does not answer the stage changes nothing and does nothing.
pub proof fn law_a_tray_waits_for_its_answer(
    opts: OptionsModel,
    stage: RunStage,
    event: RunEventModel,
)
    requires
        match event {
            RunEventModel::Begin => stage != RunStage::Start,
            RunEventModel::Guarded(..) => stage != RunStage::Guard,
            RunEventModel::Counted(_) => stage != RunStage::Count,
            RunEventModel::Ended => !(stage is Serve),
        },
    ensures
        run_next(opts, stage, event).0 == stage,
        run_next(opts, stage, event).1.len() == 0,
{
}

/// The session's directory is the one that the environment names, if it names one.
pub proof fn law_the_environment_names_the_directory(dir: Seq<char>)
    ensures
        session_dir(Some(dir)) == dir,
        session_dir(None) == "/tmp"@,
{
}

} // verus!
