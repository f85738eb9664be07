//! What holds of the scripts for KWin and of their runs.

use vstd::prelude::*;

use crate::kwin::{
    after_plan, command_line, hide_plan, kwin_next, lemma_after_hide, lemma_after_show, plan_for,
    plan_text, script_text, show_plan, KwinEvent, KwinStageModel, Tool, Window,
};
use crate::text::{law_trimming_takes_the_padding, utf8_lossy, white_space};

verus! {

/// A script is loaded, run and unloaded by one and the same program, the one of the tool that the
/// stages carry, and the two tools are different programs.
pub proof fn law_one_program_does_it_all(tool: Tool, id: Seq<char>, path: Seq<char>)
    ensures
        ({
            let load = command_line(KwinStageModel::Load(tool), path);
            let run = command_line(KwinStageModel::Run(tool, id), path);
            let unload = command_line(KwinStageModel::Unload(tool), path);
            let program = if tool == Tool::Qdbus6 {
                "qdbus6"@
            } else {
                "qdbus"@
            };
            &&& load matches Some(line) && line.len() > 0 && line[0] == program
            &&& run matches Some(line) && line.len() > 0 && line[0] == program
            &&& unload matches Some(line) && line.len() > 0 && line[0] == program
        }),
        "qdbus6"@ != "qdbus"@,
{
    reveal_strlit("qdbus6");
    reveal_strlit("qdbus");
    assert("qdbus6"@.len() != "qdbus"@.len());
}

/// Behind the program, each line speaks to KWin. Loading and unloading name the scripting object,
/// their method and the script's file; running names the object with the script's number and its
/// method; nothing follows.
pub proof fn law_a_script_is_addressed(tool: Tool, id: Seq<char>, path: Seq<char>)
    ensures
        ({
            let load = command_line(KwinStageModel::Load(tool), path)->0.skip(1);
            let run = command_line(KwinStageModel::Run(tool, id), path)->0.skip(1);
            let unload = command_line(KwinStageModel::Unload(tool), path)->0.skip(1);
            &&& load.first() == "org.kde.KWin"@
            &&& run.first() == load.first()
            &&& unload.first() == load.first()
            &&& load.last() == path
            &&& unload.last() == path
            &&& load == seq![
                "org.kde.KWin"@,
                "/Scripting"@,
                "org.kde.kwin.Scripting.loadScript"@,
                path,
            ]
            &&& unload == seq![
                "org.kde.KWin"@,
                "/Scripting"@,
                "org.kde.kwin.Scripting.unloadScript"@,
                path,
            ]
            &&& run == seq![
                "org.kde.KWin"@,
                "/Scripting"@ + "/Script"@ + id,
                "org.kde.kwin.Script.run"@,
            ]
        }),
{
    reveal_strlit("/Scripting");
    reveal_strlit("/Script");
    reveal_strlit("/Scripting/Script");
    assert("/Scripting"@ + "/Script"@ =~= "/Scripting/Script"@);
    let load = command_line(KwinStageModel::Load(tool), path)->0.skip(1);
    let run = command_line(KwinStageModel::Run(tool, id), path)->0.skip(1);
    let unload = command_line(KwinStageModel::Unload(tool), path)->0.skip(1);
    assert(load =~= seq![
        "org.kde.KWin"@,
        "/Scripting"@,
        "org.kde.kwin.Scripting.loadScript"@,
        path,
    ]);
    assert(unload =~= seq![
        "org.kde.KWin"@,
        "/Scripting"@,
        "org.kde.kwin.Scripting.unloadScript"@,
        path,
    ]);
    assert(run =~= seq![
        "org.kde.KWin"@,
        "/Scripting"@ + "/Script"@ + id,
        "org.kde.kwin.Script.run"@,
    ]);
}

/// No program is run before the script is written, nor once all is done.
pub proof fn law_no_program_at_the_ends(path: Seq<char>)
    ensures
        command_line(KwinStageModel::Write, path) is None,
        command_line(KwinStageModel::Finished, path) is None,
{
}

/// A script that could be written is first tried with the newer program; one that could not is
/// given up.
pub proof fn law_a_written_script_is_loaded()
    ensures
        kwin_next(KwinStageModel::Write, KwinEvent::Written(true)) == KwinStageModel::Load(
            Tool::Qdbus6,
        ),
        kwin_next(KwinStageModel::Write, KwinEvent::Written(false)) == KwinStageModel::Finished,
{
}

/// A script is run under the number that was printed, without the white space around it, by the
/// program that has loaded it.
pub proof fn law_a_printed_number_is_run(
    tool: Tool,
    printed: Vec<u8>,
    before: Seq<char>,
    id: Seq<char>,
    after: Seq<char>,
)
    requires
        utf8_lossy(printed@) == before + id + after,
        forall|i: int| 0 <= i < before.len() ==> white_space(#[trigger] before[i]),
        forall|i: int| 0 <= i < after.len() ==> white_space(#[trigger] after[i]),
        id.len() > 0,
        !white_space(id.first()),
        !white_space(id.last()),
    ensures
        kwin_next(KwinStageModel::Load(tool), KwinEvent::Ran(true, printed)) == KwinStageModel::Run(
            tool,
            id,
        ),
{
    law_trimming_takes_the_padding(before, id, after);
}

/// Where a program could not load the script, or printed nothing but white space, the older one has
/// its turn, and after the older one nothing is tried any more.
pub proof fn law_a_program_that_fails_is_followed(tool: Tool, success: bool, printed: Vec<u8>)
    requires
        !success || forall|i: int|
            0 <= i < utf8_lossy(printed@).len() ==> white_space(#[trigger] utf8_lossy(printed@)[i]),
    ensures
        kwin_next(KwinStageModel::Load(tool), KwinEvent::Ran(success, printed)) == (if tool
            == Tool::Qdbus6 {
            KwinStageModel::Load(Tool::Qdbus)
        } else {
            KwinStageModel::Finished
        }),
{
    if success {
        let text = utf8_lossy(printed@);
        law_trimming_takes_the_padding(text, Seq::empty(), Seq::empty());
        assert(text + Seq::<char>::empty() + Seq::<char>::empty() =~= text);
    }
}

/// Whatever came of running a script, it is unloaded next, by the same program, and then all is
/// done; an event that does not answer the stage leaves it as it is.
pub proof fn law_a_run_is_followed_by_the_end(
    tool: Tool,
    id: Seq<char>,
    success: bool,
    printed: Vec<u8>,
    written: bool,
    stage: KwinStageModel,
)
    ensures
        kwin_next(KwinStageModel::Run(tool, id), KwinEvent::Ran(success, printed))
            == KwinStageModel::Unload(tool),
        kwin_next(KwinStageModel::Unload(tool), KwinEvent::Ran(success, printed))
            == KwinStageModel::Finished,
        kwin_next(KwinStageModel::Finished, KwinEvent::Ran(success, printed))
            == KwinStageModel::Finished,
        kwin_next(KwinStageModel::Write, KwinEvent::Ran(success, printed)) == KwinStageModel::Write,
        stage != KwinStageModel::Write ==> kwin_next(stage, KwinEvent::Written(written)) == stage,
{
}

/// The script names the class once, between quotes, and is the same for every class otherwise.
pub proof fn law_the_script_names_the_class(wmclass: Seq<char>, hidden: bool)
    ensures
        script_text(wmclass, plan_for(hidden))
            == "const l=(workspace.windowList?workspace.windowList():workspace.clientList());for(const w of l){ if(w.resourceClass=='"@
            + wmclass + "'){ "@ + plan_text(if hidden {
            hide_plan()
        } else {
            show_plan()
        }) + " } }"@,
{
}

/// Hiding moves a window that is on-screen by fifty thousand to the left and takes it out of the
/// taskbar, the switcher and the pager; showing moves one that is off-screen by as much to the
/// right, and puts every one back and unminimizes it; neither changes anything else of a window.
pub proof fn law_what_the_plans_do(w: Window)
    ensures
        ({
            let hidden = after_plan(w, hide_plan());
            &&& hidden.x == (if w.x > -10000 {
                w.x - 50000
            } else {
                w.x
            })
            &&& hidden.skip_taskbar == (w.skip_taskbar || w.x > -10000)
            &&& hidden.skip_switcher == (w.skip_switcher || w.x > -10000)
            &&& hidden.skip_pager == (w.skip_pager || w.x > -10000)
            &&& hidden.minimized == w.minimized
            &&& (hidden.class, hidden.y, hidden.width, hidden.height) == (
                w.class,
                w.y,
                w.width,
                w.height,
            )
        }),
        ({
            let shown = after_plan(w, show_plan());
            &&& shown.x == (if w.x < -10000 {
                w.x + 50000
            } else {
                w.x
            })
            &&& !shown.skip_taskbar && !shown.skip_switcher && !shown.skip_pager
                && !shown.minimized
            &&& (shown.class, shown.y, shown.width, shown.height) == (
                w.class,
                w.y,
                w.width,
                w.height,
            )
        }),
{
    lemma_after_hide(w);
    lemma_after_show(w);
}

} // verus!
