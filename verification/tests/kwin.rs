use ffwebapps::kwin::{
    kwin_command, kwin_run, script_loaded, set_window_hidden, window_plan, Guard, KwinEvent,
    KwinStage, Step, Tool,
};

#[test]
fn the_script_for_hiding() {
    let script = set_window_hidden("FFPWA-X", true);
    assert_eq!(
        script.as_deref(),
        Some(
            "const l=(workspace.windowList?workspace.windowList():workspace.clientList());\
             for(const w of l){ if(w.resourceClass=='FFPWA-X'){ \
             if(w.frameGeometry.x>-10000){ w.skipTaskbar=true; w.skipSwitcher=true; w.skipPager=true; \
             const g=w.frameGeometry; w.frameGeometry={x:g.x-50000, y:g.y, width:g.width, height:g.height}; } \
             } }"
        )
    );
}

#[test]
fn the_script_for_showing() {
    let script = set_window_hidden("FFPWA-X", false);
    assert_eq!(
        script.as_deref(),
        Some(
            "const l=(workspace.windowList?workspace.windowList():workspace.clientList());\
             for(const w of l){ if(w.resourceClass=='FFPWA-X'){ \
             if(w.frameGeometry.x<-10000){ const g=w.frameGeometry; \
             w.frameGeometry={x:g.x+50000, y:g.y, width:g.width, height:g.height}; } \
             w.skipTaskbar=false; w.skipSwitcher=false; w.skipPager=false; w.minimized=false; workspace.activeWindow=w; \
             } }"
        )
    );
}

#[test]
fn no_class_means_no_script() {
    assert!(set_window_hidden("", true).is_none());
    assert!(set_window_hidden("", false).is_none());
}

fn moved(x: i64, hidden: bool) -> i64 {
    let plan = window_plan(hidden);
    let holds = match plan.guard {
        Guard::XAbove(edge) => x > i64::from(edge),
        Guard::XBelow(edge) => x < i64::from(edge),
    };
    let mut x = x;
    if holds {
        for step in plan.guarded {
            if let Step::ShiftX(offset) = step {
                x += i64::from(offset);
            }
        }
    }
    x
}

#[test]
fn hiding_and_showing_come_back_to_the_same_place() {
    for x in [-9999, 0, 500, 39999] {
        let hidden = moved(x, true);
        assert_eq!(hidden, x - 50000);
        assert_eq!(moved(hidden, true), hidden);
        assert_eq!(moved(hidden, false), x);
        assert_eq!(moved(x, false), x);
    }
}

fn stage_text(stage: &KwinStage) -> String {
    match stage {
        KwinStage::Write => "write".to_string(),
        KwinStage::Load(tool) => format!("load {tool:?}"),
        KwinStage::Run(tool, id) => format!("run {tool:?} {id}"),
        KwinStage::Unload(tool) => format!("unload {tool:?}"),
        KwinStage::Finished => "finished".to_string(),
    }
}

#[test]
fn a_script_is_loaded_run_and_unloaded() {
    let mut stage = kwin_run(KwinStage::Write, KwinEvent::Written(true));
    assert_eq!(stage_text(&stage), "load Qdbus6");
    stage = kwin_run(stage, KwinEvent::Ran(true, b" 7\n".to_vec()));
    assert_eq!(stage_text(&stage), "run Qdbus6 7");
    stage = kwin_run(stage, KwinEvent::Ran(false, vec![]));
    assert_eq!(stage_text(&stage), "unload Qdbus6");
    stage = kwin_run(stage, KwinEvent::Ran(false, vec![]));
    assert_eq!(stage_text(&stage), "finished");
    stage = kwin_run(stage, KwinEvent::Ran(true, b"8".to_vec()));
    assert_eq!(stage_text(&stage), "finished");
}

#[test]
fn the_older_program_gets_its_turn() {
    for (success, printed) in [(false, &b"7"[..]), (true, &b""[..]), (true, &b" \n"[..])] {
        let stage = kwin_run(
            KwinStage::Load(Tool::Qdbus6),
            KwinEvent::Ran(success, printed.to_vec()),
        );
        assert_eq!(stage_text(&stage), "load Qdbus");
        let stage = kwin_run(stage, KwinEvent::Ran(success, printed.to_vec()));
        assert_eq!(stage_text(&stage), "finished");
    }
}

#[test]
fn a_script_that_cannot_be_written_is_not_run() {
    let stage = kwin_run(KwinStage::Write, KwinEvent::Written(false));
    assert_eq!(stage_text(&stage), "finished");
}

#[test]
fn an_event_out_of_turn_changes_nothing() {
    let stage = kwin_run(KwinStage::Write, KwinEvent::Ran(true, b"7".to_vec()));
    assert_eq!(stage_text(&stage), "write");
    let stage = kwin_run(KwinStage::Load(Tool::Qdbus), KwinEvent::Written(true));
    assert_eq!(stage_text(&stage), "load Qdbus");
}

#[test]
fn bytes_that_are_no_text_are_replaced() {
    let stage = kwin_run(KwinStage::Load(Tool::Qdbus), KwinEvent::Ran(true, vec![0xff, b'1']));
    assert_eq!(stage_text(&stage), "run Qdbus \u{fffd}1");
}

#[test]
fn what_was_printed_decides() {
    assert_eq!(stage_text(&script_loaded(Tool::Qdbus, true, "12\n")), "run Qdbus 12");
    assert_eq!(stage_text(&script_loaded(Tool::Qdbus, false, "12\n")), "finished");
    assert_eq!(stage_text(&script_loaded(Tool::Qdbus6, true, "\n")), "load Qdbus");
}

#[test]
fn the_command_lines() {
    let path = "/rt/s.js";
    assert_eq!(
        kwin_command(&KwinStage::Load(Tool::Qdbus6), path).unwrap(),
        ["qdbus6", "org.kde.KWin", "/Scripting", "org.kde.kwin.Scripting.loadScript", path]
    );
    assert_eq!(
        kwin_command(&KwinStage::Run(Tool::Qdbus, "3".to_string()), path).unwrap(),
        ["qdbus", "org.kde.KWin", "/Scripting/Script3", "org.kde.kwin.Script.run"]
    );
    assert_eq!(
        kwin_command(&KwinStage::Unload(Tool::Qdbus), path).unwrap(),
        ["qdbus", "org.kde.KWin", "/Scripting", "org.kde.kwin.Scripting.unloadScript", path]
    );
    assert!(kwin_command(&KwinStage::Write, path).is_none());
    assert!(kwin_command(&KwinStage::Finished, path).is_none());
}
