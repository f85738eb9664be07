//! Hiding and showing a window through KWin: the script that does it, and the run of that script
//! over D-Bus.

use vstd::prelude::*;
use vstd::string::StringExecFns;

use crate::text::{
    decimal, decimal_text, from_utf8_lossy, signed_decimal, signed_text, trim, trimmed, utf8_lossy,
};

verus! {

/// One statement of a script, on the window `w`.
#[derive(Clone, Copy, Debug, PartialEq, Eq, Structural)]
pub enum Step {
    SkipTaskbar(bool),
    SkipSwitcher(bool),
    SkipPager(bool),
    Minimized(bool),
    /// Moves the window along the horizontal axis and keeps the rest of its geometry.
    ShiftX(i32),
    Activate,
}

/// A condition on the horizontal position of the window.
#[derive(Clone, Copy, Debug, PartialEq, Eq, Structural)]
pub enum Guard {
    XAbove(i32),
    XBelow(i32),
}

/// What a script does to a window: some steps under a condition, then others in any case.
pub struct Plan {
    pub guard: Guard,
    pub guarded: Vec<Step>,
    pub always: Vec<Step>,
}

/// The model of a `Plan`.
pub ghost struct PlanModel {
    pub guard: Guard,
    pub guarded: Seq<Step>,
    pub always: Seq<Step>,
}

impl View for Plan {
    type V = PlanModel;

    open spec fn view(&self) -> PlanModel {
        PlanModel { guard: self.guard, guarded: self.guarded@, always: self.always@ }
    }
}

/// Left of this a window is off-screen.
pub const SCREEN_EDGE: i32 = -10000;

/// How far a window is moved to hide it.
pub const HIDING_DISTANCE: i32 = 50000;

/// Moves a window that is on-screen off it, and out of the taskbar, switcher and pager.
pub open spec fn hide_plan() -> PlanModel {
    PlanModel {
        guard: Guard::XAbove(SCREEN_EDGE),
        guarded: seq![
            Step::SkipTaskbar(true),
            Step::SkipSwitcher(true),
            Step::SkipPager(true),
            Step::ShiftX((-HIDING_DISTANCE) as i32),
        ],
        always: seq![],
    }
}

/// Moves a window that is off-screen back, and restores and activates it wherever it is.
pub open spec fn show_plan() -> PlanModel {
    PlanModel {
        guard: Guard::XBelow(SCREEN_EDGE),
        guarded: seq![Step::ShiftX(HIDING_DISTANCE)],
        always: seq![
            Step::SkipTaskbar(false),
            Step::SkipSwitcher(false),
            Step::SkipPager(false),
            Step::Minimized(false),
            Step::Activate,
        ],
    }
}

/// The plan for hiding a window, or for showing it.
pub open spec fn plan_for(hidden: bool) -> PlanModel {
    if hidden {
        hide_plan()
    } else {
        show_plan()
    }
}

/// A truth value as the script writes it.
pub open spec fn flag_text(value: bool) -> Seq<char> {
    if value {
        "true;"@
    } else {
        "false;"@
    }
}

/// An offset as the script adds it: with its sign.
pub open spec fn offset_text(offset: int) -> Seq<char> {
    if offset < 0 {
        signed_text(offset)
    } else {
        "+"@ + decimal_text(offset as nat)
    }
}

/// A step as the script writes it.
pub open spec fn step_text(step: Step) -> Seq<char> {
    match step {
        Step::SkipTaskbar(value) => "w.skipTaskbar="@ + flag_text(value),
        Step::SkipSwitcher(value) => "w.skipSwitcher="@ + flag_text(value),
        Step::SkipPager(value) => "w.skipPager="@ + flag_text(value),
        Step::Minimized(value) => "w.minimized="@ + flag_text(value),
        Step::ShiftX(offset) => "const g=w.frameGeometry; w.frameGeometry={x:g.x"@ + offset_text(
            offset as int,
        ) + ", y:g.y, width:g.width, height:g.height};"@,
        Step::Activate => "workspace.activeWindow=w;"@,
    }
}

/// A condition as the script writes it.
pub open spec fn guard_text(guard: Guard) -> Seq<char> {
    match guard {
        Guard::XAbove(edge) => "if(w.frameGeometry.x>"@ + signed_text(edge as int),
        Guard::XBelow(edge) => "if(w.frameGeometry.x<"@ + signed_text(edge as int),
    }
}

/// Steps one after the other, with a space behind each.
pub open spec fn guarded_text(steps: Seq<Step>) -> Seq<char>
    decreases steps.len(),
{
    if steps.len() == 0 {
        Seq::empty()
    } else {
        guarded_text(steps.drop_last()) + step_text(steps.last()) + " "@
    }
}

/// Steps one after the other, with a space before each.
pub open spec fn always_text(steps: Seq<Step>) -> Seq<char>
    decreases steps.len(),
{
    if steps.len() == 0 {
        Seq::empty()
    } else {
        always_text(steps.drop_last()) + " "@ + step_text(steps.last())
    }
}

/// A plan as the script writes it.
pub open spec fn plan_text(plan: PlanModel) -> Seq<char> {
    guard_text(plan.guard) + "){ "@ + guarded_text(plan.guarded) + "}"@ + always_text(plan.always)
}

/// The script that carries out `plan` on every window of the class `wmclass`.
pub open spec fn script_text(wmclass: Seq<char>, plan: PlanModel) -> Seq<char> {
    "const l=(workspace.windowList?workspace.windowList():workspace.clientList());for(const w of l){ if(w.resourceClass=='"@
        + wmclass + "'){ "@ + plan_text(plan) + " } }"@
}

fn push_flag(script: &mut String, value: bool)
    ensures
        final(script)@ == old(script)@ + flag_text(value),
{
    if value {
        script.append("true;");
    } else {
        script.append("false;");
    }
}

fn push_step(script: &mut String, step: Step)
    ensures
        final(script)@ == old(script)@ + step_text(step),
{
    let ghost before = script@;
    match step {
        Step::SkipTaskbar(value) => {
            script.append("w.skipTaskbar=");
            push_flag(script, value);
        },
        Step::SkipSwitcher(value) => {
            script.append("w.skipSwitcher=");
            push_flag(script, value);
        },
        Step::SkipPager(value) => {
            script.append("w.skipPager=");
            push_flag(script, value);
        },
        Step::Minimized(value) => {
            script.append("w.minimized=");
            push_flag(script, value);
        },
        Step::ShiftX(offset) => {
            script.append("const g=w.frameGeometry; w.frameGeometry={x:g.x");
            if offset < 0 {
                script.append(signed_decimal(offset).as_str());
            } else {
                script.append("+");
                script.append(decimal(offset as u32).as_str());
            }
            script.append(", y:g.y, width:g.width, height:g.height};");
        },
        Step::Activate => {
            script.append("workspace.activeWindow=w;");
        },
    }
    assert(script@ =~= before + step_text(step));
}

fn push_guard(script: &mut String, guard: Guard)
    ensures
        final(script)@ == old(script)@ + guard_text(guard),
{
    let ghost before = script@;
    match guard {
        Guard::XAbove(edge) => {
            script.append("if(w.frameGeometry.x>");
            script.append(signed_decimal(edge).as_str());
        },
        Guard::XBelow(edge) => {
            script.append("if(w.frameGeometry.x<");
            script.append(signed_decimal(edge).as_str());
        },
    }
    assert(script@ =~= before + guard_text(guard));
}

fn push_plan(script: &mut String, plan: &Plan)
    ensures
        final(script)@ == old(script)@ + plan_text(plan@),
{
    let ghost before = script@;
    push_guard(script, plan.guard);
    script.append("){ ");
    let ghost opened = script@;
    let mut i: usize = 0;
    assert(plan.guarded@.take(0) =~= Seq::empty());
    while i < plan.guarded.len()
        invariant
            i <= plan.guarded.len(),
            script@ == opened + guarded_text(plan.guarded@.take(i as int)),
        decreases plan.guarded.len() - i,
    {
        let ghost done = plan.guarded@.take(i as int);
        push_step(script, plan.guarded[i]);
        script.append(" ");
        i = i + 1;
        assert(plan.guarded@.take(i as int).drop_last() =~= done);
        assert(script@ =~= opened + guarded_text(plan.guarded@.take(i as int)));
    }
    assert(plan.guarded@.take(i as int) =~= plan.guarded@);
    script.append("}");
    let ghost closed = script@;
    let mut j: usize = 0;
    assert(plan.always@.take(0) =~= Seq::empty());
    while j < plan.always.len()
        invariant
            j <= plan.always.len(),
            script@ == closed + always_text(plan.always@.take(j as int)),
        decreases plan.always.len() - j,
    {
        let ghost done = plan.always@.take(j as int);
        script.append(" ");
        push_step(script, plan.always[j]);
        j = j + 1;
        assert(plan.always@.take(j as int).drop_last() =~= done);
        assert(script@ =~= closed + always_text(plan.always@.take(j as int)));
    }
    assert(plan.always@.take(j as int) =~= plan.always@);
    assert(script@ =~= before + plan_text(plan@));
}

/// What to do to a window to hide it, or to show it.
pub fn window_plan(hidden: bool) -> (r: Plan)
    ensures
        r@ == plan_for(hidden),
{
    if hidden {
        let away: i32 = -HIDING_DISTANCE;
        let r = Plan {
            guard: Guard::XAbove(SCREEN_EDGE),
            guarded: vec![
                Step::SkipTaskbar(true),
                Step::SkipSwitcher(true),
                Step::SkipPager(true),
                Step::ShiftX(away),
            ],
            always: Vec::new(),
        };
        assert(r.guarded@ =~= hide_plan().guarded);
        assert(r.always@ =~= hide_plan().always);
        r
    } else {
        let r = Plan {
            guard: Guard::XBelow(SCREEN_EDGE),
            guarded: vec![Step::ShiftX(HIDING_DISTANCE)],
            always: vec![
                Step::SkipTaskbar(false),
                Step::SkipSwitcher(false),
                Step::SkipPager(false),
                Step::Minimized(false),
                Step::Activate,
            ],
        };
        assert(r.guarded@ =~= show_plan().guarded);
        assert(r.always@ =~= show_plan().always);
        r
    }
}

/// The script that hides the windows of the class `wmclass`, or shows them. There is none for an
/// empty class, which names no window.
pub fn set_window_hidden(wmclass: &str, hidden: bool) -> (r: Option<String>)
    ensures
        r is None <==> wmclass@.len() == 0,
        r matches Some(script) ==> script@ == script_text(wmclass@, plan_for(hidden)),
{
    if wmclass.is_empty() {
        return None;
    }
    let plan = window_plan(hidden);
    let mut script =
        "const l=(workspace.windowList?workspace.windowList():workspace.clientList());for(const w of l){ if(w.resourceClass=='".to_owned();
    script.append(wmclass);
    script.append("'){ ");
    push_plan(&mut script, &plan);
    script.append(" } }");
    Some(script)
}

/// A window, as far as a script reads and changes it.
pub ghost struct Window {
    pub class: Seq<char>,
    pub x: int,
    pub y: int,
    pub width: int,
    pub height: int,
    pub skip_taskbar: bool,
    pub skip_switcher: bool,
    pub skip_pager: bool,
    pub minimized: bool,
}

impl Window {
    /// Both windows have the same position and size.
    pub open spec fn same_geometry(self, other: Window) -> bool {
        self.x == other.x && self.y == other.y && self.width == other.width && self.height
            == other.height
    }
}

/// A window after one step. Being active is not a property of the window.
pub open spec fn after_step(w: Window, step: Step) -> Window {
    match step {
        Step::SkipTaskbar(value) => Window { skip_taskbar: value, ..w },
        Step::SkipSwitcher(value) => Window { skip_switcher: value, ..w },
        Step::SkipPager(value) => Window { skip_pager: value, ..w },
        Step::Minimized(value) => Window { minimized: value, ..w },
        Step::ShiftX(offset) => Window { x: w.x + offset, ..w },
        Step::Activate => w,
    }
}

/// A window after some steps.
pub open spec fn after_steps(w: Window, steps: Seq<Step>) -> Window
    decreases steps.len(),
{
    if steps.len() == 0 {
        w
    } else {
        after_step(after_steps(w, steps.drop_last()), steps.last())
    }
}

/// Whether a condition holds of a window.
pub open spec fn guard_holds(w: Window, guard: Guard) -> bool {
    match guard {
        Guard::XAbove(edge) => w.x > edge,
        Guard::XBelow(edge) => w.x < edge,
    }
}

/// A window after a plan.
pub open spec fn after_plan(w: Window, plan: PlanModel) -> Window {
    let moved = if guard_holds(w, plan.guard) {
        after_steps(w, plan.guarded)
    } else {
        w
    };
    after_steps(moved, plan.always)
}

/// What hiding does to a window.
pub(crate) proof fn lemma_after_hide(w: Window)
    ensures
        after_plan(w, hide_plan()) == (if w.x > SCREEN_EDGE {
            Window {
                x: w.x - HIDING_DISTANCE,
                skip_taskbar: true,
                skip_switcher: true,
                skip_pager: true,
                ..w
            }
        } else {
            w
        }),
{
    let s = hide_plan().guarded;
    reveal_with_fuel(after_steps, 5);
    assert(s.drop_last() =~= seq![s[0], s[1], s[2]]);
    assert(s.drop_last().drop_last() =~= seq![s[0], s[1]]);
    assert(s.drop_last().drop_last().drop_last() =~= seq![s[0]]);
    assert(s.drop_last().drop_last().drop_last().drop_last() =~= seq![]);
}

/// What showing does to a window.
pub(crate) proof fn lemma_after_show(w: Window)
    ensures
        after_plan(w, show_plan()) == (Window {
            x: if w.x < SCREEN_EDGE {
                w.x + HIDING_DISTANCE
            } else {
                w.x
            },
            skip_taskbar: false,
            skip_switcher: false,
            skip_pager: false,
            minimized: false,
            ..w
        }),
{
    let s = show_plan().always;
    reveal_with_fuel(after_steps, 6);
    assert(show_plan().guarded.drop_last() =~= seq![]);
    assert(s.drop_last() =~= seq![s[0], s[1], s[2], s[3]]);
    assert(s.drop_last().drop_last() =~= seq![s[0], s[1], s[2]]);
    assert(s.drop_last().drop_last().drop_last() =~= seq![s[0], s[1]]);
    assert(s.drop_last().drop_last().drop_last().drop_last() =~= seq![s[0]]);
    assert(s.drop_last().drop_last().drop_last().drop_last().drop_last() =~= seq![]);
}

/// A window that is hidden and then shown is back at the same position and size, in the taskbar,
/// switcher and pager, and not minimized. This holds of every window on-screen that hiding can move
/// past the edge; one that begins the hiding distance or more beyond the edge is not moved past it.
pub proof fn law_hide_then_show_restores(w: Window)
    requires
        SCREEN_EDGE < w.x < SCREEN_EDGE + HIDING_DISTANCE,
    ensures
        ({
            let hidden = after_plan(w, hide_plan());
            let shown = after_plan(hidden, show_plan());
            &&& hidden.x < SCREEN_EDGE
            &&& hidden.skip_taskbar && hidden.skip_switcher && hidden.skip_pager
            &&& shown.same_geometry(w)
            &&& !shown.skip_taskbar && !shown.skip_switcher && !shown.skip_pager
            &&& !shown.minimized
        }),
{
    lemma_after_hide(w);
    lemma_after_show(after_plan(w, hide_plan()));
}

/// Hiding takes a window off the screen, unless it begins more than the hiding distance beyond the
/// edge.
pub proof fn law_hiding_leaves_the_screen(w: Window)
    requires
        w.x <= SCREEN_EDGE + HIDING_DISTANCE,
    ensures
        after_plan(w, hide_plan()).x <= SCREEN_EDGE,
{
    lemma_after_hide(w);
}

/// Showing brings a window onto the screen, unless it is more than the hiding distance beyond the
/// edge.
pub proof fn law_showing_enters_the_screen(w: Window)
    requires
        w.x >= SCREEN_EDGE - HIDING_DISTANCE,
    ensures
        after_plan(w, show_plan()).x >= SCREEN_EDGE,
{
    lemma_after_show(w);
}

/// Hiding a window that is off-screen already changes nothing, so one that is hidden is never
/// pushed away twice.
pub proof fn law_hiding_a_hidden_window_changes_nothing(w: Window)
    requires
        w.x <= SCREEN_EDGE,
    ensures
        after_plan(w, hide_plan()) == w,
{
    lemma_after_hide(w);
}

/// Showing a window that is on-screen already leaves its geometry as it is, so a visible one is
/// never pulled away.
pub proof fn law_showing_a_visible_window_moves_nothing(w: Window)
    requires
        w.x >= SCREEN_EDGE,
    ensures
        after_plan(w, show_plan()).same_geometry(w),
{
    lemma_after_show(w);
}

/// Hiding twice is hiding once, for every window that hiding once moves past the edge.
pub proof fn law_hiding_is_idempotent(w: Window)
    requires
        w.x <= SCREEN_EDGE + HIDING_DISTANCE,
    ensures
        after_plan(after_plan(w, hide_plan()), hide_plan()) == after_plan(w, hide_plan()),
{
    lemma_after_hide(w);
    lemma_after_hide(after_plan(w, hide_plan()));
}

/// Showing twice is showing once, for every window that showing once brings back to the edge.
pub proof fn law_showing_is_idempotent(w: Window)
    requires
        w.x >= SCREEN_EDGE - HIDING_DISTANCE,
    ensures
        after_plan(after_plan(w, show_plan()), show_plan()) == after_plan(w, show_plan()),
{
    lemma_after_show(w);
    lemma_after_show(after_plan(w, show_plan()));
}

/// A desktop: its windows, and which of them is active.
pub ghost struct Desktop {
    pub windows: Seq<Window>,
    pub active: Option<int>,
}

/// A class that stands for itself between the quotes of a script.
pub open spec fn names_class(wmclass: Seq<char>) -> bool {
    &&& wmclass.len() > 0
    &&& forall|i: int|
        0 <= i < wmclass.len() ==> (#[trigger] wmclass[i]) != '\'' && wmclass[i] != '\\'
            && wmclass[i] != '\n' && wmclass[i] != '\r'
}

/// A plan makes a window the active one.
pub open spec fn activates(w: Window, plan: PlanModel) -> bool {
    guard_holds(w, plan.guard) && plan.guarded.contains(Step::Activate) || plan.always.contains(
        Step::Activate,
    )
}

/// The active window after a plan has been carried out on those of the first `n` windows that are
/// of the class `wmclass`.
pub open spec fn active_after(
    desktop: Desktop,
    wmclass: Seq<char>,
    plan: PlanModel,
    n: nat,
) -> Option<int>
    decreases n,
{
    if n == 0 {
        desktop.active
    } else if desktop.windows[n - 1].class == wmclass && activates(desktop.windows[n - 1], plan) {
        Some(n - 1)
    } else {
        active_after(desktop, wmclass, plan, (n - 1) as nat)
    }
}

/// A desktop after the script that carries out `plan` on every window of the class `wmclass`, a
/// class that stands for itself in the script.
pub open spec fn after_script(desktop: Desktop, wmclass: Seq<char>, plan: PlanModel) -> Desktop {
    Desktop {
        windows: desktop.windows.map_values(
            |w: Window|
                if w.class == wmclass {
                    after_plan(w, plan)
                } else {
                    w
                },
        ),
        active: active_after(desktop, wmclass, plan, desktop.windows.len()),
    }
}

/// Every window of a class lies strictly between two positions.
pub open spec fn lies_between(desktop: Desktop, wmclass: Seq<char>, low: int, high: int) -> bool {
    forall|i: int|
        0 <= i < desktop.windows.len() && (#[trigger] desktop.windows[i]).class == wmclass ==> low
            < desktop.windows[i].x < high
}

proof fn lemma_hiding_activates_nothing(desktop: Desktop, wmclass: Seq<char>, n: nat)
    ensures
        active_after(desktop, wmclass, hide_plan(), n) == desktop.active,
    decreases n,
{
    if n > 0 {
        lemma_hiding_activates_nothing(desktop, wmclass, (n - 1) as nat);
        assert(!hide_plan().guarded.contains(Step::Activate));
        assert(!hide_plan().always.contains(Step::Activate));
    }
}

proof fn lemma_showing_activates(desktop: Desktop, wmclass: Seq<char>, n: nat)
    requires
        n <= desktop.windows.len(),
    ensures
        match active_after(desktop, wmclass, show_plan(), n) {
            Some(i) => (0 <= i < n && desktop.windows[i].class == wmclass) || desktop.active
                == Some(i),
            None => desktop.active is None,
        },
        (exists|i: int| 0 <= i < n && (#[trigger] desktop.windows[i]).class == wmclass) ==> ({
            let active = active_after(desktop, wmclass, show_plan(), n);
            active is Some && 0 <= active->0 < n && desktop.windows[active->0].class == wmclass
        }),
    decreases n,
{
    if n > 0 {
        lemma_showing_activates(desktop, wmclass, (n - 1) as nat);
        assert(show_plan().always[4] == Step::Activate);
        assert(show_plan().always.contains(Step::Activate));
    }
}

/// A script leaves every window of another class as it is.
pub proof fn law_other_windows_are_left_alone(
    desktop: Desktop,
    wmclass: Seq<char>,
    plan: PlanModel,
)
    ensures
        ({
            let after = after_script(desktop, wmclass, plan);
            &&& after.windows.len() == desktop.windows.len()
            &&& forall|i: int|
                0 <= i < desktop.windows.len() && (#[trigger] desktop.windows[i]).class != wmclass
                    ==> after.windows[i] == desktop.windows[i]
        }),
{
}

/// Hiding makes no window active.
pub proof fn law_hiding_activates_nothing(desktop: Desktop, wmclass: Seq<char>)
    ensures
        after_script(desktop, wmclass, hide_plan()).active == desktop.active,
{
    lemma_hiding_activates_nothing(desktop, wmclass, desktop.windows.len());
}

/// Showing makes a window of the class active, if there is one.
pub proof fn law_showing_activates(desktop: Desktop, wmclass: Seq<char>)
    requires
        exists|i: int|
            0 <= i < desktop.windows.len() && (#[trigger] desktop.windows[i]).class == wmclass,
    ensures
        ({
            let active = after_script(desktop, wmclass, show_plan()).active;
            &&& active is Some
            &&& 0 <= active->0 < desktop.windows.len()
            &&& desktop.windows[active->0].class == wmclass
        }),
{
    lemma_showing_activates(desktop, wmclass, desktop.windows.len());
}

/// On a whole desktop, hiding twice is hiding once: no window of the class is pushed away twice, if
/// hiding once moves each past the edge, and no other window is touched by either.
pub proof fn law_a_second_hiding_changes_nothing(desktop: Desktop, wmclass: Seq<char>)
    requires
        forall|i: int|
            0 <= i < desktop.windows.len() && (#[trigger] desktop.windows[i]).class == wmclass
                ==> desktop.windows[i].x <= SCREEN_EDGE + HIDING_DISTANCE,
    ensures
        ({
            let once = after_script(desktop, wmclass, hide_plan());
            &&& after_script(once, wmclass, hide_plan()) == once
            &&& forall|i: int|
                0 <= i < desktop.windows.len() && (#[trigger] desktop.windows[i]).class != wmclass
                    ==> once.windows[i] == desktop.windows[i]
        }),
{
    let once = after_script(desktop, wmclass, hide_plan());
    let twice = after_script(once, wmclass, hide_plan());
    assert forall|i: int| 0 <= i < desktop.windows.len() implies twice.windows[i]
        == once.windows[i] by {
        let w = desktop.windows[i];
        lemma_after_hide(w);
        if w.class == wmclass {
            law_hiding_is_idempotent(w);
        }
    }
    assert(twice.windows =~= once.windows);
    law_hiding_activates_nothing(desktop, wmclass);
    law_hiding_activates_nothing(once, wmclass);
}

/// What hiding does to a desktop whose windows of the class can be moved past the edge.
pub(crate) proof fn lemma_hidden(desktop: Desktop, wmclass: Seq<char>)
    requires
        lies_between(
            desktop,
            wmclass,
            SCREEN_EDGE - HIDING_DISTANCE,
            SCREEN_EDGE + HIDING_DISTANCE,
        ),
        forall|i: int|
            0 <= i < desktop.windows.len() && (#[trigger] desktop.windows[i]).class == wmclass
                ==> desktop.windows[i].x != SCREEN_EDGE,
    ensures
        ({
            let after = after_script(desktop, wmclass, hide_plan());
            &&& lies_between(after, wmclass, SCREEN_EDGE - HIDING_DISTANCE, SCREEN_EDGE as int)
            &&& forall|i: int|
                0 <= i < desktop.windows.len() ==> (#[trigger] after.windows[i]).class
                    == desktop.windows[i].class
        }),
{
    let after = after_script(desktop, wmclass, hide_plan());
    assert forall|i: int| 0 <= i < desktop.windows.len() implies (
    #[trigger] after.windows[i]).class == desktop.windows[i].class && (desktop.windows[i].class
        == wmclass ==> SCREEN_EDGE - HIDING_DISTANCE < after.windows[i].x < SCREEN_EDGE) by {
        lemma_after_hide(desktop.windows[i]);
    }
}

/// What showing does to a desktop whose windows of the class can be brought back to the edge.
pub(crate) proof fn lemma_shown(desktop: Desktop, wmclass: Seq<char>)
    requires
        lies_between(
            desktop,
            wmclass,
            SCREEN_EDGE - HIDING_DISTANCE,
            SCREEN_EDGE + HIDING_DISTANCE,
        ),
        forall|i: int|
            0 <= i < desktop.windows.len() && (#[trigger] desktop.windows[i]).class == wmclass
                ==> desktop.windows[i].x != SCREEN_EDGE,
    ensures
        ({
            let after = after_script(desktop, wmclass, show_plan());
            &&& lies_between(after, wmclass, SCREEN_EDGE as int, SCREEN_EDGE + HIDING_DISTANCE)
            &&& forall|i: int|
                0 <= i < desktop.windows.len() ==> (#[trigger] after.windows[i]).class
                    == desktop.windows[i].class
        }),
{
    let after = after_script(desktop, wmclass, show_plan());
    assert forall|i: int| 0 <= i < desktop.windows.len() implies (
    #[trigger] after.windows[i]).class == desktop.windows[i].class && (desktop.windows[i].class
        == wmclass ==> SCREEN_EDGE < after.windows[i].x < SCREEN_EDGE + HIDING_DISTANCE) by {
        lemma_after_show(desktop.windows[i]);
    }
}

/// On a whole desktop, windows of the class that are hidden and then shown, or shown and then
/// hidden, are back at the same position and size, and no other window is touched.
pub proof fn law_the_desktop_comes_back(desktop: Desktop, wmclass: Seq<char>)
    ensures
        ({
            let hidden = after_script(desktop, wmclass, hide_plan());
            let shown = after_script(hidden, wmclass, show_plan());
            lies_between(desktop, wmclass, SCREEN_EDGE as int, SCREEN_EDGE + HIDING_DISTANCE)
                ==> same_places(shown, desktop, wmclass)
        }),
        ({
            let shown = after_script(desktop, wmclass, show_plan());
            let hidden = after_script(shown, wmclass, hide_plan());
            lies_between(desktop, wmclass, SCREEN_EDGE - HIDING_DISTANCE, SCREEN_EDGE as int)
                ==> same_places(hidden, desktop, wmclass)
        }),
{
    let hidden = after_script(desktop, wmclass, hide_plan());
    let shown = after_script(desktop, wmclass, show_plan());
    if lies_between(desktop, wmclass, SCREEN_EDGE as int, SCREEN_EDGE + HIDING_DISTANCE) {
        let back = after_script(hidden, wmclass, show_plan());
        assert forall|i: int| 0 <= i < desktop.windows.len() implies same_place(
            #[trigger] back.windows[i],
            desktop.windows[i],
            wmclass,
        ) by {
            lemma_after_hide(desktop.windows[i]);
            lemma_after_show(hidden.windows[i]);
        }
    }
    if lies_between(desktop, wmclass, SCREEN_EDGE - HIDING_DISTANCE, SCREEN_EDGE as int) {
        let back = after_script(shown, wmclass, hide_plan());
        assert forall|i: int| 0 <= i < desktop.windows.len() implies same_place(
            #[trigger] back.windows[i],
            desktop.windows[i],
            wmclass,
        ) by {
            lemma_after_show(desktop.windows[i]);
            lemma_after_hide(shown.windows[i]);
        }
    }
}

/// A window of a class is where it was, in the same size; one of another class is what it was.
pub open spec fn same_place(w: Window, before: Window, wmclass: Seq<char>) -> bool {
    if before.class == wmclass {
        w.class == wmclass && w.same_geometry(before)
    } else {
        w == before
    }
}

/// The windows of a class are where they were, in the same size; the others are what they were.
pub open spec fn same_places(desktop: Desktop, before: Desktop, wmclass: Seq<char>) -> bool {
    &&& desktop.windows.len() == before.windows.len()
    &&& forall|i: int|
        0 <= i < before.windows.len() ==> same_place(
            #[trigger] desktop.windows[i],
            before.windows[i],
            wmclass,
        )
}

/// The script for hiding is not the one for showing.
pub(crate) proof fn lemma_scripts_differ(wmclass: Seq<char>)
    ensures
        script_text(wmclass, hide_plan()) != script_text(wmclass, show_plan()),
{
    let head =
        "const l=(workspace.windowList?workspace.windowList():workspace.clientList());for(const w of l){ if(w.resourceClass=='"@
        + wmclass + "'){ "@;
    let at = head.len() as int + 20;
    reveal_strlit("if(w.frameGeometry.x>");
    reveal_strlit("if(w.frameGeometry.x<");
    assert(guard_text(hide_plan().guard)[20] == '>');
    assert(guard_text(show_plan().guard)[20] == '<');
    assert(script_text(wmclass, hide_plan())[at] == '>');
    assert(script_text(wmclass, show_plan())[at] == '<');
}

/// A program that speaks D-Bus.
#[derive(Clone, Copy, Debug, PartialEq, Eq, Structural)]
pub enum Tool {
    Qdbus6,
    Qdbus,
}

/// How far the run of a script has come: what is to be done next.
pub enum KwinStage {
    /// Write the script to its file.
    Write,
    /// Have KWin load the file.
    Load(Tool),
    /// Have KWin run the script that it loaded under this number.
    Run(Tool, String),
    /// Have KWin forget the script.
    Unload(Tool),
    /// Nothing is left to do.
    Finished,
}

/// The model of a `KwinStage`.
pub ghost enum KwinStageModel {
    Write,
    Load(Tool),
    Run(Tool, Seq<char>),
    Unload(Tool),
    Finished,
}

impl View for KwinStage {
    type V = KwinStageModel;

    open spec fn view(&self) -> KwinStageModel {
        match self {
            KwinStage::Write => KwinStageModel::Write,
            KwinStage::Load(tool) => KwinStageModel::Load(*tool),
            KwinStage::Run(tool, id) => KwinStageModel::Run(*tool, id@),
            KwinStage::Unload(tool) => KwinStageModel::Unload(*tool),
            KwinStage::Finished => KwinStageModel::Finished,
        }
    }
}

/// What came of a stage.
pub enum KwinEvent {
    /// Whether the file could be written.
    Written(bool),
    /// Whether the program could be started and succeeded, and what it printed.
    Ran(bool, Vec<u8>),
}

/// The stage after a program has failed to load the script: the other program's turn, if it has
/// not had it.
pub open spec fn without(tool: Tool) -> KwinStageModel {
    match tool {
        Tool::Qdbus6 => KwinStageModel::Load(Tool::Qdbus),
        Tool::Qdbus => KwinStageModel::Finished,
    }
}

/// The stage after a program has been asked to load the script and printed `printed`: on success
/// and with a script number printed, that script is to run.
pub open spec fn loaded(tool: Tool, success: bool, printed: Seq<char>) -> KwinStageModel {
    let id = trimmed(printed);
    if success && id.len() > 0 {
        KwinStageModel::Run(tool, id)
    } else {
        without(tool)
    }
}

/// The stage after `stage`, once `event` has answered it. An event that does not answer the stage
/// leaves it as it is.
pub open spec fn kwin_next(stage: KwinStageModel, event: KwinEvent) -> KwinStageModel {
    match (stage, event) {
        (KwinStageModel::Write, KwinEvent::Written(success)) => if success {
            KwinStageModel::Load(Tool::Qdbus6)
        } else {
            KwinStageModel::Finished
        },
        (KwinStageModel::Load(tool), KwinEvent::Ran(success, printed)) => loaded(
            tool,
            success,
            utf8_lossy(printed@),
        ),
        (KwinStageModel::Run(tool, _), KwinEvent::Ran(..)) => KwinStageModel::Unload(tool),
        (KwinStageModel::Unload(_), KwinEvent::Ran(..)) => KwinStageModel::Finished,
        _ => stage,
    }
}

/// The stage after a program has been asked to load the script and printed `printed`.
pub fn script_loaded(tool: Tool, success: bool, printed: &str) -> (r: KwinStage)
    ensures
        r@ == loaded(tool, success, printed@),
{
    if success {
        let id = trim(printed);
        if !id.is_empty() {
            return KwinStage::Run(tool, id.to_owned());
        }
    }
    match tool {
        Tool::Qdbus6 => KwinStage::Load(Tool::Qdbus),
        Tool::Qdbus => KwinStage::Finished,
    }
}

/// The run of a script: what is to be done after `stage`, once `event` has answered it. What a
/// program printed is read as the UTF-8 that it is, where it is.
pub fn kwin_run(stage: KwinStage, event: KwinEvent) -> (r: KwinStage)
    ensures
        r@ == kwin_next(stage@, event),
        match (stage, event) {
            (KwinStage::Load(tool), KwinEvent::Ran(success, printed)) => vstd::utf8::valid_utf8(
                printed@,
            ) ==> r@ == loaded(tool, success, vstd::utf8::decode_utf8(printed@)),
            _ => true,
        },
{
    match (stage, event) {
        (KwinStage::Write, KwinEvent::Written(success)) => if success {
            KwinStage::Load(Tool::Qdbus6)
        } else {
            KwinStage::Finished
        },
        (KwinStage::Load(tool), KwinEvent::Ran(success, printed)) => script_loaded(
            tool,
            success,
            from_utf8_lossy(printed.as_slice()).as_str(),
        ),
        (KwinStage::Run(tool, _), KwinEvent::Ran(_, _)) => KwinStage::Unload(tool),
        (KwinStage::Unload(_), KwinEvent::Ran(_, _)) => KwinStage::Finished,
        (stage, _) => stage,
    }
}

/// The name of a program.
pub open spec fn tool_name(tool: Tool) -> Seq<char> {
    match tool {
        Tool::Qdbus6 => "qdbus6"@,
        Tool::Qdbus => "qdbus"@,
    }
}

/// The command line of a stage that runs a program, for the script in the file `path`.
pub open spec fn command_line(stage: KwinStageModel, path: Seq<char>) -> Option<Seq<Seq<char>>> {
    match stage {
        KwinStageModel::Load(tool) => Some(
            seq![
                tool_name(tool),
                "org.kde.KWin"@,
                "/Scripting"@,
                "org.kde.kwin.Scripting.loadScript"@,
                path,
            ],
        ),
        KwinStageModel::Run(tool, id) => Some(
            seq![
                tool_name(tool),
                "org.kde.KWin"@,
                "/Scripting/Script"@ + id,
                "org.kde.kwin.Script.run"@,
            ],
        ),
        KwinStageModel::Unload(tool) => Some(
            seq![
                tool_name(tool),
                "org.kde.KWin"@,
                "/Scripting"@,
                "org.kde.kwin.Scripting.unloadScript"@,
                path,
            ],
        ),
        _ => None,
    }
}

fn name_of(tool: Tool) -> (r: &'static str)
    ensures
        r@ == tool_name(tool),
{
    match tool {
        Tool::Qdbus6 => "qdbus6",
        Tool::Qdbus => "qdbus",
    }
}

/// The program that a stage runs and its arguments, if it runs one.
pub fn kwin_command(stage: &KwinStage, path: &str) -> (r: Option<Vec<String>>)
    ensures
        r.deep_view() == command_line(stage@, path@),
{
    let r = match stage {
        KwinStage::Load(tool) => Some(
            vec![
                name_of(*tool).to_owned(),
                "org.kde.KWin".to_owned(),
                "/Scripting".to_owned(),
                "org.kde.kwin.Scripting.loadScript".to_owned(),
                path.to_owned(),
            ],
        ),
        KwinStage::Run(tool, id) => {
            let mut object = "/Scripting/Script".to_owned();
            object.append(id.as_str());
            Some(
                vec![
                    name_of(*tool).to_owned(),
                    "org.kde.KWin".to_owned(),
                    object,
                    "org.kde.kwin.Script.run".to_owned(),
                ],
            )
        },
        KwinStage::Unload(tool) => Some(
            vec![
                name_of(*tool).to_owned(),
                "org.kde.KWin".to_owned(),
                "/Scripting".to_owned(),
                "org.kde.kwin.Scripting.unloadScript".to_owned(),
                path.to_owned(),
            ],
        ),
        _ => None,
    };
    proof {
        if r is Some {
            assert(r->0.deep_view() =~= command_line(stage@, path@)->0);
        }
    }
    r
}

/// A script that a program had KWin load is run once and then forgotten again, by the same
/// program and whatever came of the run, and nothing follows.
pub proof fn law_a_loaded_script_is_unloaded(
    tool: Tool,
    load: KwinEvent,
    run: KwinEvent,
    unload: KwinEvent,
)
    requires
        kwin_next(KwinStageModel::Load(tool), load) is Run,
        run is Ran,
        unload is Ran,
    ensures
        ({
            let running = kwin_next(KwinStageModel::Load(tool), load);
            let unloading = kwin_next(running, run);
            &&& running->Run_0 == tool
            &&& unloading == KwinStageModel::Unload(tool)
            &&& kwin_next(unloading, unload) == KwinStageModel::Finished
        }),
{
}

} // verus!
