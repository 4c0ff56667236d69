//! Keyboard and mouse handling of the sandbox as a state machine.
//!
//! Gravity in the sandbox only ever changes by whole steps of 100 px/s² or is
//! reset to (0, -500), so it is held here exactly as integers.

use vstd::prelude::*;

verus! {

/// One arrow-key press moves gravity by this many px/s² along its axis.
pub const GRAVITY_STEP: i64 = 100;

/// Horizontal component of the default gravity, in px/s².
pub const DEFAULT_GRAVITY_X: i64 = 0;

/// Vertical component of the default gravity, in px/s² (downward).
pub const DEFAULT_GRAVITY_Y: i64 = -500;

/// What was just pressed during one frame.
#[derive(Clone, Copy, Debug, PartialEq, Eq, Structural)]
pub struct SandboxInput {
    /// Right arrow: gravity x += 100.
    pub arrow_right: bool,
    /// Left arrow: gravity x -= 100.
    pub arrow_left: bool,
    /// Up arrow: gravity y += 100.
    pub arrow_up: bool,
    /// Down arrow: gravity y -= 100.
    pub arrow_down: bool,
    /// `C`: remove every body that has a collider (the balls, the ground and
    /// the walls).
    pub key_c: bool,
    /// `R`: reset gravity to its default.
    pub key_r: bool,
    /// `E`: spawn the explosion ring of balls.
    pub key_e: bool,
    /// `F3`: toggle the debug visualisation.
    pub f3: bool,
    /// Left mouse button: spawn a ball at the cursor.
    pub mouse_left: bool,
}

/// The sandbox's adjustable settings: gravity in whole px/s², and whether
/// debug drawing is on.
#[derive(Clone, Copy, Debug, PartialEq, Eq, Structural)]
pub struct SandboxControls {
    pub gravity_x: i64,
    pub gravity_y: i64,
    pub debug: bool,
}

/// The mathematical state of [`SandboxControls`].
pub struct ControlsView {
    pub gravity_x: int,
    pub gravity_y: int,
    pub debug: bool,
}

/// What the rest of the program has to do after a frame's input.
#[derive(Clone, Copy, Debug, PartialEq, Eq, Structural)]
pub struct SandboxActions {
    /// Spawn a ball at the cursor (if the cursor maps into the world).
    pub spawn_at_cursor: bool,
    /// Despawn every body with a collider that existed at the start of the
    /// frame: the balls, and the ground and walls, which carry box colliders
    /// (see `scene::sandbox_scene`).
    pub clear_bodies: bool,
    /// Spawn the explosion ring (see `scene::explosion_ring`).
    pub explosion: bool,
    /// The debug flag flipped; report its new value.
    pub debug_changed: bool,
}

/// A message about one thing that a frame's input did, in the order in which
/// it happened. Gravity reports give gravity right after that key's change.
#[derive(Clone, Copy, Debug, PartialEq, Eq, Structural)]
pub enum ControlReport {
    GravityRight { x: i64, y: i64 },
    GravityLeft { x: i64, y: i64 },
    GravityUp { x: i64, y: i64 },
    GravityDown { x: i64, y: i64 },
    Cleared,
    GravityReset,
    Explosion,
    Debug { on: bool },
}

/// Everything one frame's input leads to besides the new settings.
pub struct FrameOutcome {
    /// What the program has to do.
    pub actions: SandboxActions,
    /// What it reports, in order.
    pub reports: Vec<ControlReport>,
}

impl View for SandboxControls {
    type V = ControlsView;

    open spec fn view(&self) -> ControlsView {
        ControlsView { gravity_x: self.gravity_x as int, gravity_y: self.gravity_y as int, debug: self.debug }
    }
}

/// One axis of gravity after the "plus" and "minus" keys of that axis.
pub open spec fn axis_after(g: int, plus: bool, minus: bool) -> int {
    g + (if plus { GRAVITY_STEP as int } else { 0 }) - (if minus { GRAVITY_STEP as int } else { 0 })
}

/// The change that one frame's arrow keys make to one axis.
pub open spec fn axis_delta(plus: bool, minus: bool) -> int {
    axis_after(0, plus, minus)
}

/// The settings as they are when the sandbox starts.
pub open spec fn default_controls() -> ControlsView {
    ControlsView { gravity_x: DEFAULT_GRAVITY_X as int, gravity_y: DEFAULT_GRAVITY_Y as int, debug: false }
}

/// The settings after one frame's input: arrow keys nudge gravity, `R`
/// (handled after the arrows) overrides gravity with the default, `F3` flips
/// the debug flag.
pub open spec fn next_controls(c: ControlsView, input: SandboxInput) -> ControlsView {
    ControlsView {
        gravity_x: if input.key_r {
            DEFAULT_GRAVITY_X as int
        } else {
            axis_after(c.gravity_x, input.arrow_right, input.arrow_left)
        },
        gravity_y: if input.key_r {
            DEFAULT_GRAVITY_Y as int
        } else {
            axis_after(c.gravity_y, input.arrow_up, input.arrow_down)
        },
        debug: c.debug != input.f3,
    }
}

/// The actions that one frame's input asks for.
pub open spec fn actions_for(input: SandboxInput) -> SandboxActions {
    SandboxActions {
        spawn_at_cursor: input.mouse_left,
        clear_bodies: input.key_c,
        explosion: input.key_e,
        debug_changed: input.f3,
    }
}

/// `report` alone when `happened`, nothing otherwise.
pub open spec fn report_if(happened: bool, report: ControlReport) -> Seq<ControlReport> {
    if happened {
        seq![report]
    } else {
        Seq::empty()
    }
}

/// The messages of one frame, in order: one per arrow key (Right, Left, Up,
/// Down, each with gravity right after it), then clear, reset, explosion,
/// and the new debug state when `F3` was pressed.
pub open spec fn reports_for(c: ControlsView, input: SandboxInput) -> Seq<ControlReport> {
    let x1 = axis_after(c.gravity_x, input.arrow_right, false);
    let x2 = axis_after(c.gravity_x, input.arrow_right, input.arrow_left);
    let y1 = axis_after(c.gravity_y, input.arrow_up, false);
    let y2 = axis_after(c.gravity_y, input.arrow_up, input.arrow_down);
    report_if(input.arrow_right, ControlReport::GravityRight { x: x1 as i64, y: c.gravity_y as i64 })
        + report_if(input.arrow_left, ControlReport::GravityLeft { x: x2 as i64, y: c.gravity_y as i64 })
        + report_if(input.arrow_up, ControlReport::GravityUp { x: x2 as i64, y: y1 as i64 })
        + report_if(input.arrow_down, ControlReport::GravityDown { x: x2 as i64, y: y2 as i64 })
        + report_if(input.key_c, ControlReport::Cleared)
        + report_if(input.key_r, ControlReport::GravityReset)
        + report_if(input.key_e, ControlReport::Explosion)
        + report_if(input.f3, ControlReport::Debug { on: c.debug != input.f3 })
}

/// The same input with the arrow keys released.
pub open spec fn without_arrows(input: SandboxInput) -> SandboxInput {
    SandboxInput { arrow_right: false, arrow_left: false, arrow_up: false, arrow_down: false, ..input }
}

/// A gravity component leaves room for one more step either way in an `i64`.
pub open spec fn gravity_in_range(g: int) -> bool {
    i64::MIN + GRAVITY_STEP <= g && g <= i64::MAX - GRAVITY_STEP
}

/// Both gravity components lie on the grid of whole steps.
pub open spec fn gravity_on_grid(c: ControlsView) -> bool {
    c.gravity_x % (GRAVITY_STEP as int) == 0 && c.gravity_y % (GRAVITY_STEP as int) == 0
}

/// Flips the debug flag when `F3` was just pressed, and keeps it otherwise.
pub fn toggle_debug(debug: bool, f3_pressed: bool) -> (toggled: bool)
    ensures
        toggled == (debug != f3_pressed),
{
    if f3_pressed {
        !debug
    } else {
        debug
    }
}

impl SandboxControls {
    /// Whether another frame of input can be applied without leaving `i64`.
    pub open spec fn within_limits(self) -> bool {
        gravity_in_range(self.gravity_x as int) && gravity_in_range(self.gravity_y as int)
    }

    /// The settings at start-up: gravity (0, -500) px/s², debug drawing off.
    pub fn new() -> (controls: Self)
        ensures
            controls@ == default_controls(),
            controls.within_limits(),
    {
        SandboxControls { gravity_x: DEFAULT_GRAVITY_X, gravity_y: DEFAULT_GRAVITY_Y, debug: false }
    }

    /// Tells whether [`SandboxControls::step`] may be called on these settings.
    pub fn can_step(&self) -> (ok: bool)
        ensures
            ok == self.within_limits(),
    {
        i64::MIN + GRAVITY_STEP <= self.gravity_x && self.gravity_x <= i64::MAX - GRAVITY_STEP
            && i64::MIN + GRAVITY_STEP <= self.gravity_y && self.gravity_y <= i64::MAX
            - GRAVITY_STEP
    }

    /// Applies one frame's input: the arrow keys adjust gravity by one step
    /// each, `R` then resets gravity to (0, -500), `F3` flips the debug flag.
    /// Returns what the frame's input asks the program to do and the
    /// messages it reports.
    pub fn step(&mut self, input: &SandboxInput) -> (outcome: FrameOutcome)
        requires
            old(self).within_limits(),
        ensures
            final(self)@ == next_controls(old(self)@, *input),
            outcome.actions == actions_for(*input),
            outcome.reports@ == reports_for(old(self)@, *input),
    {
        let ghost c = self@;
        let mut reports: Vec<ControlReport> = Vec::new();
        self.apply_horizontal(input, &mut reports);
        self.apply_vertical(input, &mut reports);
        let actions = self.apply_keys(input, &mut reports);
        assert(reports@ =~= reports_for(c, *input));
        FrameOutcome { actions, reports }
    }

    /// Right then Left arrow on the horizontal axis, each reported.
    fn apply_horizontal(&mut self, input: &SandboxInput, reports: &mut Vec<ControlReport>)
        requires
            gravity_in_range(old(self).gravity_x as int),
        ensures
            final(self).gravity_x == axis_after(old(self).gravity_x as int, input.arrow_right, input.arrow_left),
            final(self).gravity_y == old(self).gravity_y,
            final(self).debug == old(self).debug,
            final(reports)@ == old(reports)@ + report_if(
                input.arrow_right,
                ControlReport::GravityRight {
                    x: axis_after(old(self).gravity_x as int, true, false) as i64,
                    y: old(self).gravity_y,
                },
            ) + report_if(
                input.arrow_left,
                ControlReport::GravityLeft {
                    x: axis_after(old(self).gravity_x as int, input.arrow_right, true) as i64,
                    y: old(self).gravity_y,
                },
            ),
    {
        let ghost r0 = reports@;
        if input.arrow_right {
            self.gravity_x = self.gravity_x + GRAVITY_STEP;
            reports.push(ControlReport::GravityRight { x: self.gravity_x, y: self.gravity_y });
        }
        let ghost r1 = reports@;
        if input.arrow_left {
            self.gravity_x = self.gravity_x - GRAVITY_STEP;
            reports.push(ControlReport::GravityLeft { x: self.gravity_x, y: self.gravity_y });
        }
        assert(r1 =~= r0 + report_if(
            input.arrow_right,
            ControlReport::GravityRight {
                x: axis_after(old(self).gravity_x as int, true, false) as i64,
                y: old(self).gravity_y,
            },
        ));
    }

    /// Up then Down arrow on the vertical axis, each reported.
    fn apply_vertical(&mut self, input: &SandboxInput, reports: &mut Vec<ControlReport>)
        requires
            gravity_in_range(old(self).gravity_y as int),
        ensures
            final(self).gravity_y == axis_after(old(self).gravity_y as int, input.arrow_up, input.arrow_down),
            final(self).gravity_x == old(self).gravity_x,
            final(self).debug == old(self).debug,
            final(reports)@ == old(reports)@ + report_if(
                input.arrow_up,
                ControlReport::GravityUp {
                    x: old(self).gravity_x,
                    y: axis_after(old(self).gravity_y as int, true, false) as i64,
                },
            ) + report_if(
                input.arrow_down,
                ControlReport::GravityDown {
                    x: old(self).gravity_x,
                    y: axis_after(old(self).gravity_y as int, input.arrow_up, true) as i64,
                },
            ),
    {
        let ghost r0 = reports@;
        if input.arrow_up {
            self.gravity_y = self.gravity_y + GRAVITY_STEP;
            reports.push(ControlReport::GravityUp { x: self.gravity_x, y: self.gravity_y });
        }
        let ghost r1 = reports@;
        if input.arrow_down {
            self.gravity_y = self.gravity_y - GRAVITY_STEP;
            reports.push(ControlReport::GravityDown { x: self.gravity_x, y: self.gravity_y });
        }
        assert(r1 =~= r0 + report_if(
            input.arrow_up,
            ControlReport::GravityUp {
                x: old(self).gravity_x,
                y: axis_after(old(self).gravity_y as int, true, false) as i64,
            },
        ));
    }

    /// `C`, `R`, `E` and `F3`, each reported, and the frame's actions.
    fn apply_keys(&mut self, input: &SandboxInput, reports: &mut Vec<ControlReport>) -> (actions:
        SandboxActions)
        ensures
            final(self).gravity_x == (if input.key_r { DEFAULT_GRAVITY_X } else { old(self).gravity_x }),
            final(self).gravity_y == (if input.key_r { DEFAULT_GRAVITY_Y } else { old(self).gravity_y }),
            final(self).debug == (old(self).debug != input.f3),
            final(reports)@ == old(reports)@ + report_if(input.key_c, ControlReport::Cleared)
                + report_if(input.key_r, ControlReport::GravityReset) + report_if(
                input.key_e,
                ControlReport::Explosion,
            ) + report_if(input.f3, ControlReport::Debug { on: old(self).debug != input.f3 }),
            actions == actions_for(*input),
    {
        let ghost r0 = reports@;
        if input.key_c {
            reports.push(ControlReport::Cleared);
        }
        let ghost r1 = reports@;
        assert(r1 =~= r0 + report_if(input.key_c, ControlReport::Cleared));
        if input.key_r {
            self.gravity_x = DEFAULT_GRAVITY_X;
            self.gravity_y = DEFAULT_GRAVITY_Y;
            reports.push(ControlReport::GravityReset);
        }
        let ghost r2 = reports@;
        assert(r2 =~= r1 + report_if(input.key_r, ControlReport::GravityReset));
        if input.key_e {
            reports.push(ControlReport::Explosion);
        }
        let ghost r3 = reports@;
        assert(r3 =~= r2 + report_if(input.key_e, ControlReport::Explosion));
        self.debug = toggle_debug(self.debug, input.f3);
        if input.f3 {
            reports.push(ControlReport::Debug { on: self.debug });
        }
        assert(reports@ =~= r3 + report_if(input.f3, ControlReport::Debug { on: old(self).debug != input.f3 }));
        SandboxActions {
            spawn_at_cursor: input.mouse_left,
            clear_bodies: input.key_c,
            explosion: input.key_e,
            debug_changed: input.f3,
        }
    }

    /// Applies one frame's input like [`SandboxControls::step`] when gravity
    /// is within the limits of `i64`; otherwise the arrow keys are ignored
    /// (gravity could not be adjusted further) and everything else is applied.
    pub fn step_checked(&mut self, input: &SandboxInput) -> (outcome: FrameOutcome)
        ensures
            old(self).within_limits() ==> final(self)@ == next_controls(old(self)@, *input),
            old(self).within_limits() ==> outcome.reports@ == reports_for(old(self)@, *input),
            !old(self).within_limits() ==> final(self)@ == next_controls(
                old(self)@,
                without_arrows(*input),
            ),
            !old(self).within_limits() ==> outcome.reports@ == reports_for(
                old(self)@,
                without_arrows(*input),
            ),
            outcome.actions == actions_for(*input),
    {
        if self.can_step() {
            self.step(input)
        } else {
            let held = SandboxInput {
                arrow_right: false,
                arrow_left: false,
                arrow_up: false,
                arrow_down: false,
                ..*input
            };
            // With the arrows released, gravity either stays or is reset to the default.
            let outcome = self.step_without_arrows(&held);
            assert(actions_for(held) == actions_for(*input));
            outcome
        }
    }

    /// Applies a frame's input in which no arrow key is pressed; this never
    /// leaves the `i64` range, whatever the gravity.
    fn step_without_arrows(&mut self, input: &SandboxInput) -> (outcome: FrameOutcome)
        requires
            !input.arrow_right && !input.arrow_left && !input.arrow_up && !input.arrow_down,
        ensures
            final(self)@ == next_controls(old(self)@, *input),
            outcome.actions == actions_for(*input),
            outcome.reports@ == reports_for(old(self)@, *input),
    {
        let ghost c = self@;
        let mut reports: Vec<ControlReport> = Vec::new();
        let actions = self.apply_keys(input, &mut reports);
        assert(reports@ =~= reports_for(c, *input));
        FrameOutcome { actions, reports }
    }
}

/// Law: the settings at start-up have gravity on the grid of whole steps, and
/// every frame's input keeps it there.
pub proof fn law_gravity_stays_on_grid(c: ControlsView, input: SandboxInput)
    requires
        gravity_on_grid(c),
    ensures
        gravity_on_grid(default_controls()),
        gravity_on_grid(next_controls(c, input)),
{
}

/// Law: pressing `R` restores the default gravity, whatever else was pressed
/// in the same frame and whatever the gravity was before.
pub proof fn law_reset_restores_default_gravity(c: ControlsView, input: SandboxInput)
    requires
        input.key_r,
    ensures
        next_controls(c, input).gravity_x == default_controls().gravity_x,
        next_controls(c, input).gravity_y == default_controls().gravity_y,
{
}

/// Law: over frames without `R`, the arrow-key adjustments add up: gravity
/// after two frames is the gravity before plus each frame's change.
pub proof fn law_adjustments_accumulate(c: ControlsView, a: SandboxInput, b: SandboxInput)
    requires
        !a.key_r,
        !b.key_r,
    ensures
        next_controls(next_controls(c, a), b).gravity_x == c.gravity_x + axis_delta(
            a.arrow_right,
            a.arrow_left,
        ) + axis_delta(b.arrow_right, b.arrow_left),
        next_controls(next_controls(c, a), b).gravity_y == c.gravity_y + axis_delta(
            a.arrow_up,
            a.arrow_down,
        ) + axis_delta(b.arrow_up, b.arrow_down),
{
}

/// Law: an arrow press is undone by the opposite arrow press in the next
/// frame: Right then Left restores horizontal gravity, Up then Down restores
/// vertical gravity (in frames without `R`, each pressing one arrow of the axis).
pub proof fn law_opposite_presses_cancel(c: ControlsView, a: SandboxInput, b: SandboxInput)
    requires
        !a.key_r,
        !b.key_r,
    ensures
        a.arrow_right && !a.arrow_left && b.arrow_left && !b.arrow_right ==> next_controls(
            next_controls(c, a),
            b,
        ).gravity_x == c.gravity_x,
        a.arrow_up && !a.arrow_down && b.arrow_down && !b.arrow_up ==> next_controls(
            next_controls(c, a),
            b,
        ).gravity_y == c.gravity_y,
{
}

/// Law: pressing `F3` in two frames leaves the debug flag as it was.
pub proof fn law_debug_toggle_twice_restores(c: ControlsView, a: SandboxInput, b: SandboxInput)
    requires
        a.f3,
        b.f3,
    ensures
        next_controls(next_controls(c, a), b).debug == c.debug,
{
}

/// Law: a frame with nothing pressed changes no setting and asks for no action.
pub proof fn law_idle_frame_changes_nothing(c: ControlsView, input: SandboxInput)
    requires
        !input.arrow_right && !input.arrow_left && !input.arrow_up && !input.arrow_down,
        !input.key_c && !input.key_r && !input.key_e && !input.f3 && !input.mouse_left,
    ensures
        next_controls(c, input) == c,
        !actions_for(input).spawn_at_cursor,
        !actions_for(input).clear_bodies,
        !actions_for(input).explosion,
        !actions_for(input).debug_changed,
{
}

/// Law: each key asks for its own action and no other: a frame spawns a ball
/// at the cursor exactly when the left button was pressed, clears the bodies
/// exactly when `C` was pressed, sets off an explosion exactly when `E` was
/// pressed, and reports a debug change exactly when `F3` was pressed.
pub proof fn law_each_action_comes_from_its_own_key(input: SandboxInput)
    ensures
        actions_for(input).spawn_at_cursor == input.mouse_left,
        actions_for(input).clear_bodies == input.key_c,
        actions_for(input).explosion == input.key_e,
        actions_for(input).debug_changed == input.f3,
{
}

/// Law: the debug flag flips exactly when `F3` was pressed; no other key
/// (arrows, `C`, `R`, `E`, the mouse) touches it.
pub proof fn law_only_f3_changes_debug(c: ControlsView, input: SandboxInput)
    ensures
        !input.f3 ==> next_controls(c, input).debug == c.debug,
        input.f3 ==> next_controls(c, input).debug == !c.debug,
{
}

/// Law: without `R`, each arrow moves its own axis by exactly 100 px/s²
/// (Right and Up add, Left and Down subtract) and nothing else changes
/// gravity; with `R` gravity becomes (0, -500) whatever was pressed.
pub proof fn law_gravity_after_a_frame(c: ControlsView, input: SandboxInput)
    ensures
        !input.key_r ==> next_controls(c, input).gravity_x == c.gravity_x
            + (if input.arrow_right { 100int } else { 0int }) - (if input.arrow_left { 100int } else { 0int }),
        !input.key_r ==> next_controls(c, input).gravity_y == c.gravity_y
            + (if input.arrow_up { 100int } else { 0int }) - (if input.arrow_down { 100int } else { 0int }),
        input.key_r ==> next_controls(c, input).gravity_x == 0 && next_controls(c, input).gravity_y == -500,
{
}

/// Law: the sandbox starts with gravity (0, -500) and debug drawing off.
pub proof fn law_start_up_settings()
    ensures
        default_controls().gravity_x == 0,
        default_controls().gravity_y == -500,
        !default_controls().debug,
{
}

/// Law: arrow keys can be applied to every gravity whose components both lie
/// in `[i64::MIN + 100, i64::MAX - 100]`, and only to those: there a frame's
/// arrows always take effect (`step_checked` then behaves as `step`).
pub proof fn law_limits_are_exactly_the_i64_margin(c: SandboxControls)
    ensures
        c.within_limits() <==> (i64::MIN + 100 <= c.gravity_x && c.gravity_x <= i64::MAX - 100
            && i64::MIN + 100 <= c.gravity_y && c.gravity_y <= i64::MAX - 100),
{
}

/// Law: releasing the arrows keeps every other key of the frame as it was.
pub proof fn law_without_arrows_keeps_other_keys(input: SandboxInput)
    ensures
        !without_arrows(input).arrow_right && !without_arrows(input).arrow_left,
        !without_arrows(input).arrow_up && !without_arrows(input).arrow_down,
        without_arrows(input).key_c == input.key_c,
        without_arrows(input).key_r == input.key_r,
        without_arrows(input).key_e == input.key_e,
        without_arrows(input).f3 == input.f3,
        without_arrows(input).mouse_left == input.mouse_left,
{
}

/// How many of the keys that produce a message were pressed (the mouse
/// produces none).
pub open spec fn pressed_count(input: SandboxInput) -> int {
    (if input.arrow_right { 1int } else { 0int }) + (if input.arrow_left { 1int } else { 0int })
        + (if input.arrow_up { 1int } else { 0int }) + (if input.arrow_down { 1int } else { 0int })
        + (if input.key_c { 1int } else { 0int }) + (if input.key_r { 1int } else { 0int })
        + (if input.key_e { 1int } else { 0int }) + (if input.f3 { 1int } else { 0int })
}

/// Law: a frame reports one message per pressed key; it reports the clear
/// exactly when `C` was pressed, the reset exactly when `R` was pressed, the
/// explosion exactly when `E` was pressed, and the new debug state (the
/// opposite of the old one) exactly when `F3` was pressed.
pub proof fn law_reports_match_the_keys(c: ControlsView, input: SandboxInput)
    ensures
        reports_for(c, input).len() == pressed_count(input),
        reports_for(c, input).contains(ControlReport::Cleared) <==> input.key_c,
        reports_for(c, input).contains(ControlReport::GravityReset) <==> input.key_r,
        reports_for(c, input).contains(ControlReport::Explosion) <==> input.key_e,
        reports_for(c, input).contains(ControlReport::Debug { on: !c.debug }) <==> input.f3,
        !reports_for(c, input).contains(ControlReport::Debug { on: c.debug }),
{
    let x1 = axis_after(c.gravity_x, input.arrow_right, false);
    let x2 = axis_after(c.gravity_x, input.arrow_right, input.arrow_left);
    let y1 = axis_after(c.gravity_y, input.arrow_up, false);
    let y2 = axis_after(c.gravity_y, input.arrow_up, input.arrow_down);
    let a = report_if(input.arrow_right, ControlReport::GravityRight { x: x1 as i64, y: c.gravity_y as i64 });
    let b = report_if(input.arrow_left, ControlReport::GravityLeft { x: x2 as i64, y: c.gravity_y as i64 });
    let u = report_if(input.arrow_up, ControlReport::GravityUp { x: x2 as i64, y: y1 as i64 });
    let d = report_if(input.arrow_down, ControlReport::GravityDown { x: x2 as i64, y: y2 as i64 });
    let cl = report_if(input.key_c, ControlReport::Cleared);
    let rs = report_if(input.key_r, ControlReport::GravityReset);
    let ex = report_if(input.key_e, ControlReport::Explosion);
    let db = report_if(input.f3, ControlReport::Debug { on: c.debug != input.f3 });
    lemma_report_if_contains(input.arrow_right, ControlReport::GravityRight { x: x1 as i64, y: c.gravity_y as i64 });
    lemma_report_if_contains(input.arrow_left, ControlReport::GravityLeft { x: x2 as i64, y: c.gravity_y as i64 });
    lemma_report_if_contains(input.arrow_up, ControlReport::GravityUp { x: x2 as i64, y: y1 as i64 });
    lemma_report_if_contains(input.arrow_down, ControlReport::GravityDown { x: x2 as i64, y: y2 as i64 });
    lemma_report_if_contains(input.key_c, ControlReport::Cleared);
    lemma_report_if_contains(input.key_r, ControlReport::GravityReset);
    lemma_report_if_contains(input.key_e, ControlReport::Explosion);
    lemma_report_if_contains(input.f3, ControlReport::Debug { on: c.debug != input.f3 });
    lemma_concat_contains(a, b);
    lemma_concat_contains(a + b, u);
    lemma_concat_contains(a + b + u, d);
    lemma_concat_contains(a + b + u + d, cl);
    lemma_concat_contains(a + b + u + d + cl, rs);
    lemma_concat_contains(a + b + u + d + cl + rs, ex);
    lemma_concat_contains(a + b + u + d + cl + rs + ex, db);
    assert(reports_for(c, input) == a + b + u + d + cl + rs + ex + db);
}

/// Law: the gravity messages come first, in key order, each giving gravity
/// right after its key: Right reports x + 100 and Left reports x - 100 from
/// the gravity before them (Right's change included), and likewise Up and
/// Down for y; the first message of a frame with Right pressed is Right's.
pub proof fn law_gravity_reports_give_new_gravity(c: ControlsView, input: SandboxInput)
    ensures
        input.arrow_right ==> reports_for(c, input)[0] == (ControlReport::GravityRight {
            x: (c.gravity_x + 100) as i64,
            y: c.gravity_y as i64,
        }),
        !input.arrow_right && input.arrow_left ==> reports_for(c, input)[0] == (ControlReport::GravityLeft {
            x: (c.gravity_x - 100) as i64,
            y: c.gravity_y as i64,
        }),
        input.arrow_right && input.arrow_left ==> reports_for(c, input)[1] == (ControlReport::GravityLeft {
            x: c.gravity_x as i64,
            y: c.gravity_y as i64,
        }),
        !input.arrow_right && !input.arrow_left && input.arrow_up ==> reports_for(c, input)[0] == (
        ControlReport::GravityUp { x: c.gravity_x as i64, y: (c.gravity_y + 100) as i64 }),
        !input.arrow_right && !input.arrow_left && !input.arrow_up && input.arrow_down ==> reports_for(
            c,
            input,
        )[0] == (ControlReport::GravityDown { x: c.gravity_x as i64, y: (c.gravity_y - 100) as i64 }),
{
}

/// A message sequence of at most one message holds exactly that message.
proof fn lemma_report_if_contains(happened: bool, report: ControlReport)
    ensures
        forall|r: ControlReport| #[trigger] report_if(happened, report).contains(r) <==> (happened && r == report),
{
    if happened {
        assert(report_if(happened, report)[0] == report);
    }
}

/// A message is in a concatenation exactly when it is in one of the parts.
proof fn lemma_concat_contains(s: Seq<ControlReport>, t: Seq<ControlReport>)
    ensures
        forall|r: ControlReport| #[trigger] (s + t).contains(r) <==> (s.contains(r) || t.contains(r)),
{
    assert forall|r: ControlReport| #[trigger] (s + t).contains(r) <==> (s.contains(r) || t.contains(r)) by {
        if (s + t).contains(r) {
            let k = choose|k: int| 0 <= k < (s + t).len() && (s + t)[k] == r;
            if k >= s.len() {
                assert(t[k - s.len()] == r);
            }
        }
        if s.contains(r) {
            let k = choose|k: int| 0 <= k < s.len() && s[k] == r;
            assert((s + t)[k] == r);
        }
        if t.contains(r) {
            let k = choose|k: int| 0 <= k < t.len() && t[k] == r;
            assert((s + t)[k + s.len()] == r);
        }
    }
}

} // verus!
