use physics_sandbox::controls::{toggle_debug, ControlReport, SandboxActions, SandboxControls, SandboxInput};

fn idle() -> SandboxInput {
    SandboxInput {
        arrow_right: false,
        arrow_left: false,
        arrow_up: false,
        arrow_down: false,
        key_c: false,
        key_r: false,
        key_e: false,
        f3: false,
        mouse_left: false,
    }
}

#[test]
fn starts_with_default_gravity_and_debug_off() {
    let c = SandboxControls::new();
    assert_eq!(c.gravity_x, 0);
    assert_eq!(c.gravity_y, -500);
    assert!(!c.debug);
    assert!(c.can_step());
}

#[test]
fn right_arrow_adds_one_hundred_to_x() {
    let mut c = SandboxControls::new();
    let input = SandboxInput { arrow_right: true, ..idle() };
    c.step(&input);
    assert_eq!((c.gravity_x, c.gravity_y), (100, -500));
}

#[test]
fn each_arrow_moves_its_axis() {
    let mut c = SandboxControls::new();
    c.step(&SandboxInput { arrow_left: true, ..idle() });
    assert_eq!((c.gravity_x, c.gravity_y), (-100, -500));
    c.step(&SandboxInput { arrow_up: true, ..idle() });
    assert_eq!((c.gravity_x, c.gravity_y), (-100, -400));
    c.step(&SandboxInput { arrow_down: true, ..idle() });
    c.step(&SandboxInput { arrow_down: true, ..idle() });
    assert_eq!((c.gravity_x, c.gravity_y), (-100, -600));
}

#[test]
fn opposite_arrows_in_one_frame_cancel() {
    let mut c = SandboxControls::new();
    c.step(&SandboxInput { arrow_right: true, arrow_left: true, arrow_up: true, arrow_down: true, ..idle() });
    assert_eq!((c.gravity_x, c.gravity_y), (0, -500));
}

#[test]
fn right_then_left_restores_gravity() {
    let mut c = SandboxControls { gravity_x: 300, gravity_y: -200, debug: false };
    c.step(&SandboxInput { arrow_right: true, ..idle() });
    c.step(&SandboxInput { arrow_left: true, ..idle() });
    assert_eq!((c.gravity_x, c.gravity_y), (300, -200));
}

#[test]
fn reset_overrides_arrows_in_the_same_frame() {
    let mut c = SandboxControls { gravity_x: 700, gravity_y: 1200, debug: true };
    let actions = c.step(&SandboxInput { arrow_right: true, arrow_up: true, key_r: true, ..idle() }).actions;
    assert_eq!((c.gravity_x, c.gravity_y), (0, -500));
    assert!(c.debug);
    assert_eq!(
        actions,
        SandboxActions { spawn_at_cursor: false, clear_bodies: false, explosion: false, debug_changed: false }
    );
}

#[test]
fn f3_twice_restores_debug() {
    let mut c = SandboxControls::new();
    let a = c.step(&SandboxInput { f3: true, ..idle() }).actions;
    assert!(c.debug);
    assert!(a.debug_changed);
    c.step(&SandboxInput { f3: true, ..idle() });
    assert!(!c.debug);
}

#[test]
fn actions_follow_the_keys() {
    let mut c = SandboxControls::new();
    let a = c.step(&SandboxInput { key_c: true, key_e: true, mouse_left: true, ..idle() }).actions;
    assert_eq!(
        a,
        SandboxActions { spawn_at_cursor: true, clear_bodies: true, explosion: true, debug_changed: false }
    );
    assert_eq!((c.gravity_x, c.gravity_y), (0, -500));
}

#[test]
fn idle_frame_changes_nothing() {
    let mut c = SandboxControls { gravity_x: -1300, gravity_y: 400, debug: true };
    let out = c.step(&idle());
    let a = out.actions;
    assert!(out.reports.is_empty());
    assert_eq!(c, SandboxControls { gravity_x: -1300, gravity_y: 400, debug: true });
    assert_eq!(
        a,
        SandboxActions { spawn_at_cursor: false, clear_bodies: false, explosion: false, debug_changed: false }
    );
}

#[test]
fn toggle_debug_flips_only_on_f3() {
    assert!(toggle_debug(false, true));
    assert!(!toggle_debug(true, true));
    assert!(toggle_debug(true, false));
    assert!(!toggle_debug(false, false));
}

#[test]
fn can_step_refuses_gravity_at_the_edge_of_i64() {
    let c = SandboxControls { gravity_x: i64::MAX, gravity_y: 0, debug: false };
    assert!(!c.can_step());
    let c = SandboxControls { gravity_x: 0, gravity_y: i64::MIN + 50, debug: false };
    assert!(!c.can_step());
    let c = SandboxControls { gravity_x: i64::MAX - 100, gravity_y: i64::MIN + 100, debug: false };
    assert!(c.can_step());
}

#[test]
fn reports_follow_each_key_in_order() {
    let mut c = SandboxControls::new();
    let out = c.step(&SandboxInput {
        arrow_right: true,
        arrow_left: true,
        arrow_up: true,
        arrow_down: true,
        key_c: true,
        key_r: true,
        key_e: true,
        f3: true,
        mouse_left: true,
    });
    assert_eq!(
        out.reports,
        vec![
            ControlReport::GravityRight { x: 100, y: -500 },
            ControlReport::GravityLeft { x: 0, y: -500 },
            ControlReport::GravityUp { x: 0, y: -400 },
            ControlReport::GravityDown { x: 0, y: -500 },
            ControlReport::Cleared,
            ControlReport::GravityReset,
            ControlReport::Explosion,
            ControlReport::Debug { on: true },
        ]
    );
}

#[test]
fn single_arrow_reports_new_gravity() {
    let mut c = SandboxControls { gravity_x: 200, gravity_y: -300, debug: true };
    let out = c.step(&SandboxInput { arrow_down: true, f3: true, ..idle() });
    assert_eq!(
        out.reports,
        vec![ControlReport::GravityDown { x: 200, y: -400 }, ControlReport::Debug { on: false }]
    );
}

#[test]
fn step_checked_matches_step_within_limits() {
    let mut a = SandboxControls::new();
    let mut b = SandboxControls::new();
    let input = SandboxInput { arrow_left: true, key_e: true, ..idle() };
    let oa = a.step(&input);
    let ob = b.step_checked(&input);
    assert_eq!(a, b);
    assert_eq!(oa.actions, ob.actions);
    assert_eq!(oa.reports, ob.reports);
}

#[test]
fn step_checked_ignores_arrows_at_the_limit_but_applies_the_rest() {
    let mut c = SandboxControls { gravity_x: i64::MAX, gravity_y: 0, debug: false };
    let out = c.step_checked(&SandboxInput { arrow_right: true, f3: true, key_c: true, ..idle() });
    assert_eq!(c, SandboxControls { gravity_x: i64::MAX, gravity_y: 0, debug: true });
    assert!(out.actions.clear_bodies);
    assert_eq!(out.reports, vec![ControlReport::Cleared, ControlReport::Debug { on: true }]);
    let out = c.step_checked(&SandboxInput { arrow_right: true, key_r: true, ..idle() });
    assert_eq!(c, SandboxControls { gravity_x: 0, gravity_y: -500, debug: true });
    assert_eq!(out.reports, vec![ControlReport::GravityReset]);
}
