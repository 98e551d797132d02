use orbit_camera::controller::{
    direction_for_key, CameraController, Direction, Geometry, Key, KeyInput, Turn, UpdatePlan,
};

fn press(c: &mut CameraController, key: Key) -> bool {
    c.process_events(KeyInput { key, pressed: true })
}

fn off_target(beyond_step: bool) -> Geometry {
    Geometry { on_target: false, beyond_step }
}

/// Measures a camera in single precision, as a renderer would.
fn measure(eye: [f32; 3], target: [f32; 3], speed: f32) -> Geometry {
    let d = [target[0] - eye[0], target[1] - eye[1], target[2] - eye[2]];
    let mag = (d[0] * d[0] + d[1] * d[1] + d[2] * d[2]).sqrt();
    Geometry { on_target: mag <= f32::EPSILON, beyond_step: mag > speed }
}

const IDLE: UpdatePlan = UpdatePlan { step_toward: false, step_away: false, turn: Turn::Straight };

#[test]
fn keys_map_to_directions() {
    assert_eq!(direction_for_key(Key::Space), Some(Direction::Up));
    assert_eq!(direction_for_key(Key::KeyW), Some(Direction::Forward));
    assert_eq!(direction_for_key(Key::ArrowUp), Some(Direction::Forward));
    assert_eq!(direction_for_key(Key::KeyA), Some(Direction::Left));
    assert_eq!(direction_for_key(Key::ArrowLeft), Some(Direction::Left));
    assert_eq!(direction_for_key(Key::KeyS), Some(Direction::Backward));
    assert_eq!(direction_for_key(Key::ArrowDown), Some(Direction::Backward));
    assert_eq!(direction_for_key(Key::KeyD), Some(Direction::Right));
    assert_eq!(direction_for_key(Key::ArrowRight), Some(Direction::Right));
    assert_eq!(direction_for_key(Key::Other), None);
}

#[test]
fn new_controller_holds_nothing() {
    let c = CameraController::new();
    assert!(!c.is_up_pressed);
    assert!(!c.is_down_pressed);
    assert!(!c.is_forward_pressed);
    assert!(!c.is_backward_pressed);
    assert!(!c.is_left_pressed);
    assert!(!c.is_right_pressed);
}

#[test]
fn set_direction_changes_one_flag() {
    let mut c = CameraController::new();
    c.set_direction(Direction::Down, true);
    let mut want = CameraController::new();
    want.is_down_pressed = true;
    assert_eq!(c, want);
    c.set_direction(Direction::Right, true);
    want.is_right_pressed = true;
    assert_eq!(c, want);
    c.set_direction(Direction::Down, false);
    want.is_down_pressed = false;
    assert_eq!(c, want);
}

#[test]
fn process_events_consumes_known_keys() {
    let mut c = CameraController::new();
    assert!(press(&mut c, Key::ArrowUp));
    assert!(c.is_forward_pressed);
    assert!(press(&mut c, Key::Space));
    assert!(c.is_up_pressed);
    assert!(c.process_events(KeyInput { key: Key::KeyW, pressed: false }));
    assert!(!c.is_forward_pressed);
    assert!(c.is_up_pressed);
    assert!(press(&mut c, Key::KeyD));
    assert!(c.is_right_pressed);
}

#[test]
fn process_events_ignores_other_keys() {
    let mut c = CameraController::new();
    press(&mut c, Key::KeyA);
    let before = c;
    assert!(!press(&mut c, Key::Other));
    assert!(!c.process_events(KeyInput { key: Key::Other, pressed: false }));
    assert_eq!(c, before);
}

#[test]
fn forward_guard_blocks_step() {
    let mut c = CameraController::new();
    press(&mut c, Key::KeyW);
    // eye one tenth of a unit from the target, step length 0.2
    let g = measure([0.0, 0.0, 0.1], [0.0, 0.0, 0.0], 0.2);
    assert!(!g.beyond_step);
    assert_eq!(c.update_camera(g), IDLE);
    // exactly one step away is not beyond it either
    assert_eq!(c.update_camera(off_target(false)), IDLE);
}

#[test]
fn backward_steps_every_tick() {
    let mut c = CameraController::new();
    press(&mut c, Key::KeyS);
    for _ in 0..10 {
        let plan = c.update_camera(off_target(true));
        assert_eq!(plan, UpdatePlan { step_toward: false, step_away: true, turn: Turn::Straight });
    }
    // no bound when the eye is close, either
    assert!(c.update_camera(off_target(false)).step_away);
}

#[test]
fn no_flags_is_idle() {
    let c = CameraController::new();
    assert_eq!(c.update_camera(off_target(true)), IDLE);
    assert_eq!(c.update_camera(off_target(false)), IDLE);
    assert_eq!(c.update_camera(Geometry { on_target: true, beyond_step: false }), IDLE);
}

#[test]
fn on_target_moves_nothing() {
    let mut c = CameraController::new();
    for key in [Key::KeyW, Key::KeyS, Key::KeyA, Key::KeyD] {
        press(&mut c, key);
    }
    let g = measure([1.0, 2.0, 3.0], [1.0, 2.0, 3.0], 0.2);
    assert!(g.on_target);
    assert_eq!(c.update_camera(g), IDLE);
}

#[test]
fn turns_take_no_step() {
    let mut c = CameraController::new();
    press(&mut c, Key::ArrowRight);
    assert_eq!(
        c.update_camera(off_target(true)),
        UpdatePlan { step_toward: false, step_away: false, turn: Turn::Right }
    );
    c.process_events(KeyInput { key: Key::ArrowRight, pressed: false });
    press(&mut c, Key::ArrowLeft);
    assert_eq!(
        c.update_camera(off_target(true)),
        UpdatePlan { step_toward: false, step_away: false, turn: Turn::Left }
    );
}

#[test]
fn left_turn_outlasts_right() {
    let mut c = CameraController::new();
    press(&mut c, Key::KeyD);
    press(&mut c, Key::KeyA);
    assert_eq!(c.update_camera(off_target(true)).turn, Turn::Left);
}

#[test]
fn forward_and_backward_both_step() {
    let mut c = CameraController::new();
    press(&mut c, Key::KeyW);
    press(&mut c, Key::KeyS);
    assert_eq!(
        c.update_camera(off_target(true)),
        UpdatePlan { step_toward: true, step_away: true, turn: Turn::Straight }
    );
}

#[test]
fn vertical_flags_have_no_effect() {
    let mut a = CameraController::new();
    press(&mut a, Key::KeyD);
    let mut b = a;
    b.set_direction(Direction::Up, true);
    b.set_direction(Direction::Down, true);
    for g in [off_target(true), off_target(false), Geometry { on_target: true, beyond_step: false }] {
        assert_eq!(a.update_camera(g), b.update_camera(g));
    }
    assert_eq!(CameraController::new().update_camera(off_target(true)), {
        let mut up = CameraController::new();
        press(&mut up, Key::Space);
        up.update_camera(off_target(true))
    });
}

#[test]
fn starting_camera_scenario() {
    // eye (0,-2,4), target at the origin, step 0.2
    let g = measure([0.0, -2.0, 4.0], [0.0, 0.0, 0.0], 0.2);
    assert_eq!(g, Geometry { on_target: false, beyond_step: true });
    let mut fwd = CameraController::new();
    press(&mut fwd, Key::KeyW);
    assert_eq!(
        fwd.update_camera(g),
        UpdatePlan { step_toward: true, step_away: false, turn: Turn::Straight }
    );
    let mut right = CameraController::new();
    press(&mut right, Key::KeyD);
    assert_eq!(
        right.update_camera(g),
        UpdatePlan { step_toward: false, step_away: false, turn: Turn::Right }
    );
}
