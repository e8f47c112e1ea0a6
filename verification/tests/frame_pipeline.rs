//! End-to-end tests of the per-frame pipeline.

use orbit_core::camera::CameraRig;
use orbit_core::frame::{frame_tick, FrameInput, World};
use orbit_core::input::{JoystickControllerID, JoystickEvent, KeysHeld};
use orbit_core::player::Player;
use orbit_core::rng::seed_rng;
use orbit_core::vecfx::{Vec2Fx, Vec3Fx};

fn demo_world() -> World {
    World {
        player: Player::spawn(Vec3Fx::new(0, 500, 0), 100, 32_000, 32_000, 16_000),
        camera: CameraRig::new(Vec3Fx::zero(), 0, 0, 8000, 4000, 16_000),
        debris: Vec::new(),
    }
}

fn idle_input() -> FrameInput {
    FrameInput {
        keys: KeysHeld { forward: false, back: false, left: false, right: false },
        dash_key_edge: false,
        jump_key_edge: false,
        lock_key_edge: false,
        dash_button_pressed: false,
        jump_button_pressed: false,
        joystick_events: Vec::new(),
        drag: Vec2Fx::zero(),
        viewport_w: 1_000_000,
        viewport_h: 1_000_000,
        sensitivity: 1000,
        zoom_delta: 0,
        grounded_cast: Some(250),
        dt: 16,
    }
}

#[test]
fn idle_frame_changes_nothing_but_recomputes_the_camera() {
    let mut world = demo_world();
    let mut rng = seed_rng(1);
    let out = frame_tick(&mut world, &idle_input(), &mut rng);
    assert_eq!(out.translation, Vec3Fx::zero());
    assert_eq!(out.impulse, Vec3Fx::zero());
    assert!(out.dash_event.is_none());
    assert_eq!(out.camera_position, Vec3Fx::new(0, 0, 8000));
    assert_eq!(world.player.position, Vec3Fx::new(0, 500, 0));
    assert!(world.camera.orbit_enabled);
}

#[test]
fn dashing_frame_moves_impulses_and_spawns_debris() {
    let mut world = demo_world();
    let mut rng = seed_rng(2);
    let mut input = idle_input();
    input.keys.back = true;  // toward the camera: world -Z is "back" here
    input.dash_key_edge = true;
    input.jump_key_edge = true;
    let out = frame_tick(&mut world, &input, &mut rng);
    // Camera looks along -Z from (0,0,+radius), so "back" is +Z... the
    // heading is the projected key vector, here -forward = (0,0,+1).
    assert_eq!(out.translation, Vec3Fx::new(0, 0, 100));
    let ev = out.dash_event.expect("a dash with a heading fires");
    assert_eq!(ev.dash_direction, Vec3Fx::new(0, 0, 1000));
    // Dash along the heading plus a grounded jump straight up.
    assert_eq!(out.impulse, Vec3Fx::new(0, 32_000, 32_000));
    // The burst joined the world after cleanup: 32 fresh bodies.
    assert_eq!(world.debris.len(), 32);
    assert!(world.debris.iter().all(|p| p.lifetime.remaining == 1000));
    // The accumulator was drained into the frame output.
    assert_eq!(world.player.impulse, Vec3Fx::zero());
}

#[test]
fn joystick_activity_disables_orbit_for_the_frame() {
    let mut world = demo_world();
    let mut rng = seed_rng(3);
    let mut input = idle_input();
    input.joystick_events = vec![JoystickEvent {
        id: JoystickControllerID::MoveJoystick,
        axis: Vec2Fx::new(0, 400),
    }];
    input.drag = Vec2Fx::new(200_000, 200_000);
    let yaw_before = world.camera.yaw;
    let out = frame_tick(&mut world, &input, &mut rng);
    assert!(!world.camera.orbit_enabled);
    // The drag was ignored while the joystick owned the gesture.
    assert_eq!(world.camera.yaw, yaw_before);
    // The joystick still moved the character, along camera forward.
    assert_eq!(out.translation, Vec3Fx::new(0, 0, -100));
    // A quiet tick re-enables the orbit.
    let out2 = frame_tick(&mut world, &idle_input(), &mut rng);
    assert!(world.camera.orbit_enabled);
    assert_eq!(out2.translation, Vec3Fx::zero());
}

#[test]
fn debris_from_a_dash_expires_after_one_second_of_frames() {
    let mut world = demo_world();
    let mut rng = seed_rng(4);
    let mut input = idle_input();
    input.keys.forward = true;
    input.dash_button_pressed = true;
    frame_tick(&mut world, &input, &mut rng);
    assert_eq!(world.debris.len(), 32);
    // 0.999 s of quiet frames: every body still lives.
    let mut quiet = idle_input();
    quiet.dt = 111;
    for _ in 0..9 {
        frame_tick(&mut world, &quiet, &mut rng);
    }
    assert_eq!(world.debris.len(), 32);
    // The frame that completes the second destroys them all.
    quiet.dt = 1;
    frame_tick(&mut world, &quiet, &mut rng);
    assert_eq!(world.debris.len(), 0);
}

#[test]
fn zoom_and_orbit_run_through_the_frame_gates() {
    let mut world = demo_world();
    let mut rng = seed_rng(5);
    let mut input = idle_input();
    input.zoom_delta = 100_000;
    frame_tick(&mut world, &input, &mut rng);
    assert_eq!(world.camera.zoom_radius, 16_000);
    // Toggling the cursor-lock gate shuts the zoom off for the frame.
    input.lock_key_edge = true;
    input.zoom_delta = -100_000;
    frame_tick(&mut world, &input, &mut rng);
    assert!(!world.camera.zoom_enabled);
    assert_eq!(world.camera.zoom_radius, 16_000);
    // A drag still orbits: the gates are independent.
    input.lock_key_edge = false;
    input.drag = Vec2Fx::new(100_000, 0);
    frame_tick(&mut world, &input, &mut rng);
    assert_eq!(world.camera.yaw, -314);
}
