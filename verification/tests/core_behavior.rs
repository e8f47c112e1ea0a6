//! Behavior tests for the movement-and-camera core, on concrete values.

use orbit_core::camera::CameraRig;
use orbit_core::debris::{lifetime_system, spawn_particles_on_player_dash, DebrisParticle};
use orbit_core::fixed::{clamp_fx, cos_fx, div_trunc, isqrt, mul_fx, sin_fx, wrap_angle};
use orbit_core::input::{
    aggregate_input, edge_trigger, JoystickControllerID, JoystickEvent, KeysHeld,
};
use orbit_core::lifetime::Lifetime;
use orbit_core::player::{
    compute_move_direction, grounded_probe, player_movement, Jump, Player, PlayerDash,
};
use orbit_core::rng::{sample_in_range, seed_rng};
use orbit_core::vecfx::{Vec2Fx, Vec3Fx};

fn keys_none() -> KeysHeld {
    KeysHeld { forward: false, back: false, left: false, right: false }
}

fn frame(
    keys: KeysHeld,
    dash_key: bool,
    dash_button: bool,
    jump_key: bool,
    jump_button: bool,
) -> orbit_core::input::InputFrame {
    aggregate_input(keys, &Vec::new(), dash_key, dash_button, jump_key, jump_button)
}

fn spawn_demo_player() -> Player {
    // The demo character: move 0.1, dash 32.0, jump 32.0, turn 16.0.
    Player::spawn(Vec3Fx::new(0, 500, 0), 100, 32_000, 32_000, 16_000)
}

const FWD_Z: Vec3Fx = Vec3Fx { x: 0, y: 0, z: 1000 };
const RIGHT_X: Vec3Fx = Vec3Fx { x: 1000, y: 0, z: 0 };

#[test]
fn fixed_point_basics() {
    assert_eq!(mul_fx(2000, 3000), 6000);
    assert_eq!(mul_fx(-2000, 3000), -6000);
    assert_eq!(div_trunc(-7, 2), -3);
    assert_eq!(clamp_fx(5, 0, 3), 3);
    assert_eq!(isqrt(1_000_000), 1000);
    assert_eq!(isqrt(999_999), 999);
    assert_eq!(wrap_angle(4000), 4000 - 6284);
    assert_eq!(wrap_angle(-4000), -4000 + 6284);
    assert_eq!(sin_fx(1571), 1000);
    assert_eq!(sin_fx(-1571), -1000);
    assert_eq!(sin_fx(0), 0);
    assert_eq!(cos_fx(0), 1000);
}

#[test]
fn unit_vector_of_single_axis_is_exact() {
    let v = Vec3Fx::new(0, 0, 700);
    let u = v.unit_or_zero();
    assert_eq!(u, Vec3Fx::new(0, 0, 1000));
    assert_eq!(Vec3Fx::zero().unit_or_zero(), Vec3Fx::zero());
}

#[test]
fn edge_trigger_fires_only_on_press_edge() {
    assert!(edge_trigger(false, true));
    assert!(!edge_trigger(true, true));
    assert!(!edge_trigger(true, false));
    assert!(!edge_trigger(false, false));
}

#[test]
fn aggregate_merges_keys_joystick_and_buttons() {
    let keys = KeysHeld { forward: true, back: false, left: true, right: false };
    let events = vec![
        JoystickEvent {
            id: JoystickControllerID::MoveJoystick,
            axis: Vec2Fx::new(250, -100),
        },
        JoystickEvent {
            id: JoystickControllerID::MoveJoystick,
            axis: Vec2Fx::new(50, 75),
        },
    ];
    let f = aggregate_input(keys, &events, false, true, true, false);
    assert_eq!(f.move_vec, Vec2Fx::new(-1000 + 250 + 50, 1000 - 100 + 75));
    assert!(f.dash_requested);
    assert!(f.jump_requested);
}

#[test]
fn opposing_keys_cancel_to_zero_vector() {
    // Two opposing directional keys held at once: the aggregated input
    // vector is exactly zero.
    let keys = KeysHeld { forward: true, back: true, left: false, right: false };
    let f = frame(keys, false, false, false, false);
    assert_eq!(f.move_vec, Vec2Fx::new(0, 0));
}

#[test]
fn opposing_keys_give_no_translation_and_no_facing_change() {
    let keys = KeysHeld { forward: true, back: true, left: false, right: false };
    let f = frame(keys, false, false, false, false);
    let mut p = spawn_demo_player();
    let facing_before = p.facing;
    let out = player_movement(&mut p, &f, FWD_Z, RIGHT_X, true, 16);
    assert_eq!(out.translation, Vec3Fx::zero());
    assert_eq!(p.facing, facing_before);
    assert!(out.dash_event.is_none());
}

#[test]
fn forward_key_moves_exactly_move_speed_along_camera_forward() {
    // Character facing +Z, camera forward +Z, forward key held,
    // move speed 0.1: the translation command is exactly (0, 0, 0.1).
    let keys = KeysHeld { forward: true, back: false, left: false, right: false };
    let f = frame(keys, false, false, false, false);
    let mut p = spawn_demo_player();
    let out = player_movement(&mut p, &f, FWD_Z, RIGHT_X, true, 0);
    assert_eq!(out.translation, Vec3Fx::new(0, 0, 100));
    // An already-unit single-axis input loses nothing to normalization.
    let dir = compute_move_direction(Vec2Fx::new(0, 1000), FWD_Z, RIGHT_X);
    assert_eq!(dir, Vec3Fx::new(0, 0, 1000));
}

#[test]
fn dash_with_zero_heading_is_silently_dropped() {
    let f = frame(keys_none(), true, false, false, false);
    let mut p = spawn_demo_player();
    let impulse_before = p.impulse;
    let out = player_movement(&mut p, &f, FWD_Z, RIGHT_X, true, 16);
    assert!(out.dash_event.is_none());
    assert_eq!(p.impulse, impulse_before);
}

#[test]
fn dash_with_heading_emits_one_event_and_exact_impulse() {
    let keys = KeysHeld { forward: true, back: false, left: false, right: false };
    let f = frame(keys, true, false, false, false);
    let mut p = spawn_demo_player();
    let out = player_movement(&mut p, &f, FWD_Z, RIGHT_X, false, 16);
    let ev = out.dash_event.expect("dash must fire on a nonzero heading");
    assert_eq!(ev.dash_start_position, Vec3Fx::new(0, 500, 0));
    assert_eq!(ev.dash_direction, Vec3Fx::new(0, 0, 1000));
    // Exactly dashSpeed * moveDirection was added.
    assert_eq!(p.impulse, Vec3Fx::new(0, 0, 32_000));
}

#[test]
fn dash_button_is_level_triggered_like_the_key_edge_or() {
    let keys = KeysHeld { forward: true, back: false, left: false, right: false };
    let f = frame(keys, false, true, false, false);
    let mut p = spawn_demo_player();
    let out = player_movement(&mut p, &f, FWD_Z, RIGHT_X, false, 16);
    assert!(out.dash_event.is_some());
}

#[test]
fn ungrounded_jump_is_dropped_grounded_jump_adds_jump_power() {
    let f = frame(keys_none(), false, false, true, false);
    let mut p = spawn_demo_player();
    let impulse_before = p.impulse;
    player_movement(&mut p, &f, FWD_Z, RIGHT_X, false, 16);
    assert_eq!(p.impulse, impulse_before);
    player_movement(&mut p, &f, FWD_Z, RIGHT_X, true, 16);
    assert_eq!(p.impulse, Vec3Fx::new(0, 32_000, 0));
}

#[test]
fn grounded_probe_follows_the_cast_verdict() {
    assert!(grounded_probe(Some(250)));
    assert!(!grounded_probe(None));
}

#[test]
fn jump_default_is_one_unit() {
    let j: Jump = Default::default();
    assert_eq!(j.jump_power, 1000);
    assert_eq!(Jump::from_jump_power(32_000).jump_power, 32_000);
}

#[test]
fn zoom_radius_never_leaves_its_bounds() {
    let mut rig = CameraRig::new(Vec3Fx::zero(), 0, 0, 8000, 4000, 16_000);
    rig.apply_zoom_input(1_000_000);
    assert_eq!(rig.zoom_radius, 16_000);
    rig.apply_zoom_input(-900_000_000);
    assert_eq!(rig.zoom_radius, 4000);
    let deltas = [999, -5000, 123_456, -123_456, 800_000_000];
    for d in deltas {
        rig.apply_zoom_input(d);
        assert!(4000 <= rig.zoom_radius && rig.zoom_radius <= 16_000);
    }
}

#[test]
fn cursor_lock_edge_toggles_the_zoom_gate() {
    let mut rig = CameraRig::new(Vec3Fx::zero(), 0, 0, 8000, 4000, 16_000);
    assert!(rig.zoom_enabled);
    rig.toggle_zoom_on_cursor_lock(false);
    assert!(rig.zoom_enabled);
    rig.toggle_zoom_on_cursor_lock(true);
    assert!(!rig.zoom_enabled);
    let before = rig.zoom_radius;
    rig.apply_zoom_input(5000);
    assert_eq!(rig.zoom_radius, before);
    rig.toggle_zoom_on_cursor_lock(true);
    assert!(rig.zoom_enabled);
}

#[test]
fn joystick_activity_gates_the_orbit_for_the_tick() {
    let mut rig = CameraRig::new(Vec3Fx::zero(), 0, 0, 8000, 4000, 16_000);
    rig.disable_camera_orbit_while_joystick_held(true);
    assert!(!rig.orbit_enabled);
    rig.disable_camera_orbit_while_joystick_held(false);
    assert!(rig.orbit_enabled);
    rig.disable_camera_orbit_while_joystick_held(true);
    assert!(!rig.orbit_enabled);
}

#[test]
fn orbit_disabled_leaves_the_rig_untouched() {
    let mut rig = CameraRig::new(Vec3Fx::zero(), 300, 200, 8000, 4000, 16_000);
    rig.disable_camera_orbit_while_joystick_held(true);
    let before = rig;
    rig.orbit_touch(Vec2Fx::new(500_000, 500_000), 1_000_000, 1_000_000, 1000);
    assert_eq!(rig, before);
}

#[test]
fn pitch_drags_never_flip_the_camera() {
    let mut rig = CameraRig::new(Vec3Fx::zero(), 0, 0, 8000, 4000, 16_000);
    let drags: [(i64, i64); 7] = [
        (0, 1_000_000),
        (0, -1_000_000),
        (250_000, 400_000),
        (-999_999, 999_999),
        (0, 313),
        (0, 313),
        (0, -950_000),
    ];
    for (dx, dy) in drags {
        rig.orbit_touch(Vec2Fx::new(dx, dy), 1_000_000, 1_000_000, 1000);
        // The up-vector's vertical component stays strictly positive.
        assert!(rig.up_vertical() > 0);
        assert!(-1571 < rig.pitch && rig.pitch < 1571);
    }
}

#[test]
fn small_pitch_drag_commits_and_pole_crossing_one_is_rejected() {
    let mut rig = CameraRig::new(Vec3Fx::zero(), 0, 0, 8000, 4000, 16_000);
    // A drag over two fifths of the viewport commits its pitch turn.
    rig.orbit_touch(Vec2Fx::new(0, 400_000), 1_000_000, 1_000_000, 1000);
    assert_eq!(rig.pitch, -1256);
    // The same drag again would pass the pole: only the pitch is kept.
    rig.orbit_touch(Vec2Fx::new(0, 400_000), 1_000_000, 1_000_000, 1000);
    assert_eq!(rig.pitch, -1256);
    assert!(rig.up_vertical() > 0);
}

#[test]
fn yaw_applies_even_when_pitch_is_rejected() {
    let mut rig = CameraRig::new(Vec3Fx::zero(), 0, -1500, 8000, 4000, 16_000);
    rig.orbit_touch(Vec2Fx::new(100_000, 100_000), 1_000_000, 1_000_000, 1000);
    // The pitch candidate (-1500 - 314) would pass the pole: rejected.
    assert_eq!(rig.pitch, -1500);
    // The yaw still turned by -314.
    assert_eq!(rig.yaw, -314);
}

#[test]
fn camera_position_is_focus_plus_oriented_radius() {
    let rig = CameraRig::new(Vec3Fx::new(100, 200, 300), 0, 0, 8000, 4000, 16_000);
    let pos = rig.camera_position();
    assert_eq!(pos, Vec3Fx::new(100, 200, 300 + 8000));
}

#[test]
fn lifetime_counts_down_and_reports_the_crossing_tick() {
    let mut l = Lifetime::from_seconds(1000);
    assert!(!l.tick(400));
    assert_eq!(l.remaining, 600);
    assert!(!l.tick(599));
    assert!(l.tick(1));
    assert_eq!(l.remaining, 0);
    assert_eq!(Lifetime::from_duration(1500).remaining, 1500);
}

#[test]
fn dash_burst_spawns_floor_of_dash_speed_particles_with_one_second_expiry() {
    // A dash at speed 32.0 spawns exactly 32 debris bodies.
    let ev = PlayerDash {
        dash_start_position: Vec3Fx::new(0, 500, 0),
        dash_direction: Vec3Fx::new(0, 0, 1000),
    };
    let mut rng = seed_rng(7);
    let burst = spawn_particles_on_player_dash(&ev, 32_000, &mut rng);
    assert_eq!(burst.len(), 32);
    for p in &burst {
        assert_eq!(p.position, Vec3Fx::new(0, 500, 0));
        assert_eq!(p.lifetime.remaining, 1000);
    }
    // A fractional dash speed rounds down.
    let mut rng2 = seed_rng(7);
    assert_eq!(spawn_particles_on_player_dash(&ev, 2999, &mut rng2).len(), 2);
}

#[test]
fn debris_scatters_opposite_the_dash_direction() {
    // The scatter cone spans thirty degrees per axis around the reversed
    // dash direction, so every body flies with a negative Z velocity:
    // the randomness turned the vector, it did not pass it through.
    let ev = PlayerDash {
        dash_start_position: Vec3Fx::zero(),
        dash_direction: Vec3Fx::new(0, 0, 1000),
    };
    let mut rng = seed_rng(11);
    let burst = spawn_particles_on_player_dash(&ev, 32_000, &mut rng);
    for p in &burst {
        assert!(p.velocity.z < 0);
    }
}

#[test]
fn seeded_scatter_is_reproducible() {
    let ev = PlayerDash {
        dash_start_position: Vec3Fx::zero(),
        dash_direction: Vec3Fx::new(700, 0, -700),
    };
    let mut a = seed_rng(42);
    let mut b = seed_rng(42);
    let burst_a = spawn_particles_on_player_dash(&ev, 8000, &mut a);
    let burst_b = spawn_particles_on_player_dash(&ev, 8000, &mut b);
    assert_eq!(burst_a, burst_b);
}

#[test]
fn sample_in_range_respects_its_bounds() {
    let mut rng = seed_rng(3);
    for _ in 0..200 {
        let v = sample_in_range(&mut rng, -523, 523);
        assert!(-523 <= v && v <= 523);
    }
    assert_eq!(sample_in_range(&mut rng, 9, 9), 9);
}

#[test]
fn debris_dies_at_one_second_and_never_before() {
    let ev = PlayerDash {
        dash_start_position: Vec3Fx::zero(),
        dash_direction: Vec3Fx::new(0, 0, 1000),
    };
    let mut rng = seed_rng(5);
    let mut bodies: Vec<DebrisParticle> = spawn_particles_on_player_dash(&ev, 4000, &mut rng);
    assert_eq!(bodies.len(), 4);
    // 0.4 s, then 0.5 s: total 0.9 s, nothing dies.
    lifetime_system(&mut bodies, 400);
    lifetime_system(&mut bodies, 500);
    assert_eq!(bodies.len(), 4);
    // The tick that reaches exactly 1.0 s destroys every body.
    lifetime_system(&mut bodies, 100);
    assert_eq!(bodies.len(), 0);
}

#[test]
fn lifetime_system_destroys_only_the_spent_bodies() {
    let body = |secs: i64| DebrisParticle {
        position: Vec3Fx::zero(),
        velocity: Vec3Fx::new(1, 2, 3),
        lifetime: Lifetime::from_seconds(secs),
    };
    let mut bodies = vec![body(100), body(1000), body(250)];
    lifetime_system(&mut bodies, 250);
    assert_eq!(bodies.len(), 1);
    assert_eq!(bodies[0].lifetime.remaining, 750);
    assert_eq!(bodies[0].velocity, Vec3Fx::new(1, 2, 3));
}
