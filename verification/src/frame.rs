//! The per-frame pipeline, run to completion once per frame in a fixed
//! order: input collection, then the character controller, then the
//! camera rig, then the dash reaction, then cleanup of expired debris.
//! Event mailboxes live for one frame: the joystick events and the dash
//! event are consumed here and never carried over.

use vstd::prelude::*;
use crate::camera::CameraRig;
use crate::debris::{
    burst_ok, lifetime_system, spawn_particles_on_player_dash, survivors_after, DebrisParticle,
};
use crate::fixed::{fx_ok, iabs, wrap_angle_spec, Fx, SCALE};
use crate::input::{
    aggregate_input, joystick_total, keyboard_vec, InputFrame, JoystickEvent, KeysHeld,
    JOY_EVENTS_MAX,
};
use crate::player::{
    dash_impulse_spec, facing_after_spec, grounded_probe, jump_impulse_spec, move_direction_spec,
    player_movement, Player, PlayerDash, TickOutput,
};
use crate::vecfx::{v2_below, v3_sum, v3_zero, Vec2Fx, Vec3Fx};

verus! {

/// The live world: the one character, the one camera rig, and the
/// transient debris bodies.
pub struct World {
    pub player: Player,
    pub camera: CameraRig,
    pub debris: Vec<DebrisParticle>,
}

/// Everything the outside hands one frame: key and button states, the
/// joystick mailbox, the active drag, the zoom input, the grounded
/// shape-cast verdict and the frame step.
pub struct FrameInput {
    pub keys: KeysHeld,
    pub dash_key_edge: bool,
    pub jump_key_edge: bool,
    pub lock_key_edge: bool,
    pub dash_button_pressed: bool,
    pub jump_button_pressed: bool,
    pub joystick_events: Vec<JoystickEvent>,
    pub drag: Vec2Fx,
    pub viewport_w: Fx,
    pub viewport_h: Fx,
    pub sensitivity: Fx,
    pub zoom_delta: Fx,
    pub grounded_cast: Option<Fx>,
    pub dt: Fx,
}

/// What one frame hands the physics and render collaborators: the
/// kinematic translation, the impulse drained from the accumulator, the
/// dash announcement if one fired, and the recomputed camera pose.
#[derive(Clone, Copy, PartialEq, Eq, Structural, Debug)]
pub struct FrameOutput {
    pub translation: Vec3Fx,
    pub impulse: Vec3Fx,
    pub dash_event: Option<PlayerDash>,
    pub camera_position: Vec3Fx,
}

impl World {
    /// Frame-boundary invariant: both live entities are well-formed,
    /// the impulse accumulator was drained by the physics collaborator,
    /// and no debris countdown is negative.
    pub open spec fn well_formed(self) -> bool {
        &&& self.player.well_formed()
        &&& self.player.impulse@ == v3_zero()
        &&& self.camera.well_formed()
        &&& forall|i: int|
            0 <= i < self.debris@.len() ==> (#[trigger] self.debris@[i]).lifetime.remaining >= 0
    }
}

impl FrameInput {
    /// The machine bounds a frame's inputs respect.
    pub open spec fn well_formed(self) -> bool {
        &&& self.joystick_events@.len() <= JOY_EVENTS_MAX
        &&& forall|i: int|
            0 <= i < self.joystick_events@.len() ==> v2_below(
                (#[trigger] self.joystick_events@[i]).axis@,
                SCALE as int,
            )
        &&& iabs(self.drag@.x) <= crate::camera::DRAG_MAX
        &&& iabs(self.drag@.y) <= crate::camera::DRAG_MAX
        &&& SCALE <= self.viewport_w <= crate::camera::VIEWPORT_MAX
        &&& SCALE <= self.viewport_h <= crate::camera::VIEWPORT_MAX
        &&& 0 <= self.sensitivity <= crate::camera::SENSITIVITY_MAX
        &&& fx_ok(self.zoom_delta as int)
        &&& 0 <= self.dt <= SCALE
    }
}

/// Run one frame in the documented order. The controller reads the
/// camera's facing as a snapshot taken before the rig updates; the
/// debris bodies spawned by this frame's dash join the world after this
/// frame's cleanup, so their countdowns first tick next frame.
pub fn frame_tick(world: &mut World, input: &FrameInput, rng: &mut rand::rngs::StdRng) -> (out:
    FrameOutput)
    requires
        old(world).well_formed(),
        input.well_formed(),
    ensures
        final(world).well_formed(),
        ({
            let events = input.joystick_events@;
            let mv = crate::vecfx::v2_sum(keyboard_vec(input.keys), joystick_total(events));
            let fwd = CameraRig::forward_spec(
                old(world).camera.yaw as int,
                old(world).camera.pitch as int,
            );
            let right = CameraRig::right_spec(old(world).camera.yaw as int);
            let dir = move_direction_spec(mv, fwd, right);
            let dash_requested = input.dash_key_edge || input.dash_button_pressed;
            let jump_requested = input.jump_key_edge || input.jump_button_pressed;
            let dash_fires = dash_requested && dir != v3_zero();
            let grounded = input.grounded_cast.is_some();
            let survivors = survivors_after(old(world).debris@, input.dt as int);
            &&& out.translation@ == crate::vecfx::v3_scale(
                old(world).player.move_speed.0 as int,
                dir,
            )
            &&& out.dash_event.is_some() == dash_fires
            &&& (out.dash_event matches Some(ev) ==> ev.dash_start_position == old(
                world,
            ).player.position && ev.dash_direction@ == dir)
            &&& out.impulse@ == v3_sum(
                dash_impulse_spec(dash_fires, old(world).player.dash_speed.0 as int, dir),
                jump_impulse_spec(
                    jump_requested,
                    grounded,
                    old(world).player.jump.jump_power as int,
                ),
            )
            &&& final(world).player.impulse@ == v3_zero()
            &&& final(world).player.facing@ == facing_after_spec(
                old(world).player.facing@,
                dir,
                old(world).player.rotate_speed.0 as int,
                input.dt as int,
            )
            &&& final(world).player.position == old(world).player.position
            &&& final(world).player.move_speed == old(world).player.move_speed
            &&& final(world).player.dash_speed == old(world).player.dash_speed
            &&& final(world).player.jump == old(world).player.jump
            &&& final(world).player.rotate_speed == old(world).player.rotate_speed
            &&& final(world).camera.orbit_enabled == (events.len() == 0)
            &&& final(world).camera.zoom_enabled == (if input.lock_key_edge {
                !old(world).camera.zoom_enabled
            } else {
                old(world).camera.zoom_enabled
            })
            &&& events.len() == 0 ==> final(world).camera.yaw == wrap_angle_spec(
                old(world).camera.yaw - CameraRig::drag_angle(
                    input.drag@.x,
                    input.sensitivity as int,
                    input.viewport_w as int,
                ),
            ) && final(world).camera.pitch == CameraRig::pitch_after_drag(
                old(world).camera.pitch as int,
                -CameraRig::drag_angle(
                    input.drag@.y,
                    input.sensitivity as int,
                    input.viewport_h as int,
                ),
            )
            &&& events.len() > 0 ==> final(world).camera.yaw == old(world).camera.yaw
                && final(world).camera.pitch == old(world).camera.pitch
            &&& final(world).camera.zoom_radius == (if final(world).camera.zoom_enabled {
                crate::fixed::fclamp(
                    old(world).camera.zoom_radius + input.zoom_delta,
                    old(world).camera.min_radius as int,
                    old(world).camera.max_radius as int,
                )
            } else {
                old(world).camera.zoom_radius as int
            })
            &&& final(world).camera.focus == old(world).camera.focus
            &&& final(world).camera.min_radius == old(world).camera.min_radius
            &&& final(world).camera.max_radius == old(world).camera.max_radius
            &&& out.camera_position@ == final(world).camera.camera_position_spec()
            &&& final(world).debris@.subrange(0, survivors.len() as int) == survivors
            &&& (!dash_fires ==> final(world).debris@ == survivors)
            &&& (dash_fires ==> (out.dash_event matches Some(ev) && burst_ok(
                final(world).debris@.skip(survivors.len() as int),
                ev,
                old(world).player.dash_speed.0 as int,
            )))
        }),
{
    // Input and event collection.
    let frame: InputFrame = aggregate_input(
        input.keys,
        &input.joystick_events,
        input.dash_key_edge,
        input.dash_button_pressed,
        input.jump_key_edge,
        input.jump_button_pressed,
    );
    let joystick_active = input.joystick_events.len() > 0;

    // The character controller, on a camera snapshot taken before the
    // rig updates.
    let cam_forward = world.camera.forward_vector();
    let cam_right = world.camera.right_vector();
    let grounded = grounded_probe(input.grounded_cast);
    let tick: TickOutput = player_movement(
        &mut world.player,
        &frame,
        cam_forward,
        cam_right,
        grounded,
        input.dt,
    );
    let impulse = world.player.impulse;
    world.player.impulse = Vec3Fx::zero();

    // The camera rig: arbitration, the zoom gate, the orbit drag, the
    // zoom input, and the recomputed pose.
    world.camera.disable_camera_orbit_while_joystick_held(joystick_active);
    world.camera.toggle_zoom_on_cursor_lock(input.lock_key_edge);
    world.camera.orbit_touch(input.drag, input.viewport_w, input.viewport_h, input.sensitivity);
    world.camera.apply_zoom_input(input.zoom_delta);
    let camera_position = world.camera.camera_position();

    // Cleanup of expired debris, then the dash reaction: this frame's
    // burst joins the world at the frame's end.
    lifetime_system(&mut world.debris, input.dt);
    let ghost survivors = world.debris@;
    proof {
        crate::debris::lemma_survivors_nonneg(old(world).debris@, input.dt as int);
    }
    if let Option::Some(ev) = &tick.dash_event {
        let mut burst = spawn_particles_on_player_dash(ev, world.player.dash_speed.0, rng);
        let ghost burst0 = burst@;
        world.debris.append(&mut burst);
        proof {
            assert(world.debris@.subrange(0, survivors.len() as int) =~= survivors);
            assert(world.debris@.skip(survivors.len() as int) =~= burst0);
            assert forall|i: int|
                0 <= i < world.debris@.len() implies (#[trigger] world.debris@[i]).lifetime.remaining
                >= 0 by {
                if i < survivors.len() {
                    assert(world.debris@[i] == survivors[i]);
                } else {
                    assert(world.debris@[i] == burst0[i - survivors.len()]);
                }
            }
        }
    } else {
        proof {
            assert(world.debris@.subrange(0, survivors.len() as int) =~= survivors);
        }
    }

    FrameOutput { translation: tick.translation, impulse, dash_event: tick.dash_event, camera_position }
}

} // verus!
