//! The character controller: camera-relative movement, facing rotation,
//! and the dash and jump impulses, decided once per tick.

use vstd::prelude::*;
use crate::fixed::{fmul, Fx, FX_MAX, SCALE};
use crate::input::InputFrame;
use crate::vecfx::{
    v3_below, v3_flat, v3_lerp, v3_ok, v3_scale, v3_sum, v3_unit_or_zero, v3_zero, Vec2Fx, Vec3Fx,
    V2, V3, COORD_MAX,
};

verus! {

/// Impulse accumulator coordinates stay under this before a tick, so the
/// tick's dash and jump additions cannot leave the scalar band.
pub const IMPULSE_BAND: i64 = 998_000_000;

/// How far the character moves per tick, per unit of movement direction.
#[derive(Clone, Copy, PartialEq, Eq, Structural, Debug)]
pub struct MoveSpeed(pub Fx);

/// The impulse a dash adds along the movement direction.
#[derive(Clone, Copy, PartialEq, Eq, Structural, Debug)]
pub struct DashSpeed(pub Fx);

/// The impulse a grounded jump adds straight up.
#[derive(Clone, Copy, PartialEq, Eq, Structural, Debug)]
pub struct Jump {
    pub jump_power: Fx,
}

impl Jump {
    pub fn from_jump_power(jump_power: Fx) -> (r: Jump)
        ensures
            r.jump_power == jump_power,
    {
        Jump { jump_power }
    }
}

impl Default for Jump {
    /// One unit of jump power.
    fn default() -> (r: Jump)
        ensures
            r.jump_power == SCALE,
    {
        Jump { jump_power: SCALE }
    }
}

/// How quickly the facing vector turns toward the movement direction.
#[derive(Clone, Copy, PartialEq, Eq, Structural, Debug)]
pub struct RotateSpeed(pub Fx);

/// The one player-driven character: its pose, its impulse accumulator
/// (owned by the physics collaborator, appended to here), and its
/// tunables, set at spawn and immutable thereafter.
#[derive(Clone, Copy, PartialEq, Eq, Structural, Debug)]
pub struct Player {
    pub position: Vec3Fx,
    /// Unit-length facing vector, or zero before the first turn.
    pub facing: Vec3Fx,
    /// Pending impulse, drained by the physics collaborator.
    pub impulse: Vec3Fx,
    pub move_speed: MoveSpeed,
    pub dash_speed: DashSpeed,
    pub jump: Jump,
    pub rotate_speed: RotateSpeed,
}

/// A dash announcement: where the dash started and which way it went.
/// Produced at most once per tick, only for a nonzero movement heading.
#[derive(Clone, Copy, PartialEq, Eq, Structural, Debug)]
pub struct PlayerDash {
    pub dash_start_position: Vec3Fx,
    pub dash_direction: Vec3Fx,
}

/// What one controller tick hands the physics collaborator: a kinematic
/// translation command, and the dash event if one fired.
#[derive(Clone, Copy, PartialEq, Eq, Structural, Debug)]
pub struct TickOutput {
    pub translation: Vec3Fx,
    pub dash_event: Option<PlayerDash>,
}

/// The resolved movement direction: the input vector projected onto the
/// camera's forward and right axes, flattened, and normalized to unit
/// length (or zero).
pub open spec fn move_direction_spec(move_vec: V2, cam_forward: V3, cam_right: V3) -> V3 {
    v3_unit_or_zero(
        v3_flat(v3_sum(v3_scale(move_vec.y, cam_forward), v3_scale(move_vec.x, cam_right))),
    )
}

/// The impulse a tick's dash adds: the dash speed along the movement
/// direction, or nothing when no dash fires.
pub open spec fn dash_impulse_spec(fires: bool, dash_speed: int, direction: V3) -> V3 {
    if fires {
        v3_scale(dash_speed, direction)
    } else {
        v3_zero()
    }
}

/// The impulse a tick's jump adds: the jump power straight up when a
/// jump was requested on the ground, else nothing. An ungrounded
/// request is dropped without feedback.
pub open spec fn jump_impulse_spec(requested: bool, grounded: bool, jump_power: int) -> V3 {
    if requested && grounded {
        V3 { x: 0, y: jump_power, z: 0 }
    } else {
        v3_zero()
    }
}

/// Where the facing ends up: turned toward a nonzero movement direction
/// by the exponential factor `rotate_speed * dt`, re-normalized; left
/// alone when the direction is zero.
pub open spec fn facing_after_spec(
    facing: V3,
    direction: V3,
    rotate_speed: int,
    dt: int,
) -> V3 {
    if direction == v3_zero() {
        facing
    } else {
        v3_unit_or_zero(v3_lerp(facing, direction, fmul(dt, rotate_speed)))
    }
}

impl Player {
    /// The character's invariant: pose inside the world band, a
    /// unit-or-zero facing, and nonnegative in-band tunables.
    pub open spec fn well_formed(self) -> bool {
        &&& v3_below(self.position@, COORD_MAX as int)
        &&& v3_below(self.facing@, SCALE as int)
        &&& 0 <= self.move_speed.0 <= COORD_MAX
        &&& 0 <= self.dash_speed.0 <= COORD_MAX
        &&& 0 <= self.jump.jump_power <= COORD_MAX
        &&& 0 <= self.rotate_speed.0 <= COORD_MAX
    }

    /// Spawn the character at a position with its tunables; it faces
    /// nowhere until it first moves, and owes no impulse.
    pub fn spawn(
        position: Vec3Fx,
        move_speed: Fx,
        dash_speed: Fx,
        jump_power: Fx,
        rotate_speed: Fx,
    ) -> (p: Player)
        requires
            v3_below(position@, COORD_MAX as int),
            0 <= move_speed <= COORD_MAX,
            0 <= dash_speed <= COORD_MAX,
            0 <= jump_power <= COORD_MAX,
            0 <= rotate_speed <= COORD_MAX,
        ensures
            p.well_formed(),
            p.position == position,
            p.facing@ == (V3 { x: 0, y: 0, z: SCALE as int }),
            p.impulse@ == v3_zero(),
            p.move_speed.0 == move_speed,
            p.dash_speed.0 == dash_speed,
            p.jump.jump_power == jump_power,
            p.rotate_speed.0 == rotate_speed,
    {
        Player {
            position,
            facing: Vec3Fx::new(0, 0, SCALE),
            impulse: Vec3Fx::zero(),
            move_speed: MoveSpeed(move_speed),
            dash_speed: DashSpeed(dash_speed),
            jump: Jump::from_jump_power(jump_power),
            rotate_speed: RotateSpeed(rotate_speed),
        }
    }
}

/// The grounded probe's verdict from the physics collaborator's downward
/// shape cast: any hit within the probe distance means grounded.
pub fn grounded_probe(cast_hit: Option<Fx>) -> (grounded: bool)
    ensures
        grounded == cast_hit.is_some(),
{
    match cast_hit {
        Option::Some(_) => true,
        Option::None => false,
    }
}

/// Resolve the per-tick movement direction from the aggregated input
/// vector and the camera's facing axes.
pub fn compute_move_direction(move_vec: Vec2Fx, cam_forward: Vec3Fx, cam_right: Vec3Fx) -> (
    dir: Vec3Fx)
    requires
        crate::vecfx::v2_below(move_vec@, COORD_MAX as int),
        v3_below(cam_forward@, SCALE as int),
        v3_below(cam_right@, SCALE as int),
    ensures
        dir@ == move_direction_spec(move_vec@, cam_forward@, cam_right@),
        v3_below(dir@, SCALE as int),
{
    let along = cam_forward.scaled(move_vec.y);
    let across = cam_right.scaled(move_vec.x);
    proof {
        lemma_projection_band(move_vec@, cam_forward@, cam_right@);
    }
    let merged = along.plus(across).flattened();
    merged.unit_or_zero()
}

/// The camera-plane projection of an in-band input stays in the scalar
/// band.
proof fn lemma_projection_band(mv: V2, fwd: V3, right: V3)
    requires
        crate::vecfx::v2_below(mv, COORD_MAX as int),
        v3_below(fwd, SCALE as int),
        v3_below(right, SCALE as int),
    ensures
        v3_ok(v3_flat(v3_sum(v3_scale(mv.y, fwd), v3_scale(mv.x, right)))),
        v3_ok(v3_sum(v3_scale(mv.y, fwd), v3_scale(mv.x, right))),
        v3_ok(v3_scale(mv.y, fwd)),
        v3_ok(v3_scale(mv.x, right)),
{
    crate::fixed::lemma_fmul_bound(mv.y, fwd.x, COORD_MAX as int, SCALE as int);
    crate::fixed::lemma_fmul_bound(mv.y, fwd.y, COORD_MAX as int, SCALE as int);
    crate::fixed::lemma_fmul_bound(mv.y, fwd.z, COORD_MAX as int, SCALE as int);
    crate::fixed::lemma_fmul_bound(mv.x, right.x, COORD_MAX as int, SCALE as int);
    crate::fixed::lemma_fmul_bound(mv.x, right.y, COORD_MAX as int, SCALE as int);
    crate::fixed::lemma_fmul_bound(mv.x, right.z, COORD_MAX as int, SCALE as int);
}

/// One controller tick for the single character.
///
/// Reads the camera axes (never mutating the rig), resolves the movement
/// direction, commands a kinematic translation of `move_speed` along it,
/// fires at most one dash (request with a zero heading is silently
/// dropped: no event, no impulse), adds a jump impulse only when
/// grounded, and turns the facing toward a nonzero heading.
pub fn player_movement(
    player: &mut Player,
    frame: &InputFrame,
    cam_forward: Vec3Fx,
    cam_right: Vec3Fx,
    grounded: bool,
    dt: Fx,
) -> (out: TickOutput)
    requires
        old(player).well_formed(),
        v3_below(old(player).impulse@, IMPULSE_BAND as int),
        crate::vecfx::v2_below(frame.move_vec@, COORD_MAX as int),
        v3_below(cam_forward@, SCALE as int),
        v3_below(cam_right@, SCALE as int),
        0 <= dt <= SCALE,
    ensures
        final(player).well_formed(),
        ({
            let dir = move_direction_spec(frame.move_vec@, cam_forward@, cam_right@);
            let dash_fires = frame.dash_requested && dir != v3_zero();
            let jump_fires = frame.jump_requested && grounded;
            &&& out.translation@ == v3_scale(old(player).move_speed.0 as int, dir)
            &&& out.dash_event.is_some() == dash_fires
            &&& (out.dash_event matches Some(ev) ==> ev.dash_start_position == old(
                player,
            ).position && ev.dash_direction@ == dir && crate::vecfx::v3_below(
                ev.dash_direction@,
                SCALE as int,
            ))
            &&& final(player).impulse@ == v3_sum(
                old(player).impulse@,
                v3_sum(
                    dash_impulse_spec(dash_fires, old(player).dash_speed.0 as int, dir),
                    jump_impulse_spec(
                        frame.jump_requested,
                        grounded,
                        old(player).jump.jump_power as int,
                    ),
                ),
            )
            &&& final(player).facing@ == facing_after_spec(
                old(player).facing@,
                dir,
                old(player).rotate_speed.0 as int,
                dt as int,
            )
            &&& !dash_fires && !jump_fires ==> final(player).impulse == old(player).impulse
        }),
        final(player).position == old(player).position,
        final(player).move_speed == old(player).move_speed,
        final(player).dash_speed == old(player).dash_speed,
        final(player).jump == old(player).jump,
        final(player).rotate_speed == old(player).rotate_speed,
        v3_below(final(player).impulse@, FX_MAX as int),
{
    let dir = compute_move_direction(frame.move_vec, cam_forward, cam_right);
    let translation = dir.scaled(player.move_speed.0);

    let mut dash_event: Option<PlayerDash> = Option::None;
    if frame.dash_requested && !dir.is_zero() {
        dash_event = Option::Some(
            PlayerDash { dash_start_position: player.position, dash_direction: dir },
        );
        let dash_impulse = dir.scaled(player.dash_speed.0);
        proof {
            crate::fixed::lemma_fmul_bound(
                player.dash_speed.0 as int,
                dir@.x,
                COORD_MAX as int,
                SCALE as int,
            );
            crate::fixed::lemma_fmul_bound(
                player.dash_speed.0 as int,
                dir@.y,
                COORD_MAX as int,
                SCALE as int,
            );
            crate::fixed::lemma_fmul_bound(
                player.dash_speed.0 as int,
                dir@.z,
                COORD_MAX as int,
                SCALE as int,
            );
            lemma_impulse_step_band(player.impulse@, dash_impulse@);
        }
        player.impulse = player.impulse.plus(dash_impulse);
    }

    if frame.jump_requested && grounded {
        let jump_impulse = Vec3Fx::new(0, player.jump.jump_power, 0);
        proof {
            lemma_impulse_step_band(player.impulse@, jump_impulse@);
        }
        player.impulse = player.impulse.plus(jump_impulse);
    }

    if !dir.is_zero() {
        let turn: i64 = crate::fixed::mul_fx(dt, player.rotate_speed.0);
        proof {
            crate::fixed::lemma_fmul_bound(
                dt as int,
                player.rotate_speed.0 as int,
                SCALE as int,
                COORD_MAX as int,
            );
            assert(dt as int * player.rotate_speed.0 as int >= 0) by (nonlinear_arith)
                requires
                    dt >= 0 && player.rotate_speed.0 >= 0,
            ;
            crate::fixed::lemma_fdiv_bounds(
                dt as int * player.rotate_speed.0 as int,
                SCALE as int,
            );
        }
        let blended = player.facing.lerp_toward(dir, turn);
        player.facing = blended.unit_or_zero();
    }

    TickOutput { translation, dash_event }
}

/// One impulse addition of at most a world coordinate per axis stays in
/// the scalar band.
proof fn lemma_impulse_step_band(impulse: V3, addition: V3)
    requires
        v3_below(impulse, FX_MAX - COORD_MAX as int),
        v3_below(addition, COORD_MAX as int),
    ensures
        v3_ok(impulse),
        v3_ok(addition),
        v3_below(v3_sum(impulse, addition), FX_MAX as int),
{
}

} // verus!
