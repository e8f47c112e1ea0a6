//! The dash reaction: a burst of short-lived debris bodies scattered in
//! a random cone roughly opposite the dash direction.

use vstd::prelude::*;
use crate::fixed::{
    cos_fx, cos_fx_spec, fdiv, fmul, iabs, lemma_fmul_bound, mul_fx, sin_fx, sin_fx_spec,
    wrap_angle_spec, Fx, FX_MAX, SCALE,
};
use crate::lifetime::Lifetime;
use crate::player::PlayerDash;
use crate::rng::sample_in_range;
use crate::vecfx::{v3_below, v3_neg, v3_scale, v3_unit_or_zero, Vec3Fx, V3, COORD_MAX};

verus! {

/// Every debris body expires after exactly one second.
pub const DEBRIS_LIFETIME: i64 = 1000;

/// Half-width of the random scatter cone, per axis: thirty degrees.
pub const CONE_HALF_ANGLE: i64 = 523;

/// One short-lived physics body of the dash burst.
#[derive(Clone, Copy, PartialEq, Eq, Structural, Debug)]
pub struct DebrisParticle {
    pub position: Vec3Fx,
    pub velocity: Vec3Fx,
    pub lifetime: Lifetime,
}

/// Rotation of a vector about the X axis by `a`.
pub open spec fn rot_x_spec(a: int, v: V3) -> V3 {
    let s = sin_fx_spec(wrap_angle_spec(a));
    let c = cos_fx_spec(wrap_angle_spec(a));
    V3 { x: v.x, y: fmul(c, v.y) - fmul(s, v.z), z: fmul(s, v.y) + fmul(c, v.z) }
}

/// Rotation of a vector about the Y axis by `a`.
pub open spec fn rot_y_spec(a: int, v: V3) -> V3 {
    let s = sin_fx_spec(wrap_angle_spec(a));
    let c = cos_fx_spec(wrap_angle_spec(a));
    V3 { x: fmul(c, v.x) + fmul(s, v.z), y: v.y, z: fmul(c, v.z) - fmul(s, v.x) }
}

/// Rotation of a vector about the Z axis by `a`.
pub open spec fn rot_z_spec(a: int, v: V3) -> V3 {
    let s = sin_fx_spec(wrap_angle_spec(a));
    let c = cos_fx_spec(wrap_angle_spec(a));
    V3 { x: fmul(c, v.x) - fmul(s, v.y), y: fmul(s, v.x) + fmul(c, v.y), z: v.z }
}

/// The scatter rotation: about X, then Y, then Z.
pub open spec fn euler_xyz_spec(ax: int, ay: int, az: int, v: V3) -> V3 {
    rot_z_spec(az, rot_y_spec(ay, rot_x_spec(ax, v)))
}

/// One debris body's starting velocity: the dash speed along the unit
/// vector of the reversed dash direction, turned by the random cone
/// angles.
pub open spec fn debris_velocity_spec(
    dash_speed: int,
    direction: V3,
    ax: int,
    ay: int,
    az: int,
) -> V3 {
    v3_scale(dash_speed, v3_unit_or_zero(euler_xyz_spec(ax, ay, az, v3_neg(direction))))
}

/// An angle drawn from the scatter cone.
pub open spec fn in_cone(a: int) -> bool {
    -CONE_HALF_ANGLE <= a <= CONE_HALF_ANGLE
}

/// A debris body thrown at dash speed along the reversed dash direction
/// turned by some angles of the scatter cone.
pub open spec fn scattered(p: DebrisParticle, dash_speed: int, direction: V3) -> bool {
    exists|ax: int, ay: int, az: int|
        in_cone(ax) && in_cone(ay) && in_cone(az) && p.velocity@ == debris_velocity_spec(
            dash_speed,
            direction,
            ax,
            ay,
            az,
        )
}

/// What one spawned burst must hold for its dash event: one body per
/// whole unit of dash speed, rounded down; each at the dash origin, each
/// expiring after exactly one second, and each thrown at dash speed
/// along the reversed dash direction turned by some cone angles.
pub open spec fn burst_ok(
    burst: Seq<DebrisParticle>,
    event: PlayerDash,
    dash_speed: int,
) -> bool {
    &&& burst.len() == fdiv(dash_speed, SCALE as int)
    &&& forall|i: int|
        0 <= i < burst.len() ==> (#[trigger] burst[i]).position == event.dash_start_position
    &&& forall|i: int| 0 <= i < burst.len() ==> (#[trigger] burst[i]).lifetime.remaining == DEBRIS_LIFETIME
    &&& forall|i: int|
        0 <= i < burst.len() ==> scattered(#[trigger] burst[i], dash_speed, event.dash_direction@)
}

/// A trig factor never grows a coordinate, so a rotated vector's
/// coordinates at most double.
proof fn lemma_rot_term(t: int, c: int, b: int)
    requires
        iabs(t) <= SCALE,
        iabs(c) <= b,
        0 <= b,
    ensures
        iabs(fmul(t, c)) <= b,
{
    lemma_fmul_bound(t, c, SCALE as int, b);
    assert((SCALE * b) / (SCALE as int) == b) by (nonlinear_arith)
        requires
            SCALE == 1000 && b >= 0,
    ;
    assert(iabs(t) * iabs(c) <= SCALE * b) by (nonlinear_arith)
        requires
            0 <= iabs(t) <= SCALE && 0 <= iabs(c) <= b,
    ;
    vstd::arithmetic::div_mod::lemma_div_is_ordered(iabs(t) * iabs(c), SCALE * b, SCALE as int);
}

/// Rotate about the X axis by `a`.
fn rot_x(a: Fx, v: Vec3Fx) -> (r: Vec3Fx)
    requires
        -FX_MAX + 2000 <= a <= FX_MAX - 2000,
        v3_below(v@, 2 * SCALE as int),
    ensures
        r@ == rot_x_spec(a as int, v@),
        v3_below(r@, 4 * SCALE as int),
{
    let s: i64 = sin_fx(a);
    let c: i64 = cos_fx(a);
    proof {
        lemma_rot_term(s as int, v@.y, 2 * SCALE as int);
        lemma_rot_term(s as int, v@.z, 2 * SCALE as int);
        lemma_rot_term(c as int, v@.y, 2 * SCALE as int);
        lemma_rot_term(c as int, v@.z, 2 * SCALE as int);
    }
    Vec3Fx { x: v.x, y: mul_fx(c, v.y) - mul_fx(s, v.z), z: mul_fx(s, v.y) + mul_fx(c, v.z) }
}

/// Rotate about the Y axis by `a`.
fn rot_y(a: Fx, v: Vec3Fx) -> (r: Vec3Fx)
    requires
        -FX_MAX + 2000 <= a <= FX_MAX - 2000,
        v3_below(v@, 4 * SCALE as int),
    ensures
        r@ == rot_y_spec(a as int, v@),
        v3_below(r@, 8 * SCALE as int),
{
    let s: i64 = sin_fx(a);
    let c: i64 = cos_fx(a);
    proof {
        lemma_rot_term(s as int, v@.x, 4 * SCALE as int);
        lemma_rot_term(s as int, v@.z, 4 * SCALE as int);
        lemma_rot_term(c as int, v@.x, 4 * SCALE as int);
        lemma_rot_term(c as int, v@.z, 4 * SCALE as int);
    }
    Vec3Fx { x: mul_fx(c, v.x) + mul_fx(s, v.z), y: v.y, z: mul_fx(c, v.z) - mul_fx(s, v.x) }
}

/// Rotate about the Z axis by `a`.
fn rot_z(a: Fx, v: Vec3Fx) -> (r: Vec3Fx)
    requires
        -FX_MAX + 2000 <= a <= FX_MAX - 2000,
        v3_below(v@, 8 * SCALE as int),
    ensures
        r@ == rot_z_spec(a as int, v@),
        v3_below(r@, 16 * SCALE as int),
{
    let s: i64 = sin_fx(a);
    let c: i64 = cos_fx(a);
    proof {
        lemma_rot_term(s as int, v@.x, 8 * SCALE as int);
        lemma_rot_term(s as int, v@.y, 8 * SCALE as int);
        lemma_rot_term(c as int, v@.x, 8 * SCALE as int);
        lemma_rot_term(c as int, v@.y, 8 * SCALE as int);
    }
    Vec3Fx { x: mul_fx(c, v.x) - mul_fx(s, v.y), y: mul_fx(s, v.x) + mul_fx(c, v.y), z: v.z }
}

/// One debris body's starting velocity for the given cone angles.
pub fn debris_velocity(dash_speed: Fx, direction: Vec3Fx, ax: Fx, ay: Fx, az: Fx) -> (vel: Vec3Fx)
    requires
        0 <= dash_speed <= COORD_MAX,
        v3_below(direction@, SCALE as int),
        in_cone(ax as int),
        in_cone(ay as int),
        in_cone(az as int),
    ensures
        vel@ == debris_velocity_spec(dash_speed as int, direction@, ax as int, ay as int, az as int),
        v3_below(vel@, COORD_MAX as int),
{
    let reversed = direction.negated();
    let turned = rot_z(az, rot_y(ay, rot_x(ax, reversed)));
    let scatter = turned.unit_or_zero();
    let vel = scatter.scaled(dash_speed);
    proof {
        lemma_fmul_bound(dash_speed as int, scatter@.x, COORD_MAX as int, SCALE as int);
        lemma_fmul_bound(dash_speed as int, scatter@.y, COORD_MAX as int, SCALE as int);
        lemma_fmul_bound(dash_speed as int, scatter@.z, COORD_MAX as int, SCALE as int);
    }
    vel
}

/// React to one dash event: spawn one debris body per whole unit of dash
/// speed, each at the dash origin, thrown at dash speed within the
/// random scatter cone around the reversed dash direction, and expiring
/// after exactly one second. With no event this system does nothing, and
/// a burst is spawned at most once per event.
pub fn spawn_particles_on_player_dash(
    event: &PlayerDash,
    dash_speed: Fx,
    rng: &mut rand::rngs::StdRng,
) -> (burst: Vec<DebrisParticle>)
    requires
        0 <= dash_speed <= COORD_MAX,
        v3_below(event.dash_direction@, SCALE as int),
    ensures
        burst_ok(burst@, *event, dash_speed as int),
{
    let count: i64 = crate::fixed::div_trunc(dash_speed, SCALE);
    let mut burst: Vec<DebrisParticle> = Vec::new();
    let mut spawned: i64 = 0;
    while spawned < count
        invariant
            0 <= spawned <= count,
            count == fdiv(dash_speed as int, SCALE as int),
            0 <= count <= COORD_MAX,
            0 <= dash_speed <= COORD_MAX,
            v3_below(event.dash_direction@, SCALE as int),
            burst@.len() == spawned,
            forall|i: int|
                0 <= i < burst@.len() ==> (#[trigger] burst@[i]).position
                    == event.dash_start_position,
            forall|i: int|
                0 <= i < burst@.len() ==> (#[trigger] burst@[i]).lifetime.remaining
                    == DEBRIS_LIFETIME,
            forall|i: int|
                0 <= i < burst@.len() ==> scattered(
                    #[trigger] burst@[i],
                    dash_speed as int,
                    event.dash_direction@,
                ),
        decreases count - spawned,
    {
        let ax: i64 = sample_in_range(rng, -CONE_HALF_ANGLE, CONE_HALF_ANGLE);
        let ay: i64 = sample_in_range(rng, -CONE_HALF_ANGLE, CONE_HALF_ANGLE);
        let az: i64 = sample_in_range(rng, -CONE_HALF_ANGLE, CONE_HALF_ANGLE);
        let vel = debris_velocity(dash_speed, event.dash_direction, ax, ay, az);
        let particle = DebrisParticle {
            position: event.dash_start_position,
            velocity: vel,
            lifetime: Lifetime::from_seconds(DEBRIS_LIFETIME),
        };
        burst.push(particle);
        proof {
            assert(scattered(particle, dash_speed as int, event.dash_direction@)) by {
                assert(in_cone(ax as int) && in_cone(ay as int) && in_cone(az as int)
                    && particle.velocity@ == debris_velocity_spec(
                    dash_speed as int,
                    event.dash_direction@,
                    ax as int,
                    ay as int,
                    az as int,
                ));
            }
        }
        spawned = spawned + 1;
    }
    burst
}

/// Advance every debris body's countdown by `dt` and destroy, without
/// exception, exactly the bodies whose full second has elapsed. The
/// survivors keep their order, their poses and their velocities.
pub fn lifetime_system(particles: &mut Vec<DebrisParticle>, dt: Fx)
    requires
        0 <= dt <= FX_MAX,
        forall|i: int|
            0 <= i < old(particles)@.len() ==> (#[trigger] old(particles)@[i]).lifetime.remaining
                >= 0,
    ensures
        final(particles)@ == survivors_after(old(particles)@, dt as int),
{
    let ghost orig = particles@;
    let mut kept: Vec<DebrisParticle> = Vec::new();
    let mut i: usize = 0;
    proof {
        assert(orig.take(0int) =~= Seq::<DebrisParticle>::empty());
    }
    while i < particles.len()
        invariant
            0 <= i <= particles@.len(),
            particles@ == orig,
            0 <= dt <= FX_MAX,
            forall|k: int|
                0 <= k < orig.len() ==> (#[trigger] orig[k]).lifetime.remaining >= 0,
            kept@ == survivors_after(orig.take(i as int), dt as int),
        decreases particles@.len() - i,
    {
        let p = particles[i];
        let mut ticked = p;
        let expired = ticked.lifetime.tick(dt);
        if !expired {
            kept.push(ticked);
        }
        proof {
            let t = orig.take(i as int + 1);
            assert(t.drop_last() =~= orig.take(i as int));
            assert(t.last() == orig[i as int]);
        }
        i = i + 1;
    }
    proof {
        assert(orig.take(orig.len() as int) =~= orig);
    }
    *particles = kept;
}

/// No surviving debris body carries a negative countdown.
pub proof fn lemma_survivors_nonneg(particles: Seq<DebrisParticle>, dt: int)
    requires
        0 <= dt,
    ensures
        forall|i: int|
            0 <= i < survivors_after(particles, dt).len() ==> (#[trigger] survivors_after(
                particles,
                dt,
            )[i]).lifetime.remaining >= 0,
    decreases particles.len(),
{
    if particles.len() > 0 {
        lemma_survivors_nonneg(particles.drop_last(), dt);
        let rest = survivors_after(particles.drop_last(), dt);
        let s = survivors_after(particles, dt);
        assert forall|i: int| 0 <= i < s.len() implies (#[trigger] s[i]).lifetime.remaining >= 0 by {
            if particles.last().lifetime.expires_within(dt) {
                assert(s[i] == rest[i]);
            } else {
                if i < rest.len() {
                    assert(s[i] == rest[i]);
                } else {
                    assert(s[i].lifetime.remaining == particles.last().lifetime.remaining - dt);
                }
            }
        }
    }
}

/// The debris bodies that outlive a frame step: the expired ones are
/// destroyed, the rest carry their shortened countdowns in order.
pub open spec fn survivors_after(particles: Seq<DebrisParticle>, dt: int) -> Seq<DebrisParticle>
    decreases particles.len(),
{
    if particles.len() == 0 {
        Seq::empty()
    } else {
        let rest = survivors_after(particles.drop_last(), dt);
        let last = particles.last();
        if last.lifetime.expires_within(dt) {
            rest
        } else {
            rest.push(
                DebrisParticle {
                    lifetime: Lifetime { remaining: (last.lifetime.remaining - dt) as i64 },
                    ..last
                },
            )
        }
    }
}

} // verus!
