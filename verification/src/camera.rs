//! The orbiting third-person camera rig: orbit orientation, zoom radius
//! with its bounds, the two enable gates, and the per-tick arbitration
//! between orbit drags and the movement joystick.

use vstd::prelude::*;
use crate::fixed::{
    cos_fx, cos_fx_spec, div_trunc, fclamp, fdiv, fmul, fx_ok, iabs, lemma_cos_fx_positive,
    lemma_fdiv_shrink, lemma_wrap_angle_in_band, mul_fx, sin_fx, sin_fx_spec, wrap_angle,
    wrap_angle_spec, Fx, FX_MAX, HALF_PI_FX, PI_FX, SCALE,
};
use crate::vecfx::{v3_below, v3_sum, Vec2Fx, Vec3Fx, V3};

verus! {

/// Upper bound on an orbit sensitivity factor (one hundred units).
pub const SENSITIVITY_MAX: i64 = 100_000;

/// Upper bound on a viewport extent (ten thousand whole pixels).
pub const VIEWPORT_MAX: i64 = 10_000_000;

/// Upper bound on a drag delta (one thousand whole pixels).
pub const DRAG_MAX: i64 = 1_000_000;

/// The one orbiting camera of the scene.
#[derive(Clone, Copy, PartialEq, Eq, Structural, Debug)]
pub struct CameraRig {
    /// World position the camera orbits; fixed, not re-synced per frame.
    pub focus: Vec3Fx,
    /// Orbit angle about the world vertical, in `(-PI_FX, PI_FX]`.
    pub yaw: Fx,
    /// Orbit angle above or below the horizon, strictly inside a
    /// quarter turn either way: the up-vector never flips.
    pub pitch: Fx,
    /// Distance from the focus, always inside `[min_radius, max_radius]`.
    pub zoom_radius: Fx,
    pub min_radius: Fx,
    pub max_radius: Fx,
    /// Whether pointer and touch drags orbit the camera this tick.
    pub orbit_enabled: bool,
    /// Whether zoom input reaches the radius; toggled by the cursor-lock
    /// binding.
    pub zoom_enabled: bool,
}

/// A pitch from which the camera up-vector points upward.
pub open spec fn upright(pitch: int) -> bool {
    -HALF_PI_FX < pitch < HALF_PI_FX
}

impl CameraRig {
    /// The rig's invariant: angles in their principal bands, the pitch
    /// strictly short of either pole, and the radius inside its bounds.
    pub open spec fn well_formed(self) -> bool {
        &&& v3_below(self.focus@, crate::vecfx::COORD_MAX as int)
        &&& -PI_FX < self.yaw <= PI_FX
        &&& upright(self.pitch as int)
        &&& 0 <= self.min_radius <= self.max_radius <= crate::vecfx::COORD_MAX
        &&& self.min_radius <= self.zoom_radius <= self.max_radius
    }

    /// Build a rig around `focus`. The starting radius is clamped into
    /// the given bounds.
    pub fn new(
        focus: Vec3Fx,
        yaw: Fx,
        pitch: Fx,
        zoom_radius: Fx,
        min_radius: Fx,
        max_radius: Fx,
    ) -> (rig: CameraRig)
        requires
            v3_below(focus@, crate::vecfx::COORD_MAX as int),
            -PI_FX < yaw <= PI_FX,
            upright(pitch as int),
            0 <= min_radius <= max_radius <= crate::vecfx::COORD_MAX,
        ensures
            rig.well_formed(),
            rig.focus == focus,
            rig.yaw == yaw,
            rig.pitch == pitch,
            rig.zoom_radius == fclamp(zoom_radius as int, min_radius as int, max_radius as int),
            rig.min_radius == min_radius,
            rig.max_radius == max_radius,
            rig.orbit_enabled,
            rig.zoom_enabled,
    {
        CameraRig {
            focus,
            yaw,
            pitch,
            zoom_radius: crate::fixed::clamp_fx(zoom_radius, min_radius, max_radius),
            min_radius,
            max_radius,
            orbit_enabled: true,
            zoom_enabled: true,
        }
    }

    /// The cursor-lock binding toggles whether zoom input is heeded:
    /// on the key's press edge the flag inverts, otherwise it keeps
    /// its value.
    pub fn toggle_zoom_on_cursor_lock(&mut self, lock_key_edge: bool)
        ensures
            final(self).zoom_enabled == (if lock_key_edge {
                !old(self).zoom_enabled
            } else {
                old(self).zoom_enabled
            }),
            *final(self) == (CameraRig { zoom_enabled: final(self).zoom_enabled, ..*old(self) }),
    {
        if lock_key_edge {
            self.zoom_enabled = !self.zoom_enabled;
        }
    }

    /// Per-tick orbit/joystick arbitration: any movement-joystick
    /// activity this tick forces orbiting off for the tick; none
    /// forces it on. Last-writer-wins, recomputed every tick from the
    /// joystick mailbox alone, never latched.
    pub fn disable_camera_orbit_while_joystick_held(&mut self, joystick_active: bool)
        ensures
            final(self).orbit_enabled == !joystick_active,
            *final(self) == (CameraRig { orbit_enabled: !joystick_active, ..*old(self) }),
    {
        if joystick_active {
            self.orbit_enabled = false;
        } else {
            self.orbit_enabled = true;
        }
    }

    /// One zoom input: when the zoom gate is open, move the radius and
    /// clamp it into its bounds; when shut, change nothing. The radius
    /// never leaves `[min_radius, max_radius]`.
    pub fn apply_zoom_input(&mut self, delta: Fx)
        requires
            old(self).well_formed(),
            fx_ok(delta as int),
        ensures
            final(self).well_formed(),
            final(self).zoom_radius == (if old(self).zoom_enabled {
                fclamp(
                    old(self).zoom_radius + delta,
                    old(self).min_radius as int,
                    old(self).max_radius as int,
                )
            } else {
                old(self).zoom_radius as int
            }),
            *final(self) == (CameraRig { zoom_radius: final(self).zoom_radius, ..*old(self) }),
            final(self).min_radius <= final(self).zoom_radius <= final(self).max_radius,
    {
        if self.zoom_enabled {
            let moved: i64 = self.zoom_radius + delta;
            self.zoom_radius = crate::fixed::clamp_fx(moved, self.min_radius, self.max_radius);
        }
    }

    /// The angle a drag component turns the orbit by: the delta, scaled
    /// by the sensitivity, over the viewport extent, times a half turn.
    pub open spec fn drag_angle(delta: int, sensitivity: int, span: int) -> int {
        fdiv(fmul(delta, sensitivity) * PI_FX, span)
    }

    /// Where one orbit drag leaves the pitch: the candidate is the
    /// turned pitch; it is committed only if the up-vector stays
    /// upright there, else the old pitch is kept.
    pub open spec fn pitch_after_drag(pitch: int, angle: int) -> int {
        let candidate = wrap_angle_spec(pitch + angle);
        if upright(candidate) {
            candidate
        } else {
            pitch
        }
    }

    /// One orbit drag, from gesture start to the current touch point.
    /// With the orbit gate shut nothing changes. Otherwise the yaw turns
    /// unconditionally and the pitch only if the camera would not flip
    /// through a pole.
    pub fn orbit_touch(
        &mut self,
        drag: Vec2Fx,
        viewport_w: Fx,
        viewport_h: Fx,
        sensitivity: Fx,
    )
        requires
            old(self).well_formed(),
            iabs(drag@.x) <= DRAG_MAX,
            iabs(drag@.y) <= DRAG_MAX,
            SCALE <= viewport_w <= VIEWPORT_MAX,
            SCALE <= viewport_h <= VIEWPORT_MAX,
            0 <= sensitivity <= SENSITIVITY_MAX,
        ensures
            final(self).well_formed(),
            !old(self).orbit_enabled ==> *final(self) == *old(self),
            old(self).orbit_enabled ==> final(self).yaw == wrap_angle_spec(
                old(self).yaw - Self::drag_angle(
                    drag@.x,
                    sensitivity as int,
                    viewport_w as int,
                ),
            ),
            old(self).orbit_enabled ==> final(self).pitch == Self::pitch_after_drag(
                old(self).pitch as int,
                -Self::drag_angle(drag@.y, sensitivity as int, viewport_h as int),
            ),
            *final(self) == (CameraRig {
                yaw: final(self).yaw,
                pitch: final(self).pitch,
                ..*old(self)
            }),
            upright(final(self).pitch as int),
    {
        if !self.orbit_enabled {
            return ;
        }
        let ax: i64 = Self::drag_angle_fx(drag.x, sensitivity, viewport_w);
        let ay: i64 = Self::drag_angle_fx(drag.y, sensitivity, viewport_h);
        self.yaw = wrap_angle(self.yaw - ax);
        let candidate: i64 = wrap_angle(self.pitch - ay);
        if -HALF_PI_FX < candidate && candidate < HALF_PI_FX {
            self.pitch = candidate;
        }
    }

    /// The turn angle of one drag component, executably.
    fn drag_angle_fx(delta: Fx, sensitivity: Fx, span: Fx) -> (angle: Fx)
        requires
            iabs(delta as int) <= DRAG_MAX,
            0 <= sensitivity <= SENSITIVITY_MAX,
            SCALE <= span <= VIEWPORT_MAX,
        ensures
            angle == Self::drag_angle(delta as int, sensitivity as int, span as int),
            iabs(angle as int) <= 400_000_000,
    {
        let scaled: i64 = mul_fx(delta, sensitivity);
        proof {
            assert(iabs(delta as int) * iabs(sensitivity as int) <= DRAG_MAX * SENSITIVITY_MAX)
                by (nonlinear_arith)
                requires
                    0 <= iabs(delta as int) <= DRAG_MAX && 0 <= iabs(sensitivity as int)
                        <= SENSITIVITY_MAX,
            ;
            vstd::arithmetic::div_mod::lemma_div_is_ordered(
                iabs(delta as int) * iabs(sensitivity as int),
                DRAG_MAX * SENSITIVITY_MAX,
                SCALE as int,
            );
            assert(iabs(scaled as int) <= 100_000_000);
            assert(iabs(scaled as int * PI_FX) <= 100_000_000 * PI_FX) by (nonlinear_arith)
                requires
                    iabs(scaled as int) <= 100_000_000 && PI_FX == 3142,
            ;
            lemma_fdiv_shrink(scaled as int * PI_FX, span as int, 100_000_000 * PI_FX, SCALE as int);
        }
        let turned: i64 = scaled * PI_FX;
        div_trunc(turned, span)
    }

    /// The vertical component of the camera's up-vector, which the rig
    /// keeps strictly positive: the camera never flips through a pole.
    pub open spec fn up_vertical_spec(pitch: int) -> int {
        cos_fx_spec(wrap_angle_spec(pitch))
    }

    /// A well-formed rig's up-vector points strictly upward.
    pub proof fn lemma_up_vertical_positive(self)
        requires
            self.well_formed(),
        ensures
            Self::up_vertical_spec(self.pitch as int) >= 1,
    {
        assert(wrap_angle_spec(self.pitch as int) == self.pitch as int);
        lemma_cos_fx_positive(self.pitch as int);
    }

    /// The vertical component of the camera's up-vector.
    pub fn up_vertical(&self) -> (r: Fx)
        requires
            self.well_formed(),
        ensures
            r == Self::up_vertical_spec(self.pitch as int),
            r >= 1,
    {
        proof {
            self.lemma_up_vertical_positive();
        }
        cos_fx(self.pitch)
    }

    /// The camera's forward axis: the unit-length look direction from
    /// the camera toward the focus, from yaw and pitch.
    pub open spec fn forward_spec(yaw: int, pitch: int) -> V3 {
        let sy = sin_fx_spec(wrap_angle_spec(yaw));
        let cy = cos_fx_spec(wrap_angle_spec(yaw));
        let sp = sin_fx_spec(wrap_angle_spec(pitch));
        let cp = cos_fx_spec(wrap_angle_spec(pitch));
        V3 { x: -fmul(sy, cp), y: sp, z: -fmul(cy, cp) }
    }

    /// The camera's right axis: horizontal, perpendicular to the
    /// forward axis, from yaw alone.
    pub open spec fn right_spec(yaw: int) -> V3 {
        V3 {
            x: cos_fx_spec(wrap_angle_spec(yaw)),
            y: 0,
            z: -sin_fx_spec(wrap_angle_spec(yaw)),
        }
    }

    /// The camera's forward axis, read by the character controller as a
    /// per-frame snapshot; the rig itself is never mutated through it.
    pub fn forward_vector(&self) -> (r: Vec3Fx)
        requires
            self.well_formed(),
        ensures
            r@ == Self::forward_spec(self.yaw as int, self.pitch as int),
            v3_below(r@, SCALE as int),
    {
        let sy: i64 = sin_fx(self.yaw);
        let cy: i64 = cos_fx(self.yaw);
        let sp: i64 = sin_fx(self.pitch);
        let cp: i64 = cos_fx(self.pitch);
        proof {
            crate::fixed::lemma_fmul_bound(sy as int, cp as int, SCALE as int, SCALE as int);
            crate::fixed::lemma_fmul_bound(cy as int, cp as int, SCALE as int, SCALE as int);
        }
        Vec3Fx::new(-mul_fx(sy, cp), sp, -mul_fx(cy, cp))
    }

    /// The camera's right axis, the controller's other projection axis.
    pub fn right_vector(&self) -> (r: Vec3Fx)
        requires
            self.well_formed(),
        ensures
            r@ == Self::right_spec(self.yaw as int),
            v3_below(r@, SCALE as int),
    {
        let sy: i64 = sin_fx(self.yaw);
        let cy: i64 = cos_fx(self.yaw);
        Vec3Fx::new(cy, 0, -sy)
    }

    /// The camera offset from the focus: the zoom radius pushed out
    /// along the orbit orientation.
    pub open spec fn camera_offset_spec(yaw: int, pitch: int, radius: int) -> V3 {
        let sy = sin_fx_spec(wrap_angle_spec(yaw));
        let cy = cos_fx_spec(wrap_angle_spec(yaw));
        let sp = sin_fx_spec(wrap_angle_spec(pitch));
        let cp = cos_fx_spec(wrap_angle_spec(pitch));
        let flat = fmul(cp, radius);
        V3 { x: fmul(sy, flat), y: -fmul(sp, radius), z: fmul(cy, flat) }
    }

    /// Where the camera stands in the world: recomputed every frame
    /// from focus, orientation and zoom radius.
    pub open spec fn camera_position_spec(self) -> V3 {
        v3_sum(
            self.focus@,
            Self::camera_offset_spec(self.yaw as int, self.pitch as int, self.zoom_radius as int),
        )
    }

    /// Recompute the camera's world position from focus, orientation
    /// and zoom radius.
    pub fn camera_position(&self) -> (pos: Vec3Fx)
        requires
            self.well_formed(),
        ensures
            pos@ == self.camera_position_spec(),
    {
        let sy: i64 = sin_fx(self.yaw);
        let cy: i64 = cos_fx(self.yaw);
        let sp: i64 = sin_fx(self.pitch);
        let cp: i64 = cos_fx(self.pitch);
        let flat: i64 = mul_fx(cp, self.zoom_radius);
        proof {
            Self::lemma_trig_radius_band(cp as int, self.zoom_radius as int);
            Self::lemma_trig_radius_band(sp as int, self.zoom_radius as int);
            Self::lemma_trig_radius_band(sy as int, flat as int);
            Self::lemma_trig_radius_band(cy as int, flat as int);
        }
        let x: i64 = mul_fx(sy, flat);
        let y: i64 = -mul_fx(sp, self.zoom_radius);
        let z: i64 = mul_fx(cy, flat);
        self.focus.plus(Vec3Fx::new(x, y, z))
    }

    /// A trig factor keeps a scaled radius inside the coordinate band.
    proof fn lemma_trig_radius_band(t: int, r: int)
        requires
            iabs(t) <= SCALE,
            iabs(r) <= crate::vecfx::COORD_MAX,
        ensures
            iabs(fmul(t, r)) <= crate::vecfx::COORD_MAX,
            fx_ok(fmul(t, r)),
    {
        crate::fixed::lemma_fmul_bound(t, r, SCALE as int, crate::vecfx::COORD_MAX as int);
        vstd::arithmetic::div_mod::lemma_div_is_ordered(
            0,
            SCALE * crate::vecfx::COORD_MAX,
            SCALE as int,
        );
        assert((SCALE * crate::vecfx::COORD_MAX) / (SCALE as int) == crate::vecfx::COORD_MAX)
            by (nonlinear_arith)
            requires
                SCALE == 1000 && crate::vecfx::COORD_MAX == 1_000_000,
        ;
    }
}

/// Where a sequence of pitch drags leaves the pitch, each drag committed
/// only while the camera stays upright.
pub open spec fn pitch_after_drags(pitch: int, angles: Seq<int>) -> int
    decreases angles.len(),
{
    if angles.len() == 0 {
        pitch
    } else {
        CameraRig::pitch_after_drag(pitch_after_drags(pitch, angles.drop_last()), angles.last())
    }
}

/// After any sequence of pitch drags from an upright pitch, the pitch is
/// still upright and the up-vector's vertical component stays positive:
/// the camera never flips through a pole.
pub proof fn lemma_pitch_drags_never_flip(pitch: int, angles: Seq<int>)
    requires
        upright(pitch),
    ensures
        upright(pitch_after_drags(pitch, angles)),
        CameraRig::up_vertical_spec(pitch_after_drags(pitch, angles)) >= 1,
    decreases angles.len(),
{
    if angles.len() > 0 {
        lemma_pitch_drags_never_flip(pitch, angles.drop_last());
        let before = pitch_after_drags(pitch, angles.drop_last());
        lemma_wrap_angle_in_band(before + angles.last());
    }
    let after = pitch_after_drags(pitch, angles);
    assert(wrap_angle_spec(after) == after);
    lemma_cos_fx_positive(after);
}

/// Where a sequence of zoom inputs leaves the radius, each clamped into
/// the bounds.
pub open spec fn zoom_after_inputs(radius: int, lo: int, hi: int, deltas: Seq<int>) -> int
    decreases deltas.len(),
{
    if deltas.len() == 0 {
        radius
    } else {
        fclamp(zoom_after_inputs(radius, lo, hi, deltas.drop_last()) + deltas.last(), lo, hi)
    }
}

/// After any sequence of zoom inputs, even ones that would drive it
/// outside the bounds, the radius stays inside `[lo, hi]`.
pub proof fn lemma_zoom_stays_bounded(radius: int, lo: int, hi: int, deltas: Seq<int>)
    requires
        lo <= radius <= hi,
    ensures
        lo <= zoom_after_inputs(radius, lo, hi, deltas) <= hi,
    decreases deltas.len(),
{
    if deltas.len() > 0 {
        lemma_zoom_stays_bounded(radius, lo, hi, deltas.drop_last());
    }
}

} // verus!
