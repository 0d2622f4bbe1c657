//! Orbit camera state in fixed-point units.
//!
//! The camera orbits a target point at a distance (the radius), described
//! by a yaw angle around the vertical axis and a pitch angle above the
//! horizon. All state is kept in integer fixed-point units of one
//! millionth (micro-units): angles in microradians, lengths in
//! micro-units of world distance. The host converts to floating point
//! only at the edge, when it builds the view matrix.
//!
//! Invariants: the radius never falls below a positive minimum (so the
//! eye never degenerates onto the target), and the pitch is clamped to an
//! open interval strictly inside plus/minus a quarter turn (so the view
//! direction never aligns with the vertical up axis).

use vstd::arithmetic::div_mod::{
    lemma_add_mod_noop_right, lemma_mod_add_multiples_vanish, lemma_mod_sub_multiples_vanish,
    lemma_small_mod, lemma_sub_mod_noop_right,
};
use vstd::prelude::*;

verus! {

/// One full turn, in microradians (two pi, truncated to the unit grid).
pub const TAU_MICRORAD: i64 = 6_283_185;

/// Lowest admissible pitch: a hundredth of a radian above minus a quarter
/// turn, in microradians.
pub const MIN_PITCH_MICRORAD: i64 = -1_560_796;

/// Highest admissible pitch: a hundredth of a radian below a quarter
/// turn, in microradians.
pub const MAX_PITCH_MICRORAD: i64 = 1_560_796;

/// Smallest admissible orbit radius, in micro-units of world distance
/// (a tenth of a unit).
pub const MIN_RADIUS_MICRO: i64 = 100_000;

/// Radius change per milli-line of scroll, in micro-units: one scroll
/// line moves the camera a tenth of a unit.
pub const SCROLL_STEP_MICRO: i64 = 100;

/// `x` forced into the closed interval `[lo, hi]`.
pub open spec fn spec_clamp(x: int, lo: int, hi: int) -> int {
    if x < lo {
        lo
    } else if x > hi {
        hi
    } else {
        x
    }
}

/// Orbit camera: target point, orbit radius and two angles, all in
/// fixed-point micro-units.
pub struct Camera {
    target: [i64; 3],
    radius: i64,
    yaw: i64,
    pitch: i64,
}

impl Camera {
    /// The orbited point, in micro-units of world distance per axis.
    pub closed spec fn spec_target(&self) -> Seq<i64> {
        self.target@
    }

    /// Distance from the eye to the target, in micro-units.
    pub closed spec fn spec_radius(&self) -> i64 {
        self.radius
    }

    /// Rotation around the vertical axis, in microradians, normalized
    /// into one turn.
    pub closed spec fn spec_yaw(&self) -> i64 {
        self.yaw
    }

    /// Elevation above the horizontal plane, in microradians.
    pub closed spec fn spec_pitch(&self) -> i64 {
        self.pitch
    }

    #[verifier::type_invariant]
    spec fn wf(&self) -> bool {
        &&& 0 <= self.yaw < TAU_MICRORAD
        &&& MIN_PITCH_MICRORAD <= self.pitch <= MAX_PITCH_MICRORAD
        &&& self.radius >= MIN_RADIUS_MICRO
    }

    /// A camera looking at `target` from `radius` away, level with the
    /// horizon and with no rotation around the vertical axis.
    pub fn new(target: [i64; 3], radius: i64) -> (r: Camera)
        requires
            radius >= MIN_RADIUS_MICRO,
        ensures
            r.spec_target() == target@,
            r.spec_radius() == radius,
            r.spec_yaw() == 0,
            r.spec_pitch() == 0,
    {
        Camera { target, radius, yaw: 0, pitch: 0 }
    }

    /// Drag by `delta_x` and `delta_y` milli-pixels: the yaw advances by
    /// the horizontal delta and wraps around the full turn; the pitch
    /// advances by the vertical delta and is clamped into the safe
    /// interval, so it never reaches a quarter turn in either direction.
    /// (At one thousandth of a radian per pixel of drag, a milli-pixel
    /// delta is exactly a microradian delta.)
    pub fn update_angles(&mut self, delta_x: i32, delta_y: i32)
        ensures
            final(self).spec_target() == old(self).spec_target(),
            final(self).spec_radius() == old(self).spec_radius(),
            final(self).spec_yaw() == (old(self).spec_yaw() + delta_x) % (TAU_MICRORAD as int),
            0 <= final(self).spec_yaw() < TAU_MICRORAD,
            final(self).spec_pitch() == spec_clamp(
                old(self).spec_pitch() + delta_y,
                MIN_PITCH_MICRORAD as int,
                MAX_PITCH_MICRORAD as int,
            ),
            MIN_PITCH_MICRORAD <= final(self).spec_pitch() <= MAX_PITCH_MICRORAD,
    {
        proof {
            use_type_invariant(&*self);
        }
        let dabs: i64 = if delta_x >= 0 {
            delta_x as i64
        } else {
            -(delta_x as i64)
        };
        let dm: i64 = ((dabs as u64) % (TAU_MICRORAD as u64)) as i64;
        let y: i64 = if delta_x >= 0 {
            self.yaw + dm
        } else {
            self.yaw - dm
        };
        let new_yaw: i64 = if y < 0 {
            y + TAU_MICRORAD
        } else if y >= TAU_MICRORAD {
            y - TAU_MICRORAD
        } else {
            y
        };
        proof {
            let m = TAU_MICRORAD as int;
            let yaw0 = self.yaw as int;
            let dx = delta_x as int;
            if delta_x >= 0 {
                lemma_add_mod_noop_right(yaw0, dx, m);
            } else {
                lemma_sub_mod_noop_right(yaw0, dabs as int, m);
            }
            if y < 0 {
                lemma_mod_add_multiples_vanish(y as int, m);
            } else if y >= TAU_MICRORAD {
                lemma_mod_sub_multiples_vanish(y as int, m);
            }
            lemma_small_mod(new_yaw as nat, m as nat);
        }
        self.yaw = new_yaw;
        let p: i64 = self.pitch + delta_y as i64;
        self.pitch = if p < MIN_PITCH_MICRORAD {
            MIN_PITCH_MICRORAD
        } else if p > MAX_PITCH_MICRORAD {
            MAX_PITCH_MICRORAD
        } else {
            p
        };
    }

    /// Scroll by `delta` milli-lines: the radius shrinks by the scroll
    /// step per milli-line (so scrolling forward zooms in) and is clamped
    /// to the positive minimum, however large the delta; a zoom can never
    /// push the eye onto or past the target.
    pub fn zoom(&mut self, delta: i32)
        ensures
            final(self).spec_target() == old(self).spec_target(),
            final(self).spec_yaw() == old(self).spec_yaw(),
            final(self).spec_pitch() == old(self).spec_pitch(),
            final(self).spec_radius() == spec_clamp(
                old(self).spec_radius() - delta * SCROLL_STEP_MICRO,
                MIN_RADIUS_MICRO as int,
                i64::MAX as int,
            ),
            final(self).spec_radius() >= MIN_RADIUS_MICRO,
    {
        proof {
            use_type_invariant(&*self);
        }
        assert((delta as int) * (SCROLL_STEP_MICRO as int) < i64::MAX) by (nonlinear_arith)
            requires
                i32::MIN <= delta <= i32::MAX,
        ;
        assert((delta as int) * (SCROLL_STEP_MICRO as int) > i64::MIN) by (nonlinear_arith)
            requires
                i32::MIN <= delta <= i32::MAX,
        ;
        let step: i64 = (delta as i64) * SCROLL_STEP_MICRO;
        let shrunk: i128 = self.radius as i128 - step as i128;
        self.radius = if shrunk < MIN_RADIUS_MICRO as i128 {
            MIN_RADIUS_MICRO
        } else if shrunk > i64::MAX as i128 {
            i64::MAX
        } else {
            shrunk as i64
        };
    }

    /// The orbited point, micro-units per axis.
    pub fn target(&self) -> (r: [i64; 3])
        ensures
            r@ == self.spec_target(),
    {
        self.target
    }

    /// Distance from the eye to the target, in micro-units.
    pub fn radius_micro(&self) -> (r: i64)
        ensures
            r == self.spec_radius(),
            r >= MIN_RADIUS_MICRO,
    {
        proof {
            use_type_invariant(self);
        }
        self.radius
    }

    /// Rotation around the vertical axis, in microradians.
    pub fn yaw_microrad(&self) -> (r: i64)
        ensures
            r == self.spec_yaw(),
            0 <= r < TAU_MICRORAD,
    {
        proof {
            use_type_invariant(self);
        }
        self.yaw
    }

    /// Elevation above the horizontal plane, in microradians.
    pub fn pitch_microrad(&self) -> (r: i64)
        ensures
            r == self.spec_pitch(),
            MIN_PITCH_MICRORAD <= r <= MAX_PITCH_MICRORAD,
    {
        proof {
            use_type_invariant(self);
        }
        self.pitch
    }
}

} // verus!
