//! Orbit-camera and light state, driven by already-decoded input deltas.
//!
//! Angles are milli-radians, distances milli-units. The front end polls the
//! input devices, turns key and mouse state into deltas, and feeds them in;
//! the clamping rules proved here keep the orbit state inside its invariant
//! whatever deltas arrive. Turning the state into Cartesian positions needs
//! trigonometry on floats, which the front end does.

use vstd::prelude::*;

verus! {

/// A full turn in milli-radians (two pi), the wrap period of the yaw and of
/// the light's rotation angle.
pub const TAU_MILLI: i64 = 6283;

/// Clamp into `[lo, hi]` over the mathematical integers.
pub open spec fn clamp_spec(v: int, lo: int, hi: int) -> int {
    if v < lo {
        lo
    } else if v > hi {
        hi
    } else {
        v
    }
}

/// One wrap step into `(-TAU_MILLI, TAU_MILLI)` for a value that is at most
/// one period out of range.
pub open spec fn wrap_angle_spec(v: int) -> int {
    if v >= TAU_MILLI {
        v - TAU_MILLI
    } else if v <= -TAU_MILLI {
        v + TAU_MILLI
    } else {
        v
    }
}

/// Spherical orbit state around the fixed cube-center target: radius, yaw
/// and pitch, all in milli. Pitch is clamped short of the poles, radius to
/// the working distance band.
pub struct CameraControls {
    pub radius: i64,
    pub yaw: i64,
    pub pitch: i64,
}

impl CameraControls {
    /// The orbit invariant: radius in `[2, 30]` units, pitch in
    /// `[-1.4, 1.4]` radians, yaw within one period.
    pub open spec fn wf(self) -> bool {
        &&& 2000 <= self.radius <= 30000
        &&& -1400 <= self.pitch <= 1400
        &&& -TAU_MILLI < self.yaw < TAU_MILLI
    }

    /// Start from given spherical coordinates, clamped into the invariant.
    pub fn new(radius: i64, yaw: i64, pitch: i64) -> (s: CameraControls)
        requires
            -TAU_MILLI < yaw < TAU_MILLI,
        ensures
            s.radius == clamp_spec(radius as int, 2000, 30000),
            s.pitch == clamp_spec(pitch as int, -1400, 1400),
            s.yaw == yaw,
            s.wf(),
    {
        CameraControls {
            radius: if radius < 2000 { 2000 } else if radius > 30000 { 30000 } else { radius },
            yaw,
            pitch: if pitch < -1400 { -1400 } else if pitch > 1400 { 1400 } else { pitch },
        }
    }

    /// Apply one frame of decoded input deltas. Pitch and radius are
    /// clamped, the yaw wrapped by one period; the invariant always holds
    /// afterwards, however extreme the deltas.
    pub fn update(&mut self, yaw_delta: i64, pitch_delta: i64, radius_delta: i64)
        requires
            old(self).wf(),
            -TAU_MILLI <= yaw_delta <= TAU_MILLI,
        ensures
            final(self).yaw == wrap_angle_spec(old(self).yaw + yaw_delta),
            final(self).pitch == clamp_spec(old(self).pitch + pitch_delta, -1400, 1400),
            final(self).radius == clamp_spec(old(self).radius + radius_delta, 2000, 30000),
            final(self).wf(),
    {
        let y: i64 = self.yaw + yaw_delta;
        self.yaw = if y >= TAU_MILLI {
            y - TAU_MILLI
        } else if y <= -TAU_MILLI {
            y + TAU_MILLI
        } else {
            y
        };

        let p: i128 = self.pitch as i128 + pitch_delta as i128;
        self.pitch = if p < -1400 { -1400 } else if p > 1400 { 1400 } else { p as i64 };

        let r: i128 = self.radius as i128 + radius_delta as i128;
        self.radius = if r < 2000 { 2000 } else if r > 30000 { 30000 } else { r as i64 };
    }
}

/// Light controller: an orbit angle with optional auto-rotation, a fixed
/// orbit radius and height, and a clamped intensity.
pub struct LightControls {
    pub rotation: i64,
    pub auto_rotate: bool,
    pub radius: i64,
    pub height: i64,
    pub intensity: i64,
}

impl LightControls {
    /// Rotation within one period, intensity in `[0.1, 3.0]`.
    pub open spec fn wf(self) -> bool {
        &&& -TAU_MILLI < self.rotation < TAU_MILLI
        &&& 100 <= self.intensity <= 3000
    }

    pub fn new() -> (s: LightControls)
        ensures
            s.rotation == 0,
            s.auto_rotate == true,
            s.radius == 5000,
            s.height == 4000,
            s.intensity == 1000,
            s.wf(),
    {
        LightControls { rotation: 0, auto_rotate: true, radius: 5000, height: 4000, intensity: 1000 }
    }

    /// Apply one frame of decoded input: an auto-rotate toggle and the
    /// intensity keys (raise applied before lower, as the key scan does).
    /// While auto-rotating, the angle advances by 10 milli-radians a frame,
    /// wrapping after a full turn.
    pub fn update(&mut self, toggle_rotate: bool, intensity_up: bool, intensity_down: bool)
        requires
            old(self).wf(),
        ensures
            final(self).auto_rotate == (if toggle_rotate { !old(self).auto_rotate } else { old(self).auto_rotate }),
            final(self).intensity == ({
                let a = if intensity_up { clamp_spec(old(self).intensity + 20, 100, 3000) } else { old(self).intensity as int };
                if intensity_down { clamp_spec(a - 20, 100, 3000) } else { a }
            }),
            final(self).rotation == (if final(self).auto_rotate { wrap_angle_spec(old(self).rotation + 10) } else { old(self).rotation as int }),
            final(self).radius == old(self).radius,
            final(self).height == old(self).height,
            final(self).wf(),
    {
        if toggle_rotate {
            self.auto_rotate = !self.auto_rotate;
        }
        if intensity_up {
            let v: i64 = self.intensity + 20;
            self.intensity = if v > 3000 { 3000 } else { v };
        }
        if intensity_down {
            let v: i64 = self.intensity - 20;
            self.intensity = if v < 100 { 100 } else { v };
        }
        if self.auto_rotate {
            let r: i64 = self.rotation + 10;
            self.rotation = if r >= TAU_MILLI { r - TAU_MILLI } else { r };
        }
    }
}

} // verus!
