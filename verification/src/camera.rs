//! Camera state: position, orientation axes, zoom and speeds, with the
//! movement, turning, rolling, dragging and zooming steps one tick applies.
//!
//! All scalars are fixed-point micro-units. Orientation steps are
//! small-angle rotation steps: the rotated axis moves along the cross
//! product of the rotation axis and itself, scaled by the step angle. The
//! direction and up axis are kept independent; callers must not feed
//! degenerate (near-zero) axes.

use vstd::prelude::*;
use crate::events::AppEvent;
use crate::fixed::{fx_mul, sat_add, sat_sub, spec_fx_mul, spec_sat};
use crate::params::{progression_step, spec_progression_step};

verus! {

/// A fixed-point 3-vector in micro-units.
#[derive(Copy, Clone, PartialEq, Eq, Structural, Debug)]
pub struct Vec3 {
    pub x: i64,
    pub y: i64,
    pub z: i64,
}

/// `v` forced into `i64` range, as an `i64`.
pub open spec fn sat64(v: int) -> i64 {
    spec_sat(v) as i64
}

/// Component-wise `v + axis * k`, each component saturated.
#[verifier::opaque]
pub open spec fn spec_add_scaled(v: Vec3, axis: Vec3, k: i64) -> Vec3 {
    Vec3 {
        x: sat64(v.x + spec_fx_mul(axis.x, k)),
        y: sat64(v.y + spec_fx_mul(axis.y, k)),
        z: sat64(v.z + spec_fx_mul(axis.z, k)),
    }
}

/// The fixed-point cross product, each product and difference saturated.
#[verifier::opaque]
pub open spec fn spec_cross(a: Vec3, b: Vec3) -> Vec3 {
    Vec3 {
        x: sat64(spec_fx_mul(a.y, b.z) - spec_fx_mul(a.z, b.y)),
        y: sat64(spec_fx_mul(a.z, b.x) - spec_fx_mul(a.x, b.z)),
        z: sat64(spec_fx_mul(a.x, b.y) - spec_fx_mul(a.y, b.x)),
    }
}

pub fn add_scaled(v: Vec3, axis: Vec3, k: i64) -> (r: Vec3)
    ensures
        r == spec_add_scaled(v, axis, k),
{
    proof {
        reveal(spec_add_scaled);
    }
    Vec3 {
        x: sat_add(v.x, fx_mul(axis.x, k)),
        y: sat_add(v.y, fx_mul(axis.y, k)),
        z: sat_add(v.z, fx_mul(axis.z, k)),
    }
}

pub fn cross(a: Vec3, b: Vec3) -> (r: Vec3)
    ensures
        r == spec_cross(a, b),
{
    proof {
        reveal(spec_cross);
    }
    Vec3 {
        x: sat_sub(fx_mul(a.y, b.z), fx_mul(a.z, b.y)),
        y: sat_sub(fx_mul(a.z, b.x), fx_mul(a.x, b.z)),
        z: sat_sub(fx_mul(a.x, b.y), fx_mul(a.y, b.x)),
    }
}

/// One of the six translation / four turn / two roll senses.
#[derive(Copy, Clone, PartialEq, Eq, Structural, Debug)]
pub enum CameraDirection {
    Left,
    Right,
    Up,
    Down,
    Forward,
    Backward,
}

/// Inclusive bounds of the zoom angle, in micro-degrees.
pub const ZOOM_MIN: i64 = 1_000_000;

pub const ZOOM_MAX: i64 = 90_000_000;

/// The zoom angle a reset restores, in micro-degrees.
pub const ZOOM_DEFAULT: i64 = 45_000_000;

/// Small-angle step a mouse drag applies per pixel of delta, in
/// micro-radians.
pub const DRAG_STEP: i64 = 1_000;

pub struct Camera {
    pub position: Vec3,
    pub direction: Vec3,
    pub axis_up: Vec3,
    /// Zoom angle in micro-degrees, always within `[ZOOM_MIN, ZOOM_MAX]`.
    pub zoom: i64,
    /// Translation speed in micro-units per second.
    pub movement_speed: i64,
    /// Turning speed in micro-radians per second.
    pub turning_speed: i64,
}

impl Camera {
    pub open spec fn wf(self) -> bool {
        &&& ZOOM_MIN <= self.zoom <= ZOOM_MAX
        &&& 1 <= self.movement_speed <= 20_000_000_000
        &&& 1 <= self.turning_speed <= 20_000_000_000
    }

    pub open spec fn spec_new(movement_speed: i64, turning_speed: i64) -> Camera {
        Camera {
            position: Vec3 { x: 0, y: 0, z: 0 },
            direction: Vec3 { x: 0, y: 0, z: -1_000_000i64 },
            axis_up: Vec3 { x: 0, y: 1_000_000, z: 0 },
            zoom: ZOOM_DEFAULT,
            movement_speed,
            turning_speed,
        }
    }

    pub fn new(movement_speed: i64, turning_speed: i64) -> (r: Camera)
        requires
            1 <= movement_speed <= 20_000_000_000,
            1 <= turning_speed <= 20_000_000_000,
        ensures
            r == Self::spec_new(movement_speed, turning_speed),
            r.wf(),
    {
        Camera {
            position: Vec3 { x: 0, y: 0, z: 0 },
            direction: Vec3 { x: 0, y: 0, z: -1_000_000 },
            axis_up: Vec3 { x: 0, y: 1_000_000, z: 0 },
            zoom: ZOOM_DEFAULT,
            movement_speed,
            turning_speed,
        }
    }

    /// The axis a translation in `dir` moves along: the direction vector,
    /// the up axis, or their cross product (the side axis), negated for the
    /// opposite senses.
    pub open spec fn spec_translation_axis(self, dir: CameraDirection) -> Vec3 {
        let side = spec_cross(self.direction, self.axis_up);
        match dir {
            CameraDirection::Forward => self.direction,
            CameraDirection::Backward => spec_neg(self.direction),
            CameraDirection::Right => side,
            CameraDirection::Left => spec_neg(side),
            CameraDirection::Up => self.axis_up,
            CameraDirection::Down => spec_neg(self.axis_up),
        }
    }

    /// Position after one translation step of `dt_ms` milliseconds.
    pub open spec fn spec_advanced(self, dir: CameraDirection, dt_ms: u64) -> Vec3 {
        spec_add_scaled(
            self.position,
            self.spec_translation_axis(dir),
            sat64(spec_progression_step(self.movement_speed, dt_ms, 1000)),
        )
    }

    /// Move along a camera axis, scaled by `dt` and the movement speed.
    pub fn advance(&mut self, dir: CameraDirection, dt_ms: u64)
        requires
            old(self).wf(),
        ensures
            *final(self) == (Camera { position: old(self).spec_advanced(dir, dt_ms), ..*old(self) }),
            final(self).wf(),
    {
        let k = progression_step(self.movement_speed, dt_ms, 1000);
        let side = cross(self.direction, self.axis_up);
        let axis = match dir {
            CameraDirection::Forward => self.direction,
            CameraDirection::Backward => neg(self.direction),
            CameraDirection::Right => side,
            CameraDirection::Left => neg(side),
            CameraDirection::Up => self.axis_up,
            CameraDirection::Down => neg(self.axis_up),
        };
        self.position = add_scaled(self.position, axis, k);
    }

    /// Direction after one turning step: a small-angle rotation about the
    /// up axis (left/right) or the side axis (up/down).
    pub open spec fn spec_turned(self, dir: CameraDirection, dt_ms: u64) -> Vec3 {
        let angle = sat64(spec_progression_step(self.turning_speed, dt_ms, 1000));
        let side = spec_cross(self.direction, self.axis_up);
        match dir {
            CameraDirection::Left => spec_add_scaled(
                self.direction,
                spec_cross(self.axis_up, self.direction),
                angle,
            ),
            CameraDirection::Right => spec_add_scaled(
                self.direction,
                spec_cross(self.axis_up, self.direction),
                sat_neg64(angle),
            ),
            CameraDirection::Up => spec_add_scaled(
                self.direction,
                spec_cross(side, self.direction),
                angle,
            ),
            CameraDirection::Down => spec_add_scaled(
                self.direction,
                spec_cross(side, self.direction),
                sat_neg64(angle),
            ),
            _ => self.direction,
        }
    }

    /// Reorient the direction about a camera axis, scaled by `dt` and the
    /// turning speed. Forward/backward are not turning senses and leave the
    /// camera as it is.
    pub fn turn(&mut self, dir: CameraDirection, dt_ms: u64)
        requires
            old(self).wf(),
        ensures
            *final(self) == (Camera { direction: old(self).spec_turned(dir, dt_ms), ..*old(self) }),
            final(self).wf(),
    {
        let angle = progression_step(self.turning_speed, dt_ms, 1000);
        let side = cross(self.direction, self.axis_up);
        match dir {
            CameraDirection::Left => {
                let axis = cross(self.axis_up, self.direction);
                self.direction = add_scaled(self.direction, axis, angle);
            },
            CameraDirection::Right => {
                let axis = cross(self.axis_up, self.direction);
                self.direction = add_scaled(self.direction, axis, neg64(angle));
            },
            CameraDirection::Up => {
                self.direction = add_scaled(self.direction, cross(side, self.direction), angle);
            },
            CameraDirection::Down => {
                self.direction = add_scaled(
                    self.direction,
                    cross(side, self.direction),
                    neg64(angle),
                );
            },
            _ => {},
        }
    }

    /// Up axis after one roll step about the direction axis.
    pub open spec fn spec_rotated(self, dir: CameraDirection, dt_ms: u64) -> Vec3 {
        let angle = sat64(spec_progression_step(self.turning_speed, dt_ms, 1000));
        match dir {
            CameraDirection::Left => spec_add_scaled(
                self.axis_up,
                spec_cross(self.direction, self.axis_up),
                angle,
            ),
            CameraDirection::Right => spec_add_scaled(
                self.axis_up,
                spec_cross(self.direction, self.axis_up),
                sat_neg64(angle),
            ),
            _ => self.axis_up,
        }
    }

    /// Roll the up axis about the direction axis, scaled by `dt` and the
    /// turning speed. Only left/right are roll senses.
    pub fn rotate(&mut self, dir: CameraDirection, dt_ms: u64)
        requires
            old(self).wf(),
        ensures
            *final(self) == (Camera { axis_up: old(self).spec_rotated(dir, dt_ms), ..*old(self) }),
            final(self).wf(),
    {
        let angle = progression_step(self.turning_speed, dt_ms, 1000);
        let axis = cross(self.direction, self.axis_up);
        match dir {
            CameraDirection::Left => {
                self.axis_up = add_scaled(self.axis_up, axis, angle);
            },
            CameraDirection::Right => {
                self.axis_up = add_scaled(self.axis_up, axis, neg64(angle));
            },
            _ => {},
        }
    }

    /// Direction after one mouse drag: a yaw step proportional to the
    /// horizontal delta, then a pitch step proportional to the vertical
    /// delta, both through `DRAG_STEP` micro-radians per pixel.
    pub open spec fn spec_dragged(self, mouse_x: i32, mouse_y: i32) -> Vec3 {
        let yaw = sat64(-(mouse_x as int) * (DRAG_STEP as int));
        let after_yaw = spec_add_scaled(
            self.direction,
            spec_cross(self.axis_up, self.direction),
            yaw,
        );
        let pitch = sat64(-(mouse_y as int) * (DRAG_STEP as int));
        spec_add_scaled(after_yaw, spec_cross(spec_cross(after_yaw, self.axis_up), after_yaw), pitch)
    }

    /// Reorient the direction proportionally to a mouse delta.
    pub fn drag(&mut self, mouse_x: i32, mouse_y: i32)
        requires
            old(self).wf(),
    ensures
            *final(self) == (Camera {
                direction: old(self).spec_dragged(mouse_x, mouse_y),
                ..*old(self)
            }),
            final(self).wf(),
    {
        let yaw: i64 = (-(mouse_x as i64)) * DRAG_STEP;
        let after_yaw = add_scaled(self.direction, cross(self.axis_up, self.direction), yaw);
        let pitch: i64 = (-(mouse_y as i64)) * DRAG_STEP;
        let side = cross(after_yaw, self.axis_up);
        self.direction = add_scaled(after_yaw, cross(side, after_yaw), pitch);
    }

    /// Zoom after one zoom step, and whether a bound cut it.
    pub open spec fn spec_zoomed(self, delta: i64) -> i64 {
        let raw = self.zoom + delta;
        if raw < ZOOM_MIN {
            ZOOM_MIN
        } else if raw > ZOOM_MAX {
            ZOOM_MAX
        } else {
            raw as i64
        }
    }

    /// Adjust the zoom angle and clamp it to the valid visual range; a
    /// boundary notification fires exactly when a bound cut the raw value.
    pub fn change_zoom(&mut self, delta: i64, events: &mut Vec<AppEvent>)
        requires
            old(self).wf(),
        ensures
            *final(self) == (Camera { zoom: old(self).spec_zoomed(delta), ..*old(self) }),
            final(self).wf(),
            old(self).zoom + delta < ZOOM_MIN ==> final(events)@ == old(events)@.push(
                AppEvent::MinimumValue(ZOOM_MIN),
            ),
            old(self).zoom + delta > ZOOM_MAX ==> final(events)@ == old(events)@.push(
                AppEvent::MaximumValue(ZOOM_MAX),
            ),
            ZOOM_MIN <= old(self).zoom + delta <= ZOOM_MAX ==> final(events)@ == old(events)@,
    {
        let raw: i128 = self.zoom as i128 + delta as i128;
        if raw < ZOOM_MIN as i128 {
            self.zoom = ZOOM_MIN;
            events.push(AppEvent::MinimumValue(ZOOM_MIN));
        } else if raw > ZOOM_MAX as i128 {
            self.zoom = ZOOM_MAX;
            events.push(AppEvent::MaximumValue(ZOOM_MAX));
        } else {
            self.zoom = raw as i64;
        }
    }

    pub fn get_position(&self) -> (r: Vec3)
        ensures
            r == self.position,
    {
        self.position
    }

    pub fn get_direction(&self) -> (r: Vec3)
        ensures
            r == self.direction,
    {
        self.direction
    }

    pub fn get_axis_up(&self) -> (r: Vec3)
        ensures
            r == self.axis_up,
    {
        self.axis_up
    }

    pub fn set_position(&mut self, v: Vec3)
        ensures
            *final(self) == (Camera { position: v, ..*old(self) }),
    {
        self.position = v;
    }

    pub fn set_direction(&mut self, v: Vec3)
        ensures
            *final(self) == (Camera { direction: v, ..*old(self) }),
    {
        self.direction = v;
    }

    pub fn set_axis_up(&mut self, v: Vec3)
        ensures
            *final(self) == (Camera { axis_up: v, ..*old(self) }),
    {
        self.axis_up = v;
    }

    /// Report the settled pose of this tick to the host.
    pub fn update_view(&self, events: &mut Vec<AppEvent>)
        ensures
            final(events)@ == old(events)@.push(
                AppEvent::CameraUpdate(self.position, self.direction, self.axis_up),
            ),
    {
        events.push(AppEvent::CameraUpdate(self.position, self.direction, self.axis_up));
    }
}

/// Component-wise negation, saturated.
pub open spec fn spec_neg(v: Vec3) -> Vec3 {
    Vec3 { x: sat64(-v.x), y: sat64(-v.y), z: sat64(-v.z) }
}

/// `-x`, saturated (the minimum negates to the maximum).
pub open spec fn sat_neg64(x: i64) -> i64 {
    sat64(-x)
}

pub fn neg64(x: i64) -> (r: i64)
    ensures
        r == sat_neg64(x),
{
    if x == i64::MIN {
        i64::MAX
    } else {
        -x
    }
}

pub fn neg(v: Vec3) -> (r: Vec3)
    ensures
        r == spec_neg(v),
{
    Vec3 { x: neg64(v.x), y: neg64(v.y), z: neg64(v.z) }
}

} // verus!
