//! The per-session simulation state: animation, timers, camera, filters,
//! and the derived initial camera distance.

use vstd::prelude::*;
use crate::camera::Camera;
use crate::filters::CrtFilters;

verus! {

/// Base progression rate of the continuous filter parameters, in
/// micro-units per second.
pub const PIXEL_MANIPULATION_BASE_SPEED: i64 = 20_000_000;

/// Base turning rate, in micro-radians per second.
pub const TURNING_BASE_SPEED: i64 = 3_000_000;

/// Base translation rate, in micro-units per second.
pub const MOVEMENT_BASE_SPEED: i64 = 10_000_000;

/// The translation rate is the base rate times the initial camera distance,
/// divided by this.
pub const MOVEMENT_SPEED_FACTOR: i64 = 50;

/// One animation frame step and its display time in milliseconds.
#[derive(Copy, Clone, PartialEq, Eq, Structural, Debug)]
pub struct AnimationStep {
    pub delay: u32,
}

/// The loaded animation source and where its playback stands.
pub struct AnimationData {
    pub steps: Vec<AnimationStep>,
    pub image_width: u32,
    pub image_height: u32,
    pub background_width: u32,
    pub background_height: u32,
    pub viewport_width: u32,
    pub viewport_height: u32,
    /// Width of one source pixel, in micro-units.
    pub pixel_width: i64,
    pub stretch: bool,
    pub current_frame: usize,
    /// When the shown frame last changed, in milliseconds.
    pub last_frame_change: u64,
    /// Whether the drawing stage must upload the current frame's pixels.
    pub needs_buffer_data_load: bool,
}

impl AnimationData {
    /// A playable source: at least one frame, non-degenerate dimensions,
    /// a positive pixel width, and the playhead inside the steps.
    pub open spec fn wf(self) -> bool {
        &&& self.steps.len() >= 1
        &&& self.current_frame < self.steps.len()
        &&& self.image_width >= 1 && self.image_height >= 1
        &&& self.background_width >= 1 && self.background_height >= 1
        &&& self.viewport_width >= 1 && self.viewport_height >= 1
        &&& 1 <= self.pixel_width
        &&& self.pixel_width <= self.viewport_width as i64 * 1_000_000
    }
}

/// The rolling frame counter and the wall-clock anchors it works from.
#[derive(Copy, Clone, PartialEq, Eq, Structural, Debug)]
pub struct SimulationTimers {
    pub frame_count: u32,
    /// Wall-clock time of the previous tick, in milliseconds.
    pub last_time: u64,
    /// When the rolling one-second window began, in milliseconds.
    pub last_second: u64,
}

/// What a full reset restores.
#[derive(Copy, Clone, PartialEq, Eq, Structural, Debug)]
pub struct InitialParameters {
    /// The computed far-away camera distance, in micro-units.
    pub initial_position_z: i64,
    /// The source's pixel width, in micro-units.
    pub initial_pixel_width: i64,
    /// The derived translation rate, in micro-units per second.
    pub initial_movement_speed: i64,
}

/// The whole simulation state one tick updates and one frame reads.
pub struct Resources {
    pub internal_resolution_multiplier: i32,
    pub internal_width: i32,
    pub internal_height: i32,
    pub initial_parameters: InitialParameters,
    pub timers: SimulationTimers,
    pub animation: AnimationData,
    pub camera: Camera,
    pub crt_filters: CrtFilters,
    pub launch_screenshot: bool,
    pub screenshot_delay: i32,
    pub resetted: bool,
}

impl Resources {
    pub open spec fn wf(self) -> bool {
        &&& self.animation.wf()
        &&& self.camera.wf()
        &&& self.crt_filters.wf()
        &&& 1 <= self.initial_parameters.initial_movement_speed <= 20_000_000_000
        &&& 0 <= self.initial_parameters.initial_pixel_width
    }
}

/// The numerator of the bounding ratio doubled until it reaches the
/// denominator; the bounded resolution doubles with it and stays equal to
/// it throughout.
pub open spec fn spec_double_until(num: int, den: int) -> int
    recommends
        1 <= num,
        1 <= den,
    decreases (if num < den {
        den - num
    } else {
        0
    }),
{
    if 1 <= num && num < den {
        spec_double_until(num * 2, den)
    } else {
        num
    }
}

/// The largest divisor of `resolution` that is at most `divisor`, found by
/// scanning downward; 1 when none above 1 divides it.
pub open spec fn spec_fit_divisor(divisor: int, resolution: int) -> int
    recommends
        1 <= divisor,
    decreases divisor,
{
    if divisor <= 1 {
        1
    } else if resolution % divisor == 0 {
        divisor
    } else {
        spec_fit_divisor(divisor - 1, resolution)
    }
}

/// The far-away camera distance for a video source, in micro-units: a pure
/// function of the viewport size, background size, pixel width and stretch
/// flag alone.
pub open spec fn spec_far_away_position(a: AnimationData) -> int {
    let vws = a.viewport_width as int * 1_000_000 / a.pixel_width as int;
    let height_bounded = vws * a.background_height as int > a.viewport_height as int
        * a.background_width as int;
    let num0 = if height_bounded {
        a.viewport_height as int
    } else {
        vws
    };
    let den = if height_bounded {
        a.background_height as int
    } else {
        a.background_width as int
    };
    let num = spec_double_until(num0, den);
    let ratio_scaled = if a.stretch {
        den * 1_000_000
    } else {
        num * 1_000_000 / spec_fit_divisor(num / den, num)
    };
    let factor = if height_bounded {
        1_207_600
    } else {
        680_000 * a.pixel_width as int / 1_000_000
    };
    let raw = 500_000 + ratio_scaled * factor / 1_000_000;
    if raw > i64::MAX {
        i64::MAX as int
    } else {
        raw
    }
}

/// Compute the initial far-away camera distance. Deterministic and free of
/// observation: the result is a function of the four inputs named in
/// `spec_far_away_position` and of nothing else. The lower bound is met
/// with equality in one truncation corner: at a pixel width of a single
/// micro-unit the width factor truncates to zero and only the fixed half
/// unit remains.
pub fn calculate_far_away_position(a: &AnimationData) -> (r: i64)
    requires
        a.wf(),
    ensures
        r == spec_far_away_position(*a),
        r >= 500_000,
{
    let vws: u64 = a.viewport_width as u64 * 1_000_000 / a.pixel_width as u64;
    proof {
        assert(vws as int * a.background_height as int <= 0xffff_ffff_ffff_ffff
            * 0xffff_ffff) by (nonlinear_arith)
            requires
                0 <= vws as int <= 0xffff_ffff_ffff_ffff,
                0 <= a.background_height as int <= 0xffff_ffff,
        ;
        assert(a.viewport_height as int * a.background_width as int <= 0xffff_ffff
            * 0xffff_ffff) by (nonlinear_arith)
            requires
                0 <= a.viewport_height as int <= 0xffff_ffff,
                0 <= a.background_width as int <= 0xffff_ffff,
        ;
    }
    let height_bounded = vws as u128 * a.background_height as u128 > a.viewport_height as u128
        * a.background_width as u128;
    let num0: u64 = if height_bounded {
        a.viewport_height as u64
    } else {
        vws
    };
    let den: u64 = if height_bounded {
        a.background_height as u64
    } else {
        a.background_width as u64
    };
    proof {
        assert(a.viewport_width as int * 1_000_000 / a.pixel_width as int >= 1)
            by (nonlinear_arith)
            requires
                1 <= a.pixel_width as int <= a.viewport_width as int * 1_000_000,
        ;
        assert(1 <= num0);
        assert(1 <= den <= 0x1_0000_0000);
    }
    proof {
        assert(a.viewport_width as int * 1_000_000 / a.pixel_width as int <= a.viewport_width
            as int * 1_000_000) by (nonlinear_arith)
            requires
                a.pixel_width as int >= 1,
                a.viewport_width as int >= 0,
        ;
        assert(num0 <= 4_294_967_295_000_000);
    }
    let mut num: u64 = num0;
    while num < den
        invariant
            1 <= num,
            num <= 4_294_967_295_000_000,
            den <= 0x1_0000_0000,
            spec_double_until(num as int, den as int) == spec_double_until(
                num0 as int,
                den as int,
            ),
        decreases (if num < den {
            den as int - num as int
        } else {
            0
        }),
    {
        num = num * 2;
    }
    let ratio_scaled: u128 = if a.stretch {
        den as u128 * 1_000_000
    } else {
        let target: u64 = num / den;
        proof {
            assert(num as int / den as int >= 1) by (nonlinear_arith)
                requires
                    1 <= den as int <= num as int,
            ;
        }
        let mut divisor: u64 = target;
        while divisor > 1 && num % divisor != 0
            invariant
                1 <= divisor <= target,
                spec_fit_divisor(divisor as int, num as int) == spec_fit_divisor(
                    target as int,
                    num as int,
                ),
            decreases divisor,
        {
            divisor = divisor - 1;
        }
        let rs: u128 = num as u128 * 1_000_000 / divisor as u128;
        proof {
            assert(num as int * 1_000_000 / divisor as int <= num as int * 1_000_000)
                by (nonlinear_arith)
                requires
                    divisor as int >= 1,
                    num as int >= 0,
            ;
        }
        rs
    };
    let factor: u128 = if height_bounded {
        1_207_600
    } else {
        let f: u128 = (680_000u128 * a.pixel_width as u128) / 1_000_000;
        proof {
            assert(680_000 * a.pixel_width as int / 1_000_000 <= 2_920_577_760_600_000)
                by (nonlinear_arith)
                requires
                    1 <= a.pixel_width as int <= 4_294_967_295_000_000,
            ;
        }
        f
    };
    proof {
        assert(ratio_scaled as int * factor as int <= 4_294_967_295_000_000_000_000
            * 2_920_577_760_600_000) by (nonlinear_arith)
            requires
                0 <= ratio_scaled as int <= 4_294_967_295_000_000_000_000,
                0 <= factor as int <= 2_920_577_760_600_000,
        ;
    }
    let raw: u128 = 500_000 + ratio_scaled * factor / 1_000_000;
    if raw > i64::MAX as u128 {
        i64::MAX
    } else {
        raw as i64
    }
}

} // verus!
