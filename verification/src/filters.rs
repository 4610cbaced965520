//! The CRT filter parameter set and its enumerations.

use vstd::prelude::*;
use crate::general_types::{NextEnumVariant, FX};
use crate::params::ParameterChanger;

verus! {

/// How the RGB sub-pixels are spatially separated or combined.
/// Exactly one mode is active at a time; cycling wraps in this order.
#[derive(Copy, Clone, PartialEq, Eq, Structural, Debug)]
pub enum ColorChannels {
    Combined,
    Overlapping,
    SplitHorizontal,
    SplitVertical,
}

impl ColorChannels {
    pub open spec fn spec_next(self) -> ColorChannels {
        match self {
            ColorChannels::Combined => ColorChannels::Overlapping,
            ColorChannels::Overlapping => ColorChannels::SplitHorizontal,
            ColorChannels::SplitHorizontal => ColorChannels::SplitVertical,
            ColorChannels::SplitVertical => ColorChannels::Combined,
        }
    }
}

impl NextEnumVariant for ColorChannels {
    open spec fn spec_next_variant(self) -> ColorChannels {
        self.spec_next()
    }

    open spec fn spec_previous_variant(self) -> ColorChannels {
        match self {
            ColorChannels::Combined => ColorChannels::SplitVertical,
            ColorChannels::Overlapping => ColorChannels::Combined,
            ColorChannels::SplitHorizontal => ColorChannels::Overlapping,
            ColorChannels::SplitVertical => ColorChannels::SplitHorizontal,
        }
    }

    fn next_enum_variant(&mut self) {
        *self = match *self {
            ColorChannels::Combined => ColorChannels::Overlapping,
            ColorChannels::Overlapping => ColorChannels::SplitHorizontal,
            ColorChannels::SplitHorizontal => ColorChannels::SplitVertical,
            ColorChannels::SplitVertical => ColorChannels::Combined,
        };
    }

    fn previous_enum_variant(&mut self) {
        *self = match *self {
            ColorChannels::Combined => ColorChannels::SplitVertical,
            ColorChannels::Overlapping => ColorChannels::Combined,
            ColorChannels::SplitHorizontal => ColorChannels::Overlapping,
            ColorChannels::SplitVertical => ColorChannels::SplitHorizontal,
        };
    }
}

/// Whether a logical pixel is drawn flat or as a small volume.
#[derive(Copy, Clone, PartialEq, Eq, Structural, Debug)]
pub enum PixelsGeometryKind {
    Squares,
    Cubes,
}

impl PixelsGeometryKind {
    pub open spec fn spec_next(self) -> PixelsGeometryKind {
        match self {
            PixelsGeometryKind::Squares => PixelsGeometryKind::Cubes,
            PixelsGeometryKind::Cubes => PixelsGeometryKind::Squares,
        }
    }
}

impl NextEnumVariant for PixelsGeometryKind {
    open spec fn spec_next_variant(self) -> PixelsGeometryKind {
        self.spec_next()
    }

    open spec fn spec_previous_variant(self) -> PixelsGeometryKind {
        self.spec_next()
    }

    fn next_enum_variant(&mut self) {
        *self = match *self {
            PixelsGeometryKind::Squares => PixelsGeometryKind::Cubes,
            PixelsGeometryKind::Cubes => PixelsGeometryKind::Squares,
        };
    }

    fn previous_enum_variant(&mut self) {
        *self = match *self {
            PixelsGeometryKind::Squares => PixelsGeometryKind::Cubes,
            PixelsGeometryKind::Cubes => PixelsGeometryKind::Squares,
        };
    }
}

/// Which of the shadow-masked foreground and the flat solid layer are
/// shown, and the solid layer's blend weight.
#[derive(Copy, Clone, PartialEq, Eq, Structural, Debug)]
pub enum ScreenLayeringKind {
    ShadowOnly,
    SolidOnly,
    ShadowWithSolidBackground75,
    ShadowWithSolidBackground50,
    ShadowWithSolidBackground25,
}

impl ScreenLayeringKind {
    pub open spec fn spec_next(self) -> ScreenLayeringKind {
        match self {
            ScreenLayeringKind::ShadowOnly => ScreenLayeringKind::SolidOnly,
            ScreenLayeringKind::SolidOnly => ScreenLayeringKind::ShadowWithSolidBackground75,
            ScreenLayeringKind::ShadowWithSolidBackground75 => ScreenLayeringKind::ShadowWithSolidBackground50,
            ScreenLayeringKind::ShadowWithSolidBackground50 => ScreenLayeringKind::ShadowWithSolidBackground25,
            ScreenLayeringKind::ShadowWithSolidBackground25 => ScreenLayeringKind::ShadowOnly,
        }
    }

    /// Whether this layering shows the shadow-masked foreground.
    pub open spec fn spec_shows_foreground(self) -> bool {
        self !== ScreenLayeringKind::SolidOnly
    }

    /// Whether this layering shows the flat solid layer.
    pub open spec fn spec_shows_solid(self) -> bool {
        self !== ScreenLayeringKind::ShadowOnly
    }

    /// The solid layer's blend weight under this layering, in micro-units.
    pub open spec fn spec_solid_weight(self) -> i64 {
        match self {
            ScreenLayeringKind::ShadowOnly => 0,
            ScreenLayeringKind::SolidOnly => 1_000_000,
            ScreenLayeringKind::ShadowWithSolidBackground75 => 750_000,
            ScreenLayeringKind::ShadowWithSolidBackground50 => 500_000,
            ScreenLayeringKind::ShadowWithSolidBackground25 => 250_000,
        }
    }
}

impl NextEnumVariant for ScreenLayeringKind {
    open spec fn spec_next_variant(self) -> ScreenLayeringKind {
        self.spec_next()
    }

    open spec fn spec_previous_variant(self) -> ScreenLayeringKind {
        match self {
            ScreenLayeringKind::ShadowOnly => ScreenLayeringKind::ShadowWithSolidBackground25,
            ScreenLayeringKind::SolidOnly => ScreenLayeringKind::ShadowOnly,
            ScreenLayeringKind::ShadowWithSolidBackground75 => ScreenLayeringKind::SolidOnly,
            ScreenLayeringKind::ShadowWithSolidBackground50 => ScreenLayeringKind::ShadowWithSolidBackground75,
            ScreenLayeringKind::ShadowWithSolidBackground25 => ScreenLayeringKind::ShadowWithSolidBackground50,
        }
    }

    fn next_enum_variant(&mut self) {
        *self = match *self {
            ScreenLayeringKind::ShadowOnly => ScreenLayeringKind::SolidOnly,
            ScreenLayeringKind::SolidOnly => ScreenLayeringKind::ShadowWithSolidBackground75,
            ScreenLayeringKind::ShadowWithSolidBackground75 => ScreenLayeringKind::ShadowWithSolidBackground50,
            ScreenLayeringKind::ShadowWithSolidBackground50 => ScreenLayeringKind::ShadowWithSolidBackground25,
            ScreenLayeringKind::ShadowWithSolidBackground25 => ScreenLayeringKind::ShadowOnly,
        };
    }

    fn previous_enum_variant(&mut self) {
        *self = match *self {
            ScreenLayeringKind::ShadowOnly => ScreenLayeringKind::ShadowWithSolidBackground25,
            ScreenLayeringKind::SolidOnly => ScreenLayeringKind::ShadowOnly,
            ScreenLayeringKind::ShadowWithSolidBackground75 => ScreenLayeringKind::SolidOnly,
            ScreenLayeringKind::ShadowWithSolidBackground50 => ScreenLayeringKind::ShadowWithSolidBackground75,
            ScreenLayeringKind::ShadowWithSolidBackground25 => ScreenLayeringKind::ShadowWithSolidBackground50,
        };
    }
}

/// How the off-screen targets are sampled when scaled.
#[derive(Copy, Clone, PartialEq, Eq, Structural, Debug)]
pub enum TextureInterpolation {
    Linear,
    Nearest,
}

/// The number of selectable shadow-mask patterns; the shadow index cycles
/// modulo this count.
pub const SHADOWS_LEN: u32 = 9;

/// Upper bound of the blur pass count.
pub const BLUR_PASSES_MAX: u32 = 100;

/// Bounds of the lines-per-pixel count.
pub const LPP_MIN: u32 = 1;

pub const LPP_MAX: u32 = 20;

/// The full CRT parameter set.
pub struct CrtFilters {
    pub extra_bright: ParameterChanger,
    pub extra_contrast: ParameterChanger,
    pub light_color: i32,
    pub brightness_color: i32,
    /// The packed colour of the low-resolution background bleed layer.
    pub background_color: i32,
    pub cur_pixel_width: ParameterChanger,
    pub cur_pixel_scale_x: ParameterChanger,
    pub cur_pixel_scale_y: ParameterChanger,
    pub cur_pixel_gap: ParameterChanger,
    pub color_noise: ParameterChanger,
    pub blur_passes: u32,
    pub lines_per_pixel: u32,
    pub pixel_shadow_kind: u32,
    pub color_channels: ColorChannels,
    pub pixels_geometry_kind: PixelsGeometryKind,
    pub layering_kind: ScreenLayeringKind,
    pub texture_interpolation: TextureInterpolation,
    pub showing_diffuse_foreground: bool,
    pub showing_solid_background: bool,
    /// Blend weight of the solid layer, in micro-units.
    pub solid_color_weight: i64,
    pub showing_pixels_pulse: bool,
    /// Pulse accumulator, in micro-units; zero while the pulse is off.
    pub pixels_pulse: i64,
    /// Progression rate of the continuous filter parameters, in micro-units
    /// per second.
    pub change_speed: i64,
}

impl CrtFilters {
    /// Every bound the parameter set maintains from tick to tick.
    pub open spec fn wf(self) -> bool {
        &&& self.extra_bright.wf() && self.extra_bright.min == -FX && self.extra_bright.max == FX
        &&& self.extra_contrast.wf() && self.extra_contrast.min == 0 && self.extra_contrast.max
            == 20 * FX
        &&& self.cur_pixel_width.wf() && self.cur_pixel_width.min == 0
            && self.cur_pixel_width.max == i64::MAX
        &&& self.cur_pixel_scale_x.wf() && self.cur_pixel_scale_x.min == 0
            && self.cur_pixel_scale_x.max == i64::MAX
        &&& self.cur_pixel_scale_y.wf() && self.cur_pixel_scale_y.min == 0
            && self.cur_pixel_scale_y.max == i64::MAX
        &&& self.cur_pixel_gap.wf() && self.cur_pixel_gap.min == 0
            && self.cur_pixel_gap.max == i64::MAX
        &&& self.color_noise.wf() && self.color_noise.min == 0 && self.color_noise.max == FX
        &&& self.blur_passes <= BLUR_PASSES_MAX
        &&& LPP_MIN <= self.lines_per_pixel <= LPP_MAX
        &&& self.pixel_shadow_kind < SHADOWS_LEN
        &&& 0 <= self.solid_color_weight <= FX
        &&& self.pixels_pulse >= 0
        &&& 1 <= self.change_speed <= 20_000 * FX
        &&& self.showing_diffuse_foreground == self.layering_kind.spec_shows_foreground()
        &&& self.showing_solid_background == self.layering_kind.spec_shows_solid()
    }

    /// The default parameter set at a given progression rate, as a value
    /// for contracts to name.
    pub open spec fn spec_new(change_speed: i64) -> CrtFilters {
        CrtFilters {
            extra_bright: ParameterChanger { value: 0, min: -1_000_000i64, max: 1_000_000 },
            extra_contrast: ParameterChanger { value: 1_000_000, min: 0, max: 20_000_000 },
            light_color: 0x00FF_FFFF,
            brightness_color: 0x00FF_FFFF,
            background_color: 0x00FF_FFFF,
            cur_pixel_width: ParameterChanger { value: 1_000_000, min: 0, max: i64::MAX },
            cur_pixel_scale_x: ParameterChanger { value: 0, min: 0, max: i64::MAX },
            cur_pixel_scale_y: ParameterChanger { value: 0, min: 0, max: i64::MAX },
            cur_pixel_gap: ParameterChanger { value: 0, min: 0, max: i64::MAX },
            color_noise: ParameterChanger { value: 0, min: 0, max: 1_000_000 },
            blur_passes: 0,
            lines_per_pixel: 1,
            pixel_shadow_kind: 0,
            color_channels: ColorChannels::Combined,
            pixels_geometry_kind: PixelsGeometryKind::Squares,
            layering_kind: ScreenLayeringKind::ShadowWithSolidBackground75,
            texture_interpolation: TextureInterpolation::Linear,
            showing_diffuse_foreground: true,
            showing_solid_background: true,
            solid_color_weight: 750_000,
            showing_pixels_pulse: false,
            pixels_pulse: 0,
            change_speed,
        }
    }

    pub fn new(change_speed: i64) -> (r: CrtFilters)
        requires
            1 <= change_speed <= 20_000 * FX,
        ensures
            r == Self::spec_new(change_speed),
            r.wf(),
    {
        CrtFilters {
            extra_bright: ParameterChanger { value: 0, min: -1_000_000, max: 1_000_000 },
            extra_contrast: ParameterChanger { value: 1_000_000, min: 0, max: 20_000_000 },
            light_color: 0x00FF_FFFF,
            brightness_color: 0x00FF_FFFF,
            background_color: 0x00FF_FFFF,
            cur_pixel_width: ParameterChanger { value: 1_000_000, min: 0, max: i64::MAX },
            cur_pixel_scale_x: ParameterChanger { value: 0, min: 0, max: i64::MAX },
            cur_pixel_scale_y: ParameterChanger { value: 0, min: 0, max: i64::MAX },
            cur_pixel_gap: ParameterChanger { value: 0, min: 0, max: i64::MAX },
            color_noise: ParameterChanger { value: 0, min: 0, max: 1_000_000 },
            blur_passes: 0,
            lines_per_pixel: 1,
            pixel_shadow_kind: 0,
            color_channels: ColorChannels::Combined,
            pixels_geometry_kind: PixelsGeometryKind::Squares,
            layering_kind: ScreenLayeringKind::ShadowWithSolidBackground75,
            texture_interpolation: TextureInterpolation::Linear,
            showing_diffuse_foreground: true,
            showing_solid_background: true,
            solid_color_weight: 750_000,
            showing_pixels_pulse: false,
            pixels_pulse: 0,
            change_speed,
        }
    }
}

} // verus!
