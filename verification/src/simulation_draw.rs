//! One frame's draw-call sequence, as data: the layered compositing
//! algorithm walks the buffer stack with strict push/pop discipline and
//! emits the ordered render commands the host submits to its GPU.

use vstd::prelude::*;
use crate::camera::Vec3;
use crate::filters::{ColorChannels, PixelsGeometryKind};
use crate::general_types::color_channels_from_int;
use crate::fixed::{fx_div, fx_mul, sat_add, sat_sub};
use crate::render_types::{StackError, TextureBuffer, TextureBufferStack};
use crate::resources::Resources;

verus! {

/// Everything one shadow-mask-aware pixel draw call parameterises, in
/// fixed-point micro-units. The host derives its view and projection
/// matrices from the camera pose and viewport carried here.
pub struct PixelsUniform {
    pub shadow_kind: u32,
    pub geometry_kind: PixelsGeometryKind,
    pub camera_position: Vec3,
    pub camera_direction: Vec3,
    pub camera_axis_up: Vec3,
    pub camera_zoom: i64,
    pub viewport_width: u32,
    pub viewport_height: u32,
    pub ambient_strength: i64,
    pub contrast_factor: i64,
    pub light_color: Vec3,
    pub extra_light: Vec3,
    pub pixel_gap_x: i64,
    pub pixel_gap_y: i64,
    pub pixel_scale_x: i64,
    pub pixel_scale_y: i64,
    pub pixel_scale_z: i64,
    pub pixel_pulse: i64,
    pub pixel_offset_x: i64,
    pub pixel_offset_y: i64,
    pub pixel_offset_z: i64,
    pub height_modifier_factor: i64,
}

/// One GPU action of a frame, in submission order.
pub enum RenderCommand {
    EnableDepthTest,
    SetClearColor,
    /// Upload the pixel data of this animation frame.
    UploadFrame(usize),
    /// Make this off-screen target the working target, creating it first
    /// when its id is new.
    BindFramebuffer(TextureBuffer),
    /// Clear the working target's colour and depth.
    Clear,
    /// Bind an off-screen target's texture to a texture unit.
    BindTexture { unit: u32, buffer_id: usize },
    /// One shadow-mask-aware pixel draw call.
    RenderPixels(PixelsUniform),
    /// Recombine the three channel layers bound to units 0 to 2.
    RenderRgb,
    /// Blend the foreground and solid layers bound to units 0 and 1.
    RenderBackground,
    /// Run the separable blur in place on the working target.
    RenderBlur { passes: u32 },
    /// Blur one off-screen target into another; the background bleed
    /// lands in the working layer this way.
    RenderBlurInto { source_id: usize, target_id: usize, passes: u32 },
    /// Read the working target back and hand the pixels, with the
    /// resolution multiplier, to the host.
    CaptureScreenshot { width: i32, height: i32, multiplier: i32 },
    /// Bind the default output target.
    BindDefaultFramebuffer,
    SetViewport { width: i32, height: i32 },
    /// Blit the internal-resolution composite to the output.
    RenderInternalResolution { buffer_id: usize },
}

/// The fixed resolution of the low-resolution background bleed layer.
pub const BACKGROUND_WIDTH: i32 = 960;

pub const BACKGROUND_HEIGHT: i32 = 540;

/// How many blur passes spread the background bleed.
pub const BACKGROUND_BLUR_PASSES: u32 = 6;

/// One decoded channel of a packed colour as a micro-unit intensity:
/// its byte over 255. `k` is 0 for red, 1 for green, 2 for blue.
pub open spec fn spec_color_intensity(color: i32, k: int) -> i64 {
    if k == 0 {
        (((color as u32 >> 16) & 0xff) * 1_000_000 / 255) as i64
    } else if k == 1 {
        (((color as u32 >> 8) & 0xff) * 1_000_000 / 255) as i64
    } else {
        ((color as u32 & 0xff) * 1_000_000 / 255) as i64
    }
}

/// What every pixel draw call of a frame shares: the camera pose and
/// viewport the host builds its matrices from, the geometry kind with its
/// ambient strength (full for flat pixels, half for volumetric ones), the
/// contrast factor and the pulse.
pub open spec fn spec_uniform_shared_ok(u: PixelsUniform, res: Resources) -> bool {
    &&& u.geometry_kind == res.crt_filters.pixels_geometry_kind
    &&& u.camera_position == res.camera.position
    &&& u.camera_direction == res.camera.direction
    &&& u.camera_axis_up == res.camera.axis_up
    &&& u.camera_zoom == res.camera.zoom
    &&& u.viewport_width == res.animation.viewport_width
    &&& u.viewport_height == res.animation.viewport_height
    &&& u.ambient_strength == (match res.crt_filters.pixels_geometry_kind {
        PixelsGeometryKind::Squares => 1_000_000i64,
        PixelsGeometryKind::Cubes => 500_000i64,
    })
    &&& u.contrast_factor == res.crt_filters.extra_contrast.value
    &&& u.pixel_pulse == res.crt_filters.pixels_pulse
}

/// A foreground sub-pass: full height modifier, the selected shadow mask,
/// the brightness-scaled extra light, and the decoded light colour —
/// whole when the channels are combined, exactly one channel isolated
/// (the other two dark) in the split modes.
pub open spec fn spec_foreground_uniform_ok(u: PixelsUniform, res: Resources) -> bool {
    &&& spec_uniform_shared_ok(u, res)
    &&& u.height_modifier_factor == 1_000_000
    &&& u.shadow_kind == res.crt_filters.pixel_shadow_kind
    &&& u.extra_light == (Vec3 {
        x: crate::camera::sat64(
            crate::fixed::spec_fx_mul(
                spec_color_intensity(res.crt_filters.brightness_color, 0),
                res.crt_filters.extra_bright.value,
            ),
        ),
        y: crate::camera::sat64(
            crate::fixed::spec_fx_mul(
                spec_color_intensity(res.crt_filters.brightness_color, 1),
                res.crt_filters.extra_bright.value,
            ),
        ),
        z: crate::camera::sat64(
            crate::fixed::spec_fx_mul(
                spec_color_intensity(res.crt_filters.brightness_color, 2),
                res.crt_filters.extra_bright.value,
            ),
        ),
    })
    &&& (res.crt_filters.color_channels is Combined ==> u.light_color == (Vec3 {
        x: spec_color_intensity(res.crt_filters.light_color, 0),
        y: spec_color_intensity(res.crt_filters.light_color, 1),
        z: spec_color_intensity(res.crt_filters.light_color, 2),
    }))
    &&& (!(res.crt_filters.color_channels is Combined) ==> {
        ||| u.light_color == (Vec3 {
            x: spec_color_intensity(res.crt_filters.light_color, 0),
            y: 0,
            z: 0,
        })
        ||| u.light_color == (Vec3 {
            x: 0,
            y: spec_color_intensity(res.crt_filters.light_color, 1),
            z: 0,
        })
        ||| u.light_color == (Vec3 {
            x: 0,
            y: 0,
            z: spec_color_intensity(res.crt_filters.light_color, 2),
        })
    })
}

/// The solid layer's one pass: no shadow, no height, no extra light, and
/// the solid weight on all three channels.
pub open spec fn spec_solid_uniform_ok(u: PixelsUniform, res: Resources) -> bool {
    &&& spec_uniform_shared_ok(u, res)
    &&& u.height_modifier_factor == 0
    &&& u.shadow_kind == 0
    &&& u.extra_light == (Vec3 { x: 0, y: 0, z: 0 })
    &&& u.light_color == (Vec3 {
        x: res.crt_filters.solid_color_weight,
        y: res.crt_filters.solid_color_weight,
        z: res.crt_filters.solid_color_weight,
    })
}

/// The background bleed's one pass: no shadow, no height, no extra
/// light, and the decoded background colour.
pub open spec fn spec_background_uniform_ok(u: PixelsUniform, res: Resources) -> bool {
    &&& spec_uniform_shared_ok(u, res)
    &&& u.height_modifier_factor == 0
    &&& u.shadow_kind == 0
    &&& u.extra_light == (Vec3 { x: 0, y: 0, z: 0 })
    &&& u.light_color == (Vec3 {
        x: spec_color_intensity(res.crt_filters.background_color, 0),
        y: spec_color_intensity(res.crt_filters.background_color, 1),
        z: spec_color_intensity(res.crt_filters.background_color, 2),
    })
}

/// What one command of a frame must carry: every pixel draw is a
/// well-formed foreground, solid or background pass, the blur commands
/// carry the configured pass counts, the screenshot carries the internal
/// resolution and multiplier, and the viewport is the external one.
pub open spec fn spec_cmd_ok(c: RenderCommand, res: Resources) -> bool {
    match c {
        RenderCommand::RenderPixels(u) => spec_foreground_uniform_ok(u, res)
            || spec_solid_uniform_ok(u, res) || spec_background_uniform_ok(u, res),
        RenderCommand::RenderBlur { passes } => passes == res.crt_filters.blur_passes,
        RenderCommand::RenderBlurInto { passes, .. } => passes == BACKGROUND_BLUR_PASSES,
        RenderCommand::CaptureScreenshot { width, height, multiplier } => width
            == res.internal_width && height == res.internal_height && multiplier
            == res.internal_resolution_multiplier,
        RenderCommand::SetViewport { width, height } => width == res.animation.viewport_width
            as i32 && height == res.animation.viewport_height as i32,
        _ => true,
    }
}

/// Every command of the list is well formed for this state.
pub open spec fn spec_cmds_ok(s: Seq<RenderCommand>, res: Resources) -> bool
    decreases s.len(),
{
    if s.len() == 0 {
        true
    } else {
        spec_cmds_ok(s.drop_last(), res) && spec_cmd_ok(s.last(), res)
    }
}

pub broadcast proof fn lemma_cmds_ok_push(s: Seq<RenderCommand>, c: RenderCommand, res: Resources)
    ensures
        #[trigger] spec_cmds_ok(s.push(c), res) == (spec_cmds_ok(s, res) && spec_cmd_ok(c, res)),
{
    assert(s.push(c).drop_last() =~= s);
}

/// Whether a pixel draw is a foreground sub-pass (full height modifier)
/// or a layer pass (none).
pub open spec fn spec_is_foreground_draw(c: RenderCommand) -> bool {
    match c {
        RenderCommand::RenderPixels(u) => u.height_modifier_factor == 1_000_000,
        _ => false,
    }
}

pub open spec fn spec_is_layer_draw(c: RenderCommand) -> bool {
    match c {
        RenderCommand::RenderPixels(u) => u.height_modifier_factor == 0,
        _ => false,
    }
}

/// How many foreground sub-passes a command list holds.
pub open spec fn spec_count_fg_draws(s: Seq<RenderCommand>) -> int
    decreases s.len(),
{
    if s.len() == 0 {
        0
    } else {
        spec_count_fg_draws(s.drop_last()) + (if spec_is_foreground_draw(s.last()) {
            1int
        } else {
            0
        })
    }
}

/// How many layer passes (background bleed and solid) a list holds.
pub open spec fn spec_count_layer_draws(s: Seq<RenderCommand>) -> int
    decreases s.len(),
{
    if s.len() == 0 {
        0
    } else {
        spec_count_layer_draws(s.drop_last()) + (if spec_is_layer_draw(s.last()) {
            1int
        } else {
            0
        })
    }
}

pub open spec fn spec_count_blur(s: Seq<RenderCommand>) -> int
    decreases s.len(),
{
    if s.len() == 0 {
        0
    } else {
        spec_count_blur(s.drop_last()) + (if s.last() is RenderBlur {
            1int
        } else {
            0
        })
    }
}

pub open spec fn spec_count_rgb(s: Seq<RenderCommand>) -> int
    decreases s.len(),
{
    if s.len() == 0 {
        0
    } else {
        spec_count_rgb(s.drop_last()) + (if s.last() is RenderRgb {
            1int
        } else {
            0
        })
    }
}

pub open spec fn spec_count_shots(s: Seq<RenderCommand>) -> int
    decreases s.len(),
{
    if s.len() == 0 {
        0
    } else {
        spec_count_shots(s.drop_last()) + (if s.last() is CaptureScreenshot {
            1int
        } else {
            0
        })
    }
}

pub broadcast proof fn lemma_count_fg_push(s: Seq<RenderCommand>, c: RenderCommand)
    ensures
        #[trigger] spec_count_fg_draws(s.push(c)) == spec_count_fg_draws(s) + (
        if spec_is_foreground_draw(c) {
            1int
        } else {
            0
        }),
{
    assert(s.push(c).drop_last() =~= s);
}

pub broadcast proof fn lemma_count_layer_push(s: Seq<RenderCommand>, c: RenderCommand)
    ensures
        #[trigger] spec_count_layer_draws(s.push(c)) == spec_count_layer_draws(s) + (
        if spec_is_layer_draw(c) {
            1int
        } else {
            0
        }),
{
    assert(s.push(c).drop_last() =~= s);
}

pub broadcast proof fn lemma_count_blur_push(s: Seq<RenderCommand>, c: RenderCommand)
    ensures
        #[trigger] spec_count_blur(s.push(c)) == spec_count_blur(s) + (if c is RenderBlur {
            1int
        } else {
            0
        }),
{
    assert(s.push(c).drop_last() =~= s);
}

pub broadcast proof fn lemma_count_rgb_push(s: Seq<RenderCommand>, c: RenderCommand)
    ensures
        #[trigger] spec_count_rgb(s.push(c)) == spec_count_rgb(s) + (if c is RenderRgb {
            1int
        } else {
            0
        }),
{
    assert(s.push(c).drop_last() =~= s);
}

pub broadcast proof fn lemma_count_shots_push(s: Seq<RenderCommand>, c: RenderCommand)
    ensures
        #[trigger] spec_count_shots(s.push(c)) == spec_count_shots(s) + (
        if c is CaptureScreenshot {
            1int
        } else {
            0
        }),
{
    assert(s.push(c).drop_last() =~= s);
}

/// How many channel sub-passes each line group draws: one when the
/// channels are combined, three when they are separated.
pub open spec fn spec_color_splits(c: ColorChannels) -> int {
    if c is Combined {
        1
    } else {
        3
    }
}

/// How many foreground sub-passes one frame issues: one per line group
/// and channel sub-pass when the shadow-masked foreground shows.
pub open spec fn spec_expected_foreground_draws(res: Resources) -> int {
    if res.crt_filters.showing_diffuse_foreground {
        res.crt_filters.lines_per_pixel * spec_color_splits(res.crt_filters.color_channels)
    } else {
        0
    }
}

/// How many layer passes one frame issues: the background bleed and the
/// solid layer, both gated on the layering showing the background layer.
pub open spec fn spec_expected_layer_draws(res: Resources) -> int {
    if res.crt_filters.showing_solid_background {
        2
    } else {
        0
    }
}

/// Everything the contract fixes of one composed frame's command list.
pub open spec fn spec_frame_ok(cmds: Seq<RenderCommand>, res: Resources) -> bool {
    &&& spec_cmds_ok(cmds, res)
    &&& spec_count_fg_draws(cmds) == spec_expected_foreground_draws(res)
    &&& spec_count_layer_draws(cmds) == spec_expected_layer_draws(res)
    &&& spec_count_blur(cmds) == (if res.crt_filters.blur_passes > 0 {
        1int
    } else {
        0
    })
    &&& spec_count_rgb(cmds) == (if res.crt_filters.showing_diffuse_foreground
        && res.crt_filters.color_channels is Overlapping {
        1int
    } else {
        0
    })
    &&& spec_count_shots(cmds) == (if res.launch_screenshot {
        1int
    } else {
        0
    })
    &&& (res.crt_filters.showing_diffuse_foreground && res.crt_filters.color_channels
        is Overlapping) ==> spec_has_rgb_recombination(cmds)
    &&& cmds.len() > 0
    &&& cmds.last() is RenderInternalResolution
}

/// Whether a command binds a texture to the given unit.
pub open spec fn spec_is_bind_unit(c: RenderCommand, u: u32) -> bool {
    match c {
        RenderCommand::BindTexture { unit, .. } => unit == u,
        _ => false,
    }
}

/// The overlapping recombination: somewhere in the list, a recombination
/// draw directly preceded by the three channel textures bound to units 0
/// to 2.
pub open spec fn spec_has_rgb_recombination(s: Seq<RenderCommand>) -> bool {
    exists|k: int|
        3 <= k < s.len() && ((#[trigger] s[k]) is RenderRgb) && spec_is_bind_unit(s[k - 3], 0)
            && spec_is_bind_unit(s[k - 2], 1) && spec_is_bind_unit(s[k - 1], 2)
}

/// The fixed scanline offset of a line-group count, in micro-units; the
/// sampled values of a slowly growing curve.
pub fn calc_stupid_not_extrapoled_function(y: u32) -> (r: i64)
    ensures
        r == spec_line_group_offset(y),
{
    match y {
        1 => 0,
        2 => 250_000,
        3 => 333_333,
        4 => 375_000,
        5 => 400_000,
        6 => 416_666,
        7 => 428_571,
        8 => 437_497,
        9 => 444_442,
        _ => 450_000,
    }
}

pub open spec fn spec_line_group_offset(y: u32) -> i64 {
    if y == 1 {
        0
    } else if y == 2 {
        250_000
    } else if y == 3 {
        333_333
    } else if y == 4 {
        375_000
    } else if y == 5 {
        400_000
    } else if y == 6 {
        416_666
    } else if y == 7 {
        428_571
    } else if y == 8 {
        437_497
    } else if y == 9 {
        444_442
    } else {
        450_000
    }
}

/// A packed colour channel as a micro-unit intensity: its byte over 255.
fn channel_intensity(byte: u8) -> (r: i64)
    ensures
        r == byte as int * 1_000_000 / 255,
        0 <= r <= 1_000_000,
{
    byte as i64 * 1_000_000 / 255
}

/// The composer of one frame's command sequence.
pub struct SimulationDrawer {
    /// Depth testing is enabled once at construction and assumed from
    /// then on; each frame still re-requests it first.
    pub depth_test_enabled: bool,
}

impl SimulationDrawer {
    pub fn new() -> (r: SimulationDrawer)
        ensures
            r.depth_test_enabled,
    {
        SimulationDrawer { depth_test_enabled: true }
    }

    /// Compose one frame. Both buffer stacks must be balanced (empty) on
    /// entry; the frame never fails and leaves them balanced again: its
    /// pushes and pops cancel exactly. Every command is well formed for
    /// the given state; the list draws one foreground sub-pass per
    /// visible line group and channel sub-pass, the background bleed and
    /// the solid layer when the layering shows them, recombines the
    /// channels through texture units 0 to 2 exactly in overlapping mode,
    /// blurs exactly once with the configured pass count when blur is on,
    /// captures exactly one screenshot when one was requested, and ends
    /// by blitting the composite to the output.
    #[verifier::spinoff_prover]
    #[verifier::rlimit(100)]
    #[verifier::loop_isolation(false)]
    pub fn draw(
        &mut self,
        res: &Resources,
        stack: &mut TextureBufferStack,
        bg_stack: &mut TextureBufferStack,
    ) -> (r: Result<Vec<RenderCommand>, StackError>)
        requires
            res.wf(),
            old(stack).wf(),
            old(stack).cursor == 0,
            old(bg_stack).wf(),
            old(bg_stack).cursor == 0,
        ensures
            r is Ok,
            final(stack).wf(),
            final(stack).cursor == 0,
            final(bg_stack).wf(),
            final(bg_stack).cursor == 0,
            r matches Ok(cmds) ==> spec_frame_ok(cmds@, *res),
    {
        broadcast use
            lemma_cmds_ok_push,
            lemma_count_fg_push,
            lemma_count_layer_push,
            lemma_count_blur_push,
            lemma_count_rgb_push,
            lemma_count_shots_push;

        let mut cmds: Vec<RenderCommand> = Vec::new();
        cmds.push(RenderCommand::EnableDepthTest);
        cmds.push(RenderCommand::SetClearColor);
        if res.animation.needs_buffer_data_load {
            cmds.push(RenderCommand::UploadFrame(res.animation.current_frame));
        }
        stack.set_resolution(res.internal_width, res.internal_height);
        stack.set_depthbuffer(true);
        stack.set_interpolation(res.crt_filters.texture_interpolation);
        stack.push();
        stack.push();
        let working = match stack.bind_current() {
            Ok(b) => b,
            Err(e) => {
                return Err(e);
            },
        };
        cmds.push(RenderCommand::BindFramebuffer(working));
        cmds.push(RenderCommand::Clear);
        let overlapping = match res.crt_filters.color_channels {
            ColorChannels::Overlapping => true,
            _ => false,
        };
        let color_splits: u32 = match res.crt_filters.color_channels {
            ColorChannels::Combined => 1,
            _ => 3,
        };
        let ghost mut rgb_at: int = 0;
        proof {
            let lc = res.crt_filters.light_color as u32;
            let bc = res.crt_filters.brightness_color as u32;
            let gc = res.crt_filters.background_color as u32;
            assert(((lc >> 16) & 0xff) <= 0xff && ((lc >> 8) & 0xff) <= 0xff && (lc & 0xff)
                <= 0xff) by (bit_vector);
            assert(((bc >> 16) & 0xff) <= 0xff && ((bc >> 8) & 0xff) <= 0xff && (bc & 0xff)
                <= 0xff) by (bit_vector);
            assert(((gc >> 16) & 0xff) <= 0xff && ((gc >> 8) & 0xff) <= 0xff && (gc & 0xff)
                <= 0xff) by (bit_vector);
        }
        if res.crt_filters.showing_diffuse_foreground {
            let base_light = color_channels_from_int(res.crt_filters.light_color);
            let bright_channels = color_channels_from_int(res.crt_filters.brightness_color);
            let extra_light = Vec3 {
                x: fx_mul(channel_intensity(bright_channels[0]), res.crt_filters.extra_bright.value),
                y: fx_mul(channel_intensity(bright_channels[1]), res.crt_filters.extra_bright.value),
                z: fx_mul(channel_intensity(bright_channels[2]), res.crt_filters.extra_bright.value),
            };
            let lpp = res.crt_filters.lines_per_pixel;
            let mut j: u32 = 0;
            while j < lpp
                invariant
                    res.wf(),
                    stack.wf(),
                    stack.cursor == 2,
                    lpp == res.crt_filters.lines_per_pixel,
                    color_splits == spec_color_splits(res.crt_filters.color_channels),
                    overlapping == (res.crt_filters.color_channels is Overlapping),
                    j <= lpp,
                    overlapping && j > 0 ==> stack.stack.len() >= 5 && stack.spec_matches(
                        stack.stack[2],
                    ) && stack.spec_matches(stack.stack[3]) && stack.spec_matches(
                        stack.stack[4],
                    ),
                    extra_light == (Vec3 {
                        x: crate::camera::sat64(
                            crate::fixed::spec_fx_mul(
                                spec_color_intensity(res.crt_filters.brightness_color, 0),
                                res.crt_filters.extra_bright.value,
                            ),
                        ),
                        y: crate::camera::sat64(
                            crate::fixed::spec_fx_mul(
                                spec_color_intensity(res.crt_filters.brightness_color, 1),
                                res.crt_filters.extra_bright.value,
                            ),
                        ),
                        z: crate::camera::sat64(
                            crate::fixed::spec_fx_mul(
                                spec_color_intensity(res.crt_filters.brightness_color, 2),
                                res.crt_filters.extra_bright.value,
                            ),
                        ),
                    }),
                    base_light[0] == ((res.crt_filters.light_color as u32 >> 16) & 0xff) as u8,
                    base_light[1] == ((res.crt_filters.light_color as u32 >> 8) & 0xff) as u8,
                    base_light[2] == (res.crt_filters.light_color as u32 & 0xff) as u8,
                    spec_cmds_ok(cmds@, *res),
                    spec_count_fg_draws(cmds@) == j * color_splits,
                    spec_count_layer_draws(cmds@) == 0,
                    spec_count_blur(cmds@) == 0,
                    spec_count_rgb(cmds@) == 0,
                    spec_count_shots(cmds@) == 0,
                decreases lpp - j,
            {
                let mut i: u32 = 0;
                while i < color_splits
                    invariant
                        res.wf(),
                        stack.wf(),
                        lpp == res.crt_filters.lines_per_pixel,
                        color_splits == spec_color_splits(res.crt_filters.color_channels),
                        overlapping == (res.crt_filters.color_channels is Overlapping),
                        i <= color_splits,
                        j < lpp,
                        stack.cursor == 2 + (if overlapping {
                            i as int
                        } else {
                            0
                        }),
                        overlapping ==> stack.stack.len() >= 2 + i && (forall|k: int|
                            2 <= k < 2 + i ==> stack.spec_matches(#[trigger] stack.stack[k])),
                        extra_light == (Vec3 {
                            x: crate::camera::sat64(
                                crate::fixed::spec_fx_mul(
                                    spec_color_intensity(res.crt_filters.brightness_color, 0),
                                    res.crt_filters.extra_bright.value,
                                ),
                            ),
                            y: crate::camera::sat64(
                                crate::fixed::spec_fx_mul(
                                    spec_color_intensity(res.crt_filters.brightness_color, 1),
                                    res.crt_filters.extra_bright.value,
                                ),
                            ),
                            z: crate::camera::sat64(
                                crate::fixed::spec_fx_mul(
                                    spec_color_intensity(res.crt_filters.brightness_color, 2),
                                    res.crt_filters.extra_bright.value,
                                ),
                            ),
                        }),
                        base_light[0] == ((res.crt_filters.light_color as u32 >> 16) & 0xff)
                            as u8,
                        base_light[1] == ((res.crt_filters.light_color as u32 >> 8) & 0xff)
                            as u8,
                        base_light[2] == (res.crt_filters.light_color as u32 & 0xff) as u8,
                        spec_cmds_ok(cmds@, *res),
                        spec_count_fg_draws(cmds@) == j * color_splits + i,
                        spec_count_layer_draws(cmds@) == 0,
                        spec_count_blur(cmds@) == 0,
                        spec_count_rgb(cmds@) == 0,
                        spec_count_shots(cmds@) == 0,
                    decreases color_splits - i,
                {
                    if overlapping {
                        stack.push();
                        let layer = match stack.bind_current() {
                            Ok(b) => b,
                            Err(e) => {
                                return Err(e);
                            },
                        };
                        cmds.push(RenderCommand::BindFramebuffer(layer));
                        if j == 0 {
                            cmds.push(RenderCommand::Clear);
                        }
                    }
                    let mut light_color = Vec3 {
                        x: channel_intensity(base_light[0]),
                        y: channel_intensity(base_light[1]),
                        z: channel_intensity(base_light[2]),
                    };
                    let scale_x = res.crt_filters.cur_pixel_scale_x.value;
                    let scale_y = res.crt_filters.cur_pixel_scale_y.value;
                    let width = res.crt_filters.cur_pixel_width.value;
                    let gap = res.crt_filters.cur_pixel_gap.value;
                    let mut offset_x: i64 = 0;
                    let mut offset_y: i64 = 0;
                    let mut pscale_x: i64 = fx_div(sat_add(scale_x, 1_000_000), width);
                    let mut pscale_y: i64 = sat_add(scale_y, 1_000_000);
                    let pscale_z: i64 = sat_add(scale_x, 1_000_000);
                    match res.crt_filters.color_channels {
                        ColorChannels::Combined => {},
                        _ => {
                            if i == 0 {
                                light_color = Vec3 { x: light_color.x, y: 0, z: 0 };
                            } else if i == 1 {
                                light_color = Vec3 { x: 0, y: light_color.y, z: 0 };
                            } else {
                                light_color = Vec3 { x: 0, y: 0, z: light_color.z };
                            }
                            let centered: i64 = i as i64 - 1;
                            let shift = fx_div(
                                fx_mul(centered * 333_333, width),
                                sat_add(scale_x, 1_000_000),
                            );
                            match res.crt_filters.color_channels {
                                ColorChannels::SplitHorizontal => {
                                    offset_x = shift;
                                    pscale_x = fx_mul(pscale_x, 3_000_000);
                                },
                                ColorChannels::Overlapping => {
                                    offset_x = shift;
                                    pscale_x = fx_mul(pscale_x, 1_500_000);
                                },
                                _ => {
                                    offset_y = fx_mul(
                                        centered * 333_333,
                                        sat_sub(1_000_000, scale_y),
                                    );
                                    pscale_y = fx_mul(pscale_y, 3_000_000);
                                },
                            }
                        },
                    }
                    if lpp > 1 {
                        offset_x = offset_x / lpp as i64;
                        let group_shift = fx_div(
                            fx_mul(
                                sat_sub(
                                    fx_div(j as i64 * 1_000_000, lpp as i64 * 1_000_000),
                                    calc_stupid_not_extrapoled_function(lpp),
                                ),
                                width,
                            ),
                            sat_add(scale_x, 1_000_000),
                        );
                        offset_x = sat_add(offset_x, group_shift);
                        pscale_x = fx_mul(pscale_x, lpp as i64 * 1_000_000);
                    }
                    cmds.push(
                        RenderCommand::RenderPixels(
                            PixelsUniform {
                                shadow_kind: res.crt_filters.pixel_shadow_kind,
                                geometry_kind: res.crt_filters.pixels_geometry_kind,
                                camera_position: res.camera.position,
                                camera_direction: res.camera.direction,
                                camera_axis_up: res.camera.axis_up,
                                camera_zoom: res.camera.zoom,
                                viewport_width: res.animation.viewport_width,
                                viewport_height: res.animation.viewport_height,
                                ambient_strength: match res.crt_filters.pixels_geometry_kind {
                                    PixelsGeometryKind::Squares => 1_000_000,
                                    PixelsGeometryKind::Cubes => 500_000,
                                },
                                contrast_factor: res.crt_filters.extra_contrast.value,
                                light_color,
                                extra_light,
                                pixel_gap_x: fx_mul(sat_add(1_000_000, gap), width),
                                pixel_gap_y: sat_add(1_000_000, gap),
                                pixel_scale_x: pscale_x,
                                pixel_scale_y: pscale_y,
                                pixel_scale_z: pscale_z,
                                pixel_pulse: res.crt_filters.pixels_pulse,
                                pixel_offset_x: offset_x,
                                pixel_offset_y: offset_y,
                                pixel_offset_z: 0,
                                height_modifier_factor: 1_000_000,
                            },
                        ),
                    );
                    i = i + 1;
                }
                if overlapping {
                    let r1 = stack.pop();
                    let r2 = stack.pop();
                    let r3 = stack.pop();
                    proof {
                        assert(r1 is Ok && r2 is Ok && r3 is Ok);
                    }
                }
                j = j + 1;
            }
            if overlapping {
                let working2 = match stack.bind_current() {
                    Ok(b) => b,
                    Err(e) => {
                        return Err(e);
                    },
                };
                cmds.push(RenderCommand::BindFramebuffer(working2));
                let l1 = match stack.get_nth(1) {
                    Ok(b) => b,
                    Err(e) => {
                        return Err(e);
                    },
                };
                let l2 = match stack.get_nth(2) {
                    Ok(b) => b,
                    Err(e) => {
                        return Err(e);
                    },
                };
                let l3 = match stack.get_nth(3) {
                    Ok(b) => b,
                    Err(e) => {
                        return Err(e);
                    },
                };
                cmds.push(RenderCommand::BindTexture { unit: 0, buffer_id: l1.id });
                cmds.push(RenderCommand::BindTexture { unit: 1, buffer_id: l2.id });
                cmds.push(RenderCommand::BindTexture { unit: 2, buffer_id: l3.id });
                cmds.push(RenderCommand::RenderRgb);
                proof {
                    rgb_at = cmds@.len() - 1;
                    assert(cmds@[rgb_at] is RenderRgb);
                    assert(spec_is_bind_unit(cmds@[rgb_at - 3], 0));
                    assert(spec_is_bind_unit(cmds@[rgb_at - 2], 1));
                    assert(spec_is_bind_unit(cmds@[rgb_at - 1], 2));
                }
                cmds.push(RenderCommand::BindTexture { unit: 0, buffer_id: l1.id });
            }
        }
        stack.push();
        let solid_layer = match stack.bind_current() {
            Ok(b) => b,
            Err(e) => {
                return Err(e);
            },
        };
        cmds.push(RenderCommand::BindFramebuffer(solid_layer));
        cmds.push(RenderCommand::Clear);
        if res.crt_filters.showing_solid_background {
            let bg_channels = color_channels_from_int(res.crt_filters.background_color);
            bg_stack.set_resolution(BACKGROUND_WIDTH, BACKGROUND_HEIGHT);
            bg_stack.set_depthbuffer(false);
            bg_stack.set_interpolation(crate::filters::TextureInterpolation::Linear);
            bg_stack.push();
            let bg_layer = match bg_stack.bind_current() {
                Ok(b) => b,
                Err(e) => {
                    return Err(e);
                },
            };
            cmds.push(RenderCommand::BindFramebuffer(bg_layer));
            cmds.push(RenderCommand::Clear);
            cmds.push(
                RenderCommand::RenderPixels(
                    PixelsUniform {
                        shadow_kind: 0,
                        geometry_kind: res.crt_filters.pixels_geometry_kind,
                        camera_position: res.camera.position,
                        camera_direction: res.camera.direction,
                        camera_axis_up: res.camera.axis_up,
                        camera_zoom: res.camera.zoom,
                        viewport_width: res.animation.viewport_width,
                        viewport_height: res.animation.viewport_height,
                        ambient_strength: match res.crt_filters.pixels_geometry_kind {
                            PixelsGeometryKind::Squares => 1_000_000,
                            PixelsGeometryKind::Cubes => 500_000,
                        },
                        contrast_factor: res.crt_filters.extra_contrast.value,
                        light_color: Vec3 {
                            x: channel_intensity(bg_channels[0]),
                            y: channel_intensity(bg_channels[1]),
                            z: channel_intensity(bg_channels[2]),
                        },
                        extra_light: Vec3 { x: 0, y: 0, z: 0 },
                        pixel_gap_x: fx_mul(
                            sat_add(1_000_000, res.crt_filters.cur_pixel_gap.value),
                            res.crt_filters.cur_pixel_width.value,
                        ),
                        pixel_gap_y: sat_add(1_000_000, res.crt_filters.cur_pixel_gap.value),
                        pixel_scale_x: fx_div(
                            sat_add(res.crt_filters.cur_pixel_scale_x.value, 1_000_000),
                            res.crt_filters.cur_pixel_width.value,
                        ),
                        pixel_scale_y: sat_add(
                            res.crt_filters.cur_pixel_scale_y.value,
                            1_000_000,
                        ),
                        pixel_scale_z: sat_add(
                            res.crt_filters.cur_pixel_scale_x.value,
                            1_000_000,
                        ),
                        pixel_pulse: res.crt_filters.pixels_pulse,
                        pixel_offset_x: 0,
                        pixel_offset_y: 0,
                        pixel_offset_z: 0,
                        height_modifier_factor: 0,
                    },
                ),
            );
            cmds.push(
                RenderCommand::RenderBlurInto {
                    source_id: bg_layer.id,
                    target_id: solid_layer.id,
                    passes: BACKGROUND_BLUR_PASSES,
                },
            );
            let bp = bg_stack.pop();
            proof {
                assert(bp is Ok);
            }
            cmds.push(RenderCommand::BindFramebuffer(solid_layer));
            let w = res.crt_filters.solid_color_weight;
            cmds.push(
                RenderCommand::RenderPixels(
                    PixelsUniform {
                        shadow_kind: 0,
                        geometry_kind: res.crt_filters.pixels_geometry_kind,
                        camera_position: res.camera.position,
                        camera_direction: res.camera.direction,
                        camera_axis_up: res.camera.axis_up,
                        camera_zoom: res.camera.zoom,
                        viewport_width: res.animation.viewport_width,
                        viewport_height: res.animation.viewport_height,
                        ambient_strength: match res.crt_filters.pixels_geometry_kind {
                            PixelsGeometryKind::Squares => 1_000_000,
                            PixelsGeometryKind::Cubes => 500_000,
                        },
                        contrast_factor: res.crt_filters.extra_contrast.value,
                        light_color: Vec3 { x: w, y: w, z: w },
                        extra_light: Vec3 { x: 0, y: 0, z: 0 },
                        pixel_gap_x: fx_mul(
                            sat_add(1_000_000, res.crt_filters.cur_pixel_gap.value),
                            res.crt_filters.cur_pixel_width.value,
                        ),
                        pixel_gap_y: sat_add(1_000_000, res.crt_filters.cur_pixel_gap.value),
                        pixel_scale_x: fx_div(
                            sat_add(res.crt_filters.cur_pixel_scale_x.value, 1_000_000),
                            res.crt_filters.cur_pixel_width.value,
                        ),
                        pixel_scale_y: sat_add(
                            res.crt_filters.cur_pixel_scale_y.value,
                            1_000_000,
                        ),
                        pixel_scale_z: sat_add(
                            res.crt_filters.cur_pixel_scale_x.value,
                            1_000_000,
                        ),
                        pixel_pulse: res.crt_filters.pixels_pulse,
                        pixel_offset_x: 0,
                        pixel_offset_y: 0,
                        pixel_offset_z: 0,
                        height_modifier_factor: 0,
                    },
                ),
            );
        }
        let p1 = stack.pop();
        let p2 = stack.pop();
        proof {
            assert(p1 is Ok && p2 is Ok);
        }
        let base = match stack.bind_current() {
            Ok(b) => b,
            Err(e) => {
                return Err(e);
            },
        };
        cmds.push(RenderCommand::BindFramebuffer(base));
        cmds.push(RenderCommand::Clear);
        let fg_tex = match stack.get_nth(1) {
            Ok(b) => b,
            Err(e) => {
                return Err(e);
            },
        };
        let solid_tex = match stack.get_nth(2) {
            Ok(b) => b,
            Err(e) => {
                return Err(e);
            },
        };
        cmds.push(RenderCommand::BindTexture { unit: 0, buffer_id: fg_tex.id });
        cmds.push(RenderCommand::BindTexture { unit: 1, buffer_id: solid_tex.id });
        cmds.push(RenderCommand::RenderBackground);
        cmds.push(RenderCommand::BindTexture { unit: 0, buffer_id: fg_tex.id });
        if res.crt_filters.blur_passes > 0 {
            cmds.push(RenderCommand::RenderBlur { passes: res.crt_filters.blur_passes });
        }
        if res.launch_screenshot {
            cmds.push(
                RenderCommand::CaptureScreenshot {
                    width: res.internal_width,
                    height: res.internal_height,
                    multiplier: res.internal_resolution_multiplier,
                },
            );
        }
        let p3 = stack.pop();
        proof {
            assert(p3 is Ok);
        }
        let balance = stack.assert_no_stack();
        proof {
            assert(balance is Ok);
        }
        cmds.push(RenderCommand::BindDefaultFramebuffer);
        cmds.push(RenderCommand::Clear);
        cmds.push(
            RenderCommand::SetViewport {
                width: res.animation.viewport_width as i32,
                height: res.animation.viewport_height as i32,
            },
        );
        let composite = match stack.get_nth(1) {
            Ok(b) => b,
            Err(e) => {
                return Err(e);
            },
        };
        cmds.push(RenderCommand::RenderInternalResolution { buffer_id: composite.id });
        proof {
            if res.crt_filters.showing_diffuse_foreground && res.crt_filters.color_channels
                is Overlapping {
                assert(3 <= rgb_at < cmds@.len() && (cmds@[rgb_at] is RenderRgb)
                    && spec_is_bind_unit(cmds@[rgb_at - 3], 0) && spec_is_bind_unit(
                    cmds@[rgb_at - 2],
                    1,
                ) && spec_is_bind_unit(cmds@[rgb_at - 1], 2));
                assert(spec_has_rgb_recombination(cmds@));
            }
        }
        Ok(cmds)
    }
}

} // verus!
