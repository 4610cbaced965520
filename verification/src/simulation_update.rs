//! The per-tick state update: timers, animation, filter parameters, speeds
//! and camera, each step reading what earlier steps settled.

use vstd::prelude::*;
use crate::camera::{Camera, CameraDirection, sat_neg64, Vec3, ZOOM_DEFAULT, ZOOM_MAX, ZOOM_MIN};
use crate::events::AppEvent;
use crate::filters::{
    BLUR_PASSES_MAX, ColorChannels, CrtFilters, LPP_MAX, LPP_MIN, PixelsGeometryKind,
    ScreenLayeringKind, SHADOWS_LEN,
};
use crate::general_types::NextEnumVariant;
use crate::fixed::{sat_add, spec_sat, spec_tdiv};
use crate::input::Input;
use crate::messages::Msg;
use crate::overrides::CustomOverrides;
use crate::params::{DT_CAP_MS, progression_step, spec_progression_step};
use crate::resources::{AnimationData, Resources};

verus! {

broadcast use Seq::push_distributes_over_add, Seq::add_empty_right;

/// Concatenation of event segments re-bracketed: pushing a chain of
/// segments one by one is the same as appending them as one block.
proof fn lemma_add2_assoc<T>(base: Seq<T>, a: Seq<T>, b: Seq<T>)
    ensures
        base + a + b == base + (a + b),
{
    assert(base + a + b =~= base + (a + b));
}

proof fn lemma_add4_assoc<T>(base: Seq<T>, a: Seq<T>, b: Seq<T>, c: Seq<T>, d: Seq<T>)
    ensures
        base + a + b + c + d == base + (a + b + c + d),
{
    assert(base + a + b + c + d =~= base + (a + b + c + d));
}

/// The tick length this tick observes, in milliseconds: the wall-clock
/// delta since the previous tick, and zero when the clock stepped back.
pub open spec fn spec_dt_ms(last_time: u64, now: u64) -> u64 {
    if now >= last_time {
        (now - last_time) as u64
    } else {
        0
    }
}

/// Whether this tick rolls the one-second frame-counter window over.
pub open spec fn spec_second_elapsed(last_second: u64, now: u64) -> bool {
    now >= last_second && now - last_second >= 1000
}

/// Advance the wall-clock anchors and the rolling frame counter, and
/// report the frame rate each time the one-second window rolls over.
/// Returns the tick length `dt` the rest of the tick works with.
pub fn update_timers_and_dt(res: &mut Resources, input: &Input, events: &mut Vec<AppEvent>) -> (dt: u64)
    ensures
        dt == spec_dt_ms(old(res).timers.last_time, input.now),
        *final(res) == (Resources { timers: final(res).timers, ..*old(res) }),
        final(res).timers.last_time == input.now,
        spec_second_elapsed(old(res).timers.last_second, input.now) ==> {
            &&& final(res).timers.last_second == input.now
            &&& final(res).timers.frame_count == 0
            &&& final(events)@ == old(events)@.push(
                AppEvent::Fps(old(res).timers.frame_count),
            )
        },
        !spec_second_elapsed(old(res).timers.last_second, input.now) ==> {
            &&& final(res).timers.last_second == old(res).timers.last_second
            &&& final(res).timers.frame_count as int == (if old(res).timers.frame_count
                < u32::MAX {
                old(res).timers.frame_count + 1
            } else {
                old(res).timers.frame_count as int
            })
            &&& final(events)@ == old(events)@
        },
{
    let dt: u64 = if input.now >= res.timers.last_time {
        input.now - res.timers.last_time
    } else {
        0
    };
    res.timers.last_time = input.now;
    if input.now >= res.timers.last_second && input.now - res.timers.last_second >= 1000 {
        events.push(AppEvent::Fps(res.timers.frame_count));
        res.timers.last_second = input.now;
        res.timers.frame_count = 0;
    } else {
        if res.timers.frame_count < u32::MAX {
            res.timers.frame_count = res.timers.frame_count + 1;
        }
    }
    dt
}

/// When the shown frame would change next: the last change plus the
/// current step's delay, stuck at the clock's end of range.
pub open spec fn spec_next_frame_update(a: crate::resources::AnimationData) -> u64 {
    let delay = a.steps[a.current_frame as int].delay;
    if a.last_frame_change + delay > u64::MAX {
        u64::MAX
    } else {
        (a.last_frame_change + delay) as u64
    }
}

/// The frame index after one step, wrapping past the last frame.
pub open spec fn spec_next_frame(a: crate::resources::AnimationData) -> usize {
    if a.current_frame + 1 >= a.steps.len() {
        0
    } else {
        (a.current_frame + 1) as usize
    }
}

/// Advance the animation: when the current frame's delay has elapsed, step
/// to the next frame (wrapping) and flag that its pixels must be uploaded.
pub fn update_animation_buffer(res: &mut Resources, input: &Input)
    requires
        old(res).animation.wf(),
    ensures
        *final(res) == (Resources { animation: final(res).animation, ..*old(res) }),
        final(res).animation.wf(),
        input.now >= spec_next_frame_update(old(res).animation) ==> final(res).animation == (
        crate::resources::AnimationData {
            last_frame_change: spec_next_frame_update(old(res).animation),
            current_frame: spec_next_frame(old(res).animation),
            needs_buffer_data_load: spec_next_frame(old(res).animation) != old(
                res,
            ).animation.current_frame,
            ..old(res).animation
        }),
        input.now < spec_next_frame_update(old(res).animation) ==> final(res).animation == (
        crate::resources::AnimationData {
            needs_buffer_data_load: false,
            ..old(res).animation
        }),
{
    res.animation.needs_buffer_data_load = false;
    let delay: u32 = res.animation.steps[res.animation.current_frame].delay;
    let next_frame_update: u64 = if res.animation.last_frame_change > u64::MAX - delay as u64 {
        u64::MAX
    } else {
        res.animation.last_frame_change + delay as u64
    };
    if input.now >= next_frame_update {
        res.animation.last_frame_change = next_frame_update;
        let last_frame = res.animation.current_frame;
        let mut next = res.animation.current_frame + 1;
        if next >= res.animation.steps.len() {
            next = 0;
        }
        res.animation.current_frame = next;
        if last_frame != next {
            res.animation.needs_buffer_data_load = true;
        }
    }
}

/// The value a clamped-parameter step leaves behind.
pub open spec fn spec_stepped_value(
    c: crate::params::ParameterChanger,
    increase: bool,
    decrease: bool,
    override_value: Option<i64>,
    step: i64,
) -> i64 {
    c.spec_clamped(c.spec_raw(increase, decrease, override_value, step)) as i64
}

/// The events one clamped-parameter step emits: a boundary notification
/// carrying the bound exactly when the bound cut the raw value, then the
/// parameter's own change notification `change_ev` exactly when the value
/// at the end of the step differs from the value at its start.
pub open spec fn spec_changer_events(
    c: crate::params::ParameterChanger,
    increase: bool,
    decrease: bool,
    override_value: Option<i64>,
    step: i64,
    change_ev: AppEvent,
) -> Seq<AppEvent> {
    let raw = c.spec_raw(increase, decrease, override_value, step);
    let v = c.spec_clamped(raw);
    (if raw < c.min {
        seq![AppEvent::MinimumValue(c.min)]
    } else if raw > c.max {
        seq![AppEvent::MaximumValue(c.max)]
    } else {
        Seq::empty()
    }) + (if v != c.value {
        seq![change_ev]
    } else {
        Seq::empty()
    })
}

/// One clamped-parameter step with its boundary notification; the caller
/// pushes the parameter's own change notification when `r.changed`.
fn apply_param(
    c: &mut crate::params::ParameterChanger,
    increase: bool,
    decrease: bool,
    override_value: Option<i64>,
    step: i64,
    events: &mut Vec<AppEvent>,
) -> (r: crate::params::ParamOutcome)
    requires
        old(c).wf(),
        step >= 0,
    ensures
        final(c).wf(),
        final(c).min == old(c).min,
        final(c).max == old(c).max,
        final(c).value == old(c).spec_clamped(
            old(c).spec_raw(increase, decrease, override_value, step),
        ),
        r.changed == (final(c).value != old(c).value),
        final(events)@ == old(events)@ + (if old(c).spec_raw(
            increase,
            decrease,
            override_value,
            step,
        ) < old(c).min {
            seq![AppEvent::MinimumValue(old(c).min)]
        } else if old(c).spec_raw(increase, decrease, override_value, step) > old(c).max {
            seq![AppEvent::MaximumValue(old(c).max)]
        } else {
            Seq::<AppEvent>::empty()
        }),
{
    let outcome = c.update(increase, decrease, override_value, step);
    if outcome.min_reached {
        events.push(AppEvent::MinimumValue(c.min));
    } else if outcome.max_reached {
        events.push(AppEvent::MaximumValue(c.max));
    }
    proof {
        assert(old(events)@ + Seq::<AppEvent>::empty() =~= old(events)@);
    }
    outcome
}

/// The step the brightness and contrast progress by this tick:
/// `0.01 * dt * change_speed`.
pub open spec fn spec_color_step(change_speed: i64, dt: u64) -> i64 {
    crate::camera::sat64(spec_progression_step(change_speed, dt, 100_000))
}

/// A packed colour injected as a micro-unit number, truncated to its
/// integer value.
pub open spec fn spec_color_target(v: i64) -> i32 {
    crate::fixed::spec_sat32(spec_tdiv(v as int, 1_000_000)) as i32
}

/// What a colour override leaves behind: the injected colour, and one
/// message exactly when it differs from the current one.
pub open spec fn spec_color_override_events(cur: i32, ov: Option<i64>) -> Seq<AppEvent> {
    match ov {
        Some(v) => if spec_color_target(v) != cur {
            seq![AppEvent::TopMessage(Msg::ColorChanged)]
        } else {
            Seq::empty()
        },
        None => Seq::empty(),
    }
}

/// The colour a colour override leaves set.
pub open spec fn spec_color_after(cur: i32, ov: Option<i64>) -> i32 {
    match ov {
        Some(v) => spec_color_target(v),
        None => cur,
    }
}

/// Apply a colour override, reporting a change.
fn apply_color_override(cur: &mut i32, ov: Option<i64>, events: &mut Vec<AppEvent>)
    ensures
        *final(cur) == spec_color_after(*old(cur), ov),
        final(events)@ == old(events)@ + spec_color_override_events(*old(cur), ov),
{
    match ov {
        Some(v) => {
            let target = crate::fixed::sat32(crate::fixed::fx_to_int(v));
            if target != *cur {
                *cur = target;
                events.push(AppEvent::TopMessage(Msg::ColorChanged));
            } else {
                proof {
                    assert(old(events)@ + Seq::<AppEvent>::empty() =~= old(events)@);
                }
            }
        },
        None => {
            proof {
                assert(old(events)@ + Seq::<AppEvent>::empty() =~= old(events)@);
            }
        },
    }
}

/// Advance brightness and contrast by held keys or injected overrides,
/// each clamped with its boundary notification and reported once when it
/// changed; then take over injected light, brightness and background
/// colours.
pub fn update_colors(
    dt: u64,
    res: &mut Resources,
    input: &Input,
    ov: &CustomOverrides,
    events: &mut Vec<AppEvent>,
)
    requires
        old(res).crt_filters.wf(),
    ensures
        *final(res) == (Resources { crt_filters: final(res).crt_filters, ..*old(res) }),
        final(res).crt_filters == (CrtFilters {
            extra_bright: final(res).crt_filters.extra_bright,
            extra_contrast: final(res).crt_filters.extra_contrast,
            light_color: final(res).crt_filters.light_color,
            brightness_color: final(res).crt_filters.brightness_color,
            background_color: final(res).crt_filters.background_color,
            ..old(res).crt_filters
        }),
        final(res).crt_filters.wf(),
        final(res).crt_filters.extra_bright == (crate::params::ParameterChanger {
            value: old(res).crt_filters.extra_bright.spec_clamped(
                old(res).crt_filters.extra_bright.spec_raw(
                    input.bright.increase,
                    input.bright.decrease,
                    ov.pixel_brightness,
                    spec_color_step(old(res).crt_filters.change_speed, dt),
                ),
            ) as i64,
            ..old(res).crt_filters.extra_bright
        }),
        final(res).crt_filters.extra_contrast == (crate::params::ParameterChanger {
            value: old(res).crt_filters.extra_contrast.spec_clamped(
                old(res).crt_filters.extra_contrast.spec_raw(
                    input.contrast.increase,
                    input.contrast.decrease,
                    ov.pixel_contrast,
                    spec_color_step(old(res).crt_filters.change_speed, dt),
                ),
            ) as i64,
            ..old(res).crt_filters.extra_contrast
        }),
        final(res).crt_filters.light_color == spec_color_after(
            old(res).crt_filters.light_color,
            ov.light_color,
        ),
        final(res).crt_filters.brightness_color == spec_color_after(
            old(res).crt_filters.brightness_color,
            ov.brightness_color,
        ),
        final(res).crt_filters.background_color == spec_color_after(
            old(res).crt_filters.background_color,
            ov.background_color,
        ),
        final(events)@ == old(events)@ + spec_changer_events(
            old(res).crt_filters.extra_bright,
            input.bright.increase,
            input.bright.decrease,
            ov.pixel_brightness,
            spec_color_step(old(res).crt_filters.change_speed, dt),
            AppEvent::ChangePixelBrightness(final(res).crt_filters.extra_bright.value),
        ) + spec_changer_events(
            old(res).crt_filters.extra_contrast,
            input.contrast.increase,
            input.contrast.decrease,
            ov.pixel_contrast,
            spec_color_step(old(res).crt_filters.change_speed, dt),
            AppEvent::ChangePixelContrast(final(res).crt_filters.extra_contrast.value),
        ) + spec_color_override_events(old(res).crt_filters.light_color, ov.light_color)
            + spec_color_override_events(
            old(res).crt_filters.brightness_color,
            ov.brightness_color,
        ) + spec_color_override_events(
            old(res).crt_filters.background_color,
            ov.background_color,
        ),
{
    let step = progression_step(res.crt_filters.change_speed, dt, 100_000);
    let bright_outcome = apply_param(
        &mut res.crt_filters.extra_bright,
        input.bright.increase,
        input.bright.decrease,
        ov.pixel_brightness,
        step,
        events,
    );
    if bright_outcome.changed {
        events.push(AppEvent::ChangePixelBrightness(res.crt_filters.extra_bright.value));
    }
    proof {
        assert(events@ =~= old(events)@ + spec_changer_events(
            old(res).crt_filters.extra_bright,
            input.bright.increase,
            input.bright.decrease,
            ov.pixel_brightness,
            spec_color_step(old(res).crt_filters.change_speed, dt),
            AppEvent::ChangePixelBrightness(res.crt_filters.extra_bright.value),
        ));
    }
    let ghost events1 = events@;
    let contrast_outcome = apply_param(
        &mut res.crt_filters.extra_contrast,
        input.contrast.increase,
        input.contrast.decrease,
        ov.pixel_contrast,
        step,
        events,
    );
    if contrast_outcome.changed {
        events.push(AppEvent::ChangePixelContrast(res.crt_filters.extra_contrast.value));
    }
    proof {
        assert(events@ =~= events1 + spec_changer_events(
            old(res).crt_filters.extra_contrast,
            input.contrast.increase,
            input.contrast.decrease,
            ov.pixel_contrast,
            spec_color_step(old(res).crt_filters.change_speed, dt),
            AppEvent::ChangePixelContrast(res.crt_filters.extra_contrast.value),
        ));
    }
    let ghost events2 = events@;
    apply_color_override(&mut res.crt_filters.light_color, ov.light_color, events);
    let ghost events3 = events@;
    apply_color_override(&mut res.crt_filters.brightness_color, ov.brightness_color, events);
    apply_color_override(&mut res.crt_filters.background_color, ov.background_color, events);
    proof {
        assert(events@ =~= old(events)@ + spec_changer_events(
            old(res).crt_filters.extra_bright,
            input.bright.increase,
            input.bright.decrease,
            ov.pixel_brightness,
            spec_color_step(old(res).crt_filters.change_speed, dt),
            AppEvent::ChangePixelBrightness(res.crt_filters.extra_bright.value),
        ) + spec_changer_events(
            old(res).crt_filters.extra_contrast,
            input.contrast.increase,
            input.contrast.decrease,
            ov.pixel_contrast,
            spec_color_step(old(res).crt_filters.change_speed, dt),
            AppEvent::ChangePixelContrast(res.crt_filters.extra_contrast.value),
        ) + spec_color_override_events(old(res).crt_filters.light_color, ov.light_color)
            + spec_color_override_events(
            old(res).crt_filters.brightness_color,
            ov.brightness_color,
        ) + spec_color_override_events(
            old(res).crt_filters.background_color,
            ov.background_color,
        ));
    }
}

/// A count injected as a micro-unit number: its integer value, with
/// negatives reading as zero.
pub open spec fn spec_override_count(v: i64) -> u32 {
    if v < 0 {
        0u32
    } else if v as int / 1_000_000 > u32::MAX {
        u32::MAX
    } else {
        (v as int / 1_000_000) as u32
    }
}

/// The count an override event carries, already decoded, if the tick has
/// one.
pub open spec fn spec_decoded_count(ov: Option<i64>) -> Option<u32> {
    match ov {
        Some(v) => Some(spec_override_count(v)),
        None => None,
    }
}

fn override_count(v: i64) -> (r: u32)
    ensures
        r == spec_override_count(v),
{
    if v < 0 {
        0
    } else {
        let w = v / 1_000_000;
        if w > u32::MAX as i64 {
            u32::MAX
        } else {
            w as u32
        }
    }
}

/// The blur pass count after one tick: stepped by the just-pressed edges,
/// overridden by an injected count, clamped to its upper bound.
pub open spec fn spec_blur_value(b0: u32, inc: bool, dec: bool, ovc: Option<u32>) -> u32 {
    let b1 = if inc {
        (b0 + 1) as u32
    } else {
        b0
    };
    let b2 = if dec && b1 > 0 {
        (b1 - 1) as u32
    } else {
        b1
    };
    let b3 = match ovc {
        Some(c) => c,
        None => b2,
    };
    if b3 > BLUR_PASSES_MAX {
        BLUR_PASSES_MAX
    } else {
        b3
    }
}

/// The lower-boundary notification when a decrement hit zero.
pub open spec fn spec_blur_dec_events(b0: u32, inc: bool, dec: bool) -> Seq<AppEvent> {
    let b1 = if inc {
        (b0 + 1) as u32
    } else {
        b0
    };
    if dec && b1 == 0 {
        seq![AppEvent::MinimumValue(0)]
    } else {
        Seq::empty()
    }
}

/// The count before the upper bound is applied.
pub open spec fn spec_blur_unclamped(b0: u32, inc: bool, dec: bool, ovc: Option<u32>) -> u32 {
    let b1 = if inc {
        (b0 + 1) as u32
    } else {
        b0
    };
    let b2 = if dec && b1 > 0 {
        (b1 - 1) as u32
    } else {
        b1
    };
    match ovc {
        Some(c) => c,
        None => b2,
    }
}

/// The upper-boundary notification when the bound cut the count.
pub open spec fn spec_blur_max_events(b0: u32, inc: bool, dec: bool, ovc: Option<u32>) -> Seq<
    AppEvent,
> {
    if spec_blur_unclamped(b0, inc, dec, ovc) > BLUR_PASSES_MAX {
        seq![AppEvent::MaximumValue(BLUR_PASSES_MAX as i64)]
    } else {
        Seq::empty()
    }
}

/// The descriptive message and change notification, exactly when the
/// count at the end of the tick differs from its start.
pub open spec fn spec_blur_chg_events(b0: u32, inc: bool, dec: bool, ovc: Option<u32>) -> Seq<
    AppEvent,
> {
    let b4 = spec_blur_value(b0, inc, dec, ovc);
    if b4 != b0 {
        seq![
            AppEvent::TopMessage(Msg::BlurLevel(b4)),
            AppEvent::ChangeBlurLevel(b4),
        ]
    } else {
        Seq::empty()
    }
}

/// The notifications one blur tick emits, in order: the lower boundary
/// when a decrement hit zero, the upper boundary when it cut the count,
/// and — exactly when the count at the end of the tick differs from its
/// start — the descriptive message and the one change notification of the
/// tick, however many paths fired.
pub open spec fn spec_blur_events(b0: u32, inc: bool, dec: bool, ovc: Option<u32>) -> Seq<
    AppEvent,
> {
    spec_blur_dec_events(b0, inc, dec) + spec_blur_max_events(b0, inc, dec, ovc)
        + spec_blur_chg_events(b0, inc, dec, ovc)
}

/// One blur tick on the bare count, with its notifications.
#[verifier::spinoff_prover]
#[verifier::rlimit(100)]
fn blur_tick(b0: u32, inc: bool, dec: bool, ovc: Option<u32>, events: &mut Vec<AppEvent>) -> (r: u32)
    requires
        b0 <= BLUR_PASSES_MAX,
    ensures
        r == spec_blur_value(b0, inc, dec, ovc),
        r <= BLUR_PASSES_MAX,
        final(events)@ == old(events)@ + spec_blur_events(b0, inc, dec, ovc),
{
    let mut blur: u32 = b0;
    if inc {
        blur = blur + 1;
    }
    let ghost b1 = blur;
    if dec {
        if blur > 0 {
            blur = blur - 1;
        } else {
            events.push(AppEvent::MinimumValue(0));
        }
    }
    let ghost e_dec: Seq<AppEvent> = spec_blur_dec_events(b0, inc, dec);
    proof {
        assert(events@ =~= old(events)@ + e_dec);
    }
    match ovc {
        Some(c) => {
            blur = c;
        },
        None => {},
    }
    if blur > BLUR_PASSES_MAX {
        blur = BLUR_PASSES_MAX;
        events.push(AppEvent::MaximumValue(BLUR_PASSES_MAX as i64));
    }
    let ghost e_max: Seq<AppEvent> = spec_blur_max_events(b0, inc, dec, ovc);
    proof {
        assert(events@ =~= old(events)@ + e_dec + e_max);
    }
    if blur != b0 {
        events.push(AppEvent::TopMessage(Msg::BlurLevel(blur)));
        events.push(AppEvent::ChangeBlurLevel(blur));
    }
    let ghost e_chg: Seq<AppEvent> = spec_blur_chg_events(b0, inc, dec, ovc);
    proof {
        assert(blur == spec_blur_value(b0, inc, dec, ovc));
        assert(events@ =~= old(events)@ + e_dec + e_max + e_chg);
        assert(old(events)@ + e_dec + e_max + e_chg =~= old(events)@ + (e_dec + e_max
            + e_chg));
    }
    blur
}

/// Step, override and clamp the blur pass count, with its notifications.
pub fn update_blur(res: &mut Resources, input: &Input, ov: &CustomOverrides, events: &mut Vec<AppEvent>)
    requires
        old(res).crt_filters.wf(),
    ensures
        *final(res) == (Resources { crt_filters: final(res).crt_filters, ..*old(res) }),
        final(res).crt_filters == (CrtFilters {
            blur_passes: spec_blur_value(
                old(res).crt_filters.blur_passes,
                input.blur.increase.spec_just_pressed(),
                input.blur.decrease.spec_just_pressed(),
                spec_decoded_count(ov.blur_level),
            ),
            ..old(res).crt_filters
        }),
        final(res).crt_filters.blur_passes <= BLUR_PASSES_MAX,
        final(events)@ == old(events)@ + spec_blur_events(
            old(res).crt_filters.blur_passes,
            input.blur.increase.spec_just_pressed(),
            input.blur.decrease.spec_just_pressed(),
            spec_decoded_count(ov.blur_level),
        ),
{
    let ovc: Option<u32> = match ov.blur_level {
        Some(v) => Some(override_count(v)),
        None => None,
    };
    let blur = blur_tick(
        res.crt_filters.blur_passes,
        input.blur.increase.is_just_pressed(),
        input.blur.decrease.is_just_pressed(),
        ovc,
        events,
    );
    res.crt_filters.blur_passes = blur;
}

/// The lines-per-pixel count after one tick: stepped by the just-pressed
/// edges, overridden by an injected count, clamped to its bounds.
pub open spec fn spec_lpp_value(b0: u32, inc: bool, dec: bool, ovc: Option<u32>) -> u32 {
    let b1 = if inc {
        (b0 + 1) as u32
    } else {
        b0
    };
    let b2 = if dec && b1 > 0 {
        (b1 - 1) as u32
    } else {
        b1
    };
    let b3 = match ovc {
        Some(c) => c,
        None => b2,
    };
    if b3 < LPP_MIN {
        LPP_MIN
    } else if b3 > LPP_MAX {
        LPP_MAX
    } else {
        b3
    }
}

/// The notifications one lines-per-pixel tick emits, in order: the
/// boundary that cut the count, and the descriptive message with the one
/// change notification of the tick, exactly when the count changed over
/// the tick.
pub open spec fn spec_lpp_events(b0: u32, inc: bool, dec: bool, ovc: Option<u32>) -> Seq<
    AppEvent,
> {
    let b1 = if inc {
        (b0 + 1) as u32
    } else {
        b0
    };
    let b2 = if dec && b1 > 0 {
        (b1 - 1) as u32
    } else {
        b1
    };
    let b3 = match ovc {
        Some(c) => c,
        None => b2,
    };
    let e_clamp: Seq<AppEvent> = if b3 < LPP_MIN {
        seq![AppEvent::MinimumValue(LPP_MIN as i64)]
    } else if b3 > LPP_MAX {
        seq![AppEvent::MaximumValue(LPP_MAX as i64)]
    } else {
        Seq::empty()
    };
    let b4 = if b3 < LPP_MIN {
        LPP_MIN
    } else if b3 > LPP_MAX {
        LPP_MAX
    } else {
        b3
    };
    let e_chg: Seq<AppEvent> = if b4 != b0 {
        seq![
            AppEvent::TopMessage(Msg::LinesPerPixel(b4)),
            AppEvent::ChangeLinesPerPixel(b4),
        ]
    } else {
        Seq::empty()
    };
    e_clamp + e_chg
}

/// Step, override and clamp the lines-per-pixel count, with its
/// notifications.
#[verifier::spinoff_prover]
#[verifier::rlimit(100)]
pub fn update_lpp(res: &mut Resources, input: &Input, ov: &CustomOverrides, events: &mut Vec<AppEvent>)
    requires
        old(res).crt_filters.wf(),
    ensures
        *final(res) == (Resources { crt_filters: final(res).crt_filters, ..*old(res) }),
        final(res).crt_filters == (CrtFilters {
            lines_per_pixel: spec_lpp_value(
                old(res).crt_filters.lines_per_pixel,
                input.lpp.increase.spec_just_pressed(),
                input.lpp.decrease.spec_just_pressed(),
                spec_decoded_count(ov.lines_per_pixel),
            ),
            ..old(res).crt_filters
        }),
        LPP_MIN <= final(res).crt_filters.lines_per_pixel <= LPP_MAX,
        final(events)@ == old(events)@ + spec_lpp_events(
            old(res).crt_filters.lines_per_pixel,
            input.lpp.increase.spec_just_pressed(),
            input.lpp.decrease.spec_just_pressed(),
            spec_decoded_count(ov.lines_per_pixel),
        ),
{
    let ghost b0 = old(res).crt_filters.lines_per_pixel;
    let ghost inc = input.lpp.increase.spec_just_pressed();
    let ghost dec = input.lpp.decrease.spec_just_pressed();
    let ovc: Option<u32> = match ov.lines_per_pixel {
        Some(v) => Some(override_count(v)),
        None => None,
    };
    let mut lpp: u32 = res.crt_filters.lines_per_pixel;
    if input.lpp.increase.is_just_pressed() {
        lpp = lpp + 1;
    }
    if input.lpp.decrease.is_just_pressed() && lpp > 0 {
        lpp = lpp - 1;
    }
    match ovc {
        Some(c) => {
            lpp = c;
        },
        None => {},
    }
    let ghost b3 = lpp;
    if lpp < LPP_MIN {
        lpp = LPP_MIN;
        events.push(AppEvent::MinimumValue(LPP_MIN as i64));
    } else if lpp > LPP_MAX {
        lpp = LPP_MAX;
        events.push(AppEvent::MaximumValue(LPP_MAX as i64));
    }
    let ghost e_clamp: Seq<AppEvent> = if b3 < LPP_MIN {
        seq![AppEvent::MinimumValue(LPP_MIN as i64)]
    } else if b3 > LPP_MAX {
        seq![AppEvent::MaximumValue(LPP_MAX as i64)]
    } else {
        Seq::empty()
    };
    proof {
        assert(events@ =~= old(events)@ + e_clamp);
    }
    if lpp != res.crt_filters.lines_per_pixel {
        events.push(AppEvent::TopMessage(Msg::LinesPerPixel(lpp)));
        events.push(AppEvent::ChangeLinesPerPixel(lpp));
    }
    let ghost e_chg: Seq<AppEvent> = if lpp != b0 {
        seq![
            AppEvent::TopMessage(Msg::LinesPerPixel(lpp)),
            AppEvent::ChangeLinesPerPixel(lpp),
        ]
    } else {
        Seq::empty()
    };
    res.crt_filters.lines_per_pixel = lpp;
    proof {
        let ovc_g = spec_decoded_count(ov.lines_per_pixel);
        assert(lpp == spec_lpp_value(b0, inc, dec, ovc_g));
        assert(spec_lpp_events(b0, inc, dec, ovc_g) =~= e_clamp + e_chg);
        assert(events@ =~= old(events)@ + (e_clamp + e_chg));
    }
}

/// A speed quoted against its base as a whole multiple, in micro-units.
pub open spec fn spec_speed_ratio(speed: i64, base: i64) -> i64 {
    spec_sat((speed as int / base as int) * 1_000_000) as i64
}

fn speed_ratio(speed: i64, base: i64) -> (r: i64)
    requires
        speed >= 1,
        base >= 1,
    ensures
        r == spec_speed_ratio(speed, base),
{
    let whole: i64 = speed / base;
    let wide: i128 = whole as i128 * 1_000_000;
    if wide > i64::MAX as i128 {
        i64::MAX
    } else {
        wide as i64
    }
}

/// The notifications that quote the whole current parameter set back to
/// the host, in a fixed order.
pub open spec fn spec_frontend_events(res: Resources) -> Seq<AppEvent> {
    seq![
        AppEvent::ChangePixelVerticalGap(res.crt_filters.cur_pixel_scale_x.value),
        AppEvent::ChangePixelHorizontalGap(res.crt_filters.cur_pixel_scale_y.value),
        AppEvent::ChangePixelWidth(res.crt_filters.cur_pixel_width.value),
        AppEvent::ChangePixelSpread(res.crt_filters.cur_pixel_gap.value),
        AppEvent::ChangePixelBrightness(res.crt_filters.extra_bright.value),
        AppEvent::ChangePixelContrast(res.crt_filters.extra_contrast.value),
        AppEvent::ChangeLightColor(res.crt_filters.light_color),
        AppEvent::ChangeBrightnessColor(res.crt_filters.brightness_color),
        AppEvent::ChangeCameraZoom(res.camera.zoom),
        AppEvent::ChangeBlurLevel(res.crt_filters.blur_passes),
        AppEvent::ChangeLinesPerPixel(res.crt_filters.lines_per_pixel),
        AppEvent::ChangeMovementSpeed(
            spec_speed_ratio(
                res.camera.movement_speed,
                res.initial_parameters.initial_movement_speed,
            ),
        ),
        AppEvent::ChangePixelSpeed(
            spec_speed_ratio(
                res.crt_filters.change_speed,
                crate::resources::PIXEL_MANIPULATION_BASE_SPEED,
            ),
        ),
        AppEvent::ChangeTurningSpeed(
            spec_speed_ratio(res.camera.turning_speed, crate::resources::TURNING_BASE_SPEED),
        ),
    ]
}

/// Quote the whole current parameter set back to the host, so its controls
/// can mirror the state.
pub fn change_frontend_input_values(res: &Resources, events: &mut Vec<AppEvent>)
    requires
        res.wf(),
    ensures
        final(events)@ == old(events)@ + spec_frontend_events(*res),
{
    events.push(AppEvent::ChangePixelVerticalGap(res.crt_filters.cur_pixel_scale_x.value));
    events.push(AppEvent::ChangePixelHorizontalGap(res.crt_filters.cur_pixel_scale_y.value));
    events.push(AppEvent::ChangePixelWidth(res.crt_filters.cur_pixel_width.value));
    events.push(AppEvent::ChangePixelSpread(res.crt_filters.cur_pixel_gap.value));
    events.push(AppEvent::ChangePixelBrightness(res.crt_filters.extra_bright.value));
    events.push(AppEvent::ChangePixelContrast(res.crt_filters.extra_contrast.value));
    events.push(AppEvent::ChangeLightColor(res.crt_filters.light_color));
    events.push(AppEvent::ChangeBrightnessColor(res.crt_filters.brightness_color));
    events.push(AppEvent::ChangeCameraZoom(res.camera.zoom));
    events.push(AppEvent::ChangeBlurLevel(res.crt_filters.blur_passes));
    events.push(AppEvent::ChangeLinesPerPixel(res.crt_filters.lines_per_pixel));
    events.push(
        AppEvent::ChangeMovementSpeed(
            speed_ratio(
                res.camera.movement_speed,
                res.initial_parameters.initial_movement_speed,
            ),
        ),
    );
    events.push(
        AppEvent::ChangePixelSpeed(
            speed_ratio(
                res.crt_filters.change_speed,
                crate::resources::PIXEL_MANIPULATION_BASE_SPEED,
            ),
        ),
    );
    events.push(
        AppEvent::ChangeTurningSpeed(
            speed_ratio(res.camera.turning_speed, crate::resources::TURNING_BASE_SPEED),
        ),
    );
    proof {
        assert(events@ =~= old(events)@ + spec_frontend_events(*res));
    }
}

/// The pulse accumulator after one tick: grown by `0.3 * dt` while the
/// pulse shows, reset to zero otherwise.
pub open spec fn spec_pulse_value(showing: bool, pulse: i64, dt: u64) -> i64 {
    if showing {
        spec_sat(pulse + spec_progression_step(300_000, dt, 1000)) as i64
    } else {
        0
    }
}

/// Toggle the pulse on an edge (reporting the flip) and advance or reset
/// its accumulator.
pub fn update_pixel_pulse(dt: u64, res: &mut Resources, input: &Input, events: &mut Vec<AppEvent>)
    requires
        old(res).crt_filters.pixels_pulse >= 0,
    ensures
        *final(res) == (Resources { crt_filters: final(res).crt_filters, ..*old(res) }),
        final(res).crt_filters == (CrtFilters {
            showing_pixels_pulse: final(res).crt_filters.showing_pixels_pulse,
            pixels_pulse: final(res).crt_filters.pixels_pulse,
            ..old(res).crt_filters
        }),
        final(res).crt_filters.showing_pixels_pulse == (
        if input.showing_pixels_pulse.spec_just_pressed() {
            !old(res).crt_filters.showing_pixels_pulse
        } else {
            old(res).crt_filters.showing_pixels_pulse
        }),
        final(res).crt_filters.pixels_pulse == spec_pulse_value(
            final(res).crt_filters.showing_pixels_pulse,
            old(res).crt_filters.pixels_pulse,
            dt,
        ),
        final(res).crt_filters.pixels_pulse >= 0,
        input.showing_pixels_pulse.spec_just_pressed() ==> final(events)@ == old(events)@.push(
            AppEvent::TopMessage(Msg::ScreenWave(final(res).crt_filters.showing_pixels_pulse)),
        ).push(AppEvent::ShowingPixelsPulse(final(res).crt_filters.showing_pixels_pulse)),
        !input.showing_pixels_pulse.spec_just_pressed() ==> final(events)@ == old(events)@,
{
    if input.showing_pixels_pulse.is_just_pressed() {
        res.crt_filters.showing_pixels_pulse = !res.crt_filters.showing_pixels_pulse;
        events.push(
            AppEvent::TopMessage(Msg::ScreenWave(res.crt_filters.showing_pixels_pulse)),
        );
        events.push(AppEvent::ShowingPixelsPulse(res.crt_filters.showing_pixels_pulse));
    }
    if res.crt_filters.showing_pixels_pulse {
        let step = progression_step(300_000, dt, 1000);
        res.crt_filters.pixels_pulse = sat_add(res.crt_filters.pixels_pulse, step);
    } else {
        res.crt_filters.pixels_pulse = 0;
    }
}

/// The layering fields after one cycling step: the next layering kind,
/// which layers it shows, and the solid weight it prescribes — the weight
/// is left alone when the shadow-only layering is entered, since no solid
/// layer shows there.
pub open spec fn spec_layering_weight(kind: ScreenLayeringKind, w0: i64) -> i64 {
    if kind == ScreenLayeringKind::ShadowOnly {
        w0
    } else {
        kind.spec_solid_weight()
    }
}

/// Cycle the layering kind and derive its layer flags and weight.
fn layering_step(
    kind: ScreenLayeringKind,
    w0: i64,
    events: &mut Vec<AppEvent>,
) -> (r: (ScreenLayeringKind, bool, bool, i64))
    ensures
        r.0 == kind.spec_next(),
        r.1 == r.0.spec_shows_foreground(),
        r.2 == r.0.spec_shows_solid(),
        r.3 == spec_layering_weight(r.0, w0),
        final(events)@ == old(events)@.push(AppEvent::TopMessage(Msg::LayeringKind(r.0))),
{
    let next = match kind {
        ScreenLayeringKind::ShadowOnly => ScreenLayeringKind::SolidOnly,
        ScreenLayeringKind::SolidOnly => ScreenLayeringKind::ShadowWithSolidBackground75,
        ScreenLayeringKind::ShadowWithSolidBackground75 => ScreenLayeringKind::ShadowWithSolidBackground50,
        ScreenLayeringKind::ShadowWithSolidBackground50 => ScreenLayeringKind::ShadowWithSolidBackground25,
        ScreenLayeringKind::ShadowWithSolidBackground25 => ScreenLayeringKind::ShadowOnly,
    };
    let (fg, solid, weight): (bool, bool, i64) = match next {
        ScreenLayeringKind::ShadowOnly => (true, false, w0),
        ScreenLayeringKind::SolidOnly => (false, true, 1_000_000),
        ScreenLayeringKind::ShadowWithSolidBackground75 => (true, true, 750_000),
        ScreenLayeringKind::ShadowWithSolidBackground50 => (true, true, 500_000),
        ScreenLayeringKind::ShadowWithSolidBackground25 => (true, true, 250_000),
    };
    events.push(AppEvent::TopMessage(Msg::LayeringKind(next)));
    (next, fg, solid, weight)
}

/// The shadow-mask index after one step, wrapping past the last pattern.
pub open spec fn spec_next_shadow(k: u32) -> u32 {
    if k + 1 >= SHADOWS_LEN {
        0u32
    } else {
        (k + 1) as u32
    }
}

/// The filter selections after their edge-triggered cycling steps:
/// layering (with its layer flags and weight), colour-channel mode, pixel
/// geometry and shadow-mask index.
pub open spec fn spec_selections_next(f: CrtFilters, i: Input) -> CrtFilters {
    let cyc = !i.input_focused && i.next_layering_kind.spec_just_pressed();
    let kind = if cyc {
        f.layering_kind.spec_next()
    } else {
        f.layering_kind
    };
    CrtFilters {
        layering_kind: kind,
        showing_diffuse_foreground: if cyc {
            kind.spec_shows_foreground()
        } else {
            f.showing_diffuse_foreground
        },
        showing_solid_background: if cyc {
            kind.spec_shows_solid()
        } else {
            f.showing_solid_background
        },
        solid_color_weight: if cyc {
            spec_layering_weight(kind, f.solid_color_weight)
        } else {
            f.solid_color_weight
        },
        color_channels: if i.next_color_representation_kind.spec_just_pressed() {
            f.color_channels.spec_next()
        } else {
            f.color_channels
        },
        pixels_geometry_kind: if i.next_pixel_geometry_kind.spec_just_released() {
            f.pixels_geometry_kind.spec_next()
        } else {
            f.pixels_geometry_kind
        },
        pixel_shadow_kind: if !i.input_focused
            && i.toggle_pixels_shadow_kind.spec_just_released() {
            spec_next_shadow(f.pixel_shadow_kind)
        } else {
            f.pixel_shadow_kind
        },
        ..f
    }
}

/// One message per cycled selection, in the order the selections are
/// visited.
pub open spec fn spec_selection_events(f: CrtFilters, i: Input) -> Seq<AppEvent> {
    let nf = spec_selections_next(f, i);
    let e_lay: Seq<AppEvent> = if !i.input_focused
        && i.next_layering_kind.spec_just_pressed() {
        seq![AppEvent::TopMessage(Msg::LayeringKind(nf.layering_kind))]
    } else {
        Seq::empty()
    };
    let e_cc: Seq<AppEvent> = if i.next_color_representation_kind.spec_just_pressed() {
        seq![AppEvent::TopMessage(Msg::ColorRepresentation(nf.color_channels))]
    } else {
        Seq::empty()
    };
    let e_geo: Seq<AppEvent> = if i.next_pixel_geometry_kind.spec_just_released() {
        seq![
            AppEvent::TopMessage(Msg::PixelsAs(nf.pixels_geometry_kind)),
            AppEvent::PixelGeometry(nf.pixels_geometry_kind),
        ]
    } else {
        Seq::empty()
    };
    let e_shadow: Seq<AppEvent> = if !i.input_focused
        && i.toggle_pixels_shadow_kind.spec_just_released() {
        seq![AppEvent::TopMessage(Msg::NextShadow(nf.pixel_shadow_kind))]
    } else {
        Seq::empty()
    };
    e_lay + e_cc + e_geo + e_shadow
}

/// Cycle the edge-triggered filter selections, with one message each.
#[verifier::spinoff_prover]
#[verifier::rlimit(100)]
fn selections_tick(f: &mut CrtFilters, input: &Input, events: &mut Vec<AppEvent>)
    requires
        old(f).wf(),
    ensures
        *final(f) == spec_selections_next(*old(f), *input),
        final(f).wf(),
        final(events)@ == old(events)@ + spec_selection_events(*old(f), *input),
{
    if !input.input_focused && input.next_layering_kind.is_just_pressed() {
        let (kind, fg, solid, weight) = layering_step(
            f.layering_kind,
            f.solid_color_weight,
            events,
        );
        f.layering_kind = kind;
        f.showing_diffuse_foreground = fg;
        f.showing_solid_background = solid;
        f.solid_color_weight = weight;
    }
    if input.next_color_representation_kind.is_just_pressed() {
        f.color_channels.next_enum_variant();
        events.push(AppEvent::TopMessage(Msg::ColorRepresentation(f.color_channels)));
    }
    if input.next_pixel_geometry_kind.is_just_released() {
        f.pixels_geometry_kind.next_enum_variant();
        events.push(AppEvent::TopMessage(Msg::PixelsAs(f.pixels_geometry_kind)));
        events.push(AppEvent::PixelGeometry(f.pixels_geometry_kind));
    }
    if !input.input_focused && input.toggle_pixels_shadow_kind.is_just_released() {
        let mut k = f.pixel_shadow_kind + 1;
        if k >= SHADOWS_LEN {
            k = 0;
        }
        f.pixel_shadow_kind = k;
        events.push(AppEvent::TopMessage(Msg::NextShadow(k)));
    }
    proof {
        assert(events@ =~= old(events)@ + spec_selection_events(*old(f), *input));
    }
}

/// The four pixel-geometry scalars after one tick, each progressed by its
/// held keys, overridden by its injected payload and clamped.
pub open spec fn spec_pixel_sizes_next(
    f: CrtFilters,
    i: Input,
    ov: CustomOverrides,
    dt: u64,
) -> CrtFilters {
    let gap_step = crate::camera::sat64(spec_progression_step(f.change_speed, dt, 800_000));
    let size_step = crate::camera::sat64(spec_progression_step(f.change_speed, dt, 200_000));
    CrtFilters {
        cur_pixel_scale_x: crate::params::ParameterChanger {
            value: spec_stepped_value(
                f.cur_pixel_scale_x,
                i.pixel_scale_x.increase,
                i.pixel_scale_x.decrease,
                ov.pixel_vertical_gap,
                gap_step,
            ),
            ..f.cur_pixel_scale_x
        },
        cur_pixel_scale_y: crate::params::ParameterChanger {
            value: spec_stepped_value(
                f.cur_pixel_scale_y,
                i.pixel_scale_y.increase,
                i.pixel_scale_y.decrease,
                ov.pixel_horizontal_gap,
                gap_step,
            ),
            ..f.cur_pixel_scale_y
        },
        cur_pixel_width: crate::params::ParameterChanger {
            value: spec_stepped_value(
                f.cur_pixel_width,
                i.pixel_width.increase,
                i.pixel_width.decrease,
                ov.pixel_width,
                size_step,
            ),
            ..f.cur_pixel_width
        },
        cur_pixel_gap: crate::params::ParameterChanger {
            value: spec_stepped_value(
                f.cur_pixel_gap,
                i.pixel_gap.increase,
                i.pixel_gap.decrease,
                ov.pixel_spread,
                size_step,
            ),
            ..f.cur_pixel_gap
        },
        ..f
    }
}

/// The boundary and change notifications of the four pixel-geometry
/// scalars, in the order the scalars are visited.
pub open spec fn spec_pixel_sizes_events(
    f: CrtFilters,
    i: Input,
    ov: CustomOverrides,
    dt: u64,
) -> Seq<AppEvent> {
    let gap_step = crate::camera::sat64(spec_progression_step(f.change_speed, dt, 800_000));
    let size_step = crate::camera::sat64(spec_progression_step(f.change_speed, dt, 200_000));
    spec_changer_events(
        f.cur_pixel_scale_x,
        i.pixel_scale_x.increase,
        i.pixel_scale_x.decrease,
        ov.pixel_vertical_gap,
        gap_step,
        AppEvent::ChangePixelVerticalGap(
            spec_stepped_value(
                f.cur_pixel_scale_x,
                i.pixel_scale_x.increase,
                i.pixel_scale_x.decrease,
                ov.pixel_vertical_gap,
                gap_step,
            ),
        ),
    ) + spec_changer_events(
        f.cur_pixel_scale_y,
        i.pixel_scale_y.increase,
        i.pixel_scale_y.decrease,
        ov.pixel_horizontal_gap,
        gap_step,
        AppEvent::ChangePixelHorizontalGap(
            spec_stepped_value(
                f.cur_pixel_scale_y,
                i.pixel_scale_y.increase,
                i.pixel_scale_y.decrease,
                ov.pixel_horizontal_gap,
                gap_step,
            ),
        ),
    ) + spec_changer_events(
        f.cur_pixel_width,
        i.pixel_width.increase,
        i.pixel_width.decrease,
        ov.pixel_width,
        size_step,
        AppEvent::ChangePixelWidth(
            spec_stepped_value(
                f.cur_pixel_width,
                i.pixel_width.increase,
                i.pixel_width.decrease,
                ov.pixel_width,
                size_step,
            ),
        ),
    ) + spec_changer_events(
        f.cur_pixel_gap,
        i.pixel_gap.increase,
        i.pixel_gap.decrease,
        ov.pixel_spread,
        size_step,
        AppEvent::ChangePixelSpread(
            spec_stepped_value(
                f.cur_pixel_gap,
                i.pixel_gap.increase,
                i.pixel_gap.decrease,
                ov.pixel_spread,
                size_step,
            ),
        ),
    )
}

/// One tick of the pixel-geometry scalars through the shared
/// clamped-parameter step.
#[verifier::spinoff_prover]
#[verifier::rlimit(100)]
fn pixel_sizes_step(
    filters: &mut CrtFilters,
    dt: u64,
    input: &Input,
    ov: &CustomOverrides,
    events: &mut Vec<AppEvent>,
)
    requires
        old(filters).wf(),
    ensures
        *final(filters) == (CrtFilters {
            cur_pixel_scale_x: final(filters).cur_pixel_scale_x,
            cur_pixel_scale_y: final(filters).cur_pixel_scale_y,
            cur_pixel_width: final(filters).cur_pixel_width,
            cur_pixel_gap: final(filters).cur_pixel_gap,
            ..*old(filters)
        }),
        final(filters).wf(),
        final(filters).cur_pixel_scale_x == (crate::params::ParameterChanger {
            value: spec_stepped_value(
                old(filters).cur_pixel_scale_x,
                input.pixel_scale_x.increase,
                input.pixel_scale_x.decrease,
                ov.pixel_vertical_gap,
                crate::camera::sat64(spec_progression_step(old(filters).change_speed, dt, 800_000)),
            ),
            ..old(filters).cur_pixel_scale_x
        }),
        final(filters).cur_pixel_scale_y == (crate::params::ParameterChanger {
            value: spec_stepped_value(
                old(filters).cur_pixel_scale_y,
                input.pixel_scale_y.increase,
                input.pixel_scale_y.decrease,
                ov.pixel_horizontal_gap,
                crate::camera::sat64(spec_progression_step(old(filters).change_speed, dt, 800_000)),
            ),
            ..old(filters).cur_pixel_scale_y
        }),
        final(filters).cur_pixel_width == (crate::params::ParameterChanger {
            value: spec_stepped_value(
                old(filters).cur_pixel_width,
                input.pixel_width.increase,
                input.pixel_width.decrease,
                ov.pixel_width,
                crate::camera::sat64(spec_progression_step(old(filters).change_speed, dt, 200_000)),
            ),
            ..old(filters).cur_pixel_width
        }),
        final(filters).cur_pixel_gap == (crate::params::ParameterChanger {
            value: spec_stepped_value(
                old(filters).cur_pixel_gap,
                input.pixel_gap.increase,
                input.pixel_gap.decrease,
                ov.pixel_spread,
                crate::camera::sat64(spec_progression_step(old(filters).change_speed, dt, 200_000)),
            ),
            ..old(filters).cur_pixel_gap
        }),
        final(events)@ == old(events)@ + spec_changer_events(
            old(filters).cur_pixel_scale_x,
            input.pixel_scale_x.increase,
            input.pixel_scale_x.decrease,
            ov.pixel_vertical_gap,
            crate::camera::sat64(spec_progression_step(old(filters).change_speed, dt, 800_000)),
            AppEvent::ChangePixelVerticalGap(final(filters).cur_pixel_scale_x.value),
        ) + spec_changer_events(
            old(filters).cur_pixel_scale_y,
            input.pixel_scale_y.increase,
            input.pixel_scale_y.decrease,
            ov.pixel_horizontal_gap,
            crate::camera::sat64(spec_progression_step(old(filters).change_speed, dt, 800_000)),
            AppEvent::ChangePixelHorizontalGap(final(filters).cur_pixel_scale_y.value),
        ) + spec_changer_events(
            old(filters).cur_pixel_width,
            input.pixel_width.increase,
            input.pixel_width.decrease,
            ov.pixel_width,
            crate::camera::sat64(spec_progression_step(old(filters).change_speed, dt, 200_000)),
            AppEvent::ChangePixelWidth(final(filters).cur_pixel_width.value),
        ) + spec_changer_events(
            old(filters).cur_pixel_gap,
            input.pixel_gap.increase,
            input.pixel_gap.decrease,
            ov.pixel_spread,
            crate::camera::sat64(spec_progression_step(old(filters).change_speed, dt, 200_000)),
            AppEvent::ChangePixelSpread(final(filters).cur_pixel_gap.value),
        ),
{
    let gap_step = progression_step(filters.change_speed, dt, 800_000);
    let size_step = progression_step(filters.change_speed, dt, 200_000);
    let o1 = apply_param(
        &mut filters.cur_pixel_scale_x,
        input.pixel_scale_x.increase,
        input.pixel_scale_x.decrease,
        ov.pixel_vertical_gap,
        gap_step,
        events,
    );
    if o1.changed {
        events.push(AppEvent::ChangePixelVerticalGap(filters.cur_pixel_scale_x.value));
    }
    proof {
        assert(events@ =~= old(events)@ + spec_changer_events(
            old(filters).cur_pixel_scale_x,
            input.pixel_scale_x.increase,
            input.pixel_scale_x.decrease,
            ov.pixel_vertical_gap,
            crate::camera::sat64(spec_progression_step(old(filters).change_speed, dt, 800_000)),
            AppEvent::ChangePixelVerticalGap(filters.cur_pixel_scale_x.value),
        ));
    }
    let ghost ev1 = events@;
    let o2 = apply_param(
        &mut filters.cur_pixel_scale_y,
        input.pixel_scale_y.increase,
        input.pixel_scale_y.decrease,
        ov.pixel_horizontal_gap,
        gap_step,
        events,
    );
    if o2.changed {
        events.push(AppEvent::ChangePixelHorizontalGap(filters.cur_pixel_scale_y.value));
    }
    proof {
        assert(events@ =~= ev1 + spec_changer_events(
            old(filters).cur_pixel_scale_y,
            input.pixel_scale_y.increase,
            input.pixel_scale_y.decrease,
            ov.pixel_horizontal_gap,
            crate::camera::sat64(spec_progression_step(old(filters).change_speed, dt, 800_000)),
            AppEvent::ChangePixelHorizontalGap(filters.cur_pixel_scale_y.value),
        ));
    }
    let ghost ev2 = events@;
    let o3 = apply_param(
        &mut filters.cur_pixel_width,
        input.pixel_width.increase,
        input.pixel_width.decrease,
        ov.pixel_width,
        size_step,
        events,
    );
    if o3.changed {
        events.push(AppEvent::ChangePixelWidth(filters.cur_pixel_width.value));
    }
    proof {
        assert(events@ =~= ev2 + spec_changer_events(
            old(filters).cur_pixel_width,
            input.pixel_width.increase,
            input.pixel_width.decrease,
            ov.pixel_width,
            crate::camera::sat64(spec_progression_step(old(filters).change_speed, dt, 200_000)),
            AppEvent::ChangePixelWidth(filters.cur_pixel_width.value),
        ));
    }
    let ghost ev3 = events@;
    let o4 = apply_param(
        &mut filters.cur_pixel_gap,
        input.pixel_gap.increase,
        input.pixel_gap.decrease,
        ov.pixel_spread,
        size_step,
        events,
    );
    if o4.changed {
        events.push(AppEvent::ChangePixelSpread(filters.cur_pixel_gap.value));
    }
    proof {
        assert(events@ =~= ev3 + spec_changer_events(
            old(filters).cur_pixel_gap,
            input.pixel_gap.increase,
            input.pixel_gap.decrease,
            ov.pixel_spread,
            crate::camera::sat64(spec_progression_step(old(filters).change_speed, dt, 200_000)),
            AppEvent::ChangePixelSpread(filters.cur_pixel_gap.value),
        ));
    }
}

/// The filter parameter set after one non-reset tick: the edge-triggered
/// selections cycled, then the pixel-geometry scalars stepped.
pub open spec fn spec_crt_filters_next(
    f: CrtFilters,
    i: Input,
    ov: CustomOverrides,
    dt: u64,
) -> CrtFilters {
    spec_pixel_sizes_next(spec_selections_next(f, i), i, ov, dt)
}

/// The notifications one non-reset filter tick emits: the selection
/// messages, then the scalar notifications.
pub open spec fn spec_crt_filter_events(
    f: CrtFilters,
    i: Input,
    ov: CustomOverrides,
    dt: u64,
) -> Seq<AppEvent> {
    spec_selection_events(f, i) + spec_pixel_sizes_events(spec_selections_next(f, i), i, ov, dt)
}

/// One non-reset filter tick on the bare parameter set.
#[verifier::spinoff_prover]
#[verifier::rlimit(100)]
fn crt_filters_tick(
    f: &mut CrtFilters,
    dt: u64,
    input: &Input,
    ov: &CustomOverrides,
    events: &mut Vec<AppEvent>,
)
    requires
        old(f).wf(),
    ensures
        *final(f) == spec_crt_filters_next(*old(f), *input, *ov, dt),
        final(f).wf(),
        final(events)@ == old(events)@ + spec_crt_filter_events(*old(f), *input, *ov, dt),
{
    selections_tick(f, input, events);
    let ghost sel_f = *f;
    let ghost ev1 = events@;
    pixel_sizes_step(f, dt, input, ov, events);
    proof {
        let gap_step = crate::camera::sat64(
            spec_progression_step(sel_f.change_speed, dt, 800_000),
        );
        let size_step = crate::camera::sat64(
            spec_progression_step(sel_f.change_speed, dt, 200_000),
        );
        let s1 = spec_changer_events(
            sel_f.cur_pixel_scale_x,
            input.pixel_scale_x.increase,
            input.pixel_scale_x.decrease,
            ov.pixel_vertical_gap,
            gap_step,
            AppEvent::ChangePixelVerticalGap(f.cur_pixel_scale_x.value),
        );
        let s2 = spec_changer_events(
            sel_f.cur_pixel_scale_y,
            input.pixel_scale_y.increase,
            input.pixel_scale_y.decrease,
            ov.pixel_horizontal_gap,
            gap_step,
            AppEvent::ChangePixelHorizontalGap(f.cur_pixel_scale_y.value),
        );
        let s3 = spec_changer_events(
            sel_f.cur_pixel_width,
            input.pixel_width.increase,
            input.pixel_width.decrease,
            ov.pixel_width,
            size_step,
            AppEvent::ChangePixelWidth(f.cur_pixel_width.value),
        );
        let s4 = spec_changer_events(
            sel_f.cur_pixel_gap,
            input.pixel_gap.increase,
            input.pixel_gap.decrease,
            ov.pixel_spread,
            size_step,
            AppEvent::ChangePixelSpread(f.cur_pixel_gap.value),
        );
        assert(*f == spec_pixel_sizes_next(sel_f, *input, *ov, dt));
        assert(events@ == ev1 + s1 + s2 + s3 + s4);
        lemma_add4_assoc(ev1, s1, s2, s3, s4);
        assert(s1 + s2 + s3 + s4 == spec_pixel_sizes_events(sel_f, *input, *ov, dt));
        lemma_add2_assoc(
            old(events)@,
            spec_selection_events(*old(f), *input),
            spec_pixel_sizes_events(sel_f, *input, *ov, dt),
        );
        assert(events@ == old(events)@ + spec_crt_filter_events(*old(f), *input, *ov, dt));
    }
}

/// Apply one non-reset filter tick, or — on the reset input — restore
/// every filter default (keeping the source's pixel width), quote the
/// restored values back to the host and say so.
pub fn update_crt_filters(
    dt: u64,
    res: &mut Resources,
    input: &Input,
    ov: &CustomOverrides,
    events: &mut Vec<AppEvent>,
)
    requires
        old(res).wf(),
    ensures
        final(res).wf(),
        *final(res) == (Resources { crt_filters: final(res).crt_filters, ..*old(res) }),
        input.reset_filters ==> {
            &&& final(res).crt_filters == (CrtFilters {
                cur_pixel_width: crate::params::ParameterChanger {
                    value: old(res).initial_parameters.initial_pixel_width,
                    min: 0,
                    max: i64::MAX,
                },
                ..CrtFilters::spec_new(crate::resources::PIXEL_MANIPULATION_BASE_SPEED)
            })
            &&& final(events)@ == old(events)@ + spec_frontend_events(*final(res)).push(
                AppEvent::TopMessage(Msg::FiltersReset),
            )
        },
        !input.reset_filters ==> {
            &&& final(res).crt_filters == spec_crt_filters_next(
                old(res).crt_filters,
                *input,
                *ov,
                dt,
            )
            &&& final(events)@ == old(events)@ + spec_crt_filter_events(
                old(res).crt_filters,
                *input,
                *ov,
                dt,
            )
        },
{
    if input.reset_filters {
        let mut nf = CrtFilters::new(crate::resources::PIXEL_MANIPULATION_BASE_SPEED);
        nf.cur_pixel_width.value = res.initial_parameters.initial_pixel_width;
        res.crt_filters = nf;
        change_frontend_input_values(res, events);
        events.push(AppEvent::TopMessage(Msg::FiltersReset));
        return ;
    }
    crt_filters_tick(&mut res.crt_filters, dt, input, ov, events);
}

/// A speed after one doubling/halving tick: doubled below its cap,
/// halved above its floor.
pub open spec fn spec_speed_next(cur: i64, up: bool, down: bool) -> i64 {
    let s1: i64 = if up && cur < 10_000_000_000 {
        (cur * 2) as i64
    } else {
        cur
    };
    if down && s1 > 10_000 {
        (s1 as int / 2) as i64
    } else {
        s1
    }
}

/// A speed quoted against its base, rounded to thousandths.
pub open spec fn spec_ratio_milli(speed: i64, base: i64) -> int {
    (speed * 1000 + base as int / 2) / (base as int)
}

/// Which speed a step acts on; picks the message and event the step emits.
#[derive(Copy, Clone, PartialEq, Eq, Structural, Debug)]
pub enum SpeedKind {
    Pixel,
    Turning,
    Translation,
}

/// The message and change notification of one speed step, exactly when
/// the speed changed.
pub open spec fn spec_speed_events(
    kind: SpeedKind,
    cur: i64,
    up: bool,
    down: bool,
    base: i64,
) -> Seq<AppEvent> {
    let next = spec_speed_next(cur, up, down);
    if next != cur {
        let m = spec_ratio_milli(next, base) as u64;
        let p = spec_sat(spec_ratio_milli(next, base) * 1000) as i64;
        match kind {
            SpeedKind::Pixel => seq![
                AppEvent::TopMessage(Msg::PixelSpeed(m)),
                AppEvent::ChangePixelSpeed(p),
            ],
            SpeedKind::Turning => seq![
                AppEvent::TopMessage(Msg::TurningSpeed(m)),
                AppEvent::ChangeTurningSpeed(p),
            ],
            SpeedKind::Translation => seq![
                AppEvent::TopMessage(Msg::TranslationSpeed(m)),
                AppEvent::ChangeMovementSpeed(p),
            ],
        }
    } else {
        Seq::empty()
    }
}

/// One speed step: double or halve within bounds, and report the new
/// multiple of the base speed when it changed.
fn apply_speed(kind: SpeedKind, cur: i64, up: bool, down: bool, base: i64, events: &mut Vec<AppEvent>) -> (r: i64)
    requires
        1 <= cur <= 20_000_000_000,
        1 <= base <= 20_000_000_000,
    ensures
        r == spec_speed_next(cur, up, down),
        1 <= r <= 20_000_000_000,
        final(events)@ == old(events)@ + spec_speed_events(kind, cur, up, down, base),
{
    let mut next = cur;
    if up && next < 10_000_000_000 {
        next = next * 2;
    }
    if down && next > 10_000 {
        next = next / 2;
    }
    if next != cur {
        let milli_wide: i128 = (next as i128 * 1000 + base as i128 / 2) / base as i128;
        let milli: u64 = milli_wide as u64;
        let p_wide: i128 = milli_wide * 1000;
        let p: i64 = if p_wide > i64::MAX as i128 {
            i64::MAX
        } else {
            p_wide as i64
        };
        match kind {
            SpeedKind::Pixel => {
                events.push(AppEvent::TopMessage(Msg::PixelSpeed(milli)));
                events.push(AppEvent::ChangePixelSpeed(p));
            },
            SpeedKind::Turning => {
                events.push(AppEvent::TopMessage(Msg::TurningSpeed(milli)));
                events.push(AppEvent::ChangeTurningSpeed(p));
            },
            SpeedKind::Translation => {
                events.push(AppEvent::TopMessage(Msg::TranslationSpeed(milli)));
                events.push(AppEvent::ChangeMovementSpeed(p));
            },
        }
    }
    proof {
        assert(events@ =~= old(events)@ + spec_speed_events(kind, cur, up, down, base));
    }
    next
}

/// Progress the colour-noise scalar: no key drives it, so only an
/// injected override moves it, clamped to its unit range and reported
/// once when it changed.
pub fn update_color_noise(
    dt: u64,
    res: &mut Resources,
    ov: &CustomOverrides,
    events: &mut Vec<AppEvent>,
)
    requires
        old(res).crt_filters.wf(),
    ensures
        *final(res) == (Resources { crt_filters: final(res).crt_filters, ..*old(res) }),
        final(res).crt_filters == (CrtFilters {
            color_noise: final(res).crt_filters.color_noise,
            ..old(res).crt_filters
        }),
        final(res).crt_filters.wf(),
        final(res).crt_filters.color_noise == (crate::params::ParameterChanger {
            value: old(res).crt_filters.color_noise.spec_clamped(
                old(res).crt_filters.color_noise.spec_raw(
                    false,
                    false,
                    ov.color_noise,
                    spec_color_step(old(res).crt_filters.change_speed, dt),
                ),
            ) as i64,
            ..old(res).crt_filters.color_noise
        }),
        final(events)@ == old(events)@ + spec_changer_events(
            old(res).crt_filters.color_noise,
            false,
            false,
            ov.color_noise,
            spec_color_step(old(res).crt_filters.change_speed, dt),
            AppEvent::ChangeColorNoise(final(res).crt_filters.color_noise.value),
        ),
{
    let step = progression_step(res.crt_filters.change_speed, dt, 100_000);
    let outcome = apply_param(
        &mut res.crt_filters.color_noise,
        false,
        false,
        ov.color_noise,
        step,
        events,
    );
    if outcome.changed {
        events.push(AppEvent::ChangeColorNoise(res.crt_filters.color_noise.value));
    }
    proof {
        assert(events@ =~= old(events)@ + spec_changer_events(
            old(res).crt_filters.color_noise,
            false,
            false,
            ov.color_noise,
            spec_color_step(old(res).crt_filters.change_speed, dt),
            AppEvent::ChangeColorNoise(res.crt_filters.color_noise.value),
        ));
    }
}

/// The one speed group this tick's modifier keys select: with alt held no
/// speed changes at all, with shift the filter-change speed, with neither
/// the two camera speeds together.
pub open spec fn spec_pixel_speed_selected(i: Input) -> bool {
    !i.alt && i.shift
}

pub open spec fn spec_camera_speeds_selected(i: Input) -> bool {
    !i.alt && !i.shift
}

/// The notifications of this tick's speed steps, in the order the speeds
/// are visited: nothing under alt, the filter-change step under shift,
/// the turning and translation steps under neither.
pub open spec fn spec_speed_step_events(res: Resources, i: Input) -> Seq<AppEvent> {
    if spec_pixel_speed_selected(i) {
        spec_speed_events(
            SpeedKind::Pixel,
            res.crt_filters.change_speed,
            i.filter_speed.increase.spec_just_pressed(),
            i.filter_speed.decrease.spec_just_pressed(),
            crate::resources::PIXEL_MANIPULATION_BASE_SPEED,
        )
    } else if spec_camera_speeds_selected(i) {
        spec_speed_events(
            SpeedKind::Turning,
            res.camera.turning_speed,
            i.translation_speed.increase.spec_just_pressed(),
            i.translation_speed.decrease.spec_just_pressed(),
            crate::resources::TURNING_BASE_SPEED,
        ) + spec_speed_events(
            SpeedKind::Translation,
            res.camera.movement_speed,
            i.translation_speed.increase.spec_just_pressed(),
            i.translation_speed.decrease.spec_just_pressed(),
            res.initial_parameters.initial_movement_speed,
        )
    } else {
        Seq::empty()
    }
}

/// The notifications one whole speed tick emits: the selected group's
/// steps, then — on the reset input — the reset notice and the whole
/// parameter set quoted back.
pub open spec fn spec_speeds_events(res: Resources, i: Input, next: Resources) -> Seq<
    AppEvent,
> {
    spec_speed_step_events(res, i) + (if i.reset_speeds {
        seq![AppEvent::TopMessage(Msg::SpeedsReset)] + spec_frontend_events(next)
    } else {
        Seq::empty()
    })
}

/// The three speeds after one tick: the modifier keys select exactly one
/// group to double or halve (none under alt), and the reset input then
/// restores all three.
pub open spec fn spec_speeds_next(res: Resources, i: Input) -> Resources {
    let change = if i.reset_speeds {
        crate::resources::PIXEL_MANIPULATION_BASE_SPEED
    } else if spec_pixel_speed_selected(i) {
        spec_speed_next(
            res.crt_filters.change_speed,
            i.filter_speed.increase.spec_just_pressed(),
            i.filter_speed.decrease.spec_just_pressed(),
        )
    } else {
        res.crt_filters.change_speed
    };
    let turning = if i.reset_speeds {
        crate::resources::TURNING_BASE_SPEED
    } else if spec_camera_speeds_selected(i) {
        spec_speed_next(
            res.camera.turning_speed,
            i.translation_speed.increase.spec_just_pressed(),
            i.translation_speed.decrease.spec_just_pressed(),
        )
    } else {
        res.camera.turning_speed
    };
    let movement = if i.reset_speeds {
        res.initial_parameters.initial_movement_speed
    } else if spec_camera_speeds_selected(i) {
        spec_speed_next(
            res.camera.movement_speed,
            i.translation_speed.increase.spec_just_pressed(),
            i.translation_speed.decrease.spec_just_pressed(),
        )
    } else {
        res.camera.movement_speed
    };
    Resources {
        crt_filters: CrtFilters { change_speed: change, ..res.crt_filters },
        camera: Camera { turning_speed: turning, movement_speed: movement, ..res.camera },
        ..res
    }
}

/// Double or halve the one speed group the modifier keys select — the
/// filter-change speed under shift, the two camera speeds under neither,
/// none under alt — each quoted against its base; the reset input then
/// restores all three and quotes the whole parameter set back.
#[verifier::spinoff_prover]
#[verifier::rlimit(100)]
pub fn update_speeds(res: &mut Resources, input: &Input, events: &mut Vec<AppEvent>)
    requires
        old(res).wf(),
    ensures
        final(res).wf(),
        *final(res) == spec_speeds_next(*old(res), *input),
        final(events)@ == old(events)@ + spec_speeds_events(*old(res), *input, *final(res)),
{
    if !input.alt && input.shift {
        let new_change = apply_speed(
            SpeedKind::Pixel,
            res.crt_filters.change_speed,
            input.filter_speed.increase.is_just_pressed(),
            input.filter_speed.decrease.is_just_pressed(),
            crate::resources::PIXEL_MANIPULATION_BASE_SPEED,
            events,
        );
        res.crt_filters.change_speed = new_change;
    } else if !input.alt && !input.shift {
        let new_turning = apply_speed(
            SpeedKind::Turning,
            res.camera.turning_speed,
            input.translation_speed.increase.is_just_pressed(),
            input.translation_speed.decrease.is_just_pressed(),
            crate::resources::TURNING_BASE_SPEED,
            events,
        );
        res.camera.turning_speed = new_turning;
        let new_movement = apply_speed(
            SpeedKind::Translation,
            res.camera.movement_speed,
            input.translation_speed.increase.is_just_pressed(),
            input.translation_speed.decrease.is_just_pressed(),
            res.initial_parameters.initial_movement_speed,
            events,
        );
        res.camera.movement_speed = new_movement;
    }
    let ghost ev_steps = events@;
    proof {
        assert(ev_steps =~= old(events)@ + spec_speed_step_events(*old(res), *input));
    }
    if input.reset_speeds {
        res.camera.turning_speed = crate::resources::TURNING_BASE_SPEED;
        res.camera.movement_speed = res.initial_parameters.initial_movement_speed;
        res.crt_filters.change_speed = crate::resources::PIXEL_MANIPULATION_BASE_SPEED;
        events.push(AppEvent::TopMessage(Msg::SpeedsReset));
        change_frontend_input_values(res, events);
        proof {
            assert(events@ =~= ev_steps + (seq![AppEvent::TopMessage(Msg::SpeedsReset)]
                + spec_frontend_events(*res)));
        }
    } else {
        proof {
            assert(events@ =~= ev_steps + Seq::<AppEvent>::empty());
        }
    }
    proof {
        assert(*res == spec_speeds_next(*old(res), *input));
        assert(events@ =~= old(events)@ + spec_speeds_events(*old(res), *input, *res));
    }
}

/// One conditional translation step.
pub open spec fn spec_step_advance(c: Camera, cond: bool, dir: CameraDirection, dt: u64) -> Camera {
    if cond {
        Camera { position: c.spec_advanced(dir, dt), ..c }
    } else {
        c
    }
}

/// One conditional turning step.
pub open spec fn spec_step_turn(c: Camera, cond: bool, dir: CameraDirection, dt: u64) -> Camera {
    if cond {
        Camera { direction: c.spec_turned(dir, dt), ..c }
    } else {
        c
    }
}

/// One conditional roll step.
pub open spec fn spec_step_rotate(c: Camera, cond: bool, dir: CameraDirection, dt: u64) -> Camera {
    if cond {
        Camera { axis_up: c.spec_rotated(dir, dt), ..c }
    } else {
        c
    }
}

/// The camera after the held translation, turning and rolling inputs of
/// one tick, applied in a fixed order.
pub open spec fn spec_camera_moved(c: Camera, i: Input, dt: u64) -> Camera {
    spec_step_rotate(
        spec_step_rotate(
            spec_step_turn(
                spec_step_turn(
                    spec_step_turn(
                        spec_step_turn(
                            spec_step_advance(
                                spec_step_advance(
                                    spec_step_advance(
                                        spec_step_advance(
                                            spec_step_advance(
                                                spec_step_advance(
                                                    c,
                                                    i.walk_left,
                                                    CameraDirection::Left,
                                                    dt,
                                                ),
                                                i.walk_right,
                                                CameraDirection::Right,
                                                dt,
                                            ),
                                            i.walk_up,
                                            CameraDirection::Up,
                                            dt,
                                        ),
                                        i.walk_down,
                                        CameraDirection::Down,
                                        dt,
                                    ),
                                    i.walk_forward,
                                    CameraDirection::Forward,
                                    dt,
                                ),
                                i.walk_backward,
                                CameraDirection::Backward,
                                dt,
                            ),
                            i.turn_left,
                            CameraDirection::Left,
                            dt,
                        ),
                        i.turn_right,
                        CameraDirection::Right,
                        dt,
                    ),
                    i.turn_up,
                    CameraDirection::Up,
                    dt,
                ),
                i.turn_down,
                CameraDirection::Down,
                dt,
            ),
            !i.input_focused && i.rotate_left,
            CameraDirection::Left,
            dt,
        ),
        !i.input_focused && i.rotate_right,
        CameraDirection::Right,
        dt,
    )
}

/// The zoom delta one tick applies, in micro-degrees: the held zoom keys
/// scaled by `dt`, else the scroll delta; zooming in shrinks the angle.
pub open spec fn spec_zoom_delta(i: Input, dt: u64) -> Option<i64> {
    if i.camera_zoom.increase {
        Some(sat_neg64(crate::camera::sat64(spec_progression_step(100_000_000, dt, 1000))))
    } else if i.camera_zoom.decrease {
        Some(crate::camera::sat64(spec_progression_step(100_000_000, dt, 1000)))
    } else if i.mouse_scroll_y != 0 {
        Some(i.mouse_scroll_y)
    } else {
        None
    }
}

/// A zoom angle forced into the valid visual range.
pub open spec fn spec_clamped_zoom(v: i64) -> i64 {
    if v < ZOOM_MIN {
        ZOOM_MIN
    } else if v > ZOOM_MAX {
        ZOOM_MAX
    } else {
        v
    }
}

/// `cur` unless an override carries a value.
pub open spec fn spec_or_override(cur: i64, o: Option<i64>) -> i64 {
    match o {
        Some(v) => v,
        None => cur,
    }
}

/// The camera after the tick's injected overrides: the zoom (clamped) and
/// each pose component independently settable.
pub open spec fn spec_camera_overridden(c: Camera, ov: CustomOverrides) -> Camera {
    Camera {
        zoom: match ov.camera_zoom {
            Some(v) => spec_clamped_zoom(v),
            None => c.zoom,
        },
        position: Vec3 {
            x: spec_or_override(c.position.x, ov.camera_pos_x),
            y: spec_or_override(c.position.y, ov.camera_pos_y),
            z: spec_or_override(c.position.z, ov.camera_pos_z),
        },
        axis_up: Vec3 {
            x: spec_or_override(c.axis_up.x, ov.camera_axis_up_x),
            y: spec_or_override(c.axis_up.y, ov.camera_axis_up_y),
            z: spec_or_override(c.axis_up.z, ov.camera_axis_up_z),
        },
        direction: Vec3 {
            x: spec_or_override(c.direction.x, ov.camera_direction_x),
            y: spec_or_override(c.direction.y, ov.camera_direction_y),
            z: spec_or_override(c.direction.z, ov.camera_direction_z),
        },
        ..c
    }
}

/// The initial far-away pose a camera reset restores.
pub open spec fn spec_camera_reset(c: Camera, initial_z: i64) -> Camera {
    Camera {
        position: Vec3 { x: 0, y: 0, z: initial_z },
        direction: Vec3 { x: 0, y: 0, z: -1_000_000i64 },
        axis_up: Vec3 { x: 0, y: 1_000_000, z: 0 },
        zoom: ZOOM_DEFAULT,
        ..c
    }
}

/// One conditional mouse-drag step: the direction follows the mouse while
/// the click is held (but not on the press edge itself).
pub open spec fn spec_step_drag(c: Camera, i: Input) -> Camera {
    if !i.mouse_click.spec_just_pressed() && i.mouse_click.current {
        Camera { direction: c.spec_dragged(i.mouse_position_x, i.mouse_position_y), ..c }
    } else {
        c
    }
}

/// One conditional zoom step.
pub open spec fn spec_step_zoom(c: Camera, i: Input, dt: u64) -> Camera {
    match spec_zoom_delta(i, dt) {
        Some(d) => Camera { zoom: c.spec_zoomed(d), ..c },
        None => c,
    }
}

/// One conditional reset step.
pub open spec fn spec_step_reset(c: Camera, i: Input, initial_z: i64) -> Camera {
    if i.reset_position {
        spec_camera_reset(c, initial_z)
    } else {
        c
    }
}

/// The camera after one whole tick: held moves, a mouse drag while the
/// click is held, the zoom step, the injected overrides, and the reset.
pub open spec fn spec_camera_next(c: Camera, i: Input, ov: CustomOverrides, dt: u64, initial_z: i64) -> Camera {
    spec_step_reset(
        spec_camera_overridden(spec_step_zoom(spec_step_drag(spec_camera_moved(c, i, dt), i), i, dt), ov),
        i,
        initial_z,
    )
}

/// The pointer-lock request or release on the click edges.
pub open spec fn spec_pointer_events(i: Input) -> Seq<AppEvent> {
    if i.mouse_click.spec_just_pressed() {
        seq![AppEvent::RequestPointerLock]
    } else if i.mouse_click.spec_just_released() {
        seq![AppEvent::ExitPointerLock]
    } else {
        Seq::empty()
    }
}

/// The zoom boundary notification when a bound cut the zoom step applied
/// to a camera whose zoom is `z`.
pub open spec fn spec_zoom_events(z: i64, i: Input, dt: u64) -> Seq<AppEvent> {
    match spec_zoom_delta(i, dt) {
        Some(d) => if z + d < ZOOM_MIN {
            seq![AppEvent::MinimumValue(ZOOM_MIN)]
        } else if z + d > ZOOM_MAX {
            seq![AppEvent::MaximumValue(ZOOM_MAX)]
        } else {
            Seq::empty()
        },
        None => Seq::empty(),
    }
}

/// The reset notice: the restored zoom and the message.
pub open spec fn spec_reset_events(i: Input) -> Seq<AppEvent> {
    if i.reset_position {
        seq![
            AppEvent::ChangeCameraZoom(ZOOM_DEFAULT),
            AppEvent::TopMessage(Msg::CameraReset),
        ]
    } else {
        Seq::empty()
    }
}

/// The notifications one camera tick emits, in order: the pointer-lock
/// edge, the zoom boundary, the reset notice, and the settled pose.
pub open spec fn spec_camera_events(c: Camera, i: Input, ov: CustomOverrides, dt: u64, initial_z: i64) -> Seq<AppEvent> {
    let nc = spec_camera_next(c, i, ov, dt, initial_z);
    spec_pointer_events(i) + spec_zoom_events(c.zoom, i, dt) + spec_reset_events(i) + seq![
        AppEvent::CameraUpdate(nc.position, nc.direction, nc.axis_up),
    ]
}

/// The held translation, turning and rolling inputs of one tick.
#[verifier::spinoff_prover]
#[verifier::rlimit(100)]
fn camera_moves(cam: &mut Camera, input: &Input, dt: u64)
    requires
        old(cam).wf(),
    ensures
        *final(cam) == spec_camera_moved(*old(cam), *input, dt),
        final(cam).wf(),
        final(cam).zoom == old(cam).zoom,
{
    let ghost g0 = *cam;
    if input.walk_left {
        cam.advance(CameraDirection::Left, dt);
    }
    let ghost g1 = *cam;
    proof {
        assert(g1 == spec_step_advance(g0, input.walk_left, CameraDirection::Left, dt));
    }
    if input.walk_right {
        cam.advance(CameraDirection::Right, dt);
    }
    let ghost g2 = *cam;
    proof {
        assert(g2 == spec_step_advance(g1, input.walk_right, CameraDirection::Right, dt));
    }
    if input.walk_up {
        cam.advance(CameraDirection::Up, dt);
    }
    let ghost g3 = *cam;
    proof {
        assert(g3 == spec_step_advance(g2, input.walk_up, CameraDirection::Up, dt));
    }
    if input.walk_down {
        cam.advance(CameraDirection::Down, dt);
    }
    let ghost g4 = *cam;
    proof {
        assert(g4 == spec_step_advance(g3, input.walk_down, CameraDirection::Down, dt));
    }
    if input.walk_forward {
        cam.advance(CameraDirection::Forward, dt);
    }
    let ghost g5 = *cam;
    proof {
        assert(g5 == spec_step_advance(g4, input.walk_forward, CameraDirection::Forward, dt));
    }
    if input.walk_backward {
        cam.advance(CameraDirection::Backward, dt);
    }
    let ghost g6 = *cam;
    proof {
        assert(g6 == spec_step_advance(g5, input.walk_backward, CameraDirection::Backward, dt));
    }
    if input.turn_left {
        cam.turn(CameraDirection::Left, dt);
    }
    let ghost g7 = *cam;
    proof {
        assert(g7 == spec_step_turn(g6, input.turn_left, CameraDirection::Left, dt));
    }
    if input.turn_right {
        cam.turn(CameraDirection::Right, dt);
    }
    let ghost g8 = *cam;
    proof {
        assert(g8 == spec_step_turn(g7, input.turn_right, CameraDirection::Right, dt));
    }
    if input.turn_up {
        cam.turn(CameraDirection::Up, dt);
    }
    let ghost g9 = *cam;
    proof {
        assert(g9 == spec_step_turn(g8, input.turn_up, CameraDirection::Up, dt));
    }
    if input.turn_down {
        cam.turn(CameraDirection::Down, dt);
    }
    let ghost g10 = *cam;
    proof {
        assert(g10 == spec_step_turn(g9, input.turn_down, CameraDirection::Down, dt));
    }
    if !input.input_focused && input.rotate_left {
        cam.rotate(CameraDirection::Left, dt);
    }
    let ghost g11 = *cam;
    proof {
        assert(g11 == spec_step_rotate(
            g10,
            !input.input_focused && input.rotate_left,
            CameraDirection::Left,
            dt,
        ));
    }
    if !input.input_focused && input.rotate_right {
        cam.rotate(CameraDirection::Right, dt);
    }
    proof {
        assert(*cam == spec_step_rotate(
            g11,
            !input.input_focused && input.rotate_right,
            CameraDirection::Right,
            dt,
        ));
        assert(*cam == spec_camera_moved(*old(cam), *input, dt));
    }
}

/// The pose overrides of one tick.
fn camera_overrides(cam: &mut Camera, ov: &CustomOverrides)
    requires
        old(cam).wf(),
    ensures
        *final(cam) == spec_camera_overridden(*old(cam), *ov),
        final(cam).wf(),
{
    match ov.camera_zoom {
        Some(v) => {
            cam.zoom = if v < ZOOM_MIN {
                ZOOM_MIN
            } else if v > ZOOM_MAX {
                ZOOM_MAX
            } else {
                v
            };
        },
        None => {},
    }
    let mut p = cam.get_position();
    match ov.camera_pos_x {
        Some(v) => { p.x = v; },
        None => {},
    }
    match ov.camera_pos_y {
        Some(v) => { p.y = v; },
        None => {},
    }
    match ov.camera_pos_z {
        Some(v) => { p.z = v; },
        None => {},
    }
    cam.set_position(p);
    let mut u = cam.get_axis_up();
    match ov.camera_axis_up_x {
        Some(v) => { u.x = v; },
        None => {},
    }
    match ov.camera_axis_up_y {
        Some(v) => { u.y = v; },
        None => {},
    }
    match ov.camera_axis_up_z {
        Some(v) => { u.z = v; },
        None => {},
    }
    cam.set_axis_up(u);
    let mut d = cam.get_direction();
    match ov.camera_direction_x {
        Some(v) => { d.x = v; },
        None => {},
    }
    match ov.camera_direction_y {
        Some(v) => { d.y = v; },
        None => {},
    }
    match ov.camera_direction_z {
        Some(v) => { d.z = v; },
        None => {},
    }
    cam.set_direction(d);
}

/// The mouse phase of one camera tick: the pointer-lock edges and the
/// drag while the click is held.
fn pointer_phase(cam: &mut Camera, input: &Input, events: &mut Vec<AppEvent>)
    requires
        old(cam).wf(),
    ensures
        *final(cam) == spec_step_drag(*old(cam), *input),
        final(cam).wf(),
        final(cam).zoom == old(cam).zoom,
        final(events)@ == old(events)@ + spec_pointer_events(*input),
{
    if input.mouse_click.is_just_pressed() {
        events.push(AppEvent::RequestPointerLock);
    } else if input.mouse_click.is_activated() {
        cam.drag(input.mouse_position_x, input.mouse_position_y);
    } else if input.mouse_click.is_just_released() {
        events.push(AppEvent::ExitPointerLock);
    }
    proof {
        assert(events@ =~= old(events)@ + spec_pointer_events(*input));
    }
}

/// The zoom phase of one camera tick.
fn zoom_phase(cam: &mut Camera, input: &Input, dt: u64, events: &mut Vec<AppEvent>)
    requires
        old(cam).wf(),
    ensures
        *final(cam) == spec_step_zoom(*old(cam), *input, dt),
        final(cam).wf(),
        final(events)@ == old(events)@ + spec_zoom_events(old(cam).zoom, *input, dt),
{
    if input.camera_zoom.increase {
        let step = progression_step(100_000_000, dt, 1000);
        cam.change_zoom(crate::camera::neg64(step), events);
    } else if input.camera_zoom.decrease {
        let step = progression_step(100_000_000, dt, 1000);
        cam.change_zoom(step, events);
    } else if input.mouse_scroll_y != 0 {
        cam.change_zoom(input.mouse_scroll_y, events);
    }
    proof {
        assert(events@ =~= old(events)@ + spec_zoom_events(old(cam).zoom, *input, dt));
    }
}

/// The reset phase of one camera tick: restore the initial far-away pose.
fn reset_phase(cam: &mut Camera, input: &Input, initial_z: i64, events: &mut Vec<AppEvent>)
    requires
        old(cam).wf(),
    ensures
        *final(cam) == spec_step_reset(*old(cam), *input, initial_z),
        final(cam).wf(),
        final(events)@ == old(events)@ + spec_reset_events(*input),
{
    if input.reset_position {
        cam.set_position(Vec3 { x: 0, y: 0, z: initial_z });
        cam.set_direction(Vec3 { x: 0, y: 0, z: -1_000_000 });
        cam.set_axis_up(Vec3 { x: 0, y: 1_000_000, z: 0 });
        cam.zoom = ZOOM_DEFAULT;
        events.push(AppEvent::ChangeCameraZoom(ZOOM_DEFAULT));
        events.push(AppEvent::TopMessage(Msg::CameraReset));
    }
    proof {
        assert(events@ =~= old(events)@ + spec_reset_events(*input));
    }
}

/// One camera tick on the bare camera.
#[verifier::spinoff_prover]
#[verifier::rlimit(100)]
fn camera_tick(
    cam: &mut Camera,
    input: &Input,
    ov: &CustomOverrides,
    dt: u64,
    initial_z: i64,
    events: &mut Vec<AppEvent>,
)
    requires
        old(cam).wf(),
    ensures
        *final(cam) == spec_camera_next(*old(cam), *input, *ov, dt, initial_z),
        final(cam).wf(),
        final(events)@ == old(events)@ + spec_camera_events(*old(cam), *input, *ov, dt, initial_z),
{
    camera_moves(cam, input, dt);
    pointer_phase(cam, input, events);
    let ghost ev1 = events@;
    let ghost gd = *cam;
    zoom_phase(cam, input, dt, events);
    let ghost ev2 = events@;
    camera_overrides(cam, ov);
    reset_phase(cam, input, initial_z, events);
    let ghost ev3 = events@;
    cam.update_view(events);
    proof {
        assert(gd.zoom == old(cam).zoom);
        assert(*cam == spec_camera_next(*old(cam), *input, *ov, dt, initial_z));
        lemma_add4_assoc(
            old(events)@,
            spec_pointer_events(*input),
            spec_zoom_events(old(cam).zoom, *input, dt),
            spec_reset_events(*input),
            seq![AppEvent::CameraUpdate(cam.position, cam.direction, cam.axis_up)],
        );
        assert(events@ == old(events)@ + spec_camera_events(*old(cam), *input, *ov, dt, initial_z));
    }
}

/// Move, drag, zoom, override and possibly reset the camera, then report
/// its settled pose.
pub fn update_camera(
    dt: u64,
    res: &mut Resources,
    input: &Input,
    ov: &CustomOverrides,
    events: &mut Vec<AppEvent>,
)
    requires
        old(res).wf(),
    ensures
        final(res).wf(),
        *final(res) == (Resources { camera: final(res).camera, ..*old(res) }),
        final(res).camera == spec_camera_next(
            old(res).camera,
            *input,
            *ov,
            dt,
            old(res).initial_parameters.initial_position_z,
        ),
        final(events)@ == old(events)@ + spec_camera_events(
            old(res).camera,
            *input,
            *ov,
            dt,
            old(res).initial_parameters.initial_position_z,
        ),
{
    camera_tick(
        &mut res.camera,
        input,
        ov,
        dt,
        res.initial_parameters.initial_position_z,
        events,
    );
}

/// The input after its per-tick sampling: every edge tracker shifted once.
pub open spec fn spec_pre_processed(i: Input) -> Input {
    Input {
        toggle_pixels_shadow_kind: crate::input::spec_tracked(i.toggle_pixels_shadow_kind),
        mouse_click: crate::input::spec_tracked(i.mouse_click),
        next_color_representation_kind: crate::input::spec_tracked(
            i.next_color_representation_kind,
        ),
        next_pixel_geometry_kind: crate::input::spec_tracked(i.next_pixel_geometry_kind),
        next_layering_kind: crate::input::spec_tracked(i.next_layering_kind),
        next_screen_curvature_type: crate::input::spec_tracked(i.next_screen_curvature_type),
        showing_pixels_pulse: crate::input::spec_tracked(i.showing_pixels_pulse),
        esc: crate::input::spec_tracked(i.esc),
        space: crate::input::spec_tracked(i.space),
        screenshot: crate::input::spec_tracked(i.screenshot),
        blur: crate::input::IncDecButtons {
            increase: crate::input::spec_tracked(i.blur.increase),
            decrease: crate::input::spec_tracked(i.blur.decrease),
        },
        lpp: crate::input::IncDecButtons {
            increase: crate::input::spec_tracked(i.lpp.increase),
            decrease: crate::input::spec_tracked(i.lpp.decrease),
        },
        filter_speed: crate::input::IncDecButtons {
            increase: crate::input::spec_tracked(i.filter_speed.increase),
            decrease: crate::input::spec_tracked(i.filter_speed.decrease),
        },
        translation_speed: crate::input::IncDecButtons {
            increase: crate::input::spec_tracked(i.translation_speed.increase),
            decrease: crate::input::spec_tracked(i.translation_speed.decrease),
        },
        ..i
    }
}

/// Sample every edge-tracked button once; must run exactly once per tick
/// before any derived predicate is read.
pub fn pre_process_input(input: &mut Input)
    ensures
        *final(input) == spec_pre_processed(*old(input)),
{
    input.toggle_pixels_shadow_kind.track_input();
    input.mouse_click.track_input();
    input.next_color_representation_kind.track_input();
    input.next_pixel_geometry_kind.track_input();
    input.next_layering_kind.track_input();
    input.next_screen_curvature_type.track_input();
    input.showing_pixels_pulse.track_input();
    input.esc.track_input();
    input.space.track_input();
    input.screenshot.track_input();
    input.blur.increase.track_input();
    input.blur.decrease.track_input();
    input.lpp.increase.track_input();
    input.lpp.decrease.track_input();
    input.filter_speed.increase.track_input();
    input.filter_speed.decrease.track_input();
    input.translation_speed.increase.track_input();
    input.translation_speed.decrease.track_input();
}

/// Reset the transient inputs a tick consumes: the scroll delta, the
/// mouse delta and the injected event's kind.
pub fn post_process_input(input: &mut Input)
    ensures
        *final(input) == (Input {
            mouse_scroll_y: 0,
            mouse_position_x: 0,
            mouse_position_y: 0,
            custom_event: final(input).custom_event,
            ..*old(input)
        }),
        final(input).custom_event.kind@ == Seq::<char>::empty(),
        final(input).custom_event.value == old(input).custom_event.value,
{
    input.mouse_scroll_y = 0;
    input.mouse_position_x = 0;
    input.mouse_position_y = 0;
    input.custom_event.kind = String::new();
}

/// The overrides a tick's event decodes to, as a value the contracts can
/// name: each field carries the event's number exactly when the event is
/// of that field's kind.
pub open spec fn spec_overrides_of(e: crate::input::CustomEvent) -> CustomOverrides {
    CustomOverrides {
        pixel_brightness: crate::overrides::spec_payload_for(e, "event_kind:pixel_brightness"@),
        pixel_contrast: crate::overrides::spec_payload_for(e, "event_kind:pixel_contrast"@),
        light_color: crate::overrides::spec_payload_for(e, "event_kind:light_color"@),
        brightness_color: crate::overrides::spec_payload_for(e, "event_kind:brightness_color"@),
        background_color: crate::overrides::spec_payload_for(e, "event_kind:background_color"@),
        blur_level: crate::overrides::spec_payload_for(e, "event_kind:blur_level"@),
        lines_per_pixel: crate::overrides::spec_payload_for(e, "event_kind:lines_per_pixel"@),
        pixel_vertical_gap: crate::overrides::spec_payload_for(
            e,
            "event_kind:pixel_vertical_gap"@,
        ),
        pixel_horizontal_gap: crate::overrides::spec_payload_for(
            e,
            "event_kind:pixel_horizontal_gap"@,
        ),
        pixel_width: crate::overrides::spec_payload_for(e, "event_kind:pixel_width"@),
        pixel_spread: crate::overrides::spec_payload_for(e, "event_kind:pixel_spread"@),
        color_noise: crate::overrides::spec_payload_for(e, "event_kind:color_noise"@),
        camera_zoom: crate::overrides::spec_payload_for(e, "event_kind:camera_zoom"@),
        camera_pos_x: crate::overrides::spec_payload_for(e, "event_kind:camera_pos_x"@),
        camera_pos_y: crate::overrides::spec_payload_for(e, "event_kind:camera_pos_y"@),
        camera_pos_z: crate::overrides::spec_payload_for(e, "event_kind:camera_pos_z"@),
        camera_axis_up_x: crate::overrides::spec_payload_for(e, "event_kind:camera_axis_up_x"@),
        camera_axis_up_y: crate::overrides::spec_payload_for(e, "event_kind:camera_axis_up_y"@),
        camera_axis_up_z: crate::overrides::spec_payload_for(e, "event_kind:camera_axis_up_z"@),
        camera_direction_x: crate::overrides::spec_payload_for(
            e,
            "event_kind:camera_direction_x"@,
        ),
        camera_direction_y: crate::overrides::spec_payload_for(
            e,
            "event_kind:camera_direction_y"@,
        ),
        camera_direction_z: crate::overrides::spec_payload_for(
            e,
            "event_kind:camera_direction_z"@,
        ),
    }
}

/// The tick length this tick works with.
pub open spec fn spec_tick_dt(res: Resources, i: Input) -> u64 {
    spec_dt_ms(res.timers.last_time, i.now)
}

/// The state after the timer step.
pub open spec fn spec_timers_step(res: Resources, now: u64) -> Resources {
    Resources {
        timers: crate::resources::SimulationTimers {
            frame_count: if spec_second_elapsed(res.timers.last_second, now) {
                0u32
            } else if res.timers.frame_count < u32::MAX {
                (res.timers.frame_count + 1) as u32
            } else {
                res.timers.frame_count
            },
            last_time: now,
            last_second: if spec_second_elapsed(res.timers.last_second, now) {
                now
            } else {
                res.timers.last_second
            },
        },
        ..res
    }
}

pub open spec fn spec_timers_events(res: Resources, now: u64) -> Seq<AppEvent> {
    if spec_second_elapsed(res.timers.last_second, now) {
        seq![AppEvent::Fps(res.timers.frame_count)]
    } else {
        Seq::empty()
    }
}

/// The state after the animation step.
pub open spec fn spec_animation_step(res: Resources, now: u64) -> Resources {
    Resources {
        animation: if now >= spec_next_frame_update(res.animation) {
            AnimationData {
                last_frame_change: spec_next_frame_update(res.animation),
                current_frame: spec_next_frame(res.animation),
                needs_buffer_data_load: spec_next_frame(res.animation)
                    != res.animation.current_frame,
                ..res.animation
            }
        } else {
            AnimationData { needs_buffer_data_load: false, ..res.animation }
        },
        ..res
    }
}

/// The state after the colour step.
pub open spec fn spec_colors_step(res: Resources, i: Input, ov: CustomOverrides, dt: u64) -> Resources {
    Resources {
        crt_filters: CrtFilters {
            extra_bright: crate::params::ParameterChanger {
                value: spec_stepped_value(
                    res.crt_filters.extra_bright,
                    i.bright.increase,
                    i.bright.decrease,
                    ov.pixel_brightness,
                    spec_color_step(res.crt_filters.change_speed, dt),
                ),
                ..res.crt_filters.extra_bright
            },
            extra_contrast: crate::params::ParameterChanger {
                value: spec_stepped_value(
                    res.crt_filters.extra_contrast,
                    i.contrast.increase,
                    i.contrast.decrease,
                    ov.pixel_contrast,
                    spec_color_step(res.crt_filters.change_speed, dt),
                ),
                ..res.crt_filters.extra_contrast
            },
            light_color: spec_color_after(res.crt_filters.light_color, ov.light_color),
            brightness_color: spec_color_after(
                res.crt_filters.brightness_color,
                ov.brightness_color,
            ),
            background_color: spec_color_after(
                res.crt_filters.background_color,
                ov.background_color,
            ),
            ..res.crt_filters
        },
        ..res
    }
}

pub open spec fn spec_colors_events(f: CrtFilters, i: Input, ov: CustomOverrides, dt: u64) -> Seq<AppEvent> {
    spec_changer_events(
        f.extra_bright,
        i.bright.increase,
        i.bright.decrease,
        ov.pixel_brightness,
        spec_color_step(f.change_speed, dt),
        AppEvent::ChangePixelBrightness(
            spec_stepped_value(
                f.extra_bright,
                i.bright.increase,
                i.bright.decrease,
                ov.pixel_brightness,
                spec_color_step(f.change_speed, dt),
            ),
        ),
    ) + spec_changer_events(
        f.extra_contrast,
        i.contrast.increase,
        i.contrast.decrease,
        ov.pixel_contrast,
        spec_color_step(f.change_speed, dt),
        AppEvent::ChangePixelContrast(
            spec_stepped_value(
                f.extra_contrast,
                i.contrast.increase,
                i.contrast.decrease,
                ov.pixel_contrast,
                spec_color_step(f.change_speed, dt),
            ),
        ),
    ) + spec_color_override_events(f.light_color, ov.light_color)
        + spec_color_override_events(f.brightness_color, ov.brightness_color)
        + spec_color_override_events(f.background_color, ov.background_color)
}

/// The state after the blur step.
pub open spec fn spec_blur_step(res: Resources, i: Input, ov: CustomOverrides) -> Resources {
    Resources {
        crt_filters: CrtFilters {
            blur_passes: spec_blur_value(
                res.crt_filters.blur_passes,
                i.blur.increase.spec_just_pressed(),
                i.blur.decrease.spec_just_pressed(),
                spec_decoded_count(ov.blur_level),
            ),
            ..res.crt_filters
        },
        ..res
    }
}

pub open spec fn spec_blur_step_events(res: Resources, i: Input, ov: CustomOverrides) -> Seq<AppEvent> {
    spec_blur_events(
        res.crt_filters.blur_passes,
        i.blur.increase.spec_just_pressed(),
        i.blur.decrease.spec_just_pressed(),
        spec_decoded_count(ov.blur_level),
    )
}

/// The state after the lines-per-pixel step.
pub open spec fn spec_lpp_step(res: Resources, i: Input, ov: CustomOverrides) -> Resources {
    Resources {
        crt_filters: CrtFilters {
            lines_per_pixel: spec_lpp_value(
                res.crt_filters.lines_per_pixel,
                i.lpp.increase.spec_just_pressed(),
                i.lpp.decrease.spec_just_pressed(),
                spec_decoded_count(ov.lines_per_pixel),
            ),
            ..res.crt_filters
        },
        ..res
    }
}

pub open spec fn spec_lpp_step_events(res: Resources, i: Input, ov: CustomOverrides) -> Seq<AppEvent> {
    spec_lpp_events(
        res.crt_filters.lines_per_pixel,
        i.lpp.increase.spec_just_pressed(),
        i.lpp.decrease.spec_just_pressed(),
        spec_decoded_count(ov.lines_per_pixel),
    )
}

/// The state the escape check sees: timers, animation, colours, blur and
/// lines-per-pixel advanced, nothing later.
#[verifier::opaque]
pub open spec fn spec_pre_escape_state(res: Resources, i: Input, ov: CustomOverrides) -> Resources {
    spec_lpp_step(
        spec_blur_step(
            spec_colors_step(
                spec_animation_step(spec_timers_step(res, i.now), i.now),
                i,
                ov,
                spec_tick_dt(res, i),
            ),
            i,
            ov,
        ),
        i,
        ov,
    )
}

/// The notifications of the steps before the escape check.
#[verifier::opaque]
pub open spec fn spec_pre_escape_events(res: Resources, i: Input, ov: CustomOverrides) -> Seq<AppEvent> {
    spec_timers_events(res, i.now) + spec_colors_events(
        res.crt_filters,
        i,
        ov,
        spec_tick_dt(res, i),
    ) + spec_blur_step_events(res, i, ov) + spec_lpp_step_events(res, i, ov)
}

/// The state after the pulse step.
pub open spec fn spec_pulse_step(res: Resources, i: Input, dt: u64) -> Resources {
    let showing = if i.showing_pixels_pulse.spec_just_pressed() {
        !res.crt_filters.showing_pixels_pulse
    } else {
        res.crt_filters.showing_pixels_pulse
    };
    Resources {
        crt_filters: CrtFilters {
            showing_pixels_pulse: showing,
            pixels_pulse: spec_pulse_value(showing, res.crt_filters.pixels_pulse, dt),
            ..res.crt_filters
        },
        ..res
    }
}

pub open spec fn spec_pulse_events(res: Resources, i: Input) -> Seq<AppEvent> {
    if i.showing_pixels_pulse.spec_just_pressed() {
        seq![
            AppEvent::TopMessage(Msg::ScreenWave(!res.crt_filters.showing_pixels_pulse)),
            AppEvent::ShowingPixelsPulse(!res.crt_filters.showing_pixels_pulse),
        ]
    } else {
        Seq::empty()
    }
}

/// The state after the filter step: the full reset, or the non-reset
/// cycling and scalar stepping.
pub open spec fn spec_filters_step(res: Resources, i: Input, ov: CustomOverrides, dt: u64) -> Resources {
    if i.reset_filters {
        Resources {
            crt_filters: CrtFilters {
                cur_pixel_width: crate::params::ParameterChanger {
                    value: res.initial_parameters.initial_pixel_width,
                    min: 0,
                    max: i64::MAX,
                },
                ..CrtFilters::spec_new(crate::resources::PIXEL_MANIPULATION_BASE_SPEED)
            },
            ..res
        }
    } else {
        Resources { crt_filters: spec_crt_filters_next(res.crt_filters, i, ov, dt), ..res }
    }
}

pub open spec fn spec_filters_step_events(res: Resources, i: Input, ov: CustomOverrides, dt: u64) -> Seq<AppEvent> {
    if i.reset_filters {
        spec_frontend_events(spec_filters_step(res, i, ov, dt)).push(
            AppEvent::TopMessage(Msg::FiltersReset),
        )
    } else {
        spec_crt_filter_events(res.crt_filters, i, ov, dt)
    }
}

/// The state after the colour-noise step.
pub open spec fn spec_noise_step(res: Resources, ov: CustomOverrides, dt: u64) -> Resources {
    Resources {
        crt_filters: CrtFilters {
            color_noise: crate::params::ParameterChanger {
                value: spec_stepped_value(
                    res.crt_filters.color_noise,
                    false,
                    false,
                    ov.color_noise,
                    spec_color_step(res.crt_filters.change_speed, dt),
                ),
                ..res.crt_filters.color_noise
            },
            ..res.crt_filters
        },
        ..res
    }
}

pub open spec fn spec_noise_events(res: Resources, ov: CustomOverrides, dt: u64) -> Seq<AppEvent> {
    spec_changer_events(
        res.crt_filters.color_noise,
        false,
        false,
        ov.color_noise,
        spec_color_step(res.crt_filters.change_speed, dt),
        AppEvent::ChangeColorNoise(
            spec_stepped_value(
                res.crt_filters.color_noise,
                false,
                false,
                ov.color_noise,
                spec_color_step(res.crt_filters.change_speed, dt),
            ),
        ),
    )
}

/// The state after the camera step.
pub open spec fn spec_camera_step(res: Resources, i: Input, ov: CustomOverrides, dt: u64) -> Resources {
    Resources {
        camera: spec_camera_next(
            res.camera,
            i,
            ov,
            dt,
            res.initial_parameters.initial_position_z,
        ),
        ..res
    }
}

/// The state the steps after the escape check leave behind, from the
/// pre-escape state: info-panel toggle, pulse, filters, colour noise,
/// speeds and camera, then the screenshot flag latched from its release
/// edge.
#[verifier::opaque]
pub open spec fn spec_post_escape_state(r5: Resources, i: Input, ov: CustomOverrides, dt: u64) -> Resources {
    let after_pulse = spec_pulse_step(r5, i, dt);
    let after_filters = spec_filters_step(after_pulse, i, ov, dt);
    let after_noise = spec_noise_step(after_filters, ov, dt);
    let after_speeds = spec_speeds_next(after_noise, i);
    let after_camera = spec_camera_step(after_speeds, i, ov, dt);
    Resources { launch_screenshot: i.screenshot.spec_just_released(), ..after_camera }
}

/// The notifications of the steps after the escape check, in order.
#[verifier::opaque]
pub open spec fn spec_post_escape_events(r5: Resources, i: Input, ov: CustomOverrides, dt: u64) -> Seq<AppEvent> {
    let after_pulse = spec_pulse_step(r5, i, dt);
    let after_filters = spec_filters_step(after_pulse, i, ov, dt);
    let after_noise = spec_noise_step(after_filters, ov, dt);
    let after_speeds = spec_speeds_next(after_noise, i);
    (if i.space.spec_just_pressed() {
        seq![AppEvent::ToggleInfoPanel]
    } else {
        Seq::empty()
    }) + spec_pulse_events(r5, i) + spec_filters_step_events(after_pulse, i, ov, dt)
        + spec_noise_events(after_filters, ov, dt) + spec_speeds_events(
        after_noise,
        i,
        after_speeds,
    ) + spec_camera_events(
        after_speeds.camera,
        i,
        ov,
        dt,
        after_speeds.initial_parameters.initial_position_z,
    )
}

/// The whole tick's state on a non-terminating tick: every step applied
/// in order, then the screenshot flag latched from its release edge.
#[verifier::opaque]
pub open spec fn spec_simulation_next(res: Resources, i: Input, ov: CustomOverrides) -> Resources {
    spec_post_escape_state(spec_pre_escape_state(res, i, ov), i, ov, spec_tick_dt(res, i))
}

/// The whole tick's notifications on a non-terminating tick, in order.
#[verifier::opaque]
pub open spec fn spec_simulation_events(res: Resources, i: Input, ov: CustomOverrides) -> Seq<AppEvent> {
    spec_pre_escape_events(res, i, ov) + spec_post_escape_events(
        spec_pre_escape_state(res, i, ov),
        i,
        ov,
        spec_tick_dt(res, i),
    )
}

/// A terminating tick's notifications: the steps before the escape check,
/// then the session-exit notice.
#[verifier::opaque]
pub open spec fn spec_simulation_exit_events(res: Resources, i: Input, ov: CustomOverrides) -> Seq<AppEvent> {
    spec_pre_escape_events(res, i, ov).push(AppEvent::ExitingSession)
}

/// The staged per-step equalities of the steps before the escape check
/// compose to the pre-escape state and notification sequence.
proof fn lemma_pre_escape_compose(
    res0: Resources,
    i: Input,
    ov: CustomOverrides,
    dt: u64,
    r1: Resources,
    r2: Resources,
    r3: Resources,
    r4: Resources,
    r5: Resources,
    old_ev: Seq<AppEvent>,
    ev1: Seq<AppEvent>,
    ev3: Seq<AppEvent>,
    ev4: Seq<AppEvent>,
    ev5: Seq<AppEvent>,
)
    requires
        dt == spec_tick_dt(res0, i),
        r1 == spec_timers_step(res0, i.now),
        r2 == spec_animation_step(r1, i.now),
        r3 == spec_colors_step(r2, i, ov, dt),
        r4 == spec_blur_step(r3, i, ov),
        r5 == spec_lpp_step(r4, i, ov),
        ev1 == old_ev + spec_timers_events(res0, i.now),
        ev3 == ev1 + spec_colors_events(res0.crt_filters, i, ov, dt),
        ev4 == ev3 + spec_blur_step_events(res0, i, ov),
        ev5 == ev4 + spec_lpp_step_events(res0, i, ov),
    ensures
        r5 == spec_pre_escape_state(res0, i, ov),
        ev5 == old_ev + spec_pre_escape_events(res0, i, ov),
{
    reveal(spec_pre_escape_state);
    reveal(spec_pre_escape_events);
    assert(ev5 =~= old_ev + spec_pre_escape_events(res0, i, ov));
}

/// A terminating tick's notifications, composed.
proof fn lemma_exit_compose(
    res0: Resources,
    i: Input,
    ov: CustomOverrides,
    old_ev: Seq<AppEvent>,
    ev5: Seq<AppEvent>,
    evx: Seq<AppEvent>,
)
    requires
        ev5 == old_ev + spec_pre_escape_events(res0, i, ov),
        evx == ev5.push(AppEvent::ExitingSession),
    ensures
        evx == old_ev + spec_simulation_exit_events(res0, i, ov),
{
    reveal(spec_simulation_exit_events);
    assert(evx =~= old_ev + spec_simulation_exit_events(res0, i, ov));
}

/// The staged per-step equalities of the steps after the escape check
/// compose to the post-escape state and notification sequence.
#[verifier::spinoff_prover]
#[verifier::rlimit(100)]
proof fn lemma_post_escape_compose(
    r5: Resources,
    i: Input,
    ov: CustomOverrides,
    dt: u64,
    r6: Resources,
    r7: Resources,
    r8: Resources,
    r9: Resources,
    r10: Resources,
    rf: Resources,
    ev5: Seq<AppEvent>,
    ev6: Seq<AppEvent>,
    ev7: Seq<AppEvent>,
    ev8: Seq<AppEvent>,
    ev9: Seq<AppEvent>,
    ev10: Seq<AppEvent>,
    evf: Seq<AppEvent>,
)
    requires
        r6 == spec_pulse_step(r5, i, dt),
        r7 == spec_filters_step(r6, i, ov, dt),
        r8 == spec_noise_step(r7, ov, dt),
        r9 == spec_speeds_next(r8, i),
        r10 == spec_camera_step(r9, i, ov, dt),
        rf == (Resources { launch_screenshot: i.screenshot.spec_just_released(), ..r10 }),
        ev6 == ev5 + (if i.space.spec_just_pressed() {
            seq![AppEvent::ToggleInfoPanel]
        } else {
            Seq::<AppEvent>::empty()
        }),
        ev7 == ev6 + spec_pulse_events(r5, i),
        ev8 == ev7 + spec_filters_step_events(r6, i, ov, dt),
        ev9 == ev8 + spec_noise_events(r7, ov, dt),
        ev10 == ev9 + spec_speeds_events(r8, i, r9),
        evf == ev10 + spec_camera_events(
            r9.camera,
            i,
            ov,
            dt,
            r9.initial_parameters.initial_position_z,
        ),
    ensures
        rf == spec_post_escape_state(r5, i, ov, dt),
        evf == ev5 + spec_post_escape_events(r5, i, ov, dt),
{
    reveal(spec_post_escape_state);
    reveal(spec_post_escape_events);
    assert(evf =~= ev5 + spec_post_escape_events(r5, i, ov, dt));
}

/// The two phases compose to the whole tick.
proof fn lemma_simulation_compose(
    res0: Resources,
    i: Input,
    ov: CustomOverrides,
    dt: u64,
    r5: Resources,
    rf: Resources,
    old_ev: Seq<AppEvent>,
    ev5: Seq<AppEvent>,
    evf: Seq<AppEvent>,
)
    requires
        dt == spec_tick_dt(res0, i),
        r5 == spec_pre_escape_state(res0, i, ov),
        rf == spec_post_escape_state(r5, i, ov, dt),
        ev5 == old_ev + spec_pre_escape_events(res0, i, ov),
        evf == ev5 + spec_post_escape_events(r5, i, ov, dt),
    ensures
        rf == spec_simulation_next(res0, i, ov),
        evf == old_ev + spec_simulation_events(res0, i, ov),
{
    reveal(spec_simulation_next);
    reveal(spec_simulation_events);
    assert(evf =~= old_ev + spec_simulation_events(res0, i, ov));
}

/// The steps before the escape check: timers, animation, colours, blur
/// and lines-per-pixel; returns the tick length.
#[verifier::spinoff_prover]
#[verifier::rlimit(100)]
fn pre_escape_steps(
    res: &mut Resources,
    input: &Input,
    ov: &CustomOverrides,
    events: &mut Vec<AppEvent>,
) -> (dt: u64)
    requires
        old(res).wf(),
    ensures
        dt == spec_tick_dt(*old(res), *input),
        *final(res) == spec_pre_escape_state(*old(res), *input, *ov),
        final(res).wf(),
        final(events)@ == old(events)@ + spec_pre_escape_events(*old(res), *input, *ov),
{
    let dt = update_timers_and_dt(res, input, events);
    let ghost r1 = *res;
    let ghost ev1 = events@;
    proof {
        assert(r1 == spec_timers_step(*old(res), input.now));
        assert(dt == spec_tick_dt(*old(res), *input));
        assert(ev1 =~= old(events)@ + spec_timers_events(*old(res), input.now));
    }
    update_animation_buffer(res, input);
    let ghost r2 = *res;
    proof {
        assert(r2 == spec_animation_step(r1, input.now));
    }
    update_colors(dt, res, input, ov, events);
    let ghost r3 = *res;
    let ghost ev3 = events@;
    proof {
        assert(r2.crt_filters == old(res).crt_filters);
        assert(r3 == spec_colors_step(r2, *input, *ov, dt));
        assert(ev3 =~= ev1 + spec_colors_events(old(res).crt_filters, *input, *ov, dt));
    }
    update_blur(res, input, ov, events);
    let ghost r4 = *res;
    let ghost ev4 = events@;
    proof {
        assert(r3.crt_filters.blur_passes == old(res).crt_filters.blur_passes);
        assert(r4 == spec_blur_step(r3, *input, *ov));
        assert(ev4 =~= ev3 + spec_blur_step_events(*old(res), *input, *ov));
    }
    update_lpp(res, input, ov, events);
    let ghost r5 = *res;
    let ghost ev5 = events@;
    proof {
        assert(r4.crt_filters.lines_per_pixel == old(res).crt_filters.lines_per_pixel);
        assert(r5 == spec_lpp_step(r4, *input, *ov));
        assert(ev5 =~= ev4 + spec_lpp_step_events(*old(res), *input, *ov));
        lemma_pre_escape_compose(
            *old(res),
            *input,
            *ov,
            dt,
            r1,
            r2,
            r3,
            r4,
            r5,
            old(events)@,
            ev1,
            ev3,
            ev4,
            ev5,
        );
    }
    dt
}

/// The steps after the escape check: info-panel toggle, pulse, filters,
/// colour noise, speeds, camera, and the screenshot latch.
#[verifier::spinoff_prover]
#[verifier::rlimit(100)]
fn post_escape_steps(
    res: &mut Resources,
    input: &Input,
    ov: &CustomOverrides,
    dt: u64,
    events: &mut Vec<AppEvent>,
)
    requires
        old(res).wf(),
    ensures
        *final(res) == spec_post_escape_state(*old(res), *input, *ov, dt),
        final(res).wf(),
        final(events)@ == old(events)@ + spec_post_escape_events(*old(res), *input, *ov, dt),
{
    if input.space.is_just_pressed() {
        events.push(AppEvent::ToggleInfoPanel);
    }
    let ghost ev6 = events@;
    proof {
        assert(ev6 =~= old(events)@ + (if input.space.spec_just_pressed() {
            seq![AppEvent::ToggleInfoPanel]
        } else {
            Seq::<AppEvent>::empty()
        }));
    }
    update_pixel_pulse(dt, res, input, events);
    let ghost r6 = *res;
    let ghost ev7 = events@;
    proof {
        assert(r6 == spec_pulse_step(*old(res), *input, dt));
        assert(ev7 =~= ev6 + spec_pulse_events(*old(res), *input));
    }
    update_crt_filters(dt, res, input, ov, events);
    let ghost r7 = *res;
    let ghost ev8 = events@;
    proof {
        assert(r7 == spec_filters_step(r6, *input, *ov, dt));
        assert(ev8 =~= ev7 + spec_filters_step_events(r6, *input, *ov, dt));
    }
    update_color_noise(dt, res, ov, events);
    let ghost r8 = *res;
    let ghost ev9 = events@;
    proof {
        assert(r8 == spec_noise_step(r7, *ov, dt));
        assert(ev9 =~= ev8 + spec_noise_events(r7, *ov, dt));
    }
    update_speeds(res, input, events);
    let ghost r9 = *res;
    let ghost ev10 = events@;
    proof {
        assert(r9 == spec_speeds_next(r8, *input));
        assert(ev10 =~= ev9 + spec_speeds_events(r8, *input, r9));
    }
    update_camera(dt, res, input, ov, events);
    let ghost r10 = *res;
    let ghost ev11 = events@;
    res.launch_screenshot = input.screenshot.is_just_released();
    proof {
        assert(r10 == spec_camera_step(r9, *input, *ov, dt));
        assert(ev11 =~= ev10 + spec_camera_events(
            r9.camera,
            *input,
            *ov,
            dt,
            r9.initial_parameters.initial_position_z,
        ));
        lemma_post_escape_compose(
            *old(res),
            *input,
            *ov,
            dt,
            r6,
            r7,
            r8,
            r9,
            r10,
            *res,
            old(events)@,
            ev6,
            ev7,
            ev8,
            ev9,
            ev10,
            ev11,
        );
    }
}

/// One discrete simulation step. The injected override event is validated
/// up front: a malformed payload aborts the tick with an error and
/// nothing mutated. Otherwise the timers, animation, colours, blur and
/// lines-per-pixel advance; a just-pressed escape then reports the
/// session end and returns `false` with the later steps skipped, telling
/// the caller to stop ticking and drawing. On a full tick the pulse,
/// filters, colour noise, speeds and camera advance too, and the
/// screenshot flag latches from its release edge.
#[verifier::spinoff_prover]
#[verifier::rlimit(100)]
pub fn update_simulation(res: &mut Resources, input: &Input, events: &mut Vec<AppEvent>) -> (r:
    Result<bool, String>)
    requires
        old(res).wf(),
    ensures
        r is Err <==> (crate::overrides::spec_is_override_kind(input.custom_event.kind@) && !(
        input.custom_event.value is Number)),
        r is Err ==> *final(res) == *old(res) && final(events)@ == old(events)@,
        r is Ok ==> final(res).wf(),
        r matches Ok(more) ==> (more == false <==> input.esc.spec_just_pressed()),
        r matches Ok(more) ==> (!more ==> *final(res) == spec_pre_escape_state(
            *old(res),
            *input,
            spec_overrides_of(input.custom_event),
        ) && final(events)@ == old(events)@ + spec_simulation_exit_events(
            *old(res),
            *input,
            spec_overrides_of(input.custom_event),
        )),
        r matches Ok(more) ==> (more ==> *final(res) == spec_simulation_next(
            *old(res),
            *input,
            spec_overrides_of(input.custom_event),
        ) && final(events)@ == old(events)@ + spec_simulation_events(
            *old(res),
            *input,
            spec_overrides_of(input.custom_event),
        )),
{
    let ov = match crate::overrides::parse_custom_event(&input.custom_event) {
        Ok(ov) => ov,
        Err(e) => {
            return Err(e);
        },
    };
    proof {
        assert(ov == spec_overrides_of(input.custom_event));
    }
    let dt = pre_escape_steps(res, input, &ov, events);
    let ghost r5 = *res;
    let ghost ev5 = events@;
    if input.esc.is_just_pressed() {
        events.push(AppEvent::ExitingSession);
        proof {
            lemma_exit_compose(*old(res), *input, ov, old(events)@, ev5, events@);
        }
        return Ok(false);
    }
    post_escape_steps(res, input, &ov, dt, events);
    proof {
        lemma_simulation_compose(
            *old(res),
            *input,
            ov,
            dt,
            r5,
            *res,
            old(events)@,
            ev5,
            events@,
        );
    }
    Ok(true)
}

/// What the drawing stage works with: the pooled main and background
/// target stacks, the frame composer, and the command list of the latest
/// composed frame.
pub struct Materials {
    pub main_buffer_stack: crate::render_types::TextureBufferStack,
    pub bg_buffer_stack: crate::render_types::TextureBufferStack,
    pub drawer: crate::simulation_draw::SimulationDrawer,
    pub frame_commands: Vec<crate::simulation_draw::RenderCommand>,
}

impl Materials {
    /// Both target stacks balanced, ready for a frame.
    pub open spec fn wf(self) -> bool {
        &&& self.main_buffer_stack.wf()
        &&& self.main_buffer_stack.cursor == 0
        &&& self.bg_buffer_stack.wf()
        &&& self.bg_buffer_stack.cursor == 0
    }
}

/// One whole tick: sample the inputs, run the simulation step, clear the
/// transient inputs, and — unless the session ended — compose the frame's
/// draw commands. Returns `false` when the session ended; the caller must
/// then stop ticking.
#[verifier::spinoff_prover]
#[verifier::rlimit(100)]
pub fn simulation_tick(
    input: &mut Input,
    resources: &mut Resources,
    materials: &mut Materials,
    events: &mut Vec<AppEvent>,
) -> (r: Result<bool, String>)
    requires
        old(resources).wf(),
        old(materials).wf(),
    ensures
        final(materials).wf(),
        r is Err <==> (crate::overrides::spec_is_override_kind(
            old(input).custom_event.kind@,
        ) && !(old(input).custom_event.value is Number)),
        r is Err ==> *final(input) == spec_pre_processed(*old(input)) && *final(resources)
            == *old(resources) && *final(materials) == *old(materials) && final(events)@ == old(
            events,
        )@,
        r matches Ok(more) ==> (more == false <==> spec_pre_processed(
            *old(input),
        ).esc.spec_just_pressed()),
        r matches Ok(more) ==> (!more ==> {
            &&& *final(input) == spec_pre_processed(*old(input))
            &&& *final(resources) == spec_pre_escape_state(
                *old(resources),
                spec_pre_processed(*old(input)),
                spec_overrides_of(old(input).custom_event),
            )
            &&& *final(materials) == *old(materials)
            &&& final(events)@ == old(events)@ + spec_simulation_exit_events(
                *old(resources),
                spec_pre_processed(*old(input)),
                spec_overrides_of(old(input).custom_event),
            )
        }),
        r matches Ok(more) ==> (more ==> {
            &&& final(resources).wf()
            &&& *final(resources) == spec_simulation_next(
                *old(resources),
                spec_pre_processed(*old(input)),
                spec_overrides_of(old(input).custom_event),
            )
            &&& final(events)@ == old(events)@ + spec_simulation_events(
                *old(resources),
                spec_pre_processed(*old(input)),
                spec_overrides_of(old(input).custom_event),
            )
            &&& *final(input) == (Input {
                mouse_scroll_y: 0,
                mouse_position_x: 0,
                mouse_position_y: 0,
                custom_event: final(input).custom_event,
                ..spec_pre_processed(*old(input))
            })
            &&& final(input).custom_event.kind@ == Seq::<char>::empty()
            &&& final(input).custom_event.value == old(input).custom_event.value
            &&& (final(resources).launch_screenshot || final(resources).screenshot_delay <= 0)
                ==> crate::simulation_draw::spec_frame_ok(
                final(materials).frame_commands@,
                *final(resources),
            )
            &&& !(final(resources).launch_screenshot || final(resources).screenshot_delay <= 0)
                ==> *final(materials) == *old(materials)
        }),
{
    pre_process_input(input);
    let more = match update_simulation(resources, input, events) {
        Ok(more) => more,
        Err(e) => {
            return Err(e);
        },
    };
    if !more {
        return Ok(false);
    }
    post_process_input(input);
    if resources.launch_screenshot || resources.screenshot_delay <= 0 {
        let cmds = match materials.drawer.draw(
            resources,
            &mut materials.main_buffer_stack,
            &mut materials.bg_buffer_stack,
        ) {
            Ok(cmds) => cmds,
            Err(_) => {
                return Err(String::from_str("unbalanced buffer stack"));
            },
        };
        materials.frame_commands = cmds;
    }
    Ok(true)
}

/// The translation rate a far-away distance prescribes: a fifth of the
/// distance, clamped into the valid speed range.
pub open spec fn spec_initial_movement_speed(z: i64) -> i64 {
    let raw = z as int / 5;
    if raw < 1 {
        1i64
    } else if raw > 20_000_000_000 {
        20_000_000_000i64
    } else {
        raw as i64
    }
}

/// The session state a video source initialises: timers and derived
/// camera anew; when an earlier session is re-initialised (rather than
/// reset), its camera position and changed pixel width carry over, with
/// the camera distance refreshed when it still stood at the old initial
/// distance marker.
pub open spec fn spec_init_resources(res: Resources, video: AnimationData, now_ms: u64) -> Resources {
    let z = crate::resources::spec_far_away_position(video) as i64;
    let speed = spec_initial_movement_speed(z);
    let position = if res.resetted {
        Vec3 { x: 0, y: 0, z }
    } else {
        Vec3 {
            x: res.camera.position.x,
            y: res.camera.position.y,
            z: if res.initial_parameters.initial_position_z != res.camera.position.z {
                z
            } else {
                res.camera.position.z
            },
        }
    };
    let width = if res.resetted {
        video.pixel_width
    } else if res.crt_filters.cur_pixel_width.value != res.animation.pixel_width {
        res.crt_filters.cur_pixel_width.value
    } else {
        video.pixel_width
    };
    Resources {
        initial_parameters: crate::resources::InitialParameters {
            initial_position_z: z,
            initial_pixel_width: video.pixel_width,
            initial_movement_speed: speed,
        },
        timers: crate::resources::SimulationTimers {
            frame_count: 0,
            last_time: now_ms,
            last_second: now_ms,
        },
        animation: video,
        camera: Camera {
            position,
            ..Camera::spec_new(speed, crate::resources::TURNING_BASE_SPEED)
        },
        crt_filters: CrtFilters {
            cur_pixel_width: crate::params::ParameterChanger {
                value: width,
                ..res.crt_filters.cur_pixel_width
            },
            ..res.crt_filters
        },
        resetted: true,
        ..res
    }
}

/// Initialise the session from a loaded video source and quote the whole
/// resulting parameter set back to the host.
pub fn init_resources(res: &mut Resources, video: AnimationData, now_ms: u64, events: &mut Vec<AppEvent>)
    requires
        video.wf(),
        old(res).wf(),
    ensures
        *final(res) == spec_init_resources(*old(res), video, now_ms),
        final(res).wf(),
        final(events)@ == old(events)@ + spec_frontend_events(*final(res)),
{
    let initial_position_z = crate::resources::calculate_far_away_position(&video);
    let raw_speed: i64 = initial_position_z / 5;
    let movement_speed: i64 = if raw_speed < 1 {
        1
    } else if raw_speed > 20_000_000_000 {
        20_000_000_000
    } else {
        raw_speed
    };
    let mut camera = crate::camera::Camera::new(
        movement_speed,
        crate::resources::TURNING_BASE_SPEED,
    );
    let mut cur_pixel_width = video.pixel_width;
    if res.resetted {
        camera.set_position(Vec3 { x: 0, y: 0, z: initial_position_z });
    } else {
        let mut position = res.camera.get_position();
        if res.initial_parameters.initial_position_z != position.z {
            position.z = initial_position_z;
        }
        camera.set_position(position);
        if res.crt_filters.cur_pixel_width.value != res.animation.pixel_width {
            cur_pixel_width = res.crt_filters.cur_pixel_width.value;
        }
    }
    res.resetted = true;
    res.crt_filters.cur_pixel_width.value = cur_pixel_width;
    res.timers = crate::resources::SimulationTimers {
        frame_count: 0,
        last_time: now_ms,
        last_second: now_ms,
    };
    res.initial_parameters = crate::resources::InitialParameters {
        initial_position_z,
        initial_pixel_width: video.pixel_width,
        initial_movement_speed: movement_speed,
    };
    res.camera = camera;
    res.animation = video;
    change_frontend_input_values(res, events);
}

} // verus!
