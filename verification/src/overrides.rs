//! Decoding the externally injected override event into per-parameter
//! payloads, validated before any state is touched: a malformed payload
//! aborts the tick's update with nothing committed.

use vstd::prelude::*;
use crate::input::{CustomEvent, EventValue};
use crate::messages::str_eq;

verus! {

/// The numeric override a tick may carry for each overridable scalar.
/// At most one is present, since one event has one kind.
pub struct CustomOverrides {
    pub pixel_brightness: Option<i64>,
    pub pixel_contrast: Option<i64>,
    pub light_color: Option<i64>,
    pub brightness_color: Option<i64>,
    pub background_color: Option<i64>,
    pub blur_level: Option<i64>,
    pub lines_per_pixel: Option<i64>,
    pub pixel_vertical_gap: Option<i64>,
    pub pixel_horizontal_gap: Option<i64>,
    pub pixel_width: Option<i64>,
    pub pixel_spread: Option<i64>,
    pub color_noise: Option<i64>,
    pub camera_zoom: Option<i64>,
    pub camera_pos_x: Option<i64>,
    pub camera_pos_y: Option<i64>,
    pub camera_pos_z: Option<i64>,
    pub camera_axis_up_x: Option<i64>,
    pub camera_axis_up_y: Option<i64>,
    pub camera_axis_up_z: Option<i64>,
    pub camera_direction_x: Option<i64>,
    pub camera_direction_y: Option<i64>,
    pub camera_direction_z: Option<i64>,
}

/// The event kinds that override a camera scalar.
pub open spec fn spec_is_camera_kind(k: Seq<char>) -> bool {
    ||| k == "event_kind:camera_zoom"@
    ||| k == "event_kind:camera_pos_x"@
    ||| k == "event_kind:camera_pos_y"@
    ||| k == "event_kind:camera_pos_z"@
    ||| k == "event_kind:camera_axis_up_x"@
    ||| k == "event_kind:camera_axis_up_y"@
    ||| k == "event_kind:camera_axis_up_z"@
    ||| k == "event_kind:camera_direction_x"@
    ||| k == "event_kind:camera_direction_y"@
    ||| k == "event_kind:camera_direction_z"@
}

/// The event kinds that override a filter scalar.
pub open spec fn spec_is_filter_kind(k: Seq<char>) -> bool {
    ||| k == "event_kind:pixel_brightness"@
    ||| k == "event_kind:pixel_contrast"@
    ||| k == "event_kind:light_color"@
    ||| k == "event_kind:brightness_color"@
    ||| k == "event_kind:background_color"@
    ||| k == "event_kind:blur_level"@
    ||| k == "event_kind:lines_per_pixel"@
    ||| k == "event_kind:pixel_vertical_gap"@
    ||| k == "event_kind:pixel_horizontal_gap"@
    ||| k == "event_kind:pixel_width"@
    ||| k == "event_kind:pixel_spread"@
    ||| k == "event_kind:color_noise"@
}

/// The whole fixed vocabulary of override kinds.
pub open spec fn spec_is_override_kind(k: Seq<char>) -> bool {
    spec_is_filter_kind(k) || spec_is_camera_kind(k)
}

/// The payload the overrides carry for kind `k`: the event's number when
/// the event is of that kind, nothing otherwise.
pub open spec fn spec_payload_for(e: CustomEvent, k: Seq<char>) -> Option<i64> {
    if e.kind@ == k {
        match e.value {
            EventValue::Number(v) => Some(v),
            _ => None,
        }
    } else {
        None
    }
}

/// Decode the tick's override event. An event of a known kind whose
/// payload is not a number is rejected, with the message naming the
/// expected type; an event of an unknown kind carries no overrides.
pub fn parse_custom_event(e: &CustomEvent) -> (r: Result<CustomOverrides, String>)
    ensures
        r is Err <==> spec_is_override_kind(e.kind@) && !(e.value is Number),
        r matches Err(m) ==> (if spec_is_camera_kind(e.kind@) {
            m@ == "Wrong number"@
        } else {
            m@ == "it should be a number"@
        }),
        r matches Ok(ov) ==> {
            &&& ov.pixel_brightness == spec_payload_for(*e, "event_kind:pixel_brightness"@)
            &&& ov.pixel_contrast == spec_payload_for(*e, "event_kind:pixel_contrast"@)
            &&& ov.light_color == spec_payload_for(*e, "event_kind:light_color"@)
            &&& ov.brightness_color == spec_payload_for(*e, "event_kind:brightness_color"@)
            &&& ov.background_color == spec_payload_for(*e, "event_kind:background_color"@)
            &&& ov.blur_level == spec_payload_for(*e, "event_kind:blur_level"@)
            &&& ov.lines_per_pixel == spec_payload_for(*e, "event_kind:lines_per_pixel"@)
            &&& ov.pixel_vertical_gap == spec_payload_for(*e, "event_kind:pixel_vertical_gap"@)
            &&& ov.pixel_horizontal_gap == spec_payload_for(
                *e,
                "event_kind:pixel_horizontal_gap"@,
            )
            &&& ov.pixel_width == spec_payload_for(*e, "event_kind:pixel_width"@)
            &&& ov.pixel_spread == spec_payload_for(*e, "event_kind:pixel_spread"@)
            &&& ov.color_noise == spec_payload_for(*e, "event_kind:color_noise"@)
            &&& ov.camera_zoom == spec_payload_for(*e, "event_kind:camera_zoom"@)
            &&& ov.camera_pos_x == spec_payload_for(*e, "event_kind:camera_pos_x"@)
            &&& ov.camera_pos_y == spec_payload_for(*e, "event_kind:camera_pos_y"@)
            &&& ov.camera_pos_z == spec_payload_for(*e, "event_kind:camera_pos_z"@)
            &&& ov.camera_axis_up_x == spec_payload_for(*e, "event_kind:camera_axis_up_x"@)
            &&& ov.camera_axis_up_y == spec_payload_for(*e, "event_kind:camera_axis_up_y"@)
            &&& ov.camera_axis_up_z == spec_payload_for(*e, "event_kind:camera_axis_up_z"@)
            &&& ov.camera_direction_x == spec_payload_for(*e, "event_kind:camera_direction_x"@)
            &&& ov.camera_direction_y == spec_payload_for(*e, "event_kind:camera_direction_y"@)
            &&& ov.camera_direction_z == spec_payload_for(*e, "event_kind:camera_direction_z"@)
        },
{
    let kind = e.kind.as_str();
    let k_bright = str_eq(kind, "event_kind:pixel_brightness");
    let k_contrast = str_eq(kind, "event_kind:pixel_contrast");
    let k_light = str_eq(kind, "event_kind:light_color");
    let k_bcolor = str_eq(kind, "event_kind:brightness_color");
    let k_bg = str_eq(kind, "event_kind:background_color");
    let k_blur = str_eq(kind, "event_kind:blur_level");
    let k_lpp = str_eq(kind, "event_kind:lines_per_pixel");
    let k_vgap = str_eq(kind, "event_kind:pixel_vertical_gap");
    let k_hgap = str_eq(kind, "event_kind:pixel_horizontal_gap");
    let k_width = str_eq(kind, "event_kind:pixel_width");
    let k_spread = str_eq(kind, "event_kind:pixel_spread");
    let k_noise = str_eq(kind, "event_kind:color_noise");
    let k_zoom = str_eq(kind, "event_kind:camera_zoom");
    let k_px = str_eq(kind, "event_kind:camera_pos_x");
    let k_py = str_eq(kind, "event_kind:camera_pos_y");
    let k_pz = str_eq(kind, "event_kind:camera_pos_z");
    let k_ux = str_eq(kind, "event_kind:camera_axis_up_x");
    let k_uy = str_eq(kind, "event_kind:camera_axis_up_y");
    let k_uz = str_eq(kind, "event_kind:camera_axis_up_z");
    let k_dx = str_eq(kind, "event_kind:camera_direction_x");
    let k_dy = str_eq(kind, "event_kind:camera_direction_y");
    let k_dz = str_eq(kind, "event_kind:camera_direction_z");
    let filter_kind = k_bright || k_contrast || k_light || k_bcolor || k_bg || k_blur || k_lpp
        || k_vgap || k_hgap || k_width || k_spread || k_noise;
    let camera_kind = k_zoom || k_px || k_py || k_pz || k_ux || k_uy || k_uz || k_dx || k_dy
        || k_dz;
    let num: Option<i64> = match &e.value {
        EventValue::Number(v) => Some(*v),
        _ => None,
    };
    if (filter_kind || camera_kind) && num.is_none() {
        if camera_kind {
            return Err(String::from_str("Wrong number"));
        }
        return Err(String::from_str("it should be a number"));
    }
    Ok(
        CustomOverrides {
            pixel_brightness: if k_bright {
                num
            } else {
                None
            },
            pixel_contrast: if k_contrast {
                num
            } else {
                None
            },
            light_color: if k_light {
                num
            } else {
                None
            },
            brightness_color: if k_bcolor {
                num
            } else {
                None
            },
            background_color: if k_bg {
                num
            } else {
                None
            },
            blur_level: if k_blur {
                num
            } else {
                None
            },
            lines_per_pixel: if k_lpp {
                num
            } else {
                None
            },
            pixel_vertical_gap: if k_vgap {
                num
            } else {
                None
            },
            pixel_horizontal_gap: if k_hgap {
                num
            } else {
                None
            },
            pixel_width: if k_width {
                num
            } else {
                None
            },
            pixel_spread: if k_spread {
                num
            } else {
                None
            },
            color_noise: if k_noise {
                num
            } else {
                None
            },
            camera_zoom: if k_zoom {
                num
            } else {
                None
            },
            camera_pos_x: if k_px {
                num
            } else {
                None
            },
            camera_pos_y: if k_py {
                num
            } else {
                None
            },
            camera_pos_z: if k_pz {
                num
            } else {
                None
            },
            camera_axis_up_x: if k_ux {
                num
            } else {
                None
            },
            camera_axis_up_y: if k_uy {
                num
            } else {
                None
            },
            camera_axis_up_z: if k_uz {
                num
            } else {
                None
            },
            camera_direction_x: if k_dx {
                num
            } else {
                None
            },
            camera_direction_y: if k_dy {
                num
            } else {
                None
            },
            camera_direction_z: if k_dz {
                num
            } else {
                None
            },
        },
    )
}

/// An overrides value with nothing set, for ticks that carry no event.
pub fn no_overrides() -> (r: CustomOverrides)
    ensures
        r.pixel_brightness is None && r.pixel_contrast is None && r.light_color is None,
        r.brightness_color is None && r.background_color is None && r.blur_level is None,
        r.lines_per_pixel is None,
        r.pixel_vertical_gap is None && r.pixel_horizontal_gap is None && r.pixel_width is None,
        r.pixel_spread is None && r.color_noise is None && r.camera_zoom is None,
        r.camera_pos_x is None && r.camera_pos_y is None && r.camera_pos_z is None,
        r.camera_axis_up_x is None && r.camera_axis_up_y is None && r.camera_axis_up_z is None,
        r.camera_direction_x is None && r.camera_direction_y is None && r.camera_direction_z
            is None,
{
    CustomOverrides {
        pixel_brightness: None,
        pixel_contrast: None,
        light_color: None,
        brightness_color: None,
        background_color: None,
        blur_level: None,
        lines_per_pixel: None,
        pixel_vertical_gap: None,
        pixel_horizontal_gap: None,
        pixel_width: None,
        pixel_spread: None,
        color_noise: None,
        camera_zoom: None,
        camera_pos_x: None,
        camera_pos_y: None,
        camera_pos_z: None,
        camera_axis_up_x: None,
        camera_axis_up_y: None,
        camera_axis_up_z: None,
        camera_direction_x: None,
        camera_direction_y: None,
        camera_direction_z: None,
    }
}

} // verus!
