//! The key/action binding table: each named action of the host maps onto
//! one raw input flag or edge-tracker sample; composite actions joined by
//! `+` dispatch to each constituent in turn, and unrecognized actions are
//! ignored.

use vstd::prelude::*;
use crate::input::{BooleanButton, IncDecButtons, IncDecFlags, Input};
use crate::messages::str_eq;

verus! {

/// One entry of the binding table: what a recognised action name stands
/// for. `Unknown` is every name outside the table.
#[derive(Copy, Clone, PartialEq, Eq, Structural, Debug)]
pub enum ButtonAction {
    NextLayeringKey,
    ToggleShadowKey,
    RotateLeftKey,
    RotateRightKey,
    SpeedUp,
    SpeedDown,
    PixelWidthUp,
    PixelWidthDown,
    Shift,
    WalkLeft,
    WalkRight,
    WalkForward,
    WalkBackward,
    WalkUp,
    WalkDown,
    TurnLeft,
    TurnRight,
    TurnUp,
    TurnDown,
    ResetSpeeds,
    ResetCamera,
    ResetFilters,
    Alt,
    InputFocused,
    CameraZoomUp,
    CameraZoomDown,
    VerticalGapUp,
    VerticalGapDown,
    HorizontalGapUp,
    HorizontalGapDown,
    ContrastUp,
    ContrastDown,
    BrightUp,
    BrightDown,
    NextLayeringFeature,
    ToggleShadowFeature,
    NextColorRepresentation,
    NextPixelGeometry,
    NextScreenCurvature,
    Space,
    Esc,
    Screenshot,
    BlurUp,
    BlurDown,
    LppUp,
    LppDown,
    MoveSpeedUp,
    MoveSpeedDown,
    FilterSpeedUp,
    FilterSpeedDown,
    Unknown,
}

/// The table itself: which entry an action name denotes, tried in a fixed
/// order.
pub open spec fn spec_decode_action(a: Seq<char>) -> ButtonAction {
    if a == ","@ {
        ButtonAction::NextLayeringKey
    } else if a == "."@ {
        ButtonAction::ToggleShadowKey
    } else if a == "+"@ {
        ButtonAction::RotateLeftKey
    } else if a == "-"@ {
        ButtonAction::RotateRightKey
    } else if a == "f"@ {
        ButtonAction::SpeedUp
    } else if a == "r"@ {
        ButtonAction::SpeedDown
    } else if a == "n"@ || a == "pixel-width-inc"@ {
        ButtonAction::PixelWidthUp
    } else if a == "m"@ || a == "pixel-width-dec"@ {
        ButtonAction::PixelWidthDown
    } else if a == "shift"@ {
        ButtonAction::Shift
    } else if a == "a"@ {
        ButtonAction::WalkLeft
    } else if a == "d"@ {
        ButtonAction::WalkRight
    } else if a == "w"@ {
        ButtonAction::WalkForward
    } else if a == "s"@ {
        ButtonAction::WalkBackward
    } else if a == "q"@ {
        ButtonAction::WalkUp
    } else if a == "e"@ {
        ButtonAction::WalkDown
    } else if a == "arrowleft"@ || a == "\u{2190}"@ || a == "\u{25c0}"@ {
        ButtonAction::TurnLeft
    } else if a == "arrowright"@ || a == "\u{2192}"@ || a == "\u{25b6}"@ {
        ButtonAction::TurnRight
    } else if a == "arrowup"@ || a == "\u{2191}"@ || a == "\u{25b2}"@ {
        ButtonAction::TurnUp
    } else if a == "arrowdown"@ || a == "\u{2193}"@ || a == "\u{25bc}"@ {
        ButtonAction::TurnDown
    } else if a == "t"@ || a == "reset-speeds"@ {
        ButtonAction::ResetSpeeds
    } else if a == "reset-camera"@ {
        ButtonAction::ResetCamera
    } else if a == "reset-filters"@ {
        ButtonAction::ResetFilters
    } else if a == "alt"@ {
        ButtonAction::Alt
    } else if a == "input_focused"@ {
        ButtonAction::InputFocused
    } else if a == "camera-zoom-inc"@ {
        ButtonAction::CameraZoomUp
    } else if a == "camera-zoom-dec"@ {
        ButtonAction::CameraZoomDown
    } else if a == "u"@ || a == "pixel-vertical-gap-inc"@ {
        ButtonAction::VerticalGapUp
    } else if a == "i"@ || a == "pixel-vertical-gap-dec"@ {
        ButtonAction::VerticalGapDown
    } else if a == "j"@ || a == "pixel-horizontal-gap-inc"@ {
        ButtonAction::HorizontalGapUp
    } else if a == "k"@ || a == "pixel-horizontal-gap-dec"@ {
        ButtonAction::HorizontalGapDown
    } else if a == "<"@ || a == "&lt;"@ || a == "pixel-contrast-inc"@ {
        ButtonAction::ContrastUp
    } else if a == "z"@ || a == "pixel-contrast-dec"@ {
        ButtonAction::ContrastDown
    } else if a == "c"@ || a == "pixel-brightness-inc"@ {
        ButtonAction::BrightUp
    } else if a == "x"@ || a == "pixel-brightness-dec"@ {
        ButtonAction::BrightDown
    } else if a == "feature-change-screen-layering-type"@ {
        ButtonAction::NextLayeringFeature
    } else if a == "feature-change-pixel-shadow"@ {
        ButtonAction::ToggleShadowFeature
    } else if a == "y"@ || a == "feature-change-color-representation"@ {
        ButtonAction::NextColorRepresentation
    } else if a == "o"@ || a == "feature-change-pixel-geometry"@ {
        ButtonAction::NextPixelGeometry
    } else if a == "l"@ || a == "feature-change-screen-curvature"@ {
        ButtonAction::NextScreenCurvature
    } else if a == " "@ || a == "space"@ {
        ButtonAction::Space
    } else if a == "escape"@ || a == "esc"@ || a == "feature-quit"@ {
        ButtonAction::Esc
    } else if a == "f4"@ {
        ButtonAction::Screenshot
    } else if a == "b"@ || a == "blur-level-inc"@ {
        ButtonAction::BlurUp
    } else if a == "v"@ || a == "bluer-level-dec"@ {
        ButtonAction::BlurDown
    } else if a == "g"@ || a == "lines-per-pixel-inc"@ {
        ButtonAction::LppUp
    } else if a == "h"@ || a == "lines-per-pixel-dec"@ {
        ButtonAction::LppDown
    } else if a == "feature-change-move-speed-inc"@ {
        ButtonAction::MoveSpeedUp
    } else if a == "feature-change-move-speed-dec"@ {
        ButtonAction::MoveSpeedDown
    } else if a == "feature-change-pixel-speed-inc"@ {
        ButtonAction::FilterSpeedUp
    } else if a == "feature-change-pixel-speed-dec"@ {
        ButtonAction::FilterSpeedDown
    } else {
        ButtonAction::Unknown
    }
}

/// Look an action name up in the table.
#[verifier::spinoff_prover]
#[verifier::rlimit(100)]
fn decode_action(button_action: &str) -> (r: ButtonAction)
    ensures
        r == spec_decode_action(button_action@),
{
    if str_eq(button_action, ",") {
        return ButtonAction::NextLayeringKey;
    }
    if str_eq(button_action, ".") {
        return ButtonAction::ToggleShadowKey;
    }
    if str_eq(button_action, "+") {
        return ButtonAction::RotateLeftKey;
    }
    if str_eq(button_action, "-") {
        return ButtonAction::RotateRightKey;
    }
    if str_eq(button_action, "f") {
        return ButtonAction::SpeedUp;
    }
    if str_eq(button_action, "r") {
        return ButtonAction::SpeedDown;
    }
    if str_eq(button_action, "n") || str_eq(button_action, "pixel-width-inc") {
        return ButtonAction::PixelWidthUp;
    }
    if str_eq(button_action, "m") || str_eq(button_action, "pixel-width-dec") {
        return ButtonAction::PixelWidthDown;
    }
    if str_eq(button_action, "shift") {
        return ButtonAction::Shift;
    }
    if str_eq(button_action, "a") {
        return ButtonAction::WalkLeft;
    }
    if str_eq(button_action, "d") {
        return ButtonAction::WalkRight;
    }
    if str_eq(button_action, "w") {
        return ButtonAction::WalkForward;
    }
    if str_eq(button_action, "s") {
        return ButtonAction::WalkBackward;
    }
    if str_eq(button_action, "q") {
        return ButtonAction::WalkUp;
    }
    if str_eq(button_action, "e") {
        return ButtonAction::WalkDown;
    }
    if str_eq(button_action, "arrowleft") || str_eq(button_action, "\u{2190}") || str_eq(
        button_action,
        "\u{25c0}",
    ) {
        return ButtonAction::TurnLeft;
    }
    if str_eq(button_action, "arrowright") || str_eq(button_action, "\u{2192}") || str_eq(
        button_action,
        "\u{25b6}",
    ) {
        return ButtonAction::TurnRight;
    }
    if str_eq(button_action, "arrowup") || str_eq(button_action, "\u{2191}") || str_eq(
        button_action,
        "\u{25b2}",
    ) {
        return ButtonAction::TurnUp;
    }
    if str_eq(button_action, "arrowdown") || str_eq(button_action, "\u{2193}") || str_eq(
        button_action,
        "\u{25bc}",
    ) {
        return ButtonAction::TurnDown;
    }
    if str_eq(button_action, "t") || str_eq(button_action, "reset-speeds") {
        return ButtonAction::ResetSpeeds;
    }
    if str_eq(button_action, "reset-camera") {
        return ButtonAction::ResetCamera;
    }
    if str_eq(button_action, "reset-filters") {
        return ButtonAction::ResetFilters;
    }
    if str_eq(button_action, "alt") {
        return ButtonAction::Alt;
    }
    if str_eq(button_action, "input_focused") {
        return ButtonAction::InputFocused;
    }
    if str_eq(button_action, "camera-zoom-inc") {
        return ButtonAction::CameraZoomUp;
    }
    if str_eq(button_action, "camera-zoom-dec") {
        return ButtonAction::CameraZoomDown;
    }
    if str_eq(button_action, "u") || str_eq(button_action, "pixel-vertical-gap-inc") {
        return ButtonAction::VerticalGapUp;
    }
    if str_eq(button_action, "i") || str_eq(button_action, "pixel-vertical-gap-dec") {
        return ButtonAction::VerticalGapDown;
    }
    if str_eq(button_action, "j") || str_eq(button_action, "pixel-horizontal-gap-inc") {
        return ButtonAction::HorizontalGapUp;
    }
    if str_eq(button_action, "k") || str_eq(button_action, "pixel-horizontal-gap-dec") {
        return ButtonAction::HorizontalGapDown;
    }
    if str_eq(button_action, "<") || str_eq(button_action, "&lt;") || str_eq(button_action, "pixel-contrast-inc") {
        return ButtonAction::ContrastUp;
    }
    if str_eq(button_action, "z") || str_eq(button_action, "pixel-contrast-dec") {
        return ButtonAction::ContrastDown;
    }
    if str_eq(button_action, "c") || str_eq(button_action, "pixel-brightness-inc") {
        return ButtonAction::BrightUp;
    }
    if str_eq(button_action, "x") || str_eq(button_action, "pixel-brightness-dec") {
        return ButtonAction::BrightDown;
    }
    if str_eq(button_action, "feature-change-screen-layering-type") {
        return ButtonAction::NextLayeringFeature;
    }
    if str_eq(button_action, "feature-change-pixel-shadow") {
        return ButtonAction::ToggleShadowFeature;
    }
    if str_eq(button_action, "y") || str_eq(button_action, "feature-change-color-representation") {
        return ButtonAction::NextColorRepresentation;
    }
    if str_eq(button_action, "o") || str_eq(button_action, "feature-change-pixel-geometry") {
        return ButtonAction::NextPixelGeometry;
    }
    if str_eq(button_action, "l") || str_eq(button_action, "feature-change-screen-curvature") {
        return ButtonAction::NextScreenCurvature;
    }
    if str_eq(button_action, " ") || str_eq(button_action, "space") {
        return ButtonAction::Space;
    }
    if str_eq(button_action, "escape") || str_eq(button_action, "esc") || str_eq(button_action, "feature-quit") {
        return ButtonAction::Esc;
    }
    if str_eq(button_action, "f4") {
        return ButtonAction::Screenshot;
    }
    if str_eq(button_action, "b") || str_eq(button_action, "blur-level-inc") {
        return ButtonAction::BlurUp;
    }
    if str_eq(button_action, "v") || str_eq(button_action, "bluer-level-dec") {
        return ButtonAction::BlurDown;
    }
    if str_eq(button_action, "g") || str_eq(button_action, "lines-per-pixel-inc") {
        return ButtonAction::LppUp;
    }
    if str_eq(button_action, "h") || str_eq(button_action, "lines-per-pixel-dec") {
        return ButtonAction::LppDown;
    }
    if str_eq(button_action, "feature-change-move-speed-inc") {
        return ButtonAction::MoveSpeedUp;
    }
    if str_eq(button_action, "feature-change-move-speed-dec") {
        return ButtonAction::MoveSpeedDown;
    }
    if str_eq(button_action, "feature-change-pixel-speed-inc") {
        return ButtonAction::FilterSpeedUp;
    }
    if str_eq(button_action, "feature-change-pixel-speed-dec") {
        return ButtonAction::FilterSpeedDown;
    }
    ButtonAction::Unknown
}

/// The focus-guarded punctuation keys: ignored while a text field has
/// the focus.
pub open spec fn spec_apply_guarded_keys(i: Input, act: ButtonAction, pressed: bool) -> Input {
    match act {
        ButtonAction::NextLayeringKey => if i.input_focused {
            i
        } else {
            Input { next_layering_kind: BooleanButton { input: pressed, ..i.next_layering_kind }, ..i }
        },
        ButtonAction::ToggleShadowKey => if i.input_focused {
            i
        } else {
            Input { toggle_pixels_shadow_kind: BooleanButton { input: pressed, ..i.toggle_pixels_shadow_kind }, ..i }
        },
        ButtonAction::RotateLeftKey => if i.input_focused {
            i
        } else {
            Input { rotate_left: pressed, ..i }
        },
        ButtonAction::RotateRightKey => if i.input_focused {
            i
        } else {
            Input { rotate_right: pressed, ..i }
        },
        _ => i,
    }
}

/// The speed key pair, routed by shift between the filter-change speed
/// and the camera speeds.
pub open spec fn spec_apply_speed_pair(i: Input, act: ButtonAction, pressed: bool) -> Input {
    match act {
        ButtonAction::SpeedUp => if i.shift {
            Input {
                filter_speed: IncDecButtons {
                    increase: BooleanButton { input: pressed, ..i.filter_speed.increase },
                    ..i.filter_speed
                },
                ..i
            }
        } else {
            Input {
                translation_speed: IncDecButtons {
                    increase: BooleanButton { input: pressed, ..i.translation_speed.increase },
                    ..i.translation_speed
                },
                ..i
            }
        },
        ButtonAction::SpeedDown => if i.shift {
            Input {
                filter_speed: IncDecButtons {
                    decrease: BooleanButton { input: pressed, ..i.filter_speed.decrease },
                    ..i.filter_speed
                },
                ..i
            }
        } else {
            Input {
                translation_speed: IncDecButtons {
                    decrease: BooleanButton { input: pressed, ..i.translation_speed.decrease },
                    ..i.translation_speed
                },
                ..i
            }
        },
        _ => i,
    }
}

/// The width key pair, routed by shift between pixel width and spread.
pub open spec fn spec_apply_width_pair(i: Input, act: ButtonAction, pressed: bool) -> Input {
    match act {
        ButtonAction::PixelWidthUp => if i.shift {
            Input { pixel_gap: IncDecFlags { increase: pressed, ..i.pixel_gap }, ..i }
        } else {
            Input { pixel_width: IncDecFlags { increase: pressed, ..i.pixel_width }, ..i }
        },
        ButtonAction::PixelWidthDown => if i.shift {
            Input { pixel_gap: IncDecFlags { decrease: pressed, ..i.pixel_gap }, ..i }
        } else {
            Input { pixel_width: IncDecFlags { decrease: pressed, ..i.pixel_width }, ..i }
        },
        _ => i,
    }
}

/// The shift key itself: it re-routes the width pair, so it clears the
/// raw flags of the pair it leaves behind.
pub open spec fn spec_apply_shift_key(i: Input, act: ButtonAction, pressed: bool) -> Input {
    match act {
        ButtonAction::Shift => if pressed {
            Input {
                shift: true,
                pixel_width: IncDecFlags { increase: false, decrease: false },
                ..i
            }
        } else {
            Input {
                shift: false,
                pixel_gap: IncDecFlags { increase: false, decrease: false },
                ..i
            }
        },
        _ => i,
    }
}

/// The key pairs the shift modifier routes, and the shift key itself.
pub open spec fn spec_apply_shift_routed_keys(i: Input, act: ButtonAction, pressed: bool) -> Input {
    match act {
        ButtonAction::SpeedUp | ButtonAction::SpeedDown => spec_apply_speed_pair(i, act, pressed),
        ButtonAction::PixelWidthUp | ButtonAction::PixelWidthDown => spec_apply_width_pair(
            i,
            act,
            pressed,
        ),
        ButtonAction::Shift => spec_apply_shift_key(i, act, pressed),
        _ => i,
    }
}

/// The four strafing/walking keys of this part of the table.
pub open spec fn spec_apply_walk_keys(i: Input, act: ButtonAction, pressed: bool) -> Input {
    match act {
        ButtonAction::WalkLeft => Input { walk_left: pressed, ..i },
        ButtonAction::WalkRight => Input { walk_right: pressed, ..i },
        ButtonAction::WalkForward => Input { walk_forward: pressed, ..i },
        ButtonAction::WalkBackward => Input { walk_backward: pressed, ..i },
        _ => i,
    }
}

/// This part of the table: the guarded punctuation, the shift-routed
/// pairs, and the walking keys.
pub open spec fn spec_apply_keys(i: Input, act: ButtonAction, pressed: bool) -> Input {
    match act {
        ButtonAction::NextLayeringKey
        | ButtonAction::ToggleShadowKey
        | ButtonAction::RotateLeftKey
        | ButtonAction::RotateRightKey => spec_apply_guarded_keys(i, act, pressed),
        ButtonAction::SpeedUp
        | ButtonAction::SpeedDown
        | ButtonAction::PixelWidthUp
        | ButtonAction::PixelWidthDown
        | ButtonAction::Shift => spec_apply_shift_routed_keys(i, act, pressed),
        ButtonAction::WalkLeft
        | ButtonAction::WalkRight
        | ButtonAction::WalkForward
        | ButtonAction::WalkBackward => spec_apply_walk_keys(i, act, pressed),
        _ => i,
    }
}

/// One part of the table's entries applied; entries outside this part
/// change nothing.
pub open spec fn spec_apply_motion(i: Input, act: ButtonAction, pressed: bool) -> Input {
    match act {
        ButtonAction::WalkUp => Input { walk_up: pressed, ..i },
        ButtonAction::WalkDown => Input { walk_down: pressed, ..i },
        ButtonAction::TurnLeft => Input { turn_left: pressed, ..i },
        ButtonAction::TurnRight => Input { turn_right: pressed, ..i },
        ButtonAction::TurnUp => Input { turn_up: pressed, ..i },
        ButtonAction::TurnDown => Input { turn_down: pressed, ..i },
        ButtonAction::ResetSpeeds => Input { reset_speeds: pressed, ..i },
        ButtonAction::ResetCamera => Input { reset_position: pressed, ..i },
        ButtonAction::ResetFilters => Input { reset_filters: pressed, ..i },
        ButtonAction::Alt => Input { alt: pressed, ..i },
        ButtonAction::InputFocused => Input { input_focused: pressed, ..i },
        ButtonAction::CameraZoomUp => Input { camera_zoom: IncDecFlags { increase: pressed, ..i.camera_zoom }, ..i },
        ButtonAction::CameraZoomDown => Input { camera_zoom: IncDecFlags { decrease: pressed, ..i.camera_zoom }, ..i },
        _ => i,
    }
}
/// One part of the table's entries applied; entries outside this part
/// change nothing.
pub open spec fn spec_apply_scalars(i: Input, act: ButtonAction, pressed: bool) -> Input {
    match act {
        ButtonAction::VerticalGapUp => Input { pixel_scale_x: IncDecFlags { increase: pressed, ..i.pixel_scale_x }, ..i },
        ButtonAction::VerticalGapDown => Input { pixel_scale_x: IncDecFlags { decrease: pressed, ..i.pixel_scale_x }, ..i },
        ButtonAction::HorizontalGapUp => Input { pixel_scale_y: IncDecFlags { increase: pressed, ..i.pixel_scale_y }, ..i },
        ButtonAction::HorizontalGapDown => Input { pixel_scale_y: IncDecFlags { decrease: pressed, ..i.pixel_scale_y }, ..i },
        ButtonAction::ContrastUp => Input { contrast: IncDecFlags { increase: pressed, ..i.contrast }, ..i },
        ButtonAction::ContrastDown => Input { contrast: IncDecFlags { decrease: pressed, ..i.contrast }, ..i },
        ButtonAction::BrightUp => Input { bright: IncDecFlags { increase: pressed, ..i.bright }, ..i },
        ButtonAction::BrightDown => Input { bright: IncDecFlags { decrease: pressed, ..i.bright }, ..i },
        ButtonAction::NextLayeringFeature => Input { next_layering_kind: BooleanButton { input: pressed, ..i.next_layering_kind }, ..i },
        ButtonAction::ToggleShadowFeature => Input { toggle_pixels_shadow_kind: BooleanButton { input: pressed, ..i.toggle_pixels_shadow_kind }, ..i },
        ButtonAction::NextColorRepresentation => Input { next_color_representation_kind: BooleanButton { input: pressed, ..i.next_color_representation_kind }, ..i },
        ButtonAction::NextPixelGeometry => Input { next_pixel_geometry_kind: BooleanButton { input: pressed, ..i.next_pixel_geometry_kind }, ..i },
        _ => i,
    }
}
/// One part of the table's entries applied; entries outside this part
/// change nothing.
pub open spec fn spec_apply_features(i: Input, act: ButtonAction, pressed: bool) -> Input {
    match act {
        ButtonAction::NextScreenCurvature => Input { next_screen_curvature_type: BooleanButton { input: pressed, ..i.next_screen_curvature_type }, ..i },
        ButtonAction::Space => Input { space: BooleanButton { input: pressed, ..i.space }, ..i },
        ButtonAction::Esc => Input { esc: BooleanButton { input: pressed, ..i.esc }, ..i },
        ButtonAction::Screenshot => Input { screenshot: BooleanButton { input: pressed, ..i.screenshot }, ..i },
        ButtonAction::BlurUp => Input {
            blur: IncDecButtons {
                increase: BooleanButton { input: pressed, ..i.blur.increase },
                ..i.blur
            },
            ..i
        },
        ButtonAction::BlurDown => Input {
            blur: IncDecButtons {
                decrease: BooleanButton { input: pressed, ..i.blur.decrease },
                ..i.blur
            },
            ..i
        },
        ButtonAction::LppUp => Input {
            lpp: IncDecButtons {
                increase: BooleanButton { input: pressed, ..i.lpp.increase },
                ..i.lpp
            },
            ..i
        },
        ButtonAction::LppDown => Input {
            lpp: IncDecButtons {
                decrease: BooleanButton { input: pressed, ..i.lpp.decrease },
                ..i.lpp
            },
            ..i
        },
        ButtonAction::MoveSpeedUp => Input {
            translation_speed: IncDecButtons {
                increase: BooleanButton { input: pressed, ..i.translation_speed.increase },
                ..i.translation_speed
            },
            ..i
        },
        ButtonAction::MoveSpeedDown => Input {
            translation_speed: IncDecButtons {
                decrease: BooleanButton { input: pressed, ..i.translation_speed.decrease },
                ..i.translation_speed
            },
            ..i
        },
        ButtonAction::FilterSpeedUp => Input {
            filter_speed: IncDecButtons {
                increase: BooleanButton { input: pressed, ..i.filter_speed.increase },
                ..i.filter_speed
            },
            ..i
        },
        ButtonAction::FilterSpeedDown => Input {
            filter_speed: IncDecButtons {
                decrease: BooleanButton { input: pressed, ..i.filter_speed.decrease },
                ..i.filter_speed
            },
            ..i
        },
        _ => i,
    }
}

/// The input after one table entry is applied: which raw flag or tracker
/// sample the entry writes, with the focus guard on the punctuation keys
/// and the shift routing on the shared key pairs.
pub open spec fn spec_apply_action(i: Input, act: ButtonAction, pressed: bool) -> Input {
    match act {
        ButtonAction::NextLayeringKey
        | ButtonAction::ToggleShadowKey
        | ButtonAction::RotateLeftKey
        | ButtonAction::RotateRightKey
        | ButtonAction::SpeedUp
        | ButtonAction::SpeedDown
        | ButtonAction::PixelWidthUp
        | ButtonAction::PixelWidthDown
        | ButtonAction::Shift
        | ButtonAction::WalkLeft
        | ButtonAction::WalkRight
        | ButtonAction::WalkForward
        | ButtonAction::WalkBackward => spec_apply_keys(i, act, pressed),
        ButtonAction::WalkUp
        | ButtonAction::WalkDown
        | ButtonAction::TurnLeft
        | ButtonAction::TurnRight
        | ButtonAction::TurnUp
        | ButtonAction::TurnDown
        | ButtonAction::ResetSpeeds
        | ButtonAction::ResetCamera
        | ButtonAction::ResetFilters
        | ButtonAction::Alt
        | ButtonAction::InputFocused
        | ButtonAction::CameraZoomUp
        | ButtonAction::CameraZoomDown => spec_apply_motion(i, act, pressed),
        ButtonAction::VerticalGapUp
        | ButtonAction::VerticalGapDown
        | ButtonAction::HorizontalGapUp
        | ButtonAction::HorizontalGapDown
        | ButtonAction::ContrastUp
        | ButtonAction::ContrastDown
        | ButtonAction::BrightUp
        | ButtonAction::BrightDown
        | ButtonAction::NextLayeringFeature
        | ButtonAction::ToggleShadowFeature
        | ButtonAction::NextColorRepresentation
        | ButtonAction::NextPixelGeometry => spec_apply_scalars(i, act, pressed),
        ButtonAction::NextScreenCurvature
        | ButtonAction::Space
        | ButtonAction::Esc
        | ButtonAction::Screenshot
        | ButtonAction::BlurUp
        | ButtonAction::BlurDown
        | ButtonAction::LppUp
        | ButtonAction::LppDown
        | ButtonAction::MoveSpeedUp
        | ButtonAction::MoveSpeedDown
        | ButtonAction::FilterSpeedUp
        | ButtonAction::FilterSpeedDown => spec_apply_features(i, act, pressed),
        ButtonAction::Unknown => i,
    }
}


#[verifier::spinoff_prover]
#[verifier::rlimit(100)]
fn apply_guarded_keys(input: &mut Input, act: ButtonAction, pressed: bool)
    ensures
        *final(input) == spec_apply_guarded_keys(*old(input), act, pressed),
{
    match act {
        ButtonAction::NextLayeringKey => {
            if !input.input_focused {
                input.next_layering_kind.input = pressed;
                return ;
            }
            return ;
        },
        ButtonAction::ToggleShadowKey => {
            if !input.input_focused {
                input.toggle_pixels_shadow_kind.input = pressed;
                return ;
            }
            return ;
        },
        ButtonAction::RotateLeftKey => {
            if !input.input_focused {
                input.rotate_left = pressed;
                return ;
            }
            return ;
        },
        ButtonAction::RotateRightKey => {
            if !input.input_focused {
                input.rotate_right = pressed;
                return ;
            }
            return ;
        },
        _ => {
            return ;
        },
    }
}

#[verifier::spinoff_prover]
#[verifier::rlimit(100)]
fn apply_speed_pair(input: &mut Input, act: ButtonAction, pressed: bool)
    ensures
        *final(input) == spec_apply_speed_pair(*old(input), act, pressed),
{
    match act {
        ButtonAction::SpeedUp => {
            if input.shift {
                input.filter_speed.increase.input = pressed;
                return ;
            } else {
                input.translation_speed.increase.input = pressed;
                return ;
            }
        },
        ButtonAction::SpeedDown => {
            if input.shift {
                input.filter_speed.decrease.input = pressed;
                return ;
            } else {
                input.translation_speed.decrease.input = pressed;
                return ;
            }
        },
        _ => {
            return ;
        },
    }
}

#[verifier::spinoff_prover]
#[verifier::rlimit(100)]
fn apply_width_pair(input: &mut Input, act: ButtonAction, pressed: bool)
    ensures
        *final(input) == spec_apply_width_pair(*old(input), act, pressed),
{
    match act {
        ButtonAction::PixelWidthUp => {
            if input.shift {
                input.pixel_gap.increase = pressed;
                return ;
            } else {
                input.pixel_width.increase = pressed;
                return ;
            }
        },
        ButtonAction::PixelWidthDown => {
            if input.shift {
                input.pixel_gap.decrease = pressed;
                return ;
            } else {
                input.pixel_width.decrease = pressed;
                return ;
            }
        },
        _ => {
            return ;
        },
    }
}

#[verifier::spinoff_prover]
#[verifier::rlimit(100)]
fn apply_shift_key(input: &mut Input, act: ButtonAction, pressed: bool)
    ensures
        *final(input) == spec_apply_shift_key(*old(input), act, pressed),
{
    match act {
        ButtonAction::Shift => {
            input.shift = pressed;
            if pressed {
                input.pixel_width.increase = false;
                input.pixel_width.decrease = false;
                return ;
            } else {
                input.pixel_gap.increase = false;
                input.pixel_gap.decrease = false;
                return ;
            }
        },
        _ => {
            return ;
        },
    }
}

#[verifier::spinoff_prover]
#[verifier::rlimit(100)]
fn apply_shift_routed_keys(input: &mut Input, act: ButtonAction, pressed: bool)
    ensures
        *final(input) == spec_apply_shift_routed_keys(*old(input), act, pressed),
{
    match act {
        ButtonAction::SpeedUp | ButtonAction::SpeedDown => {
            apply_speed_pair(input, act, pressed);
            return ;
        },
        ButtonAction::PixelWidthUp | ButtonAction::PixelWidthDown => {
            apply_width_pair(input, act, pressed);
            return ;
        },
        ButtonAction::Shift => {
            apply_shift_key(input, act, pressed);
            return ;
        },
        _ => {
            return ;
        },
    }
}

#[verifier::spinoff_prover]
#[verifier::rlimit(100)]
fn apply_walk_keys(input: &mut Input, act: ButtonAction, pressed: bool)
    ensures
        *final(input) == spec_apply_walk_keys(*old(input), act, pressed),
{
    match act {
        ButtonAction::WalkLeft => {
            input.walk_left = pressed;
            return ;
        },
        ButtonAction::WalkRight => {
            input.walk_right = pressed;
            return ;
        },
        ButtonAction::WalkForward => {
            input.walk_forward = pressed;
            return ;
        },
        ButtonAction::WalkBackward => {
            input.walk_backward = pressed;
            return ;
        },
        _ => {
            return ;
        },
    }
}

#[verifier::spinoff_prover]
#[verifier::rlimit(100)]
fn apply_keys(input: &mut Input, act: ButtonAction, pressed: bool)
    ensures
        *final(input) == spec_apply_keys(*old(input), act, pressed),
{
    match act {
        ButtonAction::NextLayeringKey
        | ButtonAction::ToggleShadowKey
        | ButtonAction::RotateLeftKey
        | ButtonAction::RotateRightKey => {
            apply_guarded_keys(input, act, pressed);
            return ;
        },
        ButtonAction::SpeedUp
        | ButtonAction::SpeedDown
        | ButtonAction::PixelWidthUp
        | ButtonAction::PixelWidthDown
        | ButtonAction::Shift => {
            apply_shift_routed_keys(input, act, pressed);
            return ;
        },
        ButtonAction::WalkLeft
        | ButtonAction::WalkRight
        | ButtonAction::WalkForward
        | ButtonAction::WalkBackward => {
            apply_walk_keys(input, act, pressed);
            return ;
        },
        _ => {
            return ;
        },
    }
}
#[verifier::spinoff_prover]
#[verifier::rlimit(100)]
fn apply_motion(input: &mut Input, act: ButtonAction, pressed: bool)
    ensures
        *final(input) == spec_apply_motion(*old(input), act, pressed),
{
    match act {
        ButtonAction::WalkUp => {
            input.walk_up = pressed;
            return ;
        },
        ButtonAction::WalkDown => {
            input.walk_down = pressed;
            return ;
        },
        ButtonAction::TurnLeft => {
            input.turn_left = pressed;
            return ;
        },
        ButtonAction::TurnRight => {
            input.turn_right = pressed;
            return ;
        },
        ButtonAction::TurnUp => {
            input.turn_up = pressed;
            return ;
        },
        ButtonAction::TurnDown => {
            input.turn_down = pressed;
            return ;
        },
        ButtonAction::ResetSpeeds => {
            input.reset_speeds = pressed;
            return ;
        },
        ButtonAction::ResetCamera => {
            input.reset_position = pressed;
            return ;
        },
        ButtonAction::ResetFilters => {
            input.reset_filters = pressed;
            return ;
        },
        ButtonAction::Alt => {
            input.alt = pressed;
            return ;
        },
        ButtonAction::InputFocused => {
            input.input_focused = pressed;
            return ;
        },
        ButtonAction::CameraZoomUp => {
            input.camera_zoom.increase = pressed;
            return ;
        },
        ButtonAction::CameraZoomDown => {
            input.camera_zoom.decrease = pressed;
            return ;
        },
        _ => {
            return ;
        },
    }
}
#[verifier::spinoff_prover]
#[verifier::rlimit(100)]
fn apply_scalars(input: &mut Input, act: ButtonAction, pressed: bool)
    ensures
        *final(input) == spec_apply_scalars(*old(input), act, pressed),
{
    match act {
        ButtonAction::VerticalGapUp => {
            input.pixel_scale_x.increase = pressed;
            return ;
        },
        ButtonAction::VerticalGapDown => {
            input.pixel_scale_x.decrease = pressed;
            return ;
        },
        ButtonAction::HorizontalGapUp => {
            input.pixel_scale_y.increase = pressed;
            return ;
        },
        ButtonAction::HorizontalGapDown => {
            input.pixel_scale_y.decrease = pressed;
            return ;
        },
        ButtonAction::ContrastUp => {
            input.contrast.increase = pressed;
            return ;
        },
        ButtonAction::ContrastDown => {
            input.contrast.decrease = pressed;
            return ;
        },
        ButtonAction::BrightUp => {
            input.bright.increase = pressed;
            return ;
        },
        ButtonAction::BrightDown => {
            input.bright.decrease = pressed;
            return ;
        },
        ButtonAction::NextLayeringFeature => {
            input.next_layering_kind.input = pressed;
            return ;
        },
        ButtonAction::ToggleShadowFeature => {
            input.toggle_pixels_shadow_kind.input = pressed;
            return ;
        },
        ButtonAction::NextColorRepresentation => {
            input.next_color_representation_kind.input = pressed;
            return ;
        },
        ButtonAction::NextPixelGeometry => {
            input.next_pixel_geometry_kind.input = pressed;
            return ;
        },
        _ => {
            return ;
        },
    }
}
#[verifier::spinoff_prover]
#[verifier::rlimit(100)]
fn apply_features(input: &mut Input, act: ButtonAction, pressed: bool)
    ensures
        *final(input) == spec_apply_features(*old(input), act, pressed),
{
    match act {
        ButtonAction::NextScreenCurvature => {
            input.next_screen_curvature_type.input = pressed;
            return ;
        },
        ButtonAction::Space => {
            input.space.input = pressed;
            return ;
        },
        ButtonAction::Esc => {
            input.esc.input = pressed;
            return ;
        },
        ButtonAction::Screenshot => {
            input.screenshot.input = pressed;
            return ;
        },
        ButtonAction::BlurUp => {
            input.blur.increase.input = pressed;
            return ;
        },
        ButtonAction::BlurDown => {
            input.blur.decrease.input = pressed;
            return ;
        },
        ButtonAction::LppUp => {
            input.lpp.increase.input = pressed;
            return ;
        },
        ButtonAction::LppDown => {
            input.lpp.decrease.input = pressed;
            return ;
        },
        ButtonAction::MoveSpeedUp => {
            input.translation_speed.increase.input = pressed;
            return ;
        },
        ButtonAction::MoveSpeedDown => {
            input.translation_speed.decrease.input = pressed;
            return ;
        },
        ButtonAction::FilterSpeedUp => {
            input.filter_speed.increase.input = pressed;
            return ;
        },
        ButtonAction::FilterSpeedDown => {
            input.filter_speed.decrease.input = pressed;
            return ;
        },
        _ => {
            return ;
        },
    }
}

/// Write the raw input a table entry samples.
fn apply_action(input: &mut Input, act: ButtonAction, pressed: bool)
    ensures
        *final(input) == spec_apply_action(*old(input), act, pressed),
{
    match act {
        ButtonAction::NextLayeringKey
        | ButtonAction::ToggleShadowKey
        | ButtonAction::RotateLeftKey
        | ButtonAction::RotateRightKey
        | ButtonAction::SpeedUp
        | ButtonAction::SpeedDown
        | ButtonAction::PixelWidthUp
        | ButtonAction::PixelWidthDown
        | ButtonAction::Shift
        | ButtonAction::WalkLeft
        | ButtonAction::WalkRight
        | ButtonAction::WalkForward
        | ButtonAction::WalkBackward => {
            apply_keys(input, act, pressed);
            return ;
        },
        ButtonAction::WalkUp
        | ButtonAction::WalkDown
        | ButtonAction::TurnLeft
        | ButtonAction::TurnRight
        | ButtonAction::TurnUp
        | ButtonAction::TurnDown
        | ButtonAction::ResetSpeeds
        | ButtonAction::ResetCamera
        | ButtonAction::ResetFilters
        | ButtonAction::Alt
        | ButtonAction::InputFocused
        | ButtonAction::CameraZoomUp
        | ButtonAction::CameraZoomDown => {
            apply_motion(input, act, pressed);
            return ;
        },
        ButtonAction::VerticalGapUp
        | ButtonAction::VerticalGapDown
        | ButtonAction::HorizontalGapUp
        | ButtonAction::HorizontalGapDown
        | ButtonAction::ContrastUp
        | ButtonAction::ContrastDown
        | ButtonAction::BrightUp
        | ButtonAction::BrightDown
        | ButtonAction::NextLayeringFeature
        | ButtonAction::ToggleShadowFeature
        | ButtonAction::NextColorRepresentation
        | ButtonAction::NextPixelGeometry => {
            apply_scalars(input, act, pressed);
            return ;
        },
        ButtonAction::NextScreenCurvature
        | ButtonAction::Space
        | ButtonAction::Esc
        | ButtonAction::Screenshot
        | ButtonAction::BlurUp
        | ButtonAction::BlurDown
        | ButtonAction::LppUp
        | ButtonAction::LppDown
        | ButtonAction::MoveSpeedUp
        | ButtonAction::MoveSpeedDown
        | ButtonAction::FilterSpeedUp
        | ButtonAction::FilterSpeedDown => {
            apply_features(input, act, pressed);
            return ;
        },
        ButtonAction::Unknown => {
            return ;
        },
    }
}


/// The position of the first `'+'` in `a`, or `a.len()` when it has none.
pub open spec fn spec_first_plus(a: Seq<char>) -> int
    decreases a.len(),
{
    if a.len() == 0 {
        0
    } else if a[0] == '+' {
        0
    } else {
        1 + spec_first_plus(a.skip(1))
    }
}

/// The input after one action of any shape: a name in the table applies
/// its entry; a name outside it containing `+` splits at the first `+`
/// and applies its head, then its tail; anything else changes nothing.
pub open spec fn spec_on_button_action(i: Input, a: Seq<char>, pressed: bool) -> Input
    decreases a.len(),
{
    if !(spec_decode_action(a) is Unknown) {
        spec_apply_action(i, spec_decode_action(a), pressed)
    } else if 0 <= spec_first_plus(a) && spec_first_plus(a) < a.len() {
        let k = spec_first_plus(a);
        spec_on_button_action(
            spec_on_button_action(i, a.take(k), pressed),
            a.skip(k + 1),
            pressed,
        )
    } else {
        i
    }
}

/// A prefix free of `'+'` that ends at one pins where the first `'+'` is.
proof fn lemma_first_plus_at(a: Seq<char>, k: int)
    requires
        0 <= k <= a.len(),
        forall|m: int| 0 <= m < k ==> a[m] != '+',
        k < a.len() ==> a[k] == '+',
    ensures
        spec_first_plus(a) == k,
    decreases k,
{
    if a.len() == 0 {
    } else if k == 0 {
    } else {
        assert(a[0] != '+');
        assert(forall|m: int| 0 <= m < k - 1 ==> a.skip(1)[m] == a[m + 1]);
        lemma_first_plus_at(a.skip(1), k - 1);
    }
}

/// Route one named action to the raw input it samples. An action string
/// containing `+` is a composite: each fragment dispatches on its own,
/// left to right. An action that matches nothing and holds no `+` leaves
/// the input untouched.
#[verifier::spinoff_prover]
pub fn on_button_action(input: &mut Input, button_action: &str, pressed: bool)
    ensures
        *final(input) == spec_on_button_action(*old(input), button_action@, pressed),
    decreases button_action@.len(),
{
    let act = decode_action(button_action);
    match act {
        ButtonAction::Unknown => {},
        _ => {
            apply_action(input, act, pressed);
            return ;
        },
    }
    let len = button_action.unicode_len();
    let mut k: usize = 0;
    let mut found = false;
    while k < len && !found
        invariant
            len == button_action@.len(),
            k <= len,
            found ==> k < len && button_action@[k as int] == '+',
            forall|m: int| 0 <= m < k ==> button_action@[m] != '+',
        decreases len - k + (if found {
            0int
        } else {
            1
        }),
    {
        if button_action.get_char(k) == '+' {
            found = true;
        } else {
            k = k + 1;
        }
    }
    proof {
        if found {
            lemma_first_plus_at(button_action@, k as int);
        } else {
            lemma_first_plus_at(button_action@, len as int);
        }
    }
    if found {
        let head = button_action.substring_char(0, k);
        let tail = button_action.substring_char(k + 1, len);
        proof {
            assert(head@ =~= button_action@.take(k as int));
            assert(tail@ =~= button_action@.skip(k as int + 1));
        }
        on_button_action(input, head, pressed);
        on_button_action(input, tail, pressed);
    }
}

} // verus!
