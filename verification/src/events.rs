//! The notification surface: every observable change is reported to the
//! host as one typed event on an explicit channel (a growing `Vec` the
//! host drains after each tick).

use vstd::prelude::*;
use crate::camera::Vec3;
use crate::filters::{ColorChannels, PixelsGeometryKind, ScreenLayeringKind};
use crate::messages::Msg;

verus! {

/// One notification to the host. Fire-and-forget; carries its typed payload.
/// Continuous scalars are in fixed-point micro-units.
#[derive(Copy, Clone, PartialEq, Eq, Structural, Debug)]
pub enum AppEvent {
    /// A top-of-screen message; `messages::msg_text` renders its text.
    TopMessage(Msg),
    /// A parameter hit its lower bound; carries the bound.
    MinimumValue(i64),
    /// A parameter hit its upper bound; carries the bound.
    MaximumValue(i64),
    ChangePixelVerticalGap(i64),
    ChangePixelHorizontalGap(i64),
    ChangePixelWidth(i64),
    ChangePixelSpread(i64),
    ChangePixelBrightness(i64),
    ChangePixelContrast(i64),
    ChangeLightColor(i32),
    ChangeBrightnessColor(i32),
    ChangeColorNoise(i64),
    ChangeCameraZoom(i64),
    ChangeBlurLevel(u32),
    ChangeLinesPerPixel(u32),
    /// Speed multipliers relative to their base speed, in micro-units.
    ChangePixelSpeed(i64),
    ChangeTurningSpeed(i64),
    ChangeMovementSpeed(i64),
    ColorRepresentation(ColorChannels),
    PixelGeometry(PixelsGeometryKind),
    PixelShadowShape(u32),
    ScreenLayeringType(ScreenLayeringKind),
    ShowingPixelsPulse(bool),
    /// The camera pose after this tick: position, direction and up axis,
    /// each in fixed-point micro-units.
    CameraUpdate(Vec3, Vec3, Vec3),
    ExitingSession,
    ToggleInfoPanel,
    Fps(u32),
    RequestPointerLock,
    ExitPointerLock,
}

} // verus!
