//! Raw and debounced input for one tick: boolean flags set by the host's
//! key bindings, edge trackers over them, mouse state, and the optional
//! externally injected override event.

use vstd::prelude::*;

verus! {

/// Edge tracker for one button.
///
/// `input` is the raw sample the host writes between ticks; `track_input`
/// must run exactly once per tick before any predicate is read, shifting
/// `current` into `previous` and latching the sample.
#[derive(Copy, Clone, PartialEq, Eq, Structural, Debug)]
pub struct BooleanButton {
    pub input: bool,
    pub previous: bool,
    pub current: bool,
}

/// The tracker after one `track_input` call.
pub open spec fn spec_tracked(b: BooleanButton) -> BooleanButton {
    BooleanButton { input: b.input, previous: b.current, current: b.input }
}

impl BooleanButton {
    pub fn new() -> (r: BooleanButton)
        ensures
            r == (BooleanButton { input: false, previous: false, current: false }),
    {
        BooleanButton { input: false, previous: false, current: false }
    }

    /// One tick's sampling step: the derived predicates are valid only for
    /// the tick immediately after this call.
    pub fn track_input(&mut self)
        ensures
            *final(self) == spec_tracked(*old(self)),
    {
        self.previous = self.current;
        self.current = self.input;
    }

    pub open spec fn spec_just_pressed(self) -> bool {
        self.current && !self.previous
    }

    pub open spec fn spec_just_released(self) -> bool {
        !self.current && self.previous
    }

    pub fn is_just_pressed(&self) -> (r: bool)
        ensures
            r == self.spec_just_pressed(),
    {
        self.current && !self.previous
    }

    pub fn is_just_released(&self) -> (r: bool)
        ensures
            r == self.spec_just_released(),
    {
        !self.current && self.previous
    }

    pub fn is_activated(&self) -> (r: bool)
        ensures
            r == self.current,
    {
        self.current
    }
}

/// After a false-to-true transition of the raw sample, `is_just_pressed`
/// holds for exactly the one tick that tracked the transition: it is true
/// right after that tracking call, and false again after the next one,
/// whatever the sample then is. It can only ever hold when the latest
/// tracking call saw a false-to-true step.
pub proof fn lemma_just_pressed_exactly_one_tick(b: BooleanButton, later_sample: bool)
    requires
        !b.current,
        b.input,
    ensures
        spec_tracked(b).spec_just_pressed(),
        !spec_tracked(
            BooleanButton {
                input: later_sample,
                previous: spec_tracked(b).previous,
                current: spec_tracked(b).current,
            },
        ).spec_just_pressed(),
        forall|t: BooleanButton|
            (#[trigger] spec_tracked(t).spec_just_pressed()) ==> (!t.current && t.input),
{
}

/// A pair of raw increase/decrease flags.
#[derive(Copy, Clone, PartialEq, Eq, Structural, Debug)]
pub struct IncDecFlags {
    pub increase: bool,
    pub decrease: bool,
}

impl IncDecFlags {
    pub fn new() -> (r: IncDecFlags)
        ensures
            r == (IncDecFlags { increase: false, decrease: false }),
    {
        IncDecFlags { increase: false, decrease: false }
    }
}

/// A pair of edge-tracked increase/decrease buttons.
#[derive(Copy, Clone, PartialEq, Eq, Structural, Debug)]
pub struct IncDecButtons {
    pub increase: BooleanButton,
    pub decrease: BooleanButton,
}

impl IncDecButtons {
    pub fn new() -> (r: IncDecButtons)
        ensures
            !r.increase.input && !r.increase.previous && !r.increase.current,
            !r.decrease.input && !r.decrease.previous && !r.decrease.current,
    {
        IncDecButtons { increase: BooleanButton::new(), decrease: BooleanButton::new() }
    }
}

/// The payload of an externally injected override event.
#[derive(Clone, PartialEq, Eq, Debug)]
pub enum EventValue {
    /// No payload.
    NoValue,
    /// A numeric payload, in fixed-point micro-units.
    Number(i64),
    /// A textual payload.
    Text(String),
}

/// At most one externally injected override per tick: a kind string out of a
/// fixed vocabulary, and its payload. An empty kind means no event.
pub struct CustomEvent {
    pub kind: String,
    pub value: EventValue,
}

impl CustomEvent {
    pub fn new() -> (r: CustomEvent)
        ensures
            r.kind@ == Seq::<char>::empty(),
            r.value == EventValue::NoValue,
    {
        CustomEvent { kind: String::new(), value: EventValue::NoValue }
    }
}

/// Everything the simulation reads from the host for one tick.
pub struct Input {
    /// Wall-clock time of this tick, in milliseconds.
    pub now: u64,
    pub walk_left: bool,
    pub walk_right: bool,
    pub walk_up: bool,
    pub walk_down: bool,
    pub walk_forward: bool,
    pub walk_backward: bool,
    pub turn_left: bool,
    pub turn_right: bool,
    pub turn_up: bool,
    pub turn_down: bool,
    pub rotate_left: bool,
    pub rotate_right: bool,
    pub camera_zoom: IncDecFlags,
    pub reset_speeds: bool,
    pub reset_position: bool,
    pub reset_filters: bool,
    pub shift: bool,
    pub alt: bool,
    pub input_focused: bool,
    pub next_layering_kind: BooleanButton,
    pub next_color_representation_kind: BooleanButton,
    pub next_pixel_geometry_kind: BooleanButton,
    pub next_screen_curvature_type: BooleanButton,
    pub toggle_pixels_shadow_kind: BooleanButton,
    pub showing_pixels_pulse: BooleanButton,
    pub esc: BooleanButton,
    pub space: BooleanButton,
    pub screenshot: BooleanButton,
    pub mouse_click: BooleanButton,
    pub bright: IncDecFlags,
    pub contrast: IncDecFlags,
    pub blur: IncDecButtons,
    pub lpp: IncDecButtons,
    pub pixel_scale_x: IncDecFlags,
    pub pixel_scale_y: IncDecFlags,
    pub pixel_width: IncDecFlags,
    pub pixel_gap: IncDecFlags,
    pub filter_speed: IncDecButtons,
    pub translation_speed: IncDecButtons,
    pub mouse_position_x: i32,
    pub mouse_position_y: i32,
    /// Scroll delta of this tick, in fixed-point micro-units.
    pub mouse_scroll_y: i64,
    pub custom_event: CustomEvent,
}

impl Input {
    pub fn new(now: u64) -> (r: Input)
        ensures
            r.now == now,
            !r.walk_left && !r.walk_right && !r.walk_up && !r.walk_down,
            !r.walk_forward && !r.walk_backward,
            !r.turn_left && !r.turn_right && !r.turn_up && !r.turn_down,
            !r.rotate_left && !r.rotate_right,
            r.camera_zoom == (IncDecFlags { increase: false, decrease: false }),
            !r.reset_speeds && !r.reset_position && !r.reset_filters,
            !r.shift && !r.alt && !r.input_focused,
            r.next_layering_kind == BooleanButton::new_value(),
            r.next_color_representation_kind == BooleanButton::new_value(),
            r.next_pixel_geometry_kind == BooleanButton::new_value(),
            r.next_screen_curvature_type == BooleanButton::new_value(),
            r.toggle_pixels_shadow_kind == BooleanButton::new_value(),
            r.showing_pixels_pulse == BooleanButton::new_value(),
            r.esc == BooleanButton::new_value(),
            r.space == BooleanButton::new_value(),
            r.screenshot == BooleanButton::new_value(),
            r.mouse_click == BooleanButton::new_value(),
            r.bright == (IncDecFlags { increase: false, decrease: false }),
            r.contrast == (IncDecFlags { increase: false, decrease: false }),
            r.blur.increase == BooleanButton::new_value(),
            r.blur.decrease == BooleanButton::new_value(),
            r.lpp.increase == BooleanButton::new_value(),
            r.lpp.decrease == BooleanButton::new_value(),
            r.pixel_scale_x == (IncDecFlags { increase: false, decrease: false }),
            r.pixel_scale_y == (IncDecFlags { increase: false, decrease: false }),
            r.pixel_width == (IncDecFlags { increase: false, decrease: false }),
            r.pixel_gap == (IncDecFlags { increase: false, decrease: false }),
            r.filter_speed.increase == BooleanButton::new_value(),
            r.filter_speed.decrease == BooleanButton::new_value(),
            r.translation_speed.increase == BooleanButton::new_value(),
            r.translation_speed.decrease == BooleanButton::new_value(),
            r.mouse_position_x == 0 && r.mouse_position_y == 0,
            r.mouse_scroll_y == 0,
            r.custom_event.kind@ == Seq::<char>::empty(),
            r.custom_event.value == EventValue::NoValue,
    {
        Input {
            now,
            walk_left: false,
            walk_right: false,
            walk_up: false,
            walk_down: false,
            walk_forward: false,
            walk_backward: false,
            turn_left: false,
            turn_right: false,
            turn_up: false,
            turn_down: false,
            rotate_left: false,
            rotate_right: false,
            camera_zoom: IncDecFlags::new(),
            reset_speeds: false,
            reset_position: false,
            reset_filters: false,
            shift: false,
            alt: false,
            input_focused: false,
            next_layering_kind: BooleanButton::new(),
            next_color_representation_kind: BooleanButton::new(),
            next_pixel_geometry_kind: BooleanButton::new(),
            next_screen_curvature_type: BooleanButton::new(),
            toggle_pixels_shadow_kind: BooleanButton::new(),
            showing_pixels_pulse: BooleanButton::new(),
            esc: BooleanButton::new(),
            space: BooleanButton::new(),
            screenshot: BooleanButton::new(),
            mouse_click: BooleanButton::new(),
            bright: IncDecFlags::new(),
            contrast: IncDecFlags::new(),
            blur: IncDecButtons::new(),
            lpp: IncDecButtons::new(),
            pixel_scale_x: IncDecFlags::new(),
            pixel_scale_y: IncDecFlags::new(),
            pixel_width: IncDecFlags::new(),
            pixel_gap: IncDecFlags::new(),
            filter_speed: IncDecButtons::new(),
            translation_speed: IncDecButtons::new(),
            mouse_position_x: 0,
            mouse_position_y: 0,
            mouse_scroll_y: 0,
            custom_event: CustomEvent::new(),
        }
    }
}

impl BooleanButton {
    /// The all-false tracker, as a value for contracts to name.
    pub open spec fn new_value() -> BooleanButton {
        BooleanButton { input: false, previous: false, current: false }
    }
}

} // verus!
