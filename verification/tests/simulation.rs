use screen_sim::action_bindings::on_button_action;
use screen_sim::camera::Camera;
use screen_sim::events::AppEvent;
use screen_sim::filters::{ColorChannels, CrtFilters};
use screen_sim::general_types::{color_channels_from_int, transform_u32_to_array_of_u8};
use screen_sim::input::{BooleanButton, Input};
use screen_sim::messages::{msg_text, u64_to_string, Msg};
use screen_sim::overrides::no_overrides;
use screen_sim::params::ParameterChanger;
use screen_sim::render_types::{StackError, TextureBufferStack};
use screen_sim::resources::{
    AnimationData, AnimationStep, InitialParameters, Resources, SimulationTimers,
    calculate_far_away_position,
};
use screen_sim::simulation_draw::{RenderCommand, SimulationDrawer};
use screen_sim::simulation_update::{
    simulation_tick, update_blur, update_crt_filters, Materials,
};

fn test_animation() -> AnimationData {
    AnimationData {
        steps: vec![AnimationStep { delay: 60 }],
        image_width: 256,
        image_height: 240,
        background_width: 256,
        background_height: 240,
        viewport_width: 256,
        viewport_height: 240,
        pixel_width: 1_000_000,
        stretch: false,
        current_frame: 0,
        last_frame_change: 0,
        needs_buffer_data_load: true,
    }
}

fn test_resources() -> Resources {
    let animation = test_animation();
    let z = calculate_far_away_position(&animation);
    Resources {
        internal_resolution_multiplier: 2,
        internal_width: 512,
        internal_height: 480,
        initial_parameters: InitialParameters {
            initial_position_z: z,
            initial_pixel_width: 1_000_000,
            initial_movement_speed: z / 5,
        },
        timers: SimulationTimers { frame_count: 0, last_time: 0, last_second: 0 },
        animation,
        camera: Camera::new(z / 5, 3_000_000),
        crt_filters: CrtFilters::new(20_000_000),
        launch_screenshot: false,
        screenshot_delay: 0,
        resetted: true,
    }
}

fn just_pressed() -> BooleanButton {
    BooleanButton { input: true, previous: false, current: true }
}

#[test]
fn color_decode_known_values() {
    assert_eq!(color_channels_from_int(0x00FF_FFFF), [255, 255, 255]);
    assert_eq!(color_channels_from_int(0x0000_0000), [0, 0, 0]);
    assert_eq!(color_channels_from_int(0x00FF_0000), [255, 0, 0]);
    assert_eq!(color_channels_from_int(0x0000_FF00), [0, 255, 0]);
    assert_eq!(color_channels_from_int(0x0000_00FF), [0, 0, 255]);
    let c = color_channels_from_int(0x00EB_F114);
    let unit = [
        c[0] as f32 / 255.0,
        c[1] as f32 / 255.0,
        c[2] as f32 / 255.0,
    ];
    assert_eq!(unit, [0.92156863, 0.94509804, 0.078431375]);
    assert_eq!(
        [255.0f32 / 255.0, 0.0, 0.0],
        [1.0, 0.0, 0.0]
    );
}

#[test]
fn u32_bytes_big_endian() {
    assert_eq!(transform_u32_to_array_of_u8(0x0102_0304), [1, 2, 3, 4]);
    assert_eq!(transform_u32_to_array_of_u8(0xFF00_00FF), [255, 0, 0, 255]);
}

#[test]
fn edge_tracker_pressed_exactly_one_tick() {
    let mut b = BooleanButton::new();
    b.input = true;
    b.track_input();
    assert!(b.is_just_pressed());
    b.track_input();
    assert!(!b.is_just_pressed());
    assert!(b.is_activated());
    b.input = false;
    b.track_input();
    assert!(b.is_just_released());
}

#[test]
fn parameter_changer_clamps_and_reports_boundary() {
    let mut c = ParameterChanger { value: 0, min: -1_000_000, max: 1_000_000 };
    let out = c.update(true, false, None, 2_000_000);
    assert_eq!(c.value, 1_000_000);
    assert!(out.max_reached && !out.min_reached && out.changed);
    let out2 = c.update(false, true, None, 5_000_000);
    assert_eq!(c.value, -1_000_000);
    assert!(out2.min_reached && out2.changed);
    let out3 = c.update(false, false, Some(500_000), 0);
    assert_eq!(c.value, 500_000);
    assert!(out3.changed && !out3.min_reached && !out3.max_reached);
}

#[test]
fn buffer_stack_balances_and_rejects_extra_pop() {
    let mut stack = TextureBufferStack::new(512, 480);
    stack.push();
    stack.push();
    assert!(stack.pop().is_ok());
    assert!(stack.pop().is_ok());
    assert!(stack.assert_no_stack().is_ok());
    assert_eq!(stack.pop(), Err(StackError::EmptyStack));
    stack.push();
    assert_eq!(stack.assert_no_stack(), Err(StackError::UnbalancedStack));
}

#[test]
fn far_away_position_is_deterministic() {
    let a = test_animation();
    let b = test_animation();
    let z1 = calculate_far_away_position(&a);
    let z2 = calculate_far_away_position(&b);
    assert_eq!(z1, z2);
    assert!(z1 >= 500_000);
}

#[test]
fn blur_increment_from_zero_notifies_once() {
    let mut res = test_resources();
    let mut input = Input::new(0);
    input.blur.increase = just_pressed();
    let ov = no_overrides();
    let mut events: Vec<AppEvent> = Vec::new();
    update_blur(&mut res, &input, &ov, &mut events);
    assert_eq!(res.crt_filters.blur_passes, 1);
    assert_eq!(
        events,
        vec![
            AppEvent::TopMessage(Msg::BlurLevel(1)),
            AppEvent::ChangeBlurLevel(1),
        ]
    );
}

#[test]
fn blur_decrement_below_zero_clamps_with_minimum_notice() {
    let mut res = test_resources();
    let mut input = Input::new(0);
    input.blur.decrease = just_pressed();
    let ov = no_overrides();
    let mut events: Vec<AppEvent> = Vec::new();
    update_blur(&mut res, &input, &ov, &mut events);
    assert_eq!(res.crt_filters.blur_passes, 0);
    assert_eq!(events, vec![AppEvent::MinimumValue(0)]);
}

#[test]
fn color_mode_cycles_through_all_four() {
    let mut res = test_resources();
    let mut input = Input::new(0);
    input.next_color_representation_kind = just_pressed();
    let ov = no_overrides();
    let expected = [
        ColorChannels::Overlapping,
        ColorChannels::SplitHorizontal,
        ColorChannels::SplitVertical,
        ColorChannels::Combined,
    ];
    for mode in expected.iter() {
        let mut events: Vec<AppEvent> = Vec::new();
        update_crt_filters(16, &mut res, &input, &ov, &mut events);
        assert_eq!(res.crt_filters.color_channels, *mode);
        assert_eq!(
            events[0],
            AppEvent::TopMessage(Msg::ColorRepresentation(*mode))
        );
    }
}

#[test]
fn draw_balances_stack_and_counts_passes() {
    let res = test_resources();
    let mut stack = TextureBufferStack::new(512, 480);
    let mut bg_stack = TextureBufferStack::new(960, 540);
    let mut drawer = SimulationDrawer::new();
    let cmds = drawer.draw(&res, &mut stack, &mut bg_stack).unwrap();
    assert!(stack.assert_no_stack().is_ok());
    assert!(bg_stack.assert_no_stack().is_ok());
    let pixel_draws = cmds
        .iter()
        .filter(|c| matches!(c, RenderCommand::RenderPixels(_)))
        .count();
    assert_eq!(pixel_draws, 3);
    assert!(cmds
        .iter()
        .any(|c| matches!(c, RenderCommand::RenderBlurInto { passes: 6, .. })));
    assert!(matches!(
        cmds.last().unwrap(),
        RenderCommand::RenderInternalResolution { .. }
    ));
    assert!(!cmds.iter().any(|c| matches!(c, RenderCommand::RenderBlur { .. })));
    assert!(!cmds
        .iter()
        .any(|c| matches!(c, RenderCommand::CaptureScreenshot { .. })));
}

#[test]
fn bindings_route_keys_and_composites() {
    let mut input = Input::new(0);
    on_button_action(&mut input, "b", true);
    assert!(input.blur.increase.input);
    on_button_action(&mut input, "a+d", true);
    assert!(input.walk_left && input.walk_right);
    let before_esc = input.esc;
    on_button_action(&mut input, "something-unbound", true);
    assert_eq!(input.esc, before_esc);
    input.shift = true;
    on_button_action(&mut input, "n", true);
    assert!(input.pixel_gap.increase && !input.pixel_width.increase);
}

#[test]
fn message_texts_render() {
    assert_eq!(msg_text(Msg::BlurLevel(7)), "Blur level: 7");
    assert_eq!(msg_text(Msg::ScreenWave(true)), "Screen wave ON.");
    assert_eq!(
        msg_text(Msg::TurningSpeed(500)),
        "Turning camera speed: 0.5x"
    );
    assert_eq!(u64_to_string(90482), "90482");
}

#[test]
fn tick_runs_update_then_draw() {
    let mut res = test_resources();
    let mut input = Input::new(16);
    let mut materials = Materials {
        main_buffer_stack: TextureBufferStack::new(512, 480),
        bg_buffer_stack: TextureBufferStack::new(960, 540),
        drawer: SimulationDrawer::new(),
        frame_commands: Vec::new(),
    };
    let mut events: Vec<AppEvent> = Vec::new();
    let more = simulation_tick(&mut input, &mut res, &mut materials, &mut events).unwrap();
    assert!(more);
    assert!(!materials.frame_commands.is_empty());
    input.esc.input = true;
    let more2 = simulation_tick(&mut input, &mut res, &mut materials, &mut events).unwrap();
    assert!(!more2);
    assert!(events.contains(&AppEvent::ExitingSession));
}
