use platformer_test::input::{
    Action, ActionBinding, ActionState, AnalogTrigger, Axis, AxisBinding, AxisSettings, AxisState,
    ButtonSettings, DigitalTrigger, GamepadAxis, GamepadButton, InputMapper, InputMappings,
    TriggerRecord, KEY_A, KEY_D, KEY_SPACE,
};

const SPACE: DigitalTrigger = DigitalTrigger::Key(KEY_SPACE);

#[test]
fn press_hold_release_cycle() {
    let mut r = TriggerRecord::new();
    assert_eq!(r.digital_trigger_state(&SPACE), ActionState::Released);
    r.press(SPACE);
    assert_eq!(r.digital_trigger_state(&SPACE), ActionState::JustPressed);
    r.finish_frame();
    assert_eq!(r.digital_trigger_state(&SPACE), ActionState::Held);
    r.press(SPACE);
    assert!(r.just_pressed.is_empty());
    r.release(SPACE);
    assert_eq!(r.digital_trigger_state(&SPACE), ActionState::JustReleased);
    r.finish_frame();
    assert_eq!(r.digital_trigger_state(&SPACE), ActionState::Released);
}

#[test]
fn press_and_release_in_one_frame_reads_just_released() {
    let mut r = TriggerRecord::new();
    r.press(SPACE);
    r.release(SPACE);
    assert_eq!(r.digital_trigger_state(&SPACE), ActionState::JustReleased);
    assert!(r.just_pressed.is_empty());
    r.finish_frame();
    assert_eq!(r.digital_trigger_state(&SPACE), ActionState::Released);
}

#[test]
fn release_then_press_in_one_frame_reads_just_pressed() {
    let mut r = TriggerRecord::new();
    r.press(SPACE);
    r.finish_frame();
    r.release(SPACE);
    r.press(SPACE);
    assert_eq!(r.digital_trigger_state(&SPACE), ActionState::JustPressed);
    assert!(r.just_released.is_empty());
    assert!(r.held.is_empty());
    r.finish_frame();
    assert_eq!(r.digital_trigger_state(&SPACE), ActionState::Held);
}

#[test]
fn states_order_and_pressedness() {
    assert!(ActionState::JustPressed.is_pressed());
    assert!(ActionState::Held.is_pressed());
    assert!(!ActionState::JustReleased.is_pressed());
    assert!(!ActionState::Released.is_pressed());
    assert_eq!(ActionState::default(), ActionState::Released);
    assert_eq!(AxisState(-250).value(), -250);
}

#[test]
fn gamepad_buttons_use_thresholds() {
    let mut r = TriggerRecord::new();
    let b = GamepadButton { gamepad: 0, button: 0 };
    let t = DigitalTrigger::GamepadButton(b);
    let s = ButtonSettings { press: 750, release: 650 };
    r.update_gamepad_button(b, 700, &s);
    assert_eq!(r.digital_trigger_state(&t), ActionState::Released);
    r.update_gamepad_button(b, 800, &s);
    assert_eq!(r.digital_trigger_state(&t), ActionState::JustPressed);
    r.finish_frame();
    r.update_gamepad_button(b, 700, &s);
    assert_eq!(r.digital_trigger_state(&t), ActionState::Held);
    r.update_gamepad_button(b, 600, &s);
    assert_eq!(r.digital_trigger_state(&t), ActionState::JustReleased);
}

fn stick_settings() -> AxisSettings {
    AxisSettings { positive_high: 950, positive_low: 50, negative_high: -950, negative_low: -50 }
}

#[test]
fn gamepad_axes_use_thresholds() {
    let mut r = TriggerRecord::new();
    let a = GamepadAxis { gamepad: 0, axis: 0 };
    let other = GamepadAxis { gamepad: 1, axis: 0 };
    let trig = AnalogTrigger::GamepadAxis(a);
    r.update_gamepad_axis(a, 960, &stick_settings());
    assert_eq!(r.analog_trigger_state(&trig), Some(AxisState(1000)));
    r.update_gamepad_axis(a, -960, &stick_settings());
    assert_eq!(r.analog_trigger_state(&trig), Some(AxisState(-1000)));
    r.update_gamepad_axis(a, 30, &stick_settings());
    assert_eq!(r.analog_trigger_state(&trig), None);
    r.update_gamepad_axis(a, 400, &stick_settings());
    assert_eq!(r.analog_trigger_state(&trig), Some(AxisState(400)));
    r.update_gamepad_axis(other, -400, &stick_settings());
    assert_eq!(r.analog_trigger_state(&trig), Some(AxisState(400)));
    assert_eq!(r.axis_values.len(), 2);
    assert_eq!(r.analog_trigger_state(&AnalogTrigger::GamepadAxis(GamepadAxis { gamepad: 2, axis: 0 })), None);
}

#[test]
fn digital_joystick_needs_exactly_one_side() {
    let mut r = TriggerRecord::new();
    let j = AnalogTrigger::DigitalJoystick { negative: DigitalTrigger::Key(KEY_A), positive: DigitalTrigger::Key(KEY_D) };
    assert_eq!(r.analog_trigger_state(&j), None);
    r.press(DigitalTrigger::Key(KEY_A));
    assert_eq!(r.analog_trigger_state(&j), Some(AxisState(-1000)));
    r.press(DigitalTrigger::Key(KEY_D));
    assert_eq!(r.analog_trigger_state(&j), None);
    r.finish_frame();
    r.release(DigitalTrigger::Key(KEY_A));
    assert_eq!(r.analog_trigger_state(&j), Some(AxisState(1000)));
}

#[test]
fn mapper_reads_default_bindings() {
    let mut m = InputMapper::new(InputMappings::default());
    let i = m.upload_input();
    assert_eq!(i.jump, ActionState::Released);
    assert_eq!(i.horizontal, AxisState(0));
    m.trigger_record.press(DigitalTrigger::Key(KEY_D));
    m.trigger_record.press(DigitalTrigger::GamepadButton(GamepadButton { gamepad: 0, button: 0 }));
    let i = m.upload_input();
    assert_eq!(i.jump, ActionState::JustPressed);
    assert_eq!(i.horizontal, AxisState(1000));
    m.update_trigger_record();
    assert_eq!(m.action_value(Action::Jump), ActionState::Held);
    assert_eq!(m.axis_value(Axis::Horizontal), AxisState(1000));
}

#[test]
fn action_takes_the_stronger_binding() {
    let pad = DigitalTrigger::MouseButton(1);
    let mut m = InputMapper::new(InputMappings {
        jump: ActionBinding::new(SPACE, Some(pad)),
        horizontal: AxisBinding::new(
            AnalogTrigger::GamepadAxis(GamepadAxis { gamepad: 0, axis: 0 }),
            Some(AnalogTrigger::DigitalJoystick {
                negative: DigitalTrigger::Key(KEY_A),
                positive: DigitalTrigger::Key(KEY_D),
            }),
        ),
    });
    m.trigger_record.press(SPACE);
    m.trigger_record.finish_frame();
    m.trigger_record.release(SPACE);
    m.trigger_record.press(pad);
    assert_eq!(m.action_value(Action::Jump), ActionState::JustPressed);
    m.trigger_record.press(DigitalTrigger::Key(KEY_A));
    assert_eq!(m.axis_value(Axis::Horizontal), AxisState(-1000));
    m.trigger_record.update_gamepad_axis(GamepadAxis { gamepad: 0, axis: 0 }, 500, &stick_settings());
    assert_eq!(m.axis_value(Axis::Horizontal), AxisState(500));
}
