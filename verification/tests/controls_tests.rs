use options_menu::controls::{
    control_button_of, mouse_button_to_index, AxisSign, ControlButton, InputEvent, MouseButton,
    ScrollDelta,
};

#[test]
fn wheel_up_for_positive_line_scroll() {
    let e: InputEvent<u32> = InputEvent::MouseWheel(ScrollDelta::LineDelta(AxisSign::Positive));
    assert_eq!(control_button_of(&e), Some(ControlButton::WheelUp));
}

#[test]
fn wheel_down_for_negative_line_scroll() {
    let e: InputEvent<u32> = InputEvent::MouseWheel(ScrollDelta::LineDelta(AxisSign::Negative));
    assert_eq!(control_button_of(&e), Some(ControlButton::WheelDown));
}

#[test]
fn no_button_for_zero_or_pixel_scroll() {
    let zero: InputEvent<u32> = InputEvent::MouseWheel(ScrollDelta::LineDelta(AxisSign::Zero));
    let pixel: InputEvent<u32> = InputEvent::MouseWheel(ScrollDelta::PixelDelta);
    assert_eq!(control_button_of(&zero), None);
    assert_eq!(control_button_of(&pixel), None);
}

#[test]
fn key_events_designate_the_key() {
    let named: InputEvent<u32> = InputEvent::KeyboardInput(Some(42));
    let unnamed: InputEvent<u32> = InputEvent::KeyboardInput(None);
    assert_eq!(control_button_of(&named), Some(ControlButton::Key(42)));
    assert_eq!(control_button_of(&unnamed), None);
}

#[test]
fn mouse_buttons_are_numbered() {
    assert_eq!(mouse_button_to_index(MouseButton::Left), 1);
    assert_eq!(mouse_button_to_index(MouseButton::Right), 2);
    assert_eq!(mouse_button_to_index(MouseButton::Middle), 3);
    assert_eq!(mouse_button_to_index(MouseButton::Other(7)), 7);
    let e: InputEvent<u32> = InputEvent::MouseInput(MouseButton::Right);
    assert_eq!(control_button_of(&e), Some(ControlButton::Mouse(2)));
    let o: InputEvent<u32> = InputEvent::MouseInput(MouseButton::Other(9));
    assert_eq!(control_button_of(&o), Some(ControlButton::Mouse(9)));
}

#[test]
fn other_events_designate_nothing() {
    let e: InputEvent<u32> = InputEvent::Other;
    assert_eq!(control_button_of(&e), None);
}
