use vstd::prelude::*;

verus! {

/// A physical input that an action of the game can be bound to.
/// `K` is the type of keyboard key codes of the windowing layer.
#[derive(Clone, Copy, Debug, PartialEq, Eq)]
pub enum ControlButton<K> {
    Mouse(u8),
    Key(K),
    WheelUp,
    WheelDown,
}

/// A mouse button as reported by the windowing layer.
#[derive(Clone, Copy, Debug, PartialEq, Eq)]
pub enum MouseButton {
    Left,
    Right,
    Middle,
    Other(u8),
}

/// Which way a line-based scroll of the wheel went: `Positive` for a
/// delta above zero, `Zero` for a delta equal to zero, `Negative` for any
/// other delta (a delta that is not greater or equal to zero).
#[derive(Clone, Copy, Debug, PartialEq, Eq)]
pub enum AxisSign {
    Positive,
    Zero,
    Negative,
}

/// The scroll amount of a mouse wheel event.
#[derive(Clone, Copy, Debug, PartialEq, Eq)]
pub enum ScrollDelta {
    /// Scroll counted in lines; only the sign of the vertical amount matters.
    LineDelta(AxisSign),
    /// Scroll counted in pixels.
    PixelDelta,
}

/// A raw input event of the window.
#[derive(Clone, Copy, Debug, PartialEq, Eq)]
pub enum InputEvent<K> {
    MouseWheel(ScrollDelta),
    /// A key went up or down; the key code is absent when the windowing
    /// layer could not name the key.
    KeyboardInput(Option<K>),
    MouseInput(MouseButton),
    /// Any other event.
    Other,
}

/// The index by which a mouse button is bound: left is 1, right is 2,
/// middle is 3, any other button keeps its own number.
pub open spec fn mouse_button_index(button: MouseButton) -> u8 {
    match button {
        MouseButton::Left => 1,
        MouseButton::Right => 2,
        MouseButton::Middle => 3,
        MouseButton::Other(i) => i,
    }
}

/// The control button that an input event designates, if any.
pub open spec fn designated_button<K>(event: InputEvent<K>) -> Option<ControlButton<K>> {
    match event {
        InputEvent::MouseWheel(ScrollDelta::LineDelta(AxisSign::Positive)) => Some(
            ControlButton::WheelUp,
        ),
        InputEvent::MouseWheel(ScrollDelta::LineDelta(AxisSign::Negative)) => Some(
            ControlButton::WheelDown,
        ),
        InputEvent::MouseWheel(_) => None,
        InputEvent::KeyboardInput(Some(key)) => Some(ControlButton::Key(key)),
        InputEvent::KeyboardInput(None) => None,
        InputEvent::MouseInput(button) => Some(ControlButton::Mouse(mouse_button_index(button))),
        InputEvent::Other => None,
    }
}

/// Maps a mouse button to the index it is bound by.
pub fn mouse_button_to_index(button: MouseButton) -> (index: u8)
    ensures
        index == mouse_button_index(button),
{
    match button {
        MouseButton::Left => 1,
        MouseButton::Right => 2,
        MouseButton::Middle => 3,
        MouseButton::Other(i) => i,
    }
}

/// The control button that an input event designates: a line scroll up or
/// down gives the wheel, a named key gives that key, a mouse button gives
/// its index; everything else designates nothing.
pub fn control_button_of<K: Copy>(event: &InputEvent<K>) -> (button: Option<ControlButton<K>>)
    ensures
        button == designated_button(*event),
        *event == InputEvent::<K>::MouseInput(MouseButton::Left) ==> button == Some(
            ControlButton::<K>::Mouse(1),
        ),
        *event == InputEvent::<K>::MouseInput(MouseButton::Right) ==> button == Some(
            ControlButton::<K>::Mouse(2),
        ),
        *event == InputEvent::<K>::MouseInput(MouseButton::Middle) ==> button == Some(
            ControlButton::<K>::Mouse(3),
        ),
        *event matches InputEvent::MouseInput(MouseButton::Other(n)) ==> button == Some(
            ControlButton::<K>::Mouse(n),
        ),
        *event matches InputEvent::KeyboardInput(Some(key)) ==> button == Some(ControlButton::Key(key)),
        *event == InputEvent::<K>::MouseWheel(ScrollDelta::LineDelta(AxisSign::Positive)) ==> button
            == Some(ControlButton::<K>::WheelUp),
        *event == InputEvent::<K>::MouseWheel(ScrollDelta::LineDelta(AxisSign::Negative)) ==> button
            == Some(ControlButton::<K>::WheelDown),
{
    match event {
        InputEvent::MouseWheel(delta) => match delta {
            ScrollDelta::LineDelta(sign) => match sign {
                AxisSign::Positive => Some(ControlButton::WheelUp),
                AxisSign::Negative => Some(ControlButton::WheelDown),
                AxisSign::Zero => None,
            },
            ScrollDelta::PixelDelta => None,
        },
        InputEvent::KeyboardInput(code) => match code {
            Some(key) => Some(ControlButton::Key(*key)),
            None => None,
        },
        InputEvent::MouseInput(button) => Some(ControlButton::Mouse(mouse_button_to_index(*button))),
        InputEvent::Other => None,
    }
}

/// One bindable action of the game: its human-readable description and
/// the button it is bound to.
#[derive(Clone, Debug)]
pub struct ControlButtonDefinition<K> {
    pub description: String,
    pub button: ControlButton<K>,
}

/// The player's control scheme: the bindings and the mouse flags.
/// (The mouse sensitivity, a real number, is kept by the caller.)
#[derive(Clone, Debug)]
pub struct ControlScheme<K> {
    pub buttons: Vec<ControlButtonDefinition<K>>,
    pub mouse_y_inverse: bool,
    pub smooth_mouse: bool,
    pub shake_camera: bool,
}

/// The button each binding of a control scheme is bound to, in order.
pub open spec fn bindings<K>(defs: Seq<ControlButtonDefinition<K>>) -> Seq<ControlButton<K>> {
    defs.map_values(|d: ControlButtonDefinition<K>| d.button)
}

/// The descriptions of the bindings of a control scheme, in order.
pub open spec fn descriptions<K>(defs: Seq<ControlButtonDefinition<K>>) -> Seq<Seq<char>> {
    defs.map_values(|d: ControlButtonDefinition<K>| d.description@)
}

} // verus!
