//! Event identifiers recorded and replayed by the automation system.

use vstd::prelude::*;

verus! {

/// Input event kinds.
#[derive(Debug, Clone, Copy, PartialEq, Eq, Structural)]
pub enum InputEventType {
    /// param[0]: key
    KeyUp,
    /// param[0]: key
    KeyDown,
    /// param[0]: key
    KeyPressed,
    /// param[0]: key
    KeyReleased,
    /// param[0]: button
    MouseButtonUp,
    /// param[0]: button
    MouseButtonDown,
    /// param[0]: x, param[1]: y
    MousePosition,
    /// param[0]: x delta, param[1]: y delta
    MouseWheelMotion,
    /// param[0]: gamepad
    GamepadConnect,
    /// param[0]: gamepad
    GamepadDisconnect,
    /// param[0]: button
    GamepadButtonUp,
    /// param[0]: button
    GamepadButtonDown,
    /// param[0]: axis, param[1]: delta
    GamepadAxisMotion,
    /// param[0]: id
    TouchUp,
    /// param[0]: id
    TouchDown,
    /// param[0]: x, param[1]: y
    TouchPosition,
    /// param[0]: gesture
    Gesture,
}

/// Window event kinds.
#[derive(Debug, Clone, Copy, PartialEq, Eq, Structural)]
pub enum WindowEventType {
    /// no params
    Close,
    /// no params
    Maximize,
    /// no params
    Minimize,
    /// param[0]: width, param[1]: height
    Resize,
}

/// Custom event kinds.
#[derive(Debug, Clone, Copy, PartialEq, Eq, Structural)]
pub enum CustomEventType {
    /// no params
    TakeScreenshot,
    /// param[0]: fps
    SetTargetFps,
}

/// Automation events type
#[derive(Debug, Clone, Copy, PartialEq, Eq, Structural)]
pub enum AutomationEventType {
    Input(InputEventType),
    Window(WindowEventType),
    Custom(CustomEventType),
}

/// Automation event
#[derive(Debug, Clone, Copy, PartialEq, Eq)]
pub struct AutomationEvent {
    /// Event frame
    pub frame: usize,
    /// Event type (AutomationEventType)
    pub ty: AutomationEventType,
    /// Event parameters (if required)
    pub params: [i32; 4],
}

impl AutomationEvent {
    /// Records an event at the given frame.
    pub fn new(frame: usize, ty: AutomationEventType, params: [i32; 4]) -> (e: Self)
        ensures
            e == (AutomationEvent { frame, ty, params }),
    {
        Self { frame, ty, params }
    }
}

} // verus!
