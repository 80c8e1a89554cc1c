//! Input device identifiers: keyboard keys, mouse buttons and cursors,
//! gamepad buttons and axes, with their numeric codes.

use vstd::prelude::*;

verus! {

/// Keyboard keys (US keyboard layout)
#[derive(Debug, Clone, Copy, PartialEq, Eq, Hash, Structural)]
pub enum KeyboardKey {
    /// '
    Apostrophe,
    /// ,
    Comma,
    /// -
    Minus,
    /// .
    Period,
    /// /
    Slash,
    /// 0
    Zero,
    /// 1
    One,
    /// 2
    Two,
    /// 3
    Three,
    /// 4
    Four,
    /// 5
    Five,
    /// 6
    Six,
    /// 7
    Seven,
    /// 8
    Eight,
    /// 9
    Nine,
    /// ;
    Semicolon,
    /// =
    Equal,
    /// A | a
    A,
    /// B | b
    B,
    /// C | c
    C,
    /// D | d
    D,
    /// E | e
    E,
    /// F | f
    F,
    /// G | g
    G,
    /// H | h
    H,
    /// I | i
    I,
    /// J | j
    J,
    /// K | k
    K,
    /// L | l
    L,
    /// M | m
    M,
    /// N | n
    N,
    /// O | o
    O,
    /// P | p
    P,
    /// Q | q
    Q,
    /// R | r
    R,
    /// S | s
    S,
    /// T | t
    T,
    /// U | u
    U,
    /// V | v
    V,
    /// W | w
    W,
    /// X | x
    X,
    /// Y | y
    Y,
    /// Z | z
    Z,
    /// [
    LeftBracket,
    /// \\
    Backslash,
    /// ]
    RightBracket,
    /// `
    Grave,
    /// Space
    Space,
    /// Esc
    Escape,
    /// Enter
    Enter,
    /// Tab
    Tab,
    /// Backspace
    Backspace,
    /// Ins
    Insert,
    /// Del
    Delete,
    /// Cursor right
    Right,
    /// Cursor left
    Left,
    /// Cursor down
    Down,
    /// Cursor up
    Up,
    /// Page up
    PageUp,
    /// Page down
    PageDown,
    /// Home
    Home,
    /// End
    End,
    /// Caps lock
    CapsLock,
    /// Scroll down
    ScrollLock,
    /// Num lock
    NumLock,
    /// Print screen
    PrintScreen,
    /// Pause
    Pause,
    /// F1
    F1,
    /// F2
    F2,
    /// F3
    F3,
    /// F4
    F4,
    /// F5
    F5,
    /// F6
    F6,
    /// F7
    F7,
    /// F8
    F8,
    /// F9
    F9,
    /// F10
    F10,
    /// F11
    F11,
    /// F12
    F12,
    /// Shift left
    LeftShift,
    /// Control left
    LeftControl,
    /// Alt left
    LeftAlt,
    /// Super left
    LeftSuper,
    /// Shift right
    RightShift,
    /// Control right
    RightControl,
    /// Alt right
    RightAlt,
    /// Super right
    RightSuper,
    /// KB menu
    KbMenu,
    /// Keypad 0
    Kp0,
    /// Keypad 1
    Kp1,
    /// Keypad 2
    Kp2,
    /// Keypad 3
    Kp3,
    /// Keypad 4
    Kp4,
    /// Keypad 5
    Kp5,
    /// Keypad 6
    Kp6,
    /// Keypad 7
    Kp7,
    /// Keypad 8
    Kp8,
    /// Keypad 9
    Kp9,
    /// Keypad .
    KpDecimal,
    /// Keypad /
    KpDivide,
    /// Keypad *
    KpMultiply,
    /// Keypad -
    KpSubtract,
    /// Keypad +
    KpAdd,
    /// Keypad Enter
    KpEnter,
    /// Keypad =
    KpEqual,
    /// Android back button
    Back,
    /// Android menu button
    Menu,
    /// Android volume up button
    VolumeUp,
    /// Android volume down button
    VolumeDown,
}

impl KeyboardKey {
    /// The key code of the key, matching the engine's native key numbering.
    pub open spec fn code_spec(self) -> u16 {
        match self {
            KeyboardKey::Apostrophe => 39,
            KeyboardKey::Comma => 44,
            KeyboardKey::Minus => 45,
            KeyboardKey::Period => 46,
            KeyboardKey::Slash => 47,
            KeyboardKey::Zero => 48,
            KeyboardKey::One => 49,
            KeyboardKey::Two => 50,
            KeyboardKey::Three => 51,
            KeyboardKey::Four => 52,
            KeyboardKey::Five => 53,
            KeyboardKey::Six => 54,
            KeyboardKey::Seven => 55,
            KeyboardKey::Eight => 56,
            KeyboardKey::Nine => 57,
            KeyboardKey::Semicolon => 59,
            KeyboardKey::Equal => 61,
            KeyboardKey::A => 65,
            KeyboardKey::B => 66,
            KeyboardKey::C => 67,
            KeyboardKey::D => 68,
            KeyboardKey::E => 69,
            KeyboardKey::F => 70,
            KeyboardKey::G => 71,
            KeyboardKey::H => 72,
            KeyboardKey::I => 73,
            KeyboardKey::J => 74,
            KeyboardKey::K => 75,
            KeyboardKey::L => 76,
            KeyboardKey::M => 77,
            KeyboardKey::N => 78,
            KeyboardKey::O => 79,
            KeyboardKey::P => 80,
            KeyboardKey::Q => 81,
            KeyboardKey::R => 82,
            KeyboardKey::S => 83,
            KeyboardKey::T => 84,
            KeyboardKey::U => 85,
            KeyboardKey::V => 86,
            KeyboardKey::W => 87,
            KeyboardKey::X => 88,
            KeyboardKey::Y => 89,
            KeyboardKey::Z => 90,
            KeyboardKey::LeftBracket => 91,
            KeyboardKey::Backslash => 92,
            KeyboardKey::RightBracket => 93,
            KeyboardKey::Grave => 96,
            KeyboardKey::Space => 32,
            KeyboardKey::Escape => 256,
            KeyboardKey::Enter => 257,
            KeyboardKey::Tab => 258,
            KeyboardKey::Backspace => 259,
            KeyboardKey::Insert => 260,
            KeyboardKey::Delete => 261,
            KeyboardKey::Right => 262,
            KeyboardKey::Left => 263,
            KeyboardKey::Down => 264,
            KeyboardKey::Up => 265,
            KeyboardKey::PageUp => 266,
            KeyboardKey::PageDown => 267,
            KeyboardKey::Home => 268,
            KeyboardKey::End => 269,
            KeyboardKey::CapsLock => 280,
            KeyboardKey::ScrollLock => 281,
            KeyboardKey::NumLock => 282,
            KeyboardKey::PrintScreen => 283,
            KeyboardKey::Pause => 284,
            KeyboardKey::F1 => 290,
            KeyboardKey::F2 => 291,
            KeyboardKey::F3 => 292,
            KeyboardKey::F4 => 293,
            KeyboardKey::F5 => 294,
            KeyboardKey::F6 => 295,
            KeyboardKey::F7 => 296,
            KeyboardKey::F8 => 297,
            KeyboardKey::F9 => 298,
            KeyboardKey::F10 => 299,
            KeyboardKey::F11 => 300,
            KeyboardKey::F12 => 301,
            KeyboardKey::LeftShift => 340,
            KeyboardKey::LeftControl => 341,
            KeyboardKey::LeftAlt => 342,
            KeyboardKey::LeftSuper => 343,
            KeyboardKey::RightShift => 344,
            KeyboardKey::RightControl => 345,
            KeyboardKey::RightAlt => 346,
            KeyboardKey::RightSuper => 347,
            KeyboardKey::KbMenu => 348,
            KeyboardKey::Kp0 => 320,
            KeyboardKey::Kp1 => 321,
            KeyboardKey::Kp2 => 322,
            KeyboardKey::Kp3 => 323,
            KeyboardKey::Kp4 => 324,
            KeyboardKey::Kp5 => 325,
            KeyboardKey::Kp6 => 326,
            KeyboardKey::Kp7 => 327,
            KeyboardKey::Kp8 => 328,
            KeyboardKey::Kp9 => 329,
            KeyboardKey::KpDecimal => 330,
            KeyboardKey::KpDivide => 331,
            KeyboardKey::KpMultiply => 332,
            KeyboardKey::KpSubtract => 333,
            KeyboardKey::KpAdd => 334,
            KeyboardKey::KpEnter => 335,
            KeyboardKey::KpEqual => 336,
            KeyboardKey::Back => 4,
            KeyboardKey::Menu => 5,
            KeyboardKey::VolumeUp => 24,
            KeyboardKey::VolumeDown => 25,
        }
    }

    /// The key code of the key, matching the engine's native key numbering.
    pub fn code(self) -> (r: u16)
        ensures
            r == self.code_spec(),
    {
        match self {
            KeyboardKey::Apostrophe => 39,
            KeyboardKey::Comma => 44,
            KeyboardKey::Minus => 45,
            KeyboardKey::Period => 46,
            KeyboardKey::Slash => 47,
            KeyboardKey::Zero => 48,
            KeyboardKey::One => 49,
            KeyboardKey::Two => 50,
            KeyboardKey::Three => 51,
            KeyboardKey::Four => 52,
            KeyboardKey::Five => 53,
            KeyboardKey::Six => 54,
            KeyboardKey::Seven => 55,
            KeyboardKey::Eight => 56,
            KeyboardKey::Nine => 57,
            KeyboardKey::Semicolon => 59,
            KeyboardKey::Equal => 61,
            KeyboardKey::A => 65,
            KeyboardKey::B => 66,
            KeyboardKey::C => 67,
            KeyboardKey::D => 68,
            KeyboardKey::E => 69,
            KeyboardKey::F => 70,
            KeyboardKey::G => 71,
            KeyboardKey::H => 72,
            KeyboardKey::I => 73,
            KeyboardKey::J => 74,
            KeyboardKey::K => 75,
            KeyboardKey::L => 76,
            KeyboardKey::M => 77,
            KeyboardKey::N => 78,
            KeyboardKey::O => 79,
            KeyboardKey::P => 80,
            KeyboardKey::Q => 81,
            KeyboardKey::R => 82,
            KeyboardKey::S => 83,
            KeyboardKey::T => 84,
            KeyboardKey::U => 85,
            KeyboardKey::V => 86,
            KeyboardKey::W => 87,
            KeyboardKey::X => 88,
            KeyboardKey::Y => 89,
            KeyboardKey::Z => 90,
            KeyboardKey::LeftBracket => 91,
            KeyboardKey::Backslash => 92,
            KeyboardKey::RightBracket => 93,
            KeyboardKey::Grave => 96,
            KeyboardKey::Space => 32,
            KeyboardKey::Escape => 256,
            KeyboardKey::Enter => 257,
            KeyboardKey::Tab => 258,
            KeyboardKey::Backspace => 259,
            KeyboardKey::Insert => 260,
            KeyboardKey::Delete => 261,
            KeyboardKey::Right => 262,
            KeyboardKey::Left => 263,
            KeyboardKey::Down => 264,
            KeyboardKey::Up => 265,
            KeyboardKey::PageUp => 266,
            KeyboardKey::PageDown => 267,
            KeyboardKey::Home => 268,
            KeyboardKey::End => 269,
            KeyboardKey::CapsLock => 280,
            KeyboardKey::ScrollLock => 281,
            KeyboardKey::NumLock => 282,
            KeyboardKey::PrintScreen => 283,
            KeyboardKey::Pause => 284,
            KeyboardKey::F1 => 290,
            KeyboardKey::F2 => 291,
            KeyboardKey::F3 => 292,
            KeyboardKey::F4 => 293,
            KeyboardKey::F5 => 294,
            KeyboardKey::F6 => 295,
            KeyboardKey::F7 => 296,
            KeyboardKey::F8 => 297,
            KeyboardKey::F9 => 298,
            KeyboardKey::F10 => 299,
            KeyboardKey::F11 => 300,
            KeyboardKey::F12 => 301,
            KeyboardKey::LeftShift => 340,
            KeyboardKey::LeftControl => 341,
            KeyboardKey::LeftAlt => 342,
            KeyboardKey::LeftSuper => 343,
            KeyboardKey::RightShift => 344,
            KeyboardKey::RightControl => 345,
            KeyboardKey::RightAlt => 346,
            KeyboardKey::RightSuper => 347,
            KeyboardKey::KbMenu => 348,
            KeyboardKey::Kp0 => 320,
            KeyboardKey::Kp1 => 321,
            KeyboardKey::Kp2 => 322,
            KeyboardKey::Kp3 => 323,
            KeyboardKey::Kp4 => 324,
            KeyboardKey::Kp5 => 325,
            KeyboardKey::Kp6 => 326,
            KeyboardKey::Kp7 => 327,
            KeyboardKey::Kp8 => 328,
            KeyboardKey::Kp9 => 329,
            KeyboardKey::KpDecimal => 330,
            KeyboardKey::KpDivide => 331,
            KeyboardKey::KpMultiply => 332,
            KeyboardKey::KpSubtract => 333,
            KeyboardKey::KpAdd => 334,
            KeyboardKey::KpEnter => 335,
            KeyboardKey::KpEqual => 336,
            KeyboardKey::Back => 4,
            KeyboardKey::Menu => 5,
            KeyboardKey::VolumeUp => 24,
            KeyboardKey::VolumeDown => 25,
        }
    }

    /// The key with the given key code, if any.
    pub fn from_code(value: u16) -> (r: Option<KeyboardKey>)
        ensures
            match r {
                Some(k) => k.code_spec() == value,
                None => forall|k: KeyboardKey| k.code_spec() != value,
            },
            forall|k: KeyboardKey| k.code_spec() == value ==> r == Some(k),
    {
        match value {
            39 => Some(KeyboardKey::Apostrophe),
            44 => Some(KeyboardKey::Comma),
            45 => Some(KeyboardKey::Minus),
            46 => Some(KeyboardKey::Period),
            47 => Some(KeyboardKey::Slash),
            48 => Some(KeyboardKey::Zero),
            49 => Some(KeyboardKey::One),
            50 => Some(KeyboardKey::Two),
            51 => Some(KeyboardKey::Three),
            52 => Some(KeyboardKey::Four),
            53 => Some(KeyboardKey::Five),
            54 => Some(KeyboardKey::Six),
            55 => Some(KeyboardKey::Seven),
            56 => Some(KeyboardKey::Eight),
            57 => Some(KeyboardKey::Nine),
            59 => Some(KeyboardKey::Semicolon),
            61 => Some(KeyboardKey::Equal),
            65 => Some(KeyboardKey::A),
            66 => Some(KeyboardKey::B),
            67 => Some(KeyboardKey::C),
            68 => Some(KeyboardKey::D),
            69 => Some(KeyboardKey::E),
            70 => Some(KeyboardKey::F),
            71 => Some(KeyboardKey::G),
            72 => Some(KeyboardKey::H),
            73 => Some(KeyboardKey::I),
            74 => Some(KeyboardKey::J),
            75 => Some(KeyboardKey::K),
            76 => Some(KeyboardKey::L),
            77 => Some(KeyboardKey::M),
            78 => Some(KeyboardKey::N),
            79 => Some(KeyboardKey::O),
            80 => Some(KeyboardKey::P),
            81 => Some(KeyboardKey::Q),
            82 => Some(KeyboardKey::R),
            83 => Some(KeyboardKey::S),
            84 => Some(KeyboardKey::T),
            85 => Some(KeyboardKey::U),
            86 => Some(KeyboardKey::V),
            87 => Some(KeyboardKey::W),
            88 => Some(KeyboardKey::X),
            89 => Some(KeyboardKey::Y),
            90 => Some(KeyboardKey::Z),
            91 => Some(KeyboardKey::LeftBracket),
            92 => Some(KeyboardKey::Backslash),
            93 => Some(KeyboardKey::RightBracket),
            96 => Some(KeyboardKey::Grave),
            32 => Some(KeyboardKey::Space),
            256 => Some(KeyboardKey::Escape),
            257 => Some(KeyboardKey::Enter),
            258 => Some(KeyboardKey::Tab),
            259 => Some(KeyboardKey::Backspace),
            260 => Some(KeyboardKey::Insert),
            261 => Some(KeyboardKey::Delete),
            262 => Some(KeyboardKey::Right),
            263 => Some(KeyboardKey::Left),
            264 => Some(KeyboardKey::Down),
            265 => Some(KeyboardKey::Up),
            266 => Some(KeyboardKey::PageUp),
            267 => Some(KeyboardKey::PageDown),
            268 => Some(KeyboardKey::Home),
            269 => Some(KeyboardKey::End),
            280 => Some(KeyboardKey::CapsLock),
            281 => Some(KeyboardKey::ScrollLock),
            282 => Some(KeyboardKey::NumLock),
            283 => Some(KeyboardKey::PrintScreen),
            284 => Some(KeyboardKey::Pause),
            290 => Some(KeyboardKey::F1),
            291 => Some(KeyboardKey::F2),
            292 => Some(KeyboardKey::F3),
            293 => Some(KeyboardKey::F4),
            294 => Some(KeyboardKey::F5),
            295 => Some(KeyboardKey::F6),
            296 => Some(KeyboardKey::F7),
            297 => Some(KeyboardKey::F8),
            298 => Some(KeyboardKey::F9),
            299 => Some(KeyboardKey::F10),
            300 => Some(KeyboardKey::F11),
            301 => Some(KeyboardKey::F12),
            340 => Some(KeyboardKey::LeftShift),
            341 => Some(KeyboardKey::LeftControl),
            342 => Some(KeyboardKey::LeftAlt),
            343 => Some(KeyboardKey::LeftSuper),
            344 => Some(KeyboardKey::RightShift),
            345 => Some(KeyboardKey::RightControl),
            346 => Some(KeyboardKey::RightAlt),
            347 => Some(KeyboardKey::RightSuper),
            348 => Some(KeyboardKey::KbMenu),
            320 => Some(KeyboardKey::Kp0),
            321 => Some(KeyboardKey::Kp1),
            322 => Some(KeyboardKey::Kp2),
            323 => Some(KeyboardKey::Kp3),
            324 => Some(KeyboardKey::Kp4),
            325 => Some(KeyboardKey::Kp5),
            326 => Some(KeyboardKey::Kp6),
            327 => Some(KeyboardKey::Kp7),
            328 => Some(KeyboardKey::Kp8),
            329 => Some(KeyboardKey::Kp9),
            330 => Some(KeyboardKey::KpDecimal),
            331 => Some(KeyboardKey::KpDivide),
            332 => Some(KeyboardKey::KpMultiply),
            333 => Some(KeyboardKey::KpSubtract),
            334 => Some(KeyboardKey::KpAdd),
            335 => Some(KeyboardKey::KpEnter),
            336 => Some(KeyboardKey::KpEqual),
            4 => Some(KeyboardKey::Back),
            5 => Some(KeyboardKey::Menu),
            24 => Some(KeyboardKey::VolumeUp),
            25 => Some(KeyboardKey::VolumeDown),
            _ => None,
        }
    }
}

/// Mouse buttons
#[derive(Debug, Clone, Copy, PartialEq, Eq, Hash, Structural)]
pub enum MouseButton {
    /// Mouse button left
    Left,
    /// Mouse button right
    Right,
    /// Mouse button middle (pressed wheel)
    Middle,
    /// Mouse button side (advanced mouse device)
    Side,
    /// Mouse button extra (advanced mouse device)
    Extra,
    /// Mouse button forward (advanced mouse device)
    Forward,
    /// Mouse button back (advanced mouse device)
    Back,
}

impl MouseButton {
    /// Position of the button in the button-state tables.
    pub open spec fn index_spec(self) -> usize {
        match self {
            MouseButton::Left => 0,
            MouseButton::Right => 1,
            MouseButton::Middle => 2,
            MouseButton::Side => 3,
            MouseButton::Extra => 4,
            MouseButton::Forward => 5,
            MouseButton::Back => 6,
        }
    }

    /// Position of the button in the button-state tables.
    pub fn index(self) -> (r: usize)
        ensures
            r == self.index_spec(),
    {
        match self {
            MouseButton::Left => 0,
            MouseButton::Right => 1,
            MouseButton::Middle => 2,
            MouseButton::Side => 3,
            MouseButton::Extra => 4,
            MouseButton::Forward => 5,
            MouseButton::Back => 6,
        }
    }
}

/// Mouse cursor shapes
#[derive(Debug, Clone, Copy, PartialEq, Eq, Structural)]
pub enum MouseCursor {
    /// Default pointer shape
    Standard,
    /// Arrow shape
    Arrow,
    /// Text writing cursor shape
    Ibeam,
    /// Cross shape
    Crosshair,
    /// Pointing hand cursor
    PointingHand,
    /// Horizontal resize/move arrow shape
    ResizeEw,
    /// Vertical resize/move arrow shape
    ResizeNs,
    /// Top-left to bottom-right diagonal resize/move arrow shape
    ResizeNwse,
    /// The top-right to bottom-left diagonal resize/move arrow shape
    ResizeNesw,
    /// The omnidirectional resize/move cursor shape
    ResizeAll,
    /// The operation-not-allowed shape
    NotAllowed,
}

impl MouseCursor {
    /// Position of the shape in the system-cursor lookup table.
    pub open spec fn index_spec(self) -> usize {
        match self {
            MouseCursor::Standard => 0,
            MouseCursor::Arrow => 1,
            MouseCursor::Ibeam => 2,
            MouseCursor::Crosshair => 3,
            MouseCursor::PointingHand => 4,
            MouseCursor::ResizeEw => 5,
            MouseCursor::ResizeNs => 6,
            MouseCursor::ResizeNwse => 7,
            MouseCursor::ResizeNesw => 8,
            MouseCursor::ResizeAll => 9,
            MouseCursor::NotAllowed => 10,
        }
    }

    /// Position of the shape in the system-cursor lookup table.
    pub fn index(self) -> (r: usize)
        ensures
            r == self.index_spec(),
    {
        match self {
            MouseCursor::Standard => 0,
            MouseCursor::Arrow => 1,
            MouseCursor::Ibeam => 2,
            MouseCursor::Crosshair => 3,
            MouseCursor::PointingHand => 4,
            MouseCursor::ResizeEw => 5,
            MouseCursor::ResizeNs => 6,
            MouseCursor::ResizeNwse => 7,
            MouseCursor::ResizeNesw => 8,
            MouseCursor::ResizeAll => 9,
            MouseCursor::NotAllowed => 10,
        }
    }
}

impl Default for MouseCursor {
    /// The standard pointer shape.
    fn default() -> (c: Self)
        ensures
            c == MouseCursor::Standard,
    {
        MouseCursor::Standard
    }
}

/// Gamepad buttons
#[derive(Debug, Clone, Copy, PartialEq, Eq, Hash, Structural)]
pub enum GamepadButton {
    /// Gamepad left DPAD up button
    LeftFaceUp,
    /// Gamepad left DPAD right button
    LeftFaceRight,
    /// Gamepad left DPAD down button
    LeftFaceDown,
    /// Gamepad left DPAD left button
    LeftFaceLeft,
    /// Gamepad right button up (i.e. PS3: Triangle, Xbox: Y)
    RightFaceUp,
    /// Gamepad right button right (i.e. PS3: Circle, Xbox: B)
    RightFaceRight,
    /// Gamepad right button down (i.e. PS3: Cross, Xbox: A)
    RightFaceDown,
    /// Gamepad right button left (i.e. PS3: Square, Xbox: X)
    RightFaceLeft,
    /// Gamepad top/back trigger left (first), it could be a trailing button
    LeftTrigger1,
    /// Gamepad top/back trigger left (second), it could be a trailing button
    LeftTrigger2,
    /// Gamepad top/back trigger right (first), it could be a trailing button
    RightTrigger1,
    /// Gamepad top/back trigger right (second), it could be a trailing button
    RightTrigger2,
    /// Gamepad center buttons, left one (i.e. PS3: Select)
    MiddleLeft,
    /// Gamepad center buttons, middle one (i.e. PS3: PS, Xbox: XBOX)
    Middle,
    /// Gamepad center buttons, right one (i.e. PS3: Start)
    MiddleRight,
    /// Gamepad joystick pressed button left
    LeftThumb,
    /// Gamepad joystick pressed button right
    RightThumb,
}

impl GamepadButton {
    /// Position of the button in the button-state tables.
    pub open spec fn index_spec(self) -> usize {
        match self {
            GamepadButton::LeftFaceUp => 0,
            GamepadButton::LeftFaceRight => 1,
            GamepadButton::LeftFaceDown => 2,
            GamepadButton::LeftFaceLeft => 3,
            GamepadButton::RightFaceUp => 4,
            GamepadButton::RightFaceRight => 5,
            GamepadButton::RightFaceDown => 6,
            GamepadButton::RightFaceLeft => 7,
            GamepadButton::LeftTrigger1 => 8,
            GamepadButton::LeftTrigger2 => 9,
            GamepadButton::RightTrigger1 => 10,
            GamepadButton::RightTrigger2 => 11,
            GamepadButton::MiddleLeft => 12,
            GamepadButton::Middle => 13,
            GamepadButton::MiddleRight => 14,
            GamepadButton::LeftThumb => 15,
            GamepadButton::RightThumb => 16,
        }
    }

    /// Position of the button in the button-state tables.
    pub fn index(self) -> (r: usize)
        ensures
            r == self.index_spec(),
    {
        match self {
            GamepadButton::LeftFaceUp => 0,
            GamepadButton::LeftFaceRight => 1,
            GamepadButton::LeftFaceDown => 2,
            GamepadButton::LeftFaceLeft => 3,
            GamepadButton::RightFaceUp => 4,
            GamepadButton::RightFaceRight => 5,
            GamepadButton::RightFaceDown => 6,
            GamepadButton::RightFaceLeft => 7,
            GamepadButton::LeftTrigger1 => 8,
            GamepadButton::LeftTrigger2 => 9,
            GamepadButton::RightTrigger1 => 10,
            GamepadButton::RightTrigger2 => 11,
            GamepadButton::MiddleLeft => 12,
            GamepadButton::Middle => 13,
            GamepadButton::MiddleRight => 14,
            GamepadButton::LeftThumb => 15,
            GamepadButton::RightThumb => 16,
        }
    }
}

/// Gamepad axis
#[derive(Debug, Clone, Copy, PartialEq, Eq, Hash, Structural)]
pub enum GamepadAxis {
    /// Gamepad left stick X axis
    LeftX,
    /// Gamepad left stick Y axis
    LeftY,
    /// Gamepad right stick X axis
    RightX,
    /// Gamepad right stick Y axis
    RightY,
    /// Gamepad back trigger left, pressure level: [1..-1]
    LeftTrigger,
    /// Gamepad back trigger right, pressure level: [1..-1]
    RightTrigger,
}

impl GamepadAxis {
    /// Position of the axis in the axis-state table.
    pub open spec fn index_spec(self) -> usize {
        match self {
            GamepadAxis::LeftX => 0,
            GamepadAxis::LeftY => 1,
            GamepadAxis::RightX => 2,
            GamepadAxis::RightY => 3,
            GamepadAxis::LeftTrigger => 4,
            GamepadAxis::RightTrigger => 5,
        }
    }

    /// Position of the axis in the axis-state table.
    pub fn index(self) -> (r: usize)
        ensures
            r == self.index_spec(),
    {
        match self {
            GamepadAxis::LeftX => 0,
            GamepadAxis::LeftY => 1,
            GamepadAxis::RightX => 2,
            GamepadAxis::RightY => 3,
            GamepadAxis::LeftTrigger => 4,
            GamepadAxis::RightTrigger => 5,
        }
    }
}

/// Scancode to keycode mapping: which key, if any, sits at the given
/// position of the platform's scancode table.
pub open spec fn scancode_to_key_spec(scancode: usize) -> Option<KeyboardKey> {
    match scancode {
            4 => Some(KeyboardKey::A),
            5 => Some(KeyboardKey::B),
            6 => Some(KeyboardKey::C),
            7 => Some(KeyboardKey::D),
            8 => Some(KeyboardKey::E),
            9 => Some(KeyboardKey::F),
            10 => Some(KeyboardKey::G),
            11 => Some(KeyboardKey::H),
            12 => Some(KeyboardKey::I),
            13 => Some(KeyboardKey::J),
            14 => Some(KeyboardKey::K),
            15 => Some(KeyboardKey::L),
            16 => Some(KeyboardKey::M),
            17 => Some(KeyboardKey::N),
            18 => Some(KeyboardKey::O),
            19 => Some(KeyboardKey::P),
            20 => Some(KeyboardKey::Q),
            21 => Some(KeyboardKey::R),
            22 => Some(KeyboardKey::S),
            23 => Some(KeyboardKey::T),
            24 => Some(KeyboardKey::U),
            25 => Some(KeyboardKey::V),
            26 => Some(KeyboardKey::W),
            27 => Some(KeyboardKey::X),
            28 => Some(KeyboardKey::Y),
            29 => Some(KeyboardKey::Z),
            30 => Some(KeyboardKey::One),
            31 => Some(KeyboardKey::Two),
            32 => Some(KeyboardKey::Three),
            33 => Some(KeyboardKey::Four),
            34 => Some(KeyboardKey::Five),
            35 => Some(KeyboardKey::Six),
            36 => Some(KeyboardKey::Seven),
            37 => Some(KeyboardKey::Eight),
            38 => Some(KeyboardKey::Nine),
            39 => Some(KeyboardKey::Zero),
            40 => Some(KeyboardKey::Enter),
            41 => Some(KeyboardKey::Escape),
            42 => Some(KeyboardKey::Backspace),
            43 => Some(KeyboardKey::Tab),
            44 => Some(KeyboardKey::Space),
            45 => Some(KeyboardKey::Minus),
            46 => Some(KeyboardKey::Equal),
            47 => Some(KeyboardKey::LeftBracket),
            48 => Some(KeyboardKey::RightBracket),
            49 => Some(KeyboardKey::Backslash),
            51 => Some(KeyboardKey::Semicolon),
            52 => Some(KeyboardKey::Apostrophe),
            53 => Some(KeyboardKey::Grave),
            54 => Some(KeyboardKey::Comma),
            55 => Some(KeyboardKey::Period),
            56 => Some(KeyboardKey::Slash),
            57 => Some(KeyboardKey::CapsLock),
            58 => Some(KeyboardKey::F1),
            59 => Some(KeyboardKey::F2),
            60 => Some(KeyboardKey::F3),
            61 => Some(KeyboardKey::F4),
            62 => Some(KeyboardKey::F5),
            63 => Some(KeyboardKey::F6),
            64 => Some(KeyboardKey::F7),
            65 => Some(KeyboardKey::F8),
            66 => Some(KeyboardKey::F9),
            67 => Some(KeyboardKey::F10),
            68 => Some(KeyboardKey::F11),
            69 => Some(KeyboardKey::F12),
            70 => Some(KeyboardKey::PrintScreen),
            71 => Some(KeyboardKey::ScrollLock),
            72 => Some(KeyboardKey::Pause),
            73 => Some(KeyboardKey::Insert),
            74 => Some(KeyboardKey::Home),
            75 => Some(KeyboardKey::PageUp),
            76 => Some(KeyboardKey::Delete),
            77 => Some(KeyboardKey::End),
            78 => Some(KeyboardKey::PageDown),
            79 => Some(KeyboardKey::Right),
            80 => Some(KeyboardKey::Left),
            81 => Some(KeyboardKey::Down),
            82 => Some(KeyboardKey::Up),
            83 => Some(KeyboardKey::NumLock),
            84 => Some(KeyboardKey::KpDivide),
            85 => Some(KeyboardKey::KpMultiply),
            86 => Some(KeyboardKey::KpSubtract),
            87 => Some(KeyboardKey::KpAdd),
            88 => Some(KeyboardKey::KpEnter),
            89 => Some(KeyboardKey::Kp1),
            90 => Some(KeyboardKey::Kp2),
            91 => Some(KeyboardKey::Kp3),
            92 => Some(KeyboardKey::Kp4),
            93 => Some(KeyboardKey::Kp5),
            94 => Some(KeyboardKey::Kp6),
            95 => Some(KeyboardKey::Kp7),
            96 => Some(KeyboardKey::Kp8),
            97 => Some(KeyboardKey::Kp9),
            98 => Some(KeyboardKey::Kp0),
            99 => Some(KeyboardKey::KpDecimal),
            224 => Some(KeyboardKey::LeftControl),
            225 => Some(KeyboardKey::LeftShift),
            226 => Some(KeyboardKey::LeftAlt),
            227 => Some(KeyboardKey::LeftSuper),
            228 => Some(KeyboardKey::RightControl),
            229 => Some(KeyboardKey::RightShift),
            230 => Some(KeyboardKey::RightAlt),
            231 => Some(KeyboardKey::RightSuper),
        _ => None,
    }
}

/// Scancode to keycode mapping: which key, if any, sits at the given
/// position of the platform's scancode table.
#[verifier::when_used_as_spec(scancode_to_key_spec)]
pub fn scancode_to_key(scancode: usize) -> (r: Option<KeyboardKey>)
    ensures
        r == scancode_to_key_spec(scancode),
{
    match scancode {
            4 => Some(KeyboardKey::A),
            5 => Some(KeyboardKey::B),
            6 => Some(KeyboardKey::C),
            7 => Some(KeyboardKey::D),
            8 => Some(KeyboardKey::E),
            9 => Some(KeyboardKey::F),
            10 => Some(KeyboardKey::G),
            11 => Some(KeyboardKey::H),
            12 => Some(KeyboardKey::I),
            13 => Some(KeyboardKey::J),
            14 => Some(KeyboardKey::K),
            15 => Some(KeyboardKey::L),
            16 => Some(KeyboardKey::M),
            17 => Some(KeyboardKey::N),
            18 => Some(KeyboardKey::O),
            19 => Some(KeyboardKey::P),
            20 => Some(KeyboardKey::Q),
            21 => Some(KeyboardKey::R),
            22 => Some(KeyboardKey::S),
            23 => Some(KeyboardKey::T),
            24 => Some(KeyboardKey::U),
            25 => Some(KeyboardKey::V),
            26 => Some(KeyboardKey::W),
            27 => Some(KeyboardKey::X),
            28 => Some(KeyboardKey::Y),
            29 => Some(KeyboardKey::Z),
            30 => Some(KeyboardKey::One),
            31 => Some(KeyboardKey::Two),
            32 => Some(KeyboardKey::Three),
            33 => Some(KeyboardKey::Four),
            34 => Some(KeyboardKey::Five),
            35 => Some(KeyboardKey::Six),
            36 => Some(KeyboardKey::Seven),
            37 => Some(KeyboardKey::Eight),
            38 => Some(KeyboardKey::Nine),
            39 => Some(KeyboardKey::Zero),
            40 => Some(KeyboardKey::Enter),
            41 => Some(KeyboardKey::Escape),
            42 => Some(KeyboardKey::Backspace),
            43 => Some(KeyboardKey::Tab),
            44 => Some(KeyboardKey::Space),
            45 => Some(KeyboardKey::Minus),
            46 => Some(KeyboardKey::Equal),
            47 => Some(KeyboardKey::LeftBracket),
            48 => Some(KeyboardKey::RightBracket),
            49 => Some(KeyboardKey::Backslash),
            51 => Some(KeyboardKey::Semicolon),
            52 => Some(KeyboardKey::Apostrophe),
            53 => Some(KeyboardKey::Grave),
            54 => Some(KeyboardKey::Comma),
            55 => Some(KeyboardKey::Period),
            56 => Some(KeyboardKey::Slash),
            57 => Some(KeyboardKey::CapsLock),
            58 => Some(KeyboardKey::F1),
            59 => Some(KeyboardKey::F2),
            60 => Some(KeyboardKey::F3),
            61 => Some(KeyboardKey::F4),
            62 => Some(KeyboardKey::F5),
            63 => Some(KeyboardKey::F6),
            64 => Some(KeyboardKey::F7),
            65 => Some(KeyboardKey::F8),
            66 => Some(KeyboardKey::F9),
            67 => Some(KeyboardKey::F10),
            68 => Some(KeyboardKey::F11),
            69 => Some(KeyboardKey::F12),
            70 => Some(KeyboardKey::PrintScreen),
            71 => Some(KeyboardKey::ScrollLock),
            72 => Some(KeyboardKey::Pause),
            73 => Some(KeyboardKey::Insert),
            74 => Some(KeyboardKey::Home),
            75 => Some(KeyboardKey::PageUp),
            76 => Some(KeyboardKey::Delete),
            77 => Some(KeyboardKey::End),
            78 => Some(KeyboardKey::PageDown),
            79 => Some(KeyboardKey::Right),
            80 => Some(KeyboardKey::Left),
            81 => Some(KeyboardKey::Down),
            82 => Some(KeyboardKey::Up),
            83 => Some(KeyboardKey::NumLock),
            84 => Some(KeyboardKey::KpDivide),
            85 => Some(KeyboardKey::KpMultiply),
            86 => Some(KeyboardKey::KpSubtract),
            87 => Some(KeyboardKey::KpAdd),
            88 => Some(KeyboardKey::KpEnter),
            89 => Some(KeyboardKey::Kp1),
            90 => Some(KeyboardKey::Kp2),
            91 => Some(KeyboardKey::Kp3),
            92 => Some(KeyboardKey::Kp4),
            93 => Some(KeyboardKey::Kp5),
            94 => Some(KeyboardKey::Kp6),
            95 => Some(KeyboardKey::Kp7),
            96 => Some(KeyboardKey::Kp8),
            97 => Some(KeyboardKey::Kp9),
            98 => Some(KeyboardKey::Kp0),
            99 => Some(KeyboardKey::KpDecimal),
            224 => Some(KeyboardKey::LeftControl),
            225 => Some(KeyboardKey::LeftShift),
            226 => Some(KeyboardKey::LeftAlt),
            227 => Some(KeyboardKey::LeftSuper),
            228 => Some(KeyboardKey::RightControl),
            229 => Some(KeyboardKey::RightShift),
            230 => Some(KeyboardKey::RightAlt),
            231 => Some(KeyboardKey::RightSuper),
        _ => None,
    }
}

} // verus!
