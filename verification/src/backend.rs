use vstd::prelude::*;

verus! {

/// Window configuration handed to a display or export backend.
#[derive(Debug, Clone)]
pub struct BackendConf {
    /// Title of the window, defaults to an empty string.
    pub window_title: String,
    /// The preferred width of the window.
    ///
    /// Default: 800
    pub window_width: i32,
    /// The preferred height of the window.
    ///
    /// Default: 600
    pub window_height: i32,
    /// Whether the window should be created in fullscreen mode.
    ///
    /// Default: false
    pub fullscreen: bool,
    /// Determines if the application user can resize the window.
    pub window_resizable: bool,
}

impl Default for BackendConf {
    /// An untitled, resizable 800 x 600 window.
    fn default() -> (c: BackendConf)
        ensures
            c.window_title@ == Seq::<char>::empty(),
            c.window_width == 800,
            c.window_height == 600,
            !c.fullscreen,
            c.window_resizable,
    {
        BackendConf {
            window_title: String::new(),
            window_width: 800,
            window_height: 600,
            fullscreen: false,
            window_resizable: true,
        }
    }
}

/// A mouse button reported by an input event.
#[derive(Debug, Copy, Clone, PartialEq, Hash, Eq)]
pub enum MouseButton {
    Right,
    Left,
    Middle,
    Unknown,
}

/// Modifier keys held during a key event.
#[derive(Debug, Copy, Clone, PartialEq)]
pub struct KeyMods {
    pub shift: bool,
    pub ctrl: bool,
    pub alt: bool,
    pub logo: bool,
}

impl Default for KeyMods {
    /// No modifier held.
    fn default() -> (m: KeyMods)
        ensures
            !m.shift && !m.ctrl && !m.alt && !m.logo,
    {
        KeyMods { shift: false, ctrl: false, alt: false, logo: false }
    }
}

/// A keyboard key reported by an input event.
#[derive(Debug, Copy, Clone, PartialEq, Hash, Eq)]
pub enum KeyCode {
    Space,
    Apostrophe,
    Comma,
    Minus,
    Period,
    Slash,
    Key0,
    Key1,
    Key2,
    Key3,
    Key4,
    Key5,
    Key6,
    Key7,
    Key8,
    Key9,
    Semicolon,
    Equal,
    A,
    B,
    C,
    D,
    E,
    F,
    G,
    H,
    I,
    J,
    K,
    L,
    M,
    N,
    O,
    P,
    Q,
    R,
    S,
    T,
    U,
    V,
    W,
    X,
    Y,
    Z,
    LeftBracket,
    Backslash,
    RightBracket,
    GraveAccent,
    World1,
    World2,
    Escape,
    Enter,
    Tab,
    Backspace,
    Insert,
    Delete,
    Right,
    Left,
    Down,
    Up,
    PageUp,
    PageDown,
    Home,
    End,
    CapsLock,
    ScrollLock,
    NumLock,
    PrintScreen,
    Pause,
    F1,
    F2,
    F3,
    F4,
    F5,
    F6,
    F7,
    F8,
    F9,
    F10,
    F11,
    F12,
    F13,
    F14,
    F15,
    F16,
    F17,
    F18,
    F19,
    F20,
    F21,
    F22,
    F23,
    F24,
    F25,
    Kp0,
    Kp1,
    Kp2,
    Kp3,
    Kp4,
    Kp5,
    Kp6,
    Kp7,
    Kp8,
    Kp9,
    KpDecimal,
    KpDivide,
    KpMultiply,
    KpSubtract,
    KpAdd,
    KpEnter,
    KpEqual,
    LeftShift,
    LeftControl,
    LeftAlt,
    LeftSuper,
    RightShift,
    RightControl,
    RightAlt,
    RightSuper,
    Menu,
    Unknown,
}

/// The key that a backend's numeric key code stands for; codes beyond the
/// table map to `Unknown`.
pub open spec fn spec_keycode(code: u32) -> KeyCode {
    match code {
        0u32 => KeyCode::Space,
        1u32 => KeyCode::Apostrophe,
        2u32 => KeyCode::Comma,
        3u32 => KeyCode::Minus,
        4u32 => KeyCode::Period,
        5u32 => KeyCode::Slash,
        6u32 => KeyCode::Key0,
        7u32 => KeyCode::Key1,
        8u32 => KeyCode::Key2,
        9u32 => KeyCode::Key3,
        10u32 => KeyCode::Key4,
        11u32 => KeyCode::Key5,
        12u32 => KeyCode::Key6,
        13u32 => KeyCode::Key7,
        14u32 => KeyCode::Key8,
        15u32 => KeyCode::Key9,
        16u32 => KeyCode::Semicolon,
        17u32 => KeyCode::Equal,
        18u32 => KeyCode::A,
        19u32 => KeyCode::B,
        20u32 => KeyCode::C,
        21u32 => KeyCode::D,
        22u32 => KeyCode::E,
        23u32 => KeyCode::F,
        24u32 => KeyCode::G,
        25u32 => KeyCode::H,
        26u32 => KeyCode::I,
        27u32 => KeyCode::J,
        28u32 => KeyCode::K,
        29u32 => KeyCode::L,
        30u32 => KeyCode::M,
        31u32 => KeyCode::N,
        32u32 => KeyCode::O,
        33u32 => KeyCode::P,
        34u32 => KeyCode::Q,
        35u32 => KeyCode::R,
        36u32 => KeyCode::S,
        37u32 => KeyCode::T,
        38u32 => KeyCode::U,
        39u32 => KeyCode::V,
        40u32 => KeyCode::W,
        41u32 => KeyCode::X,
        42u32 => KeyCode::Y,
        43u32 => KeyCode::Z,
        44u32 => KeyCode::LeftBracket,
        45u32 => KeyCode::Backslash,
        46u32 => KeyCode::RightBracket,
        47u32 => KeyCode::GraveAccent,
        48u32 => KeyCode::World1,
        49u32 => KeyCode::World2,
        50u32 => KeyCode::Escape,
        51u32 => KeyCode::Enter,
        52u32 => KeyCode::Tab,
        53u32 => KeyCode::Backspace,
        54u32 => KeyCode::Insert,
        55u32 => KeyCode::Delete,
        56u32 => KeyCode::Right,
        57u32 => KeyCode::Left,
        58u32 => KeyCode::Down,
        59u32 => KeyCode::Up,
        60u32 => KeyCode::PageUp,
        61u32 => KeyCode::PageDown,
        62u32 => KeyCode::Home,
        63u32 => KeyCode::End,
        64u32 => KeyCode::CapsLock,
        65u32 => KeyCode::ScrollLock,
        66u32 => KeyCode::NumLock,
        67u32 => KeyCode::PrintScreen,
        68u32 => KeyCode::Pause,
        69u32 => KeyCode::F1,
        70u32 => KeyCode::F2,
        71u32 => KeyCode::F3,
        72u32 => KeyCode::F4,
        73u32 => KeyCode::F5,
        74u32 => KeyCode::F6,
        75u32 => KeyCode::F7,
        76u32 => KeyCode::F8,
        77u32 => KeyCode::F9,
        78u32 => KeyCode::F10,
        79u32 => KeyCode::F11,
        80u32 => KeyCode::F12,
        81u32 => KeyCode::F13,
        82u32 => KeyCode::F14,
        83u32 => KeyCode::F15,
        84u32 => KeyCode::F16,
        85u32 => KeyCode::F17,
        86u32 => KeyCode::F18,
        87u32 => KeyCode::F19,
        88u32 => KeyCode::F20,
        89u32 => KeyCode::F21,
        90u32 => KeyCode::F22,
        91u32 => KeyCode::F23,
        92u32 => KeyCode::F24,
        93u32 => KeyCode::F25,
        94u32 => KeyCode::Kp0,
        95u32 => KeyCode::Kp1,
        96u32 => KeyCode::Kp2,
        97u32 => KeyCode::Kp3,
        98u32 => KeyCode::Kp4,
        99u32 => KeyCode::Kp5,
        100u32 => KeyCode::Kp6,
        101u32 => KeyCode::Kp7,
        102u32 => KeyCode::Kp8,
        103u32 => KeyCode::Kp9,
        104u32 => KeyCode::KpDecimal,
        105u32 => KeyCode::KpDivide,
        106u32 => KeyCode::KpMultiply,
        107u32 => KeyCode::KpSubtract,
        108u32 => KeyCode::KpAdd,
        109u32 => KeyCode::KpEnter,
        110u32 => KeyCode::KpEqual,
        111u32 => KeyCode::LeftShift,
        112u32 => KeyCode::LeftControl,
        113u32 => KeyCode::LeftAlt,
        114u32 => KeyCode::LeftSuper,
        115u32 => KeyCode::RightShift,
        116u32 => KeyCode::RightControl,
        117u32 => KeyCode::RightAlt,
        118u32 => KeyCode::RightSuper,
        119u32 => KeyCode::Menu,
        _ => KeyCode::Unknown,
    }
}

impl From<u32> for KeyCode {
    fn from(code: u32) -> KeyCode {
        match code {
            0 => KeyCode::Space,
            1 => KeyCode::Apostrophe,
            2 => KeyCode::Comma,
            3 => KeyCode::Minus,
            4 => KeyCode::Period,
            5 => KeyCode::Slash,
            6 => KeyCode::Key0,
            7 => KeyCode::Key1,
            8 => KeyCode::Key2,
            9 => KeyCode::Key3,
            10 => KeyCode::Key4,
            11 => KeyCode::Key5,
            12 => KeyCode::Key6,
            13 => KeyCode::Key7,
            14 => KeyCode::Key8,
            15 => KeyCode::Key9,
            16 => KeyCode::Semicolon,
            17 => KeyCode::Equal,
            18 => KeyCode::A,
            19 => KeyCode::B,
            20 => KeyCode::C,
            21 => KeyCode::D,
            22 => KeyCode::E,
            23 => KeyCode::F,
            24 => KeyCode::G,
            25 => KeyCode::H,
            26 => KeyCode::I,
            27 => KeyCode::J,
            28 => KeyCode::K,
            29 => KeyCode::L,
            30 => KeyCode::M,
            31 => KeyCode::N,
            32 => KeyCode::O,
            33 => KeyCode::P,
            34 => KeyCode::Q,
            35 => KeyCode::R,
            36 => KeyCode::S,
            37 => KeyCode::T,
            38 => KeyCode::U,
            39 => KeyCode::V,
            40 => KeyCode::W,
            41 => KeyCode::X,
            42 => KeyCode::Y,
            43 => KeyCode::Z,
            44 => KeyCode::LeftBracket,
            45 => KeyCode::Backslash,
            46 => KeyCode::RightBracket,
            47 => KeyCode::GraveAccent,
            48 => KeyCode::World1,
            49 => KeyCode::World2,
            50 => KeyCode::Escape,
            51 => KeyCode::Enter,
            52 => KeyCode::Tab,
            53 => KeyCode::Backspace,
            54 => KeyCode::Insert,
            55 => KeyCode::Delete,
            56 => KeyCode::Right,
            57 => KeyCode::Left,
            58 => KeyCode::Down,
            59 => KeyCode::Up,
            60 => KeyCode::PageUp,
            61 => KeyCode::PageDown,
            62 => KeyCode::Home,
            63 => KeyCode::End,
            64 => KeyCode::CapsLock,
            65 => KeyCode::ScrollLock,
            66 => KeyCode::NumLock,
            67 => KeyCode::PrintScreen,
            68 => KeyCode::Pause,
            69 => KeyCode::F1,
            70 => KeyCode::F2,
            71 => KeyCode::F3,
            72 => KeyCode::F4,
            73 => KeyCode::F5,
            74 => KeyCode::F6,
            75 => KeyCode::F7,
            76 => KeyCode::F8,
            77 => KeyCode::F9,
            78 => KeyCode::F10,
            79 => KeyCode::F11,
            80 => KeyCode::F12,
            81 => KeyCode::F13,
            82 => KeyCode::F14,
            83 => KeyCode::F15,
            84 => KeyCode::F16,
            85 => KeyCode::F17,
            86 => KeyCode::F18,
            87 => KeyCode::F19,
            88 => KeyCode::F20,
            89 => KeyCode::F21,
            90 => KeyCode::F22,
            91 => KeyCode::F23,
            92 => KeyCode::F24,
            93 => KeyCode::F25,
            94 => KeyCode::Kp0,
            95 => KeyCode::Kp1,
            96 => KeyCode::Kp2,
            97 => KeyCode::Kp3,
            98 => KeyCode::Kp4,
            99 => KeyCode::Kp5,
            100 => KeyCode::Kp6,
            101 => KeyCode::Kp7,
            102 => KeyCode::Kp8,
            103 => KeyCode::Kp9,
            104 => KeyCode::KpDecimal,
            105 => KeyCode::KpDivide,
            106 => KeyCode::KpMultiply,
            107 => KeyCode::KpSubtract,
            108 => KeyCode::KpAdd,
            109 => KeyCode::KpEnter,
            110 => KeyCode::KpEqual,
            111 => KeyCode::LeftShift,
            112 => KeyCode::LeftControl,
            113 => KeyCode::LeftAlt,
            114 => KeyCode::LeftSuper,
            115 => KeyCode::RightShift,
            116 => KeyCode::RightControl,
            117 => KeyCode::RightAlt,
            118 => KeyCode::RightSuper,
            119 => KeyCode::Menu,
            _ => KeyCode::Unknown,
        }
    }
}

impl vstd::std_specs::convert::FromSpecImpl<u32> for KeyCode {
    open spec fn obeys_from_spec() -> bool {
        true
    }

    open spec fn from_spec(code: u32) -> KeyCode {
        spec_keycode(code)
    }
}

} // verus!
