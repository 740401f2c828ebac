use vstd::prelude::*;
use vstd::string::*;

verus! {

/// A firmware key code. Every named variant stands for one fixed 32-bit value;
/// `Unrecognized` carries a value that no named variant has, so that codes the
/// firmware reports without an alias survive a round trip unchanged.
#[derive(Debug, Clone, Copy, PartialEq, Eq, Hash, Structural)]
pub enum KeyCode {
    // Numbers
    Key1,
    Key2,
    Key3,
    Key4,
    Key5,
    Key6,
    Key7,
    Key8,
    Key9,
    Key0,
    // Letters
    KeyA,
    KeyB,
    KeyC,
    KeyD,
    KeyE,
    KeyF,
    KeyG,
    KeyH,
    KeyI,
    KeyJ,
    KeyK,
    KeyL,
    KeyM,
    KeyN,
    KeyO,
    KeyP,
    KeyQ,
    KeyR,
    KeyS,
    KeyT,
    KeyU,
    KeyV,
    KeyW,
    KeyX,
    KeyY,
    KeyZ,
    // Symbols
    KeyHyphen,
    KeyEquals,
    KeyLeftBracket,
    KeyRightBracket,
    KeyBackSlash,
    KeySemiColon,
    KeyQuote,
    KeyBackQuote,
    KeyComma,
    KeyDot,
    KeySlash,
    // Modifiers
    KeyLeftControl,
    KeyLeftShift,
    KeyLeftAlt,
    KeyRightControl,
    KeyRightShift,
    KeyRightAlt,
    KeyLeftSuper,
    KeyRightSuper,
    // Arrow keys
    KeyRight,
    KeyLeft,
    KeyDown,
    KeyUp,
    // Function keys
    KeyF1,
    KeyF2,
    KeyF3,
    KeyF4,
    KeyF5,
    KeyF6,
    KeyF7,
    KeyF8,
    KeyF9,
    KeyF10,
    KeyF11,
    KeyF12,
    // Special keys
    KeyEscape,
    KeyTab,
    KeyEnter,
    KeyMenu,
    KeyInsert,
    KeyPause,
    KeySpace,
    KeyHome,
    KeyEnd,
    KeyDelete,
    KeyPageDown,
    KeyPageUp,
    KeyCapsLock,
    KeyBackspace,
    KeyPrintScreen,
    // Numpad
    KeyNum1,
    KeyNum2,
    KeyNum3,
    KeyNum4,
    KeyNum5,
    KeyNum6,
    KeyNum7,
    KeyNum8,
    KeyNum9,
    KeyNum0,
    KeyNumAdd,
    KeyNumSubstract,
    KeyNumMultiply,
    KeyNumDivide,
    KeyNumDecimalPoint,
    KeyNumLock,
    KeyNumEnter,
    // Function key
    KeyFn,
    // Shortcuts
    ShortcutExplorer,
    ShortcutCut,
    ShortcutCopy,
    ShortcutPaste,
    ShortcutSave,
    ShortcutShowDesktop,
    ShortcutLock,
    ShortcutSwitchWindow,
    ShortcutCloseWindow,
    // Multimedia
    MultimediaPlayPause,
    MultimediaStop,
    MultimediaPrevious,
    MultimediaNext,
    MultimediaVolumeUp,
    MultimediaVolumeDown,
    MultimediaMute,
    // Invalid
    KeyInvalid,
    /// A value that matches no named code.
    Unrecognized(u32),
}

impl KeyCode {
    /// The 32-bit value of a code.
    pub open spec fn spec_value(self) -> u32 {
        match self {
            KeyCode::Key1 => 0x1e00,
            KeyCode::Key2 => 0x1f00,
            KeyCode::Key3 => 0x2000,
            KeyCode::Key4 => 0x2100,
            KeyCode::Key5 => 0x2200,
            KeyCode::Key6 => 0x2300,
            KeyCode::Key7 => 0x2400,
            KeyCode::Key8 => 0x2500,
            KeyCode::Key9 => 0x2600,
            KeyCode::Key0 => 0x2700,
            KeyCode::KeyA => 0x0400,
            KeyCode::KeyB => 0x0500,
            KeyCode::KeyC => 0x0600,
            KeyCode::KeyD => 0x0700,
            KeyCode::KeyE => 0x0800,
            KeyCode::KeyF => 0x0900,
            KeyCode::KeyG => 0x0a00,
            KeyCode::KeyH => 0x0b00,
            KeyCode::KeyI => 0x0c00,
            KeyCode::KeyJ => 0x0d00,
            KeyCode::KeyK => 0x0e00,
            KeyCode::KeyL => 0x0f00,
            KeyCode::KeyM => 0x1000,
            KeyCode::KeyN => 0x1100,
            KeyCode::KeyO => 0x1200,
            KeyCode::KeyP => 0x1300,
            KeyCode::KeyQ => 0x1400,
            KeyCode::KeyR => 0x1500,
            KeyCode::KeyS => 0x1600,
            KeyCode::KeyT => 0x1700,
            KeyCode::KeyU => 0x1800,
            KeyCode::KeyV => 0x1900,
            KeyCode::KeyW => 0x1a00,
            KeyCode::KeyX => 0x1b00,
            KeyCode::KeyY => 0x1c00,
            KeyCode::KeyZ => 0x1d00,
            KeyCode::KeyHyphen => 0x2d00,
            KeyCode::KeyEquals => 0x2e00,
            KeyCode::KeyLeftBracket => 0x2f00,
            KeyCode::KeyRightBracket => 0x3000,
            KeyCode::KeyBackSlash => 0x3100,
            KeyCode::KeySemiColon => 0x3300,
            KeyCode::KeyQuote => 0x3400,
            KeyCode::KeyBackQuote => 0x3500,
            KeyCode::KeyComma => 0x3600,
            KeyCode::KeyDot => 0x3700,
            KeyCode::KeySlash => 0x3800,
            KeyCode::KeyLeftControl => 0x010000,
            KeyCode::KeyLeftShift => 0x020000,
            KeyCode::KeyLeftAlt => 0x040000,
            KeyCode::KeyRightControl => 0x100000,
            KeyCode::KeyRightShift => 0x200000,
            KeyCode::KeyRightAlt => 0x400000,
            KeyCode::KeyLeftSuper => 0x080000,
            KeyCode::KeyRightSuper => 0x800000,
            KeyCode::KeyRight => 0x4f00,
            KeyCode::KeyLeft => 0x5000,
            KeyCode::KeyDown => 0x5100,
            KeyCode::KeyUp => 0x5200,
            KeyCode::KeyF1 => 0x3a00,
            KeyCode::KeyF2 => 0x3b00,
            KeyCode::KeyF3 => 0x3c00,
            KeyCode::KeyF4 => 0x3d00,
            KeyCode::KeyF5 => 0x3e00,
            KeyCode::KeyF6 => 0x3f00,
            KeyCode::KeyF7 => 0x4000,
            KeyCode::KeyF8 => 0x4100,
            KeyCode::KeyF9 => 0x4200,
            KeyCode::KeyF10 => 0x4300,
            KeyCode::KeyF11 => 0x4400,
            KeyCode::KeyF12 => 0x4500,
            KeyCode::KeyEscape => 0x2900,
            KeyCode::KeyTab => 0x2b00,
            KeyCode::KeyEnter => 0x2800,
            KeyCode::KeyMenu => 0x6500,
            KeyCode::KeyInsert => 0x4900,
            KeyCode::KeyPause => 0x4800,
            KeyCode::KeySpace => 0x2c00,
            KeyCode::KeyHome => 0x4a00,
            KeyCode::KeyEnd => 0x4d00,
            KeyCode::KeyDelete => 0x4c00,
            KeyCode::KeyPageDown => 0x4e00,
            KeyCode::KeyPageUp => 0x4b00,
            KeyCode::KeyCapsLock => 0x3900,
            KeyCode::KeyBackspace => 0x2a00,
            KeyCode::KeyPrintScreen => 0x4600,
            KeyCode::KeyNum1 => 0x5900,
            KeyCode::KeyNum2 => 0x5a00,
            KeyCode::KeyNum3 => 0x5b00,
            KeyCode::KeyNum4 => 0x5c00,
            KeyCode::KeyNum5 => 0x5d00,
            KeyCode::KeyNum6 => 0x5e00,
            KeyCode::KeyNum7 => 0x5f00,
            KeyCode::KeyNum8 => 0x6000,
            KeyCode::KeyNum9 => 0x6100,
            KeyCode::KeyNum0 => 0x6200,
            KeyCode::KeyNumAdd => 0x5700,
            KeyCode::KeyNumSubstract => 0x5600,
            KeyCode::KeyNumMultiply => 0x5500,
            KeyCode::KeyNumDivide => 0x5400,
            KeyCode::KeyNumDecimalPoint => 0x6300,
            KeyCode::KeyNumLock => 0x5300,
            KeyCode::KeyNumEnter => 0x5800,
            KeyCode::KeyFn => 0xb000,
            KeyCode::ShortcutExplorer => 0x01000194,
            KeyCode::ShortcutCut => 0x011b00,
            KeyCode::ShortcutCopy => 0x010600,
            KeyCode::ShortcutPaste => 0x011900,
            KeyCode::ShortcutSave => 0x011600,
            KeyCode::ShortcutShowDesktop => 0x080700,
            KeyCode::ShortcutLock => 0x080f00,
            KeyCode::ShortcutSwitchWindow => 0x042b00,
            KeyCode::ShortcutCloseWindow => 0x043d00,
            KeyCode::MultimediaPlayPause => 0x010000cd,
            KeyCode::MultimediaStop => 0x010000b7,
            KeyCode::MultimediaPrevious => 0x010000b6,
            KeyCode::MultimediaNext => 0x010000b5,
            KeyCode::MultimediaVolumeUp => 0x010000e9,
            KeyCode::MultimediaVolumeDown => 0x010000ea,
            KeyCode::MultimediaMute => 0x010000e2,
            KeyCode::KeyInvalid => 0,
            KeyCode::Unrecognized(v) => v,
        }
    }

    /// The code that a 32-bit value decodes to.
    pub open spec fn spec_from_value(v: u32) -> KeyCode {
        match v {
            0x1e00 => KeyCode::Key1,
            0x1f00 => KeyCode::Key2,
            0x2000 => KeyCode::Key3,
            0x2100 => KeyCode::Key4,
            0x2200 => KeyCode::Key5,
            0x2300 => KeyCode::Key6,
            0x2400 => KeyCode::Key7,
            0x2500 => KeyCode::Key8,
            0x2600 => KeyCode::Key9,
            0x2700 => KeyCode::Key0,
            0x0400 => KeyCode::KeyA,
            0x0500 => KeyCode::KeyB,
            0x0600 => KeyCode::KeyC,
            0x0700 => KeyCode::KeyD,
            0x0800 => KeyCode::KeyE,
            0x0900 => KeyCode::KeyF,
            0x0a00 => KeyCode::KeyG,
            0x0b00 => KeyCode::KeyH,
            0x0c00 => KeyCode::KeyI,
            0x0d00 => KeyCode::KeyJ,
            0x0e00 => KeyCode::KeyK,
            0x0f00 => KeyCode::KeyL,
            0x1000 => KeyCode::KeyM,
            0x1100 => KeyCode::KeyN,
            0x1200 => KeyCode::KeyO,
            0x1300 => KeyCode::KeyP,
            0x1400 => KeyCode::KeyQ,
            0x1500 => KeyCode::KeyR,
            0x1600 => KeyCode::KeyS,
            0x1700 => KeyCode::KeyT,
            0x1800 => KeyCode::KeyU,
            0x1900 => KeyCode::KeyV,
            0x1a00 => KeyCode::KeyW,
            0x1b00 => KeyCode::KeyX,
            0x1c00 => KeyCode::KeyY,
            0x1d00 => KeyCode::KeyZ,
            0x2d00 => KeyCode::KeyHyphen,
            0x2e00 => KeyCode::KeyEquals,
            0x2f00 => KeyCode::KeyLeftBracket,
            0x3000 => KeyCode::KeyRightBracket,
            0x3100 => KeyCode::KeyBackSlash,
            0x3300 => KeyCode::KeySemiColon,
            0x3400 => KeyCode::KeyQuote,
            0x3500 => KeyCode::KeyBackQuote,
            0x3600 => KeyCode::KeyComma,
            0x3700 => KeyCode::KeyDot,
            0x3800 => KeyCode::KeySlash,
            0x010000 => KeyCode::KeyLeftControl,
            0x020000 => KeyCode::KeyLeftShift,
            0x040000 => KeyCode::KeyLeftAlt,
            0x100000 => KeyCode::KeyRightControl,
            0x200000 => KeyCode::KeyRightShift,
            0x400000 => KeyCode::KeyRightAlt,
            0x080000 => KeyCode::KeyLeftSuper,
            0x800000 => KeyCode::KeyRightSuper,
            0x4f00 => KeyCode::KeyRight,
            0x5000 => KeyCode::KeyLeft,
            0x5100 => KeyCode::KeyDown,
            0x5200 => KeyCode::KeyUp,
            0x3a00 => KeyCode::KeyF1,
            0x3b00 => KeyCode::KeyF2,
            0x3c00 => KeyCode::KeyF3,
            0x3d00 => KeyCode::KeyF4,
            0x3e00 => KeyCode::KeyF5,
            0x3f00 => KeyCode::KeyF6,
            0x4000 => KeyCode::KeyF7,
            0x4100 => KeyCode::KeyF8,
            0x4200 => KeyCode::KeyF9,
            0x4300 => KeyCode::KeyF10,
            0x4400 => KeyCode::KeyF11,
            0x4500 => KeyCode::KeyF12,
            0x2900 => KeyCode::KeyEscape,
            0x2b00 => KeyCode::KeyTab,
            0x2800 => KeyCode::KeyEnter,
            0x6500 => KeyCode::KeyMenu,
            0x4900 => KeyCode::KeyInsert,
            0x4800 => KeyCode::KeyPause,
            0x2c00 => KeyCode::KeySpace,
            0x4a00 => KeyCode::KeyHome,
            0x4d00 => KeyCode::KeyEnd,
            0x4c00 => KeyCode::KeyDelete,
            0x4e00 => KeyCode::KeyPageDown,
            0x4b00 => KeyCode::KeyPageUp,
            0x3900 => KeyCode::KeyCapsLock,
            0x2a00 => KeyCode::KeyBackspace,
            0x4600 => KeyCode::KeyPrintScreen,
            0x5900 => KeyCode::KeyNum1,
            0x5a00 => KeyCode::KeyNum2,
            0x5b00 => KeyCode::KeyNum3,
            0x5c00 => KeyCode::KeyNum4,
            0x5d00 => KeyCode::KeyNum5,
            0x5e00 => KeyCode::KeyNum6,
            0x5f00 => KeyCode::KeyNum7,
            0x6000 => KeyCode::KeyNum8,
            0x6100 => KeyCode::KeyNum9,
            0x6200 => KeyCode::KeyNum0,
            0x5700 => KeyCode::KeyNumAdd,
            0x5600 => KeyCode::KeyNumSubstract,
            0x5500 => KeyCode::KeyNumMultiply,
            0x5400 => KeyCode::KeyNumDivide,
            0x6300 => KeyCode::KeyNumDecimalPoint,
            0x5300 => KeyCode::KeyNumLock,
            0x5800 => KeyCode::KeyNumEnter,
            0xb000 => KeyCode::KeyFn,
            0x01000194 => KeyCode::ShortcutExplorer,
            0x011b00 => KeyCode::ShortcutCut,
            0x010600 => KeyCode::ShortcutCopy,
            0x011900 => KeyCode::ShortcutPaste,
            0x011600 => KeyCode::ShortcutSave,
            0x080700 => KeyCode::ShortcutShowDesktop,
            0x080f00 => KeyCode::ShortcutLock,
            0x042b00 => KeyCode::ShortcutSwitchWindow,
            0x043d00 => KeyCode::ShortcutCloseWindow,
            0x010000cd => KeyCode::MultimediaPlayPause,
            0x010000b7 => KeyCode::MultimediaStop,
            0x010000b6 => KeyCode::MultimediaPrevious,
            0x010000b5 => KeyCode::MultimediaNext,
            0x010000e9 => KeyCode::MultimediaVolumeUp,
            0x010000ea => KeyCode::MultimediaVolumeDown,
            0x010000e2 => KeyCode::MultimediaMute,
            0 => KeyCode::KeyInvalid,
            _ => KeyCode::Unrecognized(v),
        }
    }

    /// The code that a descriptor names, if the name is one of the vocabulary.
    pub open spec fn spec_named(s: Seq<char>) -> Option<KeyCode> {
        if s == "Key_1"@ {
            Some(KeyCode::Key1)
        } else if s == "Key_2"@ {
            Some(KeyCode::Key2)
        } else if s == "Key_3"@ {
            Some(KeyCode::Key3)
        } else if s == "Key_4"@ {
            Some(KeyCode::Key4)
        } else if s == "Key_5"@ {
            Some(KeyCode::Key5)
        } else if s == "Key_6"@ {
            Some(KeyCode::Key6)
        } else if s == "Key_7"@ {
            Some(KeyCode::Key7)
        } else if s == "Key_8"@ {
            Some(KeyCode::Key8)
        } else if s == "Key_9"@ {
            Some(KeyCode::Key9)
        } else if s == "Key_0"@ {
            Some(KeyCode::Key0)
        } else if s == "Key_A"@ {
            Some(KeyCode::KeyA)
        } else if s == "Key_B"@ {
            Some(KeyCode::KeyB)
        } else if s == "Key_C"@ {
            Some(KeyCode::KeyC)
        } else if s == "Key_D"@ {
            Some(KeyCode::KeyD)
        } else if s == "Key_E"@ {
            Some(KeyCode::KeyE)
        } else if s == "Key_F"@ {
            Some(KeyCode::KeyF)
        } else if s == "Key_G"@ {
            Some(KeyCode::KeyG)
        } else if s == "Key_H"@ {
            Some(KeyCode::KeyH)
        } else if s == "Key_I"@ {
            Some(KeyCode::KeyI)
        } else if s == "Key_J"@ {
            Some(KeyCode::KeyJ)
        } else if s == "Key_K"@ {
            Some(KeyCode::KeyK)
        } else if s == "Key_L"@ {
            Some(KeyCode::KeyL)
        } else if s == "Key_M"@ {
            Some(KeyCode::KeyM)
        } else if s == "Key_N"@ {
            Some(KeyCode::KeyN)
        } else if s == "Key_O"@ {
            Some(KeyCode::KeyO)
        } else if s == "Key_P"@ {
            Some(KeyCode::KeyP)
        } else if s == "Key_Q"@ {
            Some(KeyCode::KeyQ)
        } else if s == "Key_R"@ {
            Some(KeyCode::KeyR)
        } else if s == "Key_S"@ {
            Some(KeyCode::KeyS)
        } else if s == "Key_T"@ {
            Some(KeyCode::KeyT)
        } else if s == "Key_U"@ {
            Some(KeyCode::KeyU)
        } else if s == "Key_V"@ {
            Some(KeyCode::KeyV)
        } else if s == "Key_W"@ {
            Some(KeyCode::KeyW)
        } else if s == "Key_X"@ {
            Some(KeyCode::KeyX)
        } else if s == "Key_Y"@ {
            Some(KeyCode::KeyY)
        } else if s == "Key_Z"@ {
            Some(KeyCode::KeyZ)
        } else if s == "Key_Hyphen"@ {
            Some(KeyCode::KeyHyphen)
        } else if s == "Key_Equals"@ {
            Some(KeyCode::KeyEquals)
        } else if s == "Key_Left_Bracket"@ {
            Some(KeyCode::KeyLeftBracket)
        } else if s == "Key_Right_Bracket"@ {
            Some(KeyCode::KeyRightBracket)
        } else if s == "Key_Back_Slash"@ {
            Some(KeyCode::KeyBackSlash)
        } else if s == "Key_Semi_Colon"@ {
            Some(KeyCode::KeySemiColon)
        } else if s == "Key_Quote"@ {
            Some(KeyCode::KeyQuote)
        } else if s == "Key_Back_Quote"@ {
            Some(KeyCode::KeyBackQuote)
        } else if s == "Key_Comma"@ {
            Some(KeyCode::KeyComma)
        } else if s == "Key_Dot"@ {
            Some(KeyCode::KeyDot)
        } else if s == "Key_Slash"@ {
            Some(KeyCode::KeySlash)
        } else if s == "Key_Left_Control"@ {
            Some(KeyCode::KeyLeftControl)
        } else if s == "Key_Left_Shift"@ {
            Some(KeyCode::KeyLeftShift)
        } else if s == "Key_Left_Alt"@ {
            Some(KeyCode::KeyLeftAlt)
        } else if s == "Key_Right_Control"@ {
            Some(KeyCode::KeyRightControl)
        } else if s == "Key_Right_Shift"@ {
            Some(KeyCode::KeyRightShift)
        } else if s == "Key_Right_Alt"@ {
            Some(KeyCode::KeyRightAlt)
        } else if s == "Key_Left_Super"@ {
            Some(KeyCode::KeyLeftSuper)
        } else if s == "Key_Right_Super"@ {
            Some(KeyCode::KeyRightSuper)
        } else if s == "Key_Right"@ {
            Some(KeyCode::KeyRight)
        } else if s == "Key_Left"@ {
            Some(KeyCode::KeyLeft)
        } else if s == "Key_Down"@ {
            Some(KeyCode::KeyDown)
        } else if s == "Key_Up"@ {
            Some(KeyCode::KeyUp)
        } else if s == "Key_F1"@ {
            Some(KeyCode::KeyF1)
        } else if s == "Key_F2"@ {
            Some(KeyCode::KeyF2)
        } else if s == "Key_F3"@ {
            Some(KeyCode::KeyF3)
        } else if s == "Key_F4"@ {
            Some(KeyCode::KeyF4)
        } else if s == "Key_F5"@ {
            Some(KeyCode::KeyF5)
        } else if s == "Key_F6"@ {
            Some(KeyCode::KeyF6)
        } else if s == "Key_F7"@ {
            Some(KeyCode::KeyF7)
        } else if s == "Key_F8"@ {
            Some(KeyCode::KeyF8)
        } else if s == "Key_F9"@ {
            Some(KeyCode::KeyF9)
        } else if s == "Key_F10"@ {
            Some(KeyCode::KeyF10)
        } else if s == "Key_F11"@ {
            Some(KeyCode::KeyF11)
        } else if s == "Key_F12"@ {
            Some(KeyCode::KeyF12)
        } else if s == "Key_Escape"@ {
            Some(KeyCode::KeyEscape)
        } else if s == "Key_Tab"@ {
            Some(KeyCode::KeyTab)
        } else if s == "Key_Enter"@ {
            Some(KeyCode::KeyEnter)
        } else if s == "Key_Menu"@ {
            Some(KeyCode::KeyMenu)
        } else if s == "Key_Insert"@ {
            Some(KeyCode::KeyInsert)
        } else if s == "Key_Pause"@ {
            Some(KeyCode::KeyPause)
        } else if s == "Key_Space"@ {
            Some(KeyCode::KeySpace)
        } else if s == "Key_Home"@ {
            Some(KeyCode::KeyHome)
        } else if s == "Key_End"@ {
            Some(KeyCode::KeyEnd)
        } else if s == "Key_Delete"@ {
            Some(KeyCode::KeyDelete)
        } else if s == "Key_Page_Down"@ {
            Some(KeyCode::KeyPageDown)
        } else if s == "Key_Page_Up"@ {
            Some(KeyCode::KeyPageUp)
        } else if s == "Key_Caps_Lock"@ {
            Some(KeyCode::KeyCapsLock)
        } else if s == "Key_Backspace"@ {
            Some(KeyCode::KeyBackspace)
        } else if s == "Key_Print_Screen"@ {
            Some(KeyCode::KeyPrintScreen)
        } else if s == "Key_Num_1"@ {
            Some(KeyCode::KeyNum1)
        } else if s == "Key_Num_2"@ {
            Some(KeyCode::KeyNum2)
        } else if s == "Key_Num_3"@ {
            Some(KeyCode::KeyNum3)
        } else if s == "Key_Num_4"@ {
            Some(KeyCode::KeyNum4)
        } else if s == "Key_Num_5"@ {
            Some(KeyCode::KeyNum5)
        } else if s == "Key_Num_6"@ {
            Some(KeyCode::KeyNum6)
        } else if s == "Key_Num_7"@ {
            Some(KeyCode::KeyNum7)
        } else if s == "Key_Num_8"@ {
            Some(KeyCode::KeyNum8)
        } else if s == "Key_Num_9"@ {
            Some(KeyCode::KeyNum9)
        } else if s == "Key_Num_0"@ {
            Some(KeyCode::KeyNum0)
        } else if s == "Key_Num_Add"@ {
            Some(KeyCode::KeyNumAdd)
        } else if s == "Key_Num_Substract"@ {
            Some(KeyCode::KeyNumSubstract)
        } else if s == "Key_Num_Multiply"@ {
            Some(KeyCode::KeyNumMultiply)
        } else if s == "Key_Num_Divide"@ {
            Some(KeyCode::KeyNumDivide)
        } else if s == "Key_Num_Decimal_Point"@ {
            Some(KeyCode::KeyNumDecimalPoint)
        } else if s == "Key_Num_Lock"@ {
            Some(KeyCode::KeyNumLock)
        } else if s == "Key_Num_Enter"@ {
            Some(KeyCode::KeyNumEnter)
        } else if s == "Key_Fn"@ {
            Some(KeyCode::KeyFn)
        } else if s == "Shortcut_Explorer"@ {
            Some(KeyCode::ShortcutExplorer)
        } else if s == "Shortcut_Cut"@ {
            Some(KeyCode::ShortcutCut)
        } else if s == "Shortcut_Copy"@ {
            Some(KeyCode::ShortcutCopy)
        } else if s == "Shortcut_Paste"@ {
            Some(KeyCode::ShortcutPaste)
        } else if s == "Shortcut_Save"@ {
            Some(KeyCode::ShortcutSave)
        } else if s == "Shortcut_Show_Desktop"@ {
            Some(KeyCode::ShortcutShowDesktop)
        } else if s == "Shortcut_Lock"@ {
            Some(KeyCode::ShortcutLock)
        } else if s == "Shortcut_Switch_Window"@ {
            Some(KeyCode::ShortcutSwitchWindow)
        } else if s == "Shortcut_Close_Window"@ {
            Some(KeyCode::ShortcutCloseWindow)
        } else if s == "Multimedia_Play_Pause"@ {
            Some(KeyCode::MultimediaPlayPause)
        } else if s == "Multimedia_Stop"@ {
            Some(KeyCode::MultimediaStop)
        } else if s == "Multimedia_Previous"@ {
            Some(KeyCode::MultimediaPrevious)
        } else if s == "Multimedia_Next"@ {
            Some(KeyCode::MultimediaNext)
        } else if s == "Multimedia_Volume_Up"@ {
            Some(KeyCode::MultimediaVolumeUp)
        } else if s == "Multimedia_Volume_Down"@ {
            Some(KeyCode::MultimediaVolumeDown)
        } else if s == "Multimedia_Mute"@ {
            Some(KeyCode::MultimediaMute)
        } else if s == "Key_Invalid"@ {
            Some(KeyCode::KeyInvalid)
        } else {
            None
        }
    }

    /// The descriptor name of a named code.
    pub open spec fn spec_name(self) -> Option<Seq<char>> {
        match self {
            KeyCode::Key1 => Some("Key_1"@),
            KeyCode::Key2 => Some("Key_2"@),
            KeyCode::Key3 => Some("Key_3"@),
            KeyCode::Key4 => Some("Key_4"@),
            KeyCode::Key5 => Some("Key_5"@),
            KeyCode::Key6 => Some("Key_6"@),
            KeyCode::Key7 => Some("Key_7"@),
            KeyCode::Key8 => Some("Key_8"@),
            KeyCode::Key9 => Some("Key_9"@),
            KeyCode::Key0 => Some("Key_0"@),
            KeyCode::KeyA => Some("Key_A"@),
            KeyCode::KeyB => Some("Key_B"@),
            KeyCode::KeyC => Some("Key_C"@),
            KeyCode::KeyD => Some("Key_D"@),
            KeyCode::KeyE => Some("Key_E"@),
            KeyCode::KeyF => Some("Key_F"@),
            KeyCode::KeyG => Some("Key_G"@),
            KeyCode::KeyH => Some("Key_H"@),
            KeyCode::KeyI => Some("Key_I"@),
            KeyCode::KeyJ => Some("Key_J"@),
            KeyCode::KeyK => Some("Key_K"@),
            KeyCode::KeyL => Some("Key_L"@),
            KeyCode::KeyM => Some("Key_M"@),
            KeyCode::KeyN => Some("Key_N"@),
            KeyCode::KeyO => Some("Key_O"@),
            KeyCode::KeyP => Some("Key_P"@),
            KeyCode::KeyQ => Some("Key_Q"@),
            KeyCode::KeyR => Some("Key_R"@),
            KeyCode::KeyS => Some("Key_S"@),
            KeyCode::KeyT => Some("Key_T"@),
            KeyCode::KeyU => Some("Key_U"@),
            KeyCode::KeyV => Some("Key_V"@),
            KeyCode::KeyW => Some("Key_W"@),
            KeyCode::KeyX => Some("Key_X"@),
            KeyCode::KeyY => Some("Key_Y"@),
            KeyCode::KeyZ => Some("Key_Z"@),
            KeyCode::KeyHyphen => Some("Key_Hyphen"@),
            KeyCode::KeyEquals => Some("Key_Equals"@),
            KeyCode::KeyLeftBracket => Some("Key_Left_Bracket"@),
            KeyCode::KeyRightBracket => Some("Key_Right_Bracket"@),
            KeyCode::KeyBackSlash => Some("Key_Back_Slash"@),
            KeyCode::KeySemiColon => Some("Key_Semi_Colon"@),
            KeyCode::KeyQuote => Some("Key_Quote"@),
            KeyCode::KeyBackQuote => Some("Key_Back_Quote"@),
            KeyCode::KeyComma => Some("Key_Comma"@),
            KeyCode::KeyDot => Some("Key_Dot"@),
            KeyCode::KeySlash => Some("Key_Slash"@),
            KeyCode::KeyLeftControl => Some("Key_Left_Control"@),
            KeyCode::KeyLeftShift => Some("Key_Left_Shift"@),
            KeyCode::KeyLeftAlt => Some("Key_Left_Alt"@),
            KeyCode::KeyRightControl => Some("Key_Right_Control"@),
            KeyCode::KeyRightShift => Some("Key_Right_Shift"@),
            KeyCode::KeyRightAlt => Some("Key_Right_Alt"@),
            KeyCode::KeyLeftSuper => Some("Key_Left_Super"@),
            KeyCode::KeyRightSuper => Some("Key_Right_Super"@),
            KeyCode::KeyRight => Some("Key_Right"@),
            KeyCode::KeyLeft => Some("Key_Left"@),
            KeyCode::KeyDown => Some("Key_Down"@),
            KeyCode::KeyUp => Some("Key_Up"@),
            KeyCode::KeyF1 => Some("Key_F1"@),
            KeyCode::KeyF2 => Some("Key_F2"@),
            KeyCode::KeyF3 => Some("Key_F3"@),
            KeyCode::KeyF4 => Some("Key_F4"@),
            KeyCode::KeyF5 => Some("Key_F5"@),
            KeyCode::KeyF6 => Some("Key_F6"@),
            KeyCode::KeyF7 => Some("Key_F7"@),
            KeyCode::KeyF8 => Some("Key_F8"@),
            KeyCode::KeyF9 => Some("Key_F9"@),
            KeyCode::KeyF10 => Some("Key_F10"@),
            KeyCode::KeyF11 => Some("Key_F11"@),
            KeyCode::KeyF12 => Some("Key_F12"@),
            KeyCode::KeyEscape => Some("Key_Escape"@),
            KeyCode::KeyTab => Some("Key_Tab"@),
            KeyCode::KeyEnter => Some("Key_Enter"@),
            KeyCode::KeyMenu => Some("Key_Menu"@),
            KeyCode::KeyInsert => Some("Key_Insert"@),
            KeyCode::KeyPause => Some("Key_Pause"@),
            KeyCode::KeySpace => Some("Key_Space"@),
            KeyCode::KeyHome => Some("Key_Home"@),
            KeyCode::KeyEnd => Some("Key_End"@),
            KeyCode::KeyDelete => Some("Key_Delete"@),
            KeyCode::KeyPageDown => Some("Key_Page_Down"@),
            KeyCode::KeyPageUp => Some("Key_Page_Up"@),
            KeyCode::KeyCapsLock => Some("Key_Caps_Lock"@),
            KeyCode::KeyBackspace => Some("Key_Backspace"@),
            KeyCode::KeyPrintScreen => Some("Key_Print_Screen"@),
            KeyCode::KeyNum1 => Some("Key_Num_1"@),
            KeyCode::KeyNum2 => Some("Key_Num_2"@),
            KeyCode::KeyNum3 => Some("Key_Num_3"@),
            KeyCode::KeyNum4 => Some("Key_Num_4"@),
            KeyCode::KeyNum5 => Some("Key_Num_5"@),
            KeyCode::KeyNum6 => Some("Key_Num_6"@),
            KeyCode::KeyNum7 => Some("Key_Num_7"@),
            KeyCode::KeyNum8 => Some("Key_Num_8"@),
            KeyCode::KeyNum9 => Some("Key_Num_9"@),
            KeyCode::KeyNum0 => Some("Key_Num_0"@),
            KeyCode::KeyNumAdd => Some("Key_Num_Add"@),
            KeyCode::KeyNumSubstract => Some("Key_Num_Substract"@),
            KeyCode::KeyNumMultiply => Some("Key_Num_Multiply"@),
            KeyCode::KeyNumDivide => Some("Key_Num_Divide"@),
            KeyCode::KeyNumDecimalPoint => Some("Key_Num_Decimal_Point"@),
            KeyCode::KeyNumLock => Some("Key_Num_Lock"@),
            KeyCode::KeyNumEnter => Some("Key_Num_Enter"@),
            KeyCode::KeyFn => Some("Key_Fn"@),
            KeyCode::ShortcutExplorer => Some("Shortcut_Explorer"@),
            KeyCode::ShortcutCut => Some("Shortcut_Cut"@),
            KeyCode::ShortcutCopy => Some("Shortcut_Copy"@),
            KeyCode::ShortcutPaste => Some("Shortcut_Paste"@),
            KeyCode::ShortcutSave => Some("Shortcut_Save"@),
            KeyCode::ShortcutShowDesktop => Some("Shortcut_Show_Desktop"@),
            KeyCode::ShortcutLock => Some("Shortcut_Lock"@),
            KeyCode::ShortcutSwitchWindow => Some("Shortcut_Switch_Window"@),
            KeyCode::ShortcutCloseWindow => Some("Shortcut_Close_Window"@),
            KeyCode::MultimediaPlayPause => Some("Multimedia_Play_Pause"@),
            KeyCode::MultimediaStop => Some("Multimedia_Stop"@),
            KeyCode::MultimediaPrevious => Some("Multimedia_Previous"@),
            KeyCode::MultimediaNext => Some("Multimedia_Next"@),
            KeyCode::MultimediaVolumeUp => Some("Multimedia_Volume_Up"@),
            KeyCode::MultimediaVolumeDown => Some("Multimedia_Volume_Down"@),
            KeyCode::MultimediaMute => Some("Multimedia_Mute"@),
            KeyCode::KeyInvalid => Some("Key_Invalid"@),
            KeyCode::Unrecognized(_) => None,
        }
    }

    /// A named variant, as opposed to a carried raw value.
    pub open spec fn is_named(self) -> bool {
        !(self is Unrecognized)
    }

    /// A raw value is carried only where no named variant has it.
    pub open spec fn wf(self) -> bool {
        match self {
            KeyCode::Unrecognized(v) => KeyCode::spec_from_value(v) is Unrecognized,
            _ => true,
        }
    }

    /// Parses a descriptor key name such as `Key_A` or `Multimedia_Mute`.
    pub fn from_str(s: &str) -> (r: Option<KeyCode>)
        ensures
            r == KeyCode::spec_named(s@),
    {
        if str_equal(s, "Key_1") {
            Some(KeyCode::Key1)
        } else if str_equal(s, "Key_2") {
            Some(KeyCode::Key2)
        } else if str_equal(s, "Key_3") {
            Some(KeyCode::Key3)
        } else if str_equal(s, "Key_4") {
            Some(KeyCode::Key4)
        } else if str_equal(s, "Key_5") {
            Some(KeyCode::Key5)
        } else if str_equal(s, "Key_6") {
            Some(KeyCode::Key6)
        } else if str_equal(s, "Key_7") {
            Some(KeyCode::Key7)
        } else if str_equal(s, "Key_8") {
            Some(KeyCode::Key8)
        } else if str_equal(s, "Key_9") {
            Some(KeyCode::Key9)
        } else if str_equal(s, "Key_0") {
            Some(KeyCode::Key0)
        } else if str_equal(s, "Key_A") {
            Some(KeyCode::KeyA)
        } else if str_equal(s, "Key_B") {
            Some(KeyCode::KeyB)
        } else if str_equal(s, "Key_C") {
            Some(KeyCode::KeyC)
        } else if str_equal(s, "Key_D") {
            Some(KeyCode::KeyD)
        } else if str_equal(s, "Key_E") {
            Some(KeyCode::KeyE)
        } else if str_equal(s, "Key_F") {
            Some(KeyCode::KeyF)
        } else if str_equal(s, "Key_G") {
            Some(KeyCode::KeyG)
        } else if str_equal(s, "Key_H") {
            Some(KeyCode::KeyH)
        } else if str_equal(s, "Key_I") {
            Some(KeyCode::KeyI)
        } else if str_equal(s, "Key_J") {
            Some(KeyCode::KeyJ)
        } else if str_equal(s, "Key_K") {
            Some(KeyCode::KeyK)
        } else if str_equal(s, "Key_L") {
            Some(KeyCode::KeyL)
        } else if str_equal(s, "Key_M") {
            Some(KeyCode::KeyM)
        } else if str_equal(s, "Key_N") {
            Some(KeyCode::KeyN)
        } else if str_equal(s, "Key_O") {
            Some(KeyCode::KeyO)
        } else if str_equal(s, "Key_P") {
            Some(KeyCode::KeyP)
        } else if str_equal(s, "Key_Q") {
            Some(KeyCode::KeyQ)
        } else if str_equal(s, "Key_R") {
            Some(KeyCode::KeyR)
        } else if str_equal(s, "Key_S") {
            Some(KeyCode::KeyS)
        } else if str_equal(s, "Key_T") {
            Some(KeyCode::KeyT)
        } else if str_equal(s, "Key_U") {
            Some(KeyCode::KeyU)
        } else if str_equal(s, "Key_V") {
            Some(KeyCode::KeyV)
        } else if str_equal(s, "Key_W") {
            Some(KeyCode::KeyW)
        } else if str_equal(s, "Key_X") {
            Some(KeyCode::KeyX)
        } else if str_equal(s, "Key_Y") {
            Some(KeyCode::KeyY)
        } else if str_equal(s, "Key_Z") {
            Some(KeyCode::KeyZ)
        } else if str_equal(s, "Key_Hyphen") {
            Some(KeyCode::KeyHyphen)
        } else if str_equal(s, "Key_Equals") {
            Some(KeyCode::KeyEquals)
        } else if str_equal(s, "Key_Left_Bracket") {
            Some(KeyCode::KeyLeftBracket)
        } else if str_equal(s, "Key_Right_Bracket") {
            Some(KeyCode::KeyRightBracket)
        } else if str_equal(s, "Key_Back_Slash") {
            Some(KeyCode::KeyBackSlash)
        } else if str_equal(s, "Key_Semi_Colon") {
            Some(KeyCode::KeySemiColon)
        } else if str_equal(s, "Key_Quote") {
            Some(KeyCode::KeyQuote)
        } else if str_equal(s, "Key_Back_Quote") {
            Some(KeyCode::KeyBackQuote)
        } else if str_equal(s, "Key_Comma") {
            Some(KeyCode::KeyComma)
        } else if str_equal(s, "Key_Dot") {
            Some(KeyCode::KeyDot)
        } else if str_equal(s, "Key_Slash") {
            Some(KeyCode::KeySlash)
        } else if str_equal(s, "Key_Left_Control") {
            Some(KeyCode::KeyLeftControl)
        } else if str_equal(s, "Key_Left_Shift") {
            Some(KeyCode::KeyLeftShift)
        } else if str_equal(s, "Key_Left_Alt") {
            Some(KeyCode::KeyLeftAlt)
        } else if str_equal(s, "Key_Right_Control") {
            Some(KeyCode::KeyRightControl)
        } else if str_equal(s, "Key_Right_Shift") {
            Some(KeyCode::KeyRightShift)
        } else if str_equal(s, "Key_Right_Alt") {
            Some(KeyCode::KeyRightAlt)
        } else if str_equal(s, "Key_Left_Super") {
            Some(KeyCode::KeyLeftSuper)
        } else if str_equal(s, "Key_Right_Super") {
            Some(KeyCode::KeyRightSuper)
        } else if str_equal(s, "Key_Right") {
            Some(KeyCode::KeyRight)
        } else if str_equal(s, "Key_Left") {
            Some(KeyCode::KeyLeft)
        } else if str_equal(s, "Key_Down") {
            Some(KeyCode::KeyDown)
        } else if str_equal(s, "Key_Up") {
            Some(KeyCode::KeyUp)
        } else if str_equal(s, "Key_F1") {
            Some(KeyCode::KeyF1)
        } else if str_equal(s, "Key_F2") {
            Some(KeyCode::KeyF2)
        } else if str_equal(s, "Key_F3") {
            Some(KeyCode::KeyF3)
        } else if str_equal(s, "Key_F4") {
            Some(KeyCode::KeyF4)
        } else if str_equal(s, "Key_F5") {
            Some(KeyCode::KeyF5)
        } else if str_equal(s, "Key_F6") {
            Some(KeyCode::KeyF6)
        } else if str_equal(s, "Key_F7") {
            Some(KeyCode::KeyF7)
        } else if str_equal(s, "Key_F8") {
            Some(KeyCode::KeyF8)
        } else if str_equal(s, "Key_F9") {
            Some(KeyCode::KeyF9)
        } else if str_equal(s, "Key_F10") {
            Some(KeyCode::KeyF10)
        } else if str_equal(s, "Key_F11") {
            Some(KeyCode::KeyF11)
        } else if str_equal(s, "Key_F12") {
            Some(KeyCode::KeyF12)
        } else if str_equal(s, "Key_Escape") {
            Some(KeyCode::KeyEscape)
        } else if str_equal(s, "Key_Tab") {
            Some(KeyCode::KeyTab)
        } else if str_equal(s, "Key_Enter") {
            Some(KeyCode::KeyEnter)
        } else if str_equal(s, "Key_Menu") {
            Some(KeyCode::KeyMenu)
        } else if str_equal(s, "Key_Insert") {
            Some(KeyCode::KeyInsert)
        } else if str_equal(s, "Key_Pause") {
            Some(KeyCode::KeyPause)
        } else if str_equal(s, "Key_Space") {
            Some(KeyCode::KeySpace)
        } else if str_equal(s, "Key_Home") {
            Some(KeyCode::KeyHome)
        } else if str_equal(s, "Key_End") {
            Some(KeyCode::KeyEnd)
        } else if str_equal(s, "Key_Delete") {
            Some(KeyCode::KeyDelete)
        } else if str_equal(s, "Key_Page_Down") {
            Some(KeyCode::KeyPageDown)
        } else if str_equal(s, "Key_Page_Up") {
            Some(KeyCode::KeyPageUp)
        } else if str_equal(s, "Key_Caps_Lock") {
            Some(KeyCode::KeyCapsLock)
        } else if str_equal(s, "Key_Backspace") {
            Some(KeyCode::KeyBackspace)
        } else if str_equal(s, "Key_Print_Screen") {
            Some(KeyCode::KeyPrintScreen)
        } else if str_equal(s, "Key_Num_1") {
            Some(KeyCode::KeyNum1)
        } else if str_equal(s, "Key_Num_2") {
            Some(KeyCode::KeyNum2)
        } else if str_equal(s, "Key_Num_3") {
            Some(KeyCode::KeyNum3)
        } else if str_equal(s, "Key_Num_4") {
            Some(KeyCode::KeyNum4)
        } else if str_equal(s, "Key_Num_5") {
            Some(KeyCode::KeyNum5)
        } else if str_equal(s, "Key_Num_6") {
            Some(KeyCode::KeyNum6)
        } else if str_equal(s, "Key_Num_7") {
            Some(KeyCode::KeyNum7)
        } else if str_equal(s, "Key_Num_8") {
            Some(KeyCode::KeyNum8)
        } else if str_equal(s, "Key_Num_9") {
            Some(KeyCode::KeyNum9)
        } else if str_equal(s, "Key_Num_0") {
            Some(KeyCode::KeyNum0)
        } else if str_equal(s, "Key_Num_Add") {
            Some(KeyCode::KeyNumAdd)
        } else if str_equal(s, "Key_Num_Substract") {
            Some(KeyCode::KeyNumSubstract)
        } else if str_equal(s, "Key_Num_Multiply") {
            Some(KeyCode::KeyNumMultiply)
        } else if str_equal(s, "Key_Num_Divide") {
            Some(KeyCode::KeyNumDivide)
        } else if str_equal(s, "Key_Num_Decimal_Point") {
            Some(KeyCode::KeyNumDecimalPoint)
        } else if str_equal(s, "Key_Num_Lock") {
            Some(KeyCode::KeyNumLock)
        } else if str_equal(s, "Key_Num_Enter") {
            Some(KeyCode::KeyNumEnter)
        } else if str_equal(s, "Key_Fn") {
            Some(KeyCode::KeyFn)
        } else if str_equal(s, "Shortcut_Explorer") {
            Some(KeyCode::ShortcutExplorer)
        } else if str_equal(s, "Shortcut_Cut") {
            Some(KeyCode::ShortcutCut)
        } else if str_equal(s, "Shortcut_Copy") {
            Some(KeyCode::ShortcutCopy)
        } else if str_equal(s, "Shortcut_Paste") {
            Some(KeyCode::ShortcutPaste)
        } else if str_equal(s, "Shortcut_Save") {
            Some(KeyCode::ShortcutSave)
        } else if str_equal(s, "Shortcut_Show_Desktop") {
            Some(KeyCode::ShortcutShowDesktop)
        } else if str_equal(s, "Shortcut_Lock") {
            Some(KeyCode::ShortcutLock)
        } else if str_equal(s, "Shortcut_Switch_Window") {
            Some(KeyCode::ShortcutSwitchWindow)
        } else if str_equal(s, "Shortcut_Close_Window") {
            Some(KeyCode::ShortcutCloseWindow)
        } else if str_equal(s, "Multimedia_Play_Pause") {
            Some(KeyCode::MultimediaPlayPause)
        } else if str_equal(s, "Multimedia_Stop") {
            Some(KeyCode::MultimediaStop)
        } else if str_equal(s, "Multimedia_Previous") {
            Some(KeyCode::MultimediaPrevious)
        } else if str_equal(s, "Multimedia_Next") {
            Some(KeyCode::MultimediaNext)
        } else if str_equal(s, "Multimedia_Volume_Up") {
            Some(KeyCode::MultimediaVolumeUp)
        } else if str_equal(s, "Multimedia_Volume_Down") {
            Some(KeyCode::MultimediaVolumeDown)
        } else if str_equal(s, "Multimedia_Mute") {
            Some(KeyCode::MultimediaMute)
        } else if str_equal(s, "Key_Invalid") {
            Some(KeyCode::KeyInvalid)
        } else {
            None
        }
    }

    /// The descriptor name of this code; a carried raw value has none.
    pub fn name(self) -> (r: Option<&'static str>)
        ensures
            match r {
                Some(n) => self.spec_name() == Some(n@),
                None => self.spec_name() is None,
            },
    {
        match self {
            KeyCode::Key1 => Some("Key_1"),
            KeyCode::Key2 => Some("Key_2"),
            KeyCode::Key3 => Some("Key_3"),
            KeyCode::Key4 => Some("Key_4"),
            KeyCode::Key5 => Some("Key_5"),
            KeyCode::Key6 => Some("Key_6"),
            KeyCode::Key7 => Some("Key_7"),
            KeyCode::Key8 => Some("Key_8"),
            KeyCode::Key9 => Some("Key_9"),
            KeyCode::Key0 => Some("Key_0"),
            KeyCode::KeyA => Some("Key_A"),
            KeyCode::KeyB => Some("Key_B"),
            KeyCode::KeyC => Some("Key_C"),
            KeyCode::KeyD => Some("Key_D"),
            KeyCode::KeyE => Some("Key_E"),
            KeyCode::KeyF => Some("Key_F"),
            KeyCode::KeyG => Some("Key_G"),
            KeyCode::KeyH => Some("Key_H"),
            KeyCode::KeyI => Some("Key_I"),
            KeyCode::KeyJ => Some("Key_J"),
            KeyCode::KeyK => Some("Key_K"),
            KeyCode::KeyL => Some("Key_L"),
            KeyCode::KeyM => Some("Key_M"),
            KeyCode::KeyN => Some("Key_N"),
            KeyCode::KeyO => Some("Key_O"),
            KeyCode::KeyP => Some("Key_P"),
            KeyCode::KeyQ => Some("Key_Q"),
            KeyCode::KeyR => Some("Key_R"),
            KeyCode::KeyS => Some("Key_S"),
            KeyCode::KeyT => Some("Key_T"),
            KeyCode::KeyU => Some("Key_U"),
            KeyCode::KeyV => Some("Key_V"),
            KeyCode::KeyW => Some("Key_W"),
            KeyCode::KeyX => Some("Key_X"),
            KeyCode::KeyY => Some("Key_Y"),
            KeyCode::KeyZ => Some("Key_Z"),
            KeyCode::KeyHyphen => Some("Key_Hyphen"),
            KeyCode::KeyEquals => Some("Key_Equals"),
            KeyCode::KeyLeftBracket => Some("Key_Left_Bracket"),
            KeyCode::KeyRightBracket => Some("Key_Right_Bracket"),
            KeyCode::KeyBackSlash => Some("Key_Back_Slash"),
            KeyCode::KeySemiColon => Some("Key_Semi_Colon"),
            KeyCode::KeyQuote => Some("Key_Quote"),
            KeyCode::KeyBackQuote => Some("Key_Back_Quote"),
            KeyCode::KeyComma => Some("Key_Comma"),
            KeyCode::KeyDot => Some("Key_Dot"),
            KeyCode::KeySlash => Some("Key_Slash"),
            KeyCode::KeyLeftControl => Some("Key_Left_Control"),
            KeyCode::KeyLeftShift => Some("Key_Left_Shift"),
            KeyCode::KeyLeftAlt => Some("Key_Left_Alt"),
            KeyCode::KeyRightControl => Some("Key_Right_Control"),
            KeyCode::KeyRightShift => Some("Key_Right_Shift"),
            KeyCode::KeyRightAlt => Some("Key_Right_Alt"),
            KeyCode::KeyLeftSuper => Some("Key_Left_Super"),
            KeyCode::KeyRightSuper => Some("Key_Right_Super"),
            KeyCode::KeyRight => Some("Key_Right"),
            KeyCode::KeyLeft => Some("Key_Left"),
            KeyCode::KeyDown => Some("Key_Down"),
            KeyCode::KeyUp => Some("Key_Up"),
            KeyCode::KeyF1 => Some("Key_F1"),
            KeyCode::KeyF2 => Some("Key_F2"),
            KeyCode::KeyF3 => Some("Key_F3"),
            KeyCode::KeyF4 => Some("Key_F4"),
            KeyCode::KeyF5 => Some("Key_F5"),
            KeyCode::KeyF6 => Some("Key_F6"),
            KeyCode::KeyF7 => Some("Key_F7"),
            KeyCode::KeyF8 => Some("Key_F8"),
            KeyCode::KeyF9 => Some("Key_F9"),
            KeyCode::KeyF10 => Some("Key_F10"),
            KeyCode::KeyF11 => Some("Key_F11"),
            KeyCode::KeyF12 => Some("Key_F12"),
            KeyCode::KeyEscape => Some("Key_Escape"),
            KeyCode::KeyTab => Some("Key_Tab"),
            KeyCode::KeyEnter => Some("Key_Enter"),
            KeyCode::KeyMenu => Some("Key_Menu"),
            KeyCode::KeyInsert => Some("Key_Insert"),
            KeyCode::KeyPause => Some("Key_Pause"),
            KeyCode::KeySpace => Some("Key_Space"),
            KeyCode::KeyHome => Some("Key_Home"),
            KeyCode::KeyEnd => Some("Key_End"),
            KeyCode::KeyDelete => Some("Key_Delete"),
            KeyCode::KeyPageDown => Some("Key_Page_Down"),
            KeyCode::KeyPageUp => Some("Key_Page_Up"),
            KeyCode::KeyCapsLock => Some("Key_Caps_Lock"),
            KeyCode::KeyBackspace => Some("Key_Backspace"),
            KeyCode::KeyPrintScreen => Some("Key_Print_Screen"),
            KeyCode::KeyNum1 => Some("Key_Num_1"),
            KeyCode::KeyNum2 => Some("Key_Num_2"),
            KeyCode::KeyNum3 => Some("Key_Num_3"),
            KeyCode::KeyNum4 => Some("Key_Num_4"),
            KeyCode::KeyNum5 => Some("Key_Num_5"),
            KeyCode::KeyNum6 => Some("Key_Num_6"),
            KeyCode::KeyNum7 => Some("Key_Num_7"),
            KeyCode::KeyNum8 => Some("Key_Num_8"),
            KeyCode::KeyNum9 => Some("Key_Num_9"),
            KeyCode::KeyNum0 => Some("Key_Num_0"),
            KeyCode::KeyNumAdd => Some("Key_Num_Add"),
            KeyCode::KeyNumSubstract => Some("Key_Num_Substract"),
            KeyCode::KeyNumMultiply => Some("Key_Num_Multiply"),
            KeyCode::KeyNumDivide => Some("Key_Num_Divide"),
            KeyCode::KeyNumDecimalPoint => Some("Key_Num_Decimal_Point"),
            KeyCode::KeyNumLock => Some("Key_Num_Lock"),
            KeyCode::KeyNumEnter => Some("Key_Num_Enter"),
            KeyCode::KeyFn => Some("Key_Fn"),
            KeyCode::ShortcutExplorer => Some("Shortcut_Explorer"),
            KeyCode::ShortcutCut => Some("Shortcut_Cut"),
            KeyCode::ShortcutCopy => Some("Shortcut_Copy"),
            KeyCode::ShortcutPaste => Some("Shortcut_Paste"),
            KeyCode::ShortcutSave => Some("Shortcut_Save"),
            KeyCode::ShortcutShowDesktop => Some("Shortcut_Show_Desktop"),
            KeyCode::ShortcutLock => Some("Shortcut_Lock"),
            KeyCode::ShortcutSwitchWindow => Some("Shortcut_Switch_Window"),
            KeyCode::ShortcutCloseWindow => Some("Shortcut_Close_Window"),
            KeyCode::MultimediaPlayPause => Some("Multimedia_Play_Pause"),
            KeyCode::MultimediaStop => Some("Multimedia_Stop"),
            KeyCode::MultimediaPrevious => Some("Multimedia_Previous"),
            KeyCode::MultimediaNext => Some("Multimedia_Next"),
            KeyCode::MultimediaVolumeUp => Some("Multimedia_Volume_Up"),
            KeyCode::MultimediaVolumeDown => Some("Multimedia_Volume_Down"),
            KeyCode::MultimediaMute => Some("Multimedia_Mute"),
            KeyCode::KeyInvalid => Some("Key_Invalid"),
            KeyCode::Unrecognized(_) => None,
        }
    }

    /// The 32-bit value of this code.
    pub fn to_u32(self) -> (r: u32)
        ensures
            r == self.spec_value(),
    {
        match self {
            KeyCode::Key1 => 0x1e00,
            KeyCode::Key2 => 0x1f00,
            KeyCode::Key3 => 0x2000,
            KeyCode::Key4 => 0x2100,
            KeyCode::Key5 => 0x2200,
            KeyCode::Key6 => 0x2300,
            KeyCode::Key7 => 0x2400,
            KeyCode::Key8 => 0x2500,
            KeyCode::Key9 => 0x2600,
            KeyCode::Key0 => 0x2700,
            KeyCode::KeyA => 0x0400,
            KeyCode::KeyB => 0x0500,
            KeyCode::KeyC => 0x0600,
            KeyCode::KeyD => 0x0700,
            KeyCode::KeyE => 0x0800,
            KeyCode::KeyF => 0x0900,
            KeyCode::KeyG => 0x0a00,
            KeyCode::KeyH => 0x0b00,
            KeyCode::KeyI => 0x0c00,
            KeyCode::KeyJ => 0x0d00,
            KeyCode::KeyK => 0x0e00,
            KeyCode::KeyL => 0x0f00,
            KeyCode::KeyM => 0x1000,
            KeyCode::KeyN => 0x1100,
            KeyCode::KeyO => 0x1200,
            KeyCode::KeyP => 0x1300,
            KeyCode::KeyQ => 0x1400,
            KeyCode::KeyR => 0x1500,
            KeyCode::KeyS => 0x1600,
            KeyCode::KeyT => 0x1700,
            KeyCode::KeyU => 0x1800,
            KeyCode::KeyV => 0x1900,
            KeyCode::KeyW => 0x1a00,
            KeyCode::KeyX => 0x1b00,
            KeyCode::KeyY => 0x1c00,
            KeyCode::KeyZ => 0x1d00,
            KeyCode::KeyHyphen => 0x2d00,
            KeyCode::KeyEquals => 0x2e00,
            KeyCode::KeyLeftBracket => 0x2f00,
            KeyCode::KeyRightBracket => 0x3000,
            KeyCode::KeyBackSlash => 0x3100,
            KeyCode::KeySemiColon => 0x3300,
            KeyCode::KeyQuote => 0x3400,
            KeyCode::KeyBackQuote => 0x3500,
            KeyCode::KeyComma => 0x3600,
            KeyCode::KeyDot => 0x3700,
            KeyCode::KeySlash => 0x3800,
            KeyCode::KeyLeftControl => 0x010000,
            KeyCode::KeyLeftShift => 0x020000,
            KeyCode::KeyLeftAlt => 0x040000,
            KeyCode::KeyRightControl => 0x100000,
            KeyCode::KeyRightShift => 0x200000,
            KeyCode::KeyRightAlt => 0x400000,
            KeyCode::KeyLeftSuper => 0x080000,
            KeyCode::KeyRightSuper => 0x800000,
            KeyCode::KeyRight => 0x4f00,
            KeyCode::KeyLeft => 0x5000,
            KeyCode::KeyDown => 0x5100,
            KeyCode::KeyUp => 0x5200,
            KeyCode::KeyF1 => 0x3a00,
            KeyCode::KeyF2 => 0x3b00,
            KeyCode::KeyF3 => 0x3c00,
            KeyCode::KeyF4 => 0x3d00,
            KeyCode::KeyF5 => 0x3e00,
            KeyCode::KeyF6 => 0x3f00,
            KeyCode::KeyF7 => 0x4000,
            KeyCode::KeyF8 => 0x4100,
            KeyCode::KeyF9 => 0x4200,
            KeyCode::KeyF10 => 0x4300,
            KeyCode::KeyF11 => 0x4400,
            KeyCode::KeyF12 => 0x4500,
            KeyCode::KeyEscape => 0x2900,
            KeyCode::KeyTab => 0x2b00,
            KeyCode::KeyEnter => 0x2800,
            KeyCode::KeyMenu => 0x6500,
            KeyCode::KeyInsert => 0x4900,
            KeyCode::KeyPause => 0x4800,
            KeyCode::KeySpace => 0x2c00,
            KeyCode::KeyHome => 0x4a00,
            KeyCode::KeyEnd => 0x4d00,
            KeyCode::KeyDelete => 0x4c00,
            KeyCode::KeyPageDown => 0x4e00,
            KeyCode::KeyPageUp => 0x4b00,
            KeyCode::KeyCapsLock => 0x3900,
            KeyCode::KeyBackspace => 0x2a00,
            KeyCode::KeyPrintScreen => 0x4600,
            KeyCode::KeyNum1 => 0x5900,
            KeyCode::KeyNum2 => 0x5a00,
            KeyCode::KeyNum3 => 0x5b00,
            KeyCode::KeyNum4 => 0x5c00,
            KeyCode::KeyNum5 => 0x5d00,
            KeyCode::KeyNum6 => 0x5e00,
            KeyCode::KeyNum7 => 0x5f00,
            KeyCode::KeyNum8 => 0x6000,
            KeyCode::KeyNum9 => 0x6100,
            KeyCode::KeyNum0 => 0x6200,
            KeyCode::KeyNumAdd => 0x5700,
            KeyCode::KeyNumSubstract => 0x5600,
            KeyCode::KeyNumMultiply => 0x5500,
            KeyCode::KeyNumDivide => 0x5400,
            KeyCode::KeyNumDecimalPoint => 0x6300,
            KeyCode::KeyNumLock => 0x5300,
            KeyCode::KeyNumEnter => 0x5800,
            KeyCode::KeyFn => 0xb000,
            KeyCode::ShortcutExplorer => 0x01000194,
            KeyCode::ShortcutCut => 0x011b00,
            KeyCode::ShortcutCopy => 0x010600,
            KeyCode::ShortcutPaste => 0x011900,
            KeyCode::ShortcutSave => 0x011600,
            KeyCode::ShortcutShowDesktop => 0x080700,
            KeyCode::ShortcutLock => 0x080f00,
            KeyCode::ShortcutSwitchWindow => 0x042b00,
            KeyCode::ShortcutCloseWindow => 0x043d00,
            KeyCode::MultimediaPlayPause => 0x010000cd,
            KeyCode::MultimediaStop => 0x010000b7,
            KeyCode::MultimediaPrevious => 0x010000b6,
            KeyCode::MultimediaNext => 0x010000b5,
            KeyCode::MultimediaVolumeUp => 0x010000e9,
            KeyCode::MultimediaVolumeDown => 0x010000ea,
            KeyCode::MultimediaMute => 0x010000e2,
            KeyCode::KeyInvalid => 0,
            KeyCode::Unrecognized(v) => v,
        }
    }

    /// Decodes a wider unsigned value; one past 32 bits is no key code.
    pub fn from_u64(value: u64) -> (r: Option<KeyCode>)
        ensures
            value <= u32::MAX ==> r == Some(KeyCode::spec_from_value(value as u32)),
            value > u32::MAX ==> r is None,
    {
        if value <= u32::MAX as u64 {
            Some(KeyCode::from_u32(value as u32))
        } else {
            None
        }
    }

    /// Decodes a signed value; a negative one, or one past 32 bits, is no key code.
    pub fn from_i64(value: i64) -> (r: Option<KeyCode>)
        ensures
            0 <= value <= u32::MAX ==> r == Some(KeyCode::spec_from_value(value as u32)),
            (value < 0 || value > u32::MAX) ==> r is None,
    {
        if 0 <= value && value <= u32::MAX as i64 {
            Some(KeyCode::from_u32(value as u32))
        } else {
            None
        }
    }

    /// Decodes any 32-bit value; one without a name is kept as `Unrecognized`.
    pub fn from_u32(value: u32) -> (r: KeyCode)
        ensures
            r == KeyCode::spec_from_value(value),
            r.wf(),
    {
        match value {
            0x1e00 => KeyCode::Key1,
            0x1f00 => KeyCode::Key2,
            0x2000 => KeyCode::Key3,
            0x2100 => KeyCode::Key4,
            0x2200 => KeyCode::Key5,
            0x2300 => KeyCode::Key6,
            0x2400 => KeyCode::Key7,
            0x2500 => KeyCode::Key8,
            0x2600 => KeyCode::Key9,
            0x2700 => KeyCode::Key0,
            0x0400 => KeyCode::KeyA,
            0x0500 => KeyCode::KeyB,
            0x0600 => KeyCode::KeyC,
            0x0700 => KeyCode::KeyD,
            0x0800 => KeyCode::KeyE,
            0x0900 => KeyCode::KeyF,
            0x0a00 => KeyCode::KeyG,
            0x0b00 => KeyCode::KeyH,
            0x0c00 => KeyCode::KeyI,
            0x0d00 => KeyCode::KeyJ,
            0x0e00 => KeyCode::KeyK,
            0x0f00 => KeyCode::KeyL,
            0x1000 => KeyCode::KeyM,
            0x1100 => KeyCode::KeyN,
            0x1200 => KeyCode::KeyO,
            0x1300 => KeyCode::KeyP,
            0x1400 => KeyCode::KeyQ,
            0x1500 => KeyCode::KeyR,
            0x1600 => KeyCode::KeyS,
            0x1700 => KeyCode::KeyT,
            0x1800 => KeyCode::KeyU,
            0x1900 => KeyCode::KeyV,
            0x1a00 => KeyCode::KeyW,
            0x1b00 => KeyCode::KeyX,
            0x1c00 => KeyCode::KeyY,
            0x1d00 => KeyCode::KeyZ,
            0x2d00 => KeyCode::KeyHyphen,
            0x2e00 => KeyCode::KeyEquals,
            0x2f00 => KeyCode::KeyLeftBracket,
            0x3000 => KeyCode::KeyRightBracket,
            0x3100 => KeyCode::KeyBackSlash,
            0x3300 => KeyCode::KeySemiColon,
            0x3400 => KeyCode::KeyQuote,
            0x3500 => KeyCode::KeyBackQuote,
            0x3600 => KeyCode::KeyComma,
            0x3700 => KeyCode::KeyDot,
            0x3800 => KeyCode::KeySlash,
            0x010000 => KeyCode::KeyLeftControl,
            0x020000 => KeyCode::KeyLeftShift,
            0x040000 => KeyCode::KeyLeftAlt,
            0x100000 => KeyCode::KeyRightControl,
            0x200000 => KeyCode::KeyRightShift,
            0x400000 => KeyCode::KeyRightAlt,
            0x080000 => KeyCode::KeyLeftSuper,
            0x800000 => KeyCode::KeyRightSuper,
            0x4f00 => KeyCode::KeyRight,
            0x5000 => KeyCode::KeyLeft,
            0x5100 => KeyCode::KeyDown,
            0x5200 => KeyCode::KeyUp,
            0x3a00 => KeyCode::KeyF1,
            0x3b00 => KeyCode::KeyF2,
            0x3c00 => KeyCode::KeyF3,
            0x3d00 => KeyCode::KeyF4,
            0x3e00 => KeyCode::KeyF5,
            0x3f00 => KeyCode::KeyF6,
            0x4000 => KeyCode::KeyF7,
            0x4100 => KeyCode::KeyF8,
            0x4200 => KeyCode::KeyF9,
            0x4300 => KeyCode::KeyF10,
            0x4400 => KeyCode::KeyF11,
            0x4500 => KeyCode::KeyF12,
            0x2900 => KeyCode::KeyEscape,
            0x2b00 => KeyCode::KeyTab,
            0x2800 => KeyCode::KeyEnter,
            0x6500 => KeyCode::KeyMenu,
            0x4900 => KeyCode::KeyInsert,
            0x4800 => KeyCode::KeyPause,
            0x2c00 => KeyCode::KeySpace,
            0x4a00 => KeyCode::KeyHome,
            0x4d00 => KeyCode::KeyEnd,
            0x4c00 => KeyCode::KeyDelete,
            0x4e00 => KeyCode::KeyPageDown,
            0x4b00 => KeyCode::KeyPageUp,
            0x3900 => KeyCode::KeyCapsLock,
            0x2a00 => KeyCode::KeyBackspace,
            0x4600 => KeyCode::KeyPrintScreen,
            0x5900 => KeyCode::KeyNum1,
            0x5a00 => KeyCode::KeyNum2,
            0x5b00 => KeyCode::KeyNum3,
            0x5c00 => KeyCode::KeyNum4,
            0x5d00 => KeyCode::KeyNum5,
            0x5e00 => KeyCode::KeyNum6,
            0x5f00 => KeyCode::KeyNum7,
            0x6000 => KeyCode::KeyNum8,
            0x6100 => KeyCode::KeyNum9,
            0x6200 => KeyCode::KeyNum0,
            0x5700 => KeyCode::KeyNumAdd,
            0x5600 => KeyCode::KeyNumSubstract,
            0x5500 => KeyCode::KeyNumMultiply,
            0x5400 => KeyCode::KeyNumDivide,
            0x6300 => KeyCode::KeyNumDecimalPoint,
            0x5300 => KeyCode::KeyNumLock,
            0x5800 => KeyCode::KeyNumEnter,
            0xb000 => KeyCode::KeyFn,
            0x01000194 => KeyCode::ShortcutExplorer,
            0x011b00 => KeyCode::ShortcutCut,
            0x010600 => KeyCode::ShortcutCopy,
            0x011900 => KeyCode::ShortcutPaste,
            0x011600 => KeyCode::ShortcutSave,
            0x080700 => KeyCode::ShortcutShowDesktop,
            0x080f00 => KeyCode::ShortcutLock,
            0x042b00 => KeyCode::ShortcutSwitchWindow,
            0x043d00 => KeyCode::ShortcutCloseWindow,
            0x010000cd => KeyCode::MultimediaPlayPause,
            0x010000b7 => KeyCode::MultimediaStop,
            0x010000b6 => KeyCode::MultimediaPrevious,
            0x010000b5 => KeyCode::MultimediaNext,
            0x010000e9 => KeyCode::MultimediaVolumeUp,
            0x010000ea => KeyCode::MultimediaVolumeDown,
            0x010000e2 => KeyCode::MultimediaMute,
            0 => KeyCode::KeyInvalid,
            _ => KeyCode::Unrecognized(value),
        }
    }
}

/// Whether two strings hold the same characters.
pub fn str_equal(a: &str, b: &str) -> (r: bool)
    ensures
        r == (a@ == b@),
{
    let n = a.unicode_len();
    if n != b.unicode_len() {
        return false;
    }
    let mut i: usize = 0;
    while i < n
        invariant
            n == a@.len(),
            n == b@.len(),
            i <= n,
            forall|j: int| 0 <= j < i ==> a@[j] == b@[j],
        decreases n - i,
    {
        if a.get_char(i) != b.get_char(i) {
            return false;
        }
        i = i + 1;
    }
    assert(a@ =~= b@);
    true
}

/// Decoding the value of a code gives that code back, for every named code.
pub proof fn lemma_named_round_trip(c: KeyCode)
    requires
        c.is_named(),
    ensures
        KeyCode::spec_from_value(c.spec_value()) == c,
        KeyCode::spec_from_value(c.spec_value()).spec_value() == c.spec_value(),
{
}

/// Every 32-bit value decodes to a code whose value is that same integer.
pub proof fn lemma_value_round_trip(v: u32)
    ensures
        KeyCode::spec_from_value(v).spec_value() == v,
        KeyCode::spec_from_value(v).wf(),
{
}

} // verus!
