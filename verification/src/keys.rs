use vstd::prelude::*;
use crate::error::InvalidParameter;
use crate::error::ParameterKind;

verus! {

/// A keyboard modifier held while an emulated key is pressed. Each is one
/// bit of the modifier byte.
#[derive(Clone, Copy, Debug, PartialEq, Eq, Hash, Structural)]
pub enum KeyMod {
    LControl,
    RControl,
    LShift,
    RShift,
    LAlt,
    RAlt,
    LGui,
    RGui,
}

impl KeyMod {
    /// The byte that stands for this value on the wire.
    pub open spec fn spec_code(self) -> u8 {
        match self {
            KeyMod::LControl => 0x01,
            KeyMod::RControl => 0x10,
            KeyMod::LShift => 0x02,
            KeyMod::RShift => 0x20,
            KeyMod::LAlt => 0x04,
            KeyMod::RAlt => 0x40,
            KeyMod::LGui => 0x08,
            KeyMod::RGui => 0x80,
        }
    }

    /// Whether `code` is the single bit of some modifier.
    pub open spec fn is_code(code: u8) -> bool {
        code == 0x01 || code == 0x02 || code == 0x04 || code == 0x08 || code == 0x10 || code == 0x20
            || code == 0x40 || code == 0x80
    }

    /// The error that tells of a byte that `from_code` did not accept.
    pub open spec fn rejection(code: u8) -> InvalidParameter {
        InvalidParameter { kind: ParameterKind::Modifier, value: code }
    }

    /// The byte that stands for this value on the wire.
    #[verifier::when_used_as_spec(spec_code)]
    pub fn code(self) -> (c: u8)
        ensures
            c == self.spec_code(),
    {
        match self {
            KeyMod::LControl => 0x01,
            KeyMod::RControl => 0x10,
            KeyMod::LShift => 0x02,
            KeyMod::RShift => 0x20,
            KeyMod::LAlt => 0x04,
            KeyMod::RAlt => 0x40,
            KeyMod::LGui => 0x08,
            KeyMod::RGui => 0x80,
        }
    }

    /// Reads a wire byte back. A byte that stands for no value of the
    /// enumeration is rejected and handed back inside the error.
    pub fn from_code(code: u8) -> (r: Result<KeyMod, InvalidParameter>)
        ensures
            r is Ok <==> KeyMod::is_code(code),
            r matches Ok(v) ==> v.spec_code() == code,
            r matches Err(e) ==> e == KeyMod::rejection(code),
    {
        match code {
            0x01 => Ok(KeyMod::LControl),
            0x10 => Ok(KeyMod::RControl),
            0x02 => Ok(KeyMod::LShift),
            0x20 => Ok(KeyMod::RShift),
            0x04 => Ok(KeyMod::LAlt),
            0x40 => Ok(KeyMod::RAlt),
            0x08 => Ok(KeyMod::LGui),
            0x80 => Ok(KeyMod::RGui),
            _ => Err(InvalidParameter { kind: ParameterKind::Modifier, value: code }),
        }
    }

    /// Every value's wire byte is one that `from_code` accepts, and the
    /// byte determines the value.
    pub proof fn lemma_code_injective(a: KeyMod, b: KeyMod)
        ensures
            KeyMod::is_code(a.spec_code()),
            a.spec_code() == b.spec_code() ==> a == b,
    {
    }
}

/// A key of the USB HID keyboard usage table, by its one-byte usage code.
#[derive(Clone, Copy, Debug, PartialEq, Eq, Hash, Structural)]
pub enum UsbKbScanCode {
    /// No key: what the vendor software writes for a disabled button.
    Disabled,
    KeyboardErrorRollOver,
    KbPOSTFail,
    KbErrorUndefined,
    KbA,
    KbB,
    KbC,
    KbD,
    KbE,
    KbF,
    KbG,
    KbH,
    KbI,
    KbJ,
    KbK,
    KbL,
    KbM,
    KbN,
    KbO,
    KbP,
    KbQ,
    KbR,
    KbS,
    KbT,
    KbU,
    KbV,
    KbW,
    KbX,
    KbY,
    KbZ,
    Kb1,
    Kb2,
    Kb3,
    Kb4,
    Kb5,
    Kb6,
    Kb7,
    Kb8,
    Kb9,
    Kb0,
    KbEnter,
    KbEscape,
    KbBackspace,
    KbTab,
    KbSpacebar,
    KbMinus,
    KbEquals,
    KbLbracket,
    KbRbracket,
    KbBackslash,
    KbNonUSTilde,
    Keybard,
    KbQuote,
    KbGrave,
    KbComma,
    KbDot,
    KbSlash,
    KbCapsLock,
    KbF1,
    KbF2,
    KbF3,
    KbF4,
    KbF5,
    KbF6,
    KbF7,
    KbF8,
    KbF9,
    KbF10,
    KbF11,
    KbF12,
    KbPrintScreen,
    KbScrollLock,
    KbPause,
    KbInsert,
    KbHome,
    KbPageUp,
    KbDelete,
    KbEnd,
    KbPageDown,
    KbRightArrow,
    KbLeftArrow,
    KbDownArrow,
    KbUpArrow,
    KeypadNumLock,
    KeypadSlash,
    KeypadAsterisk,
    KeypadMinus,
    KeypadPlus,
    KeypadEnter,
    Keypad1,
    Keypad2,
    Keypad3,
    Keypad4,
    Keypad5,
    Keypad6,
    Keypad7,
    Keypad8,
    Keypad9,
    Keypad0,
    KeypadDot,
    KbNonUSBackslash,
    /// The context-menu key.
    KbApplication,
    KbPower,
    KeypadEquals,
    KbF13,
    KbF14,
    KbF15,
    KbF16,
    KbF17,
    KbF18,
    KbF19,
    KbF20,
    KbF21,
    KbF22,
    KbF23,
    KbF24,
    KbExecute,
    KbHelp,
    KbMenu,
    KbSelect,
    KbStop,
    KbAgain,
    KbUndo,
    KbCut,
    KbCopy,
    KbPaste,
    KbFind,
    KbMute,
    KbVolumeUp,
    KbVolumeDown,
    KbLockingCapsLock12,
    KbLockingNumLock12,
    KbLockingScrollLock,
    KeypadComma,
    KeypadEqualSign,
    KbKanji1,
    KbKanji2,
    KbKanji3,
    KbKanji4,
    KbKanji5,
    KbKanji6,
    KbKanji7,
    KbKanji8,
    KbKanji9,
    KbLANG1,
    KbLANG2,
    KbLANG3,
    KbLANG4,
    KbLANG5,
    KbLANG6,
    KbLANG7,
    KbLANG8,
    KbLANG9,
    KbAlternateErase,
    KbSysReqAttenti,
    KbCancel,
    KbClear,
    KbPrior,
    /// The return key, which is not the enter key.
    KbReturn,
    KbSeparator,
    KbOut,
    KbOper,
    KbClearAgain,
    KbCrSelProps,
    KbExSel,
    /// The modifier keys, pressed as keys of their own.
    KbLControl,
    KbLShift,
    KbLAlt,
    KbLGUI,
    KbRControl,
    KbRShift,
    KbRAlt,
    KbRGUI,
}

impl UsbKbScanCode {
    /// The byte that stands for this value on the wire.
    pub open spec fn spec_code(self) -> u8 {
        match self {
            UsbKbScanCode::Disabled => 0x00,
            UsbKbScanCode::KeyboardErrorRollOver => 0x01,
            UsbKbScanCode::KbPOSTFail => 0x02,
            UsbKbScanCode::KbErrorUndefined => 0x03,
            UsbKbScanCode::KbA => 0x04,
            UsbKbScanCode::KbB => 0x05,
            UsbKbScanCode::KbC => 0x06,
            UsbKbScanCode::KbD => 0x07,
            UsbKbScanCode::KbE => 0x08,
            UsbKbScanCode::KbF => 0x09,
            UsbKbScanCode::KbG => 0x0a,
            UsbKbScanCode::KbH => 0x0b,
            UsbKbScanCode::KbI => 0x0c,
            UsbKbScanCode::KbJ => 0x0d,
            UsbKbScanCode::KbK => 0x0e,
            UsbKbScanCode::KbL => 0x0f,
            UsbKbScanCode::KbM => 0x10,
            UsbKbScanCode::KbN => 0x11,
            UsbKbScanCode::KbO => 0x12,
            UsbKbScanCode::KbP => 0x13,
            UsbKbScanCode::KbQ => 0x14,
            UsbKbScanCode::KbR => 0x15,
            UsbKbScanCode::KbS => 0x16,
            UsbKbScanCode::KbT => 0x17,
            UsbKbScanCode::KbU => 0x18,
            UsbKbScanCode::KbV => 0x19,
            UsbKbScanCode::KbW => 0x1a,
            UsbKbScanCode::KbX => 0x1b,
            UsbKbScanCode::KbY => 0x1c,
            UsbKbScanCode::KbZ => 0x1d,
            UsbKbScanCode::Kb1 => 0x1e,
            UsbKbScanCode::Kb2 => 0x1f,
            UsbKbScanCode::Kb3 => 0x20,
            UsbKbScanCode::Kb4 => 0x21,
            UsbKbScanCode::Kb5 => 0x22,
            UsbKbScanCode::Kb6 => 0x23,
            UsbKbScanCode::Kb7 => 0x24,
            UsbKbScanCode::Kb8 => 0x25,
            UsbKbScanCode::Kb9 => 0x26,
            UsbKbScanCode::Kb0 => 0x27,
            UsbKbScanCode::KbEnter => 0x28,
            UsbKbScanCode::KbEscape => 0x29,
            UsbKbScanCode::KbBackspace => 0x2a,
            UsbKbScanCode::KbTab => 0x2b,
            UsbKbScanCode::KbSpacebar => 0x2c,
            UsbKbScanCode::KbMinus => 0x2d,
            UsbKbScanCode::KbEquals => 0x2e,
            UsbKbScanCode::KbLbracket => 0x2f,
            UsbKbScanCode::KbRbracket => 0x30,
            UsbKbScanCode::KbBackslash => 0x31,
            UsbKbScanCode::KbNonUSTilde => 0x32,
            UsbKbScanCode::Keybard => 0x33,
            UsbKbScanCode::KbQuote => 0x34,
            UsbKbScanCode::KbGrave => 0x35,
            UsbKbScanCode::KbComma => 0x36,
            UsbKbScanCode::KbDot => 0x37,
            UsbKbScanCode::KbSlash => 0x38,
            UsbKbScanCode::KbCapsLock => 0x39,
            UsbKbScanCode::KbF1 => 0x3a,
            UsbKbScanCode::KbF2 => 0x3b,
            UsbKbScanCode::KbF3 => 0x3c,
            UsbKbScanCode::KbF4 => 0x3d,
            UsbKbScanCode::KbF5 => 0x3e,
            UsbKbScanCode::KbF6 => 0x3f,
            UsbKbScanCode::KbF7 => 0x40,
            UsbKbScanCode::KbF8 => 0x41,
            UsbKbScanCode::KbF9 => 0x42,
            UsbKbScanCode::KbF10 => 0x43,
            UsbKbScanCode::KbF11 => 0x44,
            UsbKbScanCode::KbF12 => 0x45,
            UsbKbScanCode::KbPrintScreen => 0x46,
            UsbKbScanCode::KbScrollLock => 0x47,
            UsbKbScanCode::KbPause => 0x48,
            UsbKbScanCode::KbInsert => 0x49,
            UsbKbScanCode::KbHome => 0x4a,
            UsbKbScanCode::KbPageUp => 0x4b,
            UsbKbScanCode::KbDelete => 0x4c,
            UsbKbScanCode::KbEnd => 0x4d,
            UsbKbScanCode::KbPageDown => 0x4e,
            UsbKbScanCode::KbRightArrow => 0x4f,
            UsbKbScanCode::KbLeftArrow => 0x50,
            UsbKbScanCode::KbDownArrow => 0x51,
            UsbKbScanCode::KbUpArrow => 0x52,
            UsbKbScanCode::KeypadNumLock => 0x53,
            UsbKbScanCode::KeypadSlash => 0x54,
            UsbKbScanCode::KeypadAsterisk => 0x55,
            UsbKbScanCode::KeypadMinus => 0x56,
            UsbKbScanCode::KeypadPlus => 0x57,
            UsbKbScanCode::KeypadEnter => 0x58,
            UsbKbScanCode::Keypad1 => 0x59,
            UsbKbScanCode::Keypad2 => 0x5a,
            UsbKbScanCode::Keypad3 => 0x5b,
            UsbKbScanCode::Keypad4 => 0x5c,
            UsbKbScanCode::Keypad5 => 0x5d,
            UsbKbScanCode::Keypad6 => 0x5e,
            UsbKbScanCode::Keypad7 => 0x5f,
            UsbKbScanCode::Keypad8 => 0x60,
            UsbKbScanCode::Keypad9 => 0x61,
            UsbKbScanCode::Keypad0 => 0x62,
            UsbKbScanCode::KeypadDot => 0x63,
            UsbKbScanCode::KbNonUSBackslash => 0x64,
            UsbKbScanCode::KbApplication => 0x65,
            UsbKbScanCode::KbPower => 0x66,
            UsbKbScanCode::KeypadEquals => 0x67,
            UsbKbScanCode::KbF13 => 0x68,
            UsbKbScanCode::KbF14 => 0x69,
            UsbKbScanCode::KbF15 => 0x6a,
            UsbKbScanCode::KbF16 => 0x6b,
            UsbKbScanCode::KbF17 => 0x6c,
            UsbKbScanCode::KbF18 => 0x6d,
            UsbKbScanCode::KbF19 => 0x6e,
            UsbKbScanCode::KbF20 => 0x6f,
            UsbKbScanCode::KbF21 => 0x70,
            UsbKbScanCode::KbF22 => 0x71,
            UsbKbScanCode::KbF23 => 0x72,
            UsbKbScanCode::KbF24 => 0x73,
            UsbKbScanCode::KbExecute => 0x74,
            UsbKbScanCode::KbHelp => 0x75,
            UsbKbScanCode::KbMenu => 0x76,
            UsbKbScanCode::KbSelect => 0x77,
            UsbKbScanCode::KbStop => 0x78,
            UsbKbScanCode::KbAgain => 0x79,
            UsbKbScanCode::KbUndo => 0x7a,
            UsbKbScanCode::KbCut => 0x7b,
            UsbKbScanCode::KbCopy => 0x7c,
            UsbKbScanCode::KbPaste => 0x7d,
            UsbKbScanCode::KbFind => 0x7e,
            UsbKbScanCode::KbMute => 0x7f,
            UsbKbScanCode::KbVolumeUp => 0x80,
            UsbKbScanCode::KbVolumeDown => 0x81,
            UsbKbScanCode::KbLockingCapsLock12 => 0x82,
            UsbKbScanCode::KbLockingNumLock12 => 0x83,
            UsbKbScanCode::KbLockingScrollLock => 0x84,
            UsbKbScanCode::KeypadComma => 0x85,
            UsbKbScanCode::KeypadEqualSign => 0x86,
            UsbKbScanCode::KbKanji1 => 0x87,
            UsbKbScanCode::KbKanji2 => 0x88,
            UsbKbScanCode::KbKanji3 => 0x89,
            UsbKbScanCode::KbKanji4 => 0x8a,
            UsbKbScanCode::KbKanji5 => 0x8b,
            UsbKbScanCode::KbKanji6 => 0x8c,
            UsbKbScanCode::KbKanji7 => 0x8d,
            UsbKbScanCode::KbKanji8 => 0x8e,
            UsbKbScanCode::KbKanji9 => 0x8f,
            UsbKbScanCode::KbLANG1 => 0x90,
            UsbKbScanCode::KbLANG2 => 0x91,
            UsbKbScanCode::KbLANG3 => 0x92,
            UsbKbScanCode::KbLANG4 => 0x93,
            UsbKbScanCode::KbLANG5 => 0x94,
            UsbKbScanCode::KbLANG6 => 0x95,
            UsbKbScanCode::KbLANG7 => 0x96,
            UsbKbScanCode::KbLANG8 => 0x97,
            UsbKbScanCode::KbLANG9 => 0x98,
            UsbKbScanCode::KbAlternateErase => 0x99,
            UsbKbScanCode::KbSysReqAttenti => 0x9a,
            UsbKbScanCode::KbCancel => 0x9b,
            UsbKbScanCode::KbClear => 0x9c,
            UsbKbScanCode::KbPrior => 0x9d,
            UsbKbScanCode::KbReturn => 0x9e,
            UsbKbScanCode::KbSeparator => 0x9f,
            UsbKbScanCode::KbOut => 0xa0,
            UsbKbScanCode::KbOper => 0xa1,
            UsbKbScanCode::KbClearAgain => 0xa2,
            UsbKbScanCode::KbCrSelProps => 0xa3,
            UsbKbScanCode::KbExSel => 0xa4,
            UsbKbScanCode::KbLControl => 0xe0,
            UsbKbScanCode::KbLShift => 0xe1,
            UsbKbScanCode::KbLAlt => 0xe2,
            UsbKbScanCode::KbLGUI => 0xe3,
            UsbKbScanCode::KbRControl => 0xe4,
            UsbKbScanCode::KbRShift => 0xe5,
            UsbKbScanCode::KbRAlt => 0xe6,
            UsbKbScanCode::KbRGUI => 0xe7,
        }
    }

    /// Whether `code` is a usage code of the table: the reserved gaps are not.
    pub open spec fn is_code(code: u8) -> bool {
        code <= 0xa4 || (0xe0 <= code <= 0xe7)
    }

    /// The error that tells of a byte that `from_code` did not accept.
    pub open spec fn rejection(code: u8) -> InvalidParameter {
        InvalidParameter { kind: ParameterKind::ScanCode, value: code }
    }

    /// The byte that stands for this value on the wire.
    #[verifier::when_used_as_spec(spec_code)]
    pub fn code(self) -> (c: u8)
        ensures
            c == self.spec_code(),
    {
        match self {
            UsbKbScanCode::Disabled => 0x00,
            UsbKbScanCode::KeyboardErrorRollOver => 0x01,
            UsbKbScanCode::KbPOSTFail => 0x02,
            UsbKbScanCode::KbErrorUndefined => 0x03,
            UsbKbScanCode::KbA => 0x04,
            UsbKbScanCode::KbB => 0x05,
            UsbKbScanCode::KbC => 0x06,
            UsbKbScanCode::KbD => 0x07,
            UsbKbScanCode::KbE => 0x08,
            UsbKbScanCode::KbF => 0x09,
            UsbKbScanCode::KbG => 0x0a,
            UsbKbScanCode::KbH => 0x0b,
            UsbKbScanCode::KbI => 0x0c,
            UsbKbScanCode::KbJ => 0x0d,
            UsbKbScanCode::KbK => 0x0e,
            UsbKbScanCode::KbL => 0x0f,
            UsbKbScanCode::KbM => 0x10,
            UsbKbScanCode::KbN => 0x11,
            UsbKbScanCode::KbO => 0x12,
            UsbKbScanCode::KbP => 0x13,
            UsbKbScanCode::KbQ => 0x14,
            UsbKbScanCode::KbR => 0x15,
            UsbKbScanCode::KbS => 0x16,
            UsbKbScanCode::KbT => 0x17,
            UsbKbScanCode::KbU => 0x18,
            UsbKbScanCode::KbV => 0x19,
            UsbKbScanCode::KbW => 0x1a,
            UsbKbScanCode::KbX => 0x1b,
            UsbKbScanCode::KbY => 0x1c,
            UsbKbScanCode::KbZ => 0x1d,
            UsbKbScanCode::Kb1 => 0x1e,
            UsbKbScanCode::Kb2 => 0x1f,
            UsbKbScanCode::Kb3 => 0x20,
            UsbKbScanCode::Kb4 => 0x21,
            UsbKbScanCode::Kb5 => 0x22,
            UsbKbScanCode::Kb6 => 0x23,
            UsbKbScanCode::Kb7 => 0x24,
            UsbKbScanCode::Kb8 => 0x25,
            UsbKbScanCode::Kb9 => 0x26,
            UsbKbScanCode::Kb0 => 0x27,
            UsbKbScanCode::KbEnter => 0x28,
            UsbKbScanCode::KbEscape => 0x29,
            UsbKbScanCode::KbBackspace => 0x2a,
            UsbKbScanCode::KbTab => 0x2b,
            UsbKbScanCode::KbSpacebar => 0x2c,
            UsbKbScanCode::KbMinus => 0x2d,
            UsbKbScanCode::KbEquals => 0x2e,
            UsbKbScanCode::KbLbracket => 0x2f,
            UsbKbScanCode::KbRbracket => 0x30,
            UsbKbScanCode::KbBackslash => 0x31,
            UsbKbScanCode::KbNonUSTilde => 0x32,
            UsbKbScanCode::Keybard => 0x33,
            UsbKbScanCode::KbQuote => 0x34,
            UsbKbScanCode::KbGrave => 0x35,
            UsbKbScanCode::KbComma => 0x36,
            UsbKbScanCode::KbDot => 0x37,
            UsbKbScanCode::KbSlash => 0x38,
            UsbKbScanCode::KbCapsLock => 0x39,
            UsbKbScanCode::KbF1 => 0x3a,
            UsbKbScanCode::KbF2 => 0x3b,
            UsbKbScanCode::KbF3 => 0x3c,
            UsbKbScanCode::KbF4 => 0x3d,
            UsbKbScanCode::KbF5 => 0x3e,
            UsbKbScanCode::KbF6 => 0x3f,
            UsbKbScanCode::KbF7 => 0x40,
            UsbKbScanCode::KbF8 => 0x41,
            UsbKbScanCode::KbF9 => 0x42,
            UsbKbScanCode::KbF10 => 0x43,
            UsbKbScanCode::KbF11 => 0x44,
            UsbKbScanCode::KbF12 => 0x45,
            UsbKbScanCode::KbPrintScreen => 0x46,
            UsbKbScanCode::KbScrollLock => 0x47,
            UsbKbScanCode::KbPause => 0x48,
            UsbKbScanCode::KbInsert => 0x49,
            UsbKbScanCode::KbHome => 0x4a,
            UsbKbScanCode::KbPageUp => 0x4b,
            UsbKbScanCode::KbDelete => 0x4c,
            UsbKbScanCode::KbEnd => 0x4d,
            UsbKbScanCode::KbPageDown => 0x4e,
            UsbKbScanCode::KbRightArrow => 0x4f,
            UsbKbScanCode::KbLeftArrow => 0x50,
            UsbKbScanCode::KbDownArrow => 0x51,
            UsbKbScanCode::KbUpArrow => 0x52,
            UsbKbScanCode::KeypadNumLock => 0x53,
            UsbKbScanCode::KeypadSlash => 0x54,
            UsbKbScanCode::KeypadAsterisk => 0x55,
            UsbKbScanCode::KeypadMinus => 0x56,
            UsbKbScanCode::KeypadPlus => 0x57,
            UsbKbScanCode::KeypadEnter => 0x58,
            UsbKbScanCode::Keypad1 => 0x59,
            UsbKbScanCode::Keypad2 => 0x5a,
            UsbKbScanCode::Keypad3 => 0x5b,
            UsbKbScanCode::Keypad4 => 0x5c,
            UsbKbScanCode::Keypad5 => 0x5d,
            UsbKbScanCode::Keypad6 => 0x5e,
            UsbKbScanCode::Keypad7 => 0x5f,
            UsbKbScanCode::Keypad8 => 0x60,
            UsbKbScanCode::Keypad9 => 0x61,
            UsbKbScanCode::Keypad0 => 0x62,
            UsbKbScanCode::KeypadDot => 0x63,
            UsbKbScanCode::KbNonUSBackslash => 0x64,
            UsbKbScanCode::KbApplication => 0x65,
            UsbKbScanCode::KbPower => 0x66,
            UsbKbScanCode::KeypadEquals => 0x67,
            UsbKbScanCode::KbF13 => 0x68,
            UsbKbScanCode::KbF14 => 0x69,
            UsbKbScanCode::KbF15 => 0x6a,
            UsbKbScanCode::KbF16 => 0x6b,
            UsbKbScanCode::KbF17 => 0x6c,
            UsbKbScanCode::KbF18 => 0x6d,
            UsbKbScanCode::KbF19 => 0x6e,
            UsbKbScanCode::KbF20 => 0x6f,
            UsbKbScanCode::KbF21 => 0x70,
            UsbKbScanCode::KbF22 => 0x71,
            UsbKbScanCode::KbF23 => 0x72,
            UsbKbScanCode::KbF24 => 0x73,
            UsbKbScanCode::KbExecute => 0x74,
            UsbKbScanCode::KbHelp => 0x75,
            UsbKbScanCode::KbMenu => 0x76,
            UsbKbScanCode::KbSelect => 0x77,
            UsbKbScanCode::KbStop => 0x78,
            UsbKbScanCode::KbAgain => 0x79,
            UsbKbScanCode::KbUndo => 0x7a,
            UsbKbScanCode::KbCut => 0x7b,
            UsbKbScanCode::KbCopy => 0x7c,
            UsbKbScanCode::KbPaste => 0x7d,
            UsbKbScanCode::KbFind => 0x7e,
            UsbKbScanCode::KbMute => 0x7f,
            UsbKbScanCode::KbVolumeUp => 0x80,
            UsbKbScanCode::KbVolumeDown => 0x81,
            UsbKbScanCode::KbLockingCapsLock12 => 0x82,
            UsbKbScanCode::KbLockingNumLock12 => 0x83,
            UsbKbScanCode::KbLockingScrollLock => 0x84,
            UsbKbScanCode::KeypadComma => 0x85,
            UsbKbScanCode::KeypadEqualSign => 0x86,
            UsbKbScanCode::KbKanji1 => 0x87,
            UsbKbScanCode::KbKanji2 => 0x88,
            UsbKbScanCode::KbKanji3 => 0x89,
            UsbKbScanCode::KbKanji4 => 0x8a,
            UsbKbScanCode::KbKanji5 => 0x8b,
            UsbKbScanCode::KbKanji6 => 0x8c,
            UsbKbScanCode::KbKanji7 => 0x8d,
            UsbKbScanCode::KbKanji8 => 0x8e,
            UsbKbScanCode::KbKanji9 => 0x8f,
            UsbKbScanCode::KbLANG1 => 0x90,
            UsbKbScanCode::KbLANG2 => 0x91,
            UsbKbScanCode::KbLANG3 => 0x92,
            UsbKbScanCode::KbLANG4 => 0x93,
            UsbKbScanCode::KbLANG5 => 0x94,
            UsbKbScanCode::KbLANG6 => 0x95,
            UsbKbScanCode::KbLANG7 => 0x96,
            UsbKbScanCode::KbLANG8 => 0x97,
            UsbKbScanCode::KbLANG9 => 0x98,
            UsbKbScanCode::KbAlternateErase => 0x99,
            UsbKbScanCode::KbSysReqAttenti => 0x9a,
            UsbKbScanCode::KbCancel => 0x9b,
            UsbKbScanCode::KbClear => 0x9c,
            UsbKbScanCode::KbPrior => 0x9d,
            UsbKbScanCode::KbReturn => 0x9e,
            UsbKbScanCode::KbSeparator => 0x9f,
            UsbKbScanCode::KbOut => 0xa0,
            UsbKbScanCode::KbOper => 0xa1,
            UsbKbScanCode::KbClearAgain => 0xa2,
            UsbKbScanCode::KbCrSelProps => 0xa3,
            UsbKbScanCode::KbExSel => 0xa4,
            UsbKbScanCode::KbLControl => 0xe0,
            UsbKbScanCode::KbLShift => 0xe1,
            UsbKbScanCode::KbLAlt => 0xe2,
            UsbKbScanCode::KbLGUI => 0xe3,
            UsbKbScanCode::KbRControl => 0xe4,
            UsbKbScanCode::KbRShift => 0xe5,
            UsbKbScanCode::KbRAlt => 0xe6,
            UsbKbScanCode::KbRGUI => 0xe7,
        }
    }

    /// Reads a wire byte back. A byte that stands for no value of the
    /// enumeration is rejected and handed back inside the error.
    pub fn from_code(code: u8) -> (r: Result<UsbKbScanCode, InvalidParameter>)
        ensures
            r is Ok <==> UsbKbScanCode::is_code(code),
            r matches Ok(v) ==> v.spec_code() == code,
            r matches Err(e) ==> e == UsbKbScanCode::rejection(code),
    {
        match code {
            0x00 => Ok(UsbKbScanCode::Disabled),
            0x01 => Ok(UsbKbScanCode::KeyboardErrorRollOver),
            0x02 => Ok(UsbKbScanCode::KbPOSTFail),
            0x03 => Ok(UsbKbScanCode::KbErrorUndefined),
            0x04 => Ok(UsbKbScanCode::KbA),
            0x05 => Ok(UsbKbScanCode::KbB),
            0x06 => Ok(UsbKbScanCode::KbC),
            0x07 => Ok(UsbKbScanCode::KbD),
            0x08 => Ok(UsbKbScanCode::KbE),
            0x09 => Ok(UsbKbScanCode::KbF),
            0x0a => Ok(UsbKbScanCode::KbG),
            0x0b => Ok(UsbKbScanCode::KbH),
            0x0c => Ok(UsbKbScanCode::KbI),
            0x0d => Ok(UsbKbScanCode::KbJ),
            0x0e => Ok(UsbKbScanCode::KbK),
            0x0f => Ok(UsbKbScanCode::KbL),
            0x10 => Ok(UsbKbScanCode::KbM),
            0x11 => Ok(UsbKbScanCode::KbN),
            0x12 => Ok(UsbKbScanCode::KbO),
            0x13 => Ok(UsbKbScanCode::KbP),
            0x14 => Ok(UsbKbScanCode::KbQ),
            0x15 => Ok(UsbKbScanCode::KbR),
            0x16 => Ok(UsbKbScanCode::KbS),
            0x17 => Ok(UsbKbScanCode::KbT),
            0x18 => Ok(UsbKbScanCode::KbU),
            0x19 => Ok(UsbKbScanCode::KbV),
            0x1a => Ok(UsbKbScanCode::KbW),
            0x1b => Ok(UsbKbScanCode::KbX),
            0x1c => Ok(UsbKbScanCode::KbY),
            0x1d => Ok(UsbKbScanCode::KbZ),
            0x1e => Ok(UsbKbScanCode::Kb1),
            0x1f => Ok(UsbKbScanCode::Kb2),
            0x20 => Ok(UsbKbScanCode::Kb3),
            0x21 => Ok(UsbKbScanCode::Kb4),
            0x22 => Ok(UsbKbScanCode::Kb5),
            0x23 => Ok(UsbKbScanCode::Kb6),
            0x24 => Ok(UsbKbScanCode::Kb7),
            0x25 => Ok(UsbKbScanCode::Kb8),
            0x26 => Ok(UsbKbScanCode::Kb9),
            0x27 => Ok(UsbKbScanCode::Kb0),
            0x28 => Ok(UsbKbScanCode::KbEnter),
            0x29 => Ok(UsbKbScanCode::KbEscape),
            0x2a => Ok(UsbKbScanCode::KbBackspace),
            0x2b => Ok(UsbKbScanCode::KbTab),
            0x2c => Ok(UsbKbScanCode::KbSpacebar),
            0x2d => Ok(UsbKbScanCode::KbMinus),
            0x2e => Ok(UsbKbScanCode::KbEquals),
            0x2f => Ok(UsbKbScanCode::KbLbracket),
            0x30 => Ok(UsbKbScanCode::KbRbracket),
            0x31 => Ok(UsbKbScanCode::KbBackslash),
            0x32 => Ok(UsbKbScanCode::KbNonUSTilde),
            0x33 => Ok(UsbKbScanCode::Keybard),
            0x34 => Ok(UsbKbScanCode::KbQuote),
            0x35 => Ok(UsbKbScanCode::KbGrave),
            0x36 => Ok(UsbKbScanCode::KbComma),
            0x37 => Ok(UsbKbScanCode::KbDot),
            0x38 => Ok(UsbKbScanCode::KbSlash),
            0x39 => Ok(UsbKbScanCode::KbCapsLock),
            0x3a => Ok(UsbKbScanCode::KbF1),
            0x3b => Ok(UsbKbScanCode::KbF2),
            0x3c => Ok(UsbKbScanCode::KbF3),
            0x3d => Ok(UsbKbScanCode::KbF4),
            0x3e => Ok(UsbKbScanCode::KbF5),
            0x3f => Ok(UsbKbScanCode::KbF6),
            0x40 => Ok(UsbKbScanCode::KbF7),
            0x41 => Ok(UsbKbScanCode::KbF8),
            0x42 => Ok(UsbKbScanCode::KbF9),
            0x43 => Ok(UsbKbScanCode::KbF10),
            0x44 => Ok(UsbKbScanCode::KbF11),
            0x45 => Ok(UsbKbScanCode::KbF12),
            0x46 => Ok(UsbKbScanCode::KbPrintScreen),
            0x47 => Ok(UsbKbScanCode::KbScrollLock),
            0x48 => Ok(UsbKbScanCode::KbPause),
            0x49 => Ok(UsbKbScanCode::KbInsert),
            0x4a => Ok(UsbKbScanCode::KbHome),
            0x4b => Ok(UsbKbScanCode::KbPageUp),
            0x4c => Ok(UsbKbScanCode::KbDelete),
            0x4d => Ok(UsbKbScanCode::KbEnd),
            0x4e => Ok(UsbKbScanCode::KbPageDown),
            0x4f => Ok(UsbKbScanCode::KbRightArrow),
            0x50 => Ok(UsbKbScanCode::KbLeftArrow),
            0x51 => Ok(UsbKbScanCode::KbDownArrow),
            0x52 => Ok(UsbKbScanCode::KbUpArrow),
            0x53 => Ok(UsbKbScanCode::KeypadNumLock),
            0x54 => Ok(UsbKbScanCode::KeypadSlash),
            0x55 => Ok(UsbKbScanCode::KeypadAsterisk),
            0x56 => Ok(UsbKbScanCode::KeypadMinus),
            0x57 => Ok(UsbKbScanCode::KeypadPlus),
            0x58 => Ok(UsbKbScanCode::KeypadEnter),
            0x59 => Ok(UsbKbScanCode::Keypad1),
            0x5a => Ok(UsbKbScanCode::Keypad2),
            0x5b => Ok(UsbKbScanCode::Keypad3),
            0x5c => Ok(UsbKbScanCode::Keypad4),
            0x5d => Ok(UsbKbScanCode::Keypad5),
            0x5e => Ok(UsbKbScanCode::Keypad6),
            0x5f => Ok(UsbKbScanCode::Keypad7),
            0x60 => Ok(UsbKbScanCode::Keypad8),
            0x61 => Ok(UsbKbScanCode::Keypad9),
            0x62 => Ok(UsbKbScanCode::Keypad0),
            0x63 => Ok(UsbKbScanCode::KeypadDot),
            0x64 => Ok(UsbKbScanCode::KbNonUSBackslash),
            0x65 => Ok(UsbKbScanCode::KbApplication),
            0x66 => Ok(UsbKbScanCode::KbPower),
            0x67 => Ok(UsbKbScanCode::KeypadEquals),
            0x68 => Ok(UsbKbScanCode::KbF13),
            0x69 => Ok(UsbKbScanCode::KbF14),
            0x6a => Ok(UsbKbScanCode::KbF15),
            0x6b => Ok(UsbKbScanCode::KbF16),
            0x6c => Ok(UsbKbScanCode::KbF17),
            0x6d => Ok(UsbKbScanCode::KbF18),
            0x6e => Ok(UsbKbScanCode::KbF19),
            0x6f => Ok(UsbKbScanCode::KbF20),
            0x70 => Ok(UsbKbScanCode::KbF21),
            0x71 => Ok(UsbKbScanCode::KbF22),
            0x72 => Ok(UsbKbScanCode::KbF23),
            0x73 => Ok(UsbKbScanCode::KbF24),
            0x74 => Ok(UsbKbScanCode::KbExecute),
            0x75 => Ok(UsbKbScanCode::KbHelp),
            0x76 => Ok(UsbKbScanCode::KbMenu),
            0x77 => Ok(UsbKbScanCode::KbSelect),
            0x78 => Ok(UsbKbScanCode::KbStop),
            0x79 => Ok(UsbKbScanCode::KbAgain),
            0x7a => Ok(UsbKbScanCode::KbUndo),
            0x7b => Ok(UsbKbScanCode::KbCut),
            0x7c => Ok(UsbKbScanCode::KbCopy),
            0x7d => Ok(UsbKbScanCode::KbPaste),
            0x7e => Ok(UsbKbScanCode::KbFind),
            0x7f => Ok(UsbKbScanCode::KbMute),
            0x80 => Ok(UsbKbScanCode::KbVolumeUp),
            0x81 => Ok(UsbKbScanCode::KbVolumeDown),
            0x82 => Ok(UsbKbScanCode::KbLockingCapsLock12),
            0x83 => Ok(UsbKbScanCode::KbLockingNumLock12),
            0x84 => Ok(UsbKbScanCode::KbLockingScrollLock),
            0x85 => Ok(UsbKbScanCode::KeypadComma),
            0x86 => Ok(UsbKbScanCode::KeypadEqualSign),
            0x87 => Ok(UsbKbScanCode::KbKanji1),
            0x88 => Ok(UsbKbScanCode::KbKanji2),
            0x89 => Ok(UsbKbScanCode::KbKanji3),
            0x8a => Ok(UsbKbScanCode::KbKanji4),
            0x8b => Ok(UsbKbScanCode::KbKanji5),
            0x8c => Ok(UsbKbScanCode::KbKanji6),
            0x8d => Ok(UsbKbScanCode::KbKanji7),
            0x8e => Ok(UsbKbScanCode::KbKanji8),
            0x8f => Ok(UsbKbScanCode::KbKanji9),
            0x90 => Ok(UsbKbScanCode::KbLANG1),
            0x91 => Ok(UsbKbScanCode::KbLANG2),
            0x92 => Ok(UsbKbScanCode::KbLANG3),
            0x93 => Ok(UsbKbScanCode::KbLANG4),
            0x94 => Ok(UsbKbScanCode::KbLANG5),
            0x95 => Ok(UsbKbScanCode::KbLANG6),
            0x96 => Ok(UsbKbScanCode::KbLANG7),
            0x97 => Ok(UsbKbScanCode::KbLANG8),
            0x98 => Ok(UsbKbScanCode::KbLANG9),
            0x99 => Ok(UsbKbScanCode::KbAlternateErase),
            0x9a => Ok(UsbKbScanCode::KbSysReqAttenti),
            0x9b => Ok(UsbKbScanCode::KbCancel),
            0x9c => Ok(UsbKbScanCode::KbClear),
            0x9d => Ok(UsbKbScanCode::KbPrior),
            0x9e => Ok(UsbKbScanCode::KbReturn),
            0x9f => Ok(UsbKbScanCode::KbSeparator),
            0xa0 => Ok(UsbKbScanCode::KbOut),
            0xa1 => Ok(UsbKbScanCode::KbOper),
            0xa2 => Ok(UsbKbScanCode::KbClearAgain),
            0xa3 => Ok(UsbKbScanCode::KbCrSelProps),
            0xa4 => Ok(UsbKbScanCode::KbExSel),
            0xe0 => Ok(UsbKbScanCode::KbLControl),
            0xe1 => Ok(UsbKbScanCode::KbLShift),
            0xe2 => Ok(UsbKbScanCode::KbLAlt),
            0xe3 => Ok(UsbKbScanCode::KbLGUI),
            0xe4 => Ok(UsbKbScanCode::KbRControl),
            0xe5 => Ok(UsbKbScanCode::KbRShift),
            0xe6 => Ok(UsbKbScanCode::KbRAlt),
            0xe7 => Ok(UsbKbScanCode::KbRGUI),
            _ => Err(InvalidParameter { kind: ParameterKind::ScanCode, value: code }),
        }
    }

    /// Every value's wire byte is one that `from_code` accepts, and the
    /// byte determines the value.
    pub proof fn lemma_code_injective(a: UsbKbScanCode, b: UsbKbScanCode)
        ensures
            UsbKbScanCode::is_code(a.spec_code()),
            a.spec_code() == b.spec_code() ==> a == b,
    {
    }
}

} // verus!
