use vstd::prelude::*;
use crate::error::InvalidParameter;
use crate::error::ParameterKind;

verus! {

/// A physical control of the mouse: a button, a scroll direction, or one of
/// the two sensitivity-stage buttons. Each has a one-byte code on the wire.
#[derive(Clone, Copy, Debug, PartialEq, Eq, Hash, Structural)]
pub enum MouseButton {
    LClick,
    RClick,
    MClick,
    Mouse4,
    Mouse5,
    UScroll,
    DScroll,
    SenStageUp,
    SenStageDown,
    LScroll,
    RScroll,
    Side1,
    Side2,
    Side3,
    Side4,
    Side5,
    Side6,
    Side7,
    Side8,
    Side9,
    Side10,
    Side11,
    Side12,
}

impl MouseButton {
    /// The byte that stands for this value on the wire.
    pub open spec fn spec_code(self) -> u8 {
        match self {
            MouseButton::LClick => 0x01,
            MouseButton::RClick => 0x02,
            MouseButton::MClick => 0x03,
            MouseButton::Mouse4 => 0x04,
            MouseButton::Mouse5 => 0x05,
            MouseButton::UScroll => 0x09,
            MouseButton::DScroll => 0x0a,
            MouseButton::SenStageUp => 0x0b,
            MouseButton::SenStageDown => 0x0c,
            MouseButton::LScroll => 0x34,
            MouseButton::RScroll => 0x35,
            MouseButton::Side1 => 0x40,
            MouseButton::Side2 => 0x41,
            MouseButton::Side3 => 0x42,
            MouseButton::Side4 => 0x43,
            MouseButton::Side5 => 0x44,
            MouseButton::Side6 => 0x45,
            MouseButton::Side7 => 0x46,
            MouseButton::Side8 => 0x47,
            MouseButton::Side9 => 0x48,
            MouseButton::Side10 => 0x49,
            MouseButton::Side11 => 0x4a,
            MouseButton::Side12 => 0x4b,
        }
    }

    /// Whether `code` is the wire byte of some control.
    pub open spec fn is_code(code: u8) -> bool {
        (0x01 <= code <= 0x05) || (0x09 <= code <= 0x0c) || code == 0x34 || code == 0x35 || (0x40
            <= code <= 0x4b)
    }

    /// The error that tells of a byte that `from_code` did not accept.
    pub open spec fn rejection(code: u8) -> InvalidParameter {
        InvalidParameter { kind: ParameterKind::Control, value: code }
    }

    /// The byte that stands for this value on the wire.
    #[verifier::when_used_as_spec(spec_code)]
    pub fn code(self) -> (c: u8)
        ensures
            c == self.spec_code(),
    {
        match self {
            MouseButton::LClick => 0x01,
            MouseButton::RClick => 0x02,
            MouseButton::MClick => 0x03,
            MouseButton::Mouse4 => 0x04,
            MouseButton::Mouse5 => 0x05,
            MouseButton::UScroll => 0x09,
            MouseButton::DScroll => 0x0a,
            MouseButton::SenStageUp => 0x0b,
            MouseButton::SenStageDown => 0x0c,
            MouseButton::LScroll => 0x34,
            MouseButton::RScroll => 0x35,
            MouseButton::Side1 => 0x40,
            MouseButton::Side2 => 0x41,
            MouseButton::Side3 => 0x42,
            MouseButton::Side4 => 0x43,
            MouseButton::Side5 => 0x44,
            MouseButton::Side6 => 0x45,
            MouseButton::Side7 => 0x46,
            MouseButton::Side8 => 0x47,
            MouseButton::Side9 => 0x48,
            MouseButton::Side10 => 0x49,
            MouseButton::Side11 => 0x4a,
            MouseButton::Side12 => 0x4b,
        }
    }

    /// Reads a wire byte back. A byte that stands for no value of the
    /// enumeration is rejected and handed back inside the error.
    pub fn from_code(code: u8) -> (r: Result<MouseButton, InvalidParameter>)
        ensures
            r is Ok <==> MouseButton::is_code(code),
            r matches Ok(v) ==> v.spec_code() == code,
            r matches Err(e) ==> e == MouseButton::rejection(code),
    {
        match code {
            0x01 => Ok(MouseButton::LClick),
            0x02 => Ok(MouseButton::RClick),
            0x03 => Ok(MouseButton::MClick),
            0x04 => Ok(MouseButton::Mouse4),
            0x05 => Ok(MouseButton::Mouse5),
            0x09 => Ok(MouseButton::UScroll),
            0x0a => Ok(MouseButton::DScroll),
            0x0b => Ok(MouseButton::SenStageUp),
            0x0c => Ok(MouseButton::SenStageDown),
            0x34 => Ok(MouseButton::LScroll),
            0x35 => Ok(MouseButton::RScroll),
            0x40 => Ok(MouseButton::Side1),
            0x41 => Ok(MouseButton::Side2),
            0x42 => Ok(MouseButton::Side3),
            0x43 => Ok(MouseButton::Side4),
            0x44 => Ok(MouseButton::Side5),
            0x45 => Ok(MouseButton::Side6),
            0x46 => Ok(MouseButton::Side7),
            0x47 => Ok(MouseButton::Side8),
            0x48 => Ok(MouseButton::Side9),
            0x49 => Ok(MouseButton::Side10),
            0x4a => Ok(MouseButton::Side11),
            0x4b => Ok(MouseButton::Side12),
            _ => Err(InvalidParameter { kind: ParameterKind::Control, value: code }),
        }
    }

    /// Every value's wire byte is one that `from_code` accepts, and the
    /// byte determines the value.
    pub proof fn lemma_code_injective(a: MouseButton, b: MouseButton)
        ensures
            MouseButton::is_code(a.spec_code()),
            a.spec_code() == b.spec_code() ==> a == b,
    {
    }
}

} // verus!
