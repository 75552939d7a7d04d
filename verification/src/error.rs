use vstd::prelude::*;

verus! {

/// Which enumeration a rejected byte was meant for.
#[derive(Clone, Copy, Debug, PartialEq, Eq, Structural)]
pub enum ParameterKind {
    /// A physical control of the mouse.
    Control,
    /// A keyboard usage code.
    ScanCode,
    /// A keyboard modifier bit.
    Modifier,
}

/// A byte that stands for no value of the enumeration it was read for.
#[derive(Clone, Copy, Debug, PartialEq, Eq, Structural)]
pub struct InvalidParameter {
    pub kind: ParameterKind,
    pub value: u8,
}

} // verus!
