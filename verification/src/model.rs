use vstd::prelude::*;
use crate::controls::MouseButton;
use crate::error::InvalidParameter;
use crate::keys::KeyMod;
use crate::keys::UsbKbScanCode;

verus! {

/// Emulation of a mouse button.
#[derive(Clone, Copy, Debug, PartialEq, Eq, Structural)]
pub struct ButtonConfig {
    /// The button that is emulated.
    pub button: MouseButton,
    /// While the control is held, fire again every this many milliseconds;
    /// 0 fires once.
    pub interval_ms: u16,
}

/// A sensitivity held while the control is held, in dots per inch per axis.
/// The vendor software offers 100 to 30000; the device is sent whatever
/// stands here.
#[derive(Clone, Copy, Debug, PartialEq, Eq, Structural)]
pub struct SensitivityClutch {
    pub x: u16,
    pub y: u16,
}

/// What a control can do to the sensitivity.
#[derive(Clone, Copy, Debug, PartialEq, Eq, Structural)]
pub enum SensitivityFunction {
    /// Hold the given sensitivity while the control is held.
    Clutch(SensitivityClutch),
    /// Go to the next stage up, and from the last to the first.
    CycleUpStage,
    /// Go to the next stage down, and from the first to the last.
    CycleDownStage,
    /// Go one stage up.
    StageUp,
    /// Go one stage down.
    StageDown,
}

/// Emulation of a key press.
#[derive(Clone, Debug, PartialEq, Eq)]
pub struct KeyPress {
    /// The key that is pressed.
    pub key: UsbKbScanCode,
    /// The modifiers held with it. Order and repetition mean nothing.
    pub modifiers: Vec<KeyMod>,
    /// While the control is held, press again every this many milliseconds;
    /// 0 presses once.
    pub interval_ms: u16,
}

/// What a key press means: its modifiers as a set.
pub struct KeyPressView {
    pub key: UsbKbScanCode,
    pub modifiers: Set<KeyMod>,
    pub interval_ms: u16,
}

impl View for KeyPress {
    type V = KeyPressView;

    open spec fn view(&self) -> KeyPressView {
        KeyPressView {
            key: self.key,
            modifiers: self.modifiers@.to_set(),
            interval_ms: self.interval_ms,
        }
    }
}

/// What a control is bound to.
#[derive(Clone, Debug, PartialEq, Eq)]
pub enum Action {
    Mouse(ButtonConfig),
    Keyboard(KeyPress),
    Sensitivity(SensitivityFunction),
    /// Switch to the second layer of bindings while the control is held.
    Hypershift,
    /// The control does nothing.
    Disable,
}

/// What an action means.
pub enum ActionView {
    Mouse(ButtonConfig),
    Keyboard(KeyPressView),
    Sensitivity(SensitivityFunction),
    Hypershift,
    Disable,
}

impl View for Action {
    type V = ActionView;

    open spec fn view(&self) -> ActionView {
        match *self {
            Action::Mouse(config) => ActionView::Mouse(config),
            Action::Keyboard(press) => ActionView::Keyboard(press@),
            Action::Sensitivity(function) => ActionView::Sensitivity(function),
            Action::Hypershift => ActionView::Hypershift,
            Action::Disable => ActionView::Disable,
        }
    }
}

/// One binding: a physical control and what it does from now on.
#[derive(Clone, Debug, PartialEq, Eq)]
pub struct Function {
    pub button: MouseButton,
    pub action: Action,
}

/// What a binding means.
pub struct FunctionView {
    pub button: MouseButton,
    pub action: ActionView,
}

impl View for Function {
    type V = FunctionView;

    open spec fn view(&self) -> FunctionView {
        FunctionView { button: self.button, action: self.action@ }
    }
}

impl ButtonConfig {
    /// Emulation of the button with the given wire byte.
    pub fn from_codes(button: u8, interval_ms: u16) -> (r: Result<ButtonConfig, InvalidParameter>)
        ensures
            r is Ok <==> MouseButton::is_code(button),
            r matches Ok(config) ==> config.button.code() == button && config.interval_ms
                == interval_ms,
            r matches Err(e) ==> e == MouseButton::rejection(button),
    {
        match MouseButton::from_code(button) {
            Ok(target) => Ok(ButtonConfig { button: target, interval_ms }),
            Err(e) => Err(e),
        }
    }
}

impl KeyPress {
    /// A press of the key with the given usage code, with the modifiers whose
    /// bits are given one by one. The key is looked at first, then the
    /// modifiers in their order: the first byte that stands for nothing is
    /// the one reported.
    pub fn from_codes(key: u8, modifier_bits: &Vec<u8>, interval_ms: u16) -> (r: Result<
        KeyPress,
        InvalidParameter,
    >)
        ensures
            r is Ok <==> UsbKbScanCode::is_code(key) && forall|i: int|
                0 <= i < modifier_bits@.len() ==> KeyMod::is_code(#[trigger] modifier_bits@[i]),
            r matches Ok(press) ==> {
                &&& press.key.code() == key
                &&& press.interval_ms == interval_ms
                &&& press.modifiers@.len() == modifier_bits@.len()
                &&& forall|i: int|
                    0 <= i < modifier_bits@.len() ==> (#[trigger] press.modifiers@[i]).code()
                        == modifier_bits@[i]
            },
            r matches Err(e) ==> if !UsbKbScanCode::is_code(key) {
                e == UsbKbScanCode::rejection(key)
            } else {
                exists|i: int|
                    {
                        &&& 0 <= i < modifier_bits@.len()
                        &&& !KeyMod::is_code(#[trigger] modifier_bits@[i])
                        &&& e == KeyMod::rejection(modifier_bits@[i])
                        &&& forall|j: int| 0 <= j < i ==> KeyMod::is_code(#[trigger] modifier_bits@[j])
                    }
            },
    {
        let scan_code = match UsbKbScanCode::from_code(key) {
            Ok(k) => k,
            Err(e) => {
                return Err(e);
            },
        };
        let mut modifiers: Vec<KeyMod> = Vec::new();
        let mut n: usize = 0;
        while n < modifier_bits.len()
            invariant
                UsbKbScanCode::is_code(key),
                n <= modifier_bits@.len(),
                modifiers@.len() == n,
                forall|i: int| 0 <= i < n ==> KeyMod::is_code(#[trigger] modifier_bits@[i]),
                forall|i: int| 0 <= i < n ==> (#[trigger] modifiers@[i]).code() == modifier_bits@[i],
            decreases modifier_bits@.len() - n,
        {
            match KeyMod::from_code(modifier_bits[n]) {
                Ok(m) => {
                    modifiers.push(m);
                },
                Err(e) => {
                    assert(!KeyMod::is_code(modifier_bits@[n as int]));
                    return Err(e);
                },
            }
            n = n + 1;
        }
        Ok(KeyPress { key: scan_code, modifiers, interval_ms })
    }
}

impl Function {
    /// The binding of the control with the given wire byte to `action`.
    pub fn from_codes(button: u8, action: Action) -> (r: Result<Function, InvalidParameter>)
        ensures
            r is Ok <==> MouseButton::is_code(button),
            r matches Ok(function) ==> function.button.code() == button && function.action
                == action,
            r matches Err(e) ==> e == MouseButton::rejection(button),
    {
        match MouseButton::from_code(button) {
            Ok(control) => Ok(Function { button: control, action }),
            Err(e) => Err(e),
        }
    }
}

} // verus!
