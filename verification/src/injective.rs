use vstd::prelude::*;
use crate::controls::MouseButton;
use crate::encoder::be_hi;
use crate::encoder::be_lo;
use crate::encoder::frame;
use crate::encoder::modifier_flag;
use crate::encoder::modifier_mask;
use crate::encoder::payload;
use crate::keys::KeyMod;
use crate::keys::UsbKbScanCode;
use crate::model::ActionView;
use crate::model::Function;
use crate::model::FunctionView;
use crate::model::SensitivityFunction;

verus! {

/// A 16-bit value is told by its two bytes.
pub proof fn lemma_be_injective(v: u16, w: u16)
    requires
        be_hi(v) == be_hi(w),
        be_lo(v) == be_lo(w),
    ensures
        v == w,
{
}

proof fn lemma_mask_bits(a0: u8, a1: u8, a2: u8, a3: u8, a4: u8, a5: u8, a6: u8, a7: u8)
    by (bit_vector)
    requires
        a0 == 0 || a0 == 0x01,
        a1 == 0 || a1 == 0x02,
        a2 == 0 || a2 == 0x04,
        a3 == 0 || a3 == 0x08,
        a4 == 0 || a4 == 0x10,
        a5 == 0 || a5 == 0x20,
        a6 == 0 || a6 == 0x40,
        a7 == 0 || a7 == 0x80,
    ensures
        ((a0 | a1 | a2 | a3 | a4 | a5 | a6 | a7) & 0x01 != 0) <==> a0 != 0,
        ((a0 | a1 | a2 | a3 | a4 | a5 | a6 | a7) & 0x02 != 0) <==> a1 != 0,
        ((a0 | a1 | a2 | a3 | a4 | a5 | a6 | a7) & 0x04 != 0) <==> a2 != 0,
        ((a0 | a1 | a2 | a3 | a4 | a5 | a6 | a7) & 0x08 != 0) <==> a3 != 0,
        ((a0 | a1 | a2 | a3 | a4 | a5 | a6 | a7) & 0x10 != 0) <==> a4 != 0,
        ((a0 | a1 | a2 | a3 | a4 | a5 | a6 | a7) & 0x20 != 0) <==> a5 != 0,
        ((a0 | a1 | a2 | a3 | a4 | a5 | a6 | a7) & 0x40 != 0) <==> a6 != 0,
        ((a0 | a1 | a2 | a3 | a4 | a5 | a6 | a7) & 0x80 != 0) <==> a7 != 0,
{
}

/// A modifier's bit is set in the mask exactly when the modifier is held.
pub proof fn lemma_mask_member(held: Set<KeyMod>, m: KeyMod)
    ensures
        (modifier_mask(held) & m.code() != 0) <==> held.contains(m),
{
    lemma_mask_bits(
        modifier_flag(held, KeyMod::LControl),
        modifier_flag(held, KeyMod::LShift),
        modifier_flag(held, KeyMod::LAlt),
        modifier_flag(held, KeyMod::LGui),
        modifier_flag(held, KeyMod::RControl),
        modifier_flag(held, KeyMod::RShift),
        modifier_flag(held, KeyMod::RAlt),
        modifier_flag(held, KeyMod::RGui),
    );
}

/// Two sets of modifiers with the same mask are the same set.
pub proof fn lemma_mask_injective(s: Set<KeyMod>, t: Set<KeyMod>)
    requires
        modifier_mask(s) == modifier_mask(t),
    ensures
        s == t,
{
    assert forall|m: KeyMod| s.contains(m) == t.contains(m) by {
        lemma_mask_member(s, m);
        lemma_mask_member(t, m);
    }
    assert(s =~= t);
}

/// Two bindings with the same payload mean the same: the same control, the
/// same kind of action, the same parameters. A stage up of the sensitivity
/// and a mouse button without repeat share their third and fourth byte, and
/// differ in the fifth: no button has the code 0.
pub proof fn lemma_payload_injective(a: FunctionView, b: FunctionView)
    requires
        payload(a) == payload(b),
    ensures
        a == b,
{
    let p = payload(a);
    let q = payload(b);
    assert(p[0] == q[0] && p[1] == q[1] && p[2] == q[2] && p[3] == q[3] && p[4] == q[4] && p[5]
        == q[5] && p[6] == q[6] && p[7] == q[7] && p[8] == q[8]);
    MouseButton::lemma_code_injective(a.button, b.button);
    match (a.action, b.action) {
        (ActionView::Mouse(x), ActionView::Mouse(y)) => {
            MouseButton::lemma_code_injective(x.button, y.button);
            if x.interval_ms != 0 && y.interval_ms != 0 {
                lemma_be_injective(x.interval_ms, y.interval_ms);
            }
        },
        (ActionView::Keyboard(x), ActionView::Keyboard(y)) => {
            UsbKbScanCode::lemma_code_injective(x.key, y.key);
            lemma_mask_injective(x.modifiers, y.modifiers);
            if x.interval_ms != 0 && y.interval_ms != 0 {
                lemma_be_injective(x.interval_ms, y.interval_ms);
            }
        },
        (
            ActionView::Sensitivity(SensitivityFunction::Clutch(x)),
            ActionView::Sensitivity(SensitivityFunction::Clutch(y)),
        ) => {
            lemma_be_injective(x.x, y.x);
            lemma_be_injective(x.y, y.y);
        },
        (ActionView::Mouse(x), _) => {
            MouseButton::lemma_code_injective(x.button, x.button);
        },
        (_, ActionView::Mouse(y)) => {
            MouseButton::lemma_code_injective(y.button, y.button);
        },
        _ => {},
    }
}

/// Two bindings that mean the same have the same report, byte for byte.
pub proof fn lemma_same_binding_same_frame(a: Function, b: Function)
    requires
        a@ == b@,
    ensures
        frame(a@) == frame(b@),
{
}

/// Two bindings whose reports agree in bytes 0 to 18 mean the same: no two
/// bindings that differ in the control, in the kind of action or in a
/// parameter share those bytes.
pub proof fn lemma_frame_injective(a: Function, b: Function)
    requires
        frame(a@).subrange(0, 19) == frame(b@).subrange(0, 19),
    ensures
        a@ == b@,
{
    let fa = frame(a@).subrange(0, 19);
    let fb = frame(b@).subrange(0, 19);
    assert forall|k: int| 0 <= k < 9 implies payload(a@)[k] == payload(b@)[k] by {
        assert(fa[10 + k] == frame(a@)[10 + k]);
        assert(fb[10 + k] == frame(b@)[10 + k]);
        assert(frame(a@)[10 + k] == payload(a@)[k]);
        assert(frame(b@)[10 + k] == payload(b@)[k]);
    }
    assert(payload(a@) =~= payload(b@));
    lemma_payload_injective(a@, b@);
}

} // verus!
