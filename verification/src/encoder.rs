use vstd::prelude::*;
use crate::keys::KeyMod;
use crate::model::Action;
use crate::model::ActionView;
use crate::model::Function;
use crate::model::FunctionView;
use crate::model::SensitivityFunction;

verus! {

/// Length of the feature report that carries one binding.
pub const FRAME_LEN: usize = 91;

/// Length of the part of the report that tells the binding.
pub const PAYLOAD_LEN: usize = 9;

/// Where the payload starts in the report.
pub const PAYLOAD_AT: usize = 10;

/// Where the checksum stands in the report.
pub const CHECKSUM_AT: usize = 89;

/// First byte that the checksum covers; it covers all from here up to the
/// checksum itself.
pub const CHECKSUM_FROM: usize = 3;

/// The more significant byte of `v`.
pub open spec fn be_hi(v: u16) -> u8 {
    (v / 256) as u8
}

/// The less significant byte of `v`.
pub open spec fn be_lo(v: u16) -> u8 {
    (v % 256) as u8
}

/// The bit of `m` if `held` has it, else nothing.
pub open spec fn modifier_flag(held: Set<KeyMod>, m: KeyMod) -> u8 {
    if held.contains(m) {
        m.code()
    } else {
        0
    }
}

/// The modifier byte: the bits of the modifiers in `held`, and no other.
pub open spec fn modifier_mask(held: Set<KeyMod>) -> u8 {
    modifier_flag(held, KeyMod::LControl) | modifier_flag(held, KeyMod::LShift) | modifier_flag(
        held,
        KeyMod::LAlt,
    ) | modifier_flag(held, KeyMod::LGui) | modifier_flag(held, KeyMod::RControl) | modifier_flag(
        held,
        KeyMod::RShift,
    ) | modifier_flag(held, KeyMod::RAlt) | modifier_flag(held, KeyMod::RGui)
}

/// The nine payload bytes of a binding. The first is the control that is
/// bound and the second is 0. The third and fourth tell the action, and for
/// a stage of the sensitivity the fourth tells which way to go. The
/// action's parameters follow, and what is left is 0.
pub open spec fn payload(f: FunctionView) -> Seq<u8> {
    let c = f.button.code();
    match f.action {
        ActionView::Disable => seq![c, 0, 0, 0, 0, 0, 0, 0, 0],
        ActionView::Hypershift => seq![c, 0, 0x0c, 0x01, 0x01, 0, 0, 0, 0],
        ActionView::Mouse(config) => if config.interval_ms == 0 {
            seq![c, 0, 0x01, 0x01, config.button.code(), 0, 0, 0, 0]
        } else {
            seq![
                c,
                0,
                0x0e,
                0x03,
                config.button.code(),
                be_hi(config.interval_ms),
                be_lo(config.interval_ms),
                0,
                0,
            ]
        },
        ActionView::Keyboard(press) => if press.interval_ms == 0 {
            seq![c, 0, 0x02, 0x02, modifier_mask(press.modifiers), press.key.code(), 0, 0, 0]
        } else {
            seq![
                c,
                0,
                0x0d,
                0x04,
                modifier_mask(press.modifiers),
                press.key.code(),
                be_hi(press.interval_ms),
                be_lo(press.interval_ms),
                0,
            ]
        },
        ActionView::Sensitivity(SensitivityFunction::Clutch(dpi)) => seq![
            c,
            0,
            0x06,
            0x05,
            0x05,
            be_hi(dpi.x),
            be_lo(dpi.x),
            be_hi(dpi.y),
            be_lo(dpi.y),
        ],
        ActionView::Sensitivity(SensitivityFunction::CycleUpStage) => seq![
            c,
            0,
            0x01,
            0x07,
            0,
            0,
            0,
            0,
            0,
        ],
        ActionView::Sensitivity(SensitivityFunction::CycleDownStage) => seq![
            c,
            0,
            0x01,
            0x06,
            0,
            0,
            0,
            0,
            0,
        ],
        ActionView::Sensitivity(SensitivityFunction::StageUp) => seq![
            c,
            0,
            0x01,
            0x01,
            0,
            0,
            0,
            0,
            0,
        ],
        ActionView::Sensitivity(SensitivityFunction::StageDown) => seq![
            c,
            0,
            0x01,
            0x02,
            0,
            0,
            0,
            0,
            0,
        ],
    }
}

/// All bytes of `s` folded with exclusive or.
pub open spec fn xor_fold(s: Seq<u8>) -> u8
    decreases s.len(),
{
    if s.len() == 0 {
        0
    } else {
        xor_fold(s.drop_last()) ^ s.last()
    }
}

/// The ten bytes before the payload. Byte 0 is the place of the report id,
/// which is 0; byte 1 is left to the device; byte 2 is a marker; bytes 4 to 9
/// are the same in every report that binds a control.
pub open spec fn header() -> Seq<u8> {
    seq![0u8, 0, 0x1f, 0, 0, 0, 0x0a, 0x02, 0x0c, 0x01]
}

/// The report up to the checksum: header, payload, and zeros.
pub open spec fn body(f: FunctionView) -> Seq<u8> {
    header() + payload(f) + Seq::new(70, |i: int| 0u8)
}

/// The checksum of a binding's report: its bytes 3 to 88 folded.
pub open spec fn checksum(f: FunctionView) -> u8 {
    xor_fold(body(f).subrange(CHECKSUM_FROM as int, CHECKSUM_AT as int))
}

/// The report that binds a control: the body, the checksum, and one zero.
pub open spec fn frame(f: FunctionView) -> Seq<u8> {
    body(f) + seq![checksum(f), 0u8]
}

proof fn lemma_or_regroup(a0: u8, a1: u8, a2: u8, a3: u8, a4: u8, a5: u8, a6: u8, a7: u8, m: u8)
    by (bit_vector)
    ensures
        (a0 | a1 | a2 | a3 | a4 | a5 | a6 | a7) | m == (a0 | m) | a1 | a2 | a3 | a4 | a5 | a6 | a7,
        (a0 | a1 | a2 | a3 | a4 | a5 | a6 | a7) | m == a0 | (a1 | m) | a2 | a3 | a4 | a5 | a6 | a7,
        (a0 | a1 | a2 | a3 | a4 | a5 | a6 | a7) | m == a0 | a1 | (a2 | m) | a3 | a4 | a5 | a6 | a7,
        (a0 | a1 | a2 | a3 | a4 | a5 | a6 | a7) | m == a0 | a1 | a2 | (a3 | m) | a4 | a5 | a6 | a7,
        (a0 | a1 | a2 | a3 | a4 | a5 | a6 | a7) | m == a0 | a1 | a2 | a3 | (a4 | m) | a5 | a6 | a7,
        (a0 | a1 | a2 | a3 | a4 | a5 | a6 | a7) | m == a0 | a1 | a2 | a3 | a4 | (a5 | m) | a6 | a7,
        (a0 | a1 | a2 | a3 | a4 | a5 | a6 | a7) | m == a0 | a1 | a2 | a3 | a4 | a5 | (a6 | m) | a7,
        (a0 | a1 | a2 | a3 | a4 | a5 | a6 | a7) | m == a0 | a1 | a2 | a3 | a4 | a5 | a6 | (a7 | m),
        (0u8 | m) == m,
        (m | m) == m,
        (0u8 | 0u8 | 0u8 | 0u8 | 0u8 | 0u8 | 0u8 | 0u8) == 0u8,
{
}

/// Holding one more modifier sets its bit in the mask.
pub proof fn lemma_mask_insert(held: Set<KeyMod>, m: KeyMod)
    ensures
        modifier_mask(held.insert(m)) == modifier_mask(held) | m.code(),
{
    lemma_or_regroup(
        modifier_flag(held, KeyMod::LControl),
        modifier_flag(held, KeyMod::LShift),
        modifier_flag(held, KeyMod::LAlt),
        modifier_flag(held, KeyMod::LGui),
        modifier_flag(held, KeyMod::RControl),
        modifier_flag(held, KeyMod::RShift),
        modifier_flag(held, KeyMod::RAlt),
        modifier_flag(held, KeyMod::RGui),
        m.code(),
    );
}

/// The modifier byte of a list of modifiers.
pub fn modifier_byte(modifiers: &Vec<KeyMod>) -> (mask: u8)
    ensures
        mask == modifier_mask(modifiers@.to_set()),
{
    let mut mask: u8 = 0;
    let mut n: usize = 0;
    proof {
        lemma_or_regroup(0, 0, 0, 0, 0, 0, 0, 0, 0);
        assert(modifiers@.take(0).to_set() =~= Set::<KeyMod>::empty());
    }
    while n < modifiers.len()
        invariant
            n <= modifiers@.len(),
            mask == modifier_mask(modifiers@.take(n as int).to_set()),
        decreases modifiers@.len() - n,
    {
        proof {
            let before = modifiers@.take(n as int);
            assert(modifiers@.take(n + 1) =~= before.push(modifiers@[n as int]));
            before.lemma_push_to_set_commute(modifiers@[n as int]);
            lemma_mask_insert(before.to_set(), modifiers@[n as int]);
        }
        mask = mask | modifiers[n].code();
        n = n + 1;
    }
    proof {
        assert(modifiers@.take(n as int) =~= modifiers@);
    }
    mask
}

/// The two bytes of `v`, the more significant first.
pub fn be_bytes(v: u16) -> (bytes: [u8; 2])
    ensures
        bytes@ == seq![be_hi(v), be_lo(v)],
{
    let bytes: [u8; 2] = [(v / 256) as u8, (v % 256) as u8];
    assert(bytes@ =~= seq![be_hi(v), be_lo(v)]);
    bytes
}

impl Function {
    /// The nine payload bytes of this binding.
    pub fn generate_string(&self) -> (string: [u8; 9])
        ensures
            string@ == payload(self@),
    {
        let mut string: [u8; 9] = [0u8; 9];
        string[0] = self.button.code();
        match &self.action {
            Action::Disable => {},
            Action::Hypershift => {
                string[2] = 0x0c;
                string[3] = 0x01;
                string[4] = 0x01;
            },
            Action::Mouse(emulate_button) => {
                string[4] = emulate_button.button.code();
                if emulate_button.interval_ms > 0 {
                    string[2] = 0x0e;
                    string[3] = 0x03;
                    let data: [u8; 2] = be_bytes(emulate_button.interval_ms);
                    string[5] = data[0];
                    string[6] = data[1];
                } else {
                    string[2] = 0x01;
                    string[3] = 0x01;
                }
            },
            Action::Keyboard(keyboard_function) => {
                string[4] = modifier_byte(&keyboard_function.modifiers);
                string[5] = keyboard_function.key.code();
                if keyboard_function.interval_ms > 0 {
                    string[2] = 0x0d;
                    string[3] = 0x04;
                    let data: [u8; 2] = be_bytes(keyboard_function.interval_ms);
                    string[6] = data[0];
                    string[7] = data[1];
                } else {
                    string[2] = 0x02;
                    string[3] = 0x02;
                }
            },
            Action::Sensitivity(s_func) => {
                match s_func {
                    SensitivityFunction::Clutch(sc) => {
                        let x_val: [u8; 2] = be_bytes(sc.x);
                        let y_val: [u8; 2] = be_bytes(sc.y);
                        string[2] = 0x06;
                        string[3] = 0x05;
                        string[4] = 0x05;
                        string[5] = x_val[0];
                        string[6] = x_val[1];
                        string[7] = y_val[0];
                        string[8] = y_val[1];
                    },
                    SensitivityFunction::CycleUpStage => {
                        string[2] = 0x01;
                        string[3] = 0x07;
                    },
                    SensitivityFunction::CycleDownStage => {
                        string[2] = 0x01;
                        string[3] = 0x06;
                    },
                    SensitivityFunction::StageUp => {
                        string[2] = 0x01;
                        string[3] = 0x01;
                    },
                    SensitivityFunction::StageDown => {
                        string[2] = 0x01;
                        string[3] = 0x02;
                    },
                }
            },
        }
        assert(string@ =~= payload(self@));
        string
    }
}

/// The exclusive-or fold of the bytes of `bytes` from `from` up to, and
/// without, `to`.
pub fn fold_range(bytes: &[u8; 91], from: usize, to: usize) -> (acc: u8)
    requires
        from <= to <= 91,
    ensures
        acc == xor_fold(bytes@.subrange(from as int, to as int)),
{
    let mut acc: u8 = 0;
    let mut i: usize = from;
    while i < to
        invariant
            from <= i <= to <= 91,
            acc == xor_fold(bytes@.subrange(from as int, i as int)),
        decreases to - i,
    {
        proof {
            let next = bytes@.subrange(from as int, i + 1);
            assert(next.drop_last() =~= bytes@.subrange(from as int, i as int));
            assert(next.last() == bytes@[i as int]);
        }
        acc = acc ^ bytes[i];
        i = i + 1;
    }
    acc
}

/// The feature report that binds `func.button` to `func.action`.
pub fn generate_message(func: &Function) -> (message: [u8; 91])
    ensures
        message@ == frame(func@),
        message@[CHECKSUM_AT as int] == xor_fold(
            message@.subrange(CHECKSUM_FROM as int, CHECKSUM_AT as int),
        ),
{
    let mut message: [u8; 91] = [0u8; 91];
    message[2] = 0x1f;
    message[6] = 0x0a;
    message[7] = 0x02;
    message[8] = 0x0c;
    message[9] = 0x01;
    let func_bytes: [u8; 9] = func.generate_string();
    let mut k: usize = 0;
    while k < PAYLOAD_LEN
        invariant
            k <= PAYLOAD_LEN,
            func_bytes@ == payload(func@),
            forall|i: int| 0 <= i < PAYLOAD_AT ==> message@[i] == header()[i],
            forall|i: int| 0 <= i < k ==> message@[PAYLOAD_AT + i] == func_bytes@[i],
            forall|i: int| PAYLOAD_AT + k <= i < FRAME_LEN ==> message@[i] == 0,
        decreases PAYLOAD_LEN - k,
    {
        message[PAYLOAD_AT + k] = func_bytes[k];
        k = k + 1;
    }
    assert(message@.subrange(0, CHECKSUM_AT as int) =~= body(func@));
    assert(message@.subrange(CHECKSUM_FROM as int, CHECKSUM_AT as int) =~= body(func@).subrange(
        CHECKSUM_FROM as int,
        CHECKSUM_AT as int,
    ));
    let sum: u8 = fold_range(&message, CHECKSUM_FROM, CHECKSUM_AT);
    let ghost unsealed = message@;
    message[CHECKSUM_AT] = sum;
    assert(message@.subrange(CHECKSUM_FROM as int, CHECKSUM_AT as int) =~= unsealed.subrange(
        CHECKSUM_FROM as int,
        CHECKSUM_AT as int,
    ));
    assert(message@ =~= frame(func@));
    message
}

} // verus!
