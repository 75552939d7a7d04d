use naga_remap::controls::MouseButton;
use naga_remap::encoder::be_bytes;
use naga_remap::encoder::fold_range;
use naga_remap::encoder::generate_message;
use naga_remap::encoder::modifier_byte;
use naga_remap::error::InvalidParameter;
use naga_remap::error::ParameterKind;
use naga_remap::keys::KeyMod;
use naga_remap::keys::UsbKbScanCode;
use naga_remap::model::Action;
use naga_remap::model::ButtonConfig;
use naga_remap::model::Function;
use naga_remap::model::KeyPress;
use naga_remap::model::SensitivityClutch;
use naga_remap::model::SensitivityFunction;

fn bind(button: MouseButton, action: Action) -> Function {
    Function { button, action }
}

fn key(key: UsbKbScanCode, modifiers: Vec<KeyMod>, interval_ms: u16) -> Action {
    Action::Keyboard(KeyPress { key, modifiers, interval_ms })
}

fn mouse(button: MouseButton, interval_ms: u16) -> Action {
    Action::Mouse(ButtonConfig { button, interval_ms })
}

fn xor(bytes: &[u8]) -> u8 {
    bytes.iter().fold(0, |acc, b| acc ^ b)
}

fn samples() -> Vec<Function> {
    vec![
        bind(MouseButton::Side12, Action::Disable),
        bind(MouseButton::Side1, Action::Disable),
        bind(MouseButton::Side1, Action::Hypershift),
        bind(MouseButton::Side12, mouse(MouseButton::Mouse5, 0)),
        bind(MouseButton::Side12, mouse(MouseButton::Mouse4, 0)),
        bind(MouseButton::Side12, mouse(MouseButton::Mouse5, 1)),
        bind(MouseButton::Side12, mouse(MouseButton::Mouse5, 256)),
        bind(MouseButton::Side12, mouse(MouseButton::Mouse5, 1000)),
        bind(MouseButton::Side12, mouse(MouseButton::Mouse5, 65535)),
        bind(MouseButton::Side12, key(UsbKbScanCode::KbGrave, vec![], 0)),
        bind(MouseButton::Side12, key(UsbKbScanCode::KbGrave, vec![KeyMod::LShift], 0)),
        bind(MouseButton::Side12, key(UsbKbScanCode::KbGrave, vec![KeyMod::RShift], 0)),
        bind(MouseButton::Side12, key(UsbKbScanCode::KbA, vec![], 0)),
        bind(MouseButton::Side12, key(UsbKbScanCode::KbA, vec![], 50)),
        bind(MouseButton::Side12, key(UsbKbScanCode::KbA, vec![], 0x3200)),
        bind(MouseButton::Side12, key(UsbKbScanCode::Disabled, vec![], 0)),
        bind(
            MouseButton::SenStageDown,
            Action::Sensitivity(SensitivityFunction::Clutch(SensitivityClutch { x: 100, y: 30000 })),
        ),
        bind(
            MouseButton::SenStageDown,
            Action::Sensitivity(SensitivityFunction::Clutch(SensitivityClutch { x: 30000, y: 100 })),
        ),
        bind(
            MouseButton::SenStageDown,
            Action::Sensitivity(SensitivityFunction::Clutch(SensitivityClutch { x: 0, y: 65535 })),
        ),
        bind(MouseButton::SenStageDown, Action::Sensitivity(SensitivityFunction::CycleUpStage)),
        bind(MouseButton::SenStageDown, Action::Sensitivity(SensitivityFunction::CycleDownStage)),
        bind(MouseButton::SenStageDown, Action::Sensitivity(SensitivityFunction::StageUp)),
        bind(MouseButton::SenStageDown, Action::Sensitivity(SensitivityFunction::StageDown)),
        bind(MouseButton::SenStageUp, Action::Sensitivity(SensitivityFunction::StageDown)),
        bind(MouseButton::SenStageDown, mouse(MouseButton::LClick, 0)),
        bind(MouseButton::SenStageDown, mouse(MouseButton::RClick, 0)),
        bind(MouseButton::SenStageDown, Action::Hypershift),
    ]
}

#[test]
fn frame_has_fixed_header_and_zero_tail() {
    for f in samples() {
        let m = generate_message(&f);
        assert_eq!(m.len(), 91);
        assert_eq!(&m[0..10], &[0x00, 0x00, 0x1f, 0x00, 0x00, 0x00, 0x0a, 0x02, 0x0c, 0x01]);
        assert_eq!(m[10..19], f.generate_string());
        assert!(m[19..89].iter().all(|b| *b == 0));
        assert_eq!(m[90], 0);
    }
}

#[test]
fn stage_up_on_stage_down_control() {
    let m = generate_message(&bind(
        MouseButton::SenStageDown,
        Action::Sensitivity(SensitivityFunction::StageUp),
    ));
    assert_eq!(m[10], 0x0c);
    assert_eq!(m[10..19], [0x0c, 0x00, 0x01, 0x01, 0x00, 0, 0, 0, 0]);
    assert_eq!(m[89], 0x09);
}

#[test]
fn mouse_button_without_repeat() {
    let m = generate_message(&bind(MouseButton::Side12, mouse(MouseButton::Mouse5, 0)));
    assert_eq!(m[10], 0x4b);
    assert_eq!(m[12..15], [0x01, 0x01, 0x05]);
    assert_eq!(m[15..19], [0, 0, 0, 0]);
    assert_eq!(m[89], 0x4b);
}

#[test]
fn mouse_button_with_repeat() {
    let m = generate_message(&bind(MouseButton::Side12, mouse(MouseButton::Mouse5, 1000)));
    assert_eq!(m[10], 0x4b);
    assert_eq!(m[12..17], [0x0e, 0x03, 0x05, 0x03, 0xe8]);
    assert_eq!(m[89], 0xad);
}

#[test]
fn disabled_control() {
    let m = generate_message(&bind(MouseButton::Side12, Action::Disable));
    assert_eq!(m[10], 0x4b);
    assert_eq!(m[11..19], [0u8; 8]);
    assert_eq!(m[89], 0x4e);
}

#[test]
fn key_without_modifiers() {
    let m = generate_message(&bind(MouseButton::Side12, key(UsbKbScanCode::KbGrave, vec![], 0)));
    assert_eq!(m[10], 0x4b);
    assert_eq!(m[12..16], [0x02, 0x02, 0x00, 0x35]);
    assert_eq!(m[89], 0x7b);
}

#[test]
fn key_with_repeat() {
    let f = bind(
        MouseButton::Side11,
        key(UsbKbScanCode::KbA, vec![KeyMod::LControl, KeyMod::RAlt], 0x1234),
    );
    assert_eq!(f.generate_string(), [0x4a, 0x00, 0x0d, 0x04, 0x41, 0x04, 0x12, 0x34, 0x00]);
}

#[test]
fn hypershift_payload() {
    let f = bind(MouseButton::Side1, Action::Hypershift);
    assert_eq!(f.generate_string(), [0x40, 0x00, 0x0c, 0x01, 0x01, 0, 0, 0, 0]);
    assert_eq!(generate_message(&f)[89], 0x49);
}

#[test]
fn clutch_payload_is_big_endian_and_verbatim() {
    let f = bind(
        MouseButton::Mouse4,
        Action::Sensitivity(SensitivityFunction::Clutch(SensitivityClutch { x: 0x0102, y: 0xfffe })),
    );
    assert_eq!(f.generate_string(), [0x04, 0x00, 0x06, 0x05, 0x05, 0x01, 0x02, 0xff, 0xfe]);
    let f = bind(
        MouseButton::Mouse4,
        Action::Sensitivity(SensitivityFunction::Clutch(SensitivityClutch { x: 0, y: 99 })),
    );
    assert_eq!(f.generate_string(), [0x04, 0x00, 0x06, 0x05, 0x05, 0x00, 0x00, 0x00, 0x63]);
}

#[test]
fn stage_payloads() {
    let cases = [
        (SensitivityFunction::CycleUpStage, 0x07u8),
        (SensitivityFunction::CycleDownStage, 0x06),
        (SensitivityFunction::StageUp, 0x01),
        (SensitivityFunction::StageDown, 0x02),
    ];
    for (function, byte) in cases {
        let f = bind(MouseButton::SenStageUp, Action::Sensitivity(function));
        assert_eq!(f.generate_string(), [0x0b, 0x00, 0x01, byte, 0, 0, 0, 0, 0]);
    }
}

#[test]
fn stage_up_and_plain_mouse_button_differ_in_the_target_byte() {
    let stage = bind(MouseButton::Side2, Action::Sensitivity(SensitivityFunction::StageUp));
    let click = bind(MouseButton::Side2, mouse(MouseButton::LClick, 0));
    assert_eq!(stage.generate_string(), [0x41, 0x00, 0x01, 0x01, 0x00, 0, 0, 0, 0]);
    assert_eq!(click.generate_string(), [0x41, 0x00, 0x01, 0x01, 0x01, 0, 0, 0, 0]);
    assert_ne!(generate_message(&stage)[0..19], generate_message(&click)[0..19]);
}

#[test]
fn encoding_is_repeatable() {
    for f in samples() {
        let first = generate_message(&f);
        let second = generate_message(&f);
        let third = generate_message(&f.clone());
        assert_eq!(first, second);
        assert_eq!(first, third);
    }
}

#[test]
fn distinct_bindings_have_distinct_leading_bytes() {
    let all = samples();
    for (i, a) in all.iter().enumerate() {
        for (j, b) in all.iter().enumerate() {
            let same = generate_message(a)[0..19] == generate_message(b)[0..19];
            assert_eq!(same, i == j, "bindings {} and {}", i, j);
        }
    }
}

#[test]
fn modifier_order_and_repetition_mean_nothing() {
    let a = bind(
        MouseButton::Side3,
        key(UsbKbScanCode::KbF5, vec![KeyMod::LShift, KeyMod::RGui, KeyMod::LShift], 7),
    );
    let b = bind(MouseButton::Side3, key(UsbKbScanCode::KbF5, vec![KeyMod::RGui, KeyMod::LShift], 7));
    assert_eq!(generate_message(&a), generate_message(&b));
}

#[test]
fn checksum_is_fold_of_bytes_3_to_88() {
    for f in samples() {
        let m = generate_message(&f);
        assert_eq!(m[89], xor(&m[3..89]));
        assert_eq!(m[89], fold_range(&m, 3, 89));
        assert_eq!(m[89], 0x05 ^ xor(&f.generate_string()));
    }
}

#[test]
fn fold_range_of_chosen_bytes() {
    let mut bytes = [0u8; 91];
    bytes[0] = 0xff;
    bytes[5] = 0x0f;
    bytes[6] = 0xf1;
    bytes[90] = 0x80;
    assert_eq!(fold_range(&bytes, 0, 0), 0);
    assert_eq!(fold_range(&bytes, 5, 5), 0);
    assert_eq!(fold_range(&bytes, 5, 6), 0x0f);
    assert_eq!(fold_range(&bytes, 5, 7), 0xfe);
    assert_eq!(fold_range(&bytes, 0, 91), 0x81);
    assert_eq!(fold_range(&bytes, 1, 90), 0xfe);
}

#[test]
fn be_bytes_of_chosen_values() {
    assert_eq!(be_bytes(0), [0x00, 0x00]);
    assert_eq!(be_bytes(1000), [0x03, 0xe8]);
    assert_eq!(be_bytes(255), [0x00, 0xff]);
    assert_eq!(be_bytes(256), [0x01, 0x00]);
    assert_eq!(be_bytes(65535), [0xff, 0xff]);
    assert_eq!(be_bytes(30000), 30000u16.to_be_bytes());
}

#[test]
fn modifier_byte_of_chosen_lists() {
    assert_eq!(modifier_byte(&vec![]), 0x00);
    assert_eq!(modifier_byte(&vec![KeyMod::LShift, KeyMod::RShift]), 0x22);
    assert_eq!(modifier_byte(&vec![KeyMod::RShift, KeyMod::RAlt, KeyMod::RControl]), 0x70);
    assert_eq!(modifier_byte(&vec![KeyMod::LGui, KeyMod::LGui, KeyMod::LGui]), 0x08);
    assert_eq!(
        modifier_byte(&vec![
            KeyMod::LControl,
            KeyMod::LShift,
            KeyMod::LAlt,
            KeyMod::LGui,
            KeyMod::RControl,
            KeyMod::RShift,
            KeyMod::RAlt,
            KeyMod::RGui,
        ]),
        0xff
    );
}

#[test]
fn control_codes() {
    assert_eq!(MouseButton::LClick.code(), 0x01);
    assert_eq!(MouseButton::Mouse5.code(), 0x05);
    assert_eq!(MouseButton::UScroll.code(), 0x09);
    assert_eq!(MouseButton::SenStageDown.code(), 0x0c);
    assert_eq!(MouseButton::RScroll.code(), 0x35);
    assert_eq!(MouseButton::Side1.code(), 0x40);
    assert_eq!(MouseButton::Side12.code(), 0x4b);
    let mut known = 0;
    for code in 0..=255u8 {
        match MouseButton::from_code(code) {
            Ok(button) => {
                assert_eq!(button.code(), code);
                known += 1;
            },
            Err(e) => {
                assert_eq!(e, InvalidParameter { kind: ParameterKind::Control, value: code });
            },
        }
    }
    assert_eq!(known, 23);
    assert!(MouseButton::from_code(0x00).is_err());
    assert!(MouseButton::from_code(0x06).is_err());
    assert!(MouseButton::from_code(0x4c).is_err());
}

#[test]
fn scan_codes() {
    assert_eq!(UsbKbScanCode::Disabled.code(), 0x00);
    assert_eq!(UsbKbScanCode::KbA.code(), 0x04);
    assert_eq!(UsbKbScanCode::KbGrave.code(), 0x35);
    assert_eq!(UsbKbScanCode::KbExSel.code(), 0xa4);
    assert_eq!(UsbKbScanCode::KbLControl.code(), 0xe0);
    assert_eq!(UsbKbScanCode::KbRGUI.code(), 0xe7);
    let mut known = 0;
    for code in 0..=255u8 {
        let expected = code <= 0xa4 || (0xe0..=0xe7).contains(&code);
        match UsbKbScanCode::from_code(code) {
            Ok(k) => {
                assert!(expected);
                assert_eq!(k.code(), code);
                known += 1;
            },
            Err(e) => {
                assert!(!expected);
                assert_eq!(e, InvalidParameter { kind: ParameterKind::ScanCode, value: code });
            },
        }
    }
    assert_eq!(known, 173);
}

#[test]
fn modifier_codes() {
    assert_eq!(KeyMod::LControl.code(), 0x01);
    assert_eq!(KeyMod::LShift.code(), 0x02);
    assert_eq!(KeyMod::LAlt.code(), 0x04);
    assert_eq!(KeyMod::LGui.code(), 0x08);
    assert_eq!(KeyMod::RControl.code(), 0x10);
    assert_eq!(KeyMod::RShift.code(), 0x20);
    assert_eq!(KeyMod::RAlt.code(), 0x40);
    assert_eq!(KeyMod::RGui.code(), 0x80);
    for code in 0..=255u8 {
        match KeyMod::from_code(code) {
            Ok(m) => {
                assert_eq!(code.count_ones(), 1);
                assert_eq!(m.code(), code);
            },
            Err(e) => {
                assert_ne!(code.count_ones(), 1);
                assert_eq!(e, InvalidParameter { kind: ParameterKind::Modifier, value: code });
            },
        }
    }
}

#[test]
fn records_are_checked_when_built() {
    let config = ButtonConfig::from_codes(0x05, 1000).unwrap();
    assert_eq!(config, ButtonConfig { button: MouseButton::Mouse5, interval_ms: 1000 });
    assert_eq!(
        ButtonConfig::from_codes(0x06, 1000),
        Err(InvalidParameter { kind: ParameterKind::Control, value: 0x06 })
    );

    let press = KeyPress::from_codes(0x35, &vec![0x02, 0x20], 0).unwrap();
    assert_eq!(
        press,
        KeyPress {
            key: UsbKbScanCode::KbGrave,
            modifiers: vec![KeyMod::LShift, KeyMod::RShift],
            interval_ms: 0,
        }
    );
    assert_eq!(
        KeyPress::from_codes(0xa5, &vec![0x03], 0),
        Err(InvalidParameter { kind: ParameterKind::ScanCode, value: 0xa5 })
    );
    assert_eq!(
        KeyPress::from_codes(0x04, &vec![0x01, 0x03, 0x00], 0),
        Err(InvalidParameter { kind: ParameterKind::Modifier, value: 0x03 })
    );

    let function = Function::from_codes(0x4b, Action::Disable).unwrap();
    assert_eq!(function, bind(MouseButton::Side12, Action::Disable));
    assert_eq!(
        Function::from_codes(0xff, Action::Hypershift),
        Err(InvalidParameter { kind: ParameterKind::Control, value: 0xff })
    );
}
