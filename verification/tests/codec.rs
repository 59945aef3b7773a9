use motion_glove::custom_hid::{
    HidInstruction, HidInstructionArr, KeyboardReport, MediaKeyboardReport, MouseReport, FRAME_LEN,
};

fn sample() -> HidInstruction {
    HidInstruction {
        mouse: MouseReport { buttons: 3, x: -1, y: 127, wheel: -128, pan: 42 },
        keyboard: KeyboardReport {
            modifier: 0x02,
            reserved: 0x11,
            leds: 0x05,
            keycodes: [4, 5, 6, 7, 8, 9],
        },
        media: MediaKeyboardReport { usage_id: 0x01CD },
    }
}

#[test]
fn frame_is_sixteen_bytes() {
    assert_eq!(FRAME_LEN, 16);
    assert_eq!(sample().to_be_bytes().len(), 16);
}

#[test]
fn encode_lays_fields_out_in_order() {
    let frame = sample().to_be_bytes();
    let expected: HidInstructionArr =
        [3, 0xFF, 0x7F, 0x80, 42, 0x02, 0x11, 0x05, 4, 5, 6, 7, 8, 9, 0x01, 0xCD];
    assert_eq!(frame, expected);
}

#[test]
fn usage_id_is_big_endian() {
    let mut x = sample();
    x.media.usage_id = 0x00B0;
    let frame = x.to_be_bytes();
    assert_eq!((frame[14], frame[15]), (0x00, 0xB0));
    x.media.usage_id = 0xFFFE;
    let frame = x.to_be_bytes();
    assert_eq!((frame[14], frame[15]), (0xFF, 0xFE));
}

#[test]
fn decode_reads_signed_fields_in_twos_complement() {
    let frame: HidInstructionArr = [1, 0x80, 0xFF, 0x7F, 0x01, 0, 0, 0, 0, 0, 0, 0, 0, 0, 0x12, 0x34];
    let x = HidInstruction::from_be_bytes(frame);
    assert_eq!(x.mouse, MouseReport { buttons: 1, x: -128, y: -1, wheel: 127, pan: 1 });
    assert_eq!(x.media.usage_id, 0x1234);
}

#[test]
fn decode_of_encode_is_identity() {
    let x = sample();
    assert_eq!(HidInstruction::from_be_bytes(x.to_be_bytes()), x);
}

#[test]
fn decode_of_encode_is_identity_on_every_signed_value() {
    for v in i8::MIN..=i8::MAX {
        let x = HidInstruction {
            mouse: MouseReport { buttons: v as u8, x: v, y: v.wrapping_neg(), wheel: v, pan: v.wrapping_add(1) },
            keyboard: KeyboardReport { modifier: 0, reserved: 0, leds: 0, keycodes: [v as u8, 0, 1, 2, 3, 255] },
            media: MediaKeyboardReport { usage_id: (v as u8 as u16) * 257 },
        };
        assert_eq!(HidInstruction::from_be_bytes(x.to_be_bytes()), x);
    }
}

#[test]
fn encode_of_decode_is_identity() {
    let mut frame: HidInstructionArr = [0; 16];
    for seed in 0u16..512 {
        for (i, b) in frame.iter_mut().enumerate() {
            *b = (seed.wrapping_mul(31).wrapping_add(i as u16 * 17) % 256) as u8;
        }
        assert_eq!(HidInstruction::from_be_bytes(frame).to_be_bytes(), frame);
    }
}

#[test]
fn decode_pointer_and_key_frame() {
    let frame: HidInstructionArr = [0, 5, 3, 0, 0, 0, 0, 0, 4, 0, 0, 0, 0, 0, 0, 0];
    let x = HidInstruction::from_be_bytes(frame);
    assert_eq!(x.mouse, MouseReport { buttons: 0, x: 5, y: 3, wheel: 0, pan: 0 });
    assert_eq!(x.keyboard.keycodes[0], 4);
    assert_eq!(x.keyboard.keycodes, [4, 0, 0, 0, 0, 0]);
    assert_eq!((x.keyboard.modifier, x.keyboard.reserved, x.keyboard.leds), (0, 0, 0));
    assert_eq!(x.media.usage_id, 0);
}
