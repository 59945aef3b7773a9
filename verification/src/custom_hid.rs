//! HID instructions and their 16-byte big-endian wire frame.

use vstd::prelude::*;

verus! {

/// Length of one wire frame in bytes.
pub const FRAME_LEN: usize = 16;

/// One wire frame.
pub type HidInstructionArr = [u8; 16];

/// Relative pointer report: button bitmask, movement and scroll deltas.
#[derive(Clone, Copy, Debug, PartialEq, Eq)]
pub struct MouseReport {
    pub buttons: u8,
    pub x: i8,
    pub y: i8,
    pub wheel: i8,
    pub pan: i8,
}

/// Boot keyboard report.
#[derive(Clone, Copy, Debug, PartialEq, Eq)]
pub struct KeyboardReport {
    pub modifier: u8,
    pub reserved: u8,
    pub leds: u8,
    pub keycodes: [u8; 6],
}

/// Consumer-control (media key) report.
#[derive(Clone, Copy, Debug, PartialEq, Eq)]
pub struct MediaKeyboardReport {
    pub usage_id: u16,
}

/// What the glove asks the dongle to report to the host in one tick.
#[derive(Clone, Copy, Debug, PartialEq, Eq)]
pub struct HidInstruction {
    pub mouse: MouseReport,
    pub keyboard: KeyboardReport,
    pub media: MediaKeyboardReport,
}

/// The byte that carries a signed 8-bit value in two's complement.
pub open spec fn byte_of_i8(v: i8) -> u8 {
    if v >= 0 {
        v as u8
    } else {
        (v + 256) as u8
    }
}

/// The signed 8-bit value that a byte carries in two's complement.
pub open spec fn i8_of_byte(b: u8) -> i8 {
    if b < 128 {
        b as i8
    } else {
        (b - 256) as i8
    }
}

/// The wire frame of an instruction, byte by byte.
pub open spec fn frame_of(x: HidInstruction) -> Seq<u8> {
    seq![
        x.mouse.buttons,
        byte_of_i8(x.mouse.x),
        byte_of_i8(x.mouse.y),
        byte_of_i8(x.mouse.wheel),
        byte_of_i8(x.mouse.pan),
        x.keyboard.modifier,
        x.keyboard.reserved,
        x.keyboard.leds,
        x.keyboard.keycodes[0],
        x.keyboard.keycodes[1],
        x.keyboard.keycodes[2],
        x.keyboard.keycodes[3],
        x.keyboard.keycodes[4],
        x.keyboard.keycodes[5],
        (x.media.usage_id / 256) as u8,
        (x.media.usage_id % 256) as u8,
    ]
}

/// The instruction that a 16-byte wire frame carries.
pub open spec fn instruction_of(frame: Seq<u8>) -> HidInstruction {
    HidInstruction {
        mouse: MouseReport {
            buttons: frame[0],
            x: i8_of_byte(frame[1]),
            y: i8_of_byte(frame[2]),
            wheel: i8_of_byte(frame[3]),
            pan: i8_of_byte(frame[4]),
        },
        keyboard: KeyboardReport {
            modifier: frame[5],
            reserved: frame[6],
            leds: frame[7],
            keycodes: [frame[8], frame[9], frame[10], frame[11], frame[12], frame[13]],
        },
        media: MediaKeyboardReport { usage_id: (frame[14] * 256 + frame[15]) as u16 },
    }
}

/// Usage id of `usbd_hid::descriptor::MediaKey::Zero`, the consumer-control
/// code for "no key". The enum gives that variant the value 0 and converts
/// to `u16` by its value; that the result is 0 is taken from the enum's
/// declaration, not proved.
#[verifier::external_body]
pub(crate) fn media_key_zero() -> (usage_id: u16)
    ensures
        usage_id == 0,
{
    usbd_hid::descriptor::MediaKey::Zero.into()
}

fn i8_to_byte(v: i8) -> (b: u8)
    ensures
        b == byte_of_i8(v),
{
    if v >= 0 {
        v as u8
    } else {
        (v as i16 + 256) as u8
    }
}

fn byte_to_i8(b: u8) -> (v: i8)
    ensures
        v == i8_of_byte(b),
{
    if b < 128 {
        b as i8
    } else {
        (b as i16 - 256) as i8
    }
}

impl HidInstruction {
    /// Decodes one wire frame.
    pub fn from_be_bytes(data: HidInstructionArr) -> (x: HidInstruction)
        ensures
            x == instruction_of(data@),
    {
        let mouse = MouseReport {
            buttons: data[0],
            x: byte_to_i8(data[1]),
            y: byte_to_i8(data[2]),
            wheel: byte_to_i8(data[3]),
            pan: byte_to_i8(data[4]),
        };
        let keyboard = KeyboardReport {
            modifier: data[5],
            reserved: data[6],
            leds: data[7],
            keycodes: [data[8], data[9], data[10], data[11], data[12], data[13]],
        };
        let media = MediaKeyboardReport { usage_id: data[14] as u16 * 256 + data[15] as u16 };
        let x = HidInstruction { mouse, keyboard, media };
        assert(x.keyboard.keycodes@ =~= instruction_of(data@).keyboard.keycodes@);
        x
    }

    /// Encodes the instruction as one wire frame.
    pub fn to_be_bytes(&self) -> (frame: HidInstructionArr)
        ensures
            frame@ == frame_of(*self),
    {
        let k = self.keyboard.keycodes;
        let frame = [
            self.mouse.buttons,
            i8_to_byte(self.mouse.x),
            i8_to_byte(self.mouse.y),
            i8_to_byte(self.mouse.wheel),
            i8_to_byte(self.mouse.pan),
            self.keyboard.modifier,
            self.keyboard.reserved,
            self.keyboard.leds,
            k[0],
            k[1],
            k[2],
            k[3],
            k[4],
            k[5],
            (self.media.usage_id / 256) as u8,
            (self.media.usage_id % 256) as u8,
        ];
        assert(frame@ =~= frame_of(*self));
        frame
    }
}

/// Decoding undoes encoding: every instruction is the one that its own
/// wire frame carries.
pub proof fn lemma_decode_encode(x: HidInstruction)
    ensures
        frame_of(x).len() == 16,
        instruction_of(frame_of(x)) == x,
{
    let y = instruction_of(frame_of(x));
    assert(y.keyboard.keycodes =~= x.keyboard.keycodes);
}

/// Encoding undoes decoding: every 16-byte frame is the wire frame of the
/// instruction it carries, so no two frames carry the same instruction.
pub proof fn lemma_encode_decode(frame: Seq<u8>)
    requires
        frame.len() == 16,
    ensures
        frame_of(instruction_of(frame)) == frame,
{
    assert(frame_of(instruction_of(frame)) =~= frame);
}

} // verus!
