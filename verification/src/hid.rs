//! HID replay: the reports that one instruction becomes on the three
//! emulated interfaces, in the order in which they are written.

use vstd::prelude::*;
use crate::custom_hid::{media_key_zero, HidInstruction, KeyboardReport, MediaKeyboardReport, MouseReport};

verus! {

/// Reports written per instruction.
pub const REPORTS_PER_INSTRUCTION: usize = 5;

/// One report, tagged with the interface that it goes to.
#[derive(Clone, Copy, Debug, PartialEq, Eq)]
pub enum HidReport {
    Mouse(MouseReport),
    Keyboard(KeyboardReport),
    Media(MediaKeyboardReport),
}

/// The keyboard report with no key held.
pub open spec fn released_keyboard() -> KeyboardReport {
    KeyboardReport { modifier: 0, reserved: 0, leds: 0, keycodes: [0u8, 0u8, 0u8, 0u8, 0u8, 0u8] }
}

/// The media report with no key held.
pub open spec fn released_media() -> MediaKeyboardReport {
    MediaKeyboardReport { usage_id: 0 }
}

/// The reports of one instruction: the pointer, then the keys and at once
/// their release, then the media key and at once its release.
pub open spec fn replay_of(x: HidInstruction) -> Seq<HidReport> {
    seq![
        HidReport::Mouse(x.mouse),
        HidReport::Keyboard(x.keyboard),
        HidReport::Keyboard(released_keyboard()),
        HidReport::Media(x.media),
        HidReport::Media(released_media()),
    ]
}

/// The reports of a run of instructions, one instruction after the other.
pub open spec fn replay_of_run(run: Seq<HidInstruction>) -> Seq<HidReport>
    decreases run.len(),
{
    if run.len() == 0 {
        Seq::empty()
    } else {
        replay_of_run(run.drop_last()) + replay_of(run.last())
    }
}

/// The keyboard report that releases every key.
pub fn release_keyboard() -> (report: KeyboardReport)
    ensures
        report == released_keyboard(),
{
    let report = KeyboardReport { modifier: 0, reserved: 0, leds: 0, keycodes: [0, 0, 0, 0, 0, 0] };
    assert(report.keycodes =~= released_keyboard().keycodes);
    report
}

/// The media report that releases the media key.
pub fn release_media() -> (report: MediaKeyboardReport)
    ensures
        report == released_media(),
{
    MediaKeyboardReport { usage_id: media_key_zero() }
}

/// The five reports to write for one instruction, in order. Each is written
/// whether or not the one before it went through.
pub fn replay_reports(instruction: &HidInstruction) -> (reports: [HidReport; 5])
    ensures
        reports@ == replay_of(*instruction),
{
    let reports = [
        HidReport::Mouse(instruction.mouse),
        HidReport::Keyboard(instruction.keyboard),
        HidReport::Keyboard(release_keyboard()),
        HidReport::Media(instruction.media),
        HidReport::Media(release_media()),
    ];
    assert(reports@ =~= replay_of(*instruction));
    reports
}

/// No key stays held. In the reports of any run of instructions, the keys of
/// the `i`-th instruction are followed at once by the release of all keys,
/// and its media key by the release of the media key, before anything of
/// the next instruction is written.
pub proof fn lemma_every_key_is_released(run: Seq<HidInstruction>, i: int)
    requires
        0 <= i < run.len(),
    ensures
        replay_of_run(run).len() == 5 * run.len(),
        replay_of_run(run)[5 * i] == HidReport::Mouse(run[i].mouse),
        replay_of_run(run)[5 * i + 1] == HidReport::Keyboard(run[i].keyboard),
        replay_of_run(run)[5 * i + 2] == HidReport::Keyboard(released_keyboard()),
        replay_of_run(run)[5 * i + 3] == HidReport::Media(run[i].media),
        replay_of_run(run)[5 * i + 4] == HidReport::Media(released_media()),
    decreases run.len(),
{
    lemma_replay_len(run.drop_last());
    if i < run.len() - 1 {
        lemma_every_key_is_released(run.drop_last(), i);
    }
}

/// Five reports per instruction.
pub proof fn lemma_replay_len(run: Seq<HidInstruction>)
    ensures
        replay_of_run(run).len() == 5 * run.len(),
    decreases run.len(),
{
    if run.len() > 0 {
        lemma_replay_len(run.drop_last());
    }
}

} // verus!
