//! Gesture translation: from scaled tilt velocities, finger states and the
//! tap signal to one HID instruction per tick.

use vstd::prelude::*;
use crate::custom_hid::{media_key_zero, HidInstruction, KeyboardReport, MediaKeyboardReport, MouseReport};
use crate::definitions::PADDING_FREQ;
use crate::flexes::{FingerStates, CLOSED, INDEX, MIDDLE};

verus! {

/// Button bit of a left click.
pub const LEFT_CLICK: u8 = 1;

/// Button bit of a right click.
pub const RIGHT_CLICK: u8 = 2;

/// One inertial sample: acceleration in milli-g and turn rate in degrees per
/// second, each as (x, y, z).
#[derive(Clone, Copy, Debug, PartialEq, Eq)]
pub struct RawMotionSample {
    pub accel: (i16, i16, i16),
    pub gyro: (i16, i16, i16),
}

/// Tilt velocities after sensitivity scaling and rounding, one candidate
/// value per mouse field. Values outside the signed 8-bit range wrap when a
/// report is made of them.
#[derive(Clone, Copy, Debug, PartialEq, Eq)]
pub struct ScaledMotion {
    pub move_x: i32,
    pub move_y: i32,
    pub wheel: i32,
    pub pan: i32,
}

/// The low 8 bits of `v`, read as a signed value.
pub open spec fn wrapped_i8(v: i32) -> i8 {
    ((v + 128) % 256 - 128) as i8
}

/// Button mask of the finger states: a closed middle finger is a right
/// click and wins over a closed index finger, which is a left click.
pub open spec fn button_mask(states: FingerStates) -> u8 {
    if states[MIDDLE as int] == CLOSED {
        RIGHT_CLICK
    } else if states[INDEX as int] == CLOSED {
        LEFT_CLICK
    } else {
        0
    }
}

/// Whether a scroll report is due: a padding period or more has passed since
/// the timer's mark.
pub open spec fn padding_due(now: u64, last_padding: u64, period: u64) -> bool {
    now - last_padding >= period
}

/// The padding timer after a tick: a scroll report moves the mark on by
/// exactly one period, and nothing else moves it.
pub open spec fn padding_after(tap: bool, now: u64, period: u64, last_padding: u64) -> u64 {
    if tap && padding_due(now, last_padding, period) {
        (last_padding + period) as u64
    } else {
        last_padding
    }
}

/// The mouse report of a tick.
pub open spec fn mouse_of(
    motion: ScaledMotion,
    states: FingerStates,
    tap: bool,
    now: u64,
    period: u64,
    last_padding: u64,
) -> MouseReport {
    let scroll = tap && padding_due(now, last_padding, period);
    MouseReport {
        buttons: button_mask(states),
        x: if tap { 0i8 } else { wrapped_i8(motion.move_x) },
        y: if tap { 0i8 } else { wrapped_i8(motion.move_y) },
        wheel: if scroll { wrapped_i8(motion.wheel) } else { 0i8 },
        pan: if scroll { wrapped_i8(motion.pan) } else { 0i8 },
    }
}

/// The instruction of a tick: the mouse report, no key and no media key.
pub open spec fn translated(
    motion: ScaledMotion,
    states: FingerStates,
    tap: bool,
    now: u64,
    period: u64,
    last_padding: u64,
) -> HidInstruction {
    HidInstruction {
        mouse: mouse_of(motion, states, tap, now, period, last_padding),
        keyboard: KeyboardReport { modifier: 0, reserved: 0, leds: 0, keycodes: [0u8, 0u8, 0u8, 0u8, 0u8, 0u8] },
        media: MediaKeyboardReport { usage_id: 0 },
    }
}

/// Ticks of one cycle at `hz`, as the time base counts them.
pub uninterp spec fn cycle_ticks(hz: u64) -> u64;

/// `embassy_time::Duration::from_hz(hz)`, read back with `as_ticks`: the
/// length of one cycle at `hz`, rounded to the time base's ticks. It is a
/// function of `hz` and of the tick rate the time base was built with, and
/// divides by `hz`. The result is named, not computed here.
#[verifier::external_body]
fn ticks_per_cycle(hz: u64) -> (ticks: u64)
    requires
        hz > 0,
    ensures
        ticks == cycle_ticks(hz),
{
    embassy_time::Duration::from_hz(hz).as_ticks()
}

/// Truncates to the low 8 bits, as a report field holds them.
pub fn wrap_to_i8(v: i32) -> (w: i8)
    ensures
        w == wrapped_i8(v),
{
    let w = #[verifier::truncate] (v as i8);
    assert(v as i8 == ((v + 128) % 256 - 128) as i8) by (bit_vector);
    w
}

/// The button mask of the finger states.
pub fn buttons_of(states: &FingerStates) -> (mask: u8)
    ensures
        mask == button_mask(*states),
{
    let mut mask: u8 = 0;
    if states[INDEX] == CLOSED {
        mask = LEFT_CLICK;
    }
    if states[MIDDLE] == CLOSED {
        mask = RIGHT_CLICK;
    }
    mask
}

/// Length of one padding period in ticks of the time base.
pub fn padding_period() -> (period: u64)
    ensures
        period == cycle_ticks(PADDING_FREQ),
{
    ticks_per_cycle(PADDING_FREQ)
}

/// Makes the instruction of one tick, with scroll reports spaced by
/// `period` ticks.
///
/// Without the tap the pointer moves and never scrolls. With the tap the
/// pointer rests, and a scroll report goes out only when a period has passed
/// since `last_padding`, which then moves on by exactly one period. A
/// timer that lies ahead of `now` is not due.
pub fn translate(
    motion: ScaledMotion,
    finger_states: &FingerStates,
    tap: bool,
    now: u64,
    period: u64,
    last_padding: &mut u64,
) -> (report: HidInstruction)
    ensures
        report == translated(motion, *finger_states, tap, now, period, *old(last_padding)),
        *final(last_padding) == padding_after(tap, now, period, *old(last_padding)),
        tap ==> report.mouse.x == 0 && report.mouse.y == 0,
        !tap ==> report.mouse.wheel == 0 && report.mouse.pan == 0,
        report.mouse.wheel != 0 || report.mouse.pan != 0 ==> tap && padding_due(
            now,
            *old(last_padding),
            period,
        ),
        *old(last_padding) <= now ==> *final(last_padding) <= now,
{
    let mut mouse = MouseReport { buttons: 0, x: 0, y: 0, wheel: 0, pan: 0 };
    if tap {
        if now >= *last_padding && now - *last_padding >= period {
            mouse.wheel = wrap_to_i8(motion.wheel);
            mouse.pan = wrap_to_i8(motion.pan);
            *last_padding = last_padding.saturating_add(period);
        }
    } else {
        mouse.x = wrap_to_i8(motion.move_x);
        mouse.y = wrap_to_i8(motion.move_y);
    }
    mouse.buttons = buttons_of(finger_states);
    let keyboard = KeyboardReport { modifier: 0, reserved: 0, leds: 0, keycodes: [0, 0, 0, 0, 0, 0] };
    let media = MediaKeyboardReport { usage_id: media_key_zero() };
    let report = HidInstruction { mouse, keyboard, media };
    assert(report.keyboard.keycodes =~= translated(
        motion,
        *finger_states,
        tap,
        now,
        period,
        *old(last_padding),
    ).keyboard.keycodes);
    report
}

/// Makes the instruction of one tick, with scroll reports spaced by the
/// padding period.
pub fn get_hid_report(
    motion: ScaledMotion,
    finger_states: &FingerStates,
    tap: bool,
    now: u64,
    last_padding: &mut u64,
) -> (report: HidInstruction)
    ensures
        report == translated(
            motion,
            *finger_states,
            tap,
            now,
            cycle_ticks(PADDING_FREQ),
            *old(last_padding),
        ),
        *final(last_padding) == padding_after(
            tap,
            now,
            cycle_ticks(PADDING_FREQ),
            *old(last_padding),
        ),
        tap ==> report.mouse.x == 0 && report.mouse.y == 0,
        !tap ==> report.mouse.wheel == 0 && report.mouse.pan == 0,
        *old(last_padding) <= now ==> *final(last_padding) <= now,
{
    let period = padding_period();
    translate(motion, finger_states, tap, now, period, last_padding)
}

impl RawMotionSample {
    /// The sample of a unit at rest in free fall: all zeros. It stands in for
    /// a sample that could not be read.
    pub fn neutral() -> (sample: RawMotionSample)
        ensures
            sample == (RawMotionSample { accel: (0i16, 0i16, 0i16), gyro: (0i16, 0i16, 0i16) }),
    {
        RawMotionSample { accel: (0, 0, 0), gyro: (0, 0, 0) }
    }

    /// The two legs of the pitch angle's triangle: the acceleration along x,
    /// negated, and the squared length of the acceleration in the y-z plane.
    /// Neither overflows on any sample.
    pub fn pitch_terms(&self) -> (legs: (i32, u32))
        ensures
            legs.0 == -self.accel.0,
            legs.1 == self.accel.1 * self.accel.1 + self.accel.2 * self.accel.2,
    {
        let x: i32 = self.accel.0 as i32;
        let y: i32 = self.accel.1 as i32;
        let z: i32 = self.accel.2 as i32;
        assert(0 <= y * y <= 0x4000_0000) by (nonlinear_arith)
            requires
                -0x8000 <= y <= 0x7fff,
        ;
        assert(0 <= z * z <= 0x4000_0000) by (nonlinear_arith)
            requires
                -0x8000 <= z <= 0x7fff,
        ;
        let yy: u32 = (y * y) as u32;
        let zz: u32 = (z * z) as u32;
        (-x, yy + zz)
    }
}

/// The sample to work with after a read attempt: a failed read counts as the
/// neutral sample, so that the pipeline goes on.
pub fn sample_or_neutral<E>(read: Result<RawMotionSample, E>) -> (sample: RawMotionSample)
    ensures
        read matches Ok(s) ==> sample == s,
        read is Err ==> sample == (RawMotionSample {
            accel: (0i16, 0i16, 0i16),
            gyro: (0i16, 0i16, 0i16),
        }),
{
    match read {
        Ok(s) => s,
        Err(_) => RawMotionSample::neutral(),
    }
}

/// What the padding timer sees of one tick: the tap signal and the clock.
pub struct Tick {
    pub tap: bool,
    pub now: u64,
}

/// The padding timer after a run of ticks, taken in order.
pub open spec fn timer_after_run(last_padding: u64, period: u64, ticks: Seq<Tick>) -> u64
    decreases ticks.len(),
{
    if ticks.len() == 0 {
        last_padding
    } else {
        let before = timer_after_run(last_padding, period, ticks.drop_last());
        padding_after(ticks.last().tap, ticks.last().now, period, before)
    }
}

/// How many ticks of a run let a scroll report out.
pub open spec fn scrolls_in_run(last_padding: u64, period: u64, ticks: Seq<Tick>) -> nat
    decreases ticks.len(),
{
    if ticks.len() == 0 {
        0
    } else {
        let before = timer_after_run(last_padding, period, ticks.drop_last());
        let earlier = scrolls_in_run(last_padding, period, ticks.drop_last());
        if ticks.last().tap && padding_due(ticks.last().now, before, period) {
            earlier + 1
        } else {
            earlier
        }
    }
}

/// Rate limit of scrolling. Over a run of ticks on a clock that does not go
/// back, every scroll report moves the timer's mark on by exactly one period,
/// and once a report has gone out the mark never passes the clock: the
/// scroll reports since the mark, times the period, fit into the time that
/// has passed since the mark.
pub proof fn lemma_scroll_rate_limit(last_padding: u64, period: u64, ticks: Seq<Tick>)
    requires
        forall|i: int, j: int|
            0 <= i <= j < ticks.len() ==> (#[trigger] ticks[i]).now <= (#[trigger] ticks[j]).now,
    ensures
        timer_after_run(last_padding, period, ticks) == last_padding + scrolls_in_run(
            last_padding,
            period,
            ticks,
        ) * period,
        scrolls_in_run(last_padding, period, ticks) > 0 ==> scrolls_in_run(
            last_padding,
            period,
            ticks,
        ) * period <= ticks.last().now - last_padding,
    decreases ticks.len(),
{
    if ticks.len() > 0 {
        let head = ticks.drop_last();
        lemma_scroll_rate_limit(last_padding, period, head);
        let before = timer_after_run(last_padding, period, head);
        let earlier = scrolls_in_run(last_padding, period, head);
        if earlier > 0 {
            assert(head.last() == ticks[ticks.len() - 2]);
            assert(before <= ticks.last().now);
        } else {
            assert(earlier * period == 0) by (nonlinear_arith)
                requires
                    earlier == 0,
            ;
        }
        assert((earlier + 1) * period == earlier * period + period) by (nonlinear_arith);
    } else {
        assert(scrolls_in_run(last_padding, period, ticks) * period == 0) by (nonlinear_arith)
            requires
                scrolls_in_run(last_padding, period, ticks) == 0,
        ;
    }
}

} // verus!
