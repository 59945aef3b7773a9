use motion_glove::custom_hid::{KeyboardReport, MediaKeyboardReport, MouseReport};
use motion_glove::definitions::PADDING_FREQ;
use motion_glove::flexes::{CLOSED, OPENED};
use motion_glove::sensors::{
    buttons_of, get_hid_report, padding_period, sample_or_neutral, translate, wrap_to_i8,
    RawMotionSample, ScaledMotion, LEFT_CLICK, RIGHT_CLICK,
};

const MOTION: ScaledMotion = ScaledMotion { move_x: 12, move_y: -7, wheel: 5, pan: -9 };

#[test]
fn wrap_keeps_values_in_range() {
    for v in -128i32..=127 {
        assert_eq!(wrap_to_i8(v) as i32, v);
    }
}

#[test]
fn wrap_wraps_beyond_the_range() {
    assert_eq!(wrap_to_i8(128), -128);
    assert_eq!(wrap_to_i8(200), -56);
    assert_eq!(wrap_to_i8(255), -1);
    assert_eq!(wrap_to_i8(256), 0);
    assert_eq!(wrap_to_i8(-129), 127);
    assert_eq!(wrap_to_i8(-256), 0);
    assert_eq!(wrap_to_i8(i32::MAX), -1);
    assert_eq!(wrap_to_i8(i32::MIN), 0);
}

#[test]
fn buttons_follow_index_and_middle() {
    assert_eq!((LEFT_CLICK, RIGHT_CLICK), (1, 2));
    assert_eq!(buttons_of(&[OPENED, OPENED, OPENED]), 0);
    assert_eq!(buttons_of(&[CLOSED, OPENED, OPENED]), 0);
    assert_eq!(buttons_of(&[OPENED, CLOSED, OPENED]), LEFT_CLICK);
    assert_eq!(buttons_of(&[OPENED, OPENED, CLOSED]), RIGHT_CLICK);
}

#[test]
fn middle_finger_overrides_index_finger() {
    assert_eq!(buttons_of(&[OPENED, CLOSED, CLOSED]), RIGHT_CLICK);
}

#[test]
fn without_tap_the_pointer_moves_and_never_scrolls() {
    let mut last = 0u64;
    let report = translate(MOTION, &[OPENED, CLOSED, OPENED], false, 1_000_000, 10, &mut last);
    assert_eq!(report.mouse, MouseReport { buttons: 1, x: 12, y: -7, wheel: 0, pan: 0 });
    assert_eq!(last, 0);
}

#[test]
fn without_tap_the_timer_is_not_read() {
    let mut last = 500u64;
    let report = translate(MOTION, &[OPENED; 3], false, 3, 10, &mut last);
    assert_eq!((report.mouse.x, report.mouse.y), (12, -7));
    assert_eq!(last, 500);
}

#[test]
fn with_tap_the_pointer_rests() {
    let mut last = 0u64;
    let due = translate(MOTION, &[OPENED; 3], true, 10, 10, &mut last);
    assert_eq!(due.mouse, MouseReport { buttons: 0, x: 0, y: 0, wheel: 5, pan: -9 });
    assert_eq!(last, 10);
    let early = translate(MOTION, &[OPENED; 3], true, 19, 10, &mut last);
    assert_eq!(early.mouse, MouseReport { buttons: 0, x: 0, y: 0, wheel: 0, pan: 0 });
    assert_eq!(last, 10);
}

#[test]
fn timer_ahead_of_the_clock_is_not_due() {
    let mut last = 500u64;
    let report = translate(MOTION, &[OPENED; 3], true, 3, 10, &mut last);
    assert_eq!(report.mouse, MouseReport { buttons: 0, x: 0, y: 0, wheel: 0, pan: 0 });
    assert_eq!(last, 500);
}

#[test]
fn timer_advances_by_one_period_not_to_now() {
    let mut last = 100u64;
    translate(MOTION, &[OPENED; 3], true, 137, 10, &mut last);
    assert_eq!(last, 110);
}

#[test]
fn movement_beyond_the_range_wraps() {
    let wide = ScaledMotion { move_x: 130, move_y: -130, wheel: 300, pan: -300 };
    let mut last = 0u64;
    let moved = translate(wide, &[OPENED; 3], false, 0, 10, &mut last);
    assert_eq!((moved.mouse.x, moved.mouse.y), (-126, 126));
    let scrolled = translate(wide, &[OPENED; 3], true, 10, 10, &mut last);
    assert_eq!((scrolled.mouse.wheel, scrolled.mouse.pan), (44, -44));
}

#[test]
fn keyboard_and_media_stay_idle() {
    let mut last = 0u64;
    let report = translate(MOTION, &[CLOSED; 3], true, 50, 10, &mut last);
    assert_eq!(
        report.keyboard,
        KeyboardReport { modifier: 0, reserved: 0, leds: 0, keycodes: [0; 6] }
    );
    assert_eq!(report.media, MediaKeyboardReport { usage_id: 0 });
    assert_eq!(report.mouse.buttons, RIGHT_CLICK);
}

#[test]
fn scrolls_never_outrun_the_clock() {
    let period = 10u64;
    let start = 1_000u64;
    let mut last = start;
    let mut scrolls = 0u64;
    let mut now = start;
    for tick in 0..500u64 {
        now = start + tick;
        let tap = tick % 7 != 3;
        let report = translate(MOTION, &[OPENED; 3], tap, now, period, &mut last);
        if !tap {
            assert_eq!((report.mouse.wheel, report.mouse.pan), (0, 0));
        } else {
            assert_eq!((report.mouse.x, report.mouse.y), (0, 0));
            if report.mouse.wheel != 0 || report.mouse.pan != 0 {
                scrolls += 1;
            }
        }
        assert_eq!(last, start + scrolls * period);
        assert!(last <= now);
        assert!(scrolls * period <= now - start);
    }
    assert_eq!(scrolls, 49);
    assert!(scrolls * period <= now - start);
}

#[test]
fn steady_clock_scrolls_once_per_period() {
    let period = 10u64;
    let mut last = 0u64;
    let mut scroll_ticks = Vec::new();
    for now in 0..=45u64 {
        let report = translate(MOTION, &[OPENED; 3], true, now, period, &mut last);
        if report.mouse.wheel != 0 {
            scroll_ticks.push(now);
        }
    }
    assert_eq!(scroll_ticks, vec![10, 20, 30, 40]);
}

#[test]
fn backlog_is_worked_off_tick_by_tick() {
    let period = 10u64;
    let mut last = 0u64;
    let first = translate(MOTION, &[OPENED; 3], true, 19, period, &mut last);
    let second = translate(MOTION, &[OPENED; 3], true, 20, period, &mut last);
    assert_eq!((first.mouse.wheel, second.mouse.wheel), (5, 5));
    assert_eq!(last, 20);
}

#[test]
fn padding_period_is_one_cycle_of_the_time_base() {
    let period = padding_period();
    assert_eq!(period, embassy_time::Duration::from_hz(PADDING_FREQ).as_ticks());
    assert_eq!(period, (embassy_time::TICK_HZ + PADDING_FREQ / 2) / PADDING_FREQ);
    assert_ne!(period, PADDING_FREQ);
}

#[test]
fn report_uses_the_padding_period() {
    let period = padding_period();
    let mut last = 0u64;
    let early = get_hid_report(MOTION, &[OPENED; 3], true, period - 1, &mut last);
    assert_eq!((early.mouse.wheel, early.mouse.pan), (0, 0));
    assert_eq!(last, 0);
    let due = get_hid_report(MOTION, &[OPENED; 3], true, period, &mut last);
    assert_eq!((due.mouse.wheel, due.mouse.pan), (5, -9));
    assert_eq!(last, period);
    assert_eq!(due.media.usage_id, u16::from(usbd_hid::descriptor::MediaKey::Zero));
    let moved = get_hid_report(MOTION, &[OPENED, CLOSED, CLOSED], false, period, &mut last);
    assert_eq!(moved.mouse, MouseReport { buttons: 2, x: 12, y: -7, wheel: 0, pan: 0 });
}

#[test]
fn failed_sample_counts_as_neutral() {
    let sample = RawMotionSample { accel: (1, 2, 1000), gyro: (-3, 4, 5) };
    let ok: Result<RawMotionSample, ()> = Ok(sample);
    let failed: Result<RawMotionSample, ()> = Err(());
    assert_eq!(sample_or_neutral(ok), sample);
    assert_eq!(sample_or_neutral(failed), RawMotionSample::neutral());
    assert_eq!(RawMotionSample::neutral(), RawMotionSample { accel: (0, 0, 0), gyro: (0, 0, 0) });
}

#[test]
fn pitch_terms_of_a_level_sample() {
    let level = RawMotionSample { accel: (0, 0, 1000), gyro: (0, 0, 0) };
    assert_eq!(level.pitch_terms(), (0, 1_000_000));
    let tilted = RawMotionSample { accel: (300, -400, 500), gyro: (0, 0, 0) };
    assert_eq!(tilted.pitch_terms(), (-300, 410_000));
}

#[test]
fn pitch_terms_do_not_overflow_at_the_extremes() {
    let extreme = RawMotionSample { accel: (i16::MIN, i16::MIN, i16::MIN), gyro: (0, 0, 0) };
    assert_eq!(extreme.pitch_terms(), (32_768, 2_147_483_648));
}
