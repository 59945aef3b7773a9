//! Flex-sensor readings and the Schmitt-trigger debouncer that turns them
//! into per-finger open/closed states.

use vstd::prelude::*;

verus! {

/// Index of the thumb in readings and states.
pub const THUMB: usize = 0;

/// Index of the index finger in readings and states.
pub const INDEX: usize = 1;

/// Index of the middle finger in readings and states.
pub const MIDDLE: usize = 2;

/// Raw ADC codes, one per finger.
pub type FingerReadings = [u16; 3];

/// Debounced state, one per finger.
pub type FingerStates = [bool; 3];

/// State of a stretched finger.
pub const OPENED: bool = false;

/// State of a bent finger.
pub const CLOSED: bool = true;

/// Readings at or above this band open the finger.
pub const SUP_BAND: u16 = 900;

/// Readings at or below this band close the finger.
pub const LOW_BAND: u16 = 500;

/// State of one finger after a reading: the bands decide, and between them
/// the previous state stays.
pub open spec fn debounced(reading: u16, prev: bool) -> bool {
    if reading >= SUP_BAND {
        OPENED
    } else if reading <= LOW_BAND {
        CLOSED
    } else {
        prev
    }
}

/// A reading strictly between the two bands, where the previous state stays.
pub open spec fn in_hysteresis_band(reading: u16) -> bool {
    LOW_BAND < reading < SUP_BAND
}

/// State of one finger after a run of readings, taken in order.
pub open spec fn debounced_run(init: bool, readings: Seq<u16>) -> bool
    decreases readings.len(),
{
    if readings.len() == 0 {
        init
    } else {
        debounced(readings.last(), debounced_run(init, readings.drop_last()))
    }
}

/// Debounces one reading of one finger.
pub fn debounce(reading: u16, prev: bool) -> (state: bool)
    ensures
        state == debounced(reading, prev),
{
    if reading >= SUP_BAND {
        OPENED
    } else if reading <= LOW_BAND {
        CLOSED
    } else {
        prev
    }
}

/// All fingers stretched: the state before the first reading.
pub fn initial_finger_states() -> (states: FingerStates)
    ensures
        forall|i: int| 0 <= i < 3 ==> states[i] == OPENED,
{
    [OPENED, OPENED, OPENED]
}

/// Debounces one tick's readings into `states`, finger by finger.
pub fn update_finger_states(states: &mut FingerStates, readings: &FingerReadings)
    ensures
        forall|i: int| 0 <= i < 3 ==> final(states)[i] == debounced(readings[i], old(states)[i]),
{
    let mut idx: usize = 0;
    while idx < 3
        invariant
            idx <= 3,
            forall|i: int| 0 <= i < idx ==> states[i] == debounced(readings[i], old(states)[i]),
            forall|i: int| idx <= i < 3 ==> states[i] == old(states)[i],
        decreases 3 - idx,
    {
        let next = debounce(readings[idx], states[idx]);
        states[idx] = next;
        idx += 1;
    }
}

/// The readings to work with after a read attempt: a failed read counts as
/// all zeros, so that the pipeline goes on.
pub fn readings_or_neutral<E>(read: Result<FingerReadings, E>) -> (readings: FingerReadings)
    ensures
        read matches Ok(r) ==> readings == r,
        read is Err ==> forall|i: int| 0 <= i < 3 ==> readings[i] == 0,
{
    match read {
        Ok(r) => r,
        Err(_) => [0, 0, 0],
    }
}

/// Hysteresis: a run of readings that all lie strictly between the two bands
/// leaves the state as it was.
pub proof fn lemma_in_band_keeps_state(init: bool, readings: Seq<u16>)
    requires
        forall|j: int| 0 <= j < readings.len() ==> in_hysteresis_band(#[trigger] readings[j]),
    ensures
        debounced_run(init, readings) == init,
    decreases readings.len(),
{
    if readings.len() > 0 {
        lemma_in_band_keeps_state(init, readings.drop_last());
    }
}

/// A run that stays above the low band after a reading at or above the high
/// band leaves the finger open, whatever the state was before.
pub proof fn lemma_stays_open_above_low_band(init: bool, readings: Seq<u16>)
    requires
        readings.len() > 0,
        readings[0] >= SUP_BAND,
        forall|j: int| 0 <= j < readings.len() ==> readings[j] > LOW_BAND,
    ensures
        debounced_run(init, readings) == OPENED,
    decreases readings.len(),
{
    if readings.len() > 1 {
        lemma_stays_open_above_low_band(init, readings.drop_last());
    } else {
        assert(readings.drop_last().len() == 0);
    }
}

/// Crossing the high band and then the low band: the finger is open after
/// every reading before the first one at or below the low band, and closed
/// right after that one.
pub proof fn lemma_closes_at_first_low_reading(init: bool, readings: Seq<u16>, k: int)
    requires
        0 < k < readings.len(),
        readings[0] >= SUP_BAND,
        forall|j: int| 0 <= j < k ==> readings[j] > LOW_BAND,
        readings[k] <= LOW_BAND,
    ensures
        forall|n: int| 0 < n <= k ==> debounced_run(init, #[trigger] readings.take(n)) == OPENED,
        debounced_run(init, readings.take(k + 1)) == CLOSED,
{
    assert forall|n: int| 0 < n <= k implies debounced_run(init, #[trigger] readings.take(n))
        == OPENED by {
        lemma_stays_open_above_low_band(init, readings.take(n));
    }
    assert(readings.take(k + 1).last() == readings[k]);
}

} // verus!
