//! What the output devices decide: the steps of a jingle, the timing of a
//! digital tone, the deadlines of a tone and the phase of an analog sample.
use crate::file_reader::Note;
use crate::notes::is_mute;
use vstd::prelude::*;

verus! {

/// Microseconds in a second, times the hundred that frequencies are scaled by.
pub const CENTI_HZ_MICROS: u64 = 100_000_000;

/// One step of playing a jingle.
#[derive(Debug, Clone, Copy, PartialEq, Eq)]
pub enum Action {
    /// Leave the output alone for this many milliseconds.
    Rest { millis: u64 },
    /// Render a tone of this frequency, in hundredths of a hertz, for this
    /// many milliseconds.
    Tone { centi_hz: u32, millis: u64 },
}

/// The step that plays a note: a rest for a note of frequency 0, a tone
/// otherwise.
pub open spec fn action_of(note: Note) -> Action {
    if note.centi_hz == 0 {
        Action::Rest { millis: note.duration }
    } else {
        Action::Tone { centi_hz: note.centi_hz, millis: note.duration }
    }
}

/// The steps that play a jingle: one per note, in the notes' order.
pub fn plan_notes(jingle: &Vec<Note>) -> (r: Vec<Action>)
    ensures
        r@.len() == jingle@.len(),
        forall|i: int| 0 <= i < jingle@.len() ==> #[trigger] r@[i] == action_of(jingle@[i]),
{
    let mut steps: Vec<Action> = Vec::new();
    let n = jingle.len();
    let mut i: usize = 0;
    while i < n
        invariant
            n == jingle@.len(),
            0 <= i <= n,
            steps@.len() == i,
            forall|j: int| 0 <= j < i ==> #[trigger] steps@[j] == action_of(jingle@[j]),
        decreases n - i,
    {
        let note = jingle[i];
        if is_mute(note.centi_hz) {
            steps.push(Action::Rest { millis: note.duration });
        } else {
            steps.push(Action::Tone { centi_hz: note.centi_hz, millis: note.duration });
        }
        i = i + 1;
    }
    steps
}

/// The period, in whole microseconds (rounded down), of a frequency given in
/// hundredths of a hertz.
pub open spec fn period_spec(centi_hz: int) -> int {
    (CENTI_HZ_MICROS as int) / centi_hz
}

/// The time, in whole microseconds (rounded down), that the pin is held high
/// in each period of a digital tone: `duty` percent of the exact period
/// `10^8 / centi_hz`.
pub open spec fn high_spec(centi_hz: int, duty: int) -> int {
    1_000_000 * duty / centi_hz
}

/// The time, in whole microseconds (rounded down), that the pin is held low
/// in each period: the remaining `100 - duty` percent of the exact period.
pub open spec fn low_spec(centi_hz: int, duty: int) -> int {
    1_000_000 * (100 - duty) / centi_hz
}

/// The period in microseconds of a tone of `centi_hz` hundredths of a hertz.
pub fn period_micros(centi_hz: u32) -> (r: u64)
    requires
        centi_hz > 0,
    ensures
        r == period_spec(centi_hz as int),
{
    CENTI_HZ_MICROS / (centi_hz as u64)
}

/// The high and low times, in microseconds, of one period of a digital tone
/// of `centi_hz` hundredths of a hertz at a duty cycle of `duty` percent.
pub fn digital_timing(centi_hz: u32, duty: u8) -> (r: (u64, u64))
    requires
        centi_hz > 0,
        0 < duty < 100,
    ensures
        r.0 == high_spec(centi_hz as int, duty as int),
        r.1 == low_spec(centi_hz as int, duty as int),
{
    let high: u64 = 1_000_000u64 * (duty as u64) / (centi_hz as u64);
    let low: u64 = 1_000_000u64 * (100 - duty as u64) / (centi_hz as u64);
    (high, low)
}

/// The high time of a digital tone is `duty` percent of the exact period
/// `10^8 / centi_hz` microseconds and the low time the rest of it, each
/// rounded down to whole microseconds; together they fall short of the exact
/// period by less than two microseconds.
pub proof fn lemma_duty_cycle(centi_hz: int, duty: int)
    requires
        centi_hz > 0,
        0 < duty < 100,
    ensures
        ({
            let high = high_spec(centi_hz, duty);
            let low = low_spec(centi_hz, duty);
            &&& 0 <= high && 0 <= low
            &&& 100 * high * centi_hz <= duty * (CENTI_HZ_MICROS as int) < 100 * (high + 1)
                * centi_hz
            &&& 100 * low * centi_hz <= (100 - duty) * (CENTI_HZ_MICROS as int) < 100 * (low
                + 1) * centi_hz
            &&& (high + low) * centi_hz <= (CENTI_HZ_MICROS as int) < (high + low + 2)
                * centi_hz
        }),
{
    let high = high_spec(centi_hz, duty);
    let low = low_spec(centi_hz, duty);
    assert(high * centi_hz <= 1_000_000 * duty < (high + 1) * centi_hz && 0 <= high)
        by (nonlinear_arith)
        requires
            high == 1_000_000 * duty / centi_hz,
            centi_hz > 0,
            duty > 0,
    ;
    assert(low * centi_hz <= 1_000_000 * (100 - duty) < (low + 1) * centi_hz && 0 <= low)
        by (nonlinear_arith)
        requires
            low == 1_000_000 * (100 - duty) / centi_hz,
            centi_hz > 0,
            duty < 100,
    ;
    assert(100 * high * centi_hz == 100 * (high * centi_hz)) by (nonlinear_arith);
    assert(100 * (high + 1) * centi_hz == 100 * ((high + 1) * centi_hz)) by (nonlinear_arith);
    assert(100 * low * centi_hz == 100 * (low * centi_hz)) by (nonlinear_arith);
    assert(100 * (low + 1) * centi_hz == 100 * ((low + 1) * centi_hz)) by (nonlinear_arith);
    assert((high + low) * centi_hz == high * centi_hz + low * centi_hz) by (nonlinear_arith);
    assert((high + low + 2) * centi_hz == (high + 1) * centi_hz + (low + 1) * centi_hz)
        by (nonlinear_arith);
}

/// The time, in microseconds, at which a tone started at `start` and lasting
/// `millis` milliseconds ends; the latest representable time when that lies
/// beyond it.
pub open spec fn deadline_spec(start: int, millis: int) -> int {
    if start + 1000 * millis > u64::MAX {
        u64::MAX as int
    } else {
        start + 1000 * millis
    }
}

/// The end, in microseconds, of a tone that starts at `start` and lasts
/// `millis` milliseconds.
pub fn tone_deadline(start: u64, millis: u64) -> (r: u64)
    ensures
        r == deadline_spec(start as int, millis as int),
{
    match millis.checked_mul(1000) {
        Some(span) => start.saturating_add(span),
        None => u64::MAX,
    }
}

/// How far, in microseconds, the time `now` lies into the current period of
/// a tone that started at `start`; 0 when the clock reads earlier than the
/// start.
pub open spec fn phase_spec(start: int, now: int, period: int) -> int {
    if now < start {
        0
    } else {
        (now - start) % period
    }
}

/// The position within its period at which an analog tone is sampled.
pub fn sample_phase(start: u64, now: u64, period: u64) -> (r: u64)
    requires
        period > 0,
    ensures
        r == phase_spec(start as int, now as int, period as int),
        r < period,
{
    if now < start {
        0
    } else {
        (now - start) % period
    }
}

} // verus!
