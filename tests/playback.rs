use jinglepi::audio_out::{digital_timing, period_micros, plan_notes, sample_phase, tone_deadline, Action};
use jinglepi::file_reader::{resolve_records, Note, Record};
use jinglepi::notes::NoteTable;

fn record(note: &str, duration: u64) -> Record {
    Record { note: note.to_string(), duration }
}

#[test]
fn jingle_resolves_and_plans_in_order() {
    let table = NoteTable::new();
    let records = vec![record("E4", 100), record("MUTE", 100), record("G3", 200)];
    let notes = resolve_records(&table, &records).unwrap();
    assert_eq!(
        notes,
        vec![
            Note { centi_hz: 32963, duration: 100 },
            Note { centi_hz: 0, duration: 100 },
            Note { centi_hz: 19600, duration: 200 },
        ]
    );
    let steps = plan_notes(&notes);
    assert_eq!(
        steps,
        vec![
            Action::Tone { centi_hz: 32963, millis: 100 },
            Action::Rest { millis: 100 },
            Action::Tone { centi_hz: 19600, millis: 200 },
        ]
    );
    assert_eq!(digital_timing(32963, 50), (1516, 1516));
    assert_eq!(digital_timing(19600, 50), (2551, 2551));
}

#[test]
fn unknown_record_stops_resolution() {
    let table = NoteTable::new();
    let records = vec![record("E4", 100), record("H2", 50), record("Q1", 10)];
    let err = resolve_records(&table, &records).unwrap_err();
    assert_eq!(err.description(), "Can't parse note description: H2");
}

#[test]
fn empty_jingle_has_no_steps() {
    let table = NoteTable::new();
    let notes = resolve_records(&table, &Vec::new()).unwrap();
    assert!(notes.is_empty());
    assert!(plan_notes(&notes).is_empty());
}

#[test]
fn period_is_reciprocal_of_frequency() {
    assert_eq!(period_micros(44000), 2272);
    assert_eq!(period_micros(100), 1_000_000);
    assert_eq!(period_micros(1), 100_000_000);
    assert_eq!(period_micros(790213), 126);
}

#[test]
fn duty_cycle_splits_the_exact_period() {
    assert_eq!(digital_timing(32963, 99), (3003, 30));
    assert_eq!(digital_timing(32963, 1), (30, 3003));
    assert_eq!(digital_timing(44000, 25), (568, 1704));
    assert_eq!(digital_timing(100, 50), (500_000, 500_000));
    assert_eq!(digital_timing(790213, 50), (63, 63));
    for duty in 1u8..100 {
        let (high, low) = digital_timing(26163, duty);
        assert_eq!(high, 1_000_000 * duty as u64 / 26163);
        assert_eq!(low, 1_000_000 * (100 - duty as u64) / 26163);
        let exact = 100_000_000.0f64 / 26163.0;
        assert!((high + low) as f64 <= exact && exact < (high + low + 2) as f64);
    }
}

#[test]
fn deadline_counts_milliseconds() {
    assert_eq!(tone_deadline(1_000_000, 100), 1_100_000);
    assert_eq!(tone_deadline(0, 0), 0);
    assert_eq!(tone_deadline(u64::MAX - 10, 1), u64::MAX);
    assert_eq!(tone_deadline(5, u64::MAX), u64::MAX);
}

#[test]
fn phase_wraps_at_the_period() {
    assert_eq!(sample_phase(1000, 1000, 2272), 0);
    assert_eq!(sample_phase(1000, 3272, 2272), 0);
    assert_eq!(sample_phase(1000, 3300, 2272), 28);
    assert_eq!(sample_phase(1000, 999, 2272), 0);
}
