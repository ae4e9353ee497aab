use jinglepi::notes::{is_mute, parse_note, NoteTable, ParseError};

#[test]
fn resolves_known_notes() {
    let table = NoteTable::new();
    assert_eq!(parse_note(&table, "C4"), Ok(26163));
    assert_eq!(parse_note(&table, "MUTE"), Ok(0));
    assert_eq!(parse_note(&table, "A4"), Ok(44000));
    assert_eq!(parse_note(&table, "C0"), Ok(1635));
    assert_eq!(parse_note(&table, "B8"), Ok(790213));
    assert_eq!(parse_note(&table, "CSHARP4_Db4"), Ok(27718));
}

#[test]
fn rejects_unknown_notes() {
    let table = NoteTable::new();
    let err = parse_note(&table, "Z9").unwrap_err();
    assert_eq!(err.description(), "Can't parse note description: Z9");
    assert!(parse_note(&table, "c4").is_err());
    assert!(parse_note(&table, "").is_err());
    assert!(parse_note(&table, "C4 ").is_err());
}

#[test]
fn parse_error_keeps_its_message() {
    let err = ParseError::new("no such note");
    assert_eq!(err.description(), "no such note");
}

#[test]
fn mute_is_frequency_zero() {
    assert!(is_mute(0));
    assert!(!is_mute(1));
    assert!(!is_mute(26163));
}
