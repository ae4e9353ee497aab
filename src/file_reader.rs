//! Turning the records of a jingle file into notes.
use crate::notes::{lookup, parse_note, unknown_note_message, NoteTable, ParseError};
use vstd::prelude::*;

verus! {

/// One record of a jingle file: a note name and how long it lasts.
#[derive(Debug, PartialEq, Eq)]
pub struct Record {
    pub note: String,
    pub duration: u64,
}

/// A resolved note: its frequency in hundredths of a hertz (0 for a rest)
/// and its duration in milliseconds.
#[derive(Debug, Clone, Copy, PartialEq, Eq)]
pub struct Note {
    pub centi_hz: u32,
    pub duration: u64,
}

/// Whether `table` holds the name of every record.
pub open spec fn all_known(table: Seq<(Seq<char>, u32)>, records: Seq<Record>) -> bool {
    forall|i: int| 0 <= i < records.len() ==> (#[trigger] lookup(table, records[i].note@)) is Some
}

/// The note that a record with a known name resolves to.
pub open spec fn resolved(table: Seq<(Seq<char>, u32)>, rec: Record) -> Note {
    Note { centi_hz: lookup(table, rec.note@)->Some_0, duration: rec.duration }
}

/// Resolves every record of a jingle against `table`, in order. Fails with
/// the error for the first record whose name the table does not hold.
pub fn resolve_records(table: &NoteTable, records: &Vec<Record>) -> (r: Result<Vec<Note>, ParseError>)
    ensures
        r is Ok <==> all_known(table@, records@),
        r matches Ok(notes) ==> notes@.len() == records@.len() && forall|i: int|
            0 <= i < records@.len() ==> #[trigger] notes@[i] == resolved(table@, records@[i]),
        r matches Err(e) ==> exists|i: int|
            0 <= i < records@.len() && lookup(table@, #[trigger] records@[i].note@) is None
                && all_known(table@, records@.take(i)) && e@ == unknown_note_message(
                records@[i].note@,
            ),
{
    let mut notes: Vec<Note> = Vec::new();
    let n = records.len();
    let mut i: usize = 0;
    while i < n
        invariant
            n == records@.len(),
            0 <= i <= n,
            notes@.len() == i,
            all_known(table@, records@.take(i as int)),
            forall|j: int| 0 <= j < i ==> #[trigger] notes@[j] == resolved(table@, records@[j]),
        decreases n - i,
    {
        let rec = &records[i];
        match parse_note(table, rec.note.as_str()) {
            Ok(f) => {
                notes.push(Note { centi_hz: f, duration: rec.duration });
                assert forall|j: int| 0 <= j < i + 1 implies (#[trigger] lookup(
                    table@,
                    records@.take(i + 1)[j].note@,
                )) is Some by {
                    if j < i {
                        assert(records@.take(i + 1)[j] == records@.take(i as int)[j]);
                    }
                }
            },
            Err(e) => {
                assert(lookup(table@, records@[i as int].note@) is None);
                return Err(e);
            },
        }
        i = i + 1;
    }
    assert(records@.take(n as int) =~= records@);
    Ok(notes)
}

} // verus!
