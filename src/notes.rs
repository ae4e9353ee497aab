//! Note names and their frequencies.
use vstd::prelude::*;
use vstd::string::*;

verus! {

/// A note name that the note table does not hold.
#[derive(Debug, PartialEq, Eq)]
pub struct ParseError {
    details: String,
}

impl View for ParseError {
    type V = Seq<char>;

    /// The error's message.
    closed spec fn view(&self) -> Seq<char> {
        self.details@
    }
}

impl ParseError {
    /// An error carrying the message `msg`.
    pub fn new(msg: &str) -> (r: ParseError)
        ensures
            r@ == msg@,
    {
        ParseError { details: msg.to_owned() }
    }

    /// The error's message.
    pub fn description(&self) -> (r: &str)
        ensures
            r@ == self@,
    {
        self.details.as_str()
    }
}

/// The frequency, in hundredths of a hertz, of the first entry of `entries`
/// named `name`; `None` when no entry has that name.
pub open spec fn lookup(entries: Seq<(Seq<char>, u32)>, name: Seq<char>) -> Option<u32>
    decreases entries.len(),
{
    if entries.len() == 0 {
        None
    } else if entries[0].0 == name {
        Some(entries[0].1)
    } else {
        lookup(entries.drop_first(), name)
    }
}

/// The equal-tempered scale from C0 to B8 (sharps are written `CSHARP4_Db4`),
/// frequencies in hundredths of a hertz, and the rest `MUTE` at frequency 0.
pub open spec fn note_table() -> Seq<(Seq<char>, u32)> {
    Seq::empty()
        .push(("MUTE"@, 0))
        .push(("C0"@, 1635))
        .push(("CSHARP0_Db0"@, 1732))
        .push(("D0"@, 1835))
        .push(("DSHARP0_Eb0"@, 1945))
        .push(("E0"@, 2060))
        .push(("F0"@, 2183))
        .push(("FSHARP0_Gb0"@, 2312))
        .push(("G0"@, 2450))
        .push(("GSHARP0_Ab0"@, 2596))
        .push(("A0"@, 2750))
        .push(("ASHARP0_Bb0"@, 2914))
        .push(("B0"@, 3087))
        .push(("C1"@, 3270))
        .push(("CSHARP1_Db1"@, 3465))
        .push(("D1"@, 3671))
        .push(("DSHARP1_Eb1"@, 3889))
        .push(("E1"@, 4120))
        .push(("F1"@, 4365))
        .push(("FSHARP1_Gb1"@, 4625))
        .push(("G1"@, 4900))
        .push(("GSHARP1_Ab1"@, 5191))
        .push(("A1"@, 5500))
        .push(("ASHARP1_Bb1"@, 5827))
        .push(("B1"@, 6174))
        .push(("C2"@, 6541))
        .push(("CSHARP2_Db2"@, 6930))
        .push(("D2"@, 7342))
        .push(("DSHARP2_Eb2"@, 7778))
        .push(("E2"@, 8241))
        .push(("F2"@, 8731))
        .push(("FSHARP2_Gb2"@, 9250))
        .push(("G2"@, 9800))
        .push(("GSHARP2_Ab2"@, 10383))
        .push(("A2"@, 11000))
        .push(("ASHARP2_Bb2"@, 11654))
        .push(("B2"@, 12347))
        .push(("C3"@, 13081))
        .push(("CSHARP3_Db3"@, 13859))
        .push(("D3"@, 14683))
        .push(("DSHARP3_Eb3"@, 15556))
        .push(("E3"@, 16481))
        .push(("F3"@, 17461))
        .push(("FSHARP3_Gb3"@, 18500))
        .push(("G3"@, 19600))
        .push(("GSHARP3_Ab3"@, 20765))
        .push(("A3"@, 22000))
        .push(("ASHARP3_Bb3"@, 23308))
        .push(("B3"@, 24694))
        .push(("C4"@, 26163))
        .push(("CSHARP4_Db4"@, 27718))
        .push(("D4"@, 29366))
        .push(("DSHARP4_Eb4"@, 31113))
        .push(("E4"@, 32963))
        .push(("F4"@, 34923))
        .push(("FSHARP4_Gb4"@, 36999))
        .push(("G4"@, 39200))
        .push(("GSHARP4_Ab4"@, 41530))
        .push(("A4"@, 44000))
        .push(("ASHARP4_Bb4"@, 46616))
        .push(("B4"@, 49388))
        .push(("C5"@, 52325))
        .push(("CSHARP5_Db5"@, 55437))
        .push(("D5"@, 58733))
        .push(("DSHARP5_Eb5"@, 62225))
        .push(("E5"@, 65925))
        .push(("F5"@, 69846))
        .push(("FSHARP5_Gb5"@, 73999))
        .push(("G5"@, 78399))
        .push(("GSHARP5_Ab5"@, 83061))
        .push(("A5"@, 88000))
        .push(("ASHARP5_Bb5"@, 93233))
        .push(("B5"@, 98777))
        .push(("C6"@, 104650))
        .push(("CSHARP6_Db6"@, 110873))
        .push(("D6"@, 117466))
        .push(("DSHARP6_Eb6"@, 124451))
        .push(("E6"@, 131851))
        .push(("F6"@, 139691))
        .push(("FSHARP6_Gb6"@, 147998))
        .push(("G6"@, 156798))
        .push(("GSHARP6_Ab6"@, 166122))
        .push(("A6"@, 176000))
        .push(("ASHARP6_Bb6"@, 186466))
        .push(("B6"@, 197553))
        .push(("C7"@, 209300))
        .push(("CSHARP7_Db7"@, 221746))
        .push(("D7"@, 234932))
        .push(("DSHARP7_Eb7"@, 248902))
        .push(("E7"@, 263702))
        .push(("F7"@, 279383))
        .push(("FSHARP7_Gb7"@, 295996))
        .push(("G7"@, 313596))
        .push(("GSHARP7_Ab7"@, 332244))
        .push(("A7"@, 352000))
        .push(("ASHARP7_Bb7"@, 372931))
        .push(("B7"@, 395107))
        .push(("C8"@, 418601))
        .push(("CSHARP8_Db8"@, 443492))
        .push(("D8"@, 469863))
        .push(("DSHARP8_Eb8"@, 497803))
        .push(("E8"@, 527404))
        .push(("F8"@, 558765))
        .push(("FSHARP8_Gb8"@, 591991))
        .push(("G8"@, 627193))
        .push(("GSHARP8_Ab8"@, 664488))
        .push(("A8"@, 704000))
        .push(("ASHARP8_Bb8"@, 745862))
        .push(("B8"@, 790213))
}

/// The message of the error for an unknown note name.
pub open spec fn unknown_note_message(name: Seq<char>) -> Seq<char> {
    "Can't parse note description: "@ + name
}

/// A table from note names to frequencies in hundredths of a hertz, built
/// once and handed to the resolver.
pub struct NoteTable {
    entries: Vec<(String, u32)>,
}

impl View for NoteTable {
    type V = Seq<(Seq<char>, u32)>;

    /// The entries, names as character sequences, in table order.
    closed spec fn view(&self) -> Seq<(Seq<char>, u32)> {
        entries_view(self.entries@)
    }
}

/// Table entries with their names as character sequences.
pub open spec fn entries_view(entries: Seq<(String, u32)>) -> Seq<(Seq<char>, u32)> {
    entries.map_values(|e: (String, u32)| (e.0@, e.1))
}

/// No two entries share a name.
pub open spec fn names_unique(entries: Seq<(Seq<char>, u32)>) -> bool {
    forall|i: int, j: int| 0 <= i < j < entries.len() ==> entries[i].0 != entries[j].0
}

/// The place of a pitch name within its octave: C is 0, C sharp 1, and so
/// on up to B at 11. Sharps are the names longer than two characters.
pub open spec fn pitch_rank(name: Seq<char>) -> int {
    let sharp: int = if name.len() > 2 {
        1
    } else {
        0
    };
    if name[0] == 'C' {
        sharp
    } else if name[0] == 'D' {
        2 + sharp
    } else if name[0] == 'E' {
        4
    } else if name[0] == 'F' {
        5 + sharp
    } else if name[0] == 'G' {
        7 + sharp
    } else if name[0] == 'A' {
        9 + sharp
    } else {
        11
    }
}

/// The position of a note name on the scale: twelve steps per octave, the
/// octave being the name's last character; `MUTE` comes first.
pub open spec fn note_rank(name: Seq<char>) -> int {
    if name.len() == 0 || name[0] == 'M' {
        -1
    } else {
        12 * (name.last() as int - '0' as int) + pitch_rank(name)
    }
}

/// The entries go strictly up the scale.
pub open spec fn ascending(entries: Seq<(Seq<char>, u32)>) -> bool {
    forall|i: int, j: int|
        0 <= i < j < entries.len() ==> note_rank(entries[i].0) < note_rank(entries[j].0)
}

/// Appends the entry `(name, freq)`, which lies above every entry so far.
fn push_entry(entries: &mut Vec<(String, u32)>, name: &str, freq: u32)
    requires
        ascending(entries_view(old(entries)@)),
        old(entries)@.len() > 0 ==> note_rank(entries_view(old(entries)@).last().0) < note_rank(
            name@,
        ),
    ensures
        entries_view(final(entries)@) == entries_view(old(entries)@).push((name@, freq)),
        ascending(entries_view(final(entries)@)),
{
    let ghost before = entries_view(entries@);
    entries.push((String::from_str(name), freq));
    let ghost after = before.push((name@, freq));
    assert(entries_view(entries@) =~= after);
    assert forall|i: int, j: int| 0 <= i < j < after.len() implies note_rank(after[i].0)
        < note_rank(after[j].0) by {
        if j == before.len() && i < before.len() - 1 {
            assert(note_rank(before[i].0) < note_rank(before[before.len() - 1].0));
        }
    }
}

impl NoteTable {
    /// The standard table, whose names are all different.
    pub fn new() -> (r: NoteTable)
        ensures
            r@ == note_table(),
            names_unique(r@),
    {
        let mut entries: Vec<(String, u32)> = Vec::new();
        assert(entries_view(entries@) =~= Seq::empty());
        proof {
            reveal_strlit("MUTE");
        }
        push_entry(&mut entries, "MUTE", 0);
        proof {
            reveal_strlit("C0");
        }
        push_entry(&mut entries, "C0", 1635);
        proof {
            reveal_strlit("CSHARP0_Db0");
        }
        push_entry(&mut entries, "CSHARP0_Db0", 1732);
        proof {
            reveal_strlit("D0");
        }
        push_entry(&mut entries, "D0", 1835);
        proof {
            reveal_strlit("DSHARP0_Eb0");
        }
        push_entry(&mut entries, "DSHARP0_Eb0", 1945);
        proof {
            reveal_strlit("E0");
        }
        push_entry(&mut entries, "E0", 2060);
        proof {
            reveal_strlit("F0");
        }
        push_entry(&mut entries, "F0", 2183);
        proof {
            reveal_strlit("FSHARP0_Gb0");
        }
        push_entry(&mut entries, "FSHARP0_Gb0", 2312);
        proof {
            reveal_strlit("G0");
        }
        push_entry(&mut entries, "G0", 2450);
        proof {
            reveal_strlit("GSHARP0_Ab0");
        }
        push_entry(&mut entries, "GSHARP0_Ab0", 2596);
        proof {
            reveal_strlit("A0");
        }
        push_entry(&mut entries, "A0", 2750);
        proof {
            reveal_strlit("ASHARP0_Bb0");
        }
        push_entry(&mut entries, "ASHARP0_Bb0", 2914);
        proof {
            reveal_strlit("B0");
        }
        push_entry(&mut entries, "B0", 3087);
        proof {
            reveal_strlit("C1");
        }
        push_entry(&mut entries, "C1", 3270);
        proof {
            reveal_strlit("CSHARP1_Db1");
        }
        push_entry(&mut entries, "CSHARP1_Db1", 3465);
        proof {
            reveal_strlit("D1");
        }
        push_entry(&mut entries, "D1", 3671);
        proof {
            reveal_strlit("DSHARP1_Eb1");
        }
        push_entry(&mut entries, "DSHARP1_Eb1", 3889);
        proof {
            reveal_strlit("E1");
        }
        push_entry(&mut entries, "E1", 4120);
        proof {
            reveal_strlit("F1");
        }
        push_entry(&mut entries, "F1", 4365);
        proof {
            reveal_strlit("FSHARP1_Gb1");
        }
        push_entry(&mut entries, "FSHARP1_Gb1", 4625);
        proof {
            reveal_strlit("G1");
        }
        push_entry(&mut entries, "G1", 4900);
        proof {
            reveal_strlit("GSHARP1_Ab1");
        }
        push_entry(&mut entries, "GSHARP1_Ab1", 5191);
        proof {
            reveal_strlit("A1");
        }
        push_entry(&mut entries, "A1", 5500);
        proof {
            reveal_strlit("ASHARP1_Bb1");
        }
        push_entry(&mut entries, "ASHARP1_Bb1", 5827);
        proof {
            reveal_strlit("B1");
        }
        push_entry(&mut entries, "B1", 6174);
        proof {
            reveal_strlit("C2");
        }
        push_entry(&mut entries, "C2", 6541);
        proof {
            reveal_strlit("CSHARP2_Db2");
        }
        push_entry(&mut entries, "CSHARP2_Db2", 6930);
        proof {
            reveal_strlit("D2");
        }
        push_entry(&mut entries, "D2", 7342);
        proof {
            reveal_strlit("DSHARP2_Eb2");
        }
        push_entry(&mut entries, "DSHARP2_Eb2", 7778);
        proof {
            reveal_strlit("E2");
        }
        push_entry(&mut entries, "E2", 8241);
        proof {
            reveal_strlit("F2");
        }
        push_entry(&mut entries, "F2", 8731);
        proof {
            reveal_strlit("FSHARP2_Gb2");
        }
        push_entry(&mut entries, "FSHARP2_Gb2", 9250);
        proof {
            reveal_strlit("G2");
        }
        push_entry(&mut entries, "G2", 9800);
        proof {
            reveal_strlit("GSHARP2_Ab2");
        }
        push_entry(&mut entries, "GSHARP2_Ab2", 10383);
        proof {
            reveal_strlit("A2");
        }
        push_entry(&mut entries, "A2", 11000);
        proof {
            reveal_strlit("ASHARP2_Bb2");
        }
        push_entry(&mut entries, "ASHARP2_Bb2", 11654);
        proof {
            reveal_strlit("B2");
        }
        push_entry(&mut entries, "B2", 12347);
        proof {
            reveal_strlit("C3");
        }
        push_entry(&mut entries, "C3", 13081);
        proof {
            reveal_strlit("CSHARP3_Db3");
        }
        push_entry(&mut entries, "CSHARP3_Db3", 13859);
        proof {
            reveal_strlit("D3");
        }
        push_entry(&mut entries, "D3", 14683);
        proof {
            reveal_strlit("DSHARP3_Eb3");
        }
        push_entry(&mut entries, "DSHARP3_Eb3", 15556);
        proof {
            reveal_strlit("E3");
        }
        push_entry(&mut entries, "E3", 16481);
        proof {
            reveal_strlit("F3");
        }
        push_entry(&mut entries, "F3", 17461);
        proof {
            reveal_strlit("FSHARP3_Gb3");
        }
        push_entry(&mut entries, "FSHARP3_Gb3", 18500);
        proof {
            reveal_strlit("G3");
        }
        push_entry(&mut entries, "G3", 19600);
        proof {
            reveal_strlit("GSHARP3_Ab3");
        }
        push_entry(&mut entries, "GSHARP3_Ab3", 20765);
        proof {
            reveal_strlit("A3");
        }
        push_entry(&mut entries, "A3", 22000);
        proof {
            reveal_strlit("ASHARP3_Bb3");
        }
        push_entry(&mut entries, "ASHARP3_Bb3", 23308);
        proof {
            reveal_strlit("B3");
        }
        push_entry(&mut entries, "B3", 24694);
        proof {
            reveal_strlit("C4");
        }
        push_entry(&mut entries, "C4", 26163);
        proof {
            reveal_strlit("CSHARP4_Db4");
        }
        push_entry(&mut entries, "CSHARP4_Db4", 27718);
        proof {
            reveal_strlit("D4");
        }
        push_entry(&mut entries, "D4", 29366);
        proof {
            reveal_strlit("DSHARP4_Eb4");
        }
        push_entry(&mut entries, "DSHARP4_Eb4", 31113);
        proof {
            reveal_strlit("E4");
        }
        push_entry(&mut entries, "E4", 32963);
        proof {
            reveal_strlit("F4");
        }
        push_entry(&mut entries, "F4", 34923);
        proof {
            reveal_strlit("FSHARP4_Gb4");
        }
        push_entry(&mut entries, "FSHARP4_Gb4", 36999);
        proof {
            reveal_strlit("G4");
        }
        push_entry(&mut entries, "G4", 39200);
        proof {
            reveal_strlit("GSHARP4_Ab4");
        }
        push_entry(&mut entries, "GSHARP4_Ab4", 41530);
        proof {
            reveal_strlit("A4");
        }
        push_entry(&mut entries, "A4", 44000);
        proof {
            reveal_strlit("ASHARP4_Bb4");
        }
        push_entry(&mut entries, "ASHARP4_Bb4", 46616);
        proof {
            reveal_strlit("B4");
        }
        push_entry(&mut entries, "B4", 49388);
        proof {
            reveal_strlit("C5");
        }
        push_entry(&mut entries, "C5", 52325);
        proof {
            reveal_strlit("CSHARP5_Db5");
        }
        push_entry(&mut entries, "CSHARP5_Db5", 55437);
        proof {
            reveal_strlit("D5");
        }
        push_entry(&mut entries, "D5", 58733);
        proof {
            reveal_strlit("DSHARP5_Eb5");
        }
        push_entry(&mut entries, "DSHARP5_Eb5", 62225);
        proof {
            reveal_strlit("E5");
        }
        push_entry(&mut entries, "E5", 65925);
        proof {
            reveal_strlit("F5");
        }
        push_entry(&mut entries, "F5", 69846);
        proof {
            reveal_strlit("FSHARP5_Gb5");
        }
        push_entry(&mut entries, "FSHARP5_Gb5", 73999);
        proof {
            reveal_strlit("G5");
        }
        push_entry(&mut entries, "G5", 78399);
        proof {
            reveal_strlit("GSHARP5_Ab5");
        }
        push_entry(&mut entries, "GSHARP5_Ab5", 83061);
        proof {
            reveal_strlit("A5");
        }
        push_entry(&mut entries, "A5", 88000);
        proof {
            reveal_strlit("ASHARP5_Bb5");
        }
        push_entry(&mut entries, "ASHARP5_Bb5", 93233);
        proof {
            reveal_strlit("B5");
        }
        push_entry(&mut entries, "B5", 98777);
        proof {
            reveal_strlit("C6");
        }
        push_entry(&mut entries, "C6", 104650);
        proof {
            reveal_strlit("CSHARP6_Db6");
        }
        push_entry(&mut entries, "CSHARP6_Db6", 110873);
        proof {
            reveal_strlit("D6");
        }
        push_entry(&mut entries, "D6", 117466);
        proof {
            reveal_strlit("DSHARP6_Eb6");
        }
        push_entry(&mut entries, "DSHARP6_Eb6", 124451);
        proof {
            reveal_strlit("E6");
        }
        push_entry(&mut entries, "E6", 131851);
        proof {
            reveal_strlit("F6");
        }
        push_entry(&mut entries, "F6", 139691);
        proof {
            reveal_strlit("FSHARP6_Gb6");
        }
        push_entry(&mut entries, "FSHARP6_Gb6", 147998);
        proof {
            reveal_strlit("G6");
        }
        push_entry(&mut entries, "G6", 156798);
        proof {
            reveal_strlit("GSHARP6_Ab6");
        }
        push_entry(&mut entries, "GSHARP6_Ab6", 166122);
        proof {
            reveal_strlit("A6");
        }
        push_entry(&mut entries, "A6", 176000);
        proof {
            reveal_strlit("ASHARP6_Bb6");
        }
        push_entry(&mut entries, "ASHARP6_Bb6", 186466);
        proof {
            reveal_strlit("B6");
        }
        push_entry(&mut entries, "B6", 197553);
        proof {
            reveal_strlit("C7");
        }
        push_entry(&mut entries, "C7", 209300);
        proof {
            reveal_strlit("CSHARP7_Db7");
        }
        push_entry(&mut entries, "CSHARP7_Db7", 221746);
        proof {
            reveal_strlit("D7");
        }
        push_entry(&mut entries, "D7", 234932);
        proof {
            reveal_strlit("DSHARP7_Eb7");
        }
        push_entry(&mut entries, "DSHARP7_Eb7", 248902);
        proof {
            reveal_strlit("E7");
        }
        push_entry(&mut entries, "E7", 263702);
        proof {
            reveal_strlit("F7");
        }
        push_entry(&mut entries, "F7", 279383);
        proof {
            reveal_strlit("FSHARP7_Gb7");
        }
        push_entry(&mut entries, "FSHARP7_Gb7", 295996);
        proof {
            reveal_strlit("G7");
        }
        push_entry(&mut entries, "G7", 313596);
        proof {
            reveal_strlit("GSHARP7_Ab7");
        }
        push_entry(&mut entries, "GSHARP7_Ab7", 332244);
        proof {
            reveal_strlit("A7");
        }
        push_entry(&mut entries, "A7", 352000);
        proof {
            reveal_strlit("ASHARP7_Bb7");
        }
        push_entry(&mut entries, "ASHARP7_Bb7", 372931);
        proof {
            reveal_strlit("B7");
        }
        push_entry(&mut entries, "B7", 395107);
        proof {
            reveal_strlit("C8");
        }
        push_entry(&mut entries, "C8", 418601);
        proof {
            reveal_strlit("CSHARP8_Db8");
        }
        push_entry(&mut entries, "CSHARP8_Db8", 443492);
        proof {
            reveal_strlit("D8");
        }
        push_entry(&mut entries, "D8", 469863);
        proof {
            reveal_strlit("DSHARP8_Eb8");
        }
        push_entry(&mut entries, "DSHARP8_Eb8", 497803);
        proof {
            reveal_strlit("E8");
        }
        push_entry(&mut entries, "E8", 527404);
        proof {
            reveal_strlit("F8");
        }
        push_entry(&mut entries, "F8", 558765);
        proof {
            reveal_strlit("FSHARP8_Gb8");
        }
        push_entry(&mut entries, "FSHARP8_Gb8", 591991);
        proof {
            reveal_strlit("G8");
        }
        push_entry(&mut entries, "G8", 627193);
        proof {
            reveal_strlit("GSHARP8_Ab8");
        }
        push_entry(&mut entries, "GSHARP8_Ab8", 664488);
        proof {
            reveal_strlit("A8");
        }
        push_entry(&mut entries, "A8", 704000);
        proof {
            reveal_strlit("ASHARP8_Bb8");
        }
        push_entry(&mut entries, "ASHARP8_Bb8", 745862);
        proof {
            reveal_strlit("B8");
        }
        push_entry(&mut entries, "B8", 790213);
        let r = NoteTable { entries };
        assert(names_unique(r@)) by {
            assert forall|i: int, j: int| 0 <= i < j < r@.len() implies r@[i].0 != r@[j].0 by {
                assert(note_rank(r@[i].0) < note_rank(r@[j].0));
            }
        }
        r
    }
}

/// The frequency, in hundredths of a hertz, of the note named `note`, or an
/// error naming it when `table` does not hold it.
pub fn parse_note(table: &NoteTable, note: &str) -> (r: Result<u32, ParseError>)
    ensures
        match lookup(table@, note@) {
            Some(f) => r == Ok::<u32, ParseError>(f),
            None => r matches Err(e) && e@ == unknown_note_message(note@),
        },
{
    let name = note.to_owned();
    let n = table.entries.len();
    let mut i: usize = 0;
    assert(table@.skip(0) =~= table@);
    while i < n
        invariant
            n == table.entries@.len(),
            0 <= i <= n,
            name@ == note@,
            lookup(table@, note@) == lookup(table@.skip(i as int), note@),
        decreases n - i,
    {
        let entry = &table.entries[i];
        assert(table@.skip(i as int)[0] == (entry.0@, entry.1));
        assert(table@.skip(i as int).drop_first() =~= table@.skip(i + 1));
        if entry.0 == name {
            return Ok(entry.1);
        }
        i = i + 1;
    }
    let mut msg = String::from_str("Can't parse note description: ");
    msg.append(note);
    Err(ParseError { details: msg })
}

/// Whether a frequency is the rest `MUTE`.
pub fn is_mute(note_frequency: u32) -> (r: bool)
    ensures
        r == (note_frequency == 0),
{
    note_frequency == 0
}

} // verus!
