//! The store of notes: its layout, the record that a new note is stored as,
//! and the collection of the notes that a cursor over the store walks.
use vstd::prelude::*;
use crate::jasper_ji::decimal::is_digit;
use crate::jasper_ji::note::{Note, WriteNote};

verus! {

/// The name of the browser database that holds the notes.
pub const DB_NAME: &'static str = "notepad";

/// The version of that database's layout.
pub const DB_VERSION: u32 = 1;

/// The object store of notes; its keys count up on their own.
pub const STORE_NAME: &'static str = "note";

/// The field of a stored note that holds its key.
pub const KEY_PATH: &'static str = "id";

/// Whether the store counts the keys of new notes up on its own.
pub const AUTO_INCREMENT: bool = true;

/// How the time a note was written is shown: `2024-01-31 23:59:59`.
pub const DATE_FORMAT_STR: &'static str = "%Y-%m-%d %H:%M:%S";

/// The characters of `DATE_FORMAT_STR`.
pub open spec fn date_format() -> Seq<char> {
    seq!['%', 'Y', '-', '%', 'm', '-', '%', 'd', ' ', '%', 'H', ':', '%', 'M', ':', '%', 'S']
}

/// The first millisecond of the year 0 (0000-01-01 00:00:00 UTC).
pub open spec fn first_four_digit_millis() -> int {
    -62_167_219_200_000
}

/// The first millisecond of the year 10000 (10000-01-01 00:00:00 UTC).
pub open spec fn past_four_digit_millis() -> int {
    253_402_300_800_000
}

/// The shape of a time written as `DATE_FORMAT_STR` says, for a year of four
/// digits: `dddd-dd-dd dd:dd:dd`.
pub open spec fn is_time_text(t: Seq<char>) -> bool {
    &&& t.len() == 19
    &&& t[4] == '-'
    &&& t[7] == '-'
    &&& t[10] == ' '
    &&& t[13] == ':'
    &&& t[16] == ':'
    &&& forall|i: int|
        0 <= i < 19 && i != 4 && i != 7 && i != 10 && i != 13 && i != 16 ==> is_digit(
            #[trigger] t[i],
        )
}

/// What chrono writes for the instant `millis` milliseconds after
/// 1970-01-01 00:00:00 UTC, formatted in UTC with the strftime format `fmt`;
/// `None` where chrono holds the number of milliseconds out of its range.
pub uninterp spec fn utc_text(millis: i64, fmt: Seq<char>) -> Option<Seq<char>>;

/// Calls chrono's `DateTime::<Utc>::from_timestamp_millis(millis)` and, when
/// that gives a time, its `format(fmt)` written out with `to_string`.
/// Claimed: the result is `utc_text(millis, fmt)`, a function of the two
/// arguments alone; and, for an instant in the years 0 to 9999, which chrono
/// holds in range, a text of the shape `dddd-dd-dd dd:dd:dd` (chrono pads
/// every field of this format with zeros to its width). Which other numbers
/// of milliseconds chrono holds in range, and which digits it writes, is
/// left unsaid here. The format is held to the one this library uses, on
/// which chrono's writing does not fail.
#[verifier::external_body]
fn format_utc_millis(millis: i64, fmt: &str) -> (r: Option<String>)
    requires
        fmt@ == date_format(),
    ensures
        match r {
            Some(s) => utc_text(millis, fmt@) == Some(s@),
            None => utc_text(millis, fmt@) is None,
        },
        match r {
            Some(s) => first_four_digit_millis() <= millis < past_four_digit_millis()
                ==> is_time_text(s@),
            None => !(first_four_digit_millis() <= millis < past_four_digit_millis()),
        },
{
    let dt = chrono::DateTime::<chrono::Utc>::from_timestamp_millis(millis)?;
    Some(dt.format(fmt).to_string())
}

impl WriteNote {
    /// The record of a new note with text `content`, stamped with the
    /// written-out time `create_time` when there is one.
    pub fn stamped(content: &String, create_time: Option<String>) -> (r: Option<WriteNote>)
        ensures
            r == match create_time {
                Some(t) => Some(WriteNote { content: *content, create_time: t }),
                None => None,
            },
    {
        match create_time {
            Some(t) => Some(WriteNote { content: content.clone(), create_time: t }),
            None => None,
        }
    }
}

/// The record that a note with text `content`, written `now_millis`
/// milliseconds after 1970-01-01 00:00:00 UTC, is stored as: the text, and
/// the time in UTC written as `DATE_FORMAT_STR` says. `None` where chrono
/// cannot hold the time. In the years 0 to 9999 there is always a record,
/// and its time reads `dddd-dd-dd dd:dd:dd`.
pub fn new_note(content: &String, now_millis: i64) -> (r: Option<WriteNote>)
    ensures
        match utc_text(now_millis, date_format()) {
            Some(t) => r matches Some(w) && w.content == *content && w.create_time@ == t,
            None => r is None,
        },
        first_four_digit_millis() <= now_millis < past_four_digit_millis() ==> (r matches Some(w)
            && is_time_text(w.create_time@)),
{
    proof {
        reveal_strlit("%Y-%m-%d %H:%M:%S");
        assert(DATE_FORMAT_STR@ =~= date_format());
    }
    let time = format_utc_millis(now_millis, DATE_FORMAT_STR);
    WriteNote::stamped(content, time)
}

/// What a cursor over the store reports.
pub enum CursorEvent {
    /// The next stored note.
    Row(Note),
    /// The cursor has passed the last note.
    End,
}

/// What to do after a report of the cursor.
pub enum CursorStep {
    /// Move the cursor on.
    Continue,
    /// The walk is over: hand out these notes.
    Deliver(Vec<Note>),
}

/// Collects the notes of one walk of a cursor over the store.
pub struct NoteCursor {
    collected: Vec<Note>,
    finished: bool,
}

impl View for NoteCursor {
    type V = (Seq<Note>, bool);

    /// The notes collected so far, and whether the walk is over.
    closed spec fn view(&self) -> (Seq<Note>, bool) {
        (self.collected@, self.finished)
    }
}

/// The collector after one report.
pub open spec fn after_event(state: (Seq<Note>, bool), e: CursorEvent) -> (Seq<Note>, bool) {
    match e {
        CursorEvent::Row(n) => (state.0.push(n), state.1),
        CursorEvent::End => (Seq::empty(), true),
    }
}

/// The notes that one report hands out, if any.
pub open spec fn delivered(state: (Seq<Note>, bool), e: CursorEvent) -> Option<Seq<Note>> {
    match e {
        CursorEvent::Row(_) => None,
        CursorEvent::End => Some(state.0),
    }
}

/// The collector after a run of reports.
pub open spec fn after_events(state: (Seq<Note>, bool), events: Seq<CursorEvent>) -> (
    Seq<Note>,
    bool,
)
    decreases events.len(),
{
    if events.len() == 0 {
        state
    } else {
        after_event(after_events(state, events.drop_last()), events.last())
    }
}

/// The reports of a cursor that walks over `notes`, before its end.
pub open spec fn rows_of(notes: Seq<Note>) -> Seq<CursorEvent> {
    notes.map_values(|n: Note| CursorEvent::Row(n))
}

impl NoteCursor {
    /// A collector before the walk.
    pub fn new() -> (r: NoteCursor)
        ensures
            r@ == (Seq::<Note>::empty(), false),
    {
        NoteCursor { collected: Vec::new(), finished: false }
    }

    /// Whether the walk is over.
    pub fn is_finished(&self) -> (r: bool)
        ensures
            r == self@.1,
    {
        self.finished
    }

    /// Takes one report of the cursor. A walk ends once.
    pub fn step(&mut self, event: CursorEvent) -> (r: CursorStep)
        requires
            !(old(self)@.1 && event is End),
        ensures
            final(self)@ == after_event(old(self)@, event),
            match delivered(old(self)@, event) {
                Some(notes) => r matches CursorStep::Deliver(v) && v@ == notes,
                None => r is Continue,
            },
    {
        match event {
            CursorEvent::Row(note) => {
                self.collected.push(note);
                CursorStep::Continue
            },
            CursorEvent::End => {
                let mut all: Vec<Note> = Vec::new();
                std::mem::swap(&mut all, &mut self.collected);
                self.finished = true;
                CursorStep::Deliver(all)
            },
        }
    }
}

/// A walk over the stored notes hands out exactly those notes, in the
/// order the cursor met them, and nothing before its end.
pub proof fn lemma_walk_delivers_rows(notes: Seq<Note>)
    ensures
        after_events((Seq::empty(), false), rows_of(notes)) == (notes, false),
        delivered(after_events((Seq::empty(), false), rows_of(notes)), CursorEvent::End) == Some(
            notes,
        ),
        after_event(after_events((Seq::empty(), false), rows_of(notes)), CursorEvent::End).1,
        after_events((Seq::empty(), false), rows_of(notes).push(CursorEvent::End)).1,
    decreases notes.len(),
{
    if notes.len() == 0 {
        assert(rows_of(notes) =~= Seq::<CursorEvent>::empty());
        assert(rows_of(notes).push(CursorEvent::End).drop_last() =~= rows_of(notes));
    } else {
        assert(rows_of(notes).push(CursorEvent::End).drop_last() =~= rows_of(notes));
        lemma_walk_delivers_rows(notes.drop_last());
        assert(rows_of(notes).drop_last() =~= rows_of(notes.drop_last()));
        assert(notes.drop_last().push(notes.last()) =~= notes);
    }
}

} // verus!
