//! The note entity and its mapping to and from a row of the notes table.

use crate::title::{first_line, lemma_line_end, title_of, NEW_NOTE_TITLE};
use crate::value::{
    max_timestamp, row_view, rows_view, text_in, timestamp_in, timestamp_value, value_text,
    value_timestamp, Value, ValueView,
};
use vstd::prelude::*;

verus! {

/// One note, as the notes table holds it.
#[derive(Debug)]
pub struct NoteItem {
    pub id: String,
    pub title: String,
    pub text: String,
    pub created_at: u64,
    pub updated_at: u64,
}

/// What a `NoteItem` stands for.
pub struct NoteView {
    pub id: Seq<char>,
    pub title: Seq<char>,
    pub text: Seq<char>,
    pub created_at: u64,
    pub updated_at: u64,
}

impl View for NoteItem {
    type V = NoteView;

    open spec fn view(&self) -> NoteView {
        NoteView {
            id: self.id@,
            title: self.title@,
            text: self.text@,
            created_at: self.created_at,
            updated_at: self.updated_at,
        }
    }
}

/// The views of a list of notes, in its order.
pub open spec fn notes_view(notes: Seq<NoteItem>) -> Seq<NoteView> {
    notes.map_values(|n: NoteItem| n@)
}

/// The number of columns of the notes table.
pub const COLUMNS: usize = 5;

impl NoteView {
    /// The title is the one that the text gives, and the note was not
    /// updated before it was created.
    pub open spec fn consistent(self) -> bool {
        &&& self.title == title_of(self.text)
        &&& self.created_at <= self.updated_at
    }

    /// The note that creation at time `now` stores under `id`: the
    /// placeholder as title and as body, both timestamps `now`.
    pub open spec fn fresh(id: Seq<char>, now: u64) -> NoteView {
        NoteView {
            id,
            title: NEW_NOTE_TITLE@,
            text: NEW_NOTE_TITLE@,
            created_at: now,
            updated_at: now,
        }
    }

    /// The note after an update at time `now` that sets its body to `text`.
    pub open spec fn edited(self, text: Seq<char>, now: u64) -> NoteView {
        NoteView { title: title_of(text), text, updated_at: now, ..self }
    }

    /// The row that holds the note, in column order.
    pub open spec fn row(self) -> Seq<ValueView> {
        seq![
            ValueView::Text(self.id),
            ValueView::Text(self.title),
            ValueView::Text(self.text),
            ValueView::Integer(self.created_at as int),
            ValueView::Integer(self.updated_at as int),
        ]
    }
}

/// Why a row is no note.
#[derive(Debug, Clone, Copy, PartialEq, Eq, Structural)]
pub enum RowFault {
    /// The row does not have the five columns of the notes table.
    Width,
    /// The column with this index does not hold what the schema says: a
    /// text in the first three, a non-negative integer in the last two.
    Column(usize),
}

/// Whether column `i` of `row` holds what the schema says.
pub open spec fn column_fits(row: Seq<ValueView>, i: int) -> bool {
    if i < 3 {
        text_in(row[i]) is Some
    } else {
        timestamp_in(row[i]) is Some
    }
}

/// The note that a row holds, or the first thing that is wrong with the row.
pub open spec fn note_in(row: Seq<ValueView>) -> Result<NoteView, RowFault> {
    if row.len() != 5 {
        Err(RowFault::Width)
    } else if !column_fits(row, 0) {
        Err(RowFault::Column(0))
    } else if !column_fits(row, 1) {
        Err(RowFault::Column(1))
    } else if !column_fits(row, 2) {
        Err(RowFault::Column(2))
    } else if !column_fits(row, 3) {
        Err(RowFault::Column(3))
    } else if !column_fits(row, 4) {
        Err(RowFault::Column(4))
    } else {
        Ok(
            NoteView {
                id: text_in(row[0])->0,
                title: text_in(row[1])->0,
                text: text_in(row[2])->0,
                created_at: timestamp_in(row[3])->0,
                updated_at: timestamp_in(row[4])->0,
            },
        )
    }
}

/// The view of a mapped row.
pub open spec fn mapped_view(r: Result<NoteItem, RowFault>) -> Result<NoteView, RowFault> {
    match r {
        Ok(n) => Ok(n@),
        Err(e) => Err(e),
    }
}

impl NoteItem {
    /// The note that creation at time `now` stores under `id`.
    pub fn fresh(id: String, now: u64) -> (note: NoteItem)
        ensures
            note@ == NoteView::fresh(id@, now),
            note@.consistent(),
    {
        proof {
            lemma_placeholder_title();
        }
        NoteItem {
            id,
            title: NEW_NOTE_TITLE.to_owned(),
            text: NEW_NOTE_TITLE.to_owned(),
            created_at: now,
            updated_at: now,
        }
    }

    /// Maps a row of the notes table, in the fixed column order, to a note.
    /// A row of another shape is refused, with the first fault found.
    pub fn from_row(row: &Vec<Value>) -> (r: Result<NoteItem, RowFault>)
        ensures
            mapped_view(r) == note_in(row_view(row@)),
    {
        if row.len() != COLUMNS {
            return Err(RowFault::Width);
        }
        proof {
            assert forall|i: int| 0 <= i < 5 implies #[trigger] row_view(row@)[i] == row@[i]@ by {}
        }
        let id = match value_text(&row[0]) {
            Some(s) => s,
            None => { return Err(RowFault::Column(0)); },
        };
        let title = match value_text(&row[1]) {
            Some(s) => s,
            None => { return Err(RowFault::Column(1)); },
        };
        let text = match value_text(&row[2]) {
            Some(s) => s,
            None => { return Err(RowFault::Column(2)); },
        };
        let created_at: u64 = match value_timestamp(&row[3]) {
            Some(t) => t,
            None => { return Err(RowFault::Column(3)); },
        };
        let updated_at: u64 = match value_timestamp(&row[4]) {
            Some(t) => t,
            None => { return Err(RowFault::Column(4)); },
        };
        Ok(NoteItem { id, title, text, created_at, updated_at })
    }

    /// The row that holds the note, where both timestamps have an SQL
    /// integer.
    pub fn to_row(&self) -> (row: Option<Vec<Value>>)
        ensures
            row is Some == (self.created_at <= max_timestamp() && self.updated_at
                <= max_timestamp()),
            row is Some ==> row_view(row->0@) == self@.row(),
    {
        let created = match timestamp_value(self.created_at) {
            Some(v) => v,
            None => { return None; },
        };
        let updated = match timestamp_value(self.updated_at) {
            Some(v) => v,
            None => { return None; },
        };
        let row = vec![
            Value::Text(self.id.clone()),
            Value::Text(self.title.clone()),
            Value::Text(self.text.clone()),
            created,
            updated,
        ];
        proof {
            assert(row_view(row@) =~= self@.row());
        }
        Some(row)
    }

    /// A copy of the note.
    pub fn duplicate(&self) -> (copy: NoteItem)
        ensures
            copy@ == self@,
    {
        NoteItem {
            id: self.id.clone(),
            title: self.title.clone(),
            text: self.text.clone(),
            created_at: self.created_at,
            updated_at: self.updated_at,
        }
    }
}

/// The placeholder is a title that stands for itself: it is one line, and
/// not an empty one.
pub proof fn lemma_placeholder_title()
    ensures
        title_of(NEW_NOTE_TITLE@) == NEW_NOTE_TITLE@,
        first_line(NEW_NOTE_TITLE@) == NEW_NOTE_TITLE@,
{
    reveal_strlit("New note..");
    let s = NEW_NOTE_TITLE@;
    assert(s.len() == 10);
    assert(forall|i: int| 0 <= i < 10 ==> s[i] != '\n');
    lemma_line_end(s, 10);
    assert(s.take(10) =~= s);
}

/// A row written from a note maps back to that note.
pub proof fn lemma_row_round_trip(note: NoteView)
    requires
        note.created_at <= max_timestamp(),
        note.updated_at <= max_timestamp(),
    ensures
        note_in(note.row()) == Ok::<NoteView, RowFault>(note),
{
}

/// What is reported of a row that has not five columns.
pub const WRONG_WIDTH: &'static str = "row does not have the five columns of a note";

/// What is reported of a row with a column of another type.
pub const WRONG_COLUMN: &'static str = "column does not hold what the schema says";

/// The words that describe a fault.
pub open spec fn fault_text(fault: RowFault) -> Seq<char> {
    match fault {
        RowFault::Width => WRONG_WIDTH@,
        RowFault::Column(_) => WRONG_COLUMN@,
    }
}

/// The words that describe a fault.
pub fn describe_fault(fault: RowFault) -> (text: String)
    ensures
        text@ == fault_text(fault),
{
    match fault {
        RowFault::Width => WRONG_WIDTH.to_owned(),
        RowFault::Column(_) => WRONG_COLUMN.to_owned(),
    }
}

/// The notes that the rows hold, in their order, or the fault of the first
/// row that is no note.
pub open spec fn notes_in(rows: Seq<Seq<ValueView>>) -> Result<Seq<NoteView>, RowFault>
    decreases rows.len(),
{
    if rows.len() == 0 {
        Ok(seq![])
    } else {
        match notes_in(rows.drop_last()) {
            Err(fault) => Err(fault),
            Ok(notes) => match note_in(rows.last()) {
                Err(fault) => Err(fault),
                Ok(note) => Ok(notes.push(note)),
            },
        }
    }
}

/// The view of a mapped result.
pub open spec fn mapped_list_view(r: Result<Vec<NoteItem>, RowFault>) -> Result<
    Seq<NoteView>,
    RowFault,
> {
    match r {
        Ok(notes) => Ok(notes_view(notes@)),
        Err(e) => Err(e),
    }
}

/// Maps the rows of a result to notes, in their order. One row that is no
/// note fails the whole result.
pub fn notes_from_rows(rows: &Vec<Vec<Value>>) -> (r: Result<Vec<NoteItem>, RowFault>)
    ensures
        mapped_list_view(r) == notes_in(rows_view(rows@)),
{
    let mut notes: Vec<NoteItem> = Vec::new();
    let mut i: usize = 0;
    let ghost all = rows_view(rows@);
    assert(notes_view(notes@) =~= seq![]);
    assert(all.take(0).len() == 0);
    while i < rows.len()
        invariant
            i <= rows.len(),
            all == rows_view(rows@),
            notes_in(all.take(i as int)) == Ok::<Seq<NoteView>, RowFault>(notes_view(notes@)),
        decreases rows.len() - i,
    {
        let ghost before = notes@;
        proof {
            assert(all.take(i + 1).drop_last() =~= all.take(i as int));
            assert(all.take(i + 1).last() == row_view(rows@[i as int]@));
        }
        match NoteItem::from_row(&rows[i]) {
            Ok(note) => {
                notes.push(note);
                assert(notes_view(notes@) =~= notes_view(before).push(note@));
            },
            Err(fault) => {
                proof {
                    lemma_fault_stays(all, i + 1);
                }
                return Err(fault);
            },
        }
        i = i + 1;
    }
    assert(all.take(i as int) =~= all);
    Ok(notes)
}

/// A fault among the first `k` rows is the fault of the whole result.
pub proof fn lemma_fault_stays(rows: Seq<Seq<ValueView>>, k: int)
    requires
        0 <= k <= rows.len(),
        notes_in(rows.take(k)) is Err,
    ensures
        notes_in(rows) == notes_in(rows.take(k)),
    decreases rows.len() - k,
{
    if k < rows.len() {
        assert(rows.take(k + 1).drop_last() =~= rows.take(k));
        lemma_fault_stays(rows, k + 1);
    } else {
        assert(rows.take(k) =~= rows);
    }
}

/// The rows written from notes, each with timestamps that a row can hold,
/// map back to those notes.
pub proof fn lemma_rows_round_trip(notes: Seq<NoteView>)
    requires
        forall|i: int|
            0 <= i < notes.len() ==> (#[trigger] notes[i]).created_at <= max_timestamp()
                && notes[i].updated_at <= max_timestamp(),
    ensures
        notes_in(notes.map_values(|n: NoteView| n.row())) == Ok::<Seq<NoteView>, RowFault>(notes),
    decreases notes.len(),
{
    let rows = notes.map_values(|n: NoteView| n.row());
    if notes.len() == 0 {
        assert(notes =~= seq![]);
    } else {
        let front = notes.drop_last();
        assert(rows.drop_last() =~= front.map_values(|n: NoteView| n.row()));
        lemma_rows_round_trip(front);
        lemma_row_round_trip(notes.last());
        assert(front.push(notes.last()) =~= notes);
    }
}

} // verus!
