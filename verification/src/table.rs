//! The notes table as a value: what each statement reads from it and does
//! to it. The table is kept in the order in which `SelectAll` lists it.

use crate::event::{Event, EventView};
use crate::note::{notes_view, NoteItem, NoteView};
use crate::statement::{Statement, StatementView};
use crate::value::{max_timestamp, rows_view, Value, ValueView};
use vstd::prelude::*;

verus! {

/// What a statement reports when a timestamp has no SQL integer.
pub const UNBINDABLE: &'static str = "u64 is too large to fit in an i64";

/// What an insert reports when the id is taken.
pub const DUPLICATE: &'static str = "UNIQUE constraint failed: notes.id";

/// Whether some note of the table has this id.
pub open spec fn holds(table: Seq<NoteView>, id: Seq<char>) -> bool {
    exists|i: int| 0 <= i < table.len() && (#[trigger] table[i]).id == id
}

/// The index of the first note with this id; the length where there is none.
pub open spec fn position(table: Seq<NoteView>, id: Seq<char>) -> nat
    decreases table.len(),
{
    if table.len() == 0 || table[0].id == id {
        0
    } else {
        1 + position(table.drop_first(), id)
    }
}

/// The index at which a note created at `at` is listed: behind every note
/// that is as recent or more recent.
pub open spec fn slot(table: Seq<NoteView>, at: u64) -> nat
    decreases table.len(),
{
    if table.len() == 0 || table[0].created_at < at {
        0
    } else {
        1 + slot(table.drop_first(), at)
    }
}

/// The most recently created note comes first.
pub open spec fn newest_first(table: Seq<NoteView>) -> bool {
    forall|i: int, j: int|
        0 <= i < j < table.len() ==> (#[trigger] table[i]).created_at >= (
        #[trigger] table[j]).created_at
}

/// No two notes share an id.
pub open spec fn distinct(table: Seq<NoteView>) -> bool {
    forall|i: int, j: int|
        0 <= i < j < table.len() ==> (#[trigger] table[i]).id != (#[trigger] table[j]).id
}

/// Every timestamp of the table has an SQL integer.
pub open spec fn storable(table: Seq<NoteView>) -> bool {
    forall|i: int|
        0 <= i < table.len() ==> (#[trigger] table[i]).created_at <= max_timestamp()
            && table[i].updated_at <= max_timestamp()
}

/// What holds of every table: the id is a key, the order is that of the
/// listing, and every value is one that a row can hold.
pub open spec fn well_formed(table: Seq<NoteView>) -> bool {
    &&& newest_first(table)
    &&& distinct(table)
    &&& storable(table)
}

/// The rows of the notes, in their order.
pub open spec fn rows_of(notes: Seq<NoteView>) -> Seq<Seq<ValueView>> {
    notes.map_values(|n: NoteView| n.row())
}

/// The table after the statement, and what the statement reports.
pub open spec fn run(table: Seq<NoteView>, statement: StatementView) -> (Seq<NoteView>, EventView) {
    let no_rows = EventView::Rows(seq![]);
    if !statement.bindable() {
        (table, EventView::StatementFailed(UNBINDABLE@))
    } else {
        match statement {
            StatementView::SelectAll => (table, EventView::Rows(rows_of(table))),
            StatementView::SelectById { id } => if holds(table, id) {
                (table, EventView::Rows(seq![table[position(table, id) as int].row()]))
            } else {
                (table, no_rows)
            },
            StatementView::Insert { note } => if holds(table, note.id) {
                (table, EventView::StatementFailed(DUPLICATE@))
            } else {
                (table.insert(slot(table, note.created_at) as int, note), no_rows)
            },
            StatementView::Update { id, title, text, updated_at } => if holds(table, id) {
                let p = position(table, id) as int;
                (table.update(p, NoteView { title, text, updated_at, ..table[p] }), no_rows)
            } else {
                (table, no_rows)
            },
            StatementView::Delete { id } => if holds(table, id) {
                (table.remove(position(table, id) as int), no_rows)
            } else {
                (table, no_rows)
            },
        }
    }
}

/// `position` is the first index that holds the id, and the length exactly
/// where no index does.
pub proof fn lemma_position(table: Seq<NoteView>, id: Seq<char>)
    ensures
        position(table, id) <= table.len(),
        forall|i: int| 0 <= i < position(table, id) ==> (#[trigger] table[i]).id != id,
        position(table, id) < table.len() ==> table[position(table, id) as int].id == id,
        holds(table, id) <==> position(table, id) < table.len(),
    decreases table.len(),
{
    if table.len() == 0 || table[0].id == id {
    } else {
        let rest = table.drop_first();
        lemma_position(rest, id);
        assert forall|i: int| 0 <= i < position(table, id) implies (#[trigger] table[i]).id
            != id by {
            if i > 0 {
                assert(rest[i - 1] == table[i]);
            }
        }
        let p = position(rest, id) as int;
        if p < rest.len() {
            assert(rest[p] == table[p + 1]);
        }
        if holds(table, id) {
            let i = choose|i: int| 0 <= i < table.len() && (#[trigger] table[i]).id == id;
            assert(rest[i - 1] == table[i]);
        }
    }
}

/// In a table with distinct ids, the id of a note is found at its index.
pub proof fn lemma_position_of(table: Seq<NoteView>, i: int)
    requires
        distinct(table),
        0 <= i < table.len(),
    ensures
        position(table, table[i].id) == i,
        holds(table, table[i].id),
{
    lemma_position(table, table[i].id);
}

/// `slot` stands behind the notes that are as recent as `at` or more, and
/// before those that are older.
pub proof fn lemma_slot(table: Seq<NoteView>, at: u64)
    requires
        newest_first(table),
    ensures
        slot(table, at) <= table.len(),
        forall|i: int| 0 <= i < slot(table, at) ==> (#[trigger] table[i]).created_at >= at,
        forall|i: int| slot(table, at) <= i < table.len() ==> (#[trigger] table[i]).created_at < at,
    decreases table.len(),
{
    if table.len() == 0 {
    } else if table[0].created_at < at {
        assert forall|i: int| 0 <= i < table.len() implies (#[trigger] table[i]).created_at
            < at by {
            if i > 0 {
                assert(table[0].created_at >= table[i].created_at);
            }
        }
    } else {
        let rest = table.drop_first();
        assert forall|i: int, j: int| 0 <= i < j < rest.len() implies (#[trigger] rest[i]).created_at
            >= (#[trigger] rest[j]).created_at by {
            assert(rest[i] == table[i + 1]);
            assert(rest[j] == table[j + 1]);
        }
        lemma_slot(rest, at);
        assert forall|i: int| 0 <= i < slot(table, at) implies (#[trigger] table[i]).created_at
            >= at by {
            if i > 0 {
                assert(rest[i - 1] == table[i]);
            }
        }
        assert forall|i: int| slot(table, at) <= i < table.len() implies (
        #[trigger] table[i]).created_at < at by {
            assert(rest[i - 1] == table[i]);
        }
    }
}

/// Every statement leaves a well-formed table well-formed, and a reading
/// statement, or one that fails, leaves it as it was.
pub proof fn lemma_run_preserves(table: Seq<NoteView>, statement: StatementView)
    requires
        well_formed(table),
    ensures
        well_formed(run(table, statement).0),
        !statement.writes() || run(table, statement).1 is StatementFailed ==> run(
            table,
            statement,
        ).0 == table,
{
    let after = run(table, statement).0;
    if statement.bindable() {
        match statement {
            StatementView::Insert { note } => {
                if !holds(table, note.id) {
                    lemma_slot(table, note.created_at);
                    let s = slot(table, note.created_at) as int;
                    assert forall|i: int| 0 <= i < after.len() && i != s implies (
                    #[trigger] after[i]).id != note.id by {
                        if i < s {
                            assert(after[i] == table[i]);
                        } else {
                            assert(after[i] == table[i - 1]);
                        }
                    }
                    assert(well_formed(after));
                }
            },
            StatementView::Update { id, title, text, updated_at } => {
                lemma_position(table, id);
            },
            StatementView::Delete { id } => {
                lemma_position(table, id);
            },
            _ => {},
        }
    }
}

/// A notes table held in memory.
#[derive(Debug)]
pub struct NoteTable {
    notes: Vec<NoteItem>,
}

impl View for NoteTable {
    type V = Seq<NoteView>;

    closed spec fn view(&self) -> Seq<NoteView> {
        notes_view(self.notes@)
    }
}

impl NoteTable {
    /// What holds of every table that `new` and `execute` made.
    pub open spec fn wf(&self) -> bool {
        well_formed(self@)
    }

    /// An empty table.
    pub fn new() -> (table: NoteTable)
        ensures
            table@ == Seq::<NoteView>::empty(),
            table.wf(),
    {
        let table = NoteTable { notes: Vec::new() };
        assert(table@ =~= Seq::<NoteView>::empty());
        table
    }

    /// The number of notes.
    pub fn len(&self) -> (n: usize)
        ensures
            n == self@.len(),
    {
        self.notes.len()
    }

    fn find(&self, id: &String) -> (p: usize)
        ensures
            p == position(self@, id@),
            p <= self@.len(),
            p < self@.len() <==> holds(self@, id@),
    {
        let mut p: usize = 0;
        while p < self.notes.len() && self.notes[p].id != *id
            invariant
                p <= self.notes.len(),
                forall|j: int| 0 <= j < p ==> (#[trigger] self@[j]).id != id@,
            decreases self.notes.len() - p,
        {
            assert(self@[p as int] == self.notes@[p as int]@);
            p = p + 1;
        }
        proof {
            if p < self.notes.len() {
                assert(self@[p as int] == self.notes@[p as int]@);
            }
            lemma_position(self@, id@);
        }
        p
    }

    fn slot_for(&self, at: u64) -> (s: usize)
        requires
            newest_first(self@),
        ensures
            s == slot(self@, at),
            s <= self@.len(),
    {
        let mut s: usize = 0;
        while s < self.notes.len() && self.notes[s].created_at >= at
            invariant
                s <= self.notes.len(),
                forall|j: int| 0 <= j < s ==> (#[trigger] self@[j]).created_at >= at,
            decreases self.notes.len() - s,
        {
            assert(self@[s as int] == self.notes@[s as int]@);
            s = s + 1;
        }
        proof {
            if s < self.notes.len() {
                assert(self@[s as int] == self.notes@[s as int]@);
            }
            lemma_slot(self@, at);
            let k = slot(self@, at) as int;
            if k < s {
                assert(self@[k].created_at < at);
            }
            if s < k {
                assert(self@[s as int].created_at >= at);
            }
        }
        s
    }

    fn rows(&self, from: usize, to: usize) -> (rows: Vec<Vec<Value>>)
        requires
            storable(self@),
            from <= to <= self@.len(),
        ensures
            rows_view(rows@) == rows_of(self@.subrange(from as int, to as int)),
    {
        let mut rows: Vec<Vec<Value>> = Vec::new();
        let mut i: usize = from;
        while i < to
            invariant
                storable(self@),
                from <= i <= to <= self.notes.len(),
                self@.len() == self.notes.len(),
                rows_view(rows@) =~= rows_of(self@.subrange(from as int, i as int)),
            decreases to - i,
        {
            assert(self@[i as int] == self.notes[i as int]@);
            let ghost before = rows@;
            match self.notes[i].to_row() {
                Some(row) => {
                    rows.push(row);
                    assert(rows_view(rows@) =~= rows_view(before).push(self@[i as int].row()));
                },
                None => {
                    assert(false);
                },
            }
            assert(self@.subrange(from as int, i + 1) =~= self@.subrange(
                from as int,
                i as int,
            ).push(self@[i as int]));
            i = i + 1;
        }
        rows
    }

    /// Runs one statement on the table and reports as the store would.
    pub fn execute(&mut self, statement: &Statement) -> (event: Event)
        requires
            old(self).wf(),
        ensures
            final(self).wf(),
            (final(self)@, event@) == run(old(self)@, statement@),
    {
        proof {
            lemma_run_preserves(self@, statement@);
        }
        let no_rows: Vec<Vec<Value>> = Vec::new();
        assert(rows_view(no_rows@) =~= seq![]);
        match statement {
            Statement::SelectAll => {
                assert(self@.subrange(0, self@.len() as int) =~= self@);
                Event::Rows(self.rows(0, self.notes.len()))
            },
            Statement::SelectById { id } => {
                let p: usize = self.find(id);
                if p < self.notes.len() {
                    let rows = self.rows(p, p + 1);
                    assert(rows_view(rows@) =~= seq![self@[p as int].row()]);
                    Event::Rows(rows)
                } else {
                    Event::Rows(no_rows)
                }
            },
            Statement::Insert { note } => {
                if note.created_at > 0x7fff_ffff_ffff_ffff || note.updated_at
                    > 0x7fff_ffff_ffff_ffff {
                    return Event::StatementFailed(UNBINDABLE.to_owned());
                }
                let p: usize = self.find(&note.id);
                if p < self.notes.len() {
                    Event::StatementFailed(DUPLICATE.to_owned())
                } else {
                    let s: usize = self.slot_for(note.created_at);
                    self.notes.insert(s, note.duplicate());
                    assert(self@ =~= old(self)@.insert(s as int, note@));
                    Event::Rows(no_rows)
                }
            },
            Statement::Update { id, title, text, updated_at } => {
                if *updated_at > 0x7fff_ffff_ffff_ffff {
                    return Event::StatementFailed(UNBINDABLE.to_owned());
                }
                let p: usize = self.find(id);
                if p < self.notes.len() {
                    assert(old(self)@[p as int] == self.notes[p as int]@);
                    let note = NoteItem {
                        id: self.notes[p].id.clone(),
                        title: title.clone(),
                        text: text.clone(),
                        created_at: self.notes[p].created_at,
                        updated_at: *updated_at,
                    };
                    self.notes.set(p, note);
                    assert(self@ =~= old(self)@.update(p as int, note@));
                }
                Event::Rows(no_rows)
            },
            Statement::Delete { id } => {
                let p: usize = self.find(id);
                if p < self.notes.len() {
                    self.notes.remove(p);
                    assert(self@ =~= old(self)@.remove(p as int));
                }
                Event::Rows(no_rows)
            },
        }
    }

    /// A copy of the notes, in the order of the listing.
    pub fn snapshot(&self) -> (notes: Vec<NoteItem>)
        ensures
            notes_view(notes@) == self@,
    {
        let mut notes: Vec<NoteItem> = Vec::new();
        let mut i: usize = 0;
        while i < self.notes.len()
            invariant
                i <= self.notes.len(),
                notes_view(notes@) =~= self@.take(i as int),
            decreases self.notes.len() - i,
        {
            let ghost before = notes@;
            let note = self.notes[i].duplicate();
            notes.push(note);
            assert(notes_view(notes@) =~= notes_view(before).push(note@));
            assert(self@[i as int] == self.notes@[i as int]@);
            assert(self@.take(i + 1) =~= self@.take(i as int).push(self@[i as int]));
            i = i + 1;
        }
        assert(self@.take(self@.len() as int) =~= self@);
        notes
    }
}

} // verus!
