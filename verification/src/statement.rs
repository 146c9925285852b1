//! The statements that the store runs on the notes table.

use crate::note::{NoteItem, NoteView};
use crate::value::{max_timestamp, row_view, timestamp_value, Value, ValueView};
use vstd::prelude::*;

verus! {

/// A statement on the notes table, with what its parameters are made from.
#[derive(Debug)]
pub enum Statement {
    /// Every note, the most recently created first.
    SelectAll,
    /// The note with this id, if there is one.
    SelectById { id: String },
    /// A new row that holds this note.
    Insert { note: NoteItem },
    /// New title, text and update time for the note with this id.
    Update { id: String, title: String, text: String, updated_at: u64 },
    /// No note with this id any more.
    Delete { id: String },
}

/// What a `Statement` stands for.
pub enum StatementView {
    SelectAll,
    SelectById { id: Seq<char> },
    Insert { note: NoteView },
    Update { id: Seq<char>, title: Seq<char>, text: Seq<char>, updated_at: u64 },
    Delete { id: Seq<char> },
}

impl View for Statement {
    type V = StatementView;

    open spec fn view(&self) -> StatementView {
        match self {
            Statement::SelectAll => StatementView::SelectAll,
            Statement::SelectById { id } => StatementView::SelectById { id: id@ },
            Statement::Insert { note } => StatementView::Insert { note: note@ },
            Statement::Update { id, title, text, updated_at } => StatementView::Update {
                id: id@,
                title: title@,
                text: text@,
                updated_at: *updated_at,
            },
            Statement::Delete { id } => StatementView::Delete { id: id@ },
        }
    }
}

pub const SELECT_ALL: &'static str = "SELECT * FROM notes order by created_at desc";

pub const SELECT_BY_ID: &'static str = "SELECT * from notes WHERE id = ?";

pub const INSERT: &'static str =
    "INSERT INTO notes (id, title, text, created_at, updated_at) VALUES (?, ?, ?, ?, ?)";

pub const UPDATE: &'static str =
    "UPDATE notes SET title = ?, text = ?, updated_at = ? WHERE id = ?";

pub const DELETE: &'static str = "DELETE from notes WHERE id = ?";

impl StatementView {
    /// The SQL text of the statement, with `?` for each parameter.
    pub open spec fn sql(self) -> Seq<char> {
        match self {
            StatementView::SelectAll => SELECT_ALL@,
            StatementView::SelectById { .. } => SELECT_BY_ID@,
            StatementView::Insert { .. } => INSERT@,
            StatementView::Update { .. } => UPDATE@,
            StatementView::Delete { .. } => DELETE@,
        }
    }

    /// Whether the statement changes the table.
    pub open spec fn writes(self) -> bool {
        !(self is SelectAll || self is SelectById)
    }

    /// Whether every timestamp of the statement has an SQL integer.
    pub open spec fn bindable(self) -> bool {
        match self {
            StatementView::Insert { note } => note.created_at <= max_timestamp()
                && note.updated_at <= max_timestamp(),
            StatementView::Update { updated_at, .. } => updated_at <= max_timestamp(),
            _ => true,
        }
    }

    /// The values of the parameters, in the order of the `?` of the SQL text.
    pub open spec fn params(self) -> Seq<ValueView> {
        match self {
            StatementView::SelectAll => seq![],
            StatementView::SelectById { id } => seq![ValueView::Text(id)],
            StatementView::Insert { note } => note.row(),
            StatementView::Update { id, title, text, updated_at } => seq![
                ValueView::Text(title),
                ValueView::Text(text),
                ValueView::Integer(updated_at as int),
                ValueView::Text(id),
            ],
            StatementView::Delete { id } => seq![ValueView::Text(id)],
        }
    }
}

impl Statement {
    /// The SQL text of the statement.
    pub fn sql(&self) -> (text: &'static str)
        ensures
            text@ == self@.sql(),
    {
        match self {
            Statement::SelectAll => SELECT_ALL,
            Statement::SelectById { .. } => SELECT_BY_ID,
            Statement::Insert { .. } => INSERT,
            Statement::Update { .. } => UPDATE,
            Statement::Delete { .. } => DELETE,
        }
    }

    /// Whether the statement changes the table.
    pub fn writes(&self) -> (w: bool)
        ensures
            w == self@.writes(),
    {
        match self {
            Statement::SelectAll => false,
            Statement::SelectById { .. } => false,
            _ => true,
        }
    }

    /// The parameters of the statement, in the order of the `?` of its SQL
    /// text; none where a timestamp has no SQL integer.
    pub fn params(&self) -> (values: Option<Vec<Value>>)
        ensures
            values is Some == self@.bindable(),
            values is Some ==> row_view(values->0@) == self@.params(),
    {
        match self {
            Statement::SelectAll => {
                let values: Vec<Value> = Vec::new();
                proof {
                    assert(row_view(values@) =~= self@.params());
                }
                Some(values)
            },
            Statement::SelectById { id } => {
                let values = vec![Value::Text(id.clone())];
                proof {
                    assert(row_view(values@) =~= self@.params());
                }
                Some(values)
            },
            Statement::Insert { note } => note.to_row(),
            Statement::Update { id, title, text, updated_at } => {
                match timestamp_value(*updated_at) {
                    Some(at) => {
                        let values = vec![
                            Value::Text(title.clone()),
                            Value::Text(text.clone()),
                            at,
                            Value::Text(id.clone()),
                        ];
                        proof {
                            assert(row_view(values@) =~= self@.params());
                        }
                        Some(values)
                    },
                    None => None,
                }
            },
            Statement::Delete { id } => {
                let values = vec![Value::Text(id.clone())];
                proof {
                    assert(row_view(values@) =~= self@.params());
                }
                Some(values)
            },
        }
    }
}

} // verus!
