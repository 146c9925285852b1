//! What the outside world reports back to a call in progress.

use crate::value::{rows_view, Value, ValueView};
use vstd::prelude::*;

verus! {

/// The outcome of one piece of outside work.
#[derive(Debug)]
pub enum Event {
    /// The statement ran; these are its rows, in the order in which they came.
    Rows(Vec<Vec<Value>>),
    /// The statement failed, and left the table as it was.
    StatementFailed(String),
    /// Local and remote state were exchanged.
    Synced,
    /// The exchange with the remote endpoint failed.
    SyncFailed(String),
}

/// What an `Event` stands for.
pub enum EventView {
    Rows(Seq<Seq<ValueView>>),
    StatementFailed(Seq<char>),
    Synced,
    SyncFailed(Seq<char>),
}

impl View for Event {
    type V = EventView;

    open spec fn view(&self) -> EventView {
        match self {
            Event::Rows(rows) => EventView::Rows(rows_view(rows@)),
            Event::StatementFailed(msg) => EventView::StatementFailed(msg@),
            Event::Synced => EventView::Synced,
            Event::SyncFailed(msg) => EventView::SyncFailed(msg@),
        }
    }
}

impl EventView {
    /// Whether the event reports on a statement, not on a sync.
    pub open spec fn of_statement(self) -> bool {
        self is Rows || self is StatementFailed
    }
}

} // verus!
