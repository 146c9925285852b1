//! Whole calls on a table held in memory: the coordinator's steps, one after
//! the other, with the table as the local store and a remote endpoint that
//! is either reachable or not.

use crate::coordinator::{
    failure, sync_warning, Action, ActionView, Call, CallView, Phase, Reply, ReplyView, Request,
    RequestView, NOT_FOUND,
};
use crate::error::{ErrorKind, ErrorView};
use crate::event::{Event, EventView};
use crate::note::{lemma_row_round_trip, lemma_rows_round_trip, NoteView};
use crate::table::{
    holds, lemma_position, lemma_slot, position, run, slot, well_formed, NoteTable, DUPLICATE,
    UNBINDABLE,
};
use crate::value::max_timestamp;
use vstd::prelude::*;

verus! {

/// What a sync reports when the remote endpoint cannot be reached.
pub const UNREACHABLE: &'static str = "the remote endpoint is unreachable";

/// What a sync reports.
pub open spec fn sync_event(remote_up: bool) -> EventView {
    if remote_up {
        EventView::Synced
    } else {
        EventView::SyncFailed(UNREACHABLE@)
    }
}

/// The warning that a call carries after its sync.
pub open spec fn sync_outcome(remote_up: bool) -> Option<ErrorView> {
    if remote_up {
        None
    } else {
        sync_warning(UNREACHABLE@)
    }
}

/// The table and the reply after at most `fuel` more pieces of outside
/// work; no reply where the call has not ended by then.
pub open spec fn finish(
    table: Seq<NoteView>,
    call: CallView,
    action: ActionView,
    remote_up: bool,
    fuel: nat,
) -> (Seq<NoteView>, Option<ReplyView>)
    decreases fuel,
{
    match action {
        ActionView::Finish(reply) => (table, Some(reply)),
        ActionView::Run(statement) => if fuel == 0 {
            (table, None)
        } else {
            let (after, event) = run(table, statement);
            let (next, then) = call.step(event);
            finish(after, next, then, remote_up, (fuel - 1) as nat)
        },
        ActionView::Sync => if fuel == 0 {
            (table, None)
        } else {
            let (next, then) = call.step(sync_event(remote_up));
            finish(table, next, then, remote_up, (fuel - 1) as nat)
        },
    }
}

/// What a request does to the table and what it replies, said directly.
///
/// A listing replies with the table; a creation adds the fresh note unless
/// its id is taken; an update replaces title, text and update time of the
/// note it names, or fails where there is none; a deletion removes the note
/// it names, if there is one. A write whose timestamp has no SQL integer
/// fails. A sync that fails leaves a warning and nothing else.
pub open spec fn outcome(table: Seq<NoteView>, request: RequestView, remote_up: bool) -> (
    Seq<NoteView>,
    ReplyView,
) {
    let warning = sync_outcome(remote_up);
    match request {
        RequestView::List { fresh } => (
            table,
            ReplyView::Notes {
                notes: table,
                warning: if fresh {
                    warning
                } else {
                    None
                },
            },
        ),
        RequestView::Create { id, now } => {
            let note = NoteView::fresh(id, now);
            if now > max_timestamp() {
                (table, failure(ErrorKind::Write, UNBINDABLE@))
            } else if holds(table, id) {
                (table, failure(ErrorKind::Write, DUPLICATE@))
            } else {
                (table.insert(slot(table, now) as int, note), ReplyView::Note { note, warning })
            }
        },
        RequestView::Update { id, text, now } => {
            let p = position(table, id) as int;
            if now > max_timestamp() {
                (table, failure(ErrorKind::Write, UNBINDABLE@))
            } else if !holds(table, id) {
                (table, failure(ErrorKind::NotFound, NOT_FOUND@))
            } else {
                let note = table[p].edited(text, now);
                (table.update(p, note), ReplyView::Note { note, warning })
            }
        },
        RequestView::Delete { id } => (
            if holds(table, id) {
                table.remove(position(table, id) as int)
            } else {
                table
            },
            ReplyView::Deleted { warning },
        ),
    }
}

/// A call that has not begun.
pub open spec fn idle(request: RequestView) -> CallView {
    CallView { request, phase: Phase::Idle, held: None, warning: None }
}

/// The steps of a call, run on a well-formed table, end within four pieces
/// of outside work, and end as `outcome` says.
pub proof fn lemma_steps_give_outcome(table: Seq<NoteView>, request: RequestView, remote_up: bool)
    requires
        well_formed(table),
    ensures
        finish(table, idle(request).begin().0, idle(request).begin().1, remote_up, 4) == (
            outcome(table, request, remote_up).0,
            Some(outcome(table, request, remote_up).1),
        ),
{
    reveal_with_fuel(finish, 5);
    match request {
        RequestView::List { fresh } => {
            lemma_rows_round_trip(table);
        },
        RequestView::Create { id, now } => {
            let note = NoteView::fresh(id, now);
            if now <= max_timestamp() && !holds(table, id) {
                lemma_inserted(table, note);
                lemma_row_round_trip(note);
            }
        },
        RequestView::Update { id, text, now } => {
            lemma_position(table, id);
            if now <= max_timestamp() && holds(table, id) {
                let p = position(table, id) as int;
                let note = table[p].edited(text, now);
                let after = table.update(p, note);
                assert(after[p].id == id);
                lemma_position(after, id);
                assert(position(after, id) == p) by {
                    if position(after, id) < p {
                        assert(after[position(after, id) as int] == table[position(
                            after,
                            id,
                        ) as int]);
                    }
                }
                lemma_row_round_trip(note);
            }
        },
        RequestView::Delete { id } => {},
    }
}

/// After an insert the table holds the note under its id.
pub proof fn lemma_inserted(table: Seq<NoteView>, note: NoteView)
    requires
        well_formed(table),
        !holds(table, note.id),
    ensures
        slot(table, note.created_at) <= table.len(),
        holds(table.insert(slot(table, note.created_at) as int, note), note.id),
        table.insert(slot(table, note.created_at) as int, note)[position(
            table.insert(slot(table, note.created_at) as int, note),
            note.id,
        ) as int] == note,
{
    lemma_slot(table, note.created_at);
    let s = slot(table, note.created_at) as int;
    let after = table.insert(s, note);
    assert(after[s] == note);
    lemma_position(after, note.id);
    let p = position(after, note.id) as int;
    if p < s {
        assert(after[p] == table[p]);
    } else if p > s {
        assert(after[s].id == note.id);
    }
}

/// Runs a whole call on the table: does the work that each step names, on
/// the table for a statement, by `remote_up` for a sync, until the call
/// ends.
pub fn serve(table: &mut NoteTable, request: Request, remote_up: bool) -> (reply: Reply)
    requires
        old(table).wf(),
    ensures
        final(table).wf(),
        (final(table)@, reply@) == outcome(old(table)@, request@, remote_up),
{
    proof {
        lemma_steps_give_outcome(table@, request@, remote_up);
    }
    let first = Call::new(request).begin();
    let mut call = first.0;
    let mut action = first.1;
    let mut fuel: u8 = 4;
    loop
        invariant
            table.wf(),
            call.wf(),
            call@.names(action@),
            finish(table@, call@, action@, remote_up, fuel as nat) == (
                outcome(old(table)@, request@, remote_up).0,
                Some(outcome(old(table)@, request@, remote_up).1),
            ),
        decreases fuel,
    {
        let event = match action {
            Action::Finish(reply) => {
                return reply;
            },
            Action::Run(statement) => table.execute(&statement),
            Action::Sync => if remote_up {
                Event::Synced
            } else {
                Event::SyncFailed(UNREACHABLE.to_owned())
            },
        };
        assert(fuel > 0);
        let next = call.advance(event);
        call = next.0;
        action = next.1;
        fuel = fuel - 1;
    }
}

} // verus!
