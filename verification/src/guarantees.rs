//! What holds of the steps of a call, and of whole calls on a well-formed
//! table, whatever the table, the ids, the texts and the clock readings are.

use crate::coordinator::{
    failure, sync_warning, ActionView, CallView, Phase, ReplyView, RequestView, NOT_FOUND,
};
use crate::error::ErrorKind;
use crate::event::EventView;
use crate::note::{lemma_placeholder_title, NoteView};
use crate::session::{lemma_inserted, outcome, sync_outcome};
use crate::table::{holds, lemma_position, lemma_slot, position, slot, well_formed};
use crate::title::{first_line, title_of};
use crate::value::max_timestamp;
use vstd::prelude::*;

verus! {

/// A note that was created is in the next listing, fresh or fast, under
/// its id, and its title is the first line of its text.
pub proof fn lemma_created_note_is_listed(
    table: Seq<NoteView>,
    id: Seq<char>,
    now: u64,
    fresh: bool,
    up_at_create: bool,
    up_at_list: bool,
)
    requires
        well_formed(table),
        outcome(table, RequestView::Create { id, now }, up_at_create).1 is Note,
    ensures
        ({
            let created = outcome(table, RequestView::Create { id, now }, up_at_create);
            let listed = outcome(created.0, RequestView::List { fresh }, up_at_list).1;
            &&& created.1->Note_note.id == id
            &&& listed is Notes
            &&& exists|i: int|
                0 <= i < listed->notes.len() && (#[trigger] listed->notes[i])
                    == created.1->Note_note && listed->notes[i].id == id && listed->notes[i].title
                    == first_line(listed->notes[i].text)
        }),
{
    let note = NoteView::fresh(id, now);
    lemma_inserted(table, note);
    lemma_placeholder_title();
    let after = table.insert(slot(table, now) as int, note);
    lemma_position(after, id);
    let listed = outcome(after, RequestView::List { fresh }, up_at_list).1;
    let p = position(after, id) as int;
    assert(listed->notes[p] == note);
}

/// The notes of the table after a run of updates of the note `id`, one for
/// each text and clock reading of `edits`, in their order.
pub open spec fn after_updates(table: Seq<NoteView>, id: Seq<char>, edits: Seq<(Seq<char>, u64)>)
    -> Seq<NoteView>
    decreases edits.len(),
{
    if edits.len() == 0 {
        table
    } else {
        outcome(
            after_updates(table, id, edits.drop_last()),
            RequestView::Update { id, text: edits.last().0, now: edits.last().1 },
            true,
        ).0
    }
}

/// An update returns the note under the id and creation time that it had,
/// with the title that the new text gives and the clock reading as its
/// update time; so the update time does not go back unless the clock does.
pub proof fn lemma_update_keeps_identity(
    table: Seq<NoteView>,
    id: Seq<char>,
    text: Seq<char>,
    now: u64,
    remote_up: bool,
)
    requires
        well_formed(table),
        outcome(table, RequestView::Update { id, text, now }, remote_up).1 is Note,
    ensures
        ({
            let before = table[position(table, id) as int];
            let after = outcome(table, RequestView::Update { id, text, now }, remote_up);
            let note = after.1->Note_note;
            &&& holds(table, id) && holds(after.0, id)
            &&& before.id == id
            &&& position(after.0, id) == position(table, id)
            &&& after.0[position(table, id) as int] == note
            &&& note.id == id
            &&& note.created_at == before.created_at
            &&& note.title == title_of(text)
            &&& note.text == text
            &&& note.updated_at == now
            &&& now >= before.updated_at ==> note.updated_at >= before.updated_at
        }),
{
    lemma_position(table, id);
    let p = position(table, id) as int;
    let after = outcome(table, RequestView::Update { id, text, now }, remote_up).0;
    assert(after[p].id == id);
    lemma_position(after, id);
    if position(after, id) < p {
        assert(after[position(after, id) as int] == table[position(after, id) as int]);
    }
}

/// However often a note is updated, with whatever texts and clock
/// readings, it keeps its place, its id and its creation time; and every
/// other note stays as it was.
pub proof fn lemma_updates_keep_identity(
    table: Seq<NoteView>,
    id: Seq<char>,
    edits: Seq<(Seq<char>, u64)>,
)
    requires
        well_formed(table),
    ensures
        ({
            let after = after_updates(table, id, edits);
            &&& well_formed(after)
            &&& after.len() == table.len()
            &&& forall|i: int|
                0 <= i < table.len() ==> (#[trigger] after[i]).id == table[i].id
                    && after[i].created_at == table[i].created_at
            &&& forall|i: int|
                0 <= i < table.len() && table[i].id != id ==> (#[trigger] after[i]) == table[i]
        }),
    decreases edits.len(),
{
    if edits.len() > 0 {
        let earlier = after_updates(table, id, edits.drop_last());
        lemma_updates_keep_identity(table, id, edits.drop_last());
        lemma_position(earlier, id);
        let request = RequestView::Update { id, text: edits.last().0, now: edits.last().1 };
        lemma_outcome_preserves(earlier, request, true);
    }
}

/// Whether each clock reading of `edits` is at least the one before it.
pub open spec fn clock_advances(edits: Seq<(Seq<char>, u64)>) -> bool {
    forall|i: int, j: int| 0 <= i < j < edits.len() ==> (#[trigger] edits[i]).1 <= (
    #[trigger] edits[j]).1
}

/// While the clock does not go back, the update time of a note does not
/// go back over a run of updates.
pub proof fn lemma_updates_advance(
    table: Seq<NoteView>,
    id: Seq<char>,
    edits: Seq<(Seq<char>, u64)>,
)
    requires
        well_formed(table),
        holds(table, id),
        clock_advances(edits),
        forall|i: int|
            0 <= i < edits.len() ==> table[position(table, id) as int].updated_at <= (
            #[trigger] edits[i]).1 <= max_timestamp(),
    ensures
        ({
            let p = position(table, id) as int;
            let after = after_updates(table, id, edits);
            &&& after.len() == table.len()
            &&& after[p].updated_at >= table[p].updated_at
            &&& edits.len() > 0 ==> after[p].updated_at == edits.last().1
        }),
    decreases edits.len(),
{
    lemma_position(table, id);
    if edits.len() > 0 {
        let front = edits.drop_last();
        let earlier = after_updates(table, id, front);
        assert(clock_advances(front)) by {
            assert forall|i: int, j: int| 0 <= i < j < front.len() implies (#[trigger] front[i]).1
                <= (#[trigger] front[j]).1 by {
                assert(front[i] == edits[i] && front[j] == edits[j]);
            }
        }
        assert forall|i: int| 0 <= i < front.len() implies table[position(
            table,
            id,
        ) as int].updated_at <= (#[trigger] front[i]).1 <= max_timestamp() by {
            assert(front[i] == edits[i]);
        }
        lemma_updates_advance(table, id, front);
        lemma_updates_keep_identity(table, id, front);
        let p = position(table, id) as int;
        assert(earlier[p].id == id);
        lemma_position(earlier, id);
        if position(earlier, id) < p {
            assert(earlier[position(earlier, id) as int].id == table[position(
                earlier,
                id,
            ) as int].id);
        }
        assert(edits.last() == edits[edits.len() - 1]);
    }
}

/// Every call leaves a well-formed table well-formed.
pub proof fn lemma_outcome_preserves(table: Seq<NoteView>, request: RequestView, remote_up: bool)
    requires
        well_formed(table),
    ensures
        well_formed(outcome(table, request, remote_up).0),
        outcome(table, request, remote_up).1 is Failed ==> outcome(table, request, remote_up).0
            == table,
{
    let after = outcome(table, request, remote_up).0;
    match request {
        RequestView::Create { id, now } => {
            if now <= max_timestamp() && !holds(table, id) {
                lemma_slot(table, now);
                let s = slot(table, now) as int;
                assert forall|i: int| 0 <= i < after.len() && i != s implies (
                #[trigger] after[i]).id != id by {
                    if i < s {
                        assert(after[i] == table[i]);
                    } else {
                        assert(after[i] == table[i - 1]);
                    }
                }
                assert(well_formed(after));
            }
        },
        RequestView::Update { id, text, now } => {
            lemma_position(table, id);
        },
        RequestView::Delete { id } => {
            lemma_position(table, id);
        },
        _ => {},
    }
}

/// Deleting an id that no note has succeeds and changes nothing, as often
/// as it is done; and after any deletion no note has the id.
pub proof fn lemma_delete_is_idempotent(table: Seq<NoteView>, id: Seq<char>, remote_up: bool)
    requires
        well_formed(table),
    ensures
        ({
            let once = outcome(table, RequestView::Delete { id }, remote_up);
            let twice = outcome(once.0, RequestView::Delete { id }, remote_up);
            &&& once.1 == ReplyView::Deleted { warning: sync_outcome(remote_up) }
            &&& !holds(table, id) ==> once.0 == table
            &&& !holds(once.0, id)
            &&& twice == once
        }),
{
    lemma_position(table, id);
    let once = outcome(table, RequestView::Delete { id }, remote_up).0;
    if holds(table, id) {
        let p = position(table, id) as int;
        if holds(once, id) {
            let i = choose|i: int| 0 <= i < once.len() && (#[trigger] once[i]).id == id;
            if i < p {
                assert(once[i] == table[i]);
            } else {
                assert(once[i] == table[i + 1]);
                assert(table[p].id != table[i + 1].id);
            }
        }
    }
}

/// A listing gives the table as it stands, and in it a note that was
/// created later stands before one that was created earlier.
pub proof fn lemma_listing_is_newest_first(table: Seq<NoteView>, fresh: bool, remote_up: bool)
    requires
        well_formed(table),
    ensures
        ({
            let listed = outcome(table, RequestView::List { fresh }, remote_up);
            &&& listed.0 == table
            &&& listed.1 is Notes
            &&& listed.1->notes == table
            &&& forall|i: int, j: int|
                0 <= i < table.len() && 0 <= j < table.len() && (
                #[trigger] listed.1->notes[i]).created_at > (
                #[trigger] listed.1->notes[j]).created_at ==> i < j
        }),
{
}

/// A failed sync changes nothing but the warning: the table after the call
/// is the one that a successful sync leaves, and so is the reply, which
/// carries the warning.
pub proof fn lemma_sync_failure_is_a_warning(table: Seq<NoteView>, request: RequestView)
    ensures
        outcome(table, request, false).0 == outcome(table, request, true).0,
        outcome(table, request, true).1 is Failed ==> outcome(table, request, false).1 == outcome(
            table,
            request,
            true,
        ).1,
        match outcome(table, request, true).1 {
            ReplyView::Note { note, warning } => warning is None && outcome(
                table,
                request,
                false,
            ).1 == (ReplyView::Note { note, warning: sync_outcome(false) }),
            ReplyView::Deleted { warning } => warning is None && outcome(table, request, false).1
                == (ReplyView::Deleted { warning: sync_outcome(false) }),
            ReplyView::Notes { notes, warning } => warning is None && outcome(
                table,
                request,
                false,
            ).1 is Notes && outcome(table, request, false).1->notes == notes,
            ReplyView::Failed(_) => true,
        },
        sync_outcome(false) is Some && sync_outcome(false)->0.kind == ErrorKind::Sync,
{
}

/// An update of an id that no note has fails as not found and leaves the
/// table as it was, so the next listing is the one before.
pub proof fn lemma_update_of_absent_note(
    table: Seq<NoteView>,
    id: Seq<char>,
    text: Seq<char>,
    now: u64,
    remote_up: bool,
)
    requires
        !holds(table, id),
        now <= max_timestamp(),
    ensures
        outcome(table, RequestView::Update { id, text, now }, remote_up) == (
            table,
            failure(ErrorKind::NotFound, NOT_FOUND@),
        ),
        forall|fresh: bool, up: bool|
            outcome(
                outcome(table, RequestView::Update { id, text, now }, remote_up).0,
                RequestView::List { fresh },
                up,
            ) == outcome(table, RequestView::List { fresh }, up),
{
}

/// Every note of the table carries the title that its text gives.
pub open spec fn titles_derived(table: Seq<NoteView>) -> bool {
    forall|i: int| 0 <= i < table.len() ==> (#[trigger] table[i]).title == title_of(table[i].text)
}

/// No note of the table was updated before it was created.
pub open spec fn times_ordered(table: Seq<NoteView>) -> bool {
    forall|i: int| 0 <= i < table.len() ==> (#[trigger] table[i]).created_at <= table[i].updated_at
}

/// No call makes a title differ from what its text gives: a title is never
/// set on its own.
pub proof fn lemma_titles_stay_derived(table: Seq<NoteView>, request: RequestView, remote_up: bool)
    requires
        well_formed(table),
        titles_derived(table),
    ensures
        titles_derived(outcome(table, request, remote_up).0),
{
    let after = outcome(table, request, remote_up).0;
    lemma_placeholder_title();
    match request {
        RequestView::Create { id, now } => {
            if now <= max_timestamp() && !holds(table, id) {
                lemma_slot(table, now);
                let s = slot(table, now) as int;
                assert forall|i: int| 0 <= i < after.len() implies (#[trigger] after[i]).title
                    == title_of(after[i].text) by {
                    if i < s {
                        assert(after[i] == table[i]);
                    } else if i > s {
                        assert(after[i] == table[i - 1]);
                    }
                }
            }
        },
        RequestView::Update { id, text, now } => {
            lemma_position(table, id);
        },
        RequestView::Delete { id } => {
            lemma_position(table, id);
            if holds(table, id) {
                let p = position(table, id) as int;
                assert forall|i: int| 0 <= i < after.len() implies (#[trigger] after[i]).title
                    == title_of(after[i].text) by {
                    if i < p {
                        assert(after[i] == table[i]);
                    } else {
                        assert(after[i] == table[i + 1]);
                    }
                }
            }
        },
        _ => {},
    }
}

/// While no update is made at a clock reading before the creation of the
/// note it names, no note is updated before it was created.
pub proof fn lemma_times_stay_ordered(table: Seq<NoteView>, request: RequestView, remote_up: bool)
    requires
        well_formed(table),
        times_ordered(table),
        request is Update && holds(table, request->Update_id) ==> table[position(
            table,
            request->Update_id,
        ) as int].created_at <= request->Update_now,
    ensures
        times_ordered(outcome(table, request, remote_up).0),
{
    let after = outcome(table, request, remote_up).0;
    match request {
        RequestView::Create { id, now } => {
            if now <= max_timestamp() && !holds(table, id) {
                lemma_slot(table, now);
                let s = slot(table, now) as int;
                assert forall|i: int| 0 <= i < after.len() implies (#[trigger] after[i]).created_at
                    <= after[i].updated_at by {
                    if i < s {
                        assert(after[i] == table[i]);
                    } else if i > s {
                        assert(after[i] == table[i - 1]);
                    }
                }
            }
        },
        RequestView::Update { id, text, now } => {
            lemma_position(table, id);
        },
        RequestView::Delete { id } => {
            lemma_position(table, id);
            if holds(table, id) {
                let p = position(table, id) as int;
                assert forall|i: int| 0 <= i < after.len() implies (#[trigger] after[i]).created_at
                    <= after[i].updated_at by {
                    if i < p {
                        assert(after[i] == table[i]);
                    } else {
                        assert(after[i] == table[i + 1]);
                    }
                }
            }
        },
        _ => {},
    }
}

/// A local statement that fails ends the call at once, with a failure that
/// is never one of the sync: a query failure for a listing, a write failure
/// for a write. No sync follows.
pub proof fn lemma_local_failure_ends_the_call(call: CallView, msg: Seq<char>)
    requires
        call.wf(),
        call.awaits(EventView::StatementFailed(msg)),
    ensures
        ({
            let (after, action) = call.step(EventView::StatementFailed(msg));
            &&& after.ended()
            &&& after.phase == call.failed()
            &&& action == ActionView::Finish(
                failure(
                    if call.request is List {
                        ErrorKind::Query
                    } else {
                        ErrorKind::Write
                    },
                    msg,
                ),
            )
        }),
{
}

/// A sync that fails after the local work never turns the result into a
/// failure: the call ends with the reply that a successful sync gives, and
/// the warning of the sync on it.
pub proof fn lemma_sync_failure_keeps_the_result(call: CallView, msg: Seq<char>)
    requires
        call.wf(),
        call.phase == Phase::SyncInFlight,
    ensures
        ({
            let (failed, with_warning) = call.step(EventView::SyncFailed(msg));
            let (synced, plain) = call.step(EventView::Synced);
            &&& failed.phase == Phase::SyncFailed && synced.phase == Phase::SyncOk
            &&& plain == ActionView::Finish(call.result(None))
            &&& with_warning == ActionView::Finish(call.result(sync_warning(msg)))
            &&& !(call.result(sync_warning(msg)) is Failed)
            &&& call.request is Delete <==> call.result(None) is Deleted
        }),
{
}

} // verus!
