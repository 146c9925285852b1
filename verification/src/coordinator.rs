//! The coordinator: one call on the store as a sequence of local statements
//! and a sync, decided step by step. The caller does the outside work that
//! each step names and hands back what came of it.

use crate::error::{warning_view, ErrorKind, ErrorView, StoreError};
use crate::event::{Event, EventView};
use crate::note::{
    describe_fault, fault_text, note_in, notes_from_rows, notes_in, notes_view, NoteItem,
    NoteView,
};
use crate::statement::{Statement, StatementView};
use crate::title::{derive_title, title_of};
use crate::value::{row_view, rows_view};
use vstd::prelude::*;

verus! {

/// What is reported when an update names an id that no note has.
pub const NOT_FOUND: &'static str = "no note has this id";

/// What is reported when a created note cannot be read back.
pub const NOT_STORED: &'static str = "the created note is not in the table";

/// What a caller asks of the store.
#[derive(Debug)]
pub enum Request {
    /// Every note, the most recently created first. A fresh listing pulls
    /// from the remote endpoint before it reads; a fast one does not.
    List { fresh: bool },
    /// A new note under `id`, created at `now`.
    Create { id: String, now: u64 },
    /// A new body for the note `id`, set at `now`.
    Update { id: String, text: String, now: u64 },
    /// The note `id` removed.
    Delete { id: String },
}

/// What a `Request` stands for.
pub enum RequestView {
    List { fresh: bool },
    Create { id: Seq<char>, now: u64 },
    Update { id: Seq<char>, text: Seq<char>, now: u64 },
    Delete { id: Seq<char> },
}

impl View for Request {
    type V = RequestView;

    open spec fn view(&self) -> RequestView {
        match self {
            Request::List { fresh } => RequestView::List { fresh: *fresh },
            Request::Create { id, now } => RequestView::Create { id: id@, now: *now },
            Request::Update { id, text, now } => RequestView::Update {
                id: id@,
                text: text@,
                now: *now,
            },
            Request::Delete { id } => RequestView::Delete { id: id@ },
        }
    }
}

/// Where a call stands.
#[derive(Debug, Clone, Copy, PartialEq, Eq, Structural)]
pub enum Phase {
    /// Nothing was asked of the outside yet.
    Idle,
    /// A fresh listing waits for its pull.
    PullInFlight,
    /// A listing waits for its rows.
    LocalReadInFlight,
    /// The writing statement runs.
    LocalWriteInFlight,
    /// The statement that reads the written row back runs.
    ReadBackInFlight,
    /// The local work is done and stands; the sync runs.
    SyncInFlight,
    /// Ended: the listing failed, or gave rows that are no notes.
    LocalReadFailed,
    /// Ended: a local statement of a write failed, or gave no note. Nothing
    /// was synced.
    LocalWriteFailed,
    /// Ended: a listing gave its notes.
    ReadOk,
    /// Ended: written locally and propagated.
    SyncOk,
    /// Ended: written locally; the propagation is pending.
    SyncFailed,
}

/// What a call has to tell its caller at the end.
#[derive(Debug)]
pub enum Reply {
    /// The listing; the warning is that of a pull that failed.
    Notes { notes: Vec<NoteItem>, warning: Option<StoreError> },
    /// The note as the table holds it after the write; the warning is that
    /// of a sync that failed.
    Note { note: NoteItem, warning: Option<StoreError> },
    /// The note is gone, or never was; the warning is that of a sync that
    /// failed.
    Deleted { warning: Option<StoreError> },
    /// The local store failed; nothing was synced.
    Failed(StoreError),
}

/// What a `Reply` stands for.
pub enum ReplyView {
    Notes { notes: Seq<NoteView>, warning: Option<ErrorView> },
    Note { note: NoteView, warning: Option<ErrorView> },
    Deleted { warning: Option<ErrorView> },
    Failed(ErrorView),
}

impl View for Reply {
    type V = ReplyView;

    open spec fn view(&self) -> ReplyView {
        match self {
            Reply::Notes { notes, warning } => ReplyView::Notes {
                notes: notes_view(notes@),
                warning: warning_view(*warning),
            },
            Reply::Note { note, warning } => ReplyView::Note {
                note: note@,
                warning: warning_view(*warning),
            },
            Reply::Deleted { warning } => ReplyView::Deleted { warning: warning_view(*warning) },
            Reply::Failed(e) => ReplyView::Failed(e@),
        }
    }
}

/// What the caller is to do next.
#[derive(Debug)]
pub enum Action {
    /// Run the statement on the local table and report its rows or failure.
    Run(Statement),
    /// Exchange local and remote state and report how it went.
    Sync,
    /// Nothing: the call has ended with this reply.
    Finish(Reply),
}

/// What an `Action` stands for.
pub enum ActionView {
    Run(StatementView),
    Sync,
    Finish(ReplyView),
}

impl View for Action {
    type V = ActionView;

    open spec fn view(&self) -> ActionView {
        match self {
            Action::Run(s) => ActionView::Run(s@),
            Action::Sync => ActionView::Sync,
            Action::Finish(r) => ActionView::Finish(r@),
        }
    }
}

/// A call in progress.
#[derive(Debug)]
pub struct Call {
    request: Request,
    phase: Phase,
    held: Option<NoteItem>,
    warning: Option<StoreError>,
}

/// What a `Call` stands for: the request, the phase, the note that was read
/// back and waits for the sync, and the warning of a pull that failed.
pub struct CallView {
    pub request: RequestView,
    pub phase: Phase,
    pub held: Option<NoteView>,
    pub warning: Option<ErrorView>,
}

impl View for Call {
    type V = CallView;

    closed spec fn view(&self) -> CallView {
        CallView {
            request: self.request@,
            phase: self.phase,
            held: match self.held {
                Some(n) => Some(n@),
                None => None,
            },
            warning: warning_view(self.warning),
        }
    }
}

/// A failure of the given kind.
pub open spec fn failure(kind: ErrorKind, msg: Seq<char>) -> ReplyView {
    ReplyView::Failed(ErrorView { kind, msg })
}

/// The warning that a failed sync leaves.
pub open spec fn sync_warning(msg: Seq<char>) -> Option<ErrorView> {
    Some(ErrorView { kind: ErrorKind::Sync, msg })
}

impl CallView {
    /// The id that the request names, where it names one.
    pub open spec fn id(self) -> Seq<char> {
        match self.request {
            RequestView::List { .. } => seq![],
            RequestView::Create { id, .. } => id,
            RequestView::Update { id, .. } => id,
            RequestView::Delete { id } => id,
        }
    }

    /// The call has ended.
    pub open spec fn ended(self) -> bool {
        self.phase == Phase::LocalReadFailed || self.phase == Phase::LocalWriteFailed
            || self.phase == Phase::ReadOk || self.phase == Phase::SyncOk || self.phase
            == Phase::SyncFailed
    }

    /// The phase fits the request, and from the sync on the note that a
    /// creation or an update read back is held.
    pub open spec fn wf(self) -> bool {
        let listing = self.request is List;
        match self.phase {
            Phase::PullInFlight | Phase::LocalReadInFlight | Phase::ReadOk
            | Phase::LocalReadFailed => listing,
            Phase::LocalWriteInFlight | Phase::LocalWriteFailed => !listing,
            Phase::ReadBackInFlight => !listing && !(self.request is Delete),
            Phase::SyncInFlight | Phase::SyncOk | Phase::SyncFailed => !listing && (
            self.request is Delete <==> self.held is None),
            _ => true,
        }
    }

    /// The call waits for this event.
    pub open spec fn awaits(self, event: EventView) -> bool {
        match self.phase {
            Phase::PullInFlight | Phase::SyncInFlight => !event.of_statement(),
            Phase::LocalReadInFlight | Phase::LocalWriteInFlight | Phase::ReadBackInFlight =>
                event.of_statement(),
            _ => false,
        }
    }

    /// The action is the one that the phase goes with: a statement or a
    /// sync while the call waits for its outcome, the reply once it ended.
    pub open spec fn names(self, action: ActionView) -> bool {
        match action {
            ActionView::Run(_) => self.phase == Phase::LocalReadInFlight || self.phase
                == Phase::LocalWriteInFlight || self.phase == Phase::ReadBackInFlight,
            ActionView::Sync => self.phase == Phase::PullInFlight || self.phase
                == Phase::SyncInFlight,
            ActionView::Finish(_) => self.ended(),
        }
    }

    /// The phase in which the call ends when its local work fails.
    pub open spec fn failed(self) -> Phase {
        if self.request is List {
            Phase::LocalReadFailed
        } else {
            Phase::LocalWriteFailed
        }
    }

    /// The call as it ends in a local failure.
    pub open spec fn fail(self, kind: ErrorKind, msg: Seq<char>) -> (CallView, ActionView) {
        (CallView { phase: self.failed(), ..self }, ActionView::Finish(failure(kind, msg)))
    }

    /// The first step: the call leaves `Idle`.
    pub open spec fn begin(self) -> (CallView, ActionView) {
        match self.request {
            RequestView::List { fresh } => if fresh {
                (CallView { phase: Phase::PullInFlight, ..self }, ActionView::Sync)
            } else {
                (
                    CallView { phase: Phase::LocalReadInFlight, ..self },
                    ActionView::Run(StatementView::SelectAll),
                )
            },
            RequestView::Create { id, now } => (
                CallView { phase: Phase::LocalWriteInFlight, ..self },
                ActionView::Run(StatementView::Insert { note: NoteView::fresh(id, now) }),
            ),
            RequestView::Update { id, text, now } => (
                CallView { phase: Phase::LocalWriteInFlight, ..self },
                ActionView::Run(
                    StatementView::Update { id, title: title_of(text), text, updated_at: now },
                ),
            ),
            RequestView::Delete { id } => (
                CallView { phase: Phase::LocalWriteInFlight, ..self },
                ActionView::Run(StatementView::Delete { id }),
            ),
        }
    }

    /// What the call tells its caller once its local work stands.
    pub open spec fn result(self, warning: Option<ErrorView>) -> ReplyView {
        match self.held {
            Some(note) => ReplyView::Note { note, warning },
            None => ReplyView::Deleted { warning },
        }
    }

    /// The step that an event brings: the call after it, and what the
    /// caller is to do next. It is meant for the events that the call
    /// awaits.
    pub open spec fn step(self, event: EventView) -> (CallView, ActionView)
        recommends
            self.awaits(event),
    {
        match self.phase {
            Phase::PullInFlight => (
                CallView {
                    phase: Phase::LocalReadInFlight,
                    warning: match event {
                        EventView::SyncFailed(msg) => sync_warning(msg),
                        _ => None,
                    },
                    ..self
                },
                ActionView::Run(StatementView::SelectAll),
            ),
            Phase::LocalReadInFlight => match event {
                EventView::Rows(rows) => match notes_in(rows) {
                    Ok(notes) => (
                        CallView { phase: Phase::ReadOk, ..self },
                        ActionView::Finish(ReplyView::Notes { notes, warning: self.warning }),
                    ),
                    Err(fault) => self.fail(ErrorKind::Query, fault_text(fault)),
                },
                EventView::StatementFailed(msg) => self.fail(ErrorKind::Query, msg),
                _ => (self, ActionView::Sync),
            },
            Phase::LocalWriteInFlight => match event {
                EventView::Rows(_) => if self.request is Delete {
                    (CallView { phase: Phase::SyncInFlight, held: None, ..self }, ActionView::Sync)
                } else {
                    (
                        CallView { phase: Phase::ReadBackInFlight, ..self },
                        ActionView::Run(StatementView::SelectById { id: self.id() }),
                    )
                },
                EventView::StatementFailed(msg) => self.fail(ErrorKind::Write, msg),
                _ => (self, ActionView::Sync),
            },
            Phase::ReadBackInFlight => match event {
                EventView::Rows(rows) => if rows.len() == 0 {
                    if self.request is Update {
                        self.fail(ErrorKind::NotFound, NOT_FOUND@)
                    } else {
                        self.fail(ErrorKind::Write, NOT_STORED@)
                    }
                } else {
                    match note_in(rows[0]) {
                        Ok(note) => (
                            CallView { phase: Phase::SyncInFlight, held: Some(note), ..self },
                            ActionView::Sync,
                        ),
                        Err(fault) => self.fail(ErrorKind::Write, fault_text(fault)),
                    }
                },
                EventView::StatementFailed(msg) => self.fail(ErrorKind::Write, msg),
                _ => (self, ActionView::Sync),
            },
            Phase::SyncInFlight => match event {
                EventView::SyncFailed(msg) => (
                    CallView { phase: Phase::SyncFailed, ..self },
                    ActionView::Finish(self.result(sync_warning(msg))),
                ),
                _ => (
                    CallView { phase: Phase::SyncOk, ..self },
                    ActionView::Finish(self.result(None)),
                ),
            },
            _ => (self, ActionView::Sync),
        }
    }
}

impl Call {
    /// What holds of every call that `new`, `begin` and `advance` made.
    pub open spec fn wf(&self) -> bool {
        self@.wf()
    }

    /// A call that has not begun.
    pub fn new(request: Request) -> (call: Call)
        ensures
            call@ == (CallView {
                request: request@,
                phase: Phase::Idle,
                held: None,
                warning: None,
            }),
            call.wf(),
    {
        Call { request, phase: Phase::Idle, held: None, warning: None }
    }

    /// Where the call stands.
    pub fn phase(&self) -> (phase: Phase)
        ensures
            phase == self@.phase,
    {
        self.phase
    }

    /// Whether the call has ended.
    pub fn ended(&self) -> (e: bool)
        ensures
            e == self@.ended(),
    {
        match self.phase {
            Phase::LocalReadFailed
            | Phase::LocalWriteFailed
            | Phase::ReadOk
            | Phase::SyncOk
            | Phase::SyncFailed => true,
            _ => false,
        }
    }

    /// Whether the call waits for this event.
    pub fn awaits(&self, event: &Event) -> (a: bool)
        ensures
            a == self@.awaits(event@),
    {
        let of_statement = match event {
            Event::Rows(_) => true,
            Event::StatementFailed(_) => true,
            _ => false,
        };
        match self.phase {
            Phase::PullInFlight | Phase::SyncInFlight => !of_statement,
            Phase::LocalReadInFlight | Phase::LocalWriteInFlight | Phase::ReadBackInFlight =>
                of_statement,
            _ => false,
        }
    }

    fn fail(self, kind: ErrorKind, msg: String) -> (next: (Call, Action))
        ensures
            (next.0@, next.1@) == self@.fail(kind, msg@),
    {
        let phase = match &self.request {
            Request::List { .. } => Phase::LocalReadFailed,
            _ => Phase::LocalWriteFailed,
        };
        (
            Call { request: self.request, phase, held: self.held, warning: self.warning },
            Action::Finish(Reply::Failed(StoreError::new(kind, msg))),
        )
    }

    fn id(&self) -> (id: String)
        ensures
            id@ == self@.id(),
    {
        match &self.request {
            Request::List { .. } => String::new(),
            Request::Create { id, .. } => id.clone(),
            Request::Update { id, .. } => id.clone(),
            Request::Delete { id } => id.clone(),
        }
    }

    /// Takes the first step of a call: names the first piece of outside
    /// work.
    pub fn begin(self) -> (next: (Call, Action))
        requires
            self@.phase == Phase::Idle,
        ensures
            (next.0@, next.1@) == self@.begin(),
            next.0.wf(),
            next.0@.names(next.1@),
    {
        let statement = match &self.request {
            Request::List { fresh } => {
                if *fresh {
                    return (
                        Call {
                            request: self.request,
                            phase: Phase::PullInFlight,
                            held: self.held,
                            warning: self.warning,
                        },
                        Action::Sync,
                    );
                }
                return (
                    Call {
                        request: self.request,
                        phase: Phase::LocalReadInFlight,
                        held: self.held,
                        warning: self.warning,
                    },
                    Action::Run(Statement::SelectAll),
                );
            },
            Request::Create { id, now } => Statement::Insert {
                note: NoteItem::fresh(id.clone(), *now),
            },
            Request::Update { id, text, now } => Statement::Update {
                id: id.clone(),
                title: derive_title(text.as_str()),
                text: text.clone(),
                updated_at: *now,
            },
            Request::Delete { id } => Statement::Delete { id: id.clone() },
        };
        (
            Call {
                request: self.request,
                phase: Phase::LocalWriteInFlight,
                held: self.held,
                warning: self.warning,
            },
            Action::Run(statement),
        )
    }

    /// Takes the step that an event brings: decides from what the outside
    /// work gave what is to be done next, or how the call ends.
    pub fn advance(self, event: Event) -> (next: (Call, Action))
        requires
            self.wf(),
            self@.awaits(event@),
        ensures
            (next.0@, next.1@) == self@.step(event@),
            next.0.wf(),
            next.0@.names(next.1@),
    {
        match self.phase {
            Phase::PullInFlight => {
                let warning = match event {
                    Event::SyncFailed(msg) => Some(StoreError::new(ErrorKind::Sync, msg)),
                    _ => None,
                };
                (
                    Call {
                        request: self.request,
                        phase: Phase::LocalReadInFlight,
                        held: self.held,
                        warning,
                    },
                    Action::Run(Statement::SelectAll),
                )
            },
            Phase::LocalReadInFlight => match event {
                Event::Rows(rows) => match notes_from_rows(&rows) {
                    Ok(notes) => {
                        let warning = match &self.warning {
                            Some(w) => Some(StoreError::new(w.kind, w.msg.clone())),
                            None => None,
                        };
                        (
                            Call {
                                request: self.request,
                                phase: Phase::ReadOk,
                                held: self.held,
                                warning: self.warning,
                            },
                            Action::Finish(Reply::Notes { notes, warning }),
                        )
                    },
                    Err(fault) => self.fail(ErrorKind::Query, describe_fault(fault)),
                },
                Event::StatementFailed(msg) => self.fail(ErrorKind::Query, msg),
                _ => (self, Action::Sync),
            },
            Phase::LocalWriteInFlight => match event {
                Event::Rows(_) => {
                    let deleting = match &self.request {
                        Request::Delete { .. } => true,
                        _ => false,
                    };
                    if deleting {
                        (
                            Call {
                                request: self.request,
                                phase: Phase::SyncInFlight,
                                held: None,
                                warning: self.warning,
                            },
                            Action::Sync,
                        )
                    } else {
                        let id = self.id();
                        (
                            Call {
                                request: self.request,
                                phase: Phase::ReadBackInFlight,
                                held: self.held,
                                warning: self.warning,
                            },
                            Action::Run(Statement::SelectById { id }),
                        )
                    }
                },
                Event::StatementFailed(msg) => self.fail(ErrorKind::Write, msg),
                _ => (self, Action::Sync),
            },
            Phase::ReadBackInFlight => match event {
                Event::Rows(rows) => {
                    if rows.len() == 0 {
                        let updating = match &self.request {
                            Request::Update { .. } => true,
                            _ => false,
                        };
                        if updating {
                            self.fail(ErrorKind::NotFound, NOT_FOUND.to_owned())
                        } else {
                            self.fail(ErrorKind::Write, NOT_STORED.to_owned())
                        }
                    } else {
                        assert(rows_view(rows@)[0] == row_view(rows@[0]@));
                        match NoteItem::from_row(&rows[0]) {
                            Ok(note) => (
                                Call {
                                    request: self.request,
                                    phase: Phase::SyncInFlight,
                                    held: Some(note),
                                    warning: self.warning,
                                },
                                Action::Sync,
                            ),
                            Err(fault) => self.fail(ErrorKind::Write, describe_fault(fault)),
                        }
                    }
                },
                Event::StatementFailed(msg) => self.fail(ErrorKind::Write, msg),
                _ => (self, Action::Sync),
            },
            Phase::SyncInFlight => {
                let (phase, warning) = match event {
                    Event::SyncFailed(msg) => (
                        Phase::SyncFailed,
                        Some(StoreError::new(ErrorKind::Sync, msg)),
                    ),
                    _ => (Phase::SyncOk, None),
                };
                let reply = match &self.held {
                    Some(note) => Reply::Note { note: note.duplicate(), warning },
                    None => Reply::Deleted { warning },
                };
                (
                    Call { request: self.request, phase, held: self.held, warning: self.warning },
                    Action::Finish(reply),
                )
            },
            _ => (self, Action::Sync),
        }
    }
}

} // verus!
