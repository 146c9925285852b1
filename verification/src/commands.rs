//! The four operations that the store offers, each as the first step of a
//! call. A creation takes its id from a random UUID and its time from the
//! system clock; an update takes its time from the system clock.

use crate::coordinator::{Action, ActionView, Call, CallView, Phase, Request, RequestView};
use crate::error::{ErrorKind, ErrorView, StoreError};
use std::time::Duration;
use std::time::SystemTime;
use vstd::prelude::*;

verus! {

/// What is reported when the system clock stands before 1970.
pub const CLOCK_BEFORE_EPOCH: &'static str = "SystemTime before UNIX EPOCH!";

/// `std::time::SystemTime`: a reading of the system clock, carried from
/// `wall_clock` to `since_epoch`. Nothing is known of what it holds.
#[verifier::external_type_specification]
#[verifier::external_body]
pub struct ExSystemTime(std::time::SystemTime);

/// Whether `c` is a digit of lower-case hexadecimal.
pub open spec fn lower_hex(c: char) -> bool {
    ('0' <= c && c <= '9') || ('a' <= c && c <= 'f')
}

/// The text form of a random UUID: 32 lower-case hexadecimal digits in
/// groups of 8, 4, 4, 4 and 12 with a hyphen between them, the first digit
/// of the third group `4`, that of the fourth one of `8`, `9`, `a`, `b`.
pub open spec fn canonical_id(id: Seq<char>) -> bool {
    &&& id.len() == 36
    &&& forall|i: int|
        0 <= i < 36 ==> if i == 8 || i == 13 || i == 18 || i == 23 {
            id[i] == '-'
        } else {
            lower_hex(#[trigger] id[i])
        }
    &&& id[14] == '4'
    &&& (id[19] == '8' || id[19] == '9' || id[19] == 'a' || id[19] == 'b')
}

/// `uuid::Uuid::new_v4`, written out by `to_string`. The contract claims
/// the shape of the text, which is that of every version 4 UUID in the
/// hyphenated lower-case form, and nothing of which one it is.
#[verifier::external_body]
fn fresh_id() -> (id: String)
    ensures
        canonical_id(id@),
{
    uuid::Uuid::new_v4().to_string()
}

/// `std::time::SystemTime::now`. Nothing is claimed of the reading.
#[verifier::external_body]
fn wall_clock() -> (reading: SystemTime) {
    SystemTime::now()
}

/// `std::time::SystemTime::duration_since`, taken from the Unix epoch: the
/// time that passed since then, or nothing where the reading is earlier.
/// Nothing is claimed of the result.
#[verifier::external_body]
fn since_epoch(reading: &SystemTime) -> (passed: Option<Duration>) {
    match reading.duration_since(std::time::UNIX_EPOCH) {
        Ok(passed) => Some(passed),
        Err(_) => None,
    }
}

/// `std::time::Duration::as_secs`: the whole seconds of a duration.
/// Nothing is claimed of the result.
#[verifier::external_body]
fn whole_seconds(passed: &Duration) -> (seconds: u64) {
    passed.as_secs()
}

/// Reads the system clock: whole seconds since the Unix epoch, or nothing
/// where the clock stands before it.
fn unix_seconds() -> (seconds: Option<u64>) {
    let reading = wall_clock();
    match since_epoch(&reading) {
        Some(passed) => Some(whole_seconds(&passed)),
        None => None,
    }
}

/// The first step of the call for `request`.
pub open spec fn first_step(request: RequestView) -> (CallView, ActionView) {
    (CallView { request, phase: Phase::Idle, held: None, warning: None }).begin()
}

/// The view of the first step of a call, or of the failure that kept the
/// call from beginning.
pub open spec fn begun_view(r: Result<(Call, Action), StoreError>) -> Result<
    (CallView, ActionView),
    ErrorView,
> {
    match r {
        Ok(next) => Ok((next.0@, next.1@)),
        Err(e) => Err(e@),
    }
}

/// The failure of a call that needs the time while the clock stands before
/// the epoch.
pub open spec fn clock_failure() -> ErrorView {
    ErrorView { kind: ErrorKind::Configuration, msg: CLOCK_BEFORE_EPOCH@ }
}

/// What a creation under `id` begins with, given what the clock read.
pub open spec fn creation_step(id: Seq<char>, clock: Option<u64>) -> Result<
    (CallView, ActionView),
    ErrorView,
> {
    match clock {
        Some(now) => Ok(first_step(RequestView::Create { id, now })),
        None => Err(clock_failure()),
    }
}

/// What an update of the note `id` to `text` begins with, given what the
/// clock read.
pub open spec fn update_step(id: Seq<char>, text: Seq<char>, clock: Option<u64>) -> Result<
    (CallView, ActionView),
    ErrorView,
> {
    match clock {
        Some(now) => Ok(first_step(RequestView::Update { id, text, now })),
        None => Err(clock_failure()),
    }
}

fn begin(request: Request) -> (next: (Call, Action))
    ensures
        (next.0@, next.1@) == first_step(request@),
        next.0.wf(),
        next.0@.names(next.1@),
{
    Call::new(request).begin()
}

/// Begins a listing of all notes, the most recently created first. A fresh
/// listing pulls from the remote endpoint first; a fast one reads the
/// local table as it stands.
pub fn get_all_notes(fresh: bool) -> (next: (Call, Action))
    ensures
        (next.0@, next.1@) == first_step(RequestView::List { fresh }),
        next.0.wf(),
        next.0@.names(next.1@),
{
    begin(Request::List { fresh })
}

/// Begins the creation of a note under `id`, at the time that the clock
/// read.
pub fn new_note_at(id: String, clock: Option<u64>) -> (r: Result<(Call, Action), StoreError>)
    ensures
        begun_view(r) == creation_step(id@, clock),
        r is Ok ==> r->Ok_0.0.wf() && r->Ok_0.0@.names(r->Ok_0.1@),
{
    match clock {
        Some(now) => Ok(begin(Request::Create { id, now })),
        None => Err(StoreError::fixed(ErrorKind::Configuration, CLOCK_BEFORE_EPOCH)),
    }
}

/// Begins the creation of a note, under a random id and at the current
/// time.
pub fn new_note() -> (r: Result<(Call, Action), StoreError>)
    ensures
        exists|id: Seq<char>, clock: Option<u64>|
            canonical_id(id) && begun_view(r) == #[trigger] creation_step(id, clock),
        r is Ok ==> r->Ok_0.0.wf() && r->Ok_0.0@.names(r->Ok_0.1@),
{
    let id = fresh_id();
    let clock = unix_seconds();
    new_note_at(id, clock)
}

/// Begins the update of the note `id` to the body `new_text`, at the time
/// that the clock read.
pub fn update_note_at(id: String, new_text: String, clock: Option<u64>) -> (r: Result<
    (Call, Action),
    StoreError,
>)
    ensures
        begun_view(r) == update_step(id@, new_text@, clock),
        r is Ok ==> r->Ok_0.0.wf() && r->Ok_0.0@.names(r->Ok_0.1@),
{
    match clock {
        Some(now) => Ok(begin(Request::Update { id, text: new_text, now })),
        None => Err(StoreError::fixed(ErrorKind::Configuration, CLOCK_BEFORE_EPOCH)),
    }
}

/// Begins the update of the note `id` to the body `new_text`, at the
/// current time.
pub fn update_note(id: String, new_text: String) -> (r: Result<(Call, Action), StoreError>)
    ensures
        exists|clock: Option<u64>|
            begun_view(r) == #[trigger] update_step(id@, new_text@, clock),
        r is Ok ==> r->Ok_0.0.wf() && r->Ok_0.0@.names(r->Ok_0.1@),
{
    let clock = unix_seconds();
    update_note_at(id, new_text, clock)
}

/// Begins the deletion of the note `id`.
pub fn delete_note(id: String) -> (next: (Call, Action))
    ensures
        (next.0@, next.1@) == first_step(RequestView::Delete { id: id@ }),
        next.0.wf(),
        next.0@.names(next.1@),
{
    begin(Request::Delete { id })
}

} // verus!
