//! The decisions of the ingestion handler for one request.
//!
//! A request moves from its decoded body to an identifier and a row, then to
//! the store, then to a response. The store is reached by the caller: this
//! module says which row to insert, or which response to send without
//! inserting, and which response follows the store's answer.

use vstd::prelude::*;
use vstd::string::*;
use crate::clock::{truncate_seconds, unix_seconds_now, wrap_i32};
use crate::id::{
    gregorian_ticks_now, id_before, lemma_issued_distinct_and_ordered, next_tick, IdGenerator, RowId,
};
use crate::reading::{Reading, StoredRow};

verus! {

/// HTTP status of an accepted reading.
pub const STATUS_OK: u16 = 200;

/// HTTP status of a body that did not decode to a reading.
pub const STATUS_BAD_REQUEST: u16 = 400;

/// HTTP status of a reading that could not be stored.
pub const STATUS_SERVER_ERROR: u16 = 500;

/// A plain-text HTTP response.
#[derive(Debug)]
pub struct Response {
    pub status: u16,
    pub body: String,
}

/// What the handler does next.
#[derive(Debug)]
pub enum Step {
    /// Insert this row, then answer with `insert_response`.
    Insert(StoredRow),
    /// Answer with this response; nothing is inserted.
    Respond(Response),
}

/// Body sent for a request whose body did not decode.
pub open spec fn parse_error_body(cause: Seq<char>) -> Seq<char> {
    "Error parsing body: "@ + cause
}

/// Body sent when the store refused the insert.
pub open spec fn insert_error_body(cause: Seq<char>) -> Seq<char> {
    "Failed to insert reading: "@ + cause
}

/// Body sent when no identifier could be issued.
pub open spec fn id_error_body() -> Seq<char> {
    "Failed to generate identifier"@
}

/// Body sent when the reading was stored.
pub open spec fn success_body() -> Seq<char> {
    "Success"@
}

/// The step for a decoded (or undecodable) request body, given the clock
/// readings `now_secs` (Unix seconds) and `now_ticks` (identifier ticks,
/// `None` when that clock could not be read).
///
/// A body that did not decode is answered at once and takes no identifier. A
/// decoded reading takes the next identifier and becomes exactly one row with
/// its fields unchanged.
pub fn plan_insert(gen: &mut IdGenerator, decoded: Result<Reading, String>, now_secs: i64, now_ticks: Option<u64>) -> (r: Step)
    requires
        old(gen).wf(),
    ensures
        final(gen).wf(),
        final(gen).node_tag() == old(gen).node_tag(),
        match decoded {
            Err(cause) => {
                &&& *final(gen) == *old(gen)
                &&& r matches Step::Respond(resp)
                &&& resp.status == STATUS_BAD_REQUEST
                &&& resp.body@ == parse_error_body(cause@)
            },
            Ok(reading) => match next_tick(old(gen).last_tick(), now_ticks) {
                None => {
                    &&& *final(gen) == *old(gen)
                    &&& old(gen).last_tick() is None || old(gen).exhausted()
                    &&& r matches Step::Respond(resp)
                    &&& resp.status == STATUS_SERVER_ERROR
                    &&& resp.body@ == id_error_body()
                },
                Some(t) => {
                    let id = RowId { ticks: t, seq: 0, node: old(gen).node_tag() };
                    &&& r == Step::Insert(StoredRow::of(reading, wrap_i32(now_secs as int) as i32, id))
                    &&& id.valid()
                    &&& final(gen).issued() == old(gen).issued().push(id)
                },
            },
        },
{
    match decoded {
        Err(cause) => {
            let body = String::from_str("Error parsing body: ").concat(cause.as_str());
            Step::Respond(Response { status: STATUS_BAD_REQUEST, body })
        },
        Ok(reading) => {
            let time = truncate_seconds(now_secs);
            match gen.next_id(now_ticks) {
                None => Step::Respond(Response {
                    status: STATUS_SERVER_ERROR,
                    body: String::from_str("Failed to generate identifier"),
                }),
                Some(id) => Step::Insert(StoredRow::new(reading, time, id)),
            }
        },
    }
}

/// The step for a request body, with the clocks read now. A decoded reading
/// is always inserted, unless nothing was issued yet and the identifier clock
/// gives no usable reading, or the generator is exhausted.
pub fn ingest(gen: &mut IdGenerator, decoded: Result<Reading, String>) -> (r: Step)
    requires
        old(gen).wf(),
    ensures
        final(gen).wf(),
        final(gen).node_tag() == old(gen).node_tag(),
        decoded is Err ==> *final(gen) == *old(gen),
        decoded is Ok && r is Respond ==> old(gen).last_tick() is None || old(gen).exhausted(),
        match r {
            Step::Insert(row) => {
                &&& decoded is Ok
                &&& row == StoredRow::of(decoded->Ok_0, row.time, row.id)
                &&& final(gen).issued() == old(gen).issued().push(row.id)
            },
            Step::Respond(resp) => *final(gen) == *old(gen),
        },
        match decoded {
            Err(cause) => r matches Step::Respond(resp) && resp.status == STATUS_BAD_REQUEST
                && resp.body@ == parse_error_body(cause@),
            Ok(_) => match r {
                Step::Insert(row) => {
                    &&& row.id.node == old(gen).node_tag()
                    &&& row.id.valid()
                    &&& old(gen).last_tick() is Some ==> old(gen).last_tick().unwrap()
                        < row.id.ticks
                    &&& exists|secs: int| row.time as int == wrap_i32(secs)
                },
                Step::Respond(resp) => resp.status == STATUS_SERVER_ERROR && resp.body@
                    == id_error_body(),
            },
        },
{
    let secs = unix_seconds_now();
    let ticks = gregorian_ticks_now();
    let r = plan_insert(gen, decoded, secs, ticks);
    assert(r is Insert ==> r->Insert_0.time as int == wrap_i32(secs as int));
    r
}

/// The response that follows the store's answer to an insert: success, or
/// the store's error text.
pub fn insert_response(result: Result<(), String>) -> (r: Response)
    ensures
        match result {
            Ok(()) => r.status == STATUS_OK && r.body@ == success_body(),
            Err(cause) => r.status == STATUS_SERVER_ERROR && r.body@ == insert_error_body(cause@),
        },
{
    match result {
        Ok(()) => Response { status: STATUS_OK, body: String::from_str("Success") },
        Err(cause) => Response {
            status: STATUS_SERVER_ERROR,
            body: String::from_str("Failed to insert reading: ").concat(cause.as_str()),
        },
    }
}

/// Submitting readings twice, the same one or not, inserts two rows whose
/// identifiers differ: the second is strictly later in time order. Nothing is
/// deduplicated.
pub proof fn lemma_resubmission_gets_new_id(
    g0: IdGenerator,
    g1: IdGenerator,
    g2: IdGenerator,
    row1: StoredRow,
    row2: StoredRow,
)
    requires
        g2.wf(),
        g1.issued() == g0.issued().push(row1.id),
        g2.issued() == g1.issued().push(row2.id),
    ensures
        row1.id.ticks < row2.id.ticks,
        id_before(row1.id, row2.id),
        row1.id.ticks != row2.id.ticks || row1.id.seq != row2.id.seq,
{
    let n = g0.issued().len() as int;
    assert(g2.issued()[n] == row1.id);
    assert(g2.issued()[n + 1] == row2.id);
    lemma_issued_distinct_and_ordered(g2);
}

} // verus!
