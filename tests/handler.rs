use telemetry_ingest::id::{IdGenerator, MAX_TICKS};
use telemetry_ingest::ingest::{
    ingest, insert_response, plan_insert, Step, STATUS_BAD_REQUEST, STATUS_OK,
    STATUS_SERVER_ERROR,
};
use telemetry_ingest::reading::{Reading, StoredRow};

const NODE: [u8; 6] = [1, 2, 3, 4, 5, 6];

fn attic() -> Reading {
    Reading {
        name: "attic".to_string(),
        auth_code: "abc123".to_string(),
        temp: 21.5f32.to_bits(),
        humidity: 40.2f32.to_bits(),
        pressure: 1013.1f32.to_bits(),
    }
}

fn expect_row(step: Step) -> StoredRow {
    match step {
        Step::Insert(row) => row,
        Step::Respond(r) => panic!("expected an insert, got {:?}", r),
    }
}

#[test]
fn well_formed_reading_becomes_one_row() {
    let mut g = IdGenerator::new(NODE);
    let row = expect_row(plan_insert(&mut g, Ok(attic()), 1_700_000_000, Some(5000)));
    assert_eq!(row.name, "attic");
    assert_eq!(row.auth_code, "abc123");
    assert_eq!(f32::from_bits(row.temp), 21.5);
    assert_eq!(f32::from_bits(row.humidity), 40.2);
    assert_eq!(f32::from_bits(row.pressure), 1013.1);
    assert_eq!(row.time, 1_700_000_000);
    assert_eq!((row.id.ticks, row.id.seq, row.id.node), (5000, 0, NODE));
    assert_eq!(insert_response(Ok(())).body, "Success");
    assert_eq!(insert_response(Ok(())).status, STATUS_OK);
}

#[test]
fn row_time_wraps_at_thirty_two_bits() {
    let mut g = IdGenerator::new(NODE);
    let row = expect_row(plan_insert(&mut g, Ok(attic()), 2_147_483_648, Some(5000)));
    assert_eq!(row.time, -2_147_483_648);
}

#[test]
fn undecodable_body_is_answered_without_insert() {
    let mut g = IdGenerator::new(NODE);
    let cause = "missing field `auth-code` at line 1 column 27".to_string();
    match plan_insert(&mut g, Err(cause), 1_700_000_000, Some(5000)) {
        Step::Respond(r) => {
            assert_eq!(r.status, STATUS_BAD_REQUEST);
            assert_eq!(r.body, "Error parsing body: missing field `auth-code` at line 1 column 27");
        }
        Step::Insert(row) => panic!("unexpected insert {:?}", row),
    }
    // No identifier was used up: the next one still starts the tick.
    let id = g.next_id(Some(5000)).unwrap();
    assert_eq!((id.ticks, id.seq), (5000, 0));
}

#[test]
fn same_reading_twice_gives_two_rows() {
    let mut g = IdGenerator::new(NODE);
    let a = expect_row(plan_insert(&mut g, Ok(attic()), 1_700_000_000, Some(5000)));
    let b = expect_row(plan_insert(&mut g, Ok(attic()), 1_700_000_000, Some(5000)));
    assert_eq!(a.name, b.name);
    assert_eq!(a.temp, b.temp);
    assert_eq!((a.id.ticks, a.id.seq), (5000, 0));
    assert_eq!((b.id.ticks, b.id.seq), (5001, 0));
    assert_ne!(a.id.timeuuid(), b.id.timeuuid());
}

#[test]
fn store_failure_is_reported() {
    let r = insert_response(Err("connection refused".to_string()));
    assert_eq!(r.status, STATUS_SERVER_ERROR);
    assert_eq!(r.body, "Failed to insert reading: connection refused");
}

#[test]
fn requests_after_a_store_failure_are_served() {
    let mut g = IdGenerator::new(NODE);
    let first = expect_row(plan_insert(&mut g, Ok(attic()), 100, Some(5000)));
    let r = insert_response(Err("timed out".to_string()));
    assert_eq!(r.body, "Failed to insert reading: timed out");
    let second = expect_row(plan_insert(&mut g, Ok(attic()), 101, Some(6000)));
    assert_eq!((second.id.ticks, second.id.seq), (6000, 0));
    assert!(second.id.ticks > first.id.ticks);
    assert_eq!(insert_response(Ok(())).body, "Success");
}

#[test]
fn exhausted_identifiers_fail_the_request() {
    let mut g = IdGenerator::new(NODE);
    g.next_id(Some(MAX_TICKS)).unwrap();
    match plan_insert(&mut g, Ok(attic()), 100, Some(0)) {
        Step::Respond(r) => {
            assert_eq!(r.status, STATUS_SERVER_ERROR);
            assert_eq!(r.body, "Failed to generate identifier");
        }
        Step::Insert(row) => panic!("unexpected insert {:?}", row),
    }
}

#[test]
fn missing_clock_fails_only_a_fresh_generator() {
    let mut g = IdGenerator::new(NODE);
    match plan_insert(&mut g, Ok(attic()), 100, None) {
        Step::Respond(r) => assert_eq!(r.body, "Failed to generate identifier"),
        Step::Insert(row) => panic!("unexpected insert {:?}", row),
    }
    expect_row(plan_insert(&mut g, Ok(attic()), 100, Some(700)));
    let row = expect_row(plan_insert(&mut g, Ok(attic()), 100, None));
    assert_eq!((row.id.ticks, row.id.seq), (701, 0));
}

#[test]
fn pre_epoch_time_is_stored_wrapped() {
    let mut g = IdGenerator::new(NODE);
    let row = expect_row(plan_insert(&mut g, Ok(attic()), -5, Some(10)));
    assert_eq!(row.time, -5);
}

#[test]
fn ingest_stamps_the_current_time() {
    let mut g = IdGenerator::new(NODE);
    let before = chrono::Utc::now().timestamp() as i32;
    let row = expect_row(ingest(&mut g, Ok(attic())));
    let after = chrono::Utc::now().timestamp() as i32;
    assert!(before <= row.time && row.time <= after);
    assert_eq!(row.name, "attic");
    let next = expect_row(ingest(&mut g, Ok(attic())));
    assert_ne!(row.id.timeuuid(), next.id.timeuuid());
}

#[test]
fn ingest_rejects_undecodable_body() {
    let mut g = IdGenerator::new(NODE);
    match ingest(&mut g, Err("expected value at line 1 column 1".to_string())) {
        Step::Respond(r) => {
            assert_eq!(r.status, STATUS_BAD_REQUEST);
            assert_eq!(r.body, "Error parsing body: expected value at line 1 column 1");
        }
        Step::Insert(row) => panic!("unexpected insert {:?}", row),
    }
}
