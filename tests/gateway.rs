use http_api::cluster::{bootstrap_statements, check_trust_anchor, gateway_settings, Consistency, StartupError, KEYSPACE_STATEMENT, TABLE_STATEMENT};
use http_api::coordinator::{rejected_input, route, store_failure, write_outcome, HttpMethod, Operation, Outcome, Payload, ReadSession, StoreStage};
use http_api::cursor::{CursorState, CursorStep, FetchEvent, RowCursor};
use http_api::record::Record;
use http_api::statement_cache::{PrepareStep, StatementCache};
use http_api::write_path::{single_write_values, INSERT_STATEMENT};

const ID_ONE: u128 = 0x1111_1111_1111_1111_1111_1111_1111_1111;

fn rec(id: u128, name: &str, value: i64) -> Record {
    Record::new(id, name.to_string(), value)
}

fn same(a: &Record, b: &Record) -> bool {
    a.id == b.id && a.name == b.name && a.value == b.value
}

fn read_all(events: Vec<FetchEvent>) -> Option<Outcome> {
    let mut session = ReadSession::new();
    for ev in events {
        if let Some(o) = session.feed(ev) {
            return Some(o);
        }
    }
    None
}

#[test]
fn routes_each_operation() {
    assert_eq!(route(HttpMethod::Post, "/insert"), Operation::SingleWrite);
    assert_eq!(route(HttpMethod::Post, "/insert_batch"), Operation::BatchWrite);
    assert_eq!(route(HttpMethod::Post, "/insert_prepared"), Operation::PreparedWrite);
    assert_eq!(route(HttpMethod::Get, "/query_iter"), Operation::StreamedRead);
}

#[test]
fn unknown_routes_are_not_found() {
    assert_eq!(route(HttpMethod::Get, "/insert"), Operation::Unknown);
    assert_eq!(route(HttpMethod::Post, "/query_iter"), Operation::Unknown);
    assert_eq!(route(HttpMethod::Other, "/insert"), Operation::Unknown);
    assert_eq!(route(HttpMethod::Post, "/insert/"), Operation::Unknown);
    assert_eq!(route(HttpMethod::Post, ""), Operation::Unknown);
    assert_eq!(Outcome::NotFound.status(), 404);
}

#[test]
fn single_write_then_read_returns_the_record() {
    let r = rec(ID_ONE, "a", 1);
    assert_eq!(route(HttpMethod::Post, "/insert"), Operation::SingleWrite);
    let rows = single_write_values(&r);
    assert_eq!(rows.len(), 1);
    assert_eq!(rows[0].0, ID_ONE);
    assert_eq!(rows[0].1, "a");
    assert_eq!(rows[0].2, 1);
    let o = write_outcome(Operation::SingleWrite, Ok(()));
    assert_eq!(o.status(), 200);
    assert!(matches!(o, Outcome::Success(Payload::Ack)));
    let read = read_all(vec![FetchEvent::Row(rec(ID_ONE, "a", 1)), FetchEvent::End]).unwrap();
    assert_eq!(read.status(), 200);
    match read {
        Outcome::Success(Payload::Rows(v)) => {
            assert_eq!(v.len(), 1);
            assert!(same(&v[0], &r));
        }
        _ => panic!("expected rows"),
    }
}

#[test]
fn batch_of_three_then_read_returns_three_rows() {
    assert_eq!(route(HttpMethod::Post, "/insert_batch"), Operation::BatchWrite);
    let o = write_outcome(Operation::BatchWrite, Ok(()));
    assert_eq!(o.status(), 200);
    assert!(matches!(o, Outcome::Success(Payload::Ack)));
    let input = vec![rec(1, "x", -5), rec(2, "y", 0), rec(3, "z", i64::MAX)];
    let events = vec![
        FetchEvent::Row(rec(2, "y", 0)),
        FetchEvent::Row(rec(3, "z", i64::MAX)),
        FetchEvent::Row(rec(1, "x", -5)),
        FetchEvent::End,
    ];
    match read_all(events).unwrap() {
        Outcome::Success(Payload::Rows(v)) => {
            assert_eq!(v.len(), 3);
            for r in &input {
                assert_eq!(v.iter().filter(|x| same(x, r)).count(), 1);
            }
        }
        _ => panic!("expected rows"),
    }
}

#[test]
fn malformed_body_is_a_client_error() {
    let o = rejected_input("expected value at line 1 column 1");
    assert_eq!(o.status(), 400);
    match o {
        Outcome::ClientError(m) => assert_eq!(m, "invalid json: expected value at line 1 column 1"),
        _ => panic!("expected a client error"),
    }
}

#[test]
fn unreachable_cluster_is_a_server_error() {
    let o = write_outcome(Operation::SingleWrite, Err("no connections available".to_string()));
    assert_eq!(o.status(), 500);
    match o {
        Outcome::ServerError(m) => assert_eq!(m, "db error: no connections available"),
        _ => panic!("expected a server error"),
    }
    let p = write_outcome(Operation::PreparedWrite, Err("timeout".to_string()));
    assert!(matches!(p, Outcome::ServerError(ref m) if m == "db error: timeout"));
}

#[test]
fn failed_batch_is_reported_whole() {
    let o = write_outcome(Operation::BatchWrite, Err("write timeout".to_string()));
    assert_eq!(o.status(), 500);
    assert!(matches!(o, Outcome::ServerError(ref m) if m == "batch error: write timeout"));
}

#[test]
fn store_failure_names_each_stage() {
    let cases = [
        (StoreStage::Write, "db error: e"),
        (StoreStage::Batch, "batch error: e"),
        (StoreStage::Query, "query_iter error: e"),
        (StoreStage::RowShape, "failed to get rows_stream: e"),
        (StoreStage::Stream, "stream error: e"),
    ];
    for (stage, text) in cases {
        match store_failure(stage, "e") {
            Outcome::ServerError(m) => assert_eq!(m, text),
            _ => panic!("expected a server error"),
        }
    }
}

#[test]
fn cursor_emits_each_row_once_then_closes() {
    let mut c = RowCursor::new();
    assert_eq!(c.current(), CursorState::Streaming);
    for i in 0..5u128 {
        match c.advance(FetchEvent::Row(rec(i, "n", i as i64))) {
            CursorStep::Emit(r) => assert_eq!(r.id, i),
            _ => panic!("expected a row"),
        }
    }
    assert!(matches!(c.advance(FetchEvent::End), CursorStep::Finished));
    assert_eq!(c.current(), CursorState::Exhausted);
    assert!(matches!(c.advance(FetchEvent::Row(rec(9, "late", 9))), CursorStep::Closed));
    assert!(matches!(c.advance(FetchEvent::End), CursorStep::Closed));
}

#[test]
fn cursor_failure_is_distinct_from_end() {
    let mut c = RowCursor::new();
    assert!(matches!(c.advance(FetchEvent::Row(rec(1, "a", 1))), CursorStep::Emit(_)));
    match c.advance(FetchEvent::Failure("node down".to_string())) {
        CursorStep::Aborted(m) => assert_eq!(m, "node down"),
        _ => panic!("expected an abort"),
    }
    assert_eq!(c.current(), CursorState::Failed);
    assert!(matches!(c.advance(FetchEvent::Row(rec(2, "b", 2))), CursorStep::Closed));
}

#[test]
fn empty_table_reads_no_rows() {
    match read_all(vec![FetchEvent::End]).unwrap() {
        Outcome::Success(Payload::Rows(v)) => assert!(v.is_empty()),
        _ => panic!("expected rows"),
    }
}

#[test]
fn mid_stream_failure_is_a_server_error() {
    let o = read_all(vec![
        FetchEvent::Row(rec(1, "a", 1)),
        FetchEvent::Failure("read timeout".to_string()),
        FetchEvent::Row(rec(2, "b", 2)),
    ])
    .unwrap();
    assert_eq!(o.status(), 500);
    assert!(matches!(o, Outcome::ServerError(ref m) if m == "stream error: read timeout"));
}

#[test]
fn read_session_ignores_events_after_end() {
    let mut s = ReadSession::new();
    assert!(s.feed(FetchEvent::Row(rec(1, "a", 1))).is_none());
    assert!(s.feed(FetchEvent::End).is_some());
    assert!(s.feed(FetchEvent::Row(rec(2, "b", 2))).is_none());
    assert!(s.feed(FetchEvent::End).is_none());
}

#[test]
fn statement_cache_compiles_once() {
    let mut cache: StatementCache<u32> = StatementCache::new();
    let mut compilations = 0;
    for _ in 0..2 {
        let handle = match cache.prepare_step(INSERT_STATEMENT) {
            PrepareStep::Cached(h) => *h,
            PrepareStep::Compile => {
                compilations += 1;
                cache.insert(INSERT_STATEMENT.to_string(), 7);
                7
            }
        };
        assert_eq!(handle, 7);
    }
    assert_eq!(compilations, 1);
}

#[test]
fn statement_cache_keeps_texts_apart() {
    let mut cache: StatementCache<u32> = StatementCache::new();
    cache.insert("SELECT 1".to_string(), 1);
    cache.insert("SELECT 2".to_string(), 2);
    assert!(matches!(cache.prepare_step("SELECT 1"), PrepareStep::Cached(&1)));
    assert!(matches!(cache.prepare_step("SELECT 2"), PrepareStep::Cached(&2)));
    assert!(matches!(cache.prepare_step("SELECT 3"), PrepareStep::Compile));
    assert!(matches!(cache.prepare_step(""), PrepareStep::Compile));
}

#[test]
fn bound_values_follow_column_order() {
    let r = rec(42, "name with spaces", -7);
    let (id, name, value) = r.bound_values();
    assert_eq!(id, 42);
    assert_eq!(name, "name with spaces");
    assert_eq!(value, -7);
}

#[test]
fn gateway_settings_are_fixed() {
    let s = gateway_settings();
    assert_eq!(s.nodes, vec!["127.0.0.2:9042", "127.0.0.3:9042", "127.0.0.4:9042"]);
    assert_eq!(s.consistency, Consistency::LocalQuorum);
    assert_eq!(s.request_timeout_secs, 10);
    assert!(s.tls_required);
}

#[test]
fn bootstrap_creates_keyspace_then_table() {
    let b = bootstrap_statements();
    assert_eq!(b, vec![KEYSPACE_STATEMENT, TABLE_STATEMENT]);
    assert!(b[0].starts_with("CREATE KEYSPACE IF NOT EXISTS demo"));
    assert!(b[1].starts_with("CREATE TABLE IF NOT EXISTS demo.items"));
}

#[test]
fn trust_anchor_needs_a_certificate_when_required() {
    assert_eq!(check_trust_anchor(0, true), Err(StartupError::NoTrustedCertificates));
    assert_eq!(check_trust_anchor(1, true), Ok(()));
    assert_eq!(check_trust_anchor(0, false), Ok(()));
    assert_eq!(
        StartupError::NoTrustedCertificates.describe(),
        "no trusted certificates were supplied"
    );
}

#[test]
fn id_text_is_hyphenated_lower_hex() {
    assert_eq!(rec(ID_ONE, "a", 1).id_text(), "11111111-1111-1111-1111-111111111111");
    assert_eq!(
        rec(0x0123_4567_89ab_cdef_0011_2233_4455_6677, "b", 2).id_text(),
        "01234567-89ab-cdef-0011-223344556677"
    );
    assert_eq!(rec(0, "c", 3).id_text(), "00000000-0000-0000-0000-000000000000");
}

#[test]
fn statement_cache_keeps_first_handle() {
    let mut cache: StatementCache<u32> = StatementCache::new();
    cache.insert("SELECT 1".to_string(), 1);
    cache.insert("SELECT 1".to_string(), 5);
    assert!(matches!(cache.prepare_step("SELECT 1"), PrepareStep::Cached(&1)));
}
