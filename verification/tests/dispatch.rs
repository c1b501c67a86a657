use dbdispatch::{
    BackendKind, CloseOutcome, Dispatcher, Outcome, Param, QueryError, QueryRequest, RawRowSet,
    Reply, SubmitOutcome, TakeOutcome,
};

fn req(sql: &str) -> QueryRequest {
    QueryRequest { sql: String::from(sql), binds: Vec::new() }
}

fn empty_rows() -> RawRowSet {
    RawRowSet {
        backend: BackendKind::Sqlite,
        names: Vec::new(),
        types: Vec::new(),
        rows: Vec::new(),
    }
}

#[test]
fn submitting_to_an_unknown_name_is_rejected() {
    let mut d = Dispatcher::new();
    assert_eq!(d.submit("nowhere", 1, req("SELECT 1")), SubmitOutcome::UnknownConnection);
    assert_eq!(d.close("nowhere"), CloseOutcome::UnknownConnection);
    assert_eq!(d.find_connection("nowhere"), None);
}

#[test]
fn registration_publishes_the_handle() {
    let mut d = Dispatcher::new();
    d.register(String::from("main"), 100);
    assert!(d.find_connection("main").is_some());
    assert_eq!(d.find_connection("other"), None);
    assert_eq!(d.stats(), vec![(String::from("main"), 0)]);
}

#[test]
fn backpressure_rejects_at_capacity_without_altering_the_counter() {
    let mut d = Dispatcher::new();
    d.register(String::from("main"), 2);
    assert_eq!(d.submit("main", 1, req("a")), SubmitOutcome::Accepted);
    assert_eq!(d.submit("main", 2, req("b")), SubmitOutcome::Accepted);
    assert_eq!(d.stats(), vec![(String::from("main"), 2)]);
    // the queue is now at capacity: the next submit is rejected at once
    assert_eq!(d.submit("main", 3, req("c")), SubmitOutcome::QueueFull);
    assert_eq!(d.stats(), vec![(String::from("main"), 2)]);
    // a close request is a queue entry like any other and is rejected too
    assert_eq!(d.close("main"), CloseOutcome::Rejected);
}

#[test]
fn execution_order_matches_submission_order() {
    let mut d = Dispatcher::new();
    d.register(String::from("main"), 100);
    let i = d.find_connection("main").unwrap();
    for (token, sql) in [(11, "a"), (12, "b"), (13, "c")] {
        assert_eq!(d.submit("main", token, req(sql)), SubmitOutcome::Accepted);
    }
    let mut delivered: Vec<i64> = Vec::new();
    for _ in 0..3 {
        match d.actor_take_at(i) {
            TakeOutcome::Started(token) => {
                let e = d.actor_finish_at(i, Ok(empty_rows()));
                let (t, outcome) = e.deliver.unwrap();
                assert_eq!(t, token);
                assert!(matches!(outcome, Outcome::Rows(_)));
                assert!(e.decremented);
                delivered.push(t);
            }
            TakeOutcome::Stopped => panic!("actor stopped unexpectedly"),
        }
    }
    assert_eq!(delivered, vec![11, 12, 13]);
    assert_eq!(d.stats(), vec![(String::from("main"), 0)]);
}

#[test]
fn a_failed_query_with_a_token_is_reported_once_and_not_retried() {
    let mut d = Dispatcher::new();
    d.register(String::from("main"), 100);
    let i = d.find_connection("main").unwrap();
    assert_eq!(d.submit("main", 42, req("SELECT * FROM missing_table")), SubmitOutcome::Accepted);
    assert_eq!(d.actor_take_at(i), TakeOutcome::Started(42));
    let e = d.actor_finish_at(i, Err(QueryError::Database(String::from("no such table"))));
    assert_eq!(
        e.deliver,
        Some((42, Outcome::Error(QueryError::Database(String::from("no such table")))))
    );
    assert!(e.decremented);
    assert!(!e.retry_after_backoff);
    assert_eq!(d.stats(), vec![(String::from("main"), 0)]);
}

#[test]
fn a_zero_token_query_retries_until_it_succeeds_and_never_fails() {
    let mut d = Dispatcher::new();
    d.register(String::from("main"), 100);
    let i = d.find_connection("main").unwrap();
    assert_eq!(d.submit("main", 0, req("INSERT INTO t VALUES (7)")), SubmitOutcome::Accepted);
    assert_eq!(d.actor_take_at(i), TakeOutcome::Started(0));
    // the backend is down: no completion is ever delivered, the counter
    // stays up, and the actor keeps the same command
    for attempt in 0..3 {
        let e = d.actor_finish_at(i, Err(QueryError::Transport(String::from("unreachable"))));
        assert_eq!(e.deliver, None);
        assert!(!e.decremented);
        assert!(e.retry_after_backoff);
        // the failure notice is logged after the first failure of the
        // streak, once
        assert_eq!(e.log_failure, attempt == 0);
        assert_eq!(d.stats(), vec![(String::from("main"), 1)]);
    }
    // the backend recovers: the same command succeeds without resubmission
    let e = d.actor_finish_at(i, Ok(empty_rows()));
    let (t, outcome) = e.deliver.unwrap();
    assert_eq!(t, 0);
    assert!(matches!(outcome, Outcome::Rows(_)));
    assert!(e.log_recovery);
    assert!(!e.retry_after_backoff);
    assert_eq!(d.stats(), vec![(String::from("main"), 0)]);
}

#[test]
fn failures_on_one_connection_leave_the_other_untouched() {
    let mut d = Dispatcher::new();
    d.register(String::from("a"), 100);
    d.register(String::from("b"), 100);
    let ia = d.find_connection("a").unwrap();
    let ib = d.find_connection("b").unwrap();
    assert_eq!(d.submit("a", 0, req("INSERT INTO t VALUES (1)")), SubmitOutcome::Accepted);
    assert_eq!(d.actor_take_at(ia), TakeOutcome::Started(0));
    // connection "a" is stuck retrying against a dead backend
    let e = d.actor_finish_at(ia, Err(QueryError::Transport(String::from("down"))));
    assert!(e.retry_after_backoff);
    // connection "b" accepts and executes queries as if nothing happened
    assert_eq!(d.submit("b", 5, req("SELECT 1")), SubmitOutcome::Accepted);
    assert_eq!(d.actor_take_at(ib), TakeOutcome::Started(5));
    let e = d.actor_finish_at(ib, Ok(empty_rows()));
    assert!(matches!(e.deliver, Some((5, Outcome::Rows(_)))));
    assert_eq!(
        d.stats(),
        vec![(String::from("a"), 1), (String::from("b"), 0)]
    );
}

#[test]
fn close_stops_the_actor_after_the_queued_work() {
    let mut d = Dispatcher::new();
    d.register(String::from("main"), 100);
    let i = d.find_connection("main").unwrap();
    assert_eq!(d.submit("main", 7, req("SELECT 1")), SubmitOutcome::Accepted);
    assert_eq!(d.close("main"), CloseOutcome::Accepted);
    // the query ahead of the close still executes
    assert_eq!(d.actor_take_at(i), TakeOutcome::Started(7));
    let e = d.actor_finish_at(i, Ok(empty_rows()));
    assert!(matches!(e.deliver, Some((7, Outcome::Rows(_)))));
    // then the close takes effect immediately
    assert_eq!(d.actor_take_at(i), TakeOutcome::Stopped);
    // a stopped connection admits nothing further
    assert_eq!(d.submit("main", 8, req("SELECT 2")), SubmitOutcome::QueueFull);
    assert_eq!(d.close("main"), CloseOutcome::Rejected);
}

#[test]
fn re_registering_a_name_replaces_its_connection() {
    let mut d = Dispatcher::new();
    d.register(String::from("main"), 100);
    assert_eq!(d.submit("main", 1, req("a")), SubmitOutcome::Accepted);
    assert_eq!(d.stats(), vec![(String::from("main"), 1)]);
    d.register(String::from("main"), 100);
    assert_eq!(d.stats(), vec![(String::from("main"), 0)]);
}
