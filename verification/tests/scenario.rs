//! The full life of one connection, driven end to end through the model:
//! connect, a query that returns rows, a query that fails on the database
//! side, and a fire-and-forget write against a backend that is down until
//! it recovers.

use dbdispatch::{
    backend_kind_of_url, decode_outcome, read_connect, read_query, BackendKind, CellData,
    ColValue, Dispatcher, LuaData, LuaState, Outcome, Param, QueryError, RawCell, RawRowSet,
    Reply, SubmitOutcome, TakeOutcome,
};

fn connect_stack() -> LuaState {
    LuaState::new(vec![
        LuaData::Integer(1),                                // protocol
        LuaData::Integer(9),                                // owner
        LuaData::Integer(77),                               // token
        LuaData::Str(String::from("sqlite://test.db")),     // url
        LuaData::Str(String::from("main")),                 // name
        LuaData::Integer(5000),                             // timeout
    ])
}

#[test]
fn a_connection_lives_through_success_failure_and_retry() {
    // Connect("main", "sqlite://test.db", 5000)
    let args = read_connect(&connect_stack());
    assert_eq!(args.name, "main");
    assert_eq!(args.timeout_ms, 5000);
    assert_eq!(backend_kind_of_url(args.url.as_str()), Some(BackendKind::Sqlite));

    // the pool opened: the handle is published, then the completion {ok}
    let mut d = Dispatcher::new();
    d.register(args.name.clone(), 100);
    let i = d.find_connection("main").unwrap();
    assert_eq!(decode_outcome(Outcome::Connected), Reply::Connected);

    // Submit("main", 42, "SELECT 1+1 AS x", []) -> {rows: [{x: Int64(2)}]}
    let call = LuaState::new(vec![
        LuaData::UserData,
        LuaData::Integer(42),
        LuaData::Str(String::from("SELECT 1+1 AS x")),
    ]);
    let (token, req) = read_query(&call).unwrap();
    assert_eq!(d.submit("main", token, req), SubmitOutcome::Accepted);
    assert_eq!(d.actor_take_at(i), TakeOutcome::Started(42));
    let produced = RawRowSet {
        backend: BackendKind::Sqlite,
        names: vec![String::from("x")],
        types: vec![String::from("INTEGER")],
        rows: vec![vec![RawCell::Readable(CellData {
            as_bool: None,
            as_int: Some(2),
            as_float: None,
            as_text: None,
            as_bytes: None,
        })]],
    };
    let e = d.actor_finish_at(i, Ok(produced));
    let (t, outcome) = e.deliver.unwrap();
    assert_eq!(t, 42);
    match decode_outcome(outcome) {
        Reply::Rows(rows) => {
            assert_eq!(rows.len(), 1);
            assert_eq!(rows[0].cols, vec![(String::from("x"), ColValue::Int(2))]);
        }
        other => panic!("expected rows, got {other:?}"),
    }

    // Submit("main", 42, "SELECT * FROM missing_table", [])
    //   -> {error: {kind: Database, message: "..."}}
    assert_eq!(
        d.submit("main", 42, dbdispatch::QueryRequest {
            sql: String::from("SELECT * FROM missing_table"),
            binds: Vec::new(),
        }),
        SubmitOutcome::Accepted
    );
    assert_eq!(d.actor_take_at(i), TakeOutcome::Started(42));
    let e = d.actor_finish_at(
        i,
        Err(QueryError::Database(String::from("no such table: missing_table"))),
    );
    let (_, outcome) = e.deliver.unwrap();
    assert_eq!(
        decode_outcome(outcome),
        Reply::Failure(QueryError::Database(String::from("no such table: missing_table")))
    );

    // Submit("main", 0, "INSERT INTO t VALUES (?)", [Int64(7)]) against a
    // backend that is down: no completion ever, retried silently until the
    // backend recovers
    assert_eq!(
        d.submit("main", 0, dbdispatch::QueryRequest {
            sql: String::from("INSERT INTO t VALUES (?)"),
            binds: vec![Param::Int(7)],
        }),
        SubmitOutcome::Accepted
    );
    assert_eq!(d.actor_take_at(i), TakeOutcome::Started(0));
    for _ in 0..2 {
        let e = d.actor_finish_at(i, Err(QueryError::Transport(String::from("down"))));
        assert_eq!(e.deliver, None);
        assert!(e.retry_after_backoff);
    }
    let e = d.actor_finish_at(
        i,
        Ok(RawRowSet {
            backend: BackendKind::Sqlite,
            names: Vec::new(),
            types: Vec::new(),
            rows: Vec::new(),
        }),
    );
    assert!(matches!(e.deliver, Some((0, Outcome::Rows(_)))));
    assert_eq!(d.stats(), vec![(String::from("main"), 0)]);
}
