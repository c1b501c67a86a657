use dbdispatch::{
    classify_type_name, decode_outcome, decode_rows, BackendKind, CellData, ColClass, ColValue,
    DecodeProblem, Outcome, QueryError, RawCell, RawRowSet, Reply,
};

fn empty_cell() -> CellData {
    CellData { as_bool: None, as_int: None, as_float: None, as_text: None, as_bytes: None }
}

fn int_cell(v: i64) -> RawCell {
    RawCell::Readable(CellData { as_int: Some(v), ..empty_cell() })
}

fn text_cell(s: &str) -> RawCell {
    RawCell::Readable(CellData { as_text: Some(String::from(s)), ..empty_cell() })
}

#[test]
fn the_dispatch_table_is_exact() {
    assert_eq!(classify_type_name("NULL"), ColClass::Null);
    assert_eq!(classify_type_name("BOOL"), ColClass::Bool);
    assert_eq!(classify_type_name("BOOLEAN"), ColClass::Bool);
    for name in ["INT2", "INT4", "INT8", "TINYINT", "SMALLINT", "INT", "MEDIUMINT", "BIGINT",
        "INTEGER"] {
        assert_eq!(classify_type_name(name), ColClass::Int, "{name}");
    }
    for name in ["FLOAT4", "FLOAT8", "NUMERIC", "FLOAT", "DOUBLE", "REAL"] {
        assert_eq!(classify_type_name(name), ColClass::Float, "{name}");
    }
    assert_eq!(classify_type_name("TEXT"), ColClass::Text);
    // anything else decodes as raw bytes
    assert_eq!(classify_type_name("BLOB"), ColClass::Bytes);
    assert_eq!(classify_type_name("JSON"), ColClass::Bytes);
    assert_eq!(classify_type_name("VARCHAR"), ColClass::Bytes);
    assert_eq!(classify_type_name(""), ColClass::Bytes);
    // the table is case-exact, as the drivers report their names
    assert_eq!(classify_type_name("text"), ColClass::Bytes);
}

#[test]
fn decoding_substitutes_the_declared_defaults() {
    let rs = RawRowSet {
        backend: BackendKind::Postgres,
        names: vec![
            String::from("b"),
            String::from("i"),
            String::from("f"),
            String::from("t"),
            String::from("y"),
        ],
        types: vec![
            String::from("BOOL"),
            String::from("INT8"),
            String::from("FLOAT8"),
            String::from("TEXT"),
            String::from("BLOB"),
        ],
        rows: vec![vec![
            RawCell::Readable(empty_cell()),
            RawCell::Readable(empty_cell()),
            RawCell::Readable(empty_cell()),
            RawCell::Readable(empty_cell()),
            RawCell::Readable(empty_cell()),
        ]],
    };
    let rows = decode_rows(&rs).unwrap();
    assert_eq!(rows.len(), 1);
    assert_eq!(rows[0].cols[0].1, ColValue::Bool(false));
    assert_eq!(rows[0].cols[1].1, ColValue::Int(0));
    assert_eq!(rows[0].cols[2].1, ColValue::Float((0.0f64).to_bits()));
    assert_eq!(rows[0].cols[3].1, ColValue::Text(String::new()));
    assert_eq!(rows[0].cols[4].1, ColValue::Bytes(Vec::new()));
}

#[test]
fn rows_decode_in_order_with_duplicate_names_preserved() {
    let rs = RawRowSet {
        backend: BackendKind::MySql,
        names: vec![String::from("x"), String::from("x")],
        types: vec![String::from("INTEGER"), String::from("TEXT")],
        rows: vec![
            vec![int_cell(1), text_cell("one")],
            vec![int_cell(2), text_cell("two")],
        ],
    };
    let rows = decode_rows(&rs).unwrap();
    assert_eq!(rows.len(), 2);
    assert_eq!(rows[0].cols[0], (String::from("x"), ColValue::Int(1)));
    assert_eq!(rows[0].cols[1], (String::from("x"), ColValue::Text(String::from("one"))));
    assert_eq!(rows[1].cols[0], (String::from("x"), ColValue::Int(2)));
    assert_eq!(rows[1].cols[1], (String::from("x"), ColValue::Text(String::from("two"))));
}

#[test]
fn an_unreadable_cell_aborts_and_names_its_column() {
    let rs = RawRowSet {
        backend: BackendKind::Sqlite,
        names: vec![String::from("a"), String::from("b")],
        types: vec![String::from("INTEGER"), String::from("INTEGER")],
        rows: vec![
            vec![int_cell(1), int_cell(2)],
            vec![int_cell(3), RawCell::Unreadable(String::from("bad varint"))],
            vec![RawCell::Unreadable(String::from("later error")), int_cell(4)],
        ],
    };
    assert_eq!(
        decode_rows(&rs),
        Err(DecodeProblem { column: String::from("b"), message: String::from("bad varint") })
    );
}

#[test]
fn an_empty_result_set_decodes_to_no_rows() {
    let rs = RawRowSet {
        backend: BackendKind::Sqlite,
        names: Vec::new(),
        types: Vec::new(),
        rows: Vec::new(),
    };
    assert_eq!(decode_rows(&rs).unwrap(), Vec::new());
}

#[test]
fn outcomes_become_the_matching_replies() {
    assert_eq!(decode_outcome(Outcome::Connected), Reply::Connected);
    assert_eq!(
        decode_outcome(Outcome::ConnectError(String::from("refused"))),
        Reply::ConnectFailure(String::from("refused"))
    );
    assert_eq!(
        decode_outcome(Outcome::Error(QueryError::Database(String::from("no such table")))),
        Reply::Failure(QueryError::Database(String::from("no such table")))
    );
    assert_eq!(
        decode_outcome(Outcome::Error(QueryError::Transport(String::from("broken pipe")))),
        Reply::Failure(QueryError::Transport(String::from("broken pipe")))
    );
    assert_eq!(
        decode_outcome(Outcome::Timeout(String::from("deadline"))),
        Reply::TimedOut(String::from("deadline"))
    );
}

#[test]
fn a_round_trip_of_each_variant_through_a_faithful_backend() {
    // what a backend that stored each parameter hands back, and what the
    // decoder makes of it
    let bits = (3.5f64).to_bits();
    let rs = RawRowSet {
        backend: BackendKind::Sqlite,
        names: (0..6).map(|i| format!("c{i}")).collect(),
        types: vec![
            String::from("BOOLEAN"),
            String::from("BIGINT"),
            String::from("DOUBLE"),
            String::from("TEXT"),
            String::from("JSON"),
            String::from("BLOB"),
        ],
        rows: vec![vec![
            RawCell::Readable(CellData { as_bool: Some(true), ..empty_cell() }),
            RawCell::Readable(CellData { as_int: Some(-7), ..empty_cell() }),
            RawCell::Readable(CellData { as_float: Some(bits), ..empty_cell() }),
            RawCell::Readable(CellData { as_text: Some(String::from("abc")), ..empty_cell() }),
            RawCell::Readable(CellData { as_bytes: Some(br#"{"a":1}"#.to_vec()), ..empty_cell() }),
            RawCell::Readable(CellData { as_bytes: Some(vec![1, 2, 3]), ..empty_cell() }),
        ]],
    };
    let rows = decode_rows(&rs).unwrap();
    assert_eq!(rows[0].cols[0].1, ColValue::Bool(true));
    assert_eq!(rows[0].cols[1].1, ColValue::Int(-7));
    assert_eq!(rows[0].cols[2].1, ColValue::Float(bits));
    assert_eq!(rows[0].cols[3].1, ColValue::Text(String::from("abc")));
    // a structured parameter reads back, by the declared fallback, as bytes
    assert_eq!(rows[0].cols[4].1, ColValue::Bytes(br#"{"a":1}"#.to_vec()));
    assert_eq!(rows[0].cols[5].1, ColValue::Bytes(vec![1, 2, 3]));
}
