use dbdispatch::{LuaData, LuaTable};

#[test]
fn a_new_table_is_empty() {
    let t = LuaTable::new();
    assert_eq!(t.len(), 0);
    assert!(t.is_empty());
}

#[test]
fn setting_a_fresh_key_appends() {
    let mut t = LuaTable::new();
    t.set(String::from("a"), LuaData::Integer(1));
    t.set(String::from("b"), LuaData::Integer(2));
    assert_eq!(
        t.rec,
        vec![
            (String::from("a"), LuaData::Integer(1)),
            (String::from("b"), LuaData::Integer(2)),
        ]
    );
    // record entries do not count toward the raw (array) length
    assert_eq!(t.len(), 0);
}

#[test]
fn setting_a_taken_key_overwrites_in_place() {
    let mut t = LuaTable::new();
    t.set(String::from("x"), LuaData::Integer(1));
    t.set(String::from("y"), LuaData::Integer(2));
    t.set(String::from("x"), LuaData::Str(String::from("new")));
    assert_eq!(
        t.rec,
        vec![
            (String::from("x"), LuaData::Str(String::from("new"))),
            (String::from("y"), LuaData::Integer(2)),
        ]
    );
}

#[test]
fn sequential_array_fill() {
    let mut t = LuaTable::new();
    t.seti(1, LuaData::Integer(10));
    t.seti(2, LuaData::Integer(20));
    t.seti(3, LuaData::Integer(30));
    assert_eq!(t.len(), 3);
    assert!(!t.is_empty());
    t.seti(2, LuaData::Integer(99));
    assert_eq!(
        t.arr,
        vec![LuaData::Integer(10), LuaData::Integer(99), LuaData::Integer(30)]
    );
}
