use dbdispatch::{
    is_integer, lua_get, lua_opt, lua_pop, lua_push, lua_settop, lua_to, lua_top, lua_type,
    to_string_unchecked, LuaData, LuaScopePop, LuaState, LuaThread, LuaType,
};

fn sample_stack() -> LuaState {
    LuaState::new(vec![
        LuaData::Integer(7),
        LuaData::Str(String::from("hello")),
        LuaData::Boolean(true),
        LuaData::Float((2.5f64).to_bits()),
        LuaData::Nil,
    ])
}

#[test]
fn type_tags_follow_the_values() {
    let s = sample_stack();
    assert_eq!(lua_type(&s, 1), LuaType::Number);
    assert_eq!(lua_type(&s, 2), LuaType::Str);
    assert_eq!(lua_type(&s, 3), LuaType::Boolean);
    assert_eq!(lua_type(&s, 4), LuaType::Number);
    assert_eq!(lua_type(&s, 5), LuaType::Nil);
    // an index beyond the top reads as nil
    assert_eq!(lua_type(&s, 6), LuaType::Nil);
}

#[test]
fn negative_indexes_count_from_the_top() {
    let s = sample_stack();
    assert_eq!(lua_type(&s, -1), LuaType::Nil);
    assert_eq!(lua_type(&s, -5), LuaType::Number);
    assert_eq!(lua_get::<i64>(&s, -5), 7);
}

#[test]
fn integers_and_floats_are_both_numbers_but_only_one_is_integer() {
    let s = sample_stack();
    assert!(is_integer(&s, 1));
    assert!(!is_integer(&s, 4));
    assert!(!is_integer(&s, 2));
}

#[test]
fn checked_reads_return_the_values() {
    let s = sample_stack();
    assert_eq!(lua_get::<i64>(&s, 1), 7);
    assert_eq!(lua_get::<String>(&s, 2), "hello");
    assert!(lua_get::<bool>(&s, 3));
}

#[test]
fn unchecked_reads_coerce() {
    let s = sample_stack();
    assert_eq!(lua_to::<i64>(&s, 2), 0);
    // truthiness: everything but nil and false is true
    assert!(lua_to::<bool>(&s, 1));
    assert!(!lua_to::<bool>(&s, 5));
}

#[test]
fn optional_reads_mind_the_type() {
    let s = sample_stack();
    assert_eq!(lua_opt::<i64>(&s, 1), Some(7));
    assert_eq!(lua_opt::<i64>(&s, 2), None);
    assert_eq!(lua_opt::<u64>(&s, 1), Some(7));
    assert_eq!(lua_opt::<String>(&s, 2), Some(String::from("hello")));
    assert_eq!(lua_opt::<String>(&s, 1), None);
    assert_eq!(lua_opt::<bool>(&s, 5), None);
    assert_eq!(lua_opt::<bool>(&s, 6), None);
    assert_eq!(lua_opt::<bool>(&s, 1), Some(true));
}

#[test]
fn pushes_extend_the_stack() {
    let mut s = LuaState::new(Vec::new());
    assert_eq!(lua_top(&s), 0);
    lua_push(&mut s, 42i64);
    lua_push(&mut s, String::from("x"));
    lua_push(&mut s, false);
    assert_eq!(lua_top(&s), 3);
    assert_eq!(s.stack[0], LuaData::Integer(42));
    assert_eq!(s.stack[1], LuaData::Str(String::from("x")));
    assert_eq!(s.stack[2], LuaData::Boolean(false));
}

#[test]
fn rendering_simple_values() {
    let s = LuaState::new(vec![
        LuaData::Nil,
        LuaData::Boolean(true),
        LuaData::Boolean(false),
        LuaData::Integer(-42),
        LuaData::Integer(0),
        LuaData::Str(String::from("abc")),
        LuaData::Table(vec![b'{']),
        LuaData::Integer(i64::MIN),
    ]);
    assert_eq!(to_string_unchecked(&s, 1), "nil");
    assert_eq!(to_string_unchecked(&s, 2), "true");
    assert_eq!(to_string_unchecked(&s, 3), "false");
    assert_eq!(to_string_unchecked(&s, 4), "-42");
    assert_eq!(to_string_unchecked(&s, 5), "0");
    assert_eq!(to_string_unchecked(&s, 6), "abc");
    assert_eq!(to_string_unchecked(&s, 7), "string type expected");
    assert_eq!(to_string_unchecked(&s, 8), "-9223372036854775808");
}

#[test]
fn scope_markers_record_the_depth() {
    let mut s = sample_stack();
    let marker = LuaScopePop::new(&s);
    assert_eq!(marker.depth, 5);
    marker.finish(&mut s);
    assert_eq!(lua_top(&s), 4);
}

#[test]
fn set_top_truncates_or_pads_with_nil() {
    let mut s = sample_stack();
    lua_settop(&mut s, -1);
    assert_eq!(lua_top(&s), 5);
    lua_settop(&mut s, 3);
    assert_eq!(lua_top(&s), 3);
    lua_settop(&mut s, 5);
    assert_eq!(lua_top(&s), 5);
    assert_eq!(s.stack[3], LuaData::Nil);
    assert_eq!(s.stack[4], LuaData::Nil);
    lua_pop(&mut s, 2);
    assert_eq!(lua_top(&s), 3);
    lua_settop(&mut s, 0);
    assert_eq!(lua_top(&s), 0);
}

#[test]
fn type_tags_carry_the_host_codes() {
    assert_eq!(i32::from(LuaType::Nil), 0);
    assert_eq!(i32::from(LuaType::Boolean), 1);
    assert_eq!(i32::from(LuaType::LightUserData), 2);
    assert_eq!(i32::from(LuaType::Number), 3);
    assert_eq!(i32::from(LuaType::Str), 4);
    assert_eq!(i32::from(LuaType::Table), 5);
    assert_eq!(i32::from(LuaType::Function), 6);
    assert_eq!(i32::from(LuaType::UserData), 7);
    assert_eq!(i32::from(LuaType::Thread), 8);
}

#[test]
fn a_negative_host_integer_reads_back_with_its_bits_as_unsigned() {
    let s = LuaState::new(vec![LuaData::Integer(-1)]);
    assert_eq!(lua_opt::<u64>(&s, 1), Some(u64::MAX));
}

#[test]
fn threads_wrap_a_state() {
    let t = LuaThread::new(sample_stack());
    assert_eq!(t.state.stack.len(), 5);
}
