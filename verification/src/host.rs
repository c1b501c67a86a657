//! A model of the value boundary with the host caller.  The host hands the
//! dispatcher arguments on a stack of dynamically typed values; this module
//! models that stack as plain data, so that reading and classifying the
//! arguments is verified.
//!
//! Floating numbers are carried as their IEEE-754 bit pattern, and a
//! structured (table) argument arrives already serialized to bytes:
//! serializing host values is the host runtime's affair, not this library's.

use vstd::prelude::*;
use vstd::pervasive::arbitrary;
use vstd::pervasive::VecAdditionalExecFns;

use crate::strutil::{spec_int_text, i64_text};

verus! {

/// A dynamically typed host value.
///
/// `Str` holds a textual host string; `Bytes` a binary one (the host has a
/// single string type that covers both).  `Table` holds a structured value
/// in the serialized form the host produced for it.  The remaining host
/// types carry nothing the dispatcher reads, so they are bare tags.
#[derive(Debug, Clone, PartialEq)]
pub enum LuaData {
    Nil,
    Boolean(bool),
    Integer(i64),
    Float(u64),
    Str(String),
    Bytes(Vec<u8>),
    Table(Vec<u8>),
    LightUserData,
    Function,
    UserData,
    Thread,
}

/// The host's type tags.
#[derive(Debug, Clone, Copy, PartialEq, Eq, Structural)]
pub enum LuaType {
    Nil,
    Boolean,
    LightUserData,
    Number,
    Str,
    Table,
    Function,
    UserData,
    Thread,
}

/// The numeric code of a host type tag, as the host runtime counts its
/// types.
pub open spec fn spec_type_code(t: LuaType) -> i32 {
    match t {
        LuaType::Nil => 0,
        LuaType::Boolean => 1,
        LuaType::LightUserData => 2,
        LuaType::Number => 3,
        LuaType::Str => 4,
        LuaType::Table => 5,
        LuaType::Function => 6,
        LuaType::UserData => 7,
        LuaType::Thread => 8,
    }
}

impl From<LuaType> for i32 {
    fn from(t: LuaType) -> (r: i32) {
        match t {
            LuaType::Nil => 0,
            LuaType::Boolean => 1,
            LuaType::LightUserData => 2,
            LuaType::Number => 3,
            LuaType::Str => 4,
            LuaType::Table => 5,
            LuaType::Function => 6,
            LuaType::UserData => 7,
            LuaType::Thread => 8,
        }
    }
}

impl vstd::std_specs::convert::FromSpecImpl<LuaType> for i32 {
    open spec fn obeys_from_spec() -> bool {
        true
    }

    open spec fn from_spec(t: LuaType) -> i32 {
        spec_type_code(t)
    }
}

/// The type tag of a host value.
pub open spec fn spec_tag(d: LuaData) -> LuaType {
    match d {
        LuaData::Nil => LuaType::Nil,
        LuaData::Boolean(_) => LuaType::Boolean,
        LuaData::Integer(_) => LuaType::Number,
        LuaData::Float(_) => LuaType::Number,
        LuaData::Str(_) => LuaType::Str,
        LuaData::Bytes(_) => LuaType::Str,
        LuaData::Table(_) => LuaType::Table,
        LuaData::LightUserData => LuaType::LightUserData,
        LuaData::Function => LuaType::Function,
        LuaData::UserData => LuaType::UserData,
        LuaData::Thread => LuaType::Thread,
    }
}

/// A host stack index is 1-based; negative indexes count back from the top.
pub open spec fn spec_valid_index(len: int, index: int) -> bool {
    (1 <= index <= len) || (-len <= index <= -1)
}

/// The 0-based position a host stack index denotes.
pub open spec fn spec_abs_index(len: int, index: int) -> int {
    if index < 0 {
        len + index
    } else {
        index - 1
    }
}

/// The value at a host stack index; an index outside the stack reads as nil,
/// as the host treats a missing argument.
pub open spec fn spec_read(s: Seq<LuaData>, index: int) -> LuaData {
    if spec_valid_index(s.len() as int, index) {
        s[spec_abs_index(s.len() as int, index)]
    } else {
        LuaData::Nil
    }
}

/// The modeled host stack: the arguments a host call hands the dispatcher,
/// or the results handed back.
#[derive(Debug, Clone, PartialEq)]
pub struct LuaState {
    pub stack: Vec<LuaData>,
}

impl LuaState {
    /// The stack stays addressable by 32-bit host indexes.
    pub open spec fn wf(self) -> bool {
        self.stack@.len() <= i32::MAX
    }

    /// The value read at a host index of this stack.
    pub open spec fn read(self, index: int) -> LuaData {
        spec_read(self.stack@, index)
    }

    pub fn new(stack: Vec<LuaData>) -> (r: Self)
        requires
            stack@.len() <= i32::MAX,
        ensures
            r.stack == stack,
            r.wf(),
    {
        LuaState { stack }
    }
}

/// A host thread: a coroutine of the host runtime, with its own stack.
#[derive(Debug, Clone, PartialEq)]
pub struct LuaThread {
    pub state: LuaState,
}

impl LuaThread {
    pub fn new(state: LuaState) -> (r: Self)
        ensures
            r.state == state,
    {
        LuaThread { state }
    }
}

/// A marker for a stack slot that the host pops again when the surrounding
/// scope ends; it records the depth at which it was taken.
#[derive(Debug, Clone, PartialEq)]
pub struct LuaScopePop {
    pub depth: usize,
}

impl LuaScopePop {
    pub fn new(state: &LuaState) -> (r: Self)
        ensures
            r.depth == state.stack@.len(),
    {
        LuaScopePop { depth: state.stack.len() }
    }

    /// Ends the scope: pops the one slot the marker guards.
    pub fn finish(self, state: &mut LuaState)
        requires
            old(state).stack@.len() > 0,
        ensures
            final(state).stack@ == old(state).stack@.drop_last(),
    {
        let _ = state.stack.pop();
    }
}

/// Borrows the stack slot a host index denotes, if the index is valid.
fn slot<'a>(state: &'a LuaState, index: i32) -> (r: Option<&'a LuaData>)
    requires
        state.wf(),
    ensures
        match r {
            Some(d) => spec_valid_index(state.stack@.len() as int, index as int) && *d
                == state.read(index as int),
            None => !spec_valid_index(state.stack@.len() as int, index as int),
        },
{
    let len = state.stack.len();
    if index > 0 {
        let i = index as usize;
        if i <= len {
            Some(&state.stack[i - 1])
        } else {
            None
        }
    } else if index < 0 {
        let m = (-(index as i64)) as usize;
        if m <= len {
            Some(&state.stack[len - m])
        } else {
            None
        }
    } else {
        None
    }
}

/// The type tag at a host index; an invalid index reads as nil.
pub fn lua_type(state: &LuaState, index: i32) -> (t: LuaType)
    requires
        state.wf(),
    ensures
        t == spec_tag(state.read(index as int)),
{
    match slot(state, index) {
        Some(d) => match d {
            LuaData::Nil => LuaType::Nil,
            LuaData::Boolean(_) => LuaType::Boolean,
            LuaData::Integer(_) => LuaType::Number,
            LuaData::Float(_) => LuaType::Number,
            LuaData::Str(_) => LuaType::Str,
            LuaData::Bytes(_) => LuaType::Str,
            LuaData::Table(_) => LuaType::Table,
            LuaData::LightUserData => LuaType::LightUserData,
            LuaData::Function => LuaType::Function,
            LuaData::UserData => LuaType::UserData,
            LuaData::Thread => LuaType::Thread,
        },
        None => LuaType::Nil,
    }
}

/// Whether the value at a host index is an exact integer (and not a
/// floating number or anything else).
pub fn is_integer(state: &LuaState, index: i32) -> (r: bool)
    requires
        state.wf(),
    ensures
        r == (state.read(index as int) is Integer),
{
    match slot(state, index) {
        Some(d) => match d {
            LuaData::Integer(_) => true,
            _ => false,
        },
        None => false,
    }
}

/// The number of values on the stack.
pub fn lua_top(state: &LuaState) -> (r: i32)
    requires
        state.wf(),
    ensures
        r as int == state.stack@.len() as int,
{
    state.stack.len() as i32
}

/// Sets the stack top: a smaller top truncates, a larger one pads with
/// nil.  A non-positive index counts back from the current top (so `0`
/// empties the stack and `-1` keeps it as it is).
pub fn lua_settop(state: &mut LuaState, idx: i32)
    requires
        old(state).wf(),
        idx < 0 ==> old(state).stack@.len() as int + idx + 1 >= 0,
    ensures
        final(state).wf(),
        ({
            let target = if idx >= 0 {
                idx as int
            } else {
                old(state).stack@.len() as int + idx + 1
            };
            &&& (target <= old(state).stack@.len() ==> final(state).stack@ == old(
                state,
            ).stack@.subrange(0, target))
            &&& (target > old(state).stack@.len() ==> final(state).stack@.len() == target
                && final(state).stack@.subrange(0, old(state).stack@.len() as int) == old(
                state,
            ).stack@ && (forall|k: int|
                old(state).stack@.len() <= k < target ==> final(state).stack@[k]
                    == LuaData::Nil))
        }),
{
    if idx >= 0 {
        let target = idx as usize;
        if target <= state.stack.len() {
            state.stack.truncate(target);
            proof {
                assert(final(state).stack@ =~= old(state).stack@.subrange(0, target as int));
            }
        } else {
            while state.stack.len() < target
                invariant
                    old(state).stack@.len() < target <= i32::MAX,
                    old(state).stack@.len() <= state.stack@.len() <= target,
                    state.stack@.subrange(0, old(state).stack@.len() as int) == old(
                        state,
                    ).stack@,
                    forall|k: int|
                        old(state).stack@.len() <= k < state.stack@.len()
                            ==> state.stack@[k] == LuaData::Nil,
                decreases target - state.stack@.len(),
            {
                state.stack.push(LuaData::Nil);
                proof {
                    assert(state.stack@.subrange(0, old(state).stack@.len() as int) =~= old(
                        state,
                    ).stack@);
                }
            }
        }
    } else {
        let back = (-(idx as i64)) as usize;
        let target = state.stack.len() + 1 - back;
        state.stack.truncate(target);
        proof {
            assert(final(state).stack@ =~= old(state).stack@.subrange(0, target as int));
        }
    }
}

/// Pops the top `n` values.
pub fn lua_pop(state: &mut LuaState, n: i32)
    requires
        old(state).wf(),
        0 <= n <= old(state).stack@.len(),
    ensures
        final(state).wf(),
        final(state).stack@ == old(state).stack@.subrange(
            0,
            old(state).stack@.len() - n as int,
        ),
{
    let target = state.stack.len() - (n as usize);
    state.stack.truncate(target);
    proof {
        assert(final(state).stack@ =~= old(state).stack@.subrange(
            0,
            old(state).stack@.len() - n as int,
        ));
    }
}

/// A Rust type that can cross the host value boundary.
///
/// `strict` are the host values a checked read accepts, `coerce` the value
/// such a read converts to, `present` the host values an optional read
/// treats as given, and `embed` the host value a push writes.
pub trait LuaValue: Sized {
    spec fn strict(d: LuaData) -> bool;

    spec fn coerce(d: LuaData) -> Self;

    spec fn present(d: LuaData) -> bool;

    spec fn embed(self) -> LuaData;

    /// A checked read: the host raises an error on a value of the wrong
    /// type, so the contract demands the right type.
    fn from_lua_check(state: &LuaState, index: i32) -> (r: Self)
        requires
            state.wf(),
            spec_valid_index(state.stack@.len() as int, index as int),
            Self::strict(state.read(index as int)),
        ensures
            r == Self::coerce(state.read(index as int)),
    ;

    /// An unchecked read; the result is pinned on values the checked read
    /// would accept.
    fn from_lua(state: &LuaState, index: i32) -> (r: Self)
        requires
            state.wf(),
            spec_valid_index(state.stack@.len() as int, index as int),
        ensures
            Self::strict(state.read(index as int)) ==> r == Self::coerce(
                state.read(index as int),
            ),
    ;

    /// An optional read: a missing or mistyped value reads as `None`.
    fn from_lua_opt(state: &LuaState, index: i32) -> (r: Option<Self>)
        requires
            state.wf(),
        ensures
            r == if Self::present(state.read(index as int)) {
                Some(Self::coerce(state.read(index as int)))
            } else {
                None::<Self>
            },
    ;

    /// Pushes the value onto the stack.
    fn push_lua(state: &mut LuaState, v: Self)
        requires
            old(state).wf(),
            old(state).stack@.len() + 1 <= i32::MAX,
        ensures
            final(state).stack@ == old(state).stack@.push(v.embed()),
    ;
}

/// Reads the value at a host index, raising a host error (excluded by
/// contract) when the value has the wrong type.
pub fn lua_get<T: LuaValue>(state: &LuaState, index: i32) -> (r: T)
    requires
        state.wf(),
        spec_valid_index(state.stack@.len() as int, index as int),
        T::strict(state.read(index as int)),
    ensures
        r == T::coerce(state.read(index as int)),
{
    T::from_lua_check(state, index)
}

/// Reads the value at a host index without checking its type.
pub fn lua_to<T: LuaValue>(state: &LuaState, index: i32) -> (r: T)
    requires
        state.wf(),
        spec_valid_index(state.stack@.len() as int, index as int),
    ensures
        T::strict(state.read(index as int)) ==> r == T::coerce(state.read(index as int)),
{
    T::from_lua(state, index)
}

/// Reads the value at a host index, `None` when missing or mistyped.
pub fn lua_opt<T: LuaValue>(state: &LuaState, index: i32) -> (r: Option<T>)
    requires
        state.wf(),
    ensures
        r == if T::present(state.read(index as int)) {
            Some(T::coerce(state.read(index as int)))
        } else {
            None::<T>
        },
{
    T::from_lua_opt(state, index)
}

/// Pushes a value onto the host stack.
pub fn lua_push<T: LuaValue>(state: &mut LuaState, v: T)
    requires
        old(state).wf(),
        old(state).stack@.len() + 1 <= i32::MAX,
    ensures
        final(state).stack@ == old(state).stack@.push(v.embed()),
{
    T::push_lua(state, v)
}

impl LuaValue for bool {
    open spec fn strict(d: LuaData) -> bool {
        d is Boolean
    }

    /// Host truthiness: everything but nil and false is true.
    open spec fn coerce(d: LuaData) -> bool {
        match d {
            LuaData::Nil => false,
            LuaData::Boolean(b) => b,
            _ => true,
        }
    }

    open spec fn present(d: LuaData) -> bool {
        !(d is Nil)
    }

    open spec fn embed(self) -> LuaData {
        LuaData::Boolean(self)
    }

    fn from_lua_check(state: &LuaState, index: i32) -> (r: bool) {
        match slot(state, index) {
            Some(d) => match d {
                LuaData::Nil => false,
                LuaData::Boolean(b) => *b,
                _ => true,
            },
            None => false,
        }
    }

    fn from_lua(state: &LuaState, index: i32) -> (r: bool) {
        match slot(state, index) {
            Some(d) => match d {
                LuaData::Nil => false,
                LuaData::Boolean(b) => *b,
                _ => true,
            },
            None => false,
        }
    }

    fn from_lua_opt(state: &LuaState, index: i32) -> (r: Option<bool>) {
        match slot(state, index) {
            Some(d) => match d {
                LuaData::Nil => None,
                LuaData::Boolean(b) => Some(*b),
                _ => Some(true),
            },
            None => None,
        }
    }

    fn push_lua(state: &mut LuaState, v: bool) {
        state.stack.push(LuaData::Boolean(v));
    }
}

impl LuaValue for i64 {
    open spec fn strict(d: LuaData) -> bool {
        d is Integer
    }

    open spec fn coerce(d: LuaData) -> i64 {
        match d {
            LuaData::Integer(v) => v,
            _ => 0,
        }
    }

    open spec fn present(d: LuaData) -> bool {
        d is Integer
    }

    open spec fn embed(self) -> LuaData {
        LuaData::Integer(self)
    }

    fn from_lua_check(state: &LuaState, index: i32) -> (r: i64) {
        match slot(state, index) {
            Some(d) => match d {
                LuaData::Integer(v) => *v,
                _ => 0,
            },
            None => 0,
        }
    }

    fn from_lua(state: &LuaState, index: i32) -> (r: i64) {
        match slot(state, index) {
            Some(d) => match d {
                LuaData::Integer(v) => *v,
                _ => 0,
            },
            None => 0,
        }
    }

    fn from_lua_opt(state: &LuaState, index: i32) -> (r: Option<i64>) {
        match slot(state, index) {
            Some(d) => match d {
                LuaData::Integer(v) => Some(*v),
                _ => None,
            },
            None => None,
        }
    }

    fn push_lua(state: &mut LuaState, v: i64) {
        state.stack.push(LuaData::Integer(v));
    }
}

impl LuaValue for u64 {
    open spec fn strict(d: LuaData) -> bool {
        d is Integer
    }

    /// The host's integers are signed; a negative one reads back with its
    /// bits reinterpreted, as the host runtime would hand it over.
    open spec fn coerce(d: LuaData) -> u64 {
        match d {
            LuaData::Integer(v) => v as u64,
            _ => 0,
        }
    }

    open spec fn present(d: LuaData) -> bool {
        d is Integer
    }

    open spec fn embed(self) -> LuaData {
        LuaData::Integer(self as i64)
    }

    fn from_lua_check(state: &LuaState, index: i32) -> (r: u64) {
        match slot(state, index) {
            Some(d) => match d {
                LuaData::Integer(v) => *v as u64,
                _ => 0,
            },
            None => 0,
        }
    }

    fn from_lua(state: &LuaState, index: i32) -> (r: u64) {
        match slot(state, index) {
            Some(d) => match d {
                LuaData::Integer(v) => *v as u64,
                _ => 0,
            },
            None => 0,
        }
    }

    fn from_lua_opt(state: &LuaState, index: i32) -> (r: Option<u64>) {
        match slot(state, index) {
            Some(d) => match d {
                LuaData::Integer(v) => Some(*v as u64),
                _ => None,
            },
            None => None,
        }
    }

    fn push_lua(state: &mut LuaState, v: u64) {
        state.stack.push(LuaData::Integer(v as i64));
    }
}

impl LuaValue for String {
    open spec fn strict(d: LuaData) -> bool {
        d is Str
    }

    open spec fn coerce(d: LuaData) -> String {
        match d {
            LuaData::Str(s) => s,
            _ => arbitrary(),
        }
    }

    open spec fn present(d: LuaData) -> bool {
        d is Str
    }

    open spec fn embed(self) -> LuaData {
        LuaData::Str(self)
    }

    fn from_lua_check(state: &LuaState, index: i32) -> (r: String) {
        match slot(state, index) {
            Some(d) => match d {
                LuaData::Str(s) => s.clone(),
                _ => String::new(),
            },
            None => String::new(),
        }
    }

    fn from_lua(state: &LuaState, index: i32) -> (r: String) {
        match slot(state, index) {
            Some(d) => match d {
                LuaData::Str(s) => s.clone(),
                _ => String::new(),
            },
            None => String::new(),
        }
    }

    fn from_lua_opt(state: &LuaState, index: i32) -> (r: Option<String>) {
        match slot(state, index) {
            Some(d) => match d {
                LuaData::Str(s) => Some(s.clone()),
                _ => None,
            },
            None => None,
        }
    }

    fn push_lua(state: &mut LuaState, v: String) {
        state.stack.push(LuaData::Str(v));
    }
}

/// A key of the record part is taken.
pub open spec fn rec_has(rec: Seq<(String, LuaData)>, key: Seq<char>) -> bool {
    exists|i: int| 0 <= i < rec.len() && (#[trigger] rec[i]).0@ == key
}

/// The position of a key in the record part.
pub open spec fn rec_index(rec: Seq<(String, LuaData)>, key: Seq<char>) -> int {
    choose|i: int| 0 <= i < rec.len() && (#[trigger] rec[i]).0@ == key
}

/// Finds the first position of a key in a record part.
fn rec_find(rec: &Vec<(String, LuaData)>, key: &str) -> (r: Option<usize>)
    ensures
        match r {
            Some(i) => i < rec@.len() && rec@[i as int].0@ == key@ && (forall|k: int|
                0 <= k < i ==> (#[trigger] rec@[k]).0@ != key@),
            None => !rec_has(rec@, key@),
        },
{
    let n = rec.len();
    let mut i: usize = 0;
    while i < n
        invariant
            i <= n,
            n == rec@.len(),
            forall|k: int| 0 <= k < i ==> (#[trigger] rec@[k]).0@ != key@,
        decreases n - i,
    {
        if crate::strutil::str_eq(rec[i].0.as_str(), key) {
            return Some(i);
        }
        i = i + 1;
    }
    None
}

/// A host table being built for the caller: an array part of positional
/// values and a record part of string-keyed values.  Setting a key that is
/// already taken overwrites its value, as the host's raw table write does.
#[derive(Debug, Clone, PartialEq)]
pub struct LuaTable {
    pub arr: Vec<LuaData>,
    pub rec: Vec<(String, LuaData)>,
}

impl LuaTable {
    /// The record part's keys are unique: a table maps each key to one
    /// value.
    pub open spec fn rec_wf(self) -> bool {
        forall|i: int, j: int|
            0 <= i < j < self.rec@.len() ==> (#[trigger] self.rec@[i]).0@ != (
            #[trigger] self.rec@[j]).0@
    }

    /// An empty table.
    pub fn new() -> (t: Self)
        ensures
            t.arr@.len() == 0,
            t.rec@.len() == 0,
            t.rec_wf(),
    {
        LuaTable { arr: Vec::new(), rec: Vec::new() }
    }

    /// The length of the array part (what the host's raw length reports).
    pub fn len(&self) -> (n: usize)
        ensures
            n == self.arr@.len(),
    {
        self.arr.len()
    }

    pub fn is_empty(&self) -> (r: bool)
        ensures
            r == (self.arr@.len() == 0),
    {
        self.len() == 0
    }

    /// Sets a record entry: overwrites the value under a taken key, appends
    /// a fresh one otherwise.
    pub fn set(&mut self, key: String, val: LuaData)
        requires
            old(self).rec_wf(),
            old(self).rec@.len() < usize::MAX,
        ensures
            final(self).rec_wf(),
            final(self).arr == old(self).arr,
            rec_has(old(self).rec@, key@) ==> final(self).rec@ == old(self).rec@.update(
                rec_index(old(self).rec@, key@),
                (key, val),
            ),
            !rec_has(old(self).rec@, key@) ==> final(self).rec@ == old(self).rec@.push(
                (key, val),
            ),
    {
        match rec_find(&self.rec, key.as_str()) {
            Some(i) => {
                proof {
                    assert(forall|j: int|
                        0 <= j < self.rec@.len() && (#[trigger] self.rec@[j]).0@ == key@ ==> j
                            == i);
                    assert(rec_index(self.rec@, key@) == i as int);
                }
                self.rec.set(i, (key, val));
            },
            None => {
                self.rec.push((key, val));
            },
        }
    }

    /// Sets the array slot at a 1-based position, which must lie in the
    /// array part or just past its end (the host's sequential table fill).
    pub fn seti(&mut self, n: i64, val: LuaData)
        requires
            old(self).rec_wf(),
            1 <= n <= old(self).arr@.len() + 1,
            old(self).arr@.len() < usize::MAX,
        ensures
            final(self).rec_wf(),
            final(self).rec == old(self).rec,
            n == old(self).arr@.len() + 1 ==> final(self).arr@ == old(self).arr@.push(val),
            n <= old(self).arr@.len() ==> final(self).arr@ == old(self).arr@.update(
                n - 1,
                val,
            ),
    {
        let pos = (n - 1) as usize;
        if pos == self.arr.len() {
            self.arr.push(val);
        } else {
            self.arr.set(pos, val);
        }
    }
}

/// The text the host renders a simple value as.  Rendering a floating
/// number or a binary string lies outside the value model, so those cases
/// are excluded where this is relied on.
pub open spec fn spec_host_text(d: LuaData) -> Seq<char> {
    match d {
        LuaData::Nil => "nil"@,
        LuaData::Boolean(b) => if b {
            "true"@
        } else {
            "false"@
        },
        LuaData::Integer(v) => spec_int_text(v as int),
        LuaData::Str(s) => s@,
        LuaData::Float(_) => arbitrary(),
        LuaData::Bytes(_) => arbitrary(),
        _ => "string type expected"@,
    }
}

/// Renders the value at a host index as text, for diagnostics; values that
/// have no textual form read as a fixed notice.
pub fn to_string_unchecked(state: &LuaState, index: i32) -> (s: String)
    requires
        state.wf(),
        !(state.read(index as int) is Float),
        !(state.read(index as int) is Bytes),
    ensures
        s@ == spec_host_text(state.read(index as int)),
{
    match slot(state, index) {
        Some(d) => match d {
            LuaData::Nil => "nil".to_owned(),
            LuaData::Boolean(b) => if *b {
                "true".to_owned()
            } else {
                "false".to_owned()
            },
            LuaData::Integer(v) => i64_text(*v),
            LuaData::Str(s) => s.clone(),
            _ => "string type expected".to_owned(),
        },
        None => "nil".to_owned(),
    }
}

} // verus!
