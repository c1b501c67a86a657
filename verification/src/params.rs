//! Classification of caller-supplied arguments into bound parameters.
//!
//! Booleans and numbers carry over directly (numbers split into integer and
//! float by exactness).  A textual argument that begins with `{` or `[` is
//! opportunistically treated as structured data when the JSON parser accepts
//! it, and falls back to plain text otherwise.  A structured argument
//! arrives serialized and is classified as structured-data-or-opaque-bytes
//! by its leading byte.  Any other host type cannot be bound.

use vstd::prelude::*;
use vstd::string::StrSliceExecFns;
use vstd::utf8::encode_utf8;

use crate::host::{spec_tag, LuaData, LuaState, LuaType};
use crate::jsonio::{json_accepts, json_validates};
use crate::values::Param;

verus! {

/// Text that looks structured and that the JSON parser accepts.
pub open spec fn jsonish_text(s: Seq<char>) -> bool {
    s.len() > 0 && (s[0] == '{' || s[0] == '[') && json_accepts(encode_utf8(s))
}

/// Serialized bytes that look structured and that the JSON parser accepts.
pub open spec fn jsonish_bytes(b: Seq<u8>) -> bool {
    b.len() > 0 && (b[0] == 123 || b[0] == 91) && json_accepts(b)
}

/// The host values that can be bound as query parameters.
pub open spec fn spec_bindable(d: LuaData) -> bool {
    match d {
        LuaData::Boolean(_) => true,
        LuaData::Integer(_) => true,
        LuaData::Float(_) => true,
        LuaData::Str(_) => true,
        LuaData::Bytes(_) => true,
        LuaData::Table(_) => true,
        _ => false,
    }
}

/// The classification rule: which bound parameter a host value produces.
pub open spec fn spec_param_for(d: LuaData, p: Param) -> bool {
    match d {
        LuaData::Boolean(b) => p == Param::Bool(b),
        LuaData::Integer(v) => p == Param::Int(v),
        LuaData::Float(bits) => p == Param::Float(bits),
        LuaData::Str(s) => if jsonish_text(s@) {
            p matches Param::Json(j) && j@ == encode_utf8(s@)
        } else {
            p == Param::Text(s)
        },
        LuaData::Bytes(b) => if jsonish_bytes(b@) {
            p matches Param::Json(j) && j@ == b@
        } else {
            p matches Param::Bytes(j) && j@ == b@
        },
        LuaData::Table(b) => if jsonish_bytes(b@) {
            p matches Param::Json(j) && j@ == b@
        } else {
            p matches Param::Bytes(j) && j@ == b@
        },
        _ => false,
    }
}

/// Classifies one host value; `None` means its type cannot be bound.
pub fn classify_value(d: &LuaData) -> (r: Option<Param>)
    ensures
        match r {
            Some(p) => spec_bindable(*d) && spec_param_for(*d, p),
            None => !spec_bindable(*d),
        },
{
    match d {
        LuaData::Boolean(b) => Some(Param::Bool(*b)),
        LuaData::Integer(v) => Some(Param::Int(*v)),
        LuaData::Float(bits) => Some(Param::Float(*bits)),
        LuaData::Str(s) => {
            let t = s.as_str();
            if t.unicode_len() > 0 && (t.get_char(0) == '{' || t.get_char(0) == '[')
                && json_validates(t.as_bytes()) {
                Some(Param::Json(t.as_bytes_vec()))
            } else {
                Some(Param::Text(s.clone()))
            }
        },
        LuaData::Bytes(b) => {
            if b.len() > 0 && (b[0] == 123 || b[0] == 91) && json_validates(b.as_slice()) {
                Some(Param::Json(b.clone()))
            } else {
                Some(Param::Bytes(b.clone()))
            }
        },
        LuaData::Table(b) => {
            if b.len() > 0 && (b[0] == 123 || b[0] == 91) && json_validates(b.as_slice()) {
                Some(Param::Json(b.clone()))
            } else {
                Some(Param::Bytes(b.clone()))
            }
        },
        _ => None,
    }
}

/// The arguments from stack position `first` upward all classify, and `ps`
/// is their classification, in order.
pub open spec fn spec_params_for(s: Seq<LuaData>, first: int, ps: Seq<Param>) -> bool {
    &&& ps.len() == if s.len() >= first - 1 {
        s.len() - (first - 1)
    } else {
        0
    }
    &&& forall|k: int|
        0 <= k < ps.len() ==> spec_bindable(#[trigger] s[first - 1 + k]) && spec_param_for(
            s[first - 1 + k],
            ps[k],
        )
}

/// Classifies every argument from stack position `first` to the top; stops
/// at the first argument whose type cannot be bound and reports that type.
pub fn collect_params(state: &LuaState, first: i32) -> (r: Result<Vec<Param>, LuaType>)
    requires
        state.wf(),
        first >= 1,
    ensures
        match r {
            Ok(ps) => spec_params_for(state.stack@, first as int, ps@),
            Err(t) => exists|j: int|
                first - 1 <= j < state.stack@.len() && !spec_bindable(#[trigger] state.stack@[j])
                    && (forall|k: int|
                    first - 1 <= k < j ==> spec_bindable(#[trigger] state.stack@[k])) && t
                    == spec_tag(state.stack@[j]),
        },
{
    let len = state.stack.len();
    let start = (first - 1) as usize;
    let mut ps: Vec<Param> = Vec::new();
    if start >= len {
        return Ok(ps);
    }
    let mut idx = start;
    while idx < len
        invariant
            state.wf(),
            first >= 1,
            start <= idx <= len,
            len == state.stack@.len(),
            start == first - 1,
            ps@.len() == idx - start,
            forall|k: int|
                start <= k < idx ==> spec_bindable(#[trigger] state.stack@[k]) && spec_param_for(
                    state.stack@[k],
                    ps@[k - start],
                ),
        decreases len - idx,
    {
        match classify_value(&state.stack[idx]) {
            Some(p) => {
                ps.push(p);
            },
            None => {
                let t = crate::host::lua_type(state, (idx + 1) as i32);
                proof {
                    assert(state.read(idx + 1) == state.stack@[idx as int]);
                }
                return Err(t);
            },
        }
        idx = idx + 1;
    }
    Ok(ps)
}

} // verus!
