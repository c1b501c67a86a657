//! Reading a host call's arguments off the modeled stack: the submit call
//! (correlation token, SQL text, bound parameters) and the connect call
//! (correlation token, URL, logical name, connect timeout).

use vstd::prelude::*;

use crate::host::{LuaState, LuaType, LuaValue, lua_get, lua_opt};
use crate::params::{collect_params, spec_bindable, spec_params_for};
use crate::values::QueryRequest;

verus! {

/// The default connect timeout, in milliseconds, when the caller gives
/// none.
pub const DEFAULT_CONNECT_TIMEOUT_MS: u64 = 5000;

/// Reads a submit call: the correlation token at position 2, the SQL text
/// at position 3, and the bound parameters from position 4 to the top of
/// the stack.  Stops at the first argument whose type cannot be bound and
/// reports that type.
pub fn read_query(state: &LuaState) -> (r: Result<(i64, QueryRequest), LuaType>)
    requires
        state.wf(),
        state.stack@.len() >= 3,
        state.read(2) is Integer,
        state.read(3) is Str,
    ensures
        match r {
            Ok(p) => {
                &&& p.0 == <i64 as LuaValue>::coerce(state.read(2))
                &&& p.1.sql == <String as LuaValue>::coerce(state.read(3))
                &&& spec_params_for(state.stack@, 4, p.1.binds@)
            },
            Err(t) => exists|j: int|
                3 <= j < state.stack@.len() && !spec_bindable(#[trigger] state.stack@[j]) && (
                forall|k: int| 3 <= k < j ==> spec_bindable(#[trigger] state.stack@[k])) && t
                    == crate::host::spec_tag(state.stack@[j]),
        },
{
    let token: i64 = lua_get(state, 2);
    let sql: String = lua_get(state, 3);
    match collect_params(state, 4) {
        Ok(binds) => Ok((token, QueryRequest { sql, binds })),
        Err(t) => Err(t),
    }
}

/// The arguments of a connect call.
#[derive(Debug, Clone, PartialEq)]
pub struct ConnectArgs {
    pub token: i64,
    pub url: String,
    pub name: String,
    pub timeout_ms: u64,
}

/// Reads a connect call: the correlation token at position 3, the backend
/// URL at position 4, the logical connection name at position 5, and an
/// optional connect timeout at position 6, defaulting when absent.
pub fn read_connect(state: &LuaState) -> (r: ConnectArgs)
    requires
        state.wf(),
        state.stack@.len() >= 5,
        state.read(3) is Integer,
        state.read(4) is Str,
        state.read(5) is Str,
    ensures
        r.token == <i64 as LuaValue>::coerce(state.read(3)),
        r.url == <String as LuaValue>::coerce(state.read(4)),
        r.name == <String as LuaValue>::coerce(state.read(5)),
        r.timeout_ms == if state.read(6) is Integer {
            <u64 as LuaValue>::coerce(state.read(6))
        } else {
            DEFAULT_CONNECT_TIMEOUT_MS
        },
{
    let token: i64 = lua_get(state, 3);
    let url: String = lua_get(state, 4);
    let name: String = lua_get(state, 5);
    let timeout_ms: u64 = match lua_opt(state, 6) {
        Some(t) => t,
        None => DEFAULT_CONNECT_TIMEOUT_MS,
    };
    ConnectArgs { token, url, name, timeout_ms }
}

} // verus!
