//! An asynchronous, multi-backend database command dispatcher: callers open
//! named connections, submit parameterized SQL through a bounded FIFO queue,
//! and receive typed, backend-agnostic result sets or structured errors
//! through an asynchronous completion channel.
//!
//! The verified core models the value boundary with the host caller, the
//! classification of bound parameters, the selection of a backend from a
//! connection URL, the row decoder, and the per-connection actor state
//! machine with its queue, in-flight counter and retry policy.  The
//! asynchronous loop around it — opening real backend pools, executing
//! queries, sleeping out backoffs — performs the effects these transitions
//! return.

pub mod backend;
pub mod conn;
pub mod decode;
pub mod host;
pub mod jsonio;
pub mod params;
pub mod registry;
pub mod request;
pub mod strutil;
pub mod values;

pub use backend::{backend_kind_of_url, BackendKind};
pub use conn::{ActorState, Conn, StepEffects, TakeOutcome};
pub use decode::{classify_type_name, decode_outcome, decode_rows, ColClass};
pub use host::{
    is_integer, lua_get, lua_opt, lua_pop, lua_push, lua_settop, lua_to, lua_top, lua_type,
    to_string_unchecked,
    LuaData, LuaScopePop, LuaState, LuaTable, LuaThread, LuaType, LuaValue,
};
pub use params::{classify_value, collect_params};
pub use registry::Dispatcher;
pub use request::{read_connect, read_query, ConnectArgs};
pub use values::{
    CellData, CloseOutcome, ColValue, Command, DecodeProblem, Outcome, Param, QueryError,
    QueryRequest, RawCell, RawRowSet, Reply, Row, SubmitOutcome,
};
