//! The backend-independent value model: bound parameters, decoded column
//! values, query requests, query outcomes and the structured errors that the
//! dispatcher delivers through its completion channel.

use vstd::prelude::*;

use crate::backend::BackendKind;

verus! {

/// A bound query parameter.  Floating-point numbers are carried as their
/// IEEE-754 bit pattern, so that the value model stays exact; the backend
/// adapter reinterprets the bits when it binds the parameter.  A structured
/// (JSON) parameter carries the serialized text as validated bytes.
#[derive(Debug, Clone, PartialEq)]
pub enum Param {
    Bool(bool),
    Int(i64),
    Float(u64),
    Text(String),
    Json(Vec<u8>),
    Bytes(Vec<u8>),
}

/// A decoded column value.  As with [`Param`], floating-point numbers are
/// carried as their IEEE-754 bit pattern.
#[derive(Debug, Clone, PartialEq)]
pub enum ColValue {
    Null,
    Bool(bool),
    Int(i64),
    Float(u64),
    Text(String),
    Bytes(Vec<u8>),
}

/// One decoded row: column names paired with decoded values, in the
/// backend's column order.  Duplicate names are preserved positionally.
#[derive(Debug, Clone, PartialEq)]
pub struct Row {
    pub cols: Vec<(String, ColValue)>,
}

/// An immutable parameterized query, passed to a backend adapter.
#[derive(Debug, Clone, PartialEq)]
pub struct QueryRequest {
    pub sql: String,
    pub binds: Vec<Param>,
}

/// An execution failure, tagged so a caller can tell a genuine database-side
/// rejection from transient transport trouble.  The database variant carries
/// the backend's message verbatim.
#[derive(Debug, Clone, PartialEq)]
pub enum QueryError {
    Database(String),
    Transport(String),
}

/// The driver's decode attempts for one readable cell, one per representable
/// class.  `None` means the driver could not decode the raw value as that
/// class; the row decoder then substitutes the class's default.
#[derive(Debug, Clone, PartialEq)]
pub struct CellData {
    pub as_bool: Option<bool>,
    pub as_int: Option<i64>,
    pub as_float: Option<u64>,
    pub as_text: Option<String>,
    pub as_bytes: Option<Vec<u8>>,
}

/// One raw cell of a backend row: either the driver raised a retrieval error
/// (which aborts decoding of the remaining rows), or the cell is readable.
#[derive(Debug, Clone, PartialEq)]
pub enum RawCell {
    Unreadable(String),
    Readable(CellData),
}

/// A backend-tagged raw result set: column metadata read once from the first
/// row, and the raw cells of every row.
#[derive(Debug, Clone, PartialEq)]
pub struct RawRowSet {
    pub backend: BackendKind,
    pub names: Vec<String>,
    pub types: Vec<String>,
    pub rows: Vec<Vec<RawCell>>,
}

impl RawRowSet {
    /// The result-protocol invariant: the column metadata is identical for
    /// every row of one result set.
    pub open spec fn wf(self) -> bool {
        &&& self.names@.len() == self.types@.len()
        &&& forall|i: int|
            0 <= i < self.rows@.len() ==> (#[trigger] self.rows@[i])@.len() == self.names@.len()
    }
}

/// The mathematical value of a bound parameter.
pub enum ParamV {
    Bool(bool),
    Int(i64),
    Float(u64),
    Text(Seq<char>),
    Json(Seq<u8>),
    Bytes(Seq<u8>),
}

impl View for Param {
    type V = ParamV;

    open spec fn view(&self) -> ParamV {
        match self {
            Param::Bool(b) => ParamV::Bool(*b),
            Param::Int(v) => ParamV::Int(*v),
            Param::Float(bits) => ParamV::Float(*bits),
            Param::Text(s) => ParamV::Text(s@),
            Param::Json(j) => ParamV::Json(j@),
            Param::Bytes(b) => ParamV::Bytes(b@),
        }
    }
}

/// The mathematical value of a decoded column value.
pub enum ColValueV {
    Null,
    Bool(bool),
    Int(i64),
    Float(u64),
    Text(Seq<char>),
    Bytes(Seq<u8>),
}

impl View for ColValue {
    type V = ColValueV;

    open spec fn view(&self) -> ColValueV {
        match self {
            ColValue::Null => ColValueV::Null,
            ColValue::Bool(b) => ColValueV::Bool(*b),
            ColValue::Int(v) => ColValueV::Int(*v),
            ColValue::Float(bits) => ColValueV::Float(*bits),
            ColValue::Text(s) => ColValueV::Text(s@),
            ColValue::Bytes(b) => ColValueV::Bytes(b@),
        }
    }
}

/// The mathematical value of a cell's decode attempts.
pub struct CellDataV {
    pub as_bool: Option<bool>,
    pub as_int: Option<i64>,
    pub as_float: Option<u64>,
    pub as_text: Option<Seq<char>>,
    pub as_bytes: Option<Seq<u8>>,
}

impl View for CellData {
    type V = CellDataV;

    open spec fn view(&self) -> CellDataV {
        CellDataV {
            as_bool: self.as_bool,
            as_int: self.as_int,
            as_float: self.as_float,
            as_text: match self.as_text {
                Some(s) => Some(s@),
                None => None,
            },
            as_bytes: match self.as_bytes {
                Some(b) => Some(b@),
                None => None,
            },
        }
    }
}

/// The mathematical value of a raw cell.
pub enum RawCellV {
    Unreadable(Seq<char>),
    Readable(CellDataV),
}

impl View for RawCell {
    type V = RawCellV;

    open spec fn view(&self) -> RawCellV {
        match self {
            RawCell::Unreadable(m) => RawCellV::Unreadable(m@),
            RawCell::Readable(cd) => RawCellV::Readable(cd@),
        }
    }
}

impl View for Row {
    type V = Seq<(Seq<char>, ColValueV)>;

    open spec fn view(&self) -> Seq<(Seq<char>, ColValueV)> {
        Seq::new(self.cols@.len(), |i: int| (self.cols@[i].0@, self.cols@[i].1@))
    }
}

/// The column naming the driver could not read, and the driver's message.
#[derive(Debug, Clone, PartialEq)]
pub struct DecodeProblem {
    pub column: String,
    pub message: String,
}

/// The outcome of one submitted command; exactly one is produced per
/// accepted command.
#[derive(Debug, Clone, PartialEq)]
pub enum Outcome {
    Rows(RawRowSet),
    Connected,
    ConnectError(String),
    Error(QueryError),
    Timeout(String),
}

/// The completion a caller finally observes, after an outcome's raw rows
/// have been decoded.
#[derive(Debug, Clone, PartialEq)]
pub enum Reply {
    Rows(Vec<Row>),
    Connected,
    ConnectFailure(String),
    Failure(QueryError),
    TimedOut(String),
    DecodeFailure { column: String, message: String },
}

/// The synchronous admission result of submitting a query.
#[derive(Debug, Clone, Copy, PartialEq, Eq, Structural)]
pub enum SubmitOutcome {
    Accepted,
    QueueFull,
    UnknownConnection,
}

/// The synchronous result of requesting that a connection close.
#[derive(Debug, Clone, Copy, PartialEq, Eq, Structural)]
pub enum CloseOutcome {
    Accepted,
    Rejected,
    UnknownConnection,
}

/// A command on a connection's bounded FIFO queue.  A zero correlation token
/// marks a fire-and-forget query: no reply is expected and the actor retries
/// it until it succeeds.
#[derive(Debug, Clone, PartialEq)]
pub enum Command {
    Query { token: i64, req: QueryRequest },
    Close,
}

} // verus!
