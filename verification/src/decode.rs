//! The row decoder: a column-type-name-driven dispatch, evaluated once per
//! result set, that turns a backend's raw rows into backend-independent
//! values.  An individual cell that fails to decode gets its class's
//! default; a cell the driver itself cannot read aborts the whole set and
//! surfaces a structured error naming the column.

use vstd::prelude::*;

use crate::strutil::str_eq;
use crate::values::{
    CellData, ColValue, ColValueV, DecodeProblem, Outcome, RawCell, RawCellV, RawRowSet, Reply,
    Row,
};

verus! {

/// The decode class a column type name selects.
#[derive(Debug, Clone, Copy, PartialEq, Eq, Structural)]
pub enum ColClass {
    Null,
    Bool,
    Int,
    Float,
    Text,
    Bytes,
}

/// The dispatch table from column type name to decode class; any name
/// outside the known families decodes as raw bytes.
pub open spec fn spec_class_of(name: Seq<char>) -> ColClass {
    if name == "NULL"@ {
        ColClass::Null
    } else if name == "BOOL"@ || name == "BOOLEAN"@ {
        ColClass::Bool
    } else if name == "INT2"@ || name == "INT4"@ || name == "INT8"@ || name == "TINYINT"@ || name
        == "SMALLINT"@ || name == "INT"@ || name == "MEDIUMINT"@ || name == "BIGINT"@ || name
        == "INTEGER"@ {
        ColClass::Int
    } else if name == "FLOAT4"@ || name == "FLOAT8"@ || name == "NUMERIC"@ || name == "FLOAT"@
        || name == "DOUBLE"@ || name == "REAL"@ {
        ColClass::Float
    } else if name == "TEXT"@ {
        ColClass::Text
    } else {
        ColClass::Bytes
    }
}

/// Looks a column type name up in the dispatch table.
pub fn classify_type_name(name: &str) -> (c: ColClass)
    ensures
        c == spec_class_of(name@),
{
    if str_eq(name, "NULL") {
        ColClass::Null
    } else if str_eq(name, "BOOL") || str_eq(name, "BOOLEAN") {
        ColClass::Bool
    } else if str_eq(name, "INT2") || str_eq(name, "INT4") || str_eq(name, "INT8") || str_eq(
        name,
        "TINYINT",
    ) || str_eq(name, "SMALLINT") || str_eq(name, "INT") || str_eq(name, "MEDIUMINT") || str_eq(
        name,
        "BIGINT",
    ) || str_eq(name, "INTEGER") {
        ColClass::Int
    } else if str_eq(name, "FLOAT4") || str_eq(name, "FLOAT8") || str_eq(name, "NUMERIC")
        || str_eq(name, "FLOAT") || str_eq(name, "DOUBLE") || str_eq(name, "REAL") {
        ColClass::Float
    } else if str_eq(name, "TEXT") {
        ColClass::Text
    } else {
        ColClass::Bytes
    }
}

/// Decoding one readable cell: the decode attempt of the column's class, or
/// the class's declared default when that attempt failed.
pub open spec fn spec_decode_cell(c: ColClass, cd: crate::values::CellDataV) -> ColValueV {
    match c {
        ColClass::Null => ColValueV::Null,
        ColClass::Bool => ColValueV::Bool(
            match cd.as_bool {
                Some(b) => b,
                None => false,
            },
        ),
        ColClass::Int => ColValueV::Int(
            match cd.as_int {
                Some(v) => v,
                None => 0,
            },
        ),
        ColClass::Float => ColValueV::Float(
            match cd.as_float {
                Some(bits) => bits,
                None => 0,
            },
        ),
        ColClass::Text => ColValueV::Text(
            match cd.as_text {
                Some(s) => s,
                None => Seq::empty(),
            },
        ),
        ColClass::Bytes => ColValueV::Bytes(
            match cd.as_bytes {
                Some(b) => b,
                None => Seq::empty(),
            },
        ),
    }
}

/// Decodes one readable cell.
pub fn decode_cell(c: ColClass, cd: &CellData) -> (v: ColValue)
    ensures
        v@ == spec_decode_cell(c, cd@),
{
    match c {
        ColClass::Null => ColValue::Null,
        ColClass::Bool => ColValue::Bool(
            match cd.as_bool {
                Some(b) => b,
                None => false,
            },
        ),
        ColClass::Int => ColValue::Int(
            match cd.as_int {
                Some(v) => v,
                None => 0,
            },
        ),
        ColClass::Float => ColValue::Float(
            match cd.as_float {
                Some(bits) => bits,
                None => 0,
            },
        ),
        ColClass::Text => ColValue::Text(
            match &cd.as_text {
                Some(s) => s.clone(),
                None => String::new(),
            },
        ),
        ColClass::Bytes => ColValue::Bytes(
            match &cd.as_bytes {
                Some(b) => b.clone(),
                None => Vec::new(),
            },
        ),
    }
}

/// Every cell of every row of the set is readable.
pub open spec fn spec_all_readable(rows: Seq<Vec<RawCell>>) -> bool {
    forall|i: int, j: int|
        0 <= i < rows.len() && 0 <= j < rows[i]@.len() ==> !((#[trigger] rows[i]@[j])@
            is Unreadable)
}

/// `out` is the decoded form of `rs`: one row per raw row, each column named
/// by the set's metadata and decoded by its type name's class.
pub open spec fn spec_rows_decoded(rs: RawRowSet, out: Seq<Row>) -> bool {
    &&& out.len() == rs.rows@.len()
    &&& forall|i: int| 0 <= i < out.len() ==> (#[trigger] out[i])@.len() == rs.names@.len()
    &&& forall|i: int, j: int|
        0 <= i < out.len() && 0 <= j < rs.names@.len() ==> (#[trigger] out[i]@[j]).0
            == rs.names@[j]@ && out[i]@[j].1 == spec_decode_cell(
            spec_class_of(rs.types@[j]@),
            spec_cell_data(rs.rows@[i]@[j]@),
        )
}

/// The decode attempts of a readable cell.
pub open spec fn spec_cell_data(c: RawCellV) -> crate::values::CellDataV
    recommends
        !(c is Unreadable),
{
    match c {
        RawCellV::Readable(cd) => cd,
        RawCellV::Unreadable(_) => vstd::pervasive::arbitrary(),
    }
}

/// `p` names the first unreadable cell of the set, in scan order (rows in
/// order, cells in column order), with the driver's message.
pub open spec fn spec_first_unreadable(rs: RawRowSet, p: DecodeProblem) -> bool {
    exists|i: int, j: int|
        {
            &&& 0 <= i < rs.rows@.len() && 0 <= j < rs.rows@[i]@.len()
            &&& (#[trigger] rs.rows@[i]@[j])@ matches RawCellV::Unreadable(m) && p.message@ == m
                && p.column@ == rs.names@[j]@
            &&& forall|a: int, b: int|
                0 <= a < i && 0 <= b < rs.rows@[a]@.len() ==> !((#[trigger] rs.rows@[a]@[b])@
                    is Unreadable)
            &&& forall|b: int| 0 <= b < j ==> !((#[trigger] rs.rows@[i]@[b])@ is Unreadable)
        }
}

/// Decodes a raw result set.  Succeeds, with every cell decoded by its
/// column's class, exactly when every cell is readable; otherwise reports
/// the first unreadable cell.
pub fn decode_rows(rs: &RawRowSet) -> (r: Result<Vec<Row>, DecodeProblem>)
    requires
        rs.wf(),
    ensures
        match r {
            Ok(out) => spec_all_readable(rs.rows@) && spec_rows_decoded(*rs, out@),
            Err(p) => spec_first_unreadable(*rs, p),
        },
{
    let ncols = rs.names.len();
    let mut classes: Vec<ColClass> = Vec::new();
    let mut j: usize = 0;
    while j < ncols
        invariant
            j <= ncols,
            ncols == rs.types@.len(),
            classes@.len() == j,
            forall|k: int| 0 <= k < j ==> classes@[k] == spec_class_of(rs.types@[k]@),
        decreases ncols - j,
    {
        classes.push(classify_type_name(rs.types[j].as_str()));
        j = j + 1;
    }

    let nrows = rs.rows.len();
    let mut out: Vec<Row> = Vec::new();
    let mut i: usize = 0;
    while i < nrows
        invariant
            i <= nrows,
            rs.wf(),
            nrows == rs.rows@.len(),
            ncols == rs.names@.len(),
            classes@.len() == ncols,
            forall|k: int| 0 <= k < ncols ==> classes@[k] == spec_class_of(rs.types@[k]@),
            out@.len() == i,
            forall|a: int, b: int|
                0 <= a < i && 0 <= b < rs.rows@[a]@.len() ==> !((#[trigger] rs.rows@[a]@[b])@
                    is Unreadable),
            forall|a: int| 0 <= a < i ==> (#[trigger] out@[a])@.len() == rs.names@.len(),
            forall|a: int, b: int|
                0 <= a < i && 0 <= b < ncols ==> (#[trigger] out@[a]@[b]).0 == rs.names@[b]@
                    && out@[a]@[b].1 == spec_decode_cell(
                    spec_class_of(rs.types@[b]@),
                    spec_cell_data(rs.rows@[a]@[b]@),
                ),
        decreases nrows - i,
    {
        let cells = &rs.rows[i];
        let mut cols: Vec<(String, ColValue)> = Vec::new();
        let mut b: usize = 0;
        while b < ncols
            invariant
                b <= ncols,
                i < nrows,
                rs.wf(),
                nrows == rs.rows@.len(),
                ncols == rs.names@.len(),
                cells == &rs.rows@[i as int],
                classes@.len() == ncols,
                forall|k: int| 0 <= k < ncols ==> classes@[k] == spec_class_of(rs.types@[k]@),
                cols@.len() == b,
                forall|k: int| 0 <= k < b ==> !((#[trigger] rs.rows@[i as int]@[k])@ is Unreadable),
                forall|k: int|
                    0 <= k < b ==> (#[trigger] cols@[k]).0@ == rs.names@[k]@ && cols@[k].1@
                        == spec_decode_cell(
                        spec_class_of(rs.types@[k]@),
                        spec_cell_data(rs.rows@[i as int]@[k]@),
                    ),
                forall|a: int, bb: int|
                    0 <= a < i && 0 <= bb < rs.rows@[a]@.len() ==> !((#[trigger] rs.rows@[a]@[bb])@
                        is Unreadable),
            decreases ncols - b,
        {
            match &cells[b] {
                RawCell::Unreadable(m) => {
                    return Err(
                        DecodeProblem { column: rs.names[b].clone(), message: m.clone() },
                    );
                },
                RawCell::Readable(cd) => {
                    cols.push((rs.names[b].clone(), decode_cell(classes[b], cd)));
                },
            }
            b = b + 1;
        }
        out.push(Row { cols });
        i = i + 1;
    }
    Ok(out)
}

/// The value a faithfully stored parameter reads back as: each variant
/// comes back as itself, except that a structured (JSON) parameter's column
/// lies outside the decoder's named families and so reads back, by the
/// declared fallback, as its raw serialized bytes.
pub open spec fn spec_round_value(p: crate::values::ParamV) -> ColValueV {
    match p {
        crate::values::ParamV::Bool(b) => ColValueV::Bool(b),
        crate::values::ParamV::Int(v) => ColValueV::Int(v),
        crate::values::ParamV::Float(bits) => ColValueV::Float(bits),
        crate::values::ParamV::Text(s) => ColValueV::Text(s),
        crate::values::ParamV::Json(j) => ColValueV::Bytes(j),
        crate::values::ParamV::Bytes(b) => ColValueV::Bytes(b),
    }
}

/// A backend hands a stored parameter back faithfully: the column's
/// reported type name falls in the variant's family, and the driver's
/// decode attempt of that class returns the stored value.
pub open spec fn spec_faithful(
    p: crate::values::ParamV,
    tname: Seq<char>,
    cd: crate::values::CellDataV,
) -> bool {
    match p {
        crate::values::ParamV::Bool(b) => spec_class_of(tname) == ColClass::Bool && cd.as_bool
            == Some(b),
        crate::values::ParamV::Int(v) => spec_class_of(tname) == ColClass::Int && cd.as_int
            == Some(v),
        crate::values::ParamV::Float(bits) => spec_class_of(tname) == ColClass::Float
            && cd.as_float == Some(bits),
        crate::values::ParamV::Text(s) => spec_class_of(tname) == ColClass::Text && cd.as_text
            == Some(s),
        crate::values::ParamV::Json(j) => spec_class_of(tname) == ColClass::Bytes && cd.as_bytes
            == Some(j),
        crate::values::ParamV::Bytes(b) => spec_class_of(tname) == ColClass::Bytes && cd.as_bytes
            == Some(b),
    }
}

/// Round trip, for every value-model variant and independently of which
/// backend produced the row (the decoder never looks at the backend tag):
/// writing a row with a bound parameter and reading it back through a
/// faithful backend yields the same value, modulo the variant's declared
/// decode fallback.
pub proof fn lemma_round_trip(
    p: crate::values::ParamV,
    tname: Seq<char>,
    cd: crate::values::CellDataV,
)
    requires
        spec_faithful(p, tname, cd),
    ensures
        spec_decode_cell(spec_class_of(tname), cd) == spec_round_value(p),
{
}

/// Turns a delivered outcome into the completion the caller observes,
/// decoding raw rows on the way.
pub fn decode_outcome(o: Outcome) -> (r: Reply)
    requires
        o matches Outcome::Rows(rs) ==> rs.wf(),
    ensures
        match o {
            Outcome::Rows(rs) => match r {
                Reply::Rows(out) => spec_all_readable(rs.rows@) && spec_rows_decoded(rs, out@),
                Reply::DecodeFailure { column, message } => spec_first_unreadable(
                    rs,
                    DecodeProblem { column, message },
                ),
                _ => false,
            },
            Outcome::Connected => r == Reply::Connected,
            Outcome::ConnectError(m) => r == Reply::ConnectFailure(m),
            Outcome::Error(e) => r == Reply::Failure(e),
            Outcome::Timeout(m) => r == Reply::TimedOut(m),
        },
{
    match o {
        Outcome::Rows(rs) => match decode_rows(&rs) {
            Ok(out) => Reply::Rows(out),
            Err(p) => Reply::DecodeFailure { column: p.column, message: p.message },
        },
        Outcome::Connected => Reply::Connected,
        Outcome::ConnectError(m) => Reply::ConnectFailure(m),
        Outcome::Error(e) => Reply::Failure(e),
        Outcome::Timeout(m) => Reply::TimedOut(m),
    }
}

} // verus!
