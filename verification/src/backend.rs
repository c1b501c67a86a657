//! Backend selection: the scheme prefix of a connection URL decides which of
//! the three supported relational backends a connection will use.  Any other
//! scheme is a configuration error, reported synchronously before any
//! asynchronous work begins.

use vstd::prelude::*;

use crate::strutil::{is_prefix_of, str_starts_with};

verus! {

/// The three supported relational backends.
#[derive(Clone, Copy, Debug, PartialEq, Eq, Structural)]
pub enum BackendKind {
    MySql,
    Postgres,
    Sqlite,
}

/// Which backend a connection URL selects, if any.
pub open spec fn spec_backend_of_url(url: Seq<char>) -> Option<BackendKind> {
    if is_prefix_of("mysql://"@, url) {
        Some(BackendKind::MySql)
    } else if is_prefix_of("postgres://"@, url) {
        Some(BackendKind::Postgres)
    } else if is_prefix_of("sqlite://"@, url) {
        Some(BackendKind::Sqlite)
    } else {
        None
    }
}

/// Selects the backend by inspecting the URL's scheme prefix; `None` means
/// the scheme is unsupported (a configuration error).
pub fn backend_kind_of_url(url: &str) -> (r: Option<BackendKind>)
    ensures
        r == spec_backend_of_url(url@),
{
    if str_starts_with(url, "mysql://") {
        Some(BackendKind::MySql)
    } else if str_starts_with(url, "postgres://") {
        Some(BackendKind::Postgres)
    } else if str_starts_with(url, "sqlite://") {
        Some(BackendKind::Sqlite)
    } else {
        None
    }
}

} // verus!
