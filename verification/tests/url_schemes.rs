use dbdispatch::{backend_kind_of_url, BackendKind};

#[test]
fn mysql_scheme_selects_mysql() {
    assert_eq!(backend_kind_of_url("mysql://db.example/app"), Some(BackendKind::MySql));
}

#[test]
fn postgres_scheme_selects_postgres() {
    assert_eq!(backend_kind_of_url("postgres://db.example/app"), Some(BackendKind::Postgres));
}

#[test]
fn sqlite_scheme_selects_sqlite() {
    assert_eq!(backend_kind_of_url("sqlite://test.db"), Some(BackendKind::Sqlite));
}

#[test]
fn unknown_scheme_is_configuration_error() {
    assert_eq!(backend_kind_of_url("oracle://db.example/app"), None);
    assert_eq!(backend_kind_of_url(""), None);
    assert_eq!(backend_kind_of_url("mysql:/missing-slash"), None);
}

#[test]
fn scheme_must_be_a_prefix() {
    assert_eq!(backend_kind_of_url("xmysql://db"), None);
    assert_eq!(backend_kind_of_url("mysql://"), Some(BackendKind::MySql));
}
