use std::time::Duration;

use rstdev::sql::options::{DefaultDBOptions, DefaultDBPoolOptions};
use rstdev::sql::{mysql, postgresql};
use rstdev::storage::{Storage, StorageError};

fn db_opts(username: &str, password: &str, db: &str) -> DefaultDBOptions {
    DefaultDBOptions {
        host: Some("host".to_string()),
        username: username.to_string(),
        password: password.to_string(),
        db: db.to_string(),
        port: None,
    }
}

fn pool_opts() -> DefaultDBPoolOptions {
    DefaultDBPoolOptions {
        max_conns: Some(10),
        min_conns: Some(5),
        idle_duration: Some(Duration::from_secs(5)),
        lifetime_duration: Some(Duration::from_secs(10)),
        acquire_timeout: Some(Duration::from_secs(2)),
    }
}

#[test]
fn validation_reports_the_first_empty_field() {
    let cases = vec![
        (db_opts("", "password", "db"), "username is empty"),
        (db_opts("username", "", "db"), "password is empty"),
        (db_opts("username", "password", ""), "db is empty"),
        (db_opts("", "", ""), "username is empty"),
    ];
    for (input, expected) in cases {
        assert_eq!(
            input.validate().unwrap_err(),
            StorageError::BuildOptionsError(expected.to_string())
        );
    }
    assert!(db_opts("username", "password", "db").validate().is_ok());
}

#[test]
fn mysql_options_validate_and_default_the_port() {
    assert!(mysql::Options::new(db_opts("username", "password", ""), pool_opts()).is_err());
    let opts = mysql::Options::new(db_opts("username", "password", "db"), pool_opts())
        .ok()
        .unwrap();
    assert_eq!(opts.port(), 3306);
    assert_eq!(opts.db_opts().username, "username");
    assert_eq!(opts.pool_opts().max_conns, Some(10));

    let mut with_port = db_opts("username", "password", "db");
    with_port.port = Some(3307);
    let opts = mysql::Options::new(with_port, pool_opts()).ok().unwrap();
    assert_eq!(opts.port(), 3307);
}

#[test]
fn postgresql_options_validate_and_default_the_port() {
    let r = postgresql::Options::new(db_opts("username", "", "db"), pool_opts(), None);
    assert_eq!(
        r.err().unwrap().to_string(),
        "options error: password is empty"
    );
    let opts = postgresql::Options::new(
        db_opts("username", "password", "db"),
        pool_opts(),
        Some("app".to_string()),
    )
    .ok()
    .unwrap();
    assert_eq!(opts.port(), 5432);
    assert_eq!(opts.app_name(), &Some("app".to_string()));
}

struct Plain;

impl Storage for Plain {
    type Instance = u8;

    fn get_instance(self) -> u8 {
        7
    }
}

#[test]
fn storage_methods_default_to_not_implemented() {
    let mut s = Plain;
    assert_eq!(
        s.connect().unwrap_err(),
        StorageError::MethodNotImplementedError("connect".to_string())
    );
    assert_eq!(
        s.ping().unwrap_err().to_string(),
        "storage trait not implemented: ping"
    );
    assert_eq!(
        s.close().unwrap_err(),
        StorageError::MethodNotImplementedError("close".to_string())
    );
    assert_eq!(s.get_instance(), 7);
}

#[test]
fn storage_error_texts() {
    assert_eq!(
        StorageError::ConnectionError("refused".to_string()).to_string(),
        "storage connection error: refused"
    );
    assert_eq!(
        StorageError::PingError("unable to ping".to_string()).to_string(),
        "storage ping error: unable to ping"
    );
    assert_eq!(
        StorageError::QueryError("syntax".to_string()).to_string(),
        "storage query error: syntax"
    );
}
