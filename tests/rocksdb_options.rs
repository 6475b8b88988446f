use rstdev::rocksdb::options::Options;

#[derive(Debug, Clone, Default, PartialEq)]
struct Tuning {
    create_if_missing: bool,
}

#[test]
fn test_validation_success() {
    let opts = Options::<Tuning>::new("./db".to_string(), "cf-name".to_string())
        .build_default_opts()
        .validate();

    assert!(!opts.is_err())
}

#[test]
fn test_validation_error_empty_path() {
    let opts = Options::<Tuning>::new("".to_string(), "cf-name".to_string())
        .build_default_opts()
        .validate();

    assert!(opts.is_err());
    assert!(opts.unwrap_err().to_string().contains("db path is empty"))
}

#[test]
fn test_validation_error_empty_cf_name() {
    let opts = Options::<Tuning>::new("./db".to_string(), "".to_string())
        .build_default_opts()
        .validate();

    assert!(opts.is_err());
    assert!(opts
        .unwrap_err()
        .to_string()
        .contains("column family name is empty"))
}

#[test]
fn test_validation_error_empty_db_opts() {
    let mut opts = Options::<Tuning>::new("./db".to_string(), "cf-name".to_string());
    opts.build_default_opts();
    opts.db_opts = None;

    let validation = opts.validate();
    assert!(validation.is_err());
    assert!(validation
        .unwrap_err()
        .to_string()
        .contains("missing db options"))
}

#[test]
fn test_validation_error_empty_cf_opts() {
    let mut opts = Options::<Tuning>::new("./db".to_string(), "cf-name".to_string());
    opts.build_default_opts();
    opts.cf_opts = None;

    let validation = opts.validate();
    assert!(validation.is_err());
    assert!(validation
        .unwrap_err()
        .to_string()
        .contains("missing cf options"))
}

#[test]
fn test_set_db_opts_none() {
    let mut opts = Options::<Tuning>::new("./db".to_string(), "cf-name".to_string());
    opts.set_db_opts(|val| val);

    assert!(opts.db_opts.is_none())
}

#[test]
fn test_set_cf_opts_none() {
    let mut opts = Options::<Tuning>::new("./db".to_string(), "cf-name".to_string());
    opts.set_cf_opts(|val| val);

    assert!(opts.cf_opts.is_none())
}

#[test]
fn empty_path_wins_over_empty_cf_name() {
    let err = Options::<Tuning>::new("".to_string(), "".to_string())
        .build_default_opts()
        .validate()
        .unwrap_err();
    assert_eq!(err.to_string(), "validate error: db path is empty");
}

#[test]
fn empty_path_wins_without_tuning() {
    let err = Options::<Tuning>::new("".to_string(), "cf".to_string())
        .validate()
        .unwrap_err();
    assert!(err.to_string().contains("path"));
}

#[test]
fn empty_cf_name_is_reported_with_path_given() {
    let err = Options::<Tuning>::new("/tmp/x".to_string(), "".to_string())
        .validate()
        .unwrap_err();
    assert!(err.to_string().contains("column family"));
}

#[test]
fn cf_tuning_is_checked_before_db_tuning() {
    let err = Options::<Tuning>::new("./db".to_string(), "cf".to_string())
        .validate()
        .unwrap_err();
    assert_eq!(err.to_string(), "validate error: missing cf options");
}

#[test]
fn defaults_validate_for_other_names() {
    let r = Options::<Tuning>::new("/tmp/testdb".to_string(), "default".to_string())
        .build_default_opts()
        .validate();
    assert!(r.is_ok());
}

#[test]
fn set_opts_applies_after_defaults() {
    let mut opts = Options::<Tuning>::new("./db".to_string(), "cf".to_string());
    opts.build_default_opts();
    opts.set_db_opts(|mut t| {
        t.create_if_missing = true;
        t
    });
    assert_eq!(opts.db_opts, Some(Tuning { create_if_missing: true }));
    assert_eq!(opts.cf_opts, Some(Tuning { create_if_missing: false }));

    opts.set_cf_opts(|mut t| {
        t.create_if_missing = true;
        t
    });
    assert_eq!(opts.cf_opts, Some(Tuning { create_if_missing: true }));
}

#[test]
fn set_cf_opts_before_defaults_then_defaults() {
    let mut opts = Options::<Tuning>::new("./db".to_string(), "cf".to_string());
    opts.set_cf_opts(|mut t| {
        t.create_if_missing = true;
        t
    });
    assert!(opts.cf_opts.is_none());
    opts.build_default_opts();
    assert_eq!(opts.cf_opts, Some(Tuning::default()));
}
