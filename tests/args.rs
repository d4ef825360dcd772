use sqlx_testing::{Migrator, TestArgs, TestFixture, TestTermination};

#[test]
fn new_args_are_empty() {
    let a = TestArgs::new("mod::test_fn");
    assert_eq!(a.test_path(), "mod::test_fn");
    assert!(!a.has_migrator());
    assert_eq!(a.fixture_count(), 0);
}

#[test]
fn migrator_and_fixtures_are_set() {
    let mut a = TestArgs::new("p");
    a.migrator(Migrator { source: "db/migrations".to_string() });
    a.fixtures(vec![TestFixture { path: "fixtures/x.sql".to_string(), contents: "select 1".to_string() }]);
    assert_eq!(a.migrations_source().map(|s| s.as_str()), Some("db/migrations"));
    assert_eq!(a.fixture_count(), 1);
    assert_eq!(a.fixture(0).path, "fixtures/x.sql");
    a.fixtures(vec![]);
    assert_eq!(a.fixture_count(), 0);
    assert!(a.has_migrator());
}

#[test]
fn termination_outcomes() {
    assert!(().is_success());
    let ok: Result<u8, String> = Ok(1);
    let err: Result<u8, String> = Err("no".to_string());
    assert!(ok.is_success());
    assert!(!err.is_success());
}
