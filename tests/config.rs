use sqlx_testing::config::{
    fixture_paths, migrations_dir, parse_args, ConfigArg, ConfigError, ConfigValue, MigrationsOpt,
};
use sqlx_testing::args::build_test_args;

fn s(x: &str) -> String {
    x.to_string()
}

fn fixtures_arg(names: &[&str]) -> ConfigArg {
    ConfigArg::List { name: s("fixtures"), items: names.iter().map(|n| ConfigValue::Str(s(n))).collect() }
}

fn migrations_arg(v: ConfigValue) -> ConfigArg {
    ConfigArg::NameValue { name: s("migrations"), value: v }
}

fn err_of(args: Vec<ConfigArg>) -> ConfigError {
    match parse_args(&args) {
        Ok(_) => panic!("expected an error"),
        Err(e) => e,
    }
}

#[test]
fn no_migrations_key_infers_migrations_dir() {
    let c = parse_args(&vec![]).unwrap();
    assert!(matches!(c.migrations, MigrationsOpt::InferredPath));
    assert_eq!(migrations_dir(&c.migrations), Some(s("migrations")));
    assert!(c.fixtures.is_empty());
}

#[test]
fn migrations_false_disables_migrations() {
    let c = parse_args(&vec![migrations_arg(ConfigValue::Bool(false))]).unwrap();
    assert!(matches!(c.migrations, MigrationsOpt::Disabled));
    assert_eq!(migrations_dir(&c.migrations), None);
    let args = build_test_args("m::t", &c, vec![]);
    assert!(!args.has_migrator());
}

#[test]
fn migrations_path_is_used() {
    let c = parse_args(&vec![migrations_arg(ConfigValue::Str(s("alt/path")))]).unwrap();
    assert_eq!(migrations_dir(&c.migrations), Some(s("alt/path")));
    let args = build_test_args("m::t", &c, vec![]);
    assert_eq!(args.migrations_source(), Some(&s("alt/path")));
}

#[test]
fn migrations_true_is_redundant() {
    assert_eq!(err_of(vec![migrations_arg(ConfigValue::Bool(true))]), ConfigError::RedundantMigrations);
}

#[test]
fn migrations_other_literal_rejected() {
    assert_eq!(err_of(vec![migrations_arg(ConfigValue::Other)]), ConfigError::ExpectedStringOrFalse);
}

#[test]
fn duplicate_migrations_rejected() {
    let args = vec![migrations_arg(ConfigValue::Bool(false)), migrations_arg(ConfigValue::Str(s("x")))];
    assert_eq!(err_of(args), ConfigError::DuplicateMigrations);
}

#[test]
fn duplicate_fixtures_rejected_even_when_first_is_empty() {
    assert_eq!(err_of(vec![fixtures_arg(&[]), fixtures_arg(&["a"])]), ConfigError::DuplicateFixtures);
    assert_eq!(err_of(vec![fixtures_arg(&["a"]), fixtures_arg(&["b"])]), ConfigError::DuplicateFixtures);
}

#[test]
fn fixture_item_must_be_string() {
    let arg = ConfigArg::List { name: s("fixtures"), items: vec![ConfigValue::Str(s("a")), ConfigValue::Bool(true)] };
    assert_eq!(err_of(vec![arg]), ConfigError::ExpectedStringLiteral);
}

#[test]
fn unknown_options_rejected() {
    assert_eq!(err_of(vec![ConfigArg::Other]), ConfigError::UnknownOption);
    let list = ConfigArg::List { name: s("migrations"), items: vec![] };
    assert_eq!(err_of(vec![list]), ConfigError::UnknownOption);
    let nv = ConfigArg::NameValue { name: s("fixture"), value: ConfigValue::Str(s("a")) };
    assert_eq!(err_of(vec![nv]), ConfigError::UnknownOption);
}

#[test]
fn first_bad_option_decides_the_error() {
    let args = vec![ConfigArg::Other, migrations_arg(ConfigValue::Bool(true))];
    assert_eq!(err_of(args), ConfigError::UnknownOption);
}

#[test]
fn fixtures_keep_order_and_duplicates() {
    let c = parse_args(&vec![fixtures_arg(&["users", "posts", "users"]), migrations_arg(ConfigValue::Bool(false))]).unwrap();
    assert_eq!(c.fixtures, vec![s("users"), s("posts"), s("users")]);
    assert_eq!(fixture_paths(&c), vec![s("fixtures/users"), s("fixtures/posts"), s("fixtures/users")]);
}

#[test]
fn build_args_pairs_paths_with_contents() {
    let c = parse_args(&vec![fixtures_arg(&["a.sql", "b.sql"])]).unwrap();
    let args = build_test_args("crate::tests::t", &c, vec![s("insert 1;"), s("insert 2;")]);
    assert_eq!(args.test_path(), &s("crate::tests::t"));
    assert_eq!(args.migrations_source(), Some(&s("migrations")));
    assert_eq!(args.fixture_count(), 2);
    assert_eq!(args.fixture(0).path, "fixtures/a.sql");
    assert_eq!(args.fixture(0).contents, "insert 1;");
    assert_eq!(args.fixture(1).path, "fixtures/b.sql");
    assert_eq!(args.fixture(1).contents, "insert 2;");
}

#[test]
fn error_messages_name_the_option() {
    assert_eq!(ConfigError::DuplicateFixtures.message(), "duplicate `fixtures` arg");
    assert_eq!(ConfigError::DuplicateMigrations.message(), "duplicate `migrations` arg");
    assert_eq!(ConfigError::RedundantMigrations.message(), "`migrations = true` is redundant");
    assert_eq!(ConfigError::ExpectedStringOrFalse.message(), "expected string or `false`");
    assert_eq!(ConfigError::ExpectedStringLiteral.message(), "expected string literal");
    assert_eq!(
        ConfigError::UnknownOption.message(),
        "expected `fixtures(\"<filename>\", ...)` or `migrations = \"<path>\" | false`"
    );
}
