//! Declarative test configuration: the options a test declares
//! (`fixtures(..)`, `migrations = ..`) and their validation.
use vstd::prelude::*;

use crate::text::{concat_str, copy_string, name_is};

verus! {

/// A literal value given to an option.
pub enum ConfigValue {
    Str(String),
    Bool(bool),
    /// Any other kind of literal (a number, a byte string, ...).
    Other,
}

/// One declared option, as written by the test author.
pub enum ConfigArg {
    /// `name("a", "b", ...)`
    List { name: String, items: Vec<ConfigValue> },
    /// `name = value`
    NameValue { name: String, value: ConfigValue },
    /// Anything that is neither a list nor a name-value pair.
    Other,
}

/// Where the migrations of a test come from.
pub enum MigrationsOpt {
    /// No `migrations` option: the directory named `migrations`.
    InferredPath,
    /// `migrations = "<path>"`
    ExplicitPath(String),
    /// `migrations = false`
    Disabled,
}

/// The abstract value of a `MigrationsOpt`.
pub enum MigrationsSpec {
    Inferred,
    Explicit(Seq<char>),
    Disabled,
}

impl View for MigrationsOpt {
    type V = MigrationsSpec;

    open spec fn view(&self) -> MigrationsSpec {
        match self {
            MigrationsOpt::InferredPath => MigrationsSpec::Inferred,
            MigrationsOpt::ExplicitPath(p) => MigrationsSpec::Explicit(p@),
            MigrationsOpt::Disabled => MigrationsSpec::Disabled,
        }
    }
}

/// A validated configuration.
pub struct TestConfig {
    pub fixtures: Vec<String>,
    pub migrations: MigrationsOpt,
}

/// Why a configuration was rejected; each names the offending option.
#[derive(PartialEq, Eq, Structural, Clone, Copy, Debug)]
pub enum ConfigError {
    /// `fixtures(..)` declared more than once.
    DuplicateFixtures,
    /// An item of `fixtures(..)` that is not a string literal.
    ExpectedStringLiteral,
    /// `migrations = ..` declared more than once.
    DuplicateMigrations,
    /// `migrations = true`, which only restates the default.
    RedundantMigrations,
    /// `migrations = ` something other than a string or `false`.
    ExpectedStringOrFalse,
    /// An option that is neither `fixtures(..)` nor `migrations = ..`.
    UnknownOption,
}

/// The message that explains each rejection.
pub open spec fn config_error_message(e: ConfigError) -> Seq<char> {
    match e {
        ConfigError::DuplicateFixtures => "duplicate `fixtures` arg"@,
        ConfigError::ExpectedStringLiteral => "expected string literal"@,
        ConfigError::DuplicateMigrations => "duplicate `migrations` arg"@,
        ConfigError::RedundantMigrations => "`migrations = true` is redundant"@,
        ConfigError::ExpectedStringOrFalse => "expected string or `false`"@,
        ConfigError::UnknownOption => "expected `fixtures(\"<filename>\", ...)` or `migrations = \"<path>\" | false`"@,
    }
}

impl ConfigError {
    pub fn message(&self) -> (r: String)
        ensures
            r@ == config_error_message(*self),
    {
        match self {
            ConfigError::DuplicateFixtures => String::from_str("duplicate `fixtures` arg"),
            ConfigError::ExpectedStringLiteral => String::from_str("expected string literal"),
            ConfigError::DuplicateMigrations => String::from_str("duplicate `migrations` arg"),
            ConfigError::RedundantMigrations => String::from_str("`migrations = true` is redundant"),
            ConfigError::ExpectedStringOrFalse => String::from_str("expected string or `false`"),
            ConfigError::UnknownOption => String::from_str(
                "expected `fixtures(\"<filename>\", ...)` or `migrations = \"<path>\" | false`",
            ),
        }
    }
}

/// The state of the option scan after a prefix of the options.
pub struct ParseState {
    pub fixtures: Seq<Seq<char>>,
    pub fixtures_seen: bool,
    pub migrations: MigrationsSpec,
    pub migrations_seen: bool,
}

pub open spec fn initial_state() -> ParseState {
    ParseState {
        fixtures: Seq::empty(),
        fixtures_seen: false,
        migrations: MigrationsSpec::Inferred,
        migrations_seen: false,
    }
}

pub open spec fn is_str(v: ConfigValue) -> bool {
    v is Str
}

pub open spec fn str_views(items: Seq<ConfigValue>) -> Seq<Seq<char>> {
    items.map_values(|v: ConfigValue| match v {
        ConfigValue::Str(s) => s@,
        _ => Seq::empty(),
    })
}

/// The effect of one option on the scan.
pub open spec fn parse_step(st: ParseState, a: ConfigArg) -> Result<ParseState, ConfigError> {
    match a {
        ConfigArg::List { name, items } => {
            if name@ != "fixtures"@ {
                Err(ConfigError::UnknownOption)
            } else if st.fixtures_seen {
                Err(ConfigError::DuplicateFixtures)
            } else if exists|i: int| 0 <= i < items@.len() && !is_str(#[trigger] items@[i]) {
                Err(ConfigError::ExpectedStringLiteral)
            } else {
                Ok(ParseState { fixtures: str_views(items@), fixtures_seen: true, ..st })
            }
        },
        ConfigArg::NameValue { name, value } => {
            if name@ != "migrations"@ {
                Err(ConfigError::UnknownOption)
            } else if st.migrations_seen {
                Err(ConfigError::DuplicateMigrations)
            } else {
                match value {
                    ConfigValue::Bool(true) => Err(ConfigError::RedundantMigrations),
                    ConfigValue::Bool(false) => Ok(
                        ParseState { migrations: MigrationsSpec::Disabled, migrations_seen: true, ..st },
                    ),
                    ConfigValue::Str(p) => Ok(
                        ParseState {
                            migrations: MigrationsSpec::Explicit(p@),
                            migrations_seen: true,
                            ..st
                        },
                    ),
                    ConfigValue::Other => Err(ConfigError::ExpectedStringOrFalse),
                }
            }
        },
        ConfigArg::Other => Err(ConfigError::UnknownOption),
    }
}

/// The scan of the first `n` options; the first rejected option decides the error.
pub open spec fn parse_prefix(args: Seq<ConfigArg>, n: nat) -> Result<ParseState, ConfigError>
    decreases n,
{
    if n == 0 {
        Ok(initial_state())
    } else {
        match parse_prefix(args, (n - 1) as nat) {
            Ok(st) => if n <= args.len() {
                parse_step(st, args[n - 1])
            } else {
                Ok(st)
            },
            Err(e) => Err(e),
        }
    }
}

proof fn lemma_error_persists(args: Seq<ConfigArg>, k: nat, n: nat)
    requires
        k <= n,
        parse_prefix(args, k) is Err,
    ensures
        parse_prefix(args, n) == parse_prefix(args, k),
    decreases n - k,
{
    if k < n {
        lemma_error_persists(args, k, (n - 1) as nat);
    }
}

pub open spec fn parse_spec(args: Seq<ConfigArg>) -> Result<ParseState, ConfigError> {
    parse_prefix(args, args.len())
}

pub open spec fn config_matches(c: TestConfig, st: ParseState) -> bool {
    &&& c.fixtures@.map_values(|s: String| s@) == st.fixtures
    &&& c.migrations@ == st.migrations
}

/// Reads the items of a `fixtures(..)` list; `None` if one is not a string.
fn fixture_names(items: &Vec<ConfigValue>) -> (r: Option<Vec<String>>)
    ensures
        r is None <==> exists|i: int| 0 <= i < items@.len() && !is_str(#[trigger] items@[i]),
        r matches Some(v) ==> v@.map_values(|s: String| s@) == str_views(items@),
{
    let mut out: Vec<String> = Vec::new();
    let mut i: usize = 0;
    while i < items.len()
        invariant
            i <= items@.len(),
            forall|j: int| 0 <= j < i ==> is_str(#[trigger] items@[j]),
            out@.map_values(|s: String| s@) == str_views(items@.subrange(0, i as int)),
        decreases items@.len() - i,
    {
        match &items[i] {
            ConfigValue::Str(s) => {
                let c = copy_string(s);
                proof {
                    assert(items@.subrange(0, i + 1) == items@.subrange(0, i as int).push(items@[i as int]));
                }
                let ghost prev = out@;
                out.push(c);
                proof {
                    assert(out@ == prev.push(c));
                    assert(out@.map_values(|s: String| s@) =~= prev.map_values(|s: String| s@).push(c@));
                    assert(out@.map_values(|s: String| s@) =~= str_views(items@.subrange(0, i + 1)));
                }
            },
            _ => {
                return None;
            },
        }
        i = i + 1;
    }
    proof {
        assert(items@.subrange(0, i as int) == items@);
    }
    Some(out)
}

/// Validates the declared options of one test.
///
/// Every option is either `fixtures("<file>", ...)`, at most once, with string
/// items, or `migrations = "<path>" | false`, at most once. Without a
/// `migrations` option the inferred directory is used.
pub fn parse_args(args: &Vec<ConfigArg>) -> (r: Result<TestConfig, ConfigError>)
    ensures
        r is Ok <==> parse_spec(args@) is Ok,
        r matches Ok(c) ==> config_matches(c, parse_spec(args@)->Ok_0),
        r matches Err(e) ==> parse_spec(args@) == Err::<ParseState, ConfigError>(e),
{
    let mut fixtures: Vec<String> = Vec::new();
    let mut fixtures_seen = false;
    let mut migrations = MigrationsOpt::InferredPath;
    let mut migrations_seen = false;
    let mut i: usize = 0;
    proof {
        assert(fixtures@.map_values(|s: String| s@) == Seq::<Seq<char>>::empty());
    }
    while i < args.len()
        invariant
            i <= args@.len(),
            parse_prefix(args@, i as nat) matches Ok(st) && st.fixtures_seen == fixtures_seen
                && st.migrations_seen == migrations_seen && config_matches(
                TestConfig { fixtures, migrations },
                st,
            ),
        decreases args@.len() - i,
    {
        let ghost st = parse_prefix(args@, i as nat)->Ok_0;
        let mut err: Option<ConfigError> = None;
        match &args[i] {
            ConfigArg::List { name, items } => {
                if !name_is(name, "fixtures") {
                    err = Some(ConfigError::UnknownOption);
                } else if fixtures_seen {
                    err = Some(ConfigError::DuplicateFixtures);
                } else {
                    match fixture_names(items) {
                        Some(v) => {
                            fixtures = v;
                            fixtures_seen = true;
                        },
                        None => {
                            err = Some(ConfigError::ExpectedStringLiteral);
                        },
                    }
                }
            },
            ConfigArg::NameValue { name, value } => {
                if !name_is(name, "migrations") {
                    err = Some(ConfigError::UnknownOption);
                } else if migrations_seen {
                    err = Some(ConfigError::DuplicateMigrations);
                } else {
                    match value {
                        ConfigValue::Bool(b) => {
                            if *b {
                                err = Some(ConfigError::RedundantMigrations);
                            } else {
                                migrations = MigrationsOpt::Disabled;
                                migrations_seen = true;
                            }
                        },
                        ConfigValue::Str(p) => {
                            migrations = MigrationsOpt::ExplicitPath(copy_string(p));
                            migrations_seen = true;
                        },
                        ConfigValue::Other => {
                            err = Some(ConfigError::ExpectedStringOrFalse);
                        },
                    }
                }
            },
            ConfigArg::Other => {
                err = Some(ConfigError::UnknownOption);
            },
        }
        assert(parse_prefix(args@, (i + 1) as nat) == parse_step(st, args@[i as int]));
        if let Some(e) = err {
            proof {
                lemma_error_persists(args@, (i + 1) as nat, args@.len());
            }
            return Err(e);
        }
        i = i + 1;
    }
    proof {
        assert(parse_spec(args@) == parse_prefix(args@, i as nat));
    }
    Ok(TestConfig { fixtures, migrations })
}

/// The directory that `fixtures` files are resolved against.
pub open spec fn fixtures_dir_spec() -> Seq<char> {
    "fixtures/"@
}

/// The path of each declared fixture, relative to the project root, in declared order.
pub fn fixture_paths(config: &TestConfig) -> (r: Vec<String>)
    ensures
        r@.len() == config.fixtures@.len(),
        forall|i: int|
            0 <= i < r@.len() ==> #[trigger] r@[i]@ == fixtures_dir_spec() + config.fixtures@[i]@,
{
    let mut out: Vec<String> = Vec::new();
    let mut i: usize = 0;
    while i < config.fixtures.len()
        invariant
            i <= config.fixtures@.len(),
            out@.len() == i,
            forall|j: int|
                0 <= j < i ==> #[trigger] out@[j]@ == fixtures_dir_spec()
                    + config.fixtures@[j]@,
        decreases config.fixtures@.len() - i,
    {
        let p = concat_str("fixtures/", config.fixtures[i].as_str());
        out.push(p);
        i = i + 1;
    }
    out
}

/// The directory migrations are read from, or `None` when they are disabled.
pub open spec fn migrations_dir_spec(m: MigrationsSpec) -> Option<Seq<char>> {
    match m {
        MigrationsSpec::Inferred => Some("migrations"@),
        MigrationsSpec::Explicit(p) => Some(p),
        MigrationsSpec::Disabled => None,
    }
}

pub fn migrations_dir(m: &MigrationsOpt) -> (r: Option<String>)
    ensures
        r matches Some(s) ==> migrations_dir_spec(m@) == Some(s@),
        r is None ==> migrations_dir_spec(m@) is None,
{
    match m {
        MigrationsOpt::InferredPath => Some(String::from_str("migrations")),
        MigrationsOpt::ExplicitPath(p) => Some(copy_string(p)),
        MigrationsOpt::Disabled => None,
    }
}

} // verus!
