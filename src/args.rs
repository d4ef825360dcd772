//! What one test declares: its path, its migrations, its fixtures; and what
//! counts as a passing outcome.
use vstd::prelude::*;

use crate::config::{fixtures_dir_spec, migrations_dir, migrations_dir_spec, TestConfig};
use crate::text::concat_str;

verus! {

/// A block of SQL applied to a fresh test database before the test body runs.
pub struct TestFixture {
    pub path: String,
    pub contents: String,
}

/// The migrations of a test: the directory they are read from.
pub struct Migrator {
    pub source: String,
}

/// The declared setup of one test, handed to the harness.
pub struct TestArgs {
    test_path: String,
    migrator: Option<Migrator>,
    fixtures: Vec<TestFixture>,
}

impl TestArgs {
    pub closed spec fn test_path_spec(&self) -> Seq<char> {
        self.test_path@
    }

    /// The migrations directory, if migrations are to run.
    pub closed spec fn migrator_spec(&self) -> Option<Seq<char>> {
        match self.migrator {
            Some(m) => Some(m.source@),
            None => None,
        }
    }

    /// The fixtures, in the order they are applied.
    pub closed spec fn fixtures_spec(&self) -> Seq<TestFixture> {
        self.fixtures@
    }

    /// The setup of the test `test_path`: no migrations and no fixtures yet.
    pub fn new(test_path: &str) -> (r: Self)
        ensures
            r.test_path_spec() == test_path@,
            r.migrator_spec() is None,
            r.fixtures_spec() == Seq::<TestFixture>::empty(),
    {
        TestArgs { test_path: String::from_str(test_path), migrator: None, fixtures: Vec::new() }
    }

    /// Sets the migrations to run before the fixtures.
    pub fn migrator(&mut self, migrator: Migrator)
        ensures
            final(self).migrator_spec() == Some(migrator.source@),
            final(self).test_path_spec() == old(self).test_path_spec(),
            final(self).fixtures_spec() == old(self).fixtures_spec(),
    {
        self.migrator = Some(migrator);
    }

    /// Sets the fixtures, replacing any set before.
    pub fn fixtures(&mut self, fixtures: Vec<TestFixture>)
        ensures
            final(self).fixtures_spec() == fixtures@,
            final(self).test_path_spec() == old(self).test_path_spec(),
            final(self).migrator_spec() == old(self).migrator_spec(),
    {
        self.fixtures = fixtures;
    }

    pub fn test_path(&self) -> (r: &String)
        ensures
            r@ == self.test_path_spec(),
    {
        &self.test_path
    }

    pub fn has_migrator(&self) -> (r: bool)
        ensures
            r == self.migrator_spec() is Some,
    {
        self.migrator.is_some()
    }

    /// The migrations directory, if migrations are to run.
    pub fn migrations_source(&self) -> (r: Option<&String>)
        ensures
            r matches Some(s) ==> self.migrator_spec() == Some(s@),
            r is None ==> self.migrator_spec() is None,
    {
        match &self.migrator {
            Some(m) => Some(&m.source),
            None => None,
        }
    }

    pub fn fixture_count(&self) -> (r: usize)
        ensures
            r == self.fixtures_spec().len(),
    {
        self.fixtures.len()
    }

    pub fn fixture(&self, i: usize) -> (r: &TestFixture)
        requires
            i < self.fixtures_spec().len(),
        ensures
            *r == self.fixtures_spec()[i as int],
    {
        &self.fixtures[i]
    }
}

/// The setup of the test `test_path` as `config` declares it: migrations from the
/// configured directory, if any, and each declared fixture under the fixtures
/// directory, with `contents[i]` the text of the i-th.
pub fn build_test_args(test_path: &str, config: &TestConfig, contents: Vec<String>) -> (r: TestArgs)
    requires
        contents@.len() == config.fixtures@.len(),
    ensures
        r.test_path_spec() == test_path@,
        r.migrator_spec() == migrations_dir_spec(config.migrations@),
        r.fixtures_spec().len() == config.fixtures@.len(),
        forall|i: int|
            0 <= i < r.fixtures_spec().len() ==> (#[trigger] r.fixtures_spec()[i]).path@
                == fixtures_dir_spec() + config.fixtures@[i]@ && r.fixtures_spec()[i].contents
                == contents@[i],
{
    let mut args = TestArgs::new(test_path);
    match migrations_dir(&config.migrations) {
        Some(dir) => args.migrator(Migrator { source: dir }),
        None => {},
    }
    let mut fixtures: Vec<TestFixture> = Vec::new();
    let mut contents = contents;
    let ghost all = contents@;
    let n = config.fixtures.len();
    let mut i: usize = 0;
    while i < n
        invariant
            n == config.fixtures@.len(),
            i <= n,
            all.len() == n,
            contents@ == all.subrange(i as int, n as int),
            fixtures@.len() == i,
            forall|j: int|
                0 <= j < i ==> (#[trigger] fixtures@[j]).path@ == fixtures_dir_spec()
                    + config.fixtures@[j]@ && fixtures@[j].contents == all[j],
        decreases n - i,
    {
        let text = contents.remove(0);
        let path = concat_str("fixtures/", config.fixtures[i].as_str());
        proof {
            assert(text == all[i as int]);
            assert(contents@ =~= all.subrange(i + 1, n as int));
        }
        fixtures.push(TestFixture { path, contents: text });
        i = i + 1;
    }
    args.fixtures(fixtures);
    args
}

/// An outcome of a test body that says whether the test passed.
pub trait TestTermination {
    spec fn success_spec(&self) -> bool;

    fn is_success(&self) -> (r: bool)
        ensures
            r == self.success_spec(),
    ;
}

/// A body that returns nothing passed once it returned.
impl TestTermination for () {
    open spec fn success_spec(&self) -> bool {
        true
    }

    fn is_success(&self) -> (r: bool) {
        true
    }
}

/// A body that returns a `Result` passed if it returned `Ok`.
impl<T, E> TestTermination for Result<T, E> {
    open spec fn success_spec(&self) -> bool {
        self is Ok
    }

    fn is_success(&self) -> (r: bool) {
        self.is_ok()
    }
}

/// A body whose outcome can never exist never returns normally, and passes vacuously.
impl TestTermination for core::convert::Infallible {
    open spec fn success_spec(&self) -> bool {
        true
    }

    fn is_success(&self) -> (r: bool) {
        true
    }
}

} // verus!
