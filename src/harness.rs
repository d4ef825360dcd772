//! The harness that takes one test from provisioning to cleanup, as a state
//! machine: it names the next step, its caller performs it and reports back.
use vstd::prelude::*;

use crate::args::{TestArgs, TestFixture};
use crate::text::concat_str;

verus! {

/// The shape of a test body, by what it takes.
#[derive(PartialEq, Eq, Structural, Clone, Copy, Debug)]
pub enum EntryKind {
    /// Pool options and connect options: the body builds and owns its own pool.
    Options,
    /// The open pool.
    Pool,
    /// One connection acquired from the pool.
    PooledConnection,
    /// A mutable borrow of one connection acquired from the pool.
    RawConnection,
}

/// The setup step that failed.
#[derive(PartialEq, Eq, Structural, Clone, Copy, Debug)]
pub enum SetupFailure {
    /// No test context could be provisioned.
    Connect,
    /// The pool of the test database could not be opened.
    CreatePool,
    /// The migrations failed.
    Migrations,
    /// The fixture at this index failed; the later ones were not applied.
    Fixture(usize),
    /// No connection could be acquired from the pool.
    AcquireConnection,
}

/// How a test ended.
#[derive(PartialEq, Eq, Structural, Clone, Copy, Debug)]
pub enum Verdict {
    /// The body succeeded; the cleanup ran, and may have failed, which does not
    /// change the verdict.
    Passed { cleanup_succeeded: bool },
    /// The body returned a failure; its database is left for inspection.
    Failed,
    /// Setup failed before the body ran; the database, if made, is left behind.
    SetupFailed(SetupFailure),
}

/// What the caller is to do next.
#[derive(PartialEq, Eq, Structural, Clone, Copy, Debug)]
pub enum Step {
    /// Provision a test context.
    Provision,
    /// Open a pool on the test database.
    OpenPool,
    /// Run the migrations on the pool.
    RunMigrations,
    /// Apply the fixture at this index.
    ApplyFixture(usize),
    /// Close the pool, so that the body can build its own.
    ClosePool,
    /// Acquire one connection from the pool.
    AcquireConnection,
    /// Call the body with what its entry kind takes.
    InvokeBody,
    /// Drop the test database and delete its tracking row.
    Cleanup,
    /// The test is over.
    Finish(Verdict),
}

/// Whether the last step succeeded (for the body: whether its outcome is a success).
#[derive(PartialEq, Eq, Structural, Clone, Copy, Debug)]
pub enum Event {
    Succeeded,
    Failed,
}

/// Where the harness stands.
#[derive(PartialEq, Eq, Structural, Clone, Copy, Debug)]
pub enum Phase {
    Start,
    Provisioning,
    OpeningPool,
    Migrating,
    Fixture(usize),
    ClosingPool,
    Acquiring,
    Running,
    CleaningUp,
    Done(Verdict),
}

/// The step before the body: each entry kind is built on the one it wraps.
pub open spec fn before_body(kind: EntryKind) -> (Phase, Step) {
    match kind {
        EntryKind::Options => (Phase::ClosingPool, Step::ClosePool),
        EntryKind::Pool => (Phase::Running, Step::InvokeBody),
        EntryKind::PooledConnection | EntryKind::RawConnection => (
            Phase::Acquiring,
            Step::AcquireConnection,
        ),
    }
}

/// The fixture at index `i`, or, past the last, the step before the body.
pub open spec fn fixtures_from(kind: EntryKind, i: nat, n: nat) -> (Phase, Step) {
    if i < n {
        (Phase::Fixture(i as usize), Step::ApplyFixture(i as usize))
    } else {
        before_body(kind)
    }
}

pub open spec fn finish(v: Verdict) -> (Phase, Step) {
    (Phase::Done(v), Step::Finish(v))
}

/// The next phase and step after `ev` answered the step of `phase`.
pub open spec fn transition(
    kind: EntryKind,
    has_migrator: bool,
    n: nat,
    phase: Phase,
    ev: Event,
) -> (Phase, Step) {
    let ok = ev == Event::Succeeded;
    match phase {
        Phase::Start => (Phase::Provisioning, Step::Provision),
        Phase::Provisioning => if ok {
            (Phase::OpeningPool, Step::OpenPool)
        } else {
            finish(Verdict::SetupFailed(SetupFailure::Connect))
        },
        Phase::OpeningPool => if !ok {
            finish(Verdict::SetupFailed(SetupFailure::CreatePool))
        } else if has_migrator {
            (Phase::Migrating, Step::RunMigrations)
        } else {
            fixtures_from(kind, 0, n)
        },
        Phase::Migrating => if ok {
            fixtures_from(kind, 0, n)
        } else {
            finish(Verdict::SetupFailed(SetupFailure::Migrations))
        },
        Phase::Fixture(i) => if ok {
            fixtures_from(kind, (i + 1) as nat, n)
        } else {
            finish(Verdict::SetupFailed(SetupFailure::Fixture(i)))
        },
        Phase::ClosingPool => (Phase::Running, Step::InvokeBody),
        Phase::Acquiring => if ok {
            (Phase::Running, Step::InvokeBody)
        } else {
            finish(Verdict::SetupFailed(SetupFailure::AcquireConnection))
        },
        Phase::Running => if ok {
            (Phase::CleaningUp, Step::Cleanup)
        } else {
            finish(Verdict::Failed)
        },
        Phase::CleaningUp => finish(Verdict::Passed { cleanup_succeeded: ok }),
        Phase::Done(v) => finish(v),
    }
}

/// The harness of one test.
pub struct Harness {
    kind: EntryKind,
    has_migrator: bool,
    fixture_count: usize,
    phase: Phase,
}

impl Harness {
    pub closed spec fn kind_spec(&self) -> EntryKind {
        self.kind
    }

    pub closed spec fn has_migrator_spec(&self) -> bool {
        self.has_migrator
    }

    pub closed spec fn fixture_count_spec(&self) -> nat {
        self.fixture_count as nat
    }

    pub closed spec fn phase_spec(&self) -> Phase {
        self.phase
    }

    /// A fixture phase names an existing fixture.
    pub closed spec fn wf(&self) -> bool {
        self.phase matches Phase::Fixture(i) ==> i < self.fixture_count
    }

    /// A harness for a body of shape `kind` with the setup `args`.
    pub fn new(kind: EntryKind, args: &TestArgs) -> (r: Self)
        ensures
            r.wf(),
            r.kind_spec() == kind,
            r.has_migrator_spec() == args.migrator_spec() is Some,
            r.fixture_count_spec() == args.fixtures_spec().len(),
            r.phase_spec() == Phase::Start,
    {
        Harness {
            kind,
            has_migrator: args.has_migrator(),
            fixture_count: args.fixture_count(),
            phase: Phase::Start,
        }
    }

    pub fn phase(&self) -> (r: Phase)
        ensures
            r == self.phase_spec(),
    {
        self.phase
    }

    /// Takes the answer to the last step and returns the next one.
    pub fn step(&mut self, ev: Event) -> (r: Step)
        requires
            old(self).wf(),
        ensures
            final(self).wf(),
            final(self).kind_spec() == old(self).kind_spec(),
            final(self).has_migrator_spec() == old(self).has_migrator_spec(),
            final(self).fixture_count_spec() == old(self).fixture_count_spec(),
            (final(self).phase_spec(), r) == transition(
                old(self).kind_spec(),
                old(self).has_migrator_spec(),
                old(self).fixture_count_spec(),
                old(self).phase_spec(),
                ev,
            ),
    {
        let ok = ev == Event::Succeeded;
        let (phase, step) = match self.phase {
            Phase::Start => (Phase::Provisioning, Step::Provision),
            Phase::Provisioning => if ok {
                (Phase::OpeningPool, Step::OpenPool)
            } else {
                Self::finished(Verdict::SetupFailed(SetupFailure::Connect))
            },
            Phase::OpeningPool => if !ok {
                Self::finished(Verdict::SetupFailed(SetupFailure::CreatePool))
            } else if self.has_migrator {
                (Phase::Migrating, Step::RunMigrations)
            } else {
                self.fixture_or_body(0)
            },
            Phase::Migrating => if ok {
                self.fixture_or_body(0)
            } else {
                Self::finished(Verdict::SetupFailed(SetupFailure::Migrations))
            },
            Phase::Fixture(i) => if ok {
                self.fixture_or_body(i + 1)
            } else {
                Self::finished(Verdict::SetupFailed(SetupFailure::Fixture(i)))
            },
            Phase::ClosingPool => (Phase::Running, Step::InvokeBody),
            Phase::Acquiring => if ok {
                (Phase::Running, Step::InvokeBody)
            } else {
                Self::finished(Verdict::SetupFailed(SetupFailure::AcquireConnection))
            },
            Phase::Running => if ok {
                (Phase::CleaningUp, Step::Cleanup)
            } else {
                Self::finished(Verdict::Failed)
            },
            Phase::CleaningUp => Self::finished(Verdict::Passed { cleanup_succeeded: ok }),
            Phase::Done(v) => Self::finished(v),
        };
        self.phase = phase;
        step
    }

    fn finished(v: Verdict) -> (r: (Phase, Step))
        ensures
            r == finish(v),
    {
        (Phase::Done(v), Step::Finish(v))
    }

    fn fixture_or_body(&self, i: usize) -> (r: (Phase, Step))
        requires
            i <= self.fixture_count,
        ensures
            r == fixtures_from(self.kind, i as nat, self.fixture_count as nat),
    {
        if i < self.fixture_count {
            (Phase::Fixture(i), Step::ApplyFixture(i))
        } else {
            match self.kind {
                EntryKind::Options => (Phase::ClosingPool, Step::ClosePool),
                EntryKind::Pool => (Phase::Running, Step::InvokeBody),
                EntryKind::PooledConnection | EntryKind::RawConnection => (
                    Phase::Acquiring,
                    Step::AcquireConnection,
                ),
            }
        }
    }
}

/// Cleanup is asked for exactly when the body has just reported a success.
pub proof fn lemma_cleanup_only_on_success(
    kind: EntryKind,
    has_migrator: bool,
    n: nat,
    phase: Phase,
    ev: Event,
)
    ensures
        transition(kind, has_migrator, n, phase, ev).1 == Step::Cleanup <==> (phase == Phase::Running
            && ev == Event::Succeeded),
        phase == Phase::Running && ev == Event::Failed ==> transition(
            kind,
            has_migrator,
            n,
            phase,
            ev,
        ).1 == Step::Finish(Verdict::Failed),
{
}

/// Fixtures are applied one at a time, in order: the first follows the pool (and
/// the migrations, if any), each later one follows the success of the one before,
/// and a failed fixture ends the test with its index.
pub proof fn lemma_fixtures_in_order(
    kind: EntryKind,
    has_migrator: bool,
    n: nat,
    phase: Phase,
    ev: Event,
    j: usize,
)
    requires
        n <= usize::MAX,
        phase matches Phase::Fixture(i) ==> i < n,
    ensures
        transition(kind, has_migrator, n, phase, ev).1 == Step::ApplyFixture(j) ==> ev
            == Event::Succeeded && j < n && (if j == 0 {
            (phase == Phase::OpeningPool && !has_migrator) || phase == Phase::Migrating
        } else {
            phase == Phase::Fixture((j - 1) as usize)
        }),
        phase == Phase::Fixture(j) && ev == Event::Failed ==> transition(
            kind,
            has_migrator,
            n,
            phase,
            ev,
        ) == finish(Verdict::SetupFailed(SetupFailure::Fixture(j))),
{
}

/// The message of a failed setup; a failed fixture is named by its path.
pub open spec fn failure_message_spec(f: SetupFailure, fixtures: Seq<TestFixture>) -> Seq<char> {
    match f {
        SetupFailure::Connect => "failed to connect to DATABASE_URL"@,
        SetupFailure::CreatePool => "failed to create pool"@,
        SetupFailure::Migrations => "failed to apply migrations"@,
        SetupFailure::Fixture(i) => "failed to apply fixture \""@ + fixtures[i as int].path@
            + "\""@,
        SetupFailure::AcquireConnection => "failed to acquire connection"@,
    }
}

/// The message with which a test whose setup failed aborts.
pub fn failure_message(f: SetupFailure, args: &TestArgs) -> (r: String)
    requires
        f matches SetupFailure::Fixture(i) ==> i < args.fixtures_spec().len(),
    ensures
        r@ == failure_message_spec(f, args.fixtures_spec()),
{
    match f {
        SetupFailure::Connect => String::from_str("failed to connect to DATABASE_URL"),
        SetupFailure::CreatePool => String::from_str("failed to create pool"),
        SetupFailure::Migrations => String::from_str("failed to apply migrations"),
        SetupFailure::Fixture(i) => {
            let s = concat_str("failed to apply fixture \"", args.fixture(i).path.as_str());
            s.concat("\"")
        },
        SetupFailure::AcquireConnection => String::from_str("failed to acquire connection"),
    }
}

} // verus!
