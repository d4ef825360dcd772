//! The master pool registry, the per-test context, and the provisioner that ties
//! them to the tracking table.
use vstd::prelude::*;

use crate::naming::{cleanup_statement, cleanup_statement_spec, test_db_name_spec};
use crate::text::copy_string;
use crate::tracking::{
    dropped_spec, keep_spec, stale_spec, DropOutcome, ProvisionError, ReapError, TrackingStore,
};

verus! {

/// Where to connect: the parts of a connection string that this layer reads.
pub struct ConnectSettings {
    pub host: String,
    pub port: u16,
    pub username: String,
    pub database: String,
}

/// The identity of a pool: its host and database.
pub open spec fn identity(c: ConnectSettings) -> (Seq<char>, Seq<char>) {
    (c.host@, c.database@)
}

/// How a pool is sized.
#[derive(PartialEq, Eq, Structural, Clone, Copy, Debug)]
pub struct PoolSettings {
    pub max_connections: u32,
    /// Seconds an idle connection is kept, or `None` to keep it.
    pub idle_timeout_secs: Option<u64>,
    /// Whether its connections count against the master pool's capacity.
    pub parented: bool,
}

/// The connection ceiling of the master pool: well below the server's own
/// limit, since many test processes may run at once.
pub const MASTER_MAX_CONNECTIONS: u32 = 20;

/// The connection ceiling of a per-test pool.
pub const TEST_MAX_CONNECTIONS: u32 = 10;

/// Seconds after which a per-test pool releases an idle connection.
pub const TEST_IDLE_TIMEOUT_SECS: u64 = 1;

/// The settings of the master pool, which connects lazily.
pub fn master_pool_settings() -> (r: PoolSettings)
    ensures
        r == (PoolSettings {
            max_connections: MASTER_MAX_CONNECTIONS,
            idle_timeout_secs: None,
            parented: false,
        }),
{
    PoolSettings { max_connections: MASTER_MAX_CONNECTIONS, idle_timeout_secs: None, parented: false }
}

fn copy_settings(c: &ConnectSettings) -> (r: ConnectSettings)
    ensures
        r == *c,
{
    ConnectSettings {
        host: copy_string(&c.host),
        port: c.port,
        username: copy_string(&c.username),
        database: copy_string(&c.database),
    }
}

/// Why the master pool registry refused a request.
#[derive(PartialEq, Eq, Structural, Clone, Copy, Debug)]
pub enum RegistryError {
    /// The connect options name another host than the retained pool's.
    HostDiffers,
    /// The connect options name another database than the retained pool's.
    DatabaseDiffers,
}

/// One request to the registry: the retained identity before and after, and the answer.
pub open spec fn registry_step(
    retained: Option<(Seq<char>, Seq<char>)>,
    id: (Seq<char>, Seq<char>),
) -> (Option<(Seq<char>, Seq<char>)>, Result<(Seq<char>, Seq<char>), RegistryError>) {
    match retained {
        None => (Some(id), Ok(id)),
        Some(e) => if e.0 != id.0 {
            (retained, Err(RegistryError::HostDiffers))
        } else if e.1 != id.1 {
            (retained, Err(RegistryError::DatabaseDiffers))
        } else {
            (retained, Ok(e))
        },
    }
}

/// The one master pool of a process: created on the first request, and checked
/// against the connect options of every later one.
pub struct MasterPoolRegistry {
    retained: Option<ConnectSettings>,
}

impl MasterPoolRegistry {
    /// The identity of the retained pool, if one was created.
    pub closed spec fn retained_spec(&self) -> Option<(Seq<char>, Seq<char>)> {
        match self.retained {
            Some(c) => Some(identity(c)),
            None => None,
        }
    }

    pub fn new() -> (r: Self)
        ensures
            r.retained_spec() is None,
    {
        MasterPoolRegistry { retained: None }
    }

    /// Whether the master pool was created.
    pub fn is_initialized(&self) -> (r: bool)
        ensures
            r == self.retained_spec() is Some,
    {
        self.retained.is_some()
    }

    /// The statement that drops the test database `db_name` and forgets it; `None`
    /// while no master pool exists, since cleanup runs only after provisioning.
    pub fn cleanup_for(&self, db_name: &String) -> (r: Option<String>)
        ensures
            r is None <==> self.retained_spec() is None,
            r matches Some(s) ==> s@ == cleanup_statement_spec(db_name@),
    {
        if self.retained.is_some() {
            Some(cleanup_statement(db_name))
        } else {
            None
        }
    }

    /// Returns the connect options of the retained pool, retaining `opts` if none
    /// was; fails when `opts` names another host or database than the retained pool.
    pub fn get_or_init(&mut self, opts: &ConnectSettings) -> (r: Result<ConnectSettings, RegistryError>)
        ensures
            final(self).retained_spec() == registry_step(old(self).retained_spec(), identity(*opts)).0,
            match (r, registry_step(old(self).retained_spec(), identity(*opts)).1) {
                (Ok(c), Ok(id)) => identity(c) == id,
                (Err(e), Err(f)) => e == f,
                _ => false,
            },
    {
        match &self.retained {
            None => {
                self.retained = Some(copy_settings(opts));
                Ok(copy_settings(opts))
            },
            Some(existing) => {
                if existing.host != opts.host {
                    Err(RegistryError::HostDiffers)
                } else if existing.database != opts.database {
                    Err(RegistryError::DatabaseDiffers)
                } else {
                    Ok(copy_settings(existing))
                }
            },
        }
    }
}

/// The registry after a sequence of requests, and the answer to the last one.
pub open spec fn registry_run(
    retained: Option<(Seq<char>, Seq<char>)>,
    ids: Seq<(Seq<char>, Seq<char>)>,
) -> Option<(Seq<char>, Seq<char>)>
    decreases ids.len(),
{
    if ids.len() == 0 {
        retained
    } else {
        registry_step(registry_run(retained, ids.drop_last()), ids.last()).0
    }
}

/// However many requests with the same connect options reach a fresh registry,
/// one identity is retained, and every request is answered with it.
pub proof fn lemma_registry_single_identity(ids: Seq<(Seq<char>, Seq<char>)>, id: (Seq<char>, Seq<char>))
    requires
        forall|i: int| 0 <= i < ids.len() ==> #[trigger] ids[i] == id,
    ensures
        ids.len() > 0 ==> registry_run(None, ids) == Some(id),
        forall|i: int|
            0 <= i < ids.len() ==> #[trigger] registry_step(registry_run(None, ids.subrange(0, i)), ids[i]).1
                == Ok::<(Seq<char>, Seq<char>), RegistryError>(id),
    decreases ids.len(),
{
    if ids.len() > 0 {
        let pre = ids.drop_last();
        lemma_registry_single_identity(pre, id);
        assert forall|i: int|
            0 <= i < ids.len() implies #[trigger] registry_step(registry_run(None, ids.subrange(0, i)), ids[i]).1
            == Ok::<(Seq<char>, Seq<char>), RegistryError>(id) by {
            if i < pre.len() {
                assert(ids.subrange(0, i) =~= pre.subrange(0, i));
                assert(pre[i] == ids[i]);
            } else {
                assert(ids.subrange(0, i) =~= pre);
                if pre.len() > 0 {
                    assert(registry_run(None, pre) == Some(id));
                }
            }
        }
    }
}

/// What a test needs to open its own pool against its own database.
pub struct TestContext {
    pub pool_opts: PoolSettings,
    pub connect_opts: ConnectSettings,
    pub db_name: String,
}

/// The settings of a per-test pool: a small ceiling, idle connections released
/// quickly, and its connections counted against the master pool.
pub open spec fn test_pool_settings() -> PoolSettings {
    PoolSettings {
        max_connections: TEST_MAX_CONNECTIONS,
        idle_timeout_secs: Some(TEST_IDLE_TIMEOUT_SECS),
        parented: true,
    }
}

/// The context of a test whose database is `db_name` on the master's server.
pub fn context_for(master: &ConnectSettings, db_name: String) -> (r: TestContext)
    ensures
        r.pool_opts == test_pool_settings(),
        r.connect_opts == (ConnectSettings { database: db_name, ..*master }),
        r.db_name == db_name,
{
    let mut connect_opts = copy_settings(master);
    connect_opts.database = copy_string(&db_name);
    TestContext {
        pool_opts: PoolSettings {
            max_connections: TEST_MAX_CONNECTIONS,
            idle_timeout_secs: Some(TEST_IDLE_TIMEOUT_SECS),
            parented: true,
        },
        connect_opts,
        db_name,
    }
}

/// Why provisioning failed.
#[derive(PartialEq, Eq, Structural, Clone, Copy, Debug)]
pub enum ProvisionFailure {
    Registry(RegistryError),
    Reap(ReapError),
    Allocate(ProvisionError),
}

/// Provisions test databases for one process: the master pool registry, the
/// tracking table, and the epoch that marks what older runs left behind.
pub struct Provisioner {
    registry: MasterPoolRegistry,
    store: TrackingStore,
    epoch: Option<u64>,
}

impl Provisioner {
    pub closed spec fn wf(&self) -> bool {
        self.store.wf()
    }

    pub closed spec fn store_spec(&self) -> TrackingStore {
        self.store
    }

    pub closed spec fn registry_spec(&self) -> Option<(Seq<char>, Seq<char>)> {
        self.registry.retained_spec()
    }

    /// The epoch, once captured.
    pub closed spec fn epoch_spec(&self) -> Option<u64> {
        self.epoch
    }

    pub fn new(store: TrackingStore) -> (r: Self)
        requires
            store.wf(),
        ensures
            r.wf(),
            r.store_spec() == store,
            r.registry_spec() is None,
            r.epoch_spec() is None,
    {
        Provisioner { registry: MasterPoolRegistry::new(), store, epoch: None }
    }

    pub fn store(&self) -> (r: &TrackingStore)
        ensures
            *r == self.store_spec(),
    {
        &self.store
    }

    /// The epoch of this process: `now` on the first call, the same value ever after.
    pub fn epoch(&mut self, now: u64) -> (r: u64)
        requires
            old(self).wf(),
        ensures
            final(self).wf(),
            old(self).epoch_spec() matches Some(e) ==> r == e,
            old(self).epoch_spec() is None ==> r == now,
            final(self).epoch_spec() == Some(r),
            final(self).store_spec() == old(self).store_spec(),
            final(self).registry_spec() == old(self).registry_spec(),
    {
        match self.epoch {
            Some(e) => e,
            None => {
                self.epoch = Some(now);
                now
            },
        }
    }

    /// The names the reaper pass of the next provisioning will try to drop.
    pub fn reap_candidates(&mut self, now: u64) -> (r: Vec<String>)
        requires
            old(self).wf(),
        ensures
            final(self).wf(),
            final(self).epoch_spec() matches Some(e) && r@.map_values(|s: String| s@)
                == stale_spec(old(self).store_spec().rows_spec(), e),
            old(self).epoch_spec() is Some ==> final(self).epoch_spec() == old(self).epoch_spec(),
            final(self).store_spec() == old(self).store_spec(),
            final(self).registry_spec() == old(self).registry_spec(),
    {
        let e = self.epoch(now);
        self.store.stale_candidates(e)
    }

    /// Provisions a database for `test_path`: checks `master` against the master
    /// pool, completes the reaper pass whose drop results are `outs` (in the order
    /// of `reap_candidates`), then allocates and records a new database.
    pub fn provision(
        &mut self,
        master: &ConnectSettings,
        test_path: &String,
        now: u64,
        outs: &Vec<DropOutcome>,
    ) -> (r: Result<TestContext, ProvisionFailure>)
        requires
            old(self).wf(),
        ensures
            final(self).wf(),
            final(self).registry_spec() == registry_step(old(self).registry_spec(), identity(*master)).0,
            registry_step(old(self).registry_spec(), identity(*master)).1 matches Err(e) ==> r
                == Err::<TestContext, ProvisionFailure>(ProvisionFailure::Registry(e))
                && final(self).store_spec() == old(self).store_spec(),
            registry_step(old(self).registry_spec(), identity(*master)).1 is Ok ==> {
                let e = final(self).epoch_spec()->Some_0;
                let rows = old(self).store_spec().rows_spec();
                &&& final(self).epoch_spec() is Some
                &&& old(self).epoch_spec() is Some ==> final(self).epoch_spec() == old(self).epoch_spec()
                &&& old(self).epoch_spec() is None ==> e == now
                &&& match dropped_spec(stale_spec(rows, e), outs@) {
                    Err(f) => r == Err::<TestContext, ProvisionFailure>(ProvisionFailure::Reap(f))
                        && final(self).store_spec() == old(self).store_spec(),
                    Ok(d) => {
                        let id = old(self).store_spec().next_id_spec();
                        let after = final(self).store_spec().rows_spec();
                        if id == u64::MAX {
                            r == Err::<TestContext, ProvisionFailure>(
                                ProvisionFailure::Allocate(ProvisionError::SequenceExhausted),
                            ) && after == keep_spec(rows, d)
                        } else {
                            r matches Ok(ctx) && ctx.db_name@ == test_db_name_spec(id)
                                && ctx.pool_opts == test_pool_settings()
                                && ctx.connect_opts == (ConnectSettings { database: ctx.db_name, ..*master })
                                && final(self).store_spec().next_id_spec() == id + 1
                                && after.drop_last() == keep_spec(rows, d)
                                && after.last().db_name@ == ctx.db_name@
                                && after.last().test_path@ == test_path@
                                && after.last().created_at == now
                        }
                    },
                }
            },
    {
        if let Err(e) = self.registry.get_or_init(master) {
            return Err(ProvisionFailure::Registry(e));
        }
        let epoch = self.epoch(now);
        match self.store.reap(epoch, outs) {
            Ok(_) => {},
            Err(e) => {
                return Err(ProvisionFailure::Reap(e));
            },
        }
        match self.store.provision(test_path, now) {
            Ok(name) => Ok(context_for(master, name)),
            Err(e) => Err(ProvisionFailure::Allocate(e)),
        }
    }

    /// The names an operator's cleanup at wall-clock time `now` will try to drop.
    pub fn cleanup_candidates(&self, now: u64) -> (r: Vec<String>)
        ensures
            r@.map_values(|s: String| s@) == stale_spec(self.store_spec().rows_spec(), now),
    {
        self.store.stale_candidates(now)
    }

    /// An operator's cleanup between runs: a reaper pass with cutoff `now` rather
    /// than the process epoch, given the drop results of `cleanup_candidates(now)`.
    /// Returns how many databases were reclaimed.
    pub fn cleanup_test_dbs(&mut self, now: u64, outs: &Vec<DropOutcome>) -> (r: Result<usize, ReapError>)
        requires
            old(self).wf(),
        ensures
            final(self).wf(),
            final(self).registry_spec() == old(self).registry_spec(),
            final(self).epoch_spec() == old(self).epoch_spec(),
            final(self).store_spec().next_id_spec() == old(self).store_spec().next_id_spec(),
            match dropped_spec(stale_spec(old(self).store_spec().rows_spec(), now), outs@) {
                Ok(d) => r == Ok::<usize, ReapError>(d.len() as usize)
                    && final(self).store_spec().rows_spec() == keep_spec(old(self).store_spec().rows_spec(), d),
                Err(e) => r == Err::<usize, ReapError>(e) && final(self).store_spec() == old(self).store_spec(),
            },
    {
        self.store.reap(now, outs)
    }

    /// Forgets the database of a test that passed, once it was dropped.
    pub fn forget(&mut self, db_name: &String) -> (r: bool)
        requires
            old(self).wf(),
        ensures
            final(self).wf(),
            r == old(self).registry_spec() is Some,
            r ==> final(self).store_spec().rows_spec() == keep_spec(
                old(self).store_spec().rows_spec(),
                seq![db_name@],
            ),
            !r ==> final(self).store_spec() == old(self).store_spec(),
            final(self).store_spec().next_id_spec() == old(self).store_spec().next_id_spec(),
            final(self).registry_spec() == old(self).registry_spec(),
            final(self).epoch_spec() == old(self).epoch_spec(),
    {
        if self.registry.is_initialized() {
            self.store.forget(db_name);
            true
        } else {
            false
        }
    }
}

} // verus!
