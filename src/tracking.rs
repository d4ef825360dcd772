//! The tracking table of test databases, and the reaper that reclaims the stale ones.
use vstd::prelude::*;

use crate::naming::{
    delete_rows_spec, delete_rows_statement, lemma_test_db_name_injective, test_db_name,
    test_db_name_spec,
};
use crate::text::copy_string;

verus! {

/// One row of the tracking table: a test database, the test that made it, and when.
pub struct TrackingRecord {
    pub db_name: String,
    pub test_path: String,
    /// Creation time, in seconds since the Unix epoch.
    pub created_at: u64,
}

/// What the server answered to one statement of a drop batch.
#[derive(PartialEq, Eq, Structural, Clone, Copy, Debug)]
pub enum DropOutcome {
    /// The database was dropped (or was already gone).
    Dropped,
    /// The server refused with a database error: the database is taken to be in use.
    DatabaseError,
    /// Any other failure, such as a lost connection.
    OtherError,
}

/// Why a reaper pass stopped.
#[derive(PartialEq, Eq, Structural, Clone, Copy, Debug)]
pub enum ReapError {
    /// A drop failed with something other than a database error.
    Aborted,
    /// The batch returned more results than there were candidates.
    TooManyResults,
}

/// Why a database could not be provisioned.
#[derive(PartialEq, Eq, Structural, Clone, Copy, Debug)]
pub enum ProvisionError {
    /// The sequence of database ids has no value left.
    SequenceExhausted,
}

/// The names of the rows created before `epoch`, in row order.
pub open spec fn stale_spec(rows: Seq<TrackingRecord>, epoch: u64) -> Seq<Seq<char>>
    decreases rows.len(),
{
    if rows.len() == 0 {
        Seq::empty()
    } else if rows.last().created_at < epoch {
        stale_spec(rows.drop_last(), epoch).push(rows.last().db_name@)
    } else {
        stale_spec(rows.drop_last(), epoch)
    }
}

/// The candidates dropped after the first `n` results of a drop batch, or why the
/// pass stopped: the i-th result belongs to the i-th candidate.
pub open spec fn dropped_prefix(cands: Seq<Seq<char>>, outs: Seq<DropOutcome>, n: nat) -> Result<
    Seq<Seq<char>>,
    ReapError,
>
    decreases n,
{
    if n == 0 {
        Ok(Seq::empty())
    } else {
        match dropped_prefix(cands, outs, (n - 1) as nat) {
            Err(e) => Err(e),
            Ok(d) => if n - 1 >= cands.len() {
                Err(ReapError::TooManyResults)
            } else {
                match outs[n - 1] {
                    DropOutcome::Dropped => Ok(d.push(cands[n - 1])),
                    DropOutcome::DatabaseError => Ok(d),
                    DropOutcome::OtherError => Err(ReapError::Aborted),
                }
            },
        }
    }
}

pub open spec fn dropped_spec(cands: Seq<Seq<char>>, outs: Seq<DropOutcome>) -> Result<
    Seq<Seq<char>>,
    ReapError,
> {
    dropped_prefix(cands, outs, outs.len())
}

/// The rows whose database is not named in `names`, in order.
pub open spec fn keep_spec(rows: Seq<TrackingRecord>, names: Seq<Seq<char>>) -> Seq<TrackingRecord>
    decreases rows.len(),
{
    if rows.len() == 0 {
        Seq::empty()
    } else if names.contains(rows.last().db_name@) {
        keep_spec(rows.drop_last(), names)
    } else {
        keep_spec(rows.drop_last(), names).push(rows.last())
    }
}

pub open spec fn names_unique(rows: Seq<TrackingRecord>) -> bool {
    forall|i: int, j: int|
        0 <= i < rows.len() && 0 <= j < rows.len() && i != j ==> rows[i].db_name@
            != rows[j].db_name@
}

/// The names of the rows of `rows` created before `epoch`, in row order.
pub fn stale_names(rows: &Vec<TrackingRecord>, epoch: u64) -> (r: Vec<String>)
    ensures
        r@.map_values(|s: String| s@) == stale_spec(rows@, epoch),
{
    let mut out: Vec<String> = Vec::new();
    let mut i: usize = 0;
    proof {
        assert(rows@.subrange(0, 0) =~= Seq::<TrackingRecord>::empty());
        assert(out@.map_values(|s: String| s@) =~= Seq::<Seq<char>>::empty());
    }
    while i < rows.len()
        invariant
            i <= rows@.len(),
            out@.map_values(|s: String| s@) == stale_spec(rows@.subrange(0, i as int), epoch),
        decreases rows@.len() - i,
    {
        let ghost prev = out@;
        proof {
            let pre = rows@.subrange(0, i + 1);
            assert(pre.drop_last() =~= rows@.subrange(0, i as int));
            assert(pre.last() == rows@[i as int]);
        }
        if rows[i].created_at < epoch {
            let c = copy_string(&rows[i].db_name);
            out.push(c);
            proof {
                assert(out@.map_values(|s: String| s@) =~= prev.map_values(|s: String| s@).push(
                    c@,
                ));
            }
        }
        i = i + 1;
    }
    proof {
        assert(rows@.subrange(0, i as int) =~= rows@);
    }
    out
}

proof fn lemma_dropped_error_persists(
    cands: Seq<Seq<char>>,
    outs: Seq<DropOutcome>,
    k: nat,
    n: nat,
)
    requires
        k <= n,
        dropped_prefix(cands, outs, k) is Err,
    ensures
        dropped_prefix(cands, outs, n) == dropped_prefix(cands, outs, k),
    decreases n - k,
{
    if k < n {
        lemma_dropped_error_persists(cands, outs, k, (n - 1) as nat);
    }
}

/// Pairs the results of a drop batch with its candidates, in order.
///
/// Returns the dropped names; a database error skips its candidate (the database
/// is taken to be in use elsewhere); any other error, or a result beyond the last
/// candidate, stops the pass.
pub fn collect_dropped(cands: &Vec<String>, outs: &Vec<DropOutcome>) -> (r: Result<
    Vec<String>,
    ReapError,
>)
    ensures
        match (r, dropped_spec(cands@.map_values(|s: String| s@), outs@)) {
            (Ok(v), Ok(d)) => v@.map_values(|s: String| s@) == d,
            (Err(e), Err(f)) => e == f,
            _ => false,
        },
{
    let ghost cv = cands@.map_values(|s: String| s@);
    let mut out: Vec<String> = Vec::new();
    let mut i: usize = 0;
    proof {
        assert(out@.map_values(|s: String| s@) =~= Seq::<Seq<char>>::empty());
    }
    while i < outs.len()
        invariant
            i <= outs@.len(),
            cv == cands@.map_values(|s: String| s@),
            dropped_prefix(cv, outs@, i as nat) matches Ok(d) && out@.map_values(|s: String| s@)
                == d,
        decreases outs@.len() - i,
    {
        let ghost prev = out@;
        if i >= cands.len() {
            proof {
                lemma_dropped_error_persists(cv, outs@, (i + 1) as nat, outs@.len());
            }
            return Err(ReapError::TooManyResults);
        }
        match outs[i] {
            DropOutcome::Dropped => {
                let c = copy_string(&cands[i]);
                out.push(c);
                proof {
                    assert(out@.map_values(|s: String| s@) =~= prev.map_values(|s: String| s@).push(
                        c@,
                    ));
                }
            },
            DropOutcome::DatabaseError => {},
            DropOutcome::OtherError => {
                proof {
                    lemma_dropped_error_persists(cv, outs@, (i + 1) as nat, outs@.len());
                }
                return Err(ReapError::Aborted);
            },
        }
        i = i + 1;
    }
    Ok(out)
}

fn contains_name(names: &Vec<String>, name: &String) -> (r: bool)
    ensures
        r == names@.map_values(|s: String| s@).contains(name@),
{
    let ghost nv = names@.map_values(|s: String| s@);
    let mut i: usize = 0;
    while i < names.len()
        invariant
            i <= names@.len(),
            nv == names@.map_values(|s: String| s@),
            forall|j: int| 0 <= j < i ==> nv[j] != name@,
        decreases names@.len() - i,
    {
        if names[i] == *name {
            proof {
                assert(nv[i as int] == name@);
            }
            return true;
        }
        i = i + 1;
    }
    false
}

/// The tracking table as a value: one row per test database believed to be
/// still needed, and the sequence that numbers new databases. The statements of
/// `naming` act on the table in the database the same way; this value states
/// what they do, and serves where the table is held in memory.
pub struct TrackingStore {
    rows: Vec<TrackingRecord>,
    next_id: u64,
}

impl TrackingStore {
    pub closed spec fn rows_spec(&self) -> Seq<TrackingRecord> {
        self.rows@
    }

    /// The sequence value that the next provisioned database gets.
    pub closed spec fn next_id_spec(&self) -> nat {
        self.next_id as nat
    }

    /// Names are unique, and no row bears the name of a sequence value not yet handed out.
    pub closed spec fn wf(&self) -> bool {
        &&& names_unique(self.rows@)
        &&& forall|i: int, k: nat|
            #![trigger self.rows@[i], test_db_name_spec(k)]
            0 <= i < self.rows@.len() && k >= self.next_id ==> self.rows@[i].db_name@
                != test_db_name_spec(k)
    }

    /// A well-formed table holds each database name at most once.
    pub proof fn lemma_wf_names_unique(&self)
        requires
            self.wf(),
        ensures
            names_unique(self.rows_spec()),
    {
    }

    /// An empty table whose sequence starts at 1.
    pub fn new() -> (r: Self)
        ensures
            r.wf(),
            r.rows_spec() == Seq::<TrackingRecord>::empty(),
            r.next_id_spec() == 1,
    {
        TrackingStore { rows: Vec::new(), next_id: 1 }
    }

    pub fn rows(&self) -> (r: &Vec<TrackingRecord>)
        ensures
            r@ == self.rows_spec(),
    {
        &self.rows
    }

    /// Allocates the next database name and records it for `test_path`, created at `now`.
    pub fn provision(&mut self, test_path: &String, now: u64) -> (r: Result<String, ProvisionError>)
        requires
            old(self).wf(),
        ensures
            final(self).wf(),
            old(self).next_id_spec() == u64::MAX ==> r == Err::<String, ProvisionError>(
                ProvisionError::SequenceExhausted,
            ) && *final(self) == *old(self),
            old(self).next_id_spec() != u64::MAX ==> (r matches Ok(name) && name@
                == test_db_name_spec(old(self).next_id_spec())
                && final(self).next_id_spec() == old(self).next_id_spec() + 1
                && final(self).rows_spec().len() == old(self).rows_spec().len() + 1
                && final(self).rows_spec().drop_last() == old(self).rows_spec()
                && final(self).rows_spec().last().db_name@ == name@
                && final(self).rows_spec().last().test_path@ == test_path@
                && final(self).rows_spec().last().created_at == now),
    {
        if self.next_id == u64::MAX {
            return Err(ProvisionError::SequenceExhausted);
        }
        let id = self.next_id;
        let name = test_db_name(id);
        let rec = TrackingRecord {
            db_name: copy_string(&name),
            test_path: copy_string(test_path),
            created_at: now,
        };
        let ghost old_rows = self.rows@;
        self.rows.push(rec);
        self.next_id = id + 1;
        proof {
            assert(self.rows@.drop_last() =~= old_rows);
            assert forall|i: int, j: int|
                0 <= i < self.rows@.len() && 0 <= j < self.rows@.len() && i != j implies self.rows@[i].db_name@
                != self.rows@[j].db_name@ by {
                if i == old_rows.len() as int {
                    assert(old_rows[j].db_name@ != test_db_name_spec(id as nat));
                } else if j == old_rows.len() as int {
                    assert(old_rows[i].db_name@ != test_db_name_spec(id as nat));
                }
            }
            assert forall|i: int, k: nat|
                #![trigger self.rows@[i], test_db_name_spec(k)]
                0 <= i < self.rows@.len() && k >= self.next_id implies self.rows@[i].db_name@
                != test_db_name_spec(k) by {
                if i == old_rows.len() as int {
                    lemma_test_db_name_injective(id as nat, k);
                }
            }
        }
        Ok(name)
    }
}

proof fn lemma_stale_from_rows(rows: Seq<TrackingRecord>, epoch: u64, n: Seq<char>)
    requires
        stale_spec(rows, epoch).contains(n),
    ensures
        exists|i: int| 0 <= i < rows.len() && #[trigger] rows[i].db_name@ == n && rows[i].created_at < epoch,
    decreases rows.len(),
{
    let pre = rows.drop_last();
    if rows.last().created_at < epoch && rows.last().db_name@ == n {
        assert(rows[rows.len() - 1].db_name@ == n);
    } else {
        if rows.last().created_at < epoch {
            let j = choose|j: int| 0 <= j < stale_spec(rows, epoch).len() && stale_spec(rows, epoch)[j] == n;
            assert(j < stale_spec(pre, epoch).len());
            assert(stale_spec(pre, epoch)[j] == n);
        }
        lemma_stale_from_rows(pre, epoch, n);
        let i = choose|i: int| 0 <= i < pre.len() && #[trigger] pre[i].db_name@ == n && pre[i].created_at < epoch;
        assert(rows[i] == pre[i]);
    }
}

proof fn lemma_dropped_are_candidates(cands: Seq<Seq<char>>, outs: Seq<DropOutcome>, n: nat)
    ensures
        dropped_prefix(cands, outs, n) matches Ok(d) ==> forall|x: Seq<char>| #[trigger] d.contains(x) ==> cands.contains(x),
    decreases n,
{
    if n > 0 {
        lemma_dropped_are_candidates(cands, outs, (n - 1) as nat);
        if let Ok(d) = dropped_prefix(cands, outs, n) {
            let d0 = dropped_prefix(cands, outs, (n - 1) as nat)->Ok_0;
            assert forall|x: Seq<char>| #[trigger] d.contains(x) implies cands.contains(x) by {
                if outs[n - 1] == DropOutcome::Dropped {
                    let j = choose|j: int| 0 <= j < d.len() && d[j] == x;
                    if j == d0.len() {
                        assert(cands[n - 1] == x);
                    } else {
                        assert(d0[j] == x);
                        assert(d0.contains(x));
                    }
                } else {
                    assert(d0.contains(x));
                }
            }
        }
    }
}

proof fn lemma_keep(rows: Seq<TrackingRecord>, names: Seq<Seq<char>>)
    ensures
        forall|r: TrackingRecord| #[trigger] keep_spec(rows, names).contains(r) ==> rows.contains(r) && !names.contains(r.db_name@),
        forall|i: int| 0 <= i < rows.len() && !names.contains(rows[i].db_name@) ==> keep_spec(rows, names).contains(#[trigger] rows[i]),
        names_unique(rows) ==> names_unique(keep_spec(rows, names)),
    decreases rows.len(),
{
    if rows.len() > 0 {
        let pre = rows.drop_last();
        let k0 = keep_spec(pre, names);
        let k = keep_spec(rows, names);
        lemma_keep(pre, names);
        assert forall|r: TrackingRecord| #[trigger] k.contains(r) implies rows.contains(r) && !names.contains(r.db_name@) by {
            let j = choose|j: int| 0 <= j < k.len() && k[j] == r;
            if j < k0.len() {
                assert(k0[j] == r);
                assert(k0.contains(r));
                let m = choose|m: int| 0 <= m < pre.len() && pre[m] == r;
                assert(rows[m] == r);
            } else {
                assert(rows[rows.len() - 1] == r);
            }
        }
        assert forall|i: int| 0 <= i < rows.len() && !names.contains(rows[i].db_name@) implies k.contains(#[trigger] rows[i]) by {
            if i < rows.len() - 1 {
                assert(pre[i] == rows[i]);
                assert(k0.contains(pre[i]));
                let j = choose|j: int| 0 <= j < k0.len() && k0[j] == pre[i];
                assert(k[j] == k0[j]);
            } else {
                assert(k[k.len() - 1] == rows[i]);
            }
        }
        if names_unique(rows) {
            assert(names_unique(pre)) by {
                assert forall|i: int, j: int| 0 <= i < pre.len() && 0 <= j < pre.len() && i != j implies pre[i].db_name@ != pre[j].db_name@ by {
                    assert(pre[i] == rows[i] && pre[j] == rows[j]);
                }
            }
            assert forall|i: int, j: int| 0 <= i < k.len() && 0 <= j < k.len() && i != j implies k[i].db_name@ != k[j].db_name@ by {
                if i < k0.len() && j < k0.len() {
                    assert(k[i] == k0[i] && k[j] == k0[j]);
                } else {
                    let (a, b) = if i < k0.len() { (i, j) } else { (j, i) };
                    assert(k[a] == k0[a]);
                    assert(k0.contains(k0[a]));
                    let m = choose|m: int| 0 <= m < pre.len() && pre[m] == k0[a];
                    assert(rows[m] == k0[a]);
                    assert(k[b] == rows.last());
                }
            }
        }
    }
}

/// A reaper pass with cutoff `epoch` proposes only rows created before `epoch`.
/// When the pass completes, every row whose database was dropped is gone, and
/// every other row, among them each row created at or after `epoch` and each row
/// whose drop failed as in use, is still there unchanged.
pub proof fn lemma_reap_pass(rows: Seq<TrackingRecord>, epoch: u64, outs: Seq<DropOutcome>)
    requires
        names_unique(rows),
    ensures
        forall|n: Seq<char>| #[trigger] stale_spec(rows, epoch).contains(n) ==> exists|i: int|
            0 <= i < rows.len() && #[trigger] rows[i].db_name@ == n && rows[i].created_at < epoch,
        dropped_spec(stale_spec(rows, epoch), outs) matches Ok(d) ==> {
            &&& forall|r: TrackingRecord| #[trigger] keep_spec(rows, d).contains(r) ==> rows.contains(r) && !d.contains(r.db_name@)
            &&& forall|i: int| 0 <= i < rows.len() && !d.contains(rows[i].db_name@) ==> keep_spec(rows, d).contains(#[trigger] rows[i])
            &&& forall|i: int| 0 <= i < rows.len() && rows[i].created_at >= epoch ==> keep_spec(rows, d).contains(#[trigger] rows[i])
            &&& names_unique(keep_spec(rows, d))
        },
{
    let cands = stale_spec(rows, epoch);
    assert forall|n: Seq<char>| #[trigger] cands.contains(n) implies exists|i: int|
        0 <= i < rows.len() && #[trigger] rows[i].db_name@ == n && rows[i].created_at < epoch by {
        lemma_stale_from_rows(rows, epoch, n);
    }
    lemma_dropped_are_candidates(cands, outs, outs.len());
    if let Ok(d) = dropped_spec(cands, outs) {
        lemma_keep(rows, d);
        assert forall|i: int| 0 <= i < rows.len() && rows[i].created_at >= epoch implies keep_spec(rows, d).contains(#[trigger] rows[i]) by {
            if d.contains(rows[i].db_name@) {
                assert(cands.contains(rows[i].db_name@));
                lemma_stale_from_rows(rows, epoch, rows[i].db_name@);
            }
        }
    }
}

impl TrackingStore {
    /// The names of the databases created before `epoch`: the candidates of a reaper pass.
    pub fn stale_candidates(&self, epoch: u64) -> (r: Vec<String>)
        ensures
            r@.map_values(|s: String| s@) == stale_spec(self.rows_spec(), epoch),
    {
        stale_names(&self.rows, epoch)
    }

    /// Removes the rows of the databases named in `names`.
    fn remove_names(&mut self, names: &Vec<String>)
        requires
            old(self).wf(),
        ensures
            final(self).wf(),
            final(self).rows_spec() == keep_spec(old(self).rows_spec(), names@.map_values(|s: String| s@)),
            final(self).next_id_spec() == old(self).next_id_spec(),
    {
        let ghost nv = names@.map_values(|s: String| s@);
        let mut kept: Vec<TrackingRecord> = Vec::new();
        let mut i: usize = 0;
        while i < self.rows.len()
            invariant
                i <= self.rows@.len(),
                nv == names@.map_values(|s: String| s@),
                kept@ == keep_spec(self.rows@.subrange(0, i as int), nv),
            decreases self.rows@.len() - i,
        {
            proof {
                let pre = self.rows@.subrange(0, i + 1);
                assert(pre.drop_last() =~= self.rows@.subrange(0, i as int));
                assert(pre.last() == self.rows@[i as int]);
            }
            if !contains_name(names, &self.rows[i].db_name) {
                let rec = TrackingRecord {
                    db_name: copy_string(&self.rows[i].db_name),
                    test_path: copy_string(&self.rows[i].test_path),
                    created_at: self.rows[i].created_at,
                };
                assert(rec == self.rows@[i as int]);
                kept.push(rec);
            }
            i = i + 1;
        }
        let ghost old_rows = self.rows@;
        proof {
            assert(self.rows@.subrange(0, i as int) =~= self.rows@);
            lemma_keep(self.rows@, nv);
        }
        self.rows = kept;
        proof {
            assert forall|i: int, k: nat|
                #![trigger self.rows@[i], test_db_name_spec(k)]
                0 <= i < self.rows@.len() && k >= self.next_id implies self.rows@[i].db_name@
                != test_db_name_spec(k) by {
                assert(keep_spec(old_rows, nv).contains(self.rows@[i]));
                let m = choose|m: int| 0 <= m < old_rows.len() && old_rows[m] == self.rows@[i];
                assert(old_rows[m].db_name@ != test_db_name_spec(k));
            }
        }
    }

    /// Completes a reaper pass with cutoff `epoch`, given the results of the drop
    /// batch built from `stale_candidates(epoch)`, in batch order.
    ///
    /// On success the rows of the dropped databases are removed and their number is
    /// returned; when the pass stops, the table is left as it was.
    pub fn reap(&mut self, epoch: u64, outs: &Vec<DropOutcome>) -> (r: Result<usize, ReapError>)
        requires
            old(self).wf(),
        ensures
            final(self).wf(),
            final(self).next_id_spec() == old(self).next_id_spec(),
            match dropped_spec(stale_spec(old(self).rows_spec(), epoch), outs@) {
                Ok(d) => r == Ok::<usize, ReapError>(d.len() as usize)
                    && final(self).rows_spec() == keep_spec(old(self).rows_spec(), d),
                Err(e) => r == Err::<usize, ReapError>(e) && *final(self) == *old(self),
            },
    {
        let cands = self.stale_candidates(epoch);
        match collect_dropped(&cands, outs) {
            Ok(dropped) => {
                self.remove_names(&dropped);
                Ok(dropped.len())
            },
            Err(e) => Err(e),
        }
    }

    /// Forgets the database `name` after its test passed and it was dropped.
    pub fn forget(&mut self, name: &String)
        requires
            old(self).wf(),
        ensures
            final(self).wf(),
            final(self).next_id_spec() == old(self).next_id_spec(),
            final(self).rows_spec() == keep_spec(old(self).rows_spec(), seq![name@]),
    {
        let names = vec![copy_string(name)];
        proof {
            assert(names@.map_values(|s: String| s@) =~= seq![name@]);
        }
        self.remove_names(&names);
    }
}

/// Completes a reaper pass over the candidates the database selected, given the
/// results of their drop batch in batch order: returns how many were dropped and
/// the statement that deletes their tracking rows, if any were.
pub fn finish_reap(cands: &Vec<String>, outs: &Vec<DropOutcome>) -> (r: Result<
    (usize, Option<String>),
    ReapError,
>)
    ensures
        match (r, dropped_spec(cands@.map_values(|s: String| s@), outs@)) {
            (Ok((n, stmt)), Ok(d)) => n == d.len() && (d.len() == 0 ==> stmt is None) && (d.len()
                > 0 ==> (stmt matches Some(s) && s@ == delete_rows_spec(d))),
            (Err(e), Err(f)) => e == f,
            _ => false,
        },
{
    match collect_dropped(cands, outs) {
        Ok(dropped) => {
            let stmt = delete_rows_statement(&dropped);
            Ok((dropped.len(), stmt))
        },
        Err(e) => Err(e),
    }
}

} // verus!
