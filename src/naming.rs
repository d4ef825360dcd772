//! Names and statements of the tracking schema and of the test databases.
use vstd::prelude::*;

use crate::text::{decimal, lemma_decimal_injective, push_char, push_decimal};

verus! {

/// The prefix of every test database name.
pub open spec fn db_prefix() -> Seq<char> {
    "__test_"@
}

/// The name of the test database allocated with sequence value `id`.
pub open spec fn test_db_name_spec(id: nat) -> Seq<char> {
    db_prefix() + decimal(id)
}

/// `__test_<id>`.
pub fn test_db_name(id: u64) -> (r: String)
    ensures
        r@ == test_db_name_spec(id as nat),
{
    let mut s = String::from_str("__test_");
    push_decimal(&mut s, id);
    s
}

/// Distinct sequence values give distinct database names.
pub proof fn lemma_test_db_name_injective(a: nat, b: nat)
    requires
        a != b,
    ensures
        test_db_name_spec(a) != test_db_name_spec(b),
{
    if test_db_name_spec(a) == test_db_name_spec(b) {
        let p = db_prefix();
        assert(test_db_name_spec(a).subrange(p.len() as int, test_db_name_spec(a).len() as int)
            =~= decimal(a));
        assert(test_db_name_spec(b).subrange(p.len() as int, test_db_name_spec(b).len() as int)
            =~= decimal(b));
        lemma_decimal_injective(a, b);
    }
}

/// Names allocated from strictly increasing sequence values are pairwise distinct.
pub proof fn lemma_sequential_names_distinct(ids: Seq<nat>)
    requires
        forall|i: int, j: int| 0 <= i < j < ids.len() ==> ids[i] < ids[j],
    ensures
        forall|i: int, j: int|
            0 <= i < ids.len() && 0 <= j < ids.len() && i != j ==> test_db_name_spec(ids[i])
                != test_db_name_spec(ids[j]),
{
    assert forall|i: int, j: int|
        0 <= i < ids.len() && 0 <= j < ids.len() && i != j implies test_db_name_spec(ids[i])
        != test_db_name_spec(ids[j]) by {
        lemma_test_db_name_injective(ids[i], ids[j]);
    }
}

/// `s` with every occurrence of the quote character `q` doubled.
pub open spec fn escape_quotes(s: Seq<char>, q: char) -> Seq<char>
    decreases s.len(),
{
    if s.len() == 0 {
        Seq::empty()
    } else if s.last() == q {
        escape_quotes(s.drop_last(), q) + seq![q, q]
    } else {
        escape_quotes(s.drop_last(), q).push(s.last())
    }
}

/// `s` between two `q`, with inner `q` doubled: a quoted SQL identifier for `"`,
/// a string literal for `'`.
pub open spec fn quoted_spec(s: Seq<char>, q: char) -> Seq<char> {
    seq![q] + escape_quotes(s, q) + seq![q]
}

pub open spec fn quoted_ident_spec(s: Seq<char>) -> Seq<char> {
    quoted_spec(s, '"')
}

/// Appends `name` quoted with `q`.
pub fn push_quoted(out: &mut String, name: &String, q: char)
    ensures
        final(out)@ == old(out)@ + quoted_spec(name@, q),
{
    push_char(out, q);
    let n = name.as_str().unicode_len();
    let mut i: usize = 0;
    while i < n
        invariant
            n == name@.len(),
            i <= n,
            out@ == old(out)@ + seq![q] + escape_quotes(name@.subrange(0, i as int), q),
        decreases n - i,
    {
        let c = name.as_str().get_char(i);
        proof {
            let pre = name@.subrange(0, i + 1);
            assert(pre.drop_last() =~= name@.subrange(0, i as int));
            assert(pre.last() == c);
        }
        push_char(out, c);
        if c == q {
            push_char(out, q);
        }
        proof {
            assert(out@ =~= old(out)@ + seq![q] + escape_quotes(name@.subrange(0, i + 1), q));
        }
        i = i + 1;
    }
    proof {
        assert(name@.subrange(0, n as int) =~= name@);
    }
    push_char(out, q);
    proof {
        assert(final(out)@ =~= old(out)@ + quoted_spec(name@, q));
    }
}

/// The statement that drops one database, if it still exists.
pub open spec fn drop_statement_spec(name: Seq<char>) -> Seq<char> {
    "drop database if exists "@ + quoted_ident_spec(name) + ";\n"@
}

/// One drop statement per name, in order, as a single batch.
pub open spec fn drop_batch_spec(names: Seq<Seq<char>>) -> Seq<char>
    decreases names.len(),
{
    if names.len() == 0 {
        Seq::empty()
    } else {
        drop_batch_spec(names.drop_last()) + drop_statement_spec(names.last())
    }
}

/// Builds the batch that drops every name of `names`, one statement each, in order,
/// so that the i-th result of the batch belongs to the i-th name.
pub fn drop_batch_command(names: &Vec<String>) -> (r: String)
    ensures
        r@ == drop_batch_spec(names@.map_values(|s: String| s@)),
{
    let mut out = String::new();
    let mut i: usize = 0;
    while i < names.len()
        invariant
            i <= names@.len(),
            out@ == drop_batch_spec(names@.subrange(0, i as int).map_values(|s: String| s@)),
        decreases names@.len() - i,
    {
        out.append("drop database if exists ");
        push_quoted(&mut out, &names[i], '"');
        out.append(";\n");
        proof {
            let pre = names@.subrange(0, i + 1).map_values(|s: String| s@);
            assert(pre.drop_last() =~= names@.subrange(0, i as int).map_values(|s: String| s@));
            assert(pre.last() == names@[i as int]@);
            assert(out@ =~= drop_batch_spec(pre));
        }
        i = i + 1;
    }
    proof {
        assert(names@.subrange(0, i as int) =~= names@);
    }
    out
}

/// The statement run after a successful test: drop its database, then forget it.
pub open spec fn cleanup_statement_spec(name: Seq<char>) -> Seq<char> {
    drop_statement_spec(name) + "delete from __test_databases where db_name = "@
        + quoted_spec(name, '\'') + ";\n"@
}

/// Builds the cleanup statement for the test database `name`.
pub fn cleanup_statement(name: &String) -> (r: String)
    ensures
        r@ == cleanup_statement_spec(name@),
{
    let mut out = String::from_str("drop database if exists ");
    push_quoted(&mut out, name, '"');
    out.append(";\n");
    out.append("delete from __test_databases where db_name = ");
    push_quoted(&mut out, name, '\'');
    out.append(";\n");
    proof {
        assert(out@ =~= cleanup_statement_spec(name@));
    }
    out
}

/// The tracking table, its creation-time index and the sequence that numbers
/// test databases; each created only where absent.
pub open spec fn schema_spec() -> Seq<char> {
    "create table if not exists __test_databases (db_name text primary key, test_path text not null, created_at timestamptz not null default now());\ncreate index if not exists __test_databases_created_at on __test_databases(created_at);\ncreate sequence if not exists __test_database_ids as bigint;\n"@
}

/// The statement that creates the tracking schema where it is absent.
pub fn schema_statement() -> (r: String)
    ensures
        r@ == schema_spec(),
{
    String::from_str(
        "create table if not exists __test_databases (db_name text primary key, test_path text not null, created_at timestamptz not null default now());\ncreate index if not exists __test_databases_created_at on __test_databases(created_at);\ncreate sequence if not exists __test_database_ids as bigint;\n",
    )
}

/// Allocates the next database name and records it for `test_path`, in one
/// statement that returns the name.
pub open spec fn insert_spec(test_path: Seq<char>) -> Seq<char> {
    "insert into __test_databases(db_name, test_path) select '__test_' || nextval('__test_database_ids'), "@
        + quoted_spec(test_path, '\'') + " returning db_name;\n"@
}

pub fn insert_statement(test_path: &String) -> (r: String)
    ensures
        r@ == insert_spec(test_path@),
{
    let mut out = String::from_str(
        "insert into __test_databases(db_name, test_path) select '__test_' || nextval('__test_database_ids'), ",
    );
    push_quoted(&mut out, test_path, '\'');
    out.append(" returning db_name;\n");
    proof {
        assert(out@ =~= insert_spec(test_path@));
    }
    out
}

/// Selects the names of the databases created before `epoch` (seconds since the Unix epoch).
pub open spec fn stale_select_spec(epoch: nat) -> Seq<char> {
    "select db_name from __test_databases where created_at < to_timestamp("@ + decimal(epoch)
        + ");\n"@
}

pub fn stale_select_statement(epoch: u64) -> (r: String)
    ensures
        r@ == stale_select_spec(epoch as nat),
{
    let mut out = String::from_str("select db_name from __test_databases where created_at < to_timestamp(");
    push_decimal(&mut out, epoch);
    out.append(");\n");
    proof {
        assert(out@ =~= stale_select_spec(epoch as nat));
    }
    out
}

/// The names as string literals, separated by commas.
pub open spec fn literal_list_spec(names: Seq<Seq<char>>) -> Seq<char>
    decreases names.len(),
{
    if names.len() == 0 {
        Seq::empty()
    } else if names.len() == 1 {
        quoted_spec(names[0], '\'')
    } else {
        literal_list_spec(names.drop_last()) + ", "@ + quoted_spec(names.last(), '\'')
    }
}

/// Deletes the tracking rows of all of `names` in one statement.
pub open spec fn delete_rows_spec(names: Seq<Seq<char>>) -> Seq<char> {
    "delete from __test_databases where db_name in ("@ + literal_list_spec(names) + ");\n"@
}

/// The statement that forgets the databases `names`, or `None` when there are none.
pub fn delete_rows_statement(names: &Vec<String>) -> (r: Option<String>)
    ensures
        names@.len() == 0 ==> r is None,
        names@.len() > 0 ==> (r matches Some(s) && s@ == delete_rows_spec(
            names@.map_values(|s: String| s@),
        )),
{
    if names.len() == 0 {
        return None;
    }
    let mut out = String::from_str("delete from __test_databases where db_name in (");
    let ghost start = out@;
    let mut i: usize = 0;
    proof {
        assert(names@.subrange(0, 0).map_values(|s: String| s@) =~= Seq::<Seq<char>>::empty());
        assert(out@ =~= start + literal_list_spec(names@.subrange(0, 0).map_values(|s: String| s@)));
    }
    while i < names.len()
        invariant
            i <= names@.len(),
            out@ == start + literal_list_spec(names@.subrange(0, i as int).map_values(|s: String| s@)),
        decreases names@.len() - i,
    {
        if i > 0 {
            out.append(", ");
        }
        push_quoted(&mut out, &names[i], '\'');
        proof {
            let pre = names@.subrange(0, i + 1).map_values(|s: String| s@);
            assert(pre.drop_last() =~= names@.subrange(0, i as int).map_values(|s: String| s@));
            assert(pre.last() == names@[i as int]@);
            if i == 0 {
                assert(pre.len() == 1);
                assert(pre[0] == names@[0]@);
            }
            assert(out@ =~= start + literal_list_spec(pre));
        }
        i = i + 1;
    }
    proof {
        assert(names@.subrange(0, i as int) =~= names@);
    }
    out.append(");\n");
    proof {
        assert(out@ =~= delete_rows_spec(names@.map_values(|s: String| s@)));
    }
    Some(out)
}

} // verus!
