use sqlx_testing::naming::delete_rows_statement;
use sqlx_testing::tracking::finish_reap;
use sqlx_testing::naming::{cleanup_statement, drop_batch_command, test_db_name};
use sqlx_testing::tracking::{collect_dropped, DropOutcome, ReapError, TrackingStore};

fn s(x: &str) -> String {
    x.to_string()
}

#[test]
fn db_names_are_decimal() {
    assert_eq!(test_db_name(0), "__test_0");
    assert_eq!(test_db_name(7), "__test_7");
    assert_eq!(test_db_name(42), "__test_42");
    assert_eq!(test_db_name(1000), "__test_1000");
    assert_eq!(test_db_name(u64::MAX), "__test_18446744073709551615");
}

#[test]
fn sequential_provisioning_names_are_distinct() {
    let mut store = TrackingStore::new();
    let mut names: Vec<String> = Vec::new();
    for i in 0..25 {
        let n = store.provision(&format!("t{}", i), 100).unwrap();
        assert!(!names.contains(&n));
        names.push(n);
    }
    assert_eq!(names[0], "__test_1");
    assert_eq!(names[24], "__test_25");
    assert_eq!(store.rows().len(), 25);
}

#[test]
fn drop_batch_has_one_statement_per_name_in_order() {
    let cmd = drop_batch_command(&vec![s("__test_1"), s("__test_2")]);
    assert_eq!(cmd, "drop database if exists \"__test_1\";\ndrop database if exists \"__test_2\";\n");
    assert_eq!(drop_batch_command(&vec![]), "");
}

#[test]
fn quotes_in_names_are_doubled() {
    let cmd = drop_batch_command(&vec![s("a\"b")]);
    assert_eq!(cmd, "drop database if exists \"a\"\"b\";\n");
    let c = cleanup_statement(&s("it's"));
    assert_eq!(
        c,
        "drop database if exists \"it's\";\ndelete from __test_databases where db_name = 'it''s';\n"
    );
}

#[test]
fn cleanup_statement_drops_then_forgets() {
    assert_eq!(
        cleanup_statement(&s("__test_3")),
        "drop database if exists \"__test_3\";\ndelete from __test_databases where db_name = '__test_3';\n"
    );
}

#[test]
fn reaper_only_proposes_rows_before_epoch() {
    let mut store = TrackingStore::new();
    store.provision(&s("a"), 10).unwrap();
    store.provision(&s("b"), 20).unwrap();
    store.provision(&s("c"), 30).unwrap();
    store.provision(&s("d"), 40).unwrap();
    assert_eq!(store.stale_candidates(30), vec![s("__test_1"), s("__test_2")]);
    assert_eq!(store.stale_candidates(0), Vec::<String>::new());
}

#[test]
fn reaper_removes_dropped_rows_and_keeps_in_use_ones() {
    let mut store = TrackingStore::new();
    store.provision(&s("a"), 10).unwrap();
    store.provision(&s("b"), 20).unwrap();
    store.provision(&s("c"), 30).unwrap();
    let outs = vec![DropOutcome::Dropped, DropOutcome::DatabaseError];
    assert_eq!(store.reap(30, &outs), Ok(1));
    let rows = store.rows();
    assert_eq!(rows.len(), 2);
    assert_eq!(rows[0].db_name, "__test_2");
    assert_eq!(rows[0].created_at, 20);
    assert_eq!(rows[0].test_path, "b");
    assert_eq!(rows[1].db_name, "__test_3");
    assert_eq!(rows[1].created_at, 30);
}

#[test]
fn reaper_with_nothing_stale_is_a_no_op() {
    let mut store = TrackingStore::new();
    store.provision(&s("a"), 50).unwrap();
    assert_eq!(store.reap(10, &vec![]), Ok(0));
    assert_eq!(store.rows().len(), 1);
}

#[test]
fn reaper_aborts_on_other_errors_and_keeps_table() {
    let mut store = TrackingStore::new();
    store.provision(&s("a"), 1).unwrap();
    store.provision(&s("b"), 2).unwrap();
    let outs = vec![DropOutcome::Dropped, DropOutcome::OtherError];
    assert_eq!(store.reap(5, &outs), Err(ReapError::Aborted));
    assert_eq!(store.rows().len(), 2);
}

#[test]
fn too_many_results_fail_loudly() {
    let cands = vec![s("x")];
    let outs = vec![DropOutcome::Dropped, DropOutcome::Dropped];
    assert_eq!(collect_dropped(&cands, &outs), Err(ReapError::TooManyResults));
    assert_eq!(collect_dropped(&cands, &vec![DropOutcome::Dropped]), Ok(vec![s("x")]));
    assert_eq!(collect_dropped(&vec![s("x"), s("y")], &vec![DropOutcome::DatabaseError, DropOutcome::Dropped]), Ok(vec![s("y")]));
}

#[test]
fn forget_removes_one_row() {
    let mut store = TrackingStore::new();
    let a = store.provision(&s("a"), 1).unwrap();
    store.provision(&s("b"), 2).unwrap();
    store.forget(&a);
    assert_eq!(store.rows().len(), 1);
    assert_eq!(store.rows()[0].db_name, "__test_2");
}


#[test]
fn schema_statement_creates_table_index_and_sequence() {
    let sql = sqlx_testing::naming::schema_statement();
    assert!(sql.starts_with("create table if not exists __test_databases (db_name text primary key, test_path text not null, created_at timestamptz not null default now());\n"));
    assert!(sql.contains("create index if not exists __test_databases_created_at on __test_databases(created_at);\n"));
    assert!(sql.ends_with("create sequence if not exists __test_database_ids as bigint;\n"));
}

#[test]
fn insert_statement_quotes_test_path() {
    assert_eq!(
        sqlx_testing::naming::insert_statement(&s("mod::it's")),
        "insert into __test_databases(db_name, test_path) select '__test_' || nextval('__test_database_ids'), 'mod::it''s' returning db_name;\n"
    );
}

#[test]
fn stale_select_uses_epoch_seconds() {
    assert_eq!(
        sqlx_testing::naming::stale_select_statement(1700000000),
        "select db_name from __test_databases where created_at < to_timestamp(1700000000);\n"
    );
}

#[test]
fn delete_rows_statement_lists_names() {
    assert_eq!(delete_rows_statement(&vec![]), None);
    assert_eq!(
        delete_rows_statement(&vec![s("__test_1")]),
        Some(s("delete from __test_databases where db_name in ('__test_1');\n"))
    );
    assert_eq!(
        delete_rows_statement(&vec![s("__test_1"), s("__test_4")]),
        Some(s("delete from __test_databases where db_name in ('__test_1', '__test_4');\n"))
    );
}

#[test]
fn finish_reap_over_selected_candidates() {
    let cands = vec![s("__test_1"), s("__test_2"), s("__test_3")];
    let outs = vec![DropOutcome::Dropped, DropOutcome::DatabaseError, DropOutcome::Dropped];
    assert_eq!(
        finish_reap(&cands, &outs),
        Ok((2, Some(s("delete from __test_databases where db_name in ('__test_1', '__test_3');\n"))))
    );
    assert_eq!(finish_reap(&vec![], &vec![]), Ok((0, None)));
    assert_eq!(finish_reap(&cands, &vec![DropOutcome::DatabaseError]), Ok((0, None)));
    assert_eq!(finish_reap(&cands, &vec![DropOutcome::OtherError]), Err(ReapError::Aborted));
    assert_eq!(finish_reap(&vec![], &vec![DropOutcome::Dropped]), Err(ReapError::TooManyResults));
}
