use sqlx_testing::context::{
    context_for, master_pool_settings, ConnectSettings, MasterPoolRegistry, PoolSettings,
    ProvisionFailure, Provisioner, RegistryError,
};
use sqlx_testing::tracking::{DropOutcome, TrackingStore};

fn opts(host: &str, db: &str) -> ConnectSettings {
    ConnectSettings { host: host.to_string(), port: 5432, username: "postgres".to_string(), database: db.to_string() }
}

#[test]
fn registry_retains_one_identity() {
    let mut reg = MasterPoolRegistry::new();
    for _ in 0..16 {
        let c = reg.get_or_init(&opts("localhost", "main")).unwrap();
        assert_eq!(c.host, "localhost");
        assert_eq!(c.database, "main");
    }
}

#[test]
fn registry_rejects_changed_host_or_database() {
    let mut reg = MasterPoolRegistry::new();
    reg.get_or_init(&opts("localhost", "main")).unwrap();
    assert_eq!(reg.get_or_init(&opts("otherhost", "main")).err(), Some(RegistryError::HostDiffers));
    assert_eq!(reg.get_or_init(&opts("localhost", "other")).err(), Some(RegistryError::DatabaseDiffers));
    assert!(reg.get_or_init(&opts("localhost", "main")).is_ok());
}

#[test]
fn pool_settings() {
    assert_eq!(master_pool_settings(), PoolSettings { max_connections: 20, idle_timeout_secs: None, parented: false });
    let ctx = context_for(&opts("h", "main"), "__test_9".to_string());
    assert_eq!(ctx.pool_opts, PoolSettings { max_connections: 10, idle_timeout_secs: Some(1), parented: true });
    assert_eq!(ctx.connect_opts.database, "__test_9");
    assert_eq!(ctx.connect_opts.host, "h");
    assert_eq!(ctx.connect_opts.port, 5432);
    assert_eq!(ctx.db_name, "__test_9");
}

#[test]
fn epoch_is_captured_once() {
    let mut p = Provisioner::new(TrackingStore::new());
    assert_eq!(p.epoch(100), 100);
    assert_eq!(p.epoch(500), 100);
}

#[test]
fn provisioning_reaps_with_the_process_epoch() {
    let mut store = TrackingStore::new();
    store.provision(&"old".to_string(), 10).unwrap();
    let mut p = Provisioner::new(store);
    let master = opts("localhost", "main");
    let cands = p.reap_candidates(50);
    assert_eq!(cands, vec!["__test_1".to_string()]);
    let ctx = p.provision(&master, &"mod::t1".to_string(), 50, &vec![DropOutcome::Dropped]).unwrap();
    assert_eq!(ctx.db_name, "__test_2");
    assert_eq!(p.store().rows().len(), 1);
    assert_eq!(p.store().rows()[0].test_path, "mod::t1");
    // Rows made after the epoch are never candidates, however late the clock.
    assert!(p.reap_candidates(1000).is_empty());
    let ctx2 = p.provision(&master, &"mod::t2".to_string(), 1000, &vec![]).unwrap();
    assert_eq!(ctx2.db_name, "__test_3");
    assert_ne!(ctx.db_name, ctx2.db_name);
}

#[test]
fn provisioning_fails_on_changed_master() {
    let mut p = Provisioner::new(TrackingStore::new());
    p.provision(&opts("a", "main"), &"t".to_string(), 1, &vec![]).unwrap();
    let r = p.provision(&opts("b", "main"), &"t".to_string(), 1, &vec![]);
    assert_eq!(r.err().map(|_| ()), Some(()));
    assert_eq!(p.store().rows().len(), 1);
}

#[test]
fn provisioning_fails_when_reaper_aborts() {
    let mut store = TrackingStore::new();
    store.provision(&"old".to_string(), 1).unwrap();
    let mut p = Provisioner::new(store);
    p.reap_candidates(5);
    let r = p.provision(&opts("a", "main"), &"t".to_string(), 5, &vec![DropOutcome::OtherError]);
    assert!(matches!(r, Err(ProvisionFailure::Reap(_))));
    assert_eq!(p.store().rows().len(), 1);
}

#[test]
fn operator_cleanup_uses_wall_clock() {
    let mut store = TrackingStore::new();
    store.provision(&"a".to_string(), 10).unwrap();
    store.provision(&"b".to_string(), 20).unwrap();
    let mut p = Provisioner::new(store);
    assert_eq!(p.epoch(5), 5);
    // The epoch would reclaim nothing; the operator's cutoff is the time given.
    assert_eq!(p.cleanup_candidates(15), vec!["__test_1".to_string()]);
    assert_eq!(p.cleanup_test_dbs(15, &vec![DropOutcome::Dropped]), Ok(1));
    assert_eq!(p.store().rows().len(), 1);
    assert_eq!(p.cleanup_test_dbs(100, &vec![DropOutcome::DatabaseError]), Ok(0));
    assert_eq!(p.store().rows().len(), 1);
}

#[test]
fn cleanup_refused_before_any_master_pool() {
    let mut reg = MasterPoolRegistry::new();
    assert!(!reg.is_initialized());
    assert_eq!(reg.cleanup_for(&"__test_1".to_string()), None);
    reg.get_or_init(&opts("h", "main")).unwrap();
    assert_eq!(
        reg.cleanup_for(&"__test_1".to_string()),
        Some("drop database if exists \"__test_1\";\ndelete from __test_databases where db_name = '__test_1';\n".to_string())
    );

    let mut store = TrackingStore::new();
    store.provision(&"t".to_string(), 1).unwrap();
    let mut p = Provisioner::new(store);
    assert!(!p.forget(&"__test_1".to_string()));
    assert_eq!(p.store().rows().len(), 1);
    p.provision(&opts("h", "main"), &"t2".to_string(), 2, &vec![]).unwrap();
    assert!(p.forget(&"__test_1".to_string()));
    assert_eq!(p.store().rows().len(), 1);
    assert_eq!(p.store().rows()[0].db_name, "__test_2");
}
