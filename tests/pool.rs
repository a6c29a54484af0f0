use chat_store::pool::{DbConnPool, EnvConfig, PoolBuilder, Setting, DEFAULT_POOL_SIZE};

fn full_pool(n: usize) -> DbConnPool<usize> {
    let mut b = PoolBuilder::new(n);
    let mut h = 0;
    while b.needs_more() {
        b.add(h);
        h += 1;
    }
    b.finish().expect("every handle was added")
}

#[test]
fn round_robin_visits_every_handle_in_turn() {
    let mut p = full_pool(3);
    let got: Vec<usize> = (0..7).map(|_| p.get_conn().unwrap().handle).collect();
    assert_eq!(got, vec![0, 1, 2, 0, 1, 2, 0]);
}

#[test]
fn round_robin_is_fair_over_a_full_cycle() {
    let mut p = full_pool(DEFAULT_POOL_SIZE);
    p.get_conn();
    p.get_conn();
    let mut seen = vec![0; DEFAULT_POOL_SIZE];
    for _ in 0..DEFAULT_POOL_SIZE {
        seen[p.get_conn().unwrap().handle] += 1;
    }
    assert!(seen.iter().all(|&k| k == 1));
}

#[test]
fn empty_pool_hands_out_nothing() {
    let mut p: DbConnPool<usize> = DbConnPool::new(Vec::new());
    assert_eq!(p.len(), 0);
    assert!(p.get_conn().is_none());
}

#[test]
fn partial_pool_is_not_finished() {
    let mut b = PoolBuilder::new(2);
    b.add("one");
    assert!(b.needs_more());
    assert!(b.finish().is_none());
}

#[test]
fn finished_pool_has_its_size() {
    let p = full_pool(4);
    assert_eq!(p.len(), 4);
}

fn some(s: &str) -> Option<String> {
    Some(s.to_string())
}

#[test]
fn config_from_all_values() {
    let c = EnvConfig::from_values(some("ws://db"), some("root"), some("pw"), some("chat"), some("ns")).ok().unwrap();
    assert_eq!(c.database_url, "ws://db");
    assert_eq!(c.username, "root");
    assert_eq!(c.password, "pw");
    assert_eq!(c.database, "chat");
    assert_eq!(c.namespace, "ns");
}

#[test]
fn config_reports_first_missing_setting() {
    let miss = |r: Result<EnvConfig, Setting>| match r {
        Err(s) => s,
        Ok(_) => panic!("expected a missing setting"),
    };
    assert_eq!(miss(EnvConfig::from_values(None, None, None, None, None)), Setting::DatabaseUrl);
    assert_eq!(miss(EnvConfig::from_values(some("u"), None, None, None, None)), Setting::Username);
    assert_eq!(miss(EnvConfig::from_values(some("u"), some("n"), None, some("d"), some("s"))), Setting::Password);
    assert_eq!(miss(EnvConfig::from_values(some("u"), some("n"), some("p"), None, some("s"))), Setting::Database);
    assert_eq!(miss(EnvConfig::from_values(some("u"), some("n"), some("p"), some("d"), None)), Setting::Namespace);
    assert_eq!(Setting::Namespace.var_name(), "SURREAL_NAMESPACE");
    assert_eq!(Setting::DatabaseUrl.var_name(), "DATABASE_URL");
}
