use vinted_poller::errors::PoolExhausted;
use vinted_poller::proxy::remove_proxy;
use vinted_poller::proxy::ProxyPool;

fn pool_of(addrs: &[&str]) -> ProxyPool {
    ProxyPool::new(addrs.iter().map(|a| a.to_string()).collect())
}

#[test]
fn select_draws_by_entropy_in_candidate_order() {
    let pool = pool_of(&["http:a:1", "http:b:2", "http:c:3"]);
    assert_eq!(pool.select(0).unwrap(), "http:a:1");
    assert_eq!(pool.select(1).unwrap(), "http:b:2");
    assert_eq!(pool.select(2).unwrap(), "http:c:3");
    assert_eq!(pool.select(3).unwrap(), "http:a:1");
}

#[test]
fn evicted_address_is_never_selected_again() {
    let mut pool = pool_of(&["http:a:1", "http:b:2", "http:c:3"]);
    pool.evict(&"http:b:2".to_string());
    for entropy in 0..20u64 {
        let picked = pool.select(entropy).unwrap();
        assert_ne!(picked, "http:b:2");
    }
}

#[test]
fn evicting_twice_is_a_no_op() {
    let mut pool = pool_of(&["http:a:1", "http:b:2"]);
    pool.evict(&"http:a:1".to_string());
    pool.evict(&"http:a:1".to_string());
    assert!(!pool.exhausted());
    assert_eq!(pool.select(0).unwrap(), "http:b:2");
}

#[test]
fn exhausted_pool_fails_selection() {
    let mut pool = pool_of(&["http:a:1", "http:b:2"]);
    pool.evict(&"http:a:1".to_string());
    pool.evict(&"http:b:2".to_string());
    assert!(pool.exhausted());
    assert_eq!(pool.select(0), Err(PoolExhausted));
    assert_eq!(pool.select(17), Err(PoolExhausted));
}

#[test]
fn empty_pool_is_exhausted_from_the_start() {
    let pool = pool_of(&[]);
    assert!(pool.exhausted());
    assert_eq!(pool.select(0), Err(PoolExhausted));
}

#[test]
fn remove_proxy_drops_every_copy_and_keeps_order() {
    let mut proxies: Vec<String> = vec![
        "http:a:1".to_string(),
        "http:b:2".to_string(),
        "http:a:1".to_string(),
        "http:c:3".to_string(),
    ];
    remove_proxy(&mut proxies, &"http:a:1".to_string());
    assert_eq!(proxies, vec!["http:b:2".to_string(), "http:c:3".to_string()]);
}

#[test]
fn remove_proxy_of_absent_address_changes_nothing() {
    let mut proxies: Vec<String> = vec!["http:a:1".to_string()];
    remove_proxy(&mut proxies, &"http:z:9".to_string());
    assert_eq!(proxies, vec!["http:a:1".to_string()]);
}
