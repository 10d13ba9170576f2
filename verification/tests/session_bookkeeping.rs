use scanopy::ids::Uuid;
use scanopy::sessions::{contains_text, inherited_subnets, migration_primary, ConfigKind, DiscoveryConfig, EntityBatchTally};

fn id(n: u128) -> Uuid {
    Uuid::from_u128(n)
}

fn config(n: u128, kind: ConfigKind, scheduled_enabled: bool, updated_at: i64) -> DiscoveryConfig {
    DiscoveryConfig { id: id(n), kind, scheduled_enabled, updated_at }
}

#[test]
fn nothing_to_migrate_when_empty_or_already_unified() {
    assert_eq!(migration_primary(&vec![]), None);
    let ds = vec![config(1, ConfigKind::Other, true, 5), config(2, ConfigKind::Unified, false, 1)];
    assert_eq!(migration_primary(&ds), None);
}

#[test]
fn the_latest_scheduled_network_sweep_is_the_primary() {
    let ds = vec![
        config(1, ConfigKind::Network { subnet_ids: Some(vec![id(9)]) }, true, 10),
        config(2, ConfigKind::Other, true, 50),
        config(3, ConfigKind::Network { subnet_ids: None }, false, 40),
        config(4, ConfigKind::Network { subnet_ids: Some(vec![id(8)]) }, true, 20),
    ];
    let i = migration_primary(&ds).unwrap();
    assert_eq!(i, 3);
    assert_eq!(inherited_subnets(&ds[i]), Some(vec![id(8)]));
}

#[test]
fn without_a_scheduled_sweep_the_latest_discovery_wins_and_ties_go_to_the_last() {
    let ds = vec![
        config(1, ConfigKind::Other, false, 30),
        config(2, ConfigKind::Network { subnet_ids: None }, false, 10),
        config(3, ConfigKind::Other, true, 30),
    ];
    let i = migration_primary(&ds).unwrap();
    assert_eq!(i, 2);
    assert_eq!(inherited_subnets(&ds[i]), None);
}

#[test]
fn substring_search() {
    assert!(contains_text("Validation failed: Host limit reached for plan", "Host limit reached"));
    assert!(!contains_text("host limit reached", "Host limit reached"));
    assert!(contains_text("abc", ""));
    assert!(!contains_text("ab", "abc"));
}

#[test]
fn the_host_limit_is_reported_once() {
    let org = id(7);
    let mut t = EntityBatchTally::new();
    t.host_created();
    assert!(!t.host_failed("database unavailable", Some((25, org))));
    assert_eq!(t.first_host_error.as_deref(), Some("database unavailable"));
    assert!(t.billing_limit_hit.is_none());
    assert!(t.host_failed("Host limit reached (25)", Some((25, org))));
    assert_eq!(t.billing_limit_hit, Some((25, org)));
    assert!(!t.host_failed("Host limit reached (25)", Some((25, org))));
    assert_eq!(t.host_failures, 3);
    assert_eq!(t.first_host_error.as_deref(), Some("database unavailable"));
    assert!(t.had_failures());

    let mut u = EntityBatchTally::new();
    assert!(!u.host_failed("Host limit reached", None));
    u.subnet_created();
    assert_eq!(u.subnets_created, 1);
    u.subnet_failed();
    assert_eq!(u.subnet_failures, 1);
    assert!(!EntityBatchTally::new().had_failures());
}
