use aether_vault::{
    Action, Capability, CapabilityContext, CapabilityError, CapabilityStore, Domain, UsageLimits,
    VaultError,
};

fn token(id: u128, now: i64, ttl_ms: u64, max_uses: Option<u32>) -> Capability {
    let usage_limits = max_uses.map(|m| UsageLimits { max_uses: Some(m), uses_per_window: None, current_uses: 0 });
    Capability::issue(
        id,
        now,
        Domain::Database,
        Action::Read,
        "users".to_string(),
        CapabilityContext {
            environments: None,
            services: None,
            namespaces: None,
            ip_constraints: None,
            time_window: None,
            usage_limits,
        },
        ttl_ms,
        "vault".to_string(),
        "client".to_string(),
    )
    .unwrap()
}

#[test]
fn put_get_and_replace() {
    let mut store = CapabilityStore::new();
    assert!(store.get(1).is_none());
    store.put(token(1, 0, 1_000, None));
    assert_eq!(store.get(1).unwrap().expires_at, 1_000);
    store.put(token(1, 0, 5_000, None));
    assert_eq!(store.get(1).unwrap().expires_at, 5_000);
    assert_eq!(store.list_valid(0).len(), 1);
    assert!(store.contains(1));
    assert!(!store.contains(2));
}

#[test]
fn revoked_token_is_gone() {
    let mut store = CapabilityStore::new();
    let c = token(7, 0, 60_000, None);
    store.put(c.clone());
    assert_eq!(store.list_valid(10).len(), 1);
    store.put(token(8, 0, 60_000, None));
    assert!(store.revoke(7));
    assert!(store.get(7).is_none());
    assert!(store.list_valid(10).iter().all(|t| t.id != 7));
    assert_eq!(store.list_valid(10).len(), 1);
    assert!(store.is_revoked(7));
    assert_eq!(
        store.authorize_access(&c, 10).unwrap_err(),
        VaultError::Capability(CapabilityError::Revoked(7))
    );
    assert!(store.get(7).is_none());
    assert!(!store.revoke(9));
}

#[test]
fn list_valid_skips_invalid_without_evicting() {
    let mut store = CapabilityStore::new();
    store.put(token(1, 0, 100, None));
    store.put(token(2, 0, 1_000, None));
    store.put(token(3, 0, 1_000, Some(0)));
    let listed = store.list_valid(500);
    assert_eq!(listed.len(), 1);
    assert_eq!(listed[0].id, 2);
    assert!(store.get(1).is_some());
    assert!(store.get(3).is_some());
}

#[test]
fn prune_expired_drops_only_expired() {
    let mut store = CapabilityStore::new();
    store.put(token(1, 0, 100, None));
    store.put(token(2, 0, 1_000, None));
    store.put(token(3, 0, 500, Some(0)));
    store.prune_expired(500);
    assert!(store.get(1).is_none());
    assert!(store.get(2).is_some());
    assert!(store.get(3).is_some());
    store.clear();
    assert!(store.get(2).is_none());
    assert!(store.list_valid(0).is_empty());
}

#[test]
fn record_use_counts_every_call() {
    let mut store = CapabilityStore::new();
    store.put(token(5, 0, 60_000, Some(2)));
    assert!(store.record_use(5).is_ok());
    assert!(store.record_use(5).is_ok());
    assert!(matches!(
        store.record_use(5),
        Err(VaultError::Capability(CapabilityError::ScopeMismatch(_)))
    ));
    assert_eq!(store.get(5).unwrap().context.usage_limits.unwrap().current_uses, 3);
    assert_eq!(
        store.record_use(6),
        Err(VaultError::Capability(CapabilityError::NotFound(6)))
    );
}

#[test]
fn usage_race_counts_exactly_n() {
    let n: u32 = 16;
    let mut store = CapabilityStore::new();
    store.put(token(11, 0, 60_000, Some(n)));
    let mut successes = 0;
    for _ in 0..n {
        if store.record_use(11).is_ok() {
            successes += 1;
        }
    }
    assert_eq!(successes, n);
    assert_eq!(store.get(11).unwrap().context.usage_limits.unwrap().current_uses, n);
    assert!(store.record_use(11).is_err());
    assert_eq!(store.get(11).unwrap().context.usage_limits.unwrap().current_uses, n + 1);
}

#[test]
fn authorize_access_records_uses() {
    let mut store = CapabilityStore::new();
    let c = token(21, 0, 60_000, Some(2));
    store.put(c.clone());
    let first = store.authorize_access(&c, 10).unwrap();
    assert!(first.held);
    assert_eq!(first.token.context.usage_limits.unwrap().current_uses, 1);
    // The held token is used even when the caller passes an older snapshot.
    let second = store.authorize_access(&c, 10).unwrap();
    assert_eq!(second.token.context.usage_limits.unwrap().current_uses, 2);
    assert_eq!(
        store.authorize_access(&c, 10).unwrap_err(),
        VaultError::Capability(CapabilityError::ScopeMismatch("Usage limit exceeded".to_string()))
    );
    assert_eq!(store.get(21).unwrap().context.usage_limits.unwrap().current_uses, 2);
}

#[test]
fn failed_operation_gives_the_use_back() {
    let mut store = CapabilityStore::new();
    let c = token(22, 0, 60_000, Some(1));
    store.put(c.clone());
    let grant = store.authorize_access(&c, 10).unwrap();
    assert_eq!(store.get(22).unwrap().context.usage_limits.unwrap().current_uses, 1);
    store.release_use(grant.token.id);
    assert_eq!(store.get(22).unwrap().context.usage_limits.unwrap().current_uses, 0);
    assert!(store.authorize_access(&c, 10).is_ok());
    store.release_use(99);
    assert!(store.get(99).is_none());
}

#[test]
fn access_race_counts_exactly_n() {
    let n: u32 = 8;
    let mut store = CapabilityStore::new();
    let c = token(23, 0, 60_000, Some(n));
    store.put(c.clone());
    let oks = (0..n).filter(|_| store.authorize_access(&c, 5).is_ok()).count();
    assert_eq!(oks, n as usize);
    assert!(matches!(
        store.authorize_access(&c, 5),
        Err(VaultError::Capability(CapabilityError::ScopeMismatch(_)))
    ));
    assert_eq!(store.get(23).unwrap().context.usage_limits.unwrap().current_uses, n);
}

#[test]
fn invalid_tokens_are_refused_as_expired() {
    let mut store = CapabilityStore::new();
    let c = token(24, 0, 1_000, None);
    assert_eq!(
        store.authorize_access(&c, 2_000).unwrap_err(),
        VaultError::Capability(CapabilityError::Expired(1_000))
    );
    let mut w = token(25, 0, 100_000, None);
    w.context.time_window = Some(aether_vault::TimeWindow { start: 50, end: 60, days_of_week: None });
    assert_eq!(
        store.authorize_access(&w, 10).unwrap_err(),
        VaultError::Capability(CapabilityError::Expired(100_000))
    );
    assert!(store.get(24).is_none() && store.get(25).is_none());
}

#[test]
fn authorize_access_does_not_hold_unknown_tokens() {
    let mut store = CapabilityStore::new();
    let c = token(31, 0, 1_000, Some(3));
    let grant = store.authorize_access(&c, 5).unwrap();
    assert!(!grant.held);
    assert_eq!(grant.token.context.usage_limits.unwrap().current_uses, 1);
    assert!(store.get(31).is_none());
    assert!(store.adopt(grant.token.clone()));
    assert_eq!(store.get(31).unwrap().context.usage_limits.unwrap().current_uses, 1);
    assert!(!store.adopt(grant.token));
    store.revoke(31);
    assert!(!store.adopt(c));
    assert!(store.get(31).is_none());
}

#[test]
fn refresh_keeps_use_count() {
    let mut store = CapabilityStore::new();
    let c = token(41, 0, 60_000, Some(10));
    store.put(c.clone());
    store.record_use(41).unwrap();
    store.record_use(41).unwrap();
    let renewed = c.refreshed(30_000, 60_000).unwrap();
    assert_eq!(renewed.context.usage_limits.unwrap().current_uses, 0);
    store.apply_refresh(renewed).unwrap();
    let held = store.get(41).unwrap();
    assert_eq!(held.expires_at, 90_000);
    assert_eq!(held.context.usage_limits.unwrap().current_uses, 2);
    store.revoke(41);
    assert_eq!(
        store.apply_refresh(c.refreshed(30_000, 60_000).unwrap()),
        Err(VaultError::Capability(CapabilityError::Revoked(41)))
    );
    assert!(store.get(41).is_none());
}

#[test]
fn mutate_and_put_applies_the_change() {
    let mut store = CapabilityStore::new();
    store.put(token(51, 0, 1_000, None));
    let out = store
        .mutate_and_put(51, |mut c| {
            c.subject = "renamed".to_string();
            c
        })
        .unwrap();
    assert_eq!(out.subject, "renamed");
    assert_eq!(store.get(51).unwrap().subject, "renamed");
    assert!(store.mutate_and_put(52, |c| c).is_none());
    assert!(store.get(52).is_none());
}

#[test]
fn caller_token_decides_validity() {
    let mut store = CapabilityStore::new();
    let old = token(61, 0, 1_000, None);
    store.put(old.refreshed(500, 10_000).unwrap());
    // The caller's copy has expired although the held copy was renewed.
    assert_eq!(
        store.authorize_access(&old, 2_000).unwrap_err(),
        VaultError::Capability(CapabilityError::Expired(1_000))
    );
    let renewed = store.get(61).unwrap();
    assert!(store.authorize_access(&renewed, 2_000).is_ok());
}
