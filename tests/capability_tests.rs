use aether_vault::{
    Action, Capability, CapabilityContext, CapabilityError, CapabilityRequest, Domain, NameSet,
    TimeWindow, UsageLimits, VaultError,
};

fn open_context() -> CapabilityContext {
    CapabilityContext {
        environments: None,
        services: None,
        namespaces: None,
        ip_constraints: None,
        time_window: None,
        usage_limits: None,
    }
}

fn token_at(now: i64, ttl_ms: u64, context: CapabilityContext) -> Capability {
    Capability::issue(
        42,
        now,
        Domain::Database,
        Action::Read,
        "users".to_string(),
        context,
        ttl_ms,
        "vault".to_string(),
        "test".to_string(),
    )
    .unwrap()
}

#[test]
fn test_capability_creation() {
    let context = CapabilityContext {
        environments: Some(NameSet::from_names(vec!["production".to_string()])),
        services: Some(NameSet::from_names(vec!["api-service".to_string()])),
        namespaces: None,
        ip_constraints: None,
        time_window: None,
        usage_limits: None,
    };

    let capability = Capability::new(
        Domain::Database,
        Action::Read,
        "users".to_string(),
        context,
        300_000,
        "vault".to_string(),
        "api-service".to_string(),
    )
    .unwrap();

    assert_eq!(capability.domain, Domain::Database);
    assert_eq!(capability.action, Action::Read);
    assert_eq!(capability.target, "users");
    assert!(capability.is_valid());
}

#[test]
fn test_capability_request_validation() {
    let context = open_context();

    let valid_request = CapabilityRequest::new(
        Domain::Database,
        Action::Read,
        "users".to_string(),
        context,
        300_000_000_000,
    );
    assert!(valid_request.validate().is_ok());

    let context = open_context();
    let invalid_request = CapabilityRequest::new(
        Domain::Database,
        Action::Read,
        "".to_string(),
        context,
        300_000_000_000,
    );
    assert!(invalid_request.validate().is_err());
}

#[test]
fn request_ttl_bounds() {
    let req = |ttl: u64| {
        CapabilityRequest::new(Domain::Api, Action::List, "x".to_string(), open_context(), ttl)
    };
    assert!(req(10_000_000_000).validate().is_ok());
    assert!(req(86_400_000_000_000).validate().is_ok());
    assert_eq!(
        req(9_999_999_999).validate(),
        Err(VaultError::Capability(CapabilityError::InvalidFormat(
            "TTL too short (min 10 seconds)".to_string()
        )))
    );
    assert_eq!(
        req(86_400_000_000_001).validate(),
        Err(VaultError::Capability(CapabilityError::InvalidFormat(
            "TTL too long (max 24 hours)".to_string()
        )))
    );
    let empty = CapabilityRequest::new(Domain::Api, Action::List, String::new(), open_context(), 60_000_000_000);
    assert_eq!(
        empty.validate(),
        Err(VaultError::Capability(CapabilityError::InvalidFormat(
            "Target cannot be empty".to_string()
        )))
    );
}

#[test]
fn request_justification() {
    let r = CapabilityRequest::new(Domain::Api, Action::List, "x".to_string(), open_context(), 60_000_000_000)
        .with_justification("incident 12".to_string());
    assert_eq!(r.justification, Some("incident 12".to_string()));
    assert_eq!(r.ttl, 60_000_000_000);
}

#[test]
fn new_tokens_get_distinct_ids_and_current_time() {
    let a = Capability::new(
        Domain::Git,
        Action::Write,
        "repo".to_string(),
        open_context(),
        60_000,
        "vault".to_string(),
        "ci".to_string(),
    )
    .unwrap();
    let b = Capability::new(
        Domain::Git,
        Action::Write,
        "repo".to_string(),
        open_context(),
        60_000,
        "vault".to_string(),
        "ci".to_string(),
    )
    .unwrap();
    assert_ne!(a.id, b.id);
    // 2020-01-01T00:00:00Z
    assert!(a.issued_at > 1_577_836_800_000);
    assert_eq!(a.expires_at - a.issued_at, 60_000);
    assert!(a.signature.is_empty());
    let left = a.remaining_ttl().unwrap();
    assert!(left > 0 && left <= 60_000);
}

#[test]
fn issue_rejects_zero_and_overflowing_ttl() {
    let zero = Capability::issue(
        1, 0, Domain::Api, Action::Read, "t".to_string(), open_context(), 0,
        "i".to_string(), "s".to_string(),
    );
    assert!(matches!(zero, Err(VaultError::Capability(CapabilityError::InvalidFormat(_)))));
    let over = Capability::issue(
        1, i64::MAX - 5, Domain::Api, Action::Read, "t".to_string(), open_context(), 6,
        "i".to_string(), "s".to_string(),
    );
    assert!(matches!(over, Err(VaultError::Capability(CapabilityError::InvalidFormat(_)))));
    let edge = Capability::issue(
        1, i64::MAX - 5, Domain::Api, Action::Read, "t".to_string(), open_context(), 5,
        "i".to_string(), "s".to_string(),
    );
    assert_eq!(edge.unwrap().expires_at, i64::MAX);
}

#[test]
fn expiry_with_one_unit_ttl() {
    let c = token_at(1_000, 1, open_context());
    assert_eq!(c.expires_at, 1_001);
    assert!(c.is_valid_at(0));
    assert!(c.is_valid_at(1_000));
    assert!(!c.is_valid_at(1_002));
    assert!(!c.is_valid_at(i64::MAX));
}

#[test]
fn valid_at_the_expiry_instant() {
    let c = token_at(1_000, 1, open_context());
    assert!(c.is_valid_at(1_001));
    assert_eq!(c.remaining_ttl_at(1_001), None);
    assert_eq!(c.remaining_ttl_at(1_000), Some(1));
}

#[test]
fn context_set_semantics() {
    let mut ctx = open_context();
    ctx.environments = Some(NameSet::from_names(vec!["production".to_string()]));
    let c = token_at(0, 60_000, ctx);
    assert!(c.is_valid_for_context_at("production", "svc", "ns", 10));
    assert!(!c.is_valid_for_context_at("staging", "svc", "ns", 10));

    let mut ctx = open_context();
    ctx.environments = Some(NameSet::new());
    let c = token_at(0, 60_000, ctx);
    assert!(!c.is_valid_for_context_at("production", "svc", "ns", 10));
    assert!(!c.is_valid_for_context_at("", "svc", "ns", 10));

    let c = token_at(0, 60_000, open_context());
    assert!(c.is_valid_for_context_at("anything", "svc", "ns", 10));
    assert!(!c.is_valid_for_context_at("anything", "svc", "ns", 60_001));
}

#[test]
fn services_and_namespaces_are_checked() {
    let mut ctx = open_context();
    let mut services = NameSet::new();
    services.insert("api".to_string());
    services.insert("worker".to_string());
    ctx.services = Some(services);
    ctx.namespaces = Some(NameSet::from_names(vec!["team-a".to_string()]));
    let c = token_at(0, 60_000, ctx);
    assert!(c.is_valid_for_context_at("prod", "worker", "team-a", 1));
    assert!(!c.is_valid_for_context_at("prod", "web", "team-a", 1));
    assert!(!c.is_valid_for_context_at("prod", "api", "team-b", 1));
}

#[test]
fn usage_cap_enforcement() {
    let mut ctx = open_context();
    ctx.usage_limits = Some(UsageLimits { max_uses: Some(2), uses_per_window: None, current_uses: 0 });
    let mut c = token_at(0, 60_000, ctx);
    assert!(c.increment_usage().is_ok());
    assert!(c.is_valid_at(1));
    assert!(c.increment_usage().is_ok());
    assert!(!c.is_valid_at(1));
    let third = c.increment_usage();
    assert!(matches!(third, Err(VaultError::Capability(CapabilityError::ScopeMismatch(_)))));
    assert_eq!(c.context.usage_limits.unwrap().current_uses, 3);
}

#[test]
fn usage_without_limits_is_a_no_op() {
    let mut c = token_at(0, 60_000, open_context());
    assert!(c.increment_usage().is_ok());
    assert!(c.context.usage_limits.is_none());

    let mut ctx = open_context();
    ctx.usage_limits = Some(UsageLimits { max_uses: None, uses_per_window: None, current_uses: u32::MAX });
    let mut c = token_at(0, 60_000, ctx);
    assert!(c.increment_usage().is_err());
    assert_eq!(c.context.usage_limits.unwrap().current_uses, u32::MAX);
}

#[test]
fn time_window_and_weekdays() {
    // The epoch, 1970-01-01, was a Thursday (4).
    let window = |days: Option<Vec<u8>>| {
        let mut ctx = open_context();
        ctx.time_window = Some(TimeWindow { start: -86_400_000, end: 86_400_000, days_of_week: days });
        token_at(-100_000_000, 200_000_000, ctx)
    };
    assert!(window(None).is_valid_at(0));
    assert!(!window(None).is_valid_at(86_400_001));
    assert!(!window(None).is_valid_at(-86_400_001));
    assert!(window(Some(vec![4])).is_valid_at(0));
    assert!(!window(Some(vec![5])).is_valid_at(0));
    assert!(window(Some(vec![5])).is_valid_at(86_400_000));
    assert!(window(Some(vec![3])).is_valid_at(-1));
    assert!(!window(Some(vec![])).is_valid_at(0));
}

#[test]
fn refreshed_token_keeps_identity_and_counters() {
    let mut ctx = open_context();
    ctx.usage_limits = Some(UsageLimits { max_uses: Some(5), uses_per_window: None, current_uses: 2 });
    let c = token_at(1_000, 10_000, ctx);
    let r = c.refreshed(5_000, 30_000).unwrap();
    assert_eq!(r.id, c.id);
    assert_eq!(r.issued_at, 1_000);
    assert_eq!(r.expires_at, 35_000);
    assert_eq!(r.context.usage_limits.unwrap().current_uses, 2);
    assert!(c.refreshed(0, 1_000).is_err());
    assert!(c.refreshed(i64::MAX, 1).is_err());
}

#[test]
fn end_to_end_request_to_expiry() {
    let request = CapabilityRequest::new(
        Domain::parse("database").unwrap(),
        Action::parse("read").unwrap(),
        "users".to_string(),
        open_context(),
        300_000_000_000,
    );
    assert!(request.validate().is_ok());
    let now = 1_700_000_000_000;
    let c = Capability::issue(
        9,
        now,
        request.domain.clone(),
        request.action.clone(),
        request.target.clone(),
        request.context.clone(),
        request.ttl / 1_000_000,
        "vault".to_string(),
        "client".to_string(),
    )
    .unwrap();
    assert!(c.is_valid_at(now));
    assert_eq!(c.remaining_ttl_at(now), Some(300_000));
    assert!(!c.is_valid_at(now + 301_000));
    assert_eq!(c.remaining_ttl_at(now + 301_000), None);
}

#[test]
fn cloned_tokens_are_equal() {
    let mut ctx = open_context();
    ctx.ip_constraints = Some(vec!["10.0.0.0/8".to_string()]);
    ctx.time_window = Some(TimeWindow { start: 0, end: 10, days_of_week: Some(vec![1, 2]) });
    let c = token_at(0, 60_000, ctx);
    assert_eq!(c.clone(), c);
}
