use aether_vault::{Action, CapabilityError, Domain, VaultError};

#[test]
fn test_domain_parsing() {
    assert_eq!(Domain::parse("database").unwrap(), Domain::Database);
    assert_eq!(Domain::parse("custom:mydomain").unwrap(), Domain::Custom("mydomain".to_string()));
    assert!(Domain::parse("invalid").is_err());
}

#[test]
fn test_action_parsing() {
    assert_eq!(Action::parse("read").unwrap(), Action::Read);
    assert_eq!(Action::parse("custom:myaction").unwrap(), Action::Custom("myaction".to_string()));
    assert!(Action::parse("invalid").is_err());
}

#[test]
fn domain_parsing_ignores_ascii_case() {
    assert_eq!(Domain::parse("DATABASE").unwrap(), Domain::Database);
    assert_eq!(Domain::parse("FileSystem").unwrap(), Domain::Filesystem);
    assert_eq!(Domain::parse("sSh").unwrap(), Domain::Ssh);
    assert_eq!(Action::parse("ADMIN").unwrap(), Action::Admin);
}

#[test]
fn custom_names_keep_their_case() {
    assert_eq!(Domain::parse("CUSTOM:MyDomain").unwrap(), Domain::Custom("MyDomain".to_string()));
    assert_eq!(Action::parse("Custom:DoIt").unwrap(), Action::Custom("DoIt".to_string()));
    assert_eq!(Domain::parse("custom:").unwrap(), Domain::Custom(String::new()));
}

#[test]
fn parse_errors_carry_the_input() {
    assert_eq!(
        Domain::parse("databases"),
        Err(VaultError::Capability(CapabilityError::InvalidDomain("databases".to_string())))
    );
    assert_eq!(
        Action::parse(""),
        Err(VaultError::Capability(CapabilityError::InvalidAction(String::new())))
    );
    assert!(Domain::parse("custom").is_err());
    assert!(Action::parse("custo:x").is_err());
}

#[test]
fn every_domain_text_parses_back() {
    let domains = vec![
        Domain::Database,
        Domain::Tls,
        Domain::Smtp,
        Domain::Imap,
        Domain::Docker,
        Domain::Git,
        Domain::Filesystem,
        Domain::Cloud,
        Domain::Api,
        Domain::Ssh,
        Domain::Custom("Registry-EU".to_string()),
    ];
    for d in domains {
        assert_eq!(Domain::parse(&d.to_string()).unwrap(), d);
    }
    assert_eq!(Domain::Custom("x".to_string()).to_string(), "custom:x");
    assert_eq!(Domain::Docker.to_string(), "docker");
}

#[test]
fn every_action_text_parses_back() {
    let actions = vec![
        Action::Read,
        Action::Write,
        Action::Delete,
        Action::Execute,
        Action::List,
        Action::Admin,
        Action::Create,
        Action::Update,
        Action::Custom("Rotate".to_string()),
    ];
    for a in actions {
        assert_eq!(Action::parse(&a.to_string()).unwrap(), a);
    }
    assert_eq!(Action::Update.to_string(), "update");
}

#[test]
fn standard_names_are_listed() {
    assert_eq!(
        Domain::standard_domains(),
        vec!["database", "tls", "smtp", "imap", "docker", "git", "filesystem", "cloud", "api", "ssh"]
    );
    assert_eq!(
        Action::standard_actions(),
        vec!["read", "write", "delete", "execute", "list", "admin", "create", "update"]
    );
    for name in Domain::standard_domains() {
        assert!(Domain::parse(name).is_ok());
    }
    for name in Action::standard_actions() {
        assert!(Action::parse(name).is_ok());
    }
}

#[test]
fn fixed_names_match_by_unicode_lowercase() {
    // U+212A KELVIN SIGN lowercases to 'k'.
    assert_eq!(Domain::parse("doc\u{212A}er").unwrap(), Domain::Docker);
    assert_eq!(Domain::parse("DOCKER").unwrap(), Domain::Docker);
    assert!(Domain::parse("d\u{0130}cker").is_err());
    assert_eq!(Action::parse("Execute").unwrap(), Action::Execute);
}
