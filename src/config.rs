//! The rules that a broker-connection configuration must follow, over plain
//! values: which transport and authentication method are named, and whether
//! the endpoint and the credential files fit them.

use vstd::prelude::*;
use vstd::string::*;
use crate::error::{ConfigError, VaultError};
use crate::scope::{lower_of, lowercase, same_text};

verus! {

/// Transport to the broker.
#[derive(Debug, Clone, Copy, PartialEq, Eq, Structural)]
pub enum TransportType {
    /// HTTP/HTTPS transport
    Http,
    /// Unix socket transport
    Unix,
    /// mTLS transport
    Mtls,
}

/// Authentication method.
#[derive(Debug, Clone, Copy, PartialEq, Eq, Structural)]
pub enum AuthMethod {
    /// Token-based authentication
    Token,
    /// Certificate-based authentication
    Certificate,
    /// Workload identity
    Workload,
    /// No authentication (local development only)
    NoAuth,
}

/// Log format.
#[derive(Debug, Clone, Copy, PartialEq, Eq, Structural)]
pub enum LogFormat {
    /// JSON format
    Json,
    /// Plain text format
    Text,
}

/// The rule that a configuration breaks, the first in the order they are
/// checked.
#[derive(Debug, Clone, Copy, PartialEq, Eq, Structural)]
pub enum ConfigFault {
    /// The endpoint is empty.
    EmptyEndpoint,
    /// HTTP transport with an endpoint that does not start with `http`.
    NotHttpEndpoint,
    /// Unix transport with certificate or key files.
    CertificateOverUnix,
    /// mTLS transport without both certificate and key files.
    MtlsWithoutCertificate,
    /// Token authentication without a token file.
    TokenWithoutFile,
    /// Certificate authentication without both certificate and key files.
    CertificateAuthWithoutFiles,
    /// No authentication towards an endpoint other than the local host.
    NoAuthOffLocalhost,
}

/// `needle` occurs in `hay` at position `i`.
pub open spec fn occurs_at(hay: Seq<char>, needle: Seq<char>, i: int) -> bool {
    0 <= i && i + needle.len() <= hay.len() && hay.subrange(i, i + needle.len()) == needle
}

/// `needle` occurs somewhere in `hay`.
pub open spec fn contains_text(hay: Seq<char>, needle: Seq<char>) -> bool {
    exists|i: int| occurs_at(hay, needle, i)
}

/// The first rule that the configuration breaks, if any.
pub open spec fn config_fault(
    endpoint: Seq<char>,
    transport: TransportType,
    method: AuthMethod,
    has_token_file: bool,
    has_cert_file: bool,
    has_key_file: bool,
) -> Option<ConfigFault> {
    if endpoint.len() == 0 {
        Some(ConfigFault::EmptyEndpoint)
    } else if transport == TransportType::Http && !occurs_at(endpoint, "http"@, 0) {
        Some(ConfigFault::NotHttpEndpoint)
    } else if transport == TransportType::Unix && (has_cert_file || has_key_file) {
        Some(ConfigFault::CertificateOverUnix)
    } else if transport == TransportType::Mtls && !(has_cert_file && has_key_file) {
        Some(ConfigFault::MtlsWithoutCertificate)
    } else if method == AuthMethod::Token && !has_token_file {
        Some(ConfigFault::TokenWithoutFile)
    } else if method == AuthMethod::Certificate && !(has_cert_file && has_key_file) {
        Some(ConfigFault::CertificateAuthWithoutFiles)
    } else if method == AuthMethod::NoAuth && !contains_text(endpoint, "localhost"@) && !contains_text(
        endpoint,
        "127.0.0.1"@,
    ) {
        Some(ConfigFault::NoAuthOffLocalhost)
    } else {
        None
    }
}

/// The error reported for each broken rule.
pub open spec fn fault_error(e: VaultError, f: ConfigFault) -> bool {
    match f {
        ConfigFault::EmptyEndpoint => e matches VaultError::Config(ConfigError::MissingField(m))
            && m@ == "endpoint"@,
        ConfigFault::NotHttpEndpoint => e matches VaultError::Config(
            ConfigError::InvalidValue(k, m),
        ) && k@ == "endpoint"@ && m@ == "must start with http/https for HTTP transport"@,
        ConfigFault::CertificateOverUnix => e matches VaultError::Config(
            ConfigError::InvalidValue(k, m),
        ) && k@ == "auth"@ && m@ == "certificate auth not supported with Unix transport"@,
        ConfigFault::MtlsWithoutCertificate => e matches VaultError::Config(
            ConfigError::MissingField(m),
        ) && m@ == "cert_file and key_file required for mTLS"@,
        ConfigFault::TokenWithoutFile => e matches VaultError::Config(ConfigError::MissingField(m))
            && m@ == "token_file required for token auth"@,
        ConfigFault::CertificateAuthWithoutFiles => e matches VaultError::Config(
            ConfigError::MissingField(m),
        ) && m@ == "cert_file and key_file required for certificate auth"@,
        ConfigFault::NoAuthOffLocalhost => e matches VaultError::Config(
            ConfigError::InvalidValue(k, m),
        ) && k@ == "auth"@ && m@ == "no auth only allowed for localhost"@,
    }
}

/// `t` is the name of a transport type.
pub open spec fn is_transport_name(t: Seq<char>) -> bool {
    t == "http"@ || t == "unix"@ || t == "mtls"@
}

/// `t` is the name of an authentication method.
pub open spec fn is_auth_method_name(t: Seq<char>) -> bool {
    t == "token"@ || t == "certificate"@ || t == "workload"@ || t == "none"@
}

/// Canonical text of a transport type.
pub open spec fn transport_text(t: TransportType) -> Seq<char> {
    match t {
        TransportType::Http => "http"@,
        TransportType::Unix => "unix"@,
        TransportType::Mtls => "mtls"@,
    }
}

/// Canonical text of an authentication method.
pub open spec fn auth_method_text(m: AuthMethod) -> Seq<char> {
    match m {
        AuthMethod::Token => "token"@,
        AuthMethod::Certificate => "certificate"@,
        AuthMethod::Workload => "workload"@,
        AuthMethod::NoAuth => "none"@,
    }
}

/// Whether `needle` occurs in `hay` at position `i`.
fn occurs_at_exec(hay: &str, n: usize, needle: &str, m: usize, i: usize) -> (r: bool)
    requires
        n == hay@.len(),
        m == needle@.len(),
        i <= n,
    ensures
        r == occurs_at(hay@, needle@, i as int),
{
    if m > n - i {
        return false;
    }
    let mut k: usize = 0;
    while k < m
        invariant
            n == hay@.len(),
            m == needle@.len(),
            i + m <= n,
            k <= m,
            forall|j: int| 0 <= j < k ==> hay@[i + j] == needle@[j],
        decreases m - k,
    {
        if hay.get_char(i + k) != needle.get_char(k) {
            assert(hay@.subrange(i as int, i + m)[k as int] != needle@[k as int]);
            return false;
        }
        k = k + 1;
    }
    assert(hay@.subrange(i as int, i + m) =~= needle@);
    true
}

/// Whether `needle` occurs somewhere in `hay`.
fn contains_text_exec(hay: &str, needle: &str) -> (r: bool)
    ensures
        r == contains_text(hay@, needle@),
{
    let n = hay.unicode_len();
    let m = needle.unicode_len();
    if m > n {
        return false;
    }
    if m == 0 {
        assert(hay@.subrange(0, 0) =~= needle@);
        assert(occurs_at(hay@, needle@, 0));
        return true;
    }
    let last = n - m;
    let mut i: usize = 0;
    while i <= last
        invariant
            n == hay@.len(),
            m == needle@.len(),
            last == n - m,
            last < n,
            i <= last + 1,
            forall|j: int| 0 <= j < i ==> !occurs_at(hay@, needle@, j),
        decreases last + 1 - i,
    {
        if occurs_at_exec(hay, n, needle, m, i) {
            return true;
        }
        i = i + 1;
    }
    false
}

fn config_error(field: &str) -> (e: VaultError)
    ensures
        e matches VaultError::Config(ConfigError::MissingField(m)) && m@ == field@,
{
    VaultError::Config(ConfigError::MissingField(String::from_str(field)))
}

fn invalid_value(field: &str, why: &str) -> (e: VaultError)
    ensures
        e matches VaultError::Config(ConfigError::InvalidValue(k, m)) && k@ == field@ && m@ == why@,
{
    VaultError::Config(ConfigError::InvalidValue(String::from_str(field), String::from_str(why)))
}

/// Checks a configuration: a non-empty endpoint; for HTTP an endpoint that
/// starts with `http`; for Unix sockets no certificate or key file; for mTLS
/// both; token authentication needs a token file, certificate authentication
/// both certificate files, and no authentication is allowed only towards
/// `localhost` or `127.0.0.1`. The first broken rule is reported.
pub fn validate_settings(
    endpoint: &str,
    transport: TransportType,
    method: AuthMethod,
    has_token_file: bool,
    has_cert_file: bool,
    has_key_file: bool,
) -> (r: Result<(), VaultError>)
    ensures
        r is Ok <==> config_fault(
            endpoint@,
            transport,
            method,
            has_token_file,
            has_cert_file,
            has_key_file,
        ) is None,
        r matches Err(e) ==> fault_error(
            e,
            config_fault(
                endpoint@,
                transport,
                method,
                has_token_file,
                has_cert_file,
                has_key_file,
            )->Some_0,
        ),
{
    let n = endpoint.unicode_len();
    if n == 0 {
        return Err(config_error("endpoint"));
    }
    match transport {
        TransportType::Http => {
            if !occurs_at_exec(endpoint, n, "http", "http".unicode_len(), 0) {
                return Err(
                    invalid_value("endpoint", "must start with http/https for HTTP transport"),
                );
            }
        },
        TransportType::Unix => {
            if has_cert_file || has_key_file {
                return Err(
                    invalid_value("auth", "certificate auth not supported with Unix transport"),
                );
            }
        },
        TransportType::Mtls => {
            if !has_cert_file || !has_key_file {
                return Err(config_error("cert_file and key_file required for mTLS"));
            }
        },
    }
    match method {
        AuthMethod::Token => {
            if !has_token_file {
                return Err(config_error("token_file required for token auth"));
            }
        },
        AuthMethod::Certificate => {
            if !has_cert_file || !has_key_file {
                return Err(config_error("cert_file and key_file required for certificate auth"));
            }
        },
        AuthMethod::Workload => {},
        AuthMethod::NoAuth => {
            if !contains_text_exec(endpoint, "localhost") && !contains_text_exec(
                endpoint,
                "127.0.0.1",
            ) {
                return Err(invalid_value("auth", "no auth only allowed for localhost"));
            }
        },
    }
    Ok(())
}

/// The effective endpoint URL: `unix:<endpoint>` for Unix sockets, the
/// endpoint itself otherwise.
pub fn endpoint_url(transport: TransportType, endpoint: &str) -> (r: String)
    ensures
        r@ == (if transport == TransportType::Unix {
            "unix:"@ + endpoint@
        } else {
            endpoint@
        }),
{
    match transport {
        TransportType::Unix => {
            let mut r = String::from_str("unix:");
            r.append(endpoint);
            r
        },
        _ => String::from_str(endpoint),
    }
}

impl TransportType {
    /// The transporttype whose name is exactly `l`, if any.
    pub fn from_lowercase(l: &str) -> (r: Option<TransportType>)
        ensures
            r is None <==> !is_transport_name(l@),
            r matches Some(x) ==> transport_text(x) == l@,
    {
        if same_text(l, "http") {
            Some(TransportType::Http)
        } else if same_text(l, "unix") {
            Some(TransportType::Unix)
        } else if same_text(l, "mtls") {
            Some(TransportType::Mtls)
        } else {
            None
        }
    }

    /// Parses a transport name (`http`, `unix`, `mtls`) by its lowercase
    /// form (`str::to_lowercase`).
    pub fn parse(s: &str) -> (r: Option<TransportType>)
        ensures
            r matches Some(t) ==> lower_of(s@) == transport_text(t),
            r is None ==> forall|t: TransportType| lower_of(s@) != #[trigger] transport_text(t),
    {
        let lower = lowercase(s);
        TransportType::from_lowercase(lower.as_str())
    }
}

impl AuthMethod {
    /// The authentication method whose name is exactly `l`, if any.
    pub fn from_lowercase(l: &str) -> (r: Option<AuthMethod>)
        ensures
            r is None <==> !is_auth_method_name(l@),
            r matches Some(x) ==> auth_method_text(x) == l@,
    {
        if same_text(l, "token") {
            Some(AuthMethod::Token)
        } else if same_text(l, "certificate") {
            Some(AuthMethod::Certificate)
        } else if same_text(l, "workload") {
            Some(AuthMethod::Workload)
        } else if same_text(l, "none") {
            Some(AuthMethod::NoAuth)
        } else {
            None
        }
    }

    /// Parses an authentication method name (`token`, `certificate`,
    /// `workload`, `none`) by its lowercase form (`str::to_lowercase`).
    pub fn parse(s: &str) -> (r: Option<AuthMethod>)
        ensures
            r matches Some(m) ==> lower_of(s@) == auth_method_text(m),
            r is None ==> forall|m: AuthMethod| lower_of(s@) != #[trigger] auth_method_text(m),
    {
        let lower = lowercase(s);
        AuthMethod::from_lowercase(lower.as_str())
    }
}

} // verus!
