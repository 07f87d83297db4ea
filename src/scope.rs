//! The scope of a capability: the domain of resources it governs and the
//! action it allows, with their canonical text forms.
//!
//! The canonical form of a fixed variant is its lowercase name; an open-ended
//! variant is written `custom:<name>`. Parsing compares the Unicode lowercase
//! form of the text with the fixed names, ignores ASCII case in the `custom:`
//! prefix, and keeps the custom name as written.

use vstd::prelude::*;
use vstd::string::*;
use crate::error::{CapabilityError, VaultError};

verus! {

/// Access domains.
#[derive(Debug, PartialEq, Eq, Hash)]
pub enum Domain {
    /// Database access
    Database,
    /// TLS certificates
    Tls,
    /// SMTP access
    Smtp,
    /// IMAP access
    Imap,
    /// Container registry
    Docker,
    /// Source control
    Git,
    /// File system access
    Filesystem,
    /// Cloud provider access
    Cloud,
    /// API access
    Api,
    /// SSH access
    Ssh,
    /// Custom domain
    Custom(String),
}

/// Access actions.
#[derive(Debug, PartialEq, Eq, Hash)]
pub enum Action {
    /// Read access
    Read,
    /// Write access
    Write,
    /// Delete access
    Delete,
    /// Execute access
    Execute,
    /// List access
    List,
    /// Admin access
    Admin,
    /// Create access
    Create,
    /// Update access
    Update,
    /// Custom action
    Custom(String),
}

impl Clone for Domain {
    fn clone(&self) -> (r: Self)
        ensures
            r == *self,
    {
        match self {
            Domain::Database => Domain::Database,
            Domain::Tls => Domain::Tls,
            Domain::Smtp => Domain::Smtp,
            Domain::Imap => Domain::Imap,
            Domain::Docker => Domain::Docker,
            Domain::Git => Domain::Git,
            Domain::Filesystem => Domain::Filesystem,
            Domain::Cloud => Domain::Cloud,
            Domain::Api => Domain::Api,
            Domain::Ssh => Domain::Ssh,
            Domain::Custom(n) => Domain::Custom(n.clone()),
        }
    }
}

impl Clone for Action {
    fn clone(&self) -> (r: Self)
        ensures
            r == *self,
    {
        match self {
            Action::Read => Action::Read,
            Action::Write => Action::Write,
            Action::Delete => Action::Delete,
            Action::Execute => Action::Execute,
            Action::List => Action::List,
            Action::Admin => Action::Admin,
            Action::Create => Action::Create,
            Action::Update => Action::Update,
            Action::Custom(n) => Action::Custom(n.clone()),
        }
    }
}

/// `c` equals the lowercase character `l` once ASCII case is ignored.
pub open spec fn char_matches(c: char, l: char) -> bool {
    c == l || ('a' <= l <= 'z' && c as u32 + 32 == l as u32)
}

/// `s` starts with the lowercase text `lit`, ASCII case ignored.
pub open spec fn has_prefix_ignore_case(s: Seq<char>, lit: Seq<char>) -> bool {
    &&& lit.len() <= s.len()
    &&& forall|i: int| 0 <= i < lit.len() ==> char_matches(#[trigger] s[i], lit[i])
}

/// The prefix that marks an open-ended domain or action.
pub open spec fn custom_prefix() -> Seq<char> {
    "custom:"@
}

/// Canonical text of a domain.
pub open spec fn domain_text(d: Domain) -> Seq<char> {
    match d {
        Domain::Database => "database"@,
        Domain::Tls => "tls"@,
        Domain::Smtp => "smtp"@,
        Domain::Imap => "imap"@,
        Domain::Docker => "docker"@,
        Domain::Git => "git"@,
        Domain::Filesystem => "filesystem"@,
        Domain::Cloud => "cloud"@,
        Domain::Api => "api"@,
        Domain::Ssh => "ssh"@,
        Domain::Custom(n) => custom_prefix() + n@,
    }
}

/// Canonical text of an action.
pub open spec fn action_text(a: Action) -> Seq<char> {
    match a {
        Action::Read => "read"@,
        Action::Write => "write"@,
        Action::Delete => "delete"@,
        Action::Execute => "execute"@,
        Action::List => "list"@,
        Action::Admin => "admin"@,
        Action::Create => "create"@,
        Action::Update => "update"@,
        Action::Custom(n) => custom_prefix() + n@,
    }
}

/// What `str::to_lowercase` returns for a text: its Unicode lowercase form.
pub uninterp spec fn lower_of(s: Seq<char>) -> Seq<char>;

/// `t` is the name of one of the fixed domains.
pub open spec fn is_fixed_domain_name(t: Seq<char>) -> bool {
    t == "database"@
        || t == "tls"@
        || t == "smtp"@
        || t == "imap"@
        || t == "docker"@
        || t == "git"@
        || t == "filesystem"@
        || t == "cloud"@
        || t == "api"@
        || t == "ssh"@
}

/// `t` is the name of one of the fixed actions.
pub open spec fn is_fixed_action_name(t: Seq<char>) -> bool {
    t == "read"@
        || t == "write"@
        || t == "delete"@
        || t == "execute"@
        || t == "list"@
        || t == "admin"@
        || t == "create"@
        || t == "update"@
}

/// `s` is accepted as the text of a domain: it starts with `custom:`, ASCII
/// case ignored, or its lowercase form is the name of a fixed domain.
pub open spec fn is_domain_text(s: Seq<char>) -> bool {
    has_prefix_ignore_case(s, custom_prefix()) || is_fixed_domain_name(lower_of(s))
}

/// `s` is accepted as the text of an action (see `is_domain_text`).
pub open spec fn is_action_text(s: Seq<char>) -> bool {
    has_prefix_ignore_case(s, custom_prefix()) || is_fixed_action_name(lower_of(s))
}

/// Parsing `s` gives the domain `d`: when `s` starts with `custom:` (ASCII
/// case ignored) `d` is the custom domain named by the rest of `s`, case
/// kept; otherwise the lowercase form of `s` is `d`'s name.
pub open spec fn domain_parses_as(s: Seq<char>, d: Domain) -> bool {
    match d {
        Domain::Custom(n) => has_prefix_ignore_case(s, custom_prefix()) && n@ == s.skip(7),
        _ => !has_prefix_ignore_case(s, custom_prefix()) && lower_of(s) == domain_text(d),
    }
}

/// Parsing `s` gives the action `a` (see `domain_parses_as`).
pub open spec fn action_parses_as(s: Seq<char>, a: Action) -> bool {
    match a {
        Action::Custom(n) => has_prefix_ignore_case(s, custom_prefix()) && n@ == s.skip(7),
        _ => !has_prefix_ignore_case(s, custom_prefix()) && lower_of(s) == action_text(a),
    }
}

proof fn lemma_custom_text_prefix(n: Seq<char>)
    ensures
        has_prefix_ignore_case(custom_prefix() + n, custom_prefix()),
        (custom_prefix() + n).skip(7) == n,
{
    reveal_strlit("custom:");
    assert((custom_prefix() + n).skip(7) =~= n);
}

proof fn lemma_fixed_names_not_custom()
    ensures
        !has_prefix_ignore_case("database"@, custom_prefix()),
        !has_prefix_ignore_case("tls"@, custom_prefix()),
        !has_prefix_ignore_case("smtp"@, custom_prefix()),
        !has_prefix_ignore_case("imap"@, custom_prefix()),
        !has_prefix_ignore_case("docker"@, custom_prefix()),
        !has_prefix_ignore_case("git"@, custom_prefix()),
        !has_prefix_ignore_case("filesystem"@, custom_prefix()),
        !has_prefix_ignore_case("cloud"@, custom_prefix()),
        !has_prefix_ignore_case("api"@, custom_prefix()),
        !has_prefix_ignore_case("ssh"@, custom_prefix()),
        !has_prefix_ignore_case("read"@, custom_prefix()),
        !has_prefix_ignore_case("write"@, custom_prefix()),
        !has_prefix_ignore_case("delete"@, custom_prefix()),
        !has_prefix_ignore_case("execute"@, custom_prefix()),
        !has_prefix_ignore_case("list"@, custom_prefix()),
        !has_prefix_ignore_case("admin"@, custom_prefix()),
        !has_prefix_ignore_case("create"@, custom_prefix()),
        !has_prefix_ignore_case("update"@, custom_prefix()),
{
    reveal_strlit("custom:");
    reveal_strlit("database");
    reveal_strlit("tls");
    reveal_strlit("smtp");
    reveal_strlit("imap");
    reveal_strlit("docker");
    reveal_strlit("git");
    reveal_strlit("filesystem");
    reveal_strlit("cloud");
    reveal_strlit("api");
    reveal_strlit("ssh");
    reveal_strlit("read");
    reveal_strlit("write");
    reveal_strlit("delete");
    reveal_strlit("execute");
    reveal_strlit("list");
    reveal_strlit("admin");
    reveal_strlit("create");
    reveal_strlit("update");
    assert(custom_prefix()[0] == 'c');
    assert(!char_matches("database"@[0], custom_prefix()[0]));
    assert(!char_matches("filesystem"@[0], custom_prefix()[0]));
    assert(!char_matches("execute"@[0], custom_prefix()[0]));
}

/// The canonical text of every domain parses back to that domain; for a
/// fixed domain, given that lowercasing leaves its name as it is.
pub proof fn lemma_domain_text_round_trip(d: Domain)
    ensures
        (d is Custom || lower_of(domain_text(d)) == domain_text(d)) ==> is_domain_text(
            domain_text(d),
        ) && domain_parses_as(domain_text(d), d),
{
    lemma_fixed_names_not_custom();
    match d {
        Domain::Custom(n) => {
            lemma_custom_text_prefix(n@);
        },
        _ => {},
    }
}

/// The canonical text of every action parses back to that action; for a
/// fixed action, given that lowercasing leaves its name as it is.
pub proof fn lemma_action_text_round_trip(a: Action)
    ensures
        (a is Custom || lower_of(action_text(a)) == action_text(a)) ==> is_action_text(
            action_text(a),
        ) && action_parses_as(action_text(a), a),
{
    lemma_fixed_names_not_custom();
    match a {
        Action::Custom(n) => {
            lemma_custom_text_prefix(n@);
        },
        _ => {},
    }
}

/// Parsing a text gives at most one domain: any two domains that the same
/// text parses as have the same canonical text.
pub proof fn lemma_domain_parse_unique(s: Seq<char>, d1: Domain, d2: Domain)
    requires
        domain_parses_as(s, d1),
        domain_parses_as(s, d2),
    ensures
        domain_text(d1) == domain_text(d2),
{
}

/// Parsing a text gives at most one action: any two actions that the same
/// text parses as have the same canonical text.
pub proof fn lemma_action_parse_unique(s: Seq<char>, a1: Action, a2: Action)
    requires
        action_parses_as(s, a1),
        action_parses_as(s, a2),
    ensures
        action_text(a1) == action_text(a2),
{
}

/// The lowercase form of `s`.
///
/// Relies on `str::to_lowercase`: the result depends on the characters of
/// `s` alone.
#[verifier::external_body]
pub(crate) fn lowercase(s: &str) -> (r: String)
    ensures
        r@ == lower_of(s@),
{
    s.to_lowercase()
}

/// Whether two texts are equal.
pub(crate) fn same_text(a: &str, b: &str) -> (r: bool)
    ensures
        r == (a@ == b@),
{
    let n = a.unicode_len();
    if n != b.unicode_len() {
        return false;
    }
    let mut i: usize = 0;
    while i < n
        invariant
            n == a@.len(),
            n == b@.len(),
            i <= n,
            forall|j: int| 0 <= j < i ==> a@[j] == b@[j],
        decreases n - i,
    {
        if a.get_char(i) != b.get_char(i) {
            return false;
        }
        i = i + 1;
    }
    assert(a@ =~= b@);
    true
}

/// Whether `s` starts with the lowercase text `lit`, ASCII case ignored.
fn starts_with_ignore_case(s: &str, lit: &str) -> (r: bool)
    ensures
        r == has_prefix_ignore_case(s@, lit@),
{
    let n = s.unicode_len();
    let m = lit.unicode_len();
    if m > n {
        return false;
    }
    let mut i: usize = 0;
    while i < m
        invariant
            m == lit@.len(),
            n == s@.len(),
            m <= n,
            i <= m,
            forall|j: int| 0 <= j < i ==> char_matches(#[trigger] s@[j], lit@[j]),
        decreases m - i,
    {
        let c = s.get_char(i);
        let l = lit.get_char(i);
        let same = c == l || ('a' <= l && l <= 'z' && (c as u32) + 32 == l as u32);
        if !same {
            return false;
        }
        i = i + 1;
    }
    true
}

/// The custom name that follows the `custom:` prefix of `s`.
fn custom_name(s: &str) -> (r: String)
    requires
        has_prefix_ignore_case(s@, custom_prefix()),
    ensures
        r@ == s@.skip(7),
{
    proof {
        reveal_strlit("custom:");
    }
    let n = s.unicode_len();
    let rest = s.substring_char(7, n);
    String::from_str(rest)
}

impl Domain {
    /// The domain whose name is exactly `l`, if any.
    pub fn from_lowercase(l: &str) -> (r: Option<Domain>)
        ensures
            r is None <==> !is_fixed_domain_name(l@),
            r matches Some(x) ==> domain_text(x) == l@ && !(x is Custom),
    {
        if same_text(l, "database") {
            Some(Domain::Database)
        } else if same_text(l, "tls") {
            Some(Domain::Tls)
        } else if same_text(l, "smtp") {
            Some(Domain::Smtp)
        } else if same_text(l, "imap") {
            Some(Domain::Imap)
        } else if same_text(l, "docker") {
            Some(Domain::Docker)
        } else if same_text(l, "git") {
            Some(Domain::Git)
        } else if same_text(l, "filesystem") {
            Some(Domain::Filesystem)
        } else if same_text(l, "cloud") {
            Some(Domain::Cloud)
        } else if same_text(l, "api") {
            Some(Domain::Api)
        } else if same_text(l, "ssh") {
            Some(Domain::Ssh)
        } else {
            None
        }
    }

    /// Parses a domain from its text: `custom:<name>` with the prefix in any
    /// ASCII case and the name kept as written, or a text whose lowercase
    /// form (`str::to_lowercase`) is a fixed name. A text that starts with
    /// `custom:` lowercases to no fixed name, so testing it first changes
    /// nothing.
    pub fn parse(s: &str) -> (r: Result<Domain, VaultError>)
        ensures
            r is Ok <==> is_domain_text(s@),
            r matches Ok(x) ==> domain_parses_as(s@, x),
            r matches Err(e) ==> e matches VaultError::Capability(
                CapabilityError::InvalidDomain(m),
            ) && m@ == s@,
    {
        if starts_with_ignore_case(s, "custom:") {
            return Ok(Domain::Custom(custom_name(s)));
        }
        let lower = lowercase(s);
        match Domain::from_lowercase(lower.as_str()) {
            Some(x) => Ok(x),
            None => Err(VaultError::Capability(CapabilityError::InvalidDomain(String::from_str(s)))),
        }
    }

    /// The names of the fixed domains.
    pub fn standard_domains() -> (r: Vec<&'static str>)
        ensures
            r@.len() == 10,
            r@[0]@ == "database"@ && r@[1]@ == "tls"@ && r@[2]@ == "smtp"@ && r@[3]@ == "imap"@
                && r@[4]@ == "docker"@ && r@[5]@ == "git"@ && r@[6]@ == "filesystem"@ && r@[7]@
                == "cloud"@ && r@[8]@ == "api"@ && r@[9]@ == "ssh"@,
    {
        vec!["database", "tls", "smtp", "imap", "docker", "git", "filesystem", "cloud", "api", "ssh"]
    }

    /// The canonical text of this domain.
    pub fn to_string(&self) -> (r: String)
        ensures
            r@ == domain_text(*self),
    {
        match self {
            Domain::Database => String::from_str("database"),
            Domain::Tls => String::from_str("tls"),
            Domain::Smtp => String::from_str("smtp"),
            Domain::Imap => String::from_str("imap"),
            Domain::Docker => String::from_str("docker"),
            Domain::Git => String::from_str("git"),
            Domain::Filesystem => String::from_str("filesystem"),
            Domain::Cloud => String::from_str("cloud"),
            Domain::Api => String::from_str("api"),
            Domain::Ssh => String::from_str("ssh"),
            Domain::Custom(n) => {
                let mut r = String::from_str("custom:");
                r.append(n.as_str());
                r
            },
        }
    }
}

impl Action {
    /// The action whose name is exactly `l`, if any.
    pub fn from_lowercase(l: &str) -> (r: Option<Action>)
        ensures
            r is None <==> !is_fixed_action_name(l@),
            r matches Some(x) ==> action_text(x) == l@ && !(x is Custom),
    {
        if same_text(l, "read") {
            Some(Action::Read)
        } else if same_text(l, "write") {
            Some(Action::Write)
        } else if same_text(l, "delete") {
            Some(Action::Delete)
        } else if same_text(l, "execute") {
            Some(Action::Execute)
        } else if same_text(l, "list") {
            Some(Action::List)
        } else if same_text(l, "admin") {
            Some(Action::Admin)
        } else if same_text(l, "create") {
            Some(Action::Create)
        } else if same_text(l, "update") {
            Some(Action::Update)
        } else {
            None
        }
    }

    /// Parses an action from its text: `custom:<name>` with the prefix in any
    /// ASCII case and the name kept as written, or a text whose lowercase
    /// form (`str::to_lowercase`) is a fixed name.
    pub fn parse(s: &str) -> (r: Result<Action, VaultError>)
        ensures
            r is Ok <==> is_action_text(s@),
            r matches Ok(x) ==> action_parses_as(s@, x),
            r matches Err(e) ==> e matches VaultError::Capability(
                CapabilityError::InvalidAction(m),
            ) && m@ == s@,
    {
        if starts_with_ignore_case(s, "custom:") {
            return Ok(Action::Custom(custom_name(s)));
        }
        let lower = lowercase(s);
        match Action::from_lowercase(lower.as_str()) {
            Some(x) => Ok(x),
            None => Err(VaultError::Capability(CapabilityError::InvalidAction(String::from_str(s)))),
        }
    }

    /// The names of the fixed actions.
    pub fn standard_actions() -> (r: Vec<&'static str>)
        ensures
            r@.len() == 8,
            r@[0]@ == "read"@ && r@[1]@ == "write"@ && r@[2]@ == "delete"@ && r@[3]@
                == "execute"@ && r@[4]@ == "list"@ && r@[5]@ == "admin"@ && r@[6]@ == "create"@
                && r@[7]@ == "update"@,
    {
        vec!["read", "write", "delete", "execute", "list", "admin", "create", "update"]
    }

    /// The canonical text of this action.
    pub fn to_string(&self) -> (r: String)
        ensures
            r@ == action_text(*self),
    {
        match self {
            Action::Read => String::from_str("read"),
            Action::Write => String::from_str("write"),
            Action::Delete => String::from_str("delete"),
            Action::Execute => String::from_str("execute"),
            Action::List => String::from_str("list"),
            Action::Admin => String::from_str("admin"),
            Action::Create => String::from_str("create"),
            Action::Update => String::from_str("update"),
            Action::Custom(n) => {
                let mut r = String::from_str("custom:");
                r.append(n.as_str());
                r
            },
        }
    }
}

} // verus!
