//! Capability tokens: their data, the validity predicate that gates every
//! protected access, and usage accounting.

use vstd::prelude::*;
use vstd::string::*;
use crate::clock::{CLOCK_MAX_MS, CLOCK_MIN_MS, new_token_id, now_millis};
use crate::error::{CapabilityError, VaultError};
use crate::names::NameSet;
use crate::scope::{Action, Domain, action_text, domain_text};

verus! {

/// Shortest TTL that a request may ask for: ten seconds, in nanoseconds.
pub const MIN_TTL_NS: u64 = 10_000_000_000;

/// Longest TTL that a request may ask for: 24 hours, in nanoseconds.
pub const MAX_TTL_NS: u64 = 86_400_000_000_000;

/// Length of a day in milliseconds.
pub const DAY_MS: i64 = 86_400_000;

/// Usage limits of a token.
#[derive(Debug, Clone, Copy, PartialEq, Eq)]
pub struct UsageLimits {
    /// Maximum number of uses.
    pub max_uses: Option<u32>,
    /// Uses allowed per window: the count and the window length in
    /// milliseconds. Reserved: the validity check does not enforce it.
    pub uses_per_window: Option<(u32, i64)>,
    /// Number of uses recorded so far.
    pub current_uses: u32,
}

/// Time window in which a token may be used.
#[derive(Debug, PartialEq, Eq)]
pub struct TimeWindow {
    /// Start of the window (ms since the epoch).
    pub start: i64,
    /// End of the window (ms since the epoch).
    pub end: i64,
    /// Allowed days of the week (0 = Sunday, 6 = Saturday).
    pub days_of_week: Option<Vec<u8>>,
}

/// Context constraints of a token. An absent constraint admits every value;
/// a present but empty name set admits none.
#[derive(Debug, PartialEq, Eq)]
pub struct CapabilityContext {
    /// Allowed environments.
    pub environments: Option<NameSet>,
    /// Allowed services.
    pub services: Option<NameSet>,
    /// Allowed namespaces.
    pub namespaces: Option<NameSet>,
    /// Address or CIDR constraints, matched by the transport.
    pub ip_constraints: Option<Vec<String>>,
    /// Time window constraint.
    pub time_window: Option<TimeWindow>,
    /// Usage limits.
    pub usage_limits: Option<UsageLimits>,
}

/// A capability token: one action on one target for a bounded time.
#[derive(Debug, PartialEq, Eq)]
pub struct Capability {
    /// Unique identifier (the 128-bit value of a UUID).
    pub id: u128,
    /// Domain of access.
    pub domain: Domain,
    /// Action allowed.
    pub action: Action,
    /// Target resource.
    pub target: String,
    /// Context constraints.
    pub context: CapabilityContext,
    /// Issue instant (ms since the epoch).
    pub issued_at: i64,
    /// Expiry instant (ms since the epoch).
    pub expires_at: i64,
    /// Issuer identity.
    pub issuer: String,
    /// Subject identity.
    pub subject: String,
    /// Signature bytes, filled by the broker.
    pub signature: Vec<u8>,
}

/// A request for a new capability, before the broker signs it.
#[derive(Debug, PartialEq, Eq)]
pub struct CapabilityRequest {
    /// Domain of access.
    pub domain: Domain,
    /// Action requested.
    pub action: Action,
    /// Target resource.
    pub target: String,
    /// Request context.
    pub context: CapabilityContext,
    /// Requested TTL in nanoseconds.
    pub ttl: u64,
    /// Justification for access.
    pub justification: Option<String>,
}

/// Model of a time window.
pub ghost struct TimeWindowView {
    pub start: i64,
    pub end: i64,
    pub days_of_week: Option<Seq<u8>>,
}

/// Model of the context constraints.
pub ghost struct ContextView {
    pub environments: Option<Set<Seq<char>>>,
    pub services: Option<Set<Seq<char>>>,
    pub namespaces: Option<Set<Seq<char>>>,
    pub ip_constraints: Option<Seq<Seq<char>>>,
    pub time_window: Option<TimeWindowView>,
    pub usage_limits: Option<UsageLimits>,
}

/// Model of a token; the domain and action are held as their canonical text.
pub ghost struct CapabilityView {
    pub id: u128,
    pub domain: Seq<char>,
    pub action: Seq<char>,
    pub target: Seq<char>,
    pub context: ContextView,
    pub issued_at: i64,
    pub expires_at: i64,
    pub issuer: Seq<char>,
    pub subject: Seq<char>,
    pub signature: Seq<u8>,
}

pub open spec fn names_view(o: Option<NameSet>) -> Option<Set<Seq<char>>> {
    match o {
        Some(s) => Some(s@),
        None => None,
    }
}

pub open spec fn strings_view(o: Option<Vec<String>>) -> Option<Seq<Seq<char>>> {
    match o {
        Some(v) => Some(v@.map_values(|s: String| s@)),
        None => None,
    }
}

pub open spec fn bytes_view(o: Option<Vec<u8>>) -> Option<Seq<u8>> {
    match o {
        Some(v) => Some(v@),
        None => None,
    }
}

impl View for TimeWindow {
    type V = TimeWindowView;

    open spec fn view(&self) -> TimeWindowView {
        TimeWindowView {
            start: self.start,
            end: self.end,
            days_of_week: bytes_view(self.days_of_week),
        }
    }
}

pub open spec fn window_view(o: Option<TimeWindow>) -> Option<TimeWindowView> {
    match o {
        Some(w) => Some(w@),
        None => None,
    }
}

impl View for CapabilityContext {
    type V = ContextView;

    open spec fn view(&self) -> ContextView {
        ContextView {
            environments: names_view(self.environments),
            services: names_view(self.services),
            namespaces: names_view(self.namespaces),
            ip_constraints: strings_view(self.ip_constraints),
            time_window: window_view(self.time_window),
            usage_limits: self.usage_limits,
        }
    }
}

impl View for Capability {
    type V = CapabilityView;

    open spec fn view(&self) -> CapabilityView {
        CapabilityView {
            id: self.id,
            domain: domain_text(self.domain),
            action: action_text(self.action),
            target: self.target@,
            context: self.context@,
            issued_at: self.issued_at,
            expires_at: self.expires_at,
            issuer: self.issuer@,
            subject: self.subject@,
            signature: self.signature@,
        }
    }
}

/// Day of the week of an instant, 0 = Sunday (1970-01-01 was a Thursday).
pub open spec fn weekday_of(now: i64) -> int {
    (now as int / DAY_MS as int + 4) % 7
}

/// An absent name set admits every value; a present one admits its members.
pub open spec fn admits(set: Option<Set<Seq<char>>>, value: Seq<char>) -> bool {
    match set {
        Some(s) => s.contains(value),
        None => true,
    }
}

impl TimeWindowView {
    /// The window holds `now`, and so does its weekday filter if it has one.
    pub open spec fn allows(self, now: i64) -> bool {
        &&& self.start <= now <= self.end
        &&& match self.days_of_week {
            Some(days) => days.contains(weekday_of(now) as u8),
            None => true,
        }
    }
}

/// The usage limits leave at least one use.
pub open spec fn uses_left(limits: Option<UsageLimits>) -> bool {
    match limits {
        Some(l) => match l.max_uses {
            Some(m) => l.current_uses < m,
            None => true,
        },
        None => true,
    }
}

/// The next recorded use stays within the limits.
pub open spec fn use_allowed(limits: Option<UsageLimits>) -> bool {
    match limits {
        Some(l) => l.current_uses < u32::MAX && match l.max_uses {
            Some(m) => l.current_uses + 1 <= m,
            None => true,
        },
        None => true,
    }
}

/// The limits after one recorded use: the counter goes up by one unless it
/// is already at its largest value.
pub open spec fn limits_after_use(limits: Option<UsageLimits>) -> Option<UsageLimits> {
    match limits {
        Some(l) => if l.current_uses < u32::MAX {
            Some(UsageLimits { current_uses: (l.current_uses + 1) as u32, ..l })
        } else {
            Some(l)
        },
        None => None,
    }
}

/// The limits after a recorded use is given back: the counter goes down by
/// one unless it is zero.
pub open spec fn limits_after_release(limits: Option<UsageLimits>) -> Option<UsageLimits> {
    match limits {
        Some(l) => if l.current_uses > 0 {
            Some(UsageLimits { current_uses: (l.current_uses - 1) as u32, ..l })
        } else {
            Some(l)
        },
        None => None,
    }
}

impl CapabilityView {
    /// Well-formed: the token expires after it was issued.
    pub open spec fn wf(self) -> bool {
        self.issued_at < self.expires_at
    }

    /// The token authorizes use at `now`: it has not expired, the time window
    /// (if any) allows `now`, and the usage cap (if any) is not spent.
    pub open spec fn valid_at(self, now: i64) -> bool {
        &&& now <= self.expires_at
        &&& match self.context.time_window {
            Some(w) => w.allows(now),
            None => true,
        }
        &&& uses_left(self.context.usage_limits)
    }

    /// The token is valid at `now` and admits the given environment, service
    /// and namespace.
    pub open spec fn valid_for_context(
        self,
        environment: Seq<char>,
        service: Seq<char>,
        namespace: Seq<char>,
        now: i64,
    ) -> bool {
        &&& self.valid_at(now)
        &&& admits(self.context.environments, environment)
        &&& admits(self.context.services, service)
        &&& admits(self.context.namespaces, namespace)
    }

    /// The token after one recorded use.
    pub open spec fn after_use(self) -> CapabilityView {
        CapabilityView {
            context: ContextView {
                usage_limits: limits_after_use(self.context.usage_limits),
                ..self.context
            },
            ..self
        }
    }

    /// The token after one recorded use is given back.
    pub open spec fn after_release(self) -> CapabilityView {
        CapabilityView {
            context: ContextView {
                usage_limits: limits_after_release(self.context.usage_limits),
                ..self.context
            },
            ..self
        }
    }

    /// The time left at `now`, if any.
    pub open spec fn remaining_at(self, now: i64) -> Option<u64> {
        if now < self.expires_at {
            Some((self.expires_at - now) as u64)
        } else {
            None
        }
    }
}

impl Clone for TimeWindow {
    fn clone(&self) -> (r: Self)
        ensures
            r@ == self@,
    {
        let days = match &self.days_of_week {
            Some(d) => {
                let c = d.clone();
                assert(c@ =~= d@);
                Some(c)
            },
            None => None,
        };
        TimeWindow { start: self.start, end: self.end, days_of_week: days }
    }
}

fn clone_names(o: &Option<NameSet>) -> (r: Option<NameSet>)
    ensures
        names_view(r) == names_view(*o),
{
    match o {
        Some(s) => Some(s.clone()),
        None => None,
    }
}

fn clone_strings(o: &Option<Vec<String>>) -> (r: Option<Vec<String>>)
    ensures
        strings_view(r) == strings_view(*o),
{
    match o {
        Some(v) => {
            let c = v.clone();
            assert(c@.map_values(|s: String| s@) =~= v@.map_values(|s: String| s@));
            Some(c)
        },
        None => None,
    }
}

impl Clone for CapabilityContext {
    fn clone(&self) -> (r: Self)
        ensures
            r@ == self@,
    {
        let time_window = match &self.time_window {
            Some(w) => Some(w.clone()),
            None => None,
        };
        CapabilityContext {
            environments: clone_names(&self.environments),
            services: clone_names(&self.services),
            namespaces: clone_names(&self.namespaces),
            ip_constraints: clone_strings(&self.ip_constraints),
            time_window,
            usage_limits: self.usage_limits,
        }
    }
}

impl Clone for Capability {
    fn clone(&self) -> (r: Self)
        ensures
            r@ == self@,
    {
        let signature = self.signature.clone();
        assert(signature@ =~= self.signature@);
        Capability {
            id: self.id,
            domain: self.domain.clone(),
            action: self.action.clone(),
            target: self.target.clone(),
            context: self.context.clone(),
            issued_at: self.issued_at,
            expires_at: self.expires_at,
            issuer: self.issuer.clone(),
            subject: self.subject.clone(),
            signature,
        }
    }
}

/// The token after `k` recorded uses.
pub open spec fn uses_applied(v: CapabilityView, k: nat) -> CapabilityView
    decreases k,
{
    if k == 0 {
        v
    } else {
        uses_applied(v, (k - 1) as nat).after_use()
    }
}

/// A token is never valid after its expiry; with no time window and no usage
/// limits it is valid at every instant before its expiry.
pub proof fn lemma_expiry_monotone(v: CapabilityView, now: i64)
    ensures
        now > v.expires_at ==> !v.valid_at(now),
        v.context.time_window is None && v.context.usage_limits is None && now < v.expires_at
            ==> v.valid_at(now),
{
}

/// For each of environments, services and namespaces: an absent set admits
/// every value, a present set admits exactly its members, so an empty set
/// admits none.
pub proof fn lemma_context_sets(
    v: CapabilityView,
    environment: Seq<char>,
    service: Seq<char>,
    namespace: Seq<char>,
    now: i64,
)
    requires
        v.valid_at(now),
        v.context.services is None,
        v.context.namespaces is None,
    ensures
        v.context.environments is None ==> v.valid_for_context(environment, service, namespace, now),
        v.context.environments == Some(Set::<Seq<char>>::empty()) ==> !v.valid_for_context(
            environment,
            service,
            namespace,
            now,
        ),
        v.context.environments matches Some(s) ==> (v.valid_for_context(
            environment,
            service,
            namespace,
            now,
        ) <==> s.contains(environment)),
{
}

/// Counting uses one at a time: from a fresh counter with `max_uses = n`, the
/// first `n` uses are accepted, the next one is refused, and after `k` uses
/// (up to `n + 1`) the counter reads exactly `k`. Each
/// `CapabilityStore::record_use` or `authorize_access` on a held token
/// applies exactly one such step to it under `&mut`, so `n` of them in any
/// order succeed and leave the counter at `n`; one more is refused, by
/// `authorize_access` with the store unchanged.
pub proof fn lemma_usage_cap(v: CapabilityView, n: u32)
    requires
        v.context.usage_limits matches Some(l) && l.max_uses == Some(n) && l.current_uses == 0,
        n < u32::MAX,
    ensures
        forall|k: nat| k < n ==> use_allowed(#[trigger] uses_applied(v, k).context.usage_limits),
        !use_allowed(uses_applied(v, n as nat).context.usage_limits),
        forall|k: nat|
            k <= n + 1 ==> ((#[trigger] uses_applied(v, k).context.usage_limits) matches Some(l2)
                && l2.current_uses == k && l2.max_uses == Some(n)),
{
    assert forall|k: nat| k <= n + 1 implies ((#[trigger] uses_applied(v, k).context.usage_limits) matches Some(l2)
        && l2.current_uses == k && l2.max_uses == Some(n)) by {
        lemma_uses_count(v, n, k);
    }
    assert forall|k: nat| k < n implies use_allowed(#[trigger] uses_applied(v, k).context.usage_limits) by {
        lemma_uses_count(v, n, k);
    }
    lemma_uses_count(v, n, n as nat);
}

/// Giving back a recorded use restores the token as it was before the use.
pub proof fn lemma_release_undoes_use(v: CapabilityView)
    requires
        use_allowed(v.context.usage_limits),
    ensures
        v.after_use().after_release() == v,
{
    match v.context.usage_limits {
        Some(l) => {
            assert(v.after_use().after_release().context.usage_limits == v.context.usage_limits);
            assert(v.after_use().after_release().context == v.context);
        },
        None => {
            assert(v.after_use().after_release().context == v.context);
        },
    }
}

/// A freshly issued token with no time window and no usage limits is valid
/// from its issue instant up to its expiry, has `ttl` left when issued, and
/// is no longer valid, with no time left, at every later instant.
pub proof fn lemma_issued_lifetime(v: CapabilityView, ttl: u64, later: i64)
    requires
        v.expires_at == v.issued_at + ttl,
        ttl > 0,
        v.context.time_window is None,
        v.context.usage_limits is None,
        later > v.expires_at,
    ensures
        v.valid_at(v.issued_at),
        v.remaining_at(v.issued_at) == Some(ttl),
        !v.valid_at(later),
        v.remaining_at(later) is None,
{
}

proof fn lemma_uses_count(v: CapabilityView, n: u32, k: nat)
    requires
        v.context.usage_limits matches Some(l) && l.max_uses == Some(n) && l.current_uses == 0,
        n < u32::MAX,
        k <= n + 1,
    ensures
        uses_applied(v, k).context.usage_limits matches Some(l2) && l2.current_uses == k
            && l2.max_uses == Some(n),
        uses_applied(v, k).expires_at == v.expires_at,
        uses_applied(v, k).context.time_window == v.context.time_window,
    decreases k,
{
    if k > 0 {
        lemma_uses_count(v, n, (k - 1) as nat);
    }
}

/// The day of the week of `now`, 0 = Sunday.
fn weekday(now: i64) -> (r: u8)
    ensures
        r as int == weekday_of(now),
{
    let days: i64 = match now.checked_div_euclid(DAY_MS) {
        Some(d) => d,
        None => 0,
    };
    let w: i64 = match (days + 4).checked_rem_euclid(7) {
        Some(w) => w,
        None => 0,
    };
    w as u8
}

fn bytes_contain(v: &Vec<u8>, x: u8) -> (r: bool)
    ensures
        r == v@.contains(x),
{
    let mut i: usize = 0;
    while i < v.len()
        invariant
            i <= v@.len(),
            forall|j: int| 0 <= j < i ==> v@[j] != x,
        decreases v@.len() - i,
    {
        if v[i] == x {
            return true;
        }
        i = i + 1;
    }
    false
}

fn admits_name(set: &Option<NameSet>, value: &str) -> (r: bool)
    ensures
        r == admits(names_view(*set), value@),
{
    match set {
        Some(s) => s.contains(value),
        None => true,
    }
}

fn invalid_format(msg: &str) -> (e: VaultError)
    ensures
        e matches VaultError::Capability(CapabilityError::InvalidFormat(m)) && m@ == msg@,
{
    VaultError::Capability(CapabilityError::InvalidFormat(String::from_str(msg)))
}

fn scope_mismatch(msg: &str) -> (e: VaultError)
    ensures
        e matches VaultError::Capability(CapabilityError::ScopeMismatch(m)) && m@ == msg@,
{
    VaultError::Capability(CapabilityError::ScopeMismatch(String::from_str(msg)))
}

impl Capability {
    /// Builds a token with the given identifier, issued at `now` and expiring
    /// `ttl_ms` later, with an empty signature. Fails with `InvalidFormat` when
    /// the TTL is zero (the token would expire as it is issued) or the expiry
    /// does not fit in an instant.
    pub fn issue(
        id: u128,
        now: i64,
        domain: Domain,
        action: Action,
        target: String,
        context: CapabilityContext,
        ttl_ms: u64,
        issuer: String,
        subject: String,
    ) -> (r: Result<Capability, VaultError>)
        ensures
            r is Ok <==> (ttl_ms > 0 && now + ttl_ms <= i64::MAX),
            r matches Ok(c) ==> {
                &&& c.id == id
                &&& c.domain == domain
                &&& c.action == action
                &&& c.target == target
                &&& c.context == context
                &&& c.issued_at == now
                &&& c.expires_at == now + ttl_ms
                &&& c.issuer == issuer
                &&& c.subject == subject
                &&& c.signature@ == Seq::<u8>::empty()
                &&& c@.wf()
            },
            r matches Err(e) ==> e matches VaultError::Capability(CapabilityError::InvalidFormat(_)),
    {
        if ttl_ms == 0 {
            return Err(invalid_format("TTL must be positive"));
        }
        if (now as i128) + (ttl_ms as i128) > (i64::MAX as i128) {
            return Err(invalid_format("TTL overflows the expiry instant"));
        }
        let expires_at = ((now as i128) + (ttl_ms as i128)) as i64;
        Ok(
            Capability {
                id,
                domain,
                action,
                target,
                context,
                issued_at: now,
                expires_at,
                issuer,
                subject,
                signature: Vec::new(),
            },
        )
    }

    /// Builds a token with a fresh random identifier, issued now. It succeeds
    /// for every positive TTL that cannot overflow from the latest instant
    /// the clock gives.
    pub fn new(
        domain: Domain,
        action: Action,
        target: String,
        context: CapabilityContext,
        ttl_ms: u64,
        issuer: String,
        subject: String,
    ) -> (r: Result<Capability, VaultError>)
        ensures
            ttl_ms == 0 ==> r is Err,
            0 < ttl_ms <= i64::MAX - CLOCK_MAX_MS ==> r is Ok,
            r matches Ok(c) ==> {
                &&& c.domain == domain
                &&& c.action == action
                &&& c.target == target
                &&& c.context == context
                &&& CLOCK_MIN_MS <= c.issued_at <= CLOCK_MAX_MS
                &&& c.expires_at == c.issued_at + ttl_ms
                &&& c.issuer == issuer
                &&& c.subject == subject
                &&& c.signature@ == Seq::<u8>::empty()
                &&& c@.wf()
            },
            r matches Err(e) ==> e matches VaultError::Capability(CapabilityError::InvalidFormat(_)),
    {
        let now = now_millis();
        let id = new_token_id();
        Capability::issue(id, now, domain, action, target, context, ttl_ms, issuer, subject)
    }

    /// Whether the token authorizes use at `now`.
    pub fn is_valid_at(&self, now: i64) -> (r: bool)
        ensures
            r == self@.valid_at(now),
    {
        if now > self.expires_at {
            return false;
        }
        match &self.context.time_window {
            Some(w) => {
                if now < w.start || now > w.end {
                    return false;
                }
                match &w.days_of_week {
                    Some(days) => {
                        if !bytes_contain(days, weekday(now)) {
                            return false;
                        }
                    },
                    None => {},
                }
            },
            None => {},
        }
        match self.context.usage_limits {
            Some(l) => match l.max_uses {
                Some(m) => l.current_uses < m,
                None => true,
            },
            None => true,
        }
    }

    /// Whether the token authorizes use now.
    pub fn is_valid(&self) -> (r: bool)
        ensures
            exists|now: i64| CLOCK_MIN_MS <= now <= CLOCK_MAX_MS && r == self@.valid_at(now),
    {
        let now = now_millis();
        self.is_valid_at(now)
    }

    /// Whether the token authorizes use at `now` in the given environment,
    /// service and namespace.
    pub fn is_valid_for_context_at(
        &self,
        environment: &str,
        service: &str,
        namespace: &str,
        now: i64,
    ) -> (r: bool)
        ensures
            r == self@.valid_for_context(environment@, service@, namespace@, now),
    {
        self.is_valid_at(now) && admits_name(&self.context.environments, environment)
            && admits_name(&self.context.services, service) && admits_name(
            &self.context.namespaces,
            namespace,
        )
    }

    /// Whether the token authorizes use now in the given environment, service
    /// and namespace.
    pub fn is_valid_for_context(&self, environment: &str, service: &str, namespace: &str) -> (r:
        bool)
        ensures
            exists|now: i64|
                CLOCK_MIN_MS <= now <= CLOCK_MAX_MS && r == self@.valid_for_context(environment@, service@, namespace@, now),
    {
        let now = now_millis();
        self.is_valid_for_context_at(environment, service, namespace, now)
    }

    /// The time left before expiry at `now`, in milliseconds; `None` once the
    /// expiry is reached.
    pub fn remaining_ttl_at(&self, now: i64) -> (r: Option<u64>)
        ensures
            r == self@.remaining_at(now),
    {
        if now < self.expires_at {
            Some(((self.expires_at as i128) - (now as i128)) as u64)
        } else {
            None
        }
    }

    /// The time left before expiry now, in milliseconds.
    pub fn remaining_ttl(&self) -> (r: Option<u64>)
        ensures
            exists|now: i64| CLOCK_MIN_MS <= now <= CLOCK_MAX_MS && r == self@.remaining_at(now),
    {
        let now = now_millis();
        self.remaining_ttl_at(now)
    }

    /// Records one use. With usage limits, the counter goes up by one; if it
    /// then exceeds `max_uses` the increment stays and a `ScopeMismatch`
    /// error is returned. A counter at its largest value is left as it is and
    /// the use is refused. Without usage limits nothing changes.
    pub fn increment_usage(&mut self) -> (r: Result<(), VaultError>)
        ensures
            final(self)@ == old(self)@.after_use(),
            r is Ok <==> use_allowed(old(self)@.context.usage_limits),
            r matches Err(e) ==> e matches VaultError::Capability(
                CapabilityError::ScopeMismatch(_),
            ),
    {
        match self.context.usage_limits {
            Some(l) => {
                if l.current_uses == u32::MAX {
                    return Err(scope_mismatch("Usage counter overflow"));
                }
                let n = l.current_uses + 1;
                self.context.usage_limits = Some(UsageLimits { current_uses: n, ..l });
                match l.max_uses {
                    Some(m) => {
                        if n > m {
                            return Err(scope_mismatch("Usage limit exceeded"));
                        }
                    },
                    None => {},
                }
                Ok(())
            },
            None => Ok(()),
        }
    }

    /// The token renewed at `now` for `ttl_ms`: the same token with the new
    /// expiry `now + ttl_ms`; usage counters are kept. Fails with
    /// `InvalidFormat` when the new expiry does not fit in an instant or does
    /// not come after the issue instant.
    pub fn refreshed(&self, now: i64, ttl_ms: u64) -> (r: Result<Capability, VaultError>)
        ensures
            r is Ok <==> (now + ttl_ms <= i64::MAX && now + ttl_ms > self.issued_at),
            r matches Ok(c) ==> c@ == (CapabilityView {
                expires_at: (now + ttl_ms) as i64,
                ..self@
            }),
            r matches Err(e) ==> e matches VaultError::Capability(CapabilityError::InvalidFormat(_)),
    {
        if (now as i128) + (ttl_ms as i128) > (i64::MAX as i128) {
            return Err(invalid_format("TTL overflows the expiry instant"));
        }
        let expires_at = ((now as i128) + (ttl_ms as i128)) as i64;
        if expires_at <= self.issued_at {
            return Err(invalid_format("Expiry must come after issue"));
        }
        let mut c = self.clone();
        c.expires_at = expires_at;
        Ok(c)
    }
}

impl CapabilityRequest {
    /// A request without justification.
    pub fn new(
        domain: Domain,
        action: Action,
        target: String,
        context: CapabilityContext,
        ttl: u64,
    ) -> (r: Self)
        ensures
            r.domain == domain,
            r.action == action,
            r.target == target,
            r.context == context,
            r.ttl == ttl,
            r.justification is None,
    {
        CapabilityRequest { domain, action, target, context, ttl, justification: None }
    }

    /// The same request with a justification.
    pub fn with_justification(self, justification: String) -> (r: Self)
        ensures
            r == (CapabilityRequest { justification: Some(justification), ..self }),
    {
        CapabilityRequest { justification: Some(justification), ..self }
    }

    /// Checks the request before it is sent: the TTL must lie within ten
    /// seconds and 24 hours, and the target must not be empty.
    pub fn validate(&self) -> (r: Result<(), VaultError>)
        ensures
            r is Ok <==> (MIN_TTL_NS <= self.ttl <= MAX_TTL_NS && self.target@.len() > 0),
            r matches Err(e) ==> e matches VaultError::Capability(CapabilityError::InvalidFormat(m))
                && m@ == (if self.ttl > MAX_TTL_NS {
                "TTL too long (max 24 hours)"@
            } else if self.ttl < MIN_TTL_NS {
                "TTL too short (min 10 seconds)"@
            } else {
                "Target cannot be empty"@
            }),
    {
        if self.ttl > MAX_TTL_NS {
            return Err(invalid_format("TTL too long (max 24 hours)"));
        }
        if self.ttl < MIN_TTL_NS {
            return Err(invalid_format("TTL too short (min 10 seconds)"));
        }
        if self.target.as_str().unicode_len() == 0 {
            return Err(invalid_format("Target cannot be empty"));
        }
        Ok(())
    }
}

} // verus!
