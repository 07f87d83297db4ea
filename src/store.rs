//! The capability store: the in-memory home of the tokens held by one client
//! session, keyed by token identifier.
//!
//! Every mutating operation takes `&mut self`, so operations on one store are
//! serialised by whoever owns it (a session wraps it in a lock); a
//! read-modify-write such as `record_use` is then one step that no other
//! mutation can interleave with.

use std::collections::{HashMap, HashSet};
use vstd::prelude::*;
use vstd::std_specs::hash::spec_hash_map_iter;
use vstd::std_specs::iter::IteratorSpec;
use crate::capability::{Capability, CapabilityView, ContextView, UsageLimits, use_allowed};
use crate::error::{CapabilityError, VaultError};

verus! {

broadcast use vstd::std_specs::hash::group_hash_axioms;

/// Tokens held by a client session, and the identifiers revoked in it.
pub struct CapabilityStore {
    entries: HashMap<u128, Capability>,
    revoked: HashSet<u128>,
}

impl View for CapabilityStore {
    type V = Map<u128, CapabilityView>;

    closed spec fn view(&self) -> Map<u128, CapabilityView> {
        self.entries@.map_values(|c: Capability| c@)
    }
}

/// A use granted by `CapabilityStore::authorize_access`: the token with the
/// use recorded, and whether the store held it (and so recorded the use).
#[derive(Debug)]
pub struct AccessGrant {
    /// The token after the use.
    pub token: Capability,
    /// The store held the token and recorded the use in it.
    pub held: bool,
}

/// The store after pruning at `now`: the entries that have not expired.
pub open spec fn unexpired(m: Map<u128, CapabilityView>, now: i64) -> Map<u128, CapabilityView> {
    Map::new(|id: u128| m.contains_key(id) && !(now > m[id].expires_at), |id: u128| m[id])
}

/// A refreshed token as stored: when the store already holds the token and
/// both carry usage limits, the recorded use count continues.
pub open spec fn carry_usage(prior: Option<CapabilityView>, fresh: CapabilityView) -> CapabilityView {
    match prior {
        Some(p) => match (p.context.usage_limits, fresh.context.usage_limits) {
            (Some(pl), Some(fl)) => CapabilityView {
                context: ContextView {
                    usage_limits: Some(UsageLimits { current_uses: pl.current_uses, ..fl }),
                    ..fresh.context
                },
                ..fresh
            },
            _ => fresh,
        },
        None => fresh,
    }
}

/// Revocation: once `id` is revoked, the store holds no token with that
/// identifier, so neither `get` nor `list_valid` returns one, whatever its
/// expiry; the identifier is revoked, so `authorize_access` refuses it; the
/// other tokens stay as they were.
pub proof fn lemma_revocation(before: &CapabilityStore, after: &CapabilityStore, id: u128)
    requires
        after@ == before@.remove(id),
        after.revoked_ids() == before.revoked_ids().insert(id),
    ensures
        !after@.contains_key(id),
        after.revoked_ids().contains(id),
        forall|k: u128|
            k != id && #[trigger] before@.contains_key(k) ==> after@.contains_key(k) && after@[k]
                == before@[k],
{
}

impl CapabilityStore {
    /// Every entry is filed under its own identifier.
    pub closed spec fn wf(&self) -> bool {
        forall|k: u128| #[trigger] self.entries@.contains_key(k) ==> self.entries@[k].id == k
    }

    /// Identifiers revoked in this store.
    pub closed spec fn revoked_ids(&self) -> Set<u128> {
        self.revoked@
    }

    /// An empty store.
    pub fn new() -> (r: Self)
        ensures
            r.wf(),
            r@ == Map::<u128, CapabilityView>::empty(),
            r.revoked_ids() == Set::<u128>::empty(),
    {
        let r = CapabilityStore { entries: HashMap::new(), revoked: HashSet::new() };
        assert(r@ =~= Map::<u128, CapabilityView>::empty());
        r
    }

    /// Whether the identifier was revoked in this store.
    pub fn is_revoked(&self, id: u128) -> (r: bool)
        ensures
            r == self.revoked_ids().contains(id),
    {
        self.revoked.contains(&id)
    }

    /// Whether a token with this identifier is held.
    pub fn contains(&self, id: u128) -> (r: bool)
        requires
            self.wf(),
        ensures
            r == self@.contains_key(id),
    {
        self.entries.contains_key(&id)
    }

    /// Inserts the token, replacing any token with the same identifier.
    pub fn put(&mut self, c: Capability)
        requires
            old(self).wf(),
        ensures
            final(self).wf(),
            final(self)@ == old(self)@.insert(c.id, c@),
            final(self).revoked_ids() == old(self).revoked_ids(),
    {
        let ghost v = c@;
        let id = c.id;
        self.entries.insert(id, c);
        assert(self@ =~= old(self)@.insert(id, v));
    }

    /// A copy of the token with this identifier, if held.
    pub fn get(&self, id: u128) -> (r: Option<Capability>)
        requires
            self.wf(),
        ensures
            match r {
                Some(c) => self@.contains_key(id) && c@ == self@[id],
                None => !self@.contains_key(id),
            },
    {
        match self.entries.get(&id) {
            Some(c) => Some(c.clone()),
            None => None,
        }
    }

    /// Removes the token with this identifier and returns it, if held.
    pub fn remove(&mut self, id: u128) -> (r: Option<Capability>)
        requires
            old(self).wf(),
        ensures
            final(self).wf(),
            final(self)@ == old(self)@.remove(id),
            final(self).revoked_ids() == old(self).revoked_ids(),
            match r {
                Some(c) => old(self)@.contains_key(id) && c@ == old(self)@[id],
                None => !old(self)@.contains_key(id),
            },
    {
        let r = self.entries.remove(&id);
        assert(self@ =~= old(self)@.remove(id));
        r
    }

    /// Revokes the identifier: the token, if held, is dropped at once, and
    /// the identifier stays blocked for local use.
    pub fn revoke(&mut self, id: u128) -> (r: bool)
        requires
            old(self).wf(),
        ensures
            final(self).wf(),
            final(self)@ == old(self)@.remove(id),
            final(self).revoked_ids() == old(self).revoked_ids().insert(id),
            r == old(self)@.contains_key(id),
    {
        self.revoked.insert(id);
        let removed = self.remove(id);
        removed.is_some()
    }

    /// Records one use of the held token with this identifier, as
    /// `Capability::increment_usage` does, in one step. A token that is not
    /// held gives `NotFound` and nothing changes.
    pub fn record_use(&mut self, id: u128) -> (r: Result<(), VaultError>)
        requires
            old(self).wf(),
        ensures
            final(self).wf(),
            final(self).revoked_ids() == old(self).revoked_ids(),
            !old(self)@.contains_key(id) ==> final(self)@ == old(self)@ && r == Err::<(), VaultError>(
                VaultError::Capability(CapabilityError::NotFound(id)),
            ),
            old(self)@.contains_key(id) ==> {
                &&& final(self)@ == old(self)@.insert(id, old(self)@[id].after_use())
                &&& (r is Ok <==> use_allowed(old(self)@[id].context.usage_limits))
                &&& (r matches Err(e) ==> e matches VaultError::Capability(
                    CapabilityError::ScopeMismatch(_),
                ))
            },
    {
        match self.get(id) {
            Some(mut c) => {
                let r = c.increment_usage();
                self.put(c);
                r
            },
            None => Err(VaultError::Capability(CapabilityError::NotFound(id))),
        }
    }

    /// Applies `f` to the held token with this identifier and stores what it
    /// returns, in one step; returns a copy of the stored token. `f` must keep
    /// the identifier. A token that is not held gives `None` and nothing
    /// changes.
    pub fn mutate_and_put<F: FnOnce(Capability) -> Capability>(&mut self, id: u128, f: F) -> (r:
        Option<Capability>)
        requires
            old(self).wf(),
            forall|c: Capability| #[trigger] f.requires((c,)),
            forall|c: Capability, d: Capability| #[trigger] f.ensures((c,), d) ==> d.id == c.id,
        ensures
            final(self).wf(),
            final(self).revoked_ids() == old(self).revoked_ids(),
            r is None <==> !old(self)@.contains_key(id),
            r is None ==> final(self)@ == old(self)@,
            r matches Some(out) ==> exists|before: Capability, after: Capability|
                #![trigger f.ensures((before,), after)]
                before@ == old(self)@[id] && f.ensures((before,), after) && out@ == after@
                    && final(self)@ == old(self)@.insert(id, after@),
    {
        match self.get(id) {
            Some(before) => {
                let ghost b = before;
                let after = f(before);
                let ghost a = after;
                let out = after.clone();
                self.put(after);
                assert(f.ensures((b,), a));
                Some(out)
            },
            None => None,
        }
    }

    /// Copies of the held tokens that are valid at `now`, each once, in no
    /// particular order. The store is not changed.
    pub fn list_valid(&self, now: i64) -> (r: Vec<Capability>)
        requires
            self.wf(),
        ensures
            forall|k: int|
                0 <= k < r@.len() ==> self@.contains_key(#[trigger] r@[k].id) && self@[r@[k].id]
                    == r@[k]@ && r@[k]@.valid_at(now),
            forall|id: u128|
                self@.contains_key(id) && #[trigger] self@[id].valid_at(now) ==> exists|k: int|
                    0 <= k < r@.len() && r@[k].id == id,
            forall|i: int, j: int| 0 <= i < j < r@.len() ==> r@[i].id != r@[j].id,
    {
        let m = &self.entries;
        let mut out: Vec<Capability> = Vec::new();
        let ghost src: Seq<int> = Seq::empty();
        for e in it: m.iter()
            invariant
                self.wf(),
                m == &self.entries,
                it.seq() == spec_hash_map_iter(m).remaining(),
                it.seq().no_duplicates(),
                src.len() == out@.len(),
                forall|k: int| 0 <= k < src.len() ==> 0 <= #[trigger] src[k] < it.index(),
                forall|k1: int, k2: int| 0 <= k1 < k2 < src.len() ==> src[k1] < src[k2],
                forall|k: int|
                    0 <= k < src.len() ==> (#[trigger] out@[k]).id == *it.seq()[src[k]].0
                        && m@.contains_key(out@[k].id) && m@[out@[k].id]@ == out@[k]@
                        && out@[k]@.valid_at(now),
                forall|j: int|
                    0 <= j < it.index() && (#[trigger] m@[*it.seq()[j].0])@.valid_at(now)
                        ==> exists|k: int| 0 <= k < src.len() && src[k] == j,
        {
            let ghost prev_src = src;
            let ghost prev_out = out@;
            let ghost i = it.index();
            let (id, c) = e;
            assert(e == it.seq()[i as int]);
            assert(m@.contains_key(*id));
            assert(m@[*id] == *c);
            assert(c.id == *id);
            if c.is_valid_at(now) {
                out.push(c.clone());
                proof {
                    src = src.push(i as int);
                }
            }
            assert forall|k: int| 0 <= k < src.len() implies (#[trigger] out@[k]).id
                == *it.seq()[src[k]].0 && m@.contains_key(out@[k].id) && m@[out@[k].id]@ == out@[k]@
                && out@[k]@.valid_at(now) by {
                if k < prev_src.len() {
                    assert(out@[k] == prev_out[k]);
                    assert(src[k] == prev_src[k]);
                }
            }
            assert forall|j: int|
                0 <= j < i + 1 && (#[trigger] m@[*it.seq()[j].0])@.valid_at(now) implies exists|k: int|
                    0 <= k < src.len() && src[k] == j by {
                if j < i {
                    let k = choose|k: int| 0 <= k < prev_src.len() && prev_src[k] == j;
                    assert(src[k] == prev_src[k]);
                } else {
                    assert(src[src.len() - 1] == j);
                }
            }
        }
        let ghost v = spec_hash_map_iter(m).remaining();
        assert forall|k1: int, k2: int| 0 <= k1 < k2 < out@.len() implies out@[k1].id != out@[k2].id by {
            let (j1, j2) = (src[k1], src[k2]);
            if out@[k1].id == out@[k2].id {
                assert(v[j1] == v[j2]);
            }
        }
        assert forall|id: u128| self@.contains_key(id) && #[trigger] self@[id].valid_at(now) implies exists|k: int|
            0 <= k < out@.len() && out@[k].id == id by {
            assert(m@.contains_key(id));
            assert(v.contains((&id, &m@[id])));
            let j = choose|j: int| 0 <= j < v.len() && v[j] == (&id, &m@[id]);
            assert(*v[j].0 == id);
            assert(m@[*v[j].0]@.valid_at(now));
            let k = choose|k: int| 0 <= k < src.len() && src[k] == j;
            assert(out@[k].id == *v[src[k]].0);
        }
        out
    }

    /// Drops every token that has expired at `now` (`now > expires_at`).
    pub fn prune_expired(&mut self, now: i64)
        requires
            old(self).wf(),
        ensures
            final(self).wf(),
            final(self)@ == unexpired(old(self)@, now),
            final(self).revoked_ids() == old(self).revoked_ids(),
    {
        let m = &self.entries;
        let mut kept: HashMap<u128, Capability> = HashMap::new();
        for e in it: m.iter()
            invariant
                self.wf(),
                m == &self.entries,
                it.seq() == spec_hash_map_iter(m).remaining(),
                forall|k: u128| #[trigger]
                    kept@.contains_key(k) ==> m@.contains_key(k) && !(now > m@[k].expires_at)
                        && kept@[k]@ == m@[k]@,
                forall|j: int|
                    0 <= j < it.index() && !(now > (#[trigger] m@[*it.seq()[j].0]).expires_at)
                        ==> kept@.contains_key(*it.seq()[j].0),
        {
            let ghost i = it.index();
            let (id, c) = e;
            assert(e == it.seq()[i as int]);
            assert(m@[*id] == *c);
            if !(now > c.expires_at) {
                kept.insert(*id, c.clone());
            }
        }
        let ghost v = spec_hash_map_iter(m).remaining();
        let ghost target = unexpired(old(self)@, now);
        assert(m@ == old(self).entries@);
        assert forall|id: u128| #[trigger] target.contains_key(id) implies kept@.contains_key(id) by {
            assert(m@.contains_key(id));
            assert(v.contains((&id, &m@[id])));
            let j = choose|j: int| 0 <= j < v.len() && v[j] == (&id, &m@[id]);
            assert(*v[j].0 == id);
            assert(!(now > m@[*v[j].0].expires_at));
        }
        self.entries = kept;
        assert(self@ =~= target);
    }

    /// Gates one protected access with the token `cap`, and records the use.
    ///
    /// A revoked identifier gives `Revoked`. A `cap` that is not valid at
    /// `now` gives `Expired` with its expiry. Otherwise one use is recorded in
    /// the held token with this identifier, or in a copy of `cap` when none is
    /// held; when the use exceeds the cap (see `Capability::increment_usage`)
    /// its `ScopeMismatch` error is returned. On every error nothing changes.
    /// A held token keeps the recorded use in one step; a token that is not
    /// held has it only in the returned copy. If the protected operation then
    /// fails, `release_use` gives the use back.
    pub fn authorize_access(&mut self, cap: &Capability, now: i64) -> (r: Result<
        AccessGrant,
        VaultError,
    >)
        requires
            old(self).wf(),
        ensures
            final(self).wf(),
            final(self).revoked_ids() == old(self).revoked_ids(),
            ({
                let id = cap.id;
                let held = old(self)@.contains_key(id);
                let base = if held {
                    old(self)@[id]
                } else {
                    cap@
                };
                if old(self).revoked_ids().contains(id) {
                    final(self)@ == old(self)@ && r == Err::<AccessGrant, VaultError>(
                        VaultError::Capability(CapabilityError::Revoked(id)),
                    )
                } else if !cap@.valid_at(now) {
                    final(self)@ == old(self)@ && r == Err::<AccessGrant, VaultError>(
                        VaultError::Capability(CapabilityError::Expired(cap.expires_at)),
                    )
                } else if !use_allowed(base.context.usage_limits) {
                    &&& final(self)@ == old(self)@
                    &&& r matches Err(e) && e matches VaultError::Capability(
                        CapabilityError::ScopeMismatch(_),
                    )
                } else {
                    &&& r matches Ok(g) && g.held == held && g.token@ == base.after_use()
                    &&& final(self)@ == (if held {
                        old(self)@.insert(id, base.after_use())
                    } else {
                        old(self)@
                    })
                }
            }),
    {
        let id = cap.id;
        if self.is_revoked(id) {
            return Err(VaultError::Capability(CapabilityError::Revoked(id)));
        }
        if !cap.is_valid_at(now) {
            return Err(VaultError::Capability(CapabilityError::Expired(cap.expires_at)));
        }
        let found = self.get(id);
        let held = found.is_some();
        let mut base = match found {
            Some(c) => c,
            None => cap.clone(),
        };
        match base.increment_usage() {
            Ok(()) => {},
            Err(e) => {
                return Err(e);
            },
        }
        if held {
            let token = base.clone();
            self.put(base);
            Ok(AccessGrant { token, held: true })
        } else {
            Ok(AccessGrant { token: base, held: false })
        }
    }

    /// Gives back one recorded use of the held token with this identifier,
    /// after the operation it was granted for has failed. Without usage
    /// limits, or with a counter at zero, nothing changes.
    pub fn release_use(&mut self, id: u128)
        requires
            old(self).wf(),
        ensures
            final(self).wf(),
            final(self).revoked_ids() == old(self).revoked_ids(),
            final(self)@ == (if old(self)@.contains_key(id) {
                old(self)@.insert(id, old(self)@[id].after_release())
            } else {
                old(self)@
            }),
    {
        match self.get(id) {
            Some(mut c) => {
                match c.context.usage_limits {
                    Some(l) => {
                        if l.current_uses > 0 {
                            c.context.usage_limits = Some(
                                UsageLimits { current_uses: l.current_uses - 1, ..l },
                            );
                        }
                    },
                    None => {},
                }
                self.put(c);
            },
            None => {},
        }
    }

    /// Starts holding a token that was used without being held, once the
    /// operation succeeded. A token already held, or a revoked identifier,
    /// is left as it is.
    pub fn adopt(&mut self, c: Capability) -> (r: bool)
        requires
            old(self).wf(),
        ensures
            final(self).wf(),
            final(self).revoked_ids() == old(self).revoked_ids(),
            r == !(old(self)@.contains_key(c.id) || old(self).revoked_ids().contains(c.id)),
            r ==> final(self)@ == old(self)@.insert(c.id, c@),
            !r ==> final(self)@ == old(self)@,
    {
        if self.contains(c.id) || self.is_revoked(c.id) {
            return false;
        }
        self.put(c);
        true
    }

    /// Stores a token that the broker has refreshed, replacing the held
    /// snapshot. When a token with this identifier is held and both carry
    /// usage limits, its use count carries over. A revoked identifier gives
    /// `Revoked` and nothing changes.
    pub fn apply_refresh(&mut self, refreshed: Capability) -> (r: Result<(), VaultError>)
        requires
            old(self).wf(),
        ensures
            final(self).wf(),
            final(self).revoked_ids() == old(self).revoked_ids(),
            old(self).revoked_ids().contains(refreshed.id) ==> final(self)@ == old(self)@ && r
                == Err::<(), VaultError>(VaultError::Capability(CapabilityError::Revoked(refreshed.id))),
            !old(self).revoked_ids().contains(refreshed.id) ==> r is Ok && final(self)@ == old(
                self,
            )@.insert(
                refreshed.id,
                carry_usage(
                    if old(self)@.contains_key(refreshed.id) {
                        Some(old(self)@[refreshed.id])
                    } else {
                        None
                    },
                    refreshed@,
                ),
            ),
    {
        let id = refreshed.id;
        if self.is_revoked(id) {
            return Err(VaultError::Capability(CapabilityError::Revoked(id)));
        }
        let mut c = refreshed;
        match self.get(id) {
            Some(prior) => {
                match (prior.context.usage_limits, c.context.usage_limits) {
                    (Some(pl), Some(fl)) => {
                        c.context.usage_limits = Some(
                            UsageLimits { current_uses: pl.current_uses, ..fl },
                        );
                    },
                    _ => {},
                }
            },
            None => {},
        }
        self.put(c);
        Ok(())
    }

    /// Drops every token; the revoked identifiers stay revoked.
    pub fn clear(&mut self)
        requires
            old(self).wf(),
        ensures
            final(self).wf(),
            final(self)@ == Map::<u128, CapabilityView>::empty(),
            final(self).revoked_ids() == old(self).revoked_ids(),
    {
        self.entries.clear();
        assert(self@ =~= Map::<u128, CapabilityView>::empty());
    }
}

} // verus!
