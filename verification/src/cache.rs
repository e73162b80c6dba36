//! The single-slot, expiry-aware signing-key cache.
//!
//! The cache owns at most one derived signing key together with the instant at
//! which it stops being valid. Callers that run concurrently serialize on one
//! lock around the cache (the lock itself lives with the runtime glue), so the
//! cache is modelled here as a plain value that one caller at a time reads or
//! replaces: a caller first looks the key up, and only on a miss performs the
//! remote derivation and stores its outcome.

use vstd::prelude::*;

use crate::expiry::DayExpiry;
use crate::types::DerivationError;

verus! {

/// An opaque textual signing token, immutable once produced.
pub struct SigningKey {
    pub text: String,
}

impl SigningKey {
    /// An independent copy of the token.
    pub fn dup(&self) -> (r: SigningKey)
        ensures
            r.text == self.text,
    {
        SigningKey { text: self.text.clone() }
    }
}

/// The one cached key together with the end of its validity window.
pub struct CacheEntry {
    pub key: SigningKey,
    pub valid_until: u64,
}

/// A cache of capacity one: empty until the first derivation, then always
/// holding the most recently stored key. A failed refresh never touches it.
pub struct KeyCache {
    pub entry: Option<CacheEntry>,
}

impl KeyCache {
    /// What a lookup at instant `now` yields: the stored key while `now` lies
    /// strictly before its validity end, nothing otherwise.
    pub open spec fn spec_lookup(self, now: u64) -> Option<SigningKey> {
        match self.entry {
            Some(e) => if now < e.valid_until {
                Some(e.key)
            } else {
                None
            },
            None => None,
        }
    }

    /// The cache after a successful derivation at instant `now` whose key
    /// stays valid for `ttl` more time units.
    pub open spec fn spec_store(self, key: SigningKey, ttl: u64, now: u64) -> KeyCache
        recommends
            now + ttl <= u64::MAX,
    {
        KeyCache { entry: Some(CacheEntry { key, valid_until: (now + ttl) as u64 }) }
    }

    /// An empty cache: the first lookup at any instant misses.
    pub fn new() -> (c: KeyCache)
        ensures
            c.entry is None,
    {
        KeyCache { entry: None }
    }

    /// Returns the cached key exactly when an entry exists and `now` is still
    /// inside its validity window; a miss is the caller's signal to refresh.
    pub fn lookup(&self, now: u64) -> (r: Option<&SigningKey>)
        ensures
            r is Some <==> self.spec_lookup(now) is Some,
            r matches Some(k) ==> *k == self.spec_lookup(now)->Some_0,
    {
        match &self.entry {
            Some(e) => if now < e.valid_until {
                Some(&e.key)
            } else {
                None
            },
            None => None,
        }
    }

    /// Publishes the outcome of a refresh at instant `now`, atomically
    /// replacing whatever entry was there before.
    pub fn store(&mut self, key: SigningKey, ttl: u64, now: u64)
        requires
            now + ttl <= u64::MAX,
        ensures
            *final(self) == old(self).spec_store(key, ttl, now),
            final(self).entry matches Some(e) && e.key == key && e.valid_until == now + ttl,
    {
        self.entry = Some(CacheEntry { key, valid_until: now + ttl });
    }

    /// The validity duration actually stored at instant `now`: the expiry
    /// policy's duration, shortened only where the window would run past the
    /// last representable instant.
    pub open spec fn spec_capped_ttl(reported: Option<u64>, now: u64) -> u64 {
        let ttl = DayExpiry::spec_ttl(reported);
        if now + ttl <= u64::MAX {
            ttl
        } else {
            (u64::MAX - now) as u64
        }
    }

    /// Finishes one guarded refresh at instant `now`. `fetched` is what the
    /// remote derivation came back with: the fresh key and the reported
    /// seconds until the next rotation boundary, or nothing when the key
    /// pair could not be retrieved. A failed fetch is reported as
    /// `DerivationError::Fetch` and deliberately leaves the previous entry —
    /// even an expired one — in place, so a later call simply retries; a
    /// successful fetch stores the key under the expiry policy's duration
    /// and hands it back.
    pub fn complete_refresh(&mut self, now: u64, fetched: Option<(SigningKey, Option<u64>)>) -> (r:
        Result<SigningKey, DerivationError>)
        ensures
            fetched is None ==> r == Result::<SigningKey, DerivationError>::Err(
                DerivationError::Fetch,
            ) && *final(self) == *old(self),
            fetched matches Some((key, reported)) ==> {
                &&& *final(self) == old(self).spec_store(
                    key,
                    Self::spec_capped_ttl(reported, now),
                    now,
                )
                &&& r matches Ok(k) && k.text == key.text
            },
    {
        match fetched {
            None => Err(DerivationError::Fetch),
            Some((key, reported)) => {
                let policy = DayExpiry;
                let ttl = policy.expire_after_create(reported);
                let ttl = if ttl > u64::MAX - now {
                    u64::MAX - now
                } else {
                    ttl
                };
                let out = key.dup();
                self.store(key, ttl, now);
                Ok(out)
            },
        }
    }
}

/// Law: a single refresh serves every caller of its validity window. If the
/// cache starts empty, one derivation performed at instant `now` and stored
/// with validity `ttl` answers every later call whose instant falls inside
/// `[now, now + ttl)` with that same key, so none of those calls derives
/// again — and before the store, a lookup at any instant misses, so the one
/// derivation is also necessary.
pub proof fn lemma_single_flight(c0: KeyCache, key: SigningKey, ttl: u64, now: u64, calls: Seq<u64>)
    requires
        c0.entry is None,
        now + ttl <= u64::MAX,
        forall|i: int| 0 <= i < calls.len() ==> now <= #[trigger] calls[i] < now + ttl,
    ensures
        forall|t: u64| c0.spec_lookup(t) is None,
        forall|i: int|
            0 <= i < calls.len() ==> c0.spec_store(key, ttl, now).spec_lookup(#[trigger] calls[i])
                == Some(key),
{
}

/// Law: storing a key with no remaining validity caches nothing. After a
/// store with `ttl == 0` at instant `now`, a lookup at any instant `t >= now`
/// misses, so the next caller derives afresh instead of reusing a stale key
/// indefinitely.
pub proof fn lemma_zero_ttl_degrades(c: KeyCache, key: SigningKey, now: u64, t: u64)
    requires
        now <= t,
    ensures
        c.spec_store(key, 0, now).spec_lookup(t) is None,
{
}

} // verus!
