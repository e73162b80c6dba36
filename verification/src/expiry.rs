//! The expiry policy of the signing-key cache.
//!
//! The remote platform rotates its key pair daily, and the runtime glue asks
//! it how many seconds remain until the next rotation boundary. That report
//! is handed here as a plain `Option`: the policy turns it into the validity
//! duration a fresh cache entry gets. A missing report degrades to a validity
//! of zero — the entry is stored but never served, so the next caller
//! re-derives instead of trusting a key of unknown lifetime forever.

use vstd::prelude::*;

use crate::cache::KeyCache;
use crate::cache::SigningKey;

verus! {

/// The rotation-boundary expiry policy: an entry lives until the day ends.
pub struct DayExpiry;

impl DayExpiry {
    /// The validity duration derived from a reported time-to-rotation:
    /// the report itself, or zero when there is none.
    pub open spec fn spec_ttl(reported: Option<u64>) -> u64 {
        match reported {
            Some(t) => t,
            None => 0,
        }
    }

    /// Decides how long a freshly created cache entry stays valid, given the
    /// reported seconds until the next daily rotation boundary.
    pub fn expire_after_create(&self, reported: Option<u64>) -> (ttl: u64)
        ensures
            ttl == Self::spec_ttl(reported),
            reported is None ==> ttl == 0,
    {
        match reported {
            Some(t) => t,
            None => 0,
        }
    }
}

/// Law: a zero or missing validity report never caches indefinitely. When the
/// policy's duration is zero — the report was absent or itself zero — the
/// entry stored by a refresh at instant `now` answers no lookup at any
/// instant from `now` on, so the next call triggers a fresh derivation
/// rather than failing or reusing the key.
pub proof fn lemma_degradation_on_missing_ttl(
    c: KeyCache,
    key: SigningKey,
    reported: Option<u64>,
    now: u64,
    t: u64,
)
    requires
        DayExpiry::spec_ttl(reported) == 0,
        now <= t,
    ensures
        c.spec_store(key, DayExpiry::spec_ttl(reported), now).spec_lookup(t) is None,
{
}

} // verus!
