//! Cached imports and how they age.
use vstd::prelude::*;

use crate::device::Resources;
use crate::params::ImportParams;

verus! {

/// How long, in nanoseconds, a cached import stays resident after its last use
/// before being evicted and freed. Long enough that any in-flight work using
/// the image has definitely completed, short enough that buffer churn does not
/// accumulate video memory.
pub const CACHE_TTL: u128 = 2_000_000_000;

/// Cached device resources for a single buffer.
#[derive(Debug, Clone, Copy)]
pub struct CachedImport {
    pub resources: Resources,
    pub params: ImportParams,
    /// When the import was last used or retired, in nanoseconds.
    pub last_used: u128,
}

/// Whether an entry has gone unused for longer than [`CACHE_TTL`].
pub open spec fn expired(entry: CachedImport, now: u128) -> bool {
    entry.last_used < now - CACHE_TTL
}

/// The inodes whose entries have expired.
pub open spec fn expired_keys(cache: Map<u64, CachedImport>, now: u128) -> Set<u64> {
    cache.dom().filter(|inode: u64| expired(cache[inode], now))
}

/// The entries of `list` that have expired, in order.
pub open spec fn expired_of(list: Seq<CachedImport>, now: u128) -> Seq<CachedImport> {
    list.filter(|entry: CachedImport| expired(entry, now))
}

/// The entries of `list` that have not expired, in order.
pub open spec fn live_of(list: Seq<CachedImport>, now: u128) -> Seq<CachedImport> {
    list.filter(|entry: CachedImport| !expired(entry, now))
}

/// Whether `keys` lists the members of `set`, each of them once.
pub open spec fn lists(keys: Seq<u64>, set: Set<u64>) -> bool {
    &&& keys.no_duplicates()
    &&& forall|key: u64| keys.contains(key) <==> set.contains(key)
}

/// The resources of the entries under `keys`, in the order of `keys`.
pub open spec fn resources_at(cache: Map<u64, CachedImport>, keys: Seq<u64>) -> Seq<Resources> {
    keys.map_values(|inode: u64| cache[inode].resources)
}

/// The resources of the entries of `list`, in order.
pub open spec fn resources_of(list: Seq<CachedImport>) -> Seq<Resources> {
    list.map_values(|entry: CachedImport| entry.resources)
}

/// A sequence holds what it held before a push, and what was pushed.
pub(crate) proof fn lemma_push_contains(s: Seq<u64>, a: u64)
    ensures
        forall|k: u64| #[trigger] s.push(a).contains(k) <==> s.contains(k) || k == a,
        s.push(a).to_set() == s.to_set().insert(a),
{
    assert forall|k: u64| #[trigger] s.push(a).contains(k) <==> s.contains(k) || k == a by {
        if s.contains(k) {
            let i = choose|i: int| 0 <= i < s.len() && s[i] == k;
            assert(s.push(a)[i] == k);
        }
        assert(s.push(a)[s.len() as int] == a);
    }
}

impl CachedImport {
    /// Whether this entry has gone unused for longer than [`CACHE_TTL`].
    pub fn is_expired(&self, now: u128) -> (gone: bool)
        ensures
            gone == expired(*self, now),
    {
        self.last_used < now && now - self.last_used > CACHE_TTL
    }

    /// The same import, last used at `now`.
    pub fn touched(&self, now: u128) -> (entry: Self)
        ensures
            entry == (CachedImport { last_used: now, ..*self }),
    {
        CachedImport { resources: self.resources, params: self.params, last_used: now }
    }
}

} // verus!
