//! Where imported resources are: nothing that was imported is lost, and nothing
//! is given up twice.
use vstd::prelude::*;

use crate::cache::CachedImport;
use crate::device::{ActionView, Event, Resources};
use crate::importer::{ImportRequest, ImporterView, Stage};
use crate::raw_import::Progress;

verus! {

/// How often `r` occurs in a list.
pub open spec fn count(list: Seq<Resources>, r: Resources) -> nat {
    list.filter(|x: Resources| x == r).len()
}

/// How many entries of `cache` hold `r`.
pub open spec fn count_cached(cache: Map<u64, CachedImport>, r: Resources) -> nat {
    cache.dom().filter(|inode: u64| cache[inode].resources == r).len()
}

/// How many entries of an importer hold `r`, cached and retired ones together.
pub open spec fn held(s: ImporterView, r: Resources) -> nat {
    count_cached(s.cache, r) + count(crate::cache::resources_of(s.retired), r)
}

/// How often `event` brings `r` in: once if it completes the import of `r`.
pub open spec fn entered(s: ImporterView, event: Event, r: Resources) -> nat {
    match s.stage {
        Stage::Importing { import, .. } => if import.next(event).1 == Progress::Done(Ok(r)) {
            1
        } else {
            0
        },
        _ => 0,
    }
}

/// How often `action` gives `r` up.
pub open spec fn given_up(action: ActionView, r: Resources) -> nat {
    match action {
        ActionView::Evict(list) => count(list, r),
        _ => 0,
    }
}

/// A list with one more entry.
proof fn lemma_count_push(list: Seq<Resources>, x: Resources, r: Resources)
    ensures
        count(list.push(x), r) == count(list, r) + (if x == r {
            1nat
        } else {
            0nat
        }),
{
    reveal(Seq::filter);
    assert(list.push(x).drop_last() =~= list);
}

/// A member of a list occurs in it.
pub(crate) proof fn lemma_count_member(list: Seq<Resources>, r: Resources)
    requires
        list.contains(r),
    ensures
        count(list, r) > 0,
    decreases list.len(),
{
    let init = list.drop_last();
    let i = choose|i: int| 0 <= i < list.len() && list[i] == r;
    assert(init.push(list.last()) =~= list);
    lemma_count_push(init, list.last(), r);
    if list.last() != r {
        lemma_count_member(init, r);
    }
}

/// What stands in a list in one place at most occurs in it once at most.
pub(crate) proof fn lemma_count_once(list: Seq<Resources>, r: Resources)
    requires
        forall|i: int, j: int|
            #![trigger list[i], list[j]]
            0 <= i < j < list.len() ==> !(list[i] == r && list[j] == r),
    ensures
        count(list, r) == (if list.contains(r) {
            1nat
        } else {
            0nat
        }),
    decreases list.len(),
{
    if list.len() == 0 {
        reveal(Seq::filter);
    } else {
        let init = list.drop_last();
        assert(init.push(list.last()) =~= list);
        lemma_count_push(init, list.last(), r);
        lemma_count_once(init, r);
    }
}

/// An importer without entries holds nothing.
pub(crate) proof fn lemma_nothing_held(s: ImporterView, r: Resources)
    requires
        s.cache == Map::<u64, CachedImport>::empty(),
        s.retired.len() == 0,
    ensures
        held(s, r) == 0,
{
    reveal(Seq::filter);
    assert(s.cache.dom().filter(|inode: u64| s.cache[inode].resources == r) =~= Set::empty());
}

/// Two lists one after the other.
proof fn lemma_count_add(a: Seq<Resources>, b: Seq<Resources>, r: Resources)
    ensures
        count(a + b, r) == count(a, r) + count(b, r),
{
    Seq::filter_distributes_over_add(a, b, |x: Resources| x == r);
}

/// What a retired list holds is what is live in it and what has expired.
proof fn lemma_count_split(list: Seq<CachedImport>, now: u128, r: Resources)
    ensures
        count(crate::cache::resources_of(list), r) == count(
            crate::cache::resources_of(crate::cache::live_of(list, now)),
            r,
        ) + count(crate::cache::resources_of(crate::cache::expired_of(list, now)), r),
    decreases list.len(),
{
    reveal(Seq::filter);
    if list.len() > 0 {
        let init = list.drop_last();
        let e = list.last();
        lemma_count_split(init, now, r);
        assert(crate::cache::resources_of(list) =~= crate::cache::resources_of(init).push(
            e.resources,
        ));
        lemma_count_push(crate::cache::resources_of(init), e.resources, r);
        let live = crate::cache::live_of(init, now);
        let gone = crate::cache::expired_of(init, now);
        assert(crate::cache::resources_of(live.push(e)) =~= crate::cache::resources_of(live).push(
            e.resources,
        ));
        assert(crate::cache::resources_of(gone.push(e)) =~= crate::cache::resources_of(gone).push(
            e.resources,
        ));
        lemma_count_push(crate::cache::resources_of(live), e.resources, r);
        lemma_count_push(crate::cache::resources_of(gone), e.resources, r);
    }
}

/// What the entries under `keys` hold leaves the cache with them.
proof fn lemma_count_keys(cache: Map<u64, CachedImport>, keys: Seq<u64>, r: Resources)
    requires
        cache.dom().finite(),
        keys.no_duplicates(),
        forall|key: u64| #[trigger] keys.contains(key) ==> cache.contains_key(key),
    ensures
        count_cached(cache, r) == count_cached(cache.remove_keys(keys.to_set()), r) + count(
            crate::cache::resources_at(cache, keys),
            r,
        ),
    decreases keys.len(),
{
    if keys.len() == 0 {
        reveal(Seq::filter);
        assert(cache.remove_keys(keys.to_set()) =~= cache);
    } else {
        let init = keys.drop_last();
        let key = keys.last();
        assert(init.push(key) =~= keys);
        crate::cache::lemma_push_contains(init, key);
        assert(keys.contains(key));
        assert forall|k: u64| #[trigger] init.contains(k) implies cache.contains_key(k) by {
            assert(init.push(key).contains(k));
        }
        lemma_count_keys(cache, init, r);
        let before = cache.remove_keys(init.to_set());
        vstd::set_lib::lemma_len_subset(before.dom(), cache.dom());
        let after = cache.remove_keys(keys.to_set());
        assert(after =~= before.remove(key));
        lemma_count_remove(before, key, r);
        assert(crate::cache::resources_at(cache, keys) =~= crate::cache::resources_at(
            cache,
            init,
        ).push(cache[key].resources));
        lemma_count_push(crate::cache::resources_at(cache, init), cache[key].resources, r);
    }
}

/// A cache with one entry less.
proof fn lemma_count_remove(cache: Map<u64, CachedImport>, key: u64, r: Resources)
    requires
        cache.dom().finite(),
        cache.contains_key(key),
    ensures
        count_cached(cache, r) == count_cached(cache.remove(key), r) + (if cache[key].resources
            == r {
            1nat
        } else {
            0nat
        }),
{
    let with = cache.dom().filter(|inode: u64| cache[inode].resources == r);
    let without = cache.remove(key).dom().filter(
        |inode: u64| cache.remove(key)[inode].resources == r,
    );
    cache.dom().lemma_len_filter(|inode: u64| cache[inode].resources == r);
    assert(without =~= with.remove(key));
}

/// A cache with one entry more.
proof fn lemma_count_insert(
    cache: Map<u64, CachedImport>,
    key: u64,
    entry: CachedImport,
    r: Resources,
)
    requires
        cache.dom().finite(),
        !cache.contains_key(key),
    ensures
        count_cached(cache.insert(key, entry), r) == count_cached(cache, r) + (if entry.resources
            == r {
            1nat
        } else {
            0nat
        }),
{
    let after = cache.insert(key, entry);
    assert(after.remove(key) =~= cache);
    lemma_count_remove(after, key, r);
}

/// A lookup only moves entries: it neither gains nor loses resources.
proof fn lemma_count_lookup(s: ImporterView, inode: u64, now: u128, r: Resources)
    requires
        s.cache.dom().finite(),
        s.cache.contains_key(inode),
    ensures
        held(s.touched(inode, now), r) == held(s, r),
        held(s.retiring(inode, now), r) == held(s, r),
{
    let entry = CachedImport { last_used: now, ..s.cache[inode] };
    let rest = s.cache.remove(inode);
    lemma_count_remove(s.cache, inode, r);
    lemma_count_insert(rest, inode, entry, r);
    assert(s.touched(inode, now).cache =~= rest.insert(inode, entry));
    assert(crate::cache::resources_of(s.retired.push(entry)) =~= crate::cache::resources_of(
        s.retired,
    ).push(entry.resources));
    lemma_count_push(crate::cache::resources_of(s.retired), entry.resources, r);
}

/// Resources are conserved: whatever happens during a call, what was held and
/// what came in by a completed import is what is held after it and what was
/// given up to be destroyed. So an import stays held until it is given up, and
/// is given up once.
pub proof fn law_resources_are_conserved(
    s: ImporterView,
    event: Event,
    after: ImporterView,
    action: ActionView,
    r: Resources,
)
    requires
        s.wf(),
        s.awaits(&event),
        s.steps(event, after, action),
    ensures
        held(s, r) + entered(s, event, r) == held(after, r) + given_up(action, r),
{
    match (s.stage, event) {
        (Stage::ReadingSweepClock { request }, Event::Clock(now)) => {
            let released = action->Evict_0;
            let stale = crate::cache::expired_keys(s.cache, now);
            let keys = choose|keys: Seq<u64>| #[trigger]
                crate::cache::lists(keys, stale) && released == crate::cache::resources_at(
                    s.cache,
                    keys,
                ) + crate::cache::resources_of(crate::cache::expired_of(s.retired, now));
            assert(keys.to_set() =~= stale);
            lemma_count_keys(s.cache, keys, r);
            lemma_count_split(s.retired, now, r);
            lemma_count_add(
                crate::cache::resources_at(s.cache, keys),
                crate::cache::resources_of(crate::cache::expired_of(s.retired, now)),
                r,
            );
        },
        (Stage::ReadingClock { request, inode }, Event::Clock(now)) => {
            if s.cache.contains_key(inode) {
                lemma_count_lookup(s, inode, now, r);
            }
        },
        (Stage::Importing { inode, params, now, import }, event) => {
            if let Progress::Done(Ok(resources)) = import.next(event).1 {
                lemma_count_insert(
                    s.cache,
                    inode,
                    CachedImport { resources, params, last_used: now },
                    r,
                );
            }
        },
        _ => {},
    }
}

/// Beginning a call neither gains nor loses resources.
pub proof fn law_beginning_keeps_resources(
    s: ImporterView,
    request: ImportRequest,
    r: Resources,
)
    ensures
        held(s.begun(request).0, r) == held(s, r),
{
}

/// What is given up when an importer goes away is everything it holds, each as
/// often as it is held.
pub proof fn law_drain_gives_up_all(
    s: ImporterView,
    released: Seq<Resources>,
    r: Resources,
)
    requires
        s.wf(),
        s.lists_all(released),
    ensures
        count(released, r) == held(s, r),
{
    let keys = choose|keys: Seq<u64>| #[trigger]
        crate::cache::lists(keys, s.cache.dom()) && released == crate::cache::resources_at(
            s.cache,
            keys,
        ) + crate::cache::resources_of(s.retired);
    lemma_count_keys(s.cache, keys, r);
    lemma_count_add(
        crate::cache::resources_at(s.cache, keys),
        crate::cache::resources_of(s.retired),
        r,
    );
    let rest = s.cache.remove_keys(keys.to_set());
    assert(rest.dom().filter(|inode: u64| rest[inode].resources == r) =~= Set::empty());
}

} // verus!
