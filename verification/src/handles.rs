//! Which device handles are in use: as long as the device hands out none that an
//! entry holds, no image and no memory is held twice.
use vstd::prelude::*;

use crate::cache::{CachedImport, CACHE_TTL};
use crate::device::{ActionView, DeviceMemory, Event, Image, Resources};
use crate::importer::{ImportRequest, ImporterView, Stage};
use crate::raw_import::ImportStage;

verus! {

/// Whether an entry, cached or retired, holds `image`.
pub open spec fn holds_image(s: ImporterView, image: Image) -> bool {
    ||| exists|inode: u64| #[trigger]
        s.cache.contains_key(inode) && s.cache[inode].resources.image == image
    ||| exists|i: int|
        0 <= i < s.retired.len() && (#[trigger] s.retired[i]).resources.image == image
}

/// Whether an entry, cached or retired, holds `memory`.
pub open spec fn holds_memory(s: ImporterView, memory: DeviceMemory) -> bool {
    ||| exists|inode: u64| #[trigger]
        s.cache.contains_key(inode) && s.cache[inode].resources.memory == memory
    ||| exists|i: int|
        0 <= i < s.retired.len() && (#[trigger] s.retired[i]).resources.memory == memory
}

/// Whether what `event` hands out, if anything, is held by no entry.
pub open spec fn fresh(s: ImporterView, event: Event) -> bool {
    match event {
        Event::ImageCreated(Ok(image)) => !holds_image(s, image),
        Event::MemoryAllocated(Ok(memory)) => !holds_memory(s, memory),
        _ => true,
    }
}

/// Whether two entries have neither image nor memory in common.
pub open spec fn apart(a: CachedImport, b: CachedImport) -> bool {
    a.resources.image != b.resources.image && a.resources.memory != b.resources.memory
}

/// Whether no image and no memory occurs twice in cache and retired entries
/// together.
pub open spec fn entries_apart(s: ImporterView) -> bool {
    &&& forall|j: u64, k: u64|
        #![trigger s.cache.contains_key(j), s.cache.contains_key(k)]
        s.cache.contains_key(j) && s.cache.contains_key(k) && j != k ==> apart(
            s.cache[j],
            s.cache[k],
        )
    &&& forall|k: u64, i: int|
        #![trigger s.cache.contains_key(k), s.retired[i]]
        s.cache.contains_key(k) && 0 <= i < s.retired.len() ==> apart(s.cache[k], s.retired[i])
    &&& forall|i: int, j: int|
        #![trigger s.retired[i], s.retired[j]]
        0 <= i < j < s.retired.len() ==> apart(s.retired[i], s.retired[j])
}

/// The image that the import under way has been handed out, if any.
pub open spec fn pending_image(s: ImporterView) -> Option<Image> {
    match s.stage {
        Stage::Importing { import, .. } => match import.stage {
            ImportStage::ReadingRequirements { image } => Some(image),
            ImportStage::ReadingFdProperties { image, .. } => Some(image),
            ImportStage::DuplicatingFd { image, .. } => Some(image),
            ImportStage::FindingMemoryType { image, .. } => Some(image),
            ImportStage::AllocatingMemory { image } => Some(image),
            ImportStage::BindingMemory { image, .. } => Some(image),
            _ => None,
        },
        _ => None,
    }
}

/// The memory that the import under way has been handed out, if any.
pub open spec fn pending_memory(s: ImporterView) -> Option<DeviceMemory> {
    match s.stage {
        Stage::Importing { import, .. } => match import.stage {
            ImportStage::BindingMemory { memory, .. } => Some(memory),
            _ => None,
        },
        _ => None,
    }
}

/// Whether no entry holds what the import under way, if there is one, has been
/// handed out.
pub open spec fn import_apart(s: ImporterView) -> bool {
    &&& pending_image(s) matches Some(image) ==> !holds_image(s, image)
    &&& pending_memory(s) matches Some(memory) ==> !holds_memory(s, memory)
}

/// Whether an entry holds `image`, or the import under way has it.
pub open spec fn uses_image(s: ImporterView, image: Image) -> bool {
    holds_image(s, image) || pending_image(s) == Some(image)
}

/// Whether an entry holds `memory`, or the import under way has it.
pub open spec fn uses_memory(s: ImporterView, memory: DeviceMemory) -> bool {
    holds_memory(s, memory) || pending_memory(s) == Some(memory)
}

/// Whether every handle in use is in use once.
pub open spec fn handles_distinct(s: ImporterView) -> bool {
    entries_apart(s) && import_apart(s)
}

/// Whether `action` destroys `image`.
pub open spec fn destroys_image(action: ActionView, image: Image) -> bool {
    match action {
        ActionView::Evict(list) => exists|i: int|
            0 <= i < list.len() && (#[trigger] list[i]).image == image,
        ActionView::DestroyImage { image: gone } => gone == image,
        ActionView::FreeAndDestroy { image: gone, .. } => gone == image,
        _ => false,
    }
}

/// Whether `action` frees `memory`.
pub open spec fn frees_memory(action: ActionView, memory: DeviceMemory) -> bool {
    match action {
        ActionView::Evict(list) => exists|i: int|
            0 <= i < list.len() && (#[trigger] list[i]).memory == memory,
        ActionView::FreeAndDestroy { memory: gone, .. } => gone == memory,
        _ => false,
    }
}

/// Where the retired entries that a sweep leaves come from: no two of them from
/// the same place.
proof fn lemma_live_origin(list: Seq<CachedImport>, now: u128) -> (origin: Seq<int>)
    ensures
        origin.len() == crate::cache::live_of(list, now).len(),
        forall|i: int|
            0 <= i < origin.len() ==> 0 <= #[trigger] origin[i] < list.len()
                && list[origin[i]] == crate::cache::live_of(list, now)[i],
        forall|i: int, j: int|
            #![trigger origin[i], origin[j]]
            0 <= i < j < origin.len() ==> origin[i] < origin[j],
    decreases list.len(),
{
    reveal(Seq::filter);
    if list.len() == 0 {
        Seq::empty()
    } else {
        let init = lemma_live_origin(list.drop_last(), now);
        if crate::cache::expired(list.last(), now) {
            init
        } else {
            init.push(list.len() - 1)
        }
    }
}

/// A sweep keeps handles apart.
proof fn lemma_sweep_keeps_apart(s: ImporterView, now: u128)
    requires
        entries_apart(s),
    ensures
        entries_apart(s.swept(now)),
{
    let after = s.swept(now);
    let origin = lemma_live_origin(s.retired, now);
    assert forall|k: u64, i: int|
        #![trigger after.cache.contains_key(k), after.retired[i]]
        after.cache.contains_key(k) && 0 <= i < after.retired.len() implies apart(
        after.cache[k],
        after.retired[i],
    ) by {
        assert(s.retired[origin[i]] == after.retired[i]);
    }
    assert forall|i: int, j: int|
        #![trigger after.retired[i], after.retired[j]]
        0 <= i < j < after.retired.len() implies apart(after.retired[i], after.retired[j]) by {
        assert(s.retired[origin[i]] == after.retired[i]);
        assert(s.retired[origin[j]] == after.retired[j]);
    }
}

/// A sweep within [`CACHE_TTL`] of a use gives up nothing that has a handle in
/// common with what was used.
proof fn lemma_sweep_spares(
    s: ImporterView,
    now: u128,
    released: Seq<Resources>,
    r: Resources,
    t: u128,
)
    requires
        s.sweeps_out(now, released),
        t <= now <= t + CACHE_TTL,
        crate::laws::held_since(s, r, t),
        entries_apart(s),
    ensures
        forall|n: int|
            0 <= n < released.len() ==> (#[trigger] released[n]).image != r.image
                && released[n].memory != r.memory,
{
    let stale = crate::cache::expired_keys(s.cache, now);
    let gone = crate::cache::expired_of(s.retired, now);
    let keys = choose|keys: Seq<u64>| #[trigger]
        crate::cache::lists(keys, stale) && released == crate::cache::resources_at(s.cache, keys)
            + crate::cache::resources_of(gone);
    assert forall|n: int| 0 <= n < released.len() implies (#[trigger] released[n]).image != r.image
        && released[n].memory != r.memory by {
        if n < keys.len() {
            assert(keys.contains(keys[n]));
        } else {
            let entry = gone[n - keys.len()];
            let pred = |e: CachedImport| crate::cache::expired(e, now);
            s.retired.lemma_filter_pred(pred, n - keys.len());
            s.retired.lemma_filter_contains_rev(pred, entry);
        }
    }
}

/// As long as the device hands out no image and no memory that an entry holds,
/// no image and no memory comes to be held twice, whatever happens.
pub proof fn law_handles_stay_distinct(
    s: ImporterView,
    event: Event,
    after: ImporterView,
    action: ActionView,
)
    requires
        s.wf(),
        s.awaits(&event),
        s.steps(event, after, action),
        fresh(s, event),
        handles_distinct(s),
    ensures
        handles_distinct(after),
{
    match (s.stage, event) {
        (Stage::ReadingSweepClock { request }, Event::Clock(now)) => {
            lemma_sweep_keeps_apart(s, now);
        },
        _ => {},
    }
}

/// Beginning a call leaves handles as they are.
pub proof fn law_beginning_keeps_handles(s: ImporterView, request: ImportRequest)
    requires
        s.stage is Idle,
        handles_distinct(s),
    ensures
        handles_distinct(s.begun(request).0),
{
}

/// Nothing is held twice where no image and no memory is.
pub proof fn law_distinct_handles_are_held_once(s: ImporterView, r: Resources)
    requires
        s.wf(),
        entries_apart(s),
    ensures
        crate::accounting::held(s, r) <= 1,
{
    let holding = s.cache.dom().filter(|inode: u64| s.cache[inode].resources == r);
    let list = crate::cache::resources_of(s.retired);
    s.cache.dom().lemma_len_filter(|inode: u64| s.cache[inode].resources == r);
    crate::accounting::lemma_count_once(list, r);
    if holding.len() > 0 {
        let k = holding.choose();
        assert(holding.contains(k));
        assert(holding =~= Set::empty().insert(k));
    }
}

/// What was used at `t` is not destroyed by anything that happens within
/// [`CACHE_TTL`] of `t`: neither is its image, nor is its memory freed.
pub proof fn law_recent_use_is_not_destroyed(
    s: ImporterView,
    event: Event,
    after: ImporterView,
    action: ActionView,
    r: Resources,
    t: u128,
)
    requires
        s.wf(),
        s.awaits(&event),
        s.steps(event, after, action),
        event matches Event::Clock(now) ==> t <= now,
        s.stage is ReadingSweepClock ==> (event matches Event::Clock(now) && now <= t + CACHE_TTL),
        crate::laws::held_since(s, r, t),
        handles_distinct(s),
    ensures
        !destroys_image(action, r.image),
        !frees_memory(action, r.memory),
{
    match (s.stage, event) {
        (Stage::ReadingSweepClock { request }, Event::Clock(now)) => {
            lemma_sweep_spares(s, now, action->Evict_0, r, t);
        },
        _ => {},
    }
}

/// What an entry holds after a sweep has no handle in common with what the sweep
/// gave up.
proof fn lemma_sweep_parts(s: ImporterView, now: u128, released: Seq<Resources>)
    requires
        s.sweeps_out(now, released),
        entries_apart(s),
    ensures
        forall|n: int|
            0 <= n < released.len() ==> !holds_image(
                s.swept(now),
                (#[trigger] released[n]).image,
            ) && !holds_memory(s.swept(now), released[n].memory),
{
    let after = s.swept(now);
    let origin = lemma_live_origin(s.retired, now);
    assert forall|k: u64| #[trigger] after.cache.contains_key(k) implies forall|n: int|
        0 <= n < released.len() ==> (#[trigger] released[n]).image != after.cache[k].resources.image
            && released[n].memory != after.cache[k].resources.memory by {
        let e = s.cache[k];
        lemma_sweep_spares(s, now, released, e.resources, if e.last_used < now {
            e.last_used
        } else {
            now
        });
    }
    assert forall|i: int| 0 <= i < after.retired.len() implies forall|n: int|
        0 <= n < released.len() ==> (#[trigger] released[n]).image != (
        #[trigger] after.retired[i]).resources.image && released[n].memory
            != after.retired[i].resources.memory by {
        let e = after.retired[i];
        assert(s.retired[origin[i]] == e);
        s.retired.lemma_filter_pred(|e: CachedImport| !crate::cache::expired(e, now), i);
        lemma_sweep_spares(s, now, released, e.resources, if e.last_used < now {
            e.last_used
        } else {
            now
        });
    }
}

/// What is in use after a step was in use before it, or has just been handed
/// out, and the step does not destroy it.
pub proof fn law_in_use_is_not_destroyed(
    s: ImporterView,
    event: Event,
    after: ImporterView,
    action: ActionView,
    image: Image,
    memory: DeviceMemory,
)
    requires
        s.wf(),
        s.awaits(&event),
        s.steps(event, after, action),
        handles_distinct(s),
    ensures
        uses_image(after, image) ==> !destroys_image(action, image) && (uses_image(s, image)
            || event == Event::ImageCreated(Ok(image))),
        uses_memory(after, memory) ==> !frees_memory(action, memory) && (uses_memory(s, memory)
            || event == Event::MemoryAllocated(Ok(memory))),
{
    match (s.stage, event) {
        (Stage::ReadingSweepClock { request }, Event::Clock(now)) => {
            lemma_sweep_parts(s, now, action->Evict_0);
            let origin = lemma_live_origin(s.retired, now);
            assert(forall|i: int|
                0 <= i < after.retired.len() ==> #[trigger] after.retired[i]
                    == s.retired[origin[i]]);
        },
        _ => {},
    }
}

/// Everything that a drain gives up was held.
pub(crate) proof fn lemma_drain_gives_up_held(s: ImporterView, released: Seq<Resources>)
    requires
        s.lists_all(released),
    ensures
        forall|n: int|
            0 <= n < released.len() ==> holds_image(s, (#[trigger] released[n]).image)
                && holds_memory(s, released[n].memory),
{
    let keys = choose|keys: Seq<u64>| #[trigger]
        crate::cache::lists(keys, s.cache.dom()) && released == crate::cache::resources_at(
            s.cache,
            keys,
        ) + crate::cache::resources_of(s.retired);
    assert forall|n: int| 0 <= n < released.len() implies holds_image(
        s,
        (#[trigger] released[n]).image,
    ) && holds_memory(s, released[n].memory) by {
        if n < keys.len() {
            assert(keys.contains(keys[n]));
        }
    }
}

/// What is held once at most stays so, unless it is handed out again while it is
/// held.
pub proof fn law_held_once_at_most(
    s: ImporterView,
    event: Event,
    after: ImporterView,
    action: ActionView,
    r: Resources,
)
    requires
        s.wf(),
        s.awaits(&event),
        s.steps(event, after, action),
        crate::accounting::held(s, r) <= 1,
        crate::accounting::entered(s, event, r) == 1 ==> crate::accounting::held(s, r) == 0,
    ensures
        crate::accounting::held(after, r) <= 1,
{
    crate::accounting::law_resources_are_conserved(s, event, after, action, r);
}

} // verus!
