//! What each step of a call does, and how two calls relate, over the arguments of
//! the calls and what the world answered.
use vstd::prelude::*;

use crate::cache::CachedImport;
use crate::device::{ActionView, DeviceMemory, Event, Image, Resources};
use crate::error::ImportError;
use crate::importer::{ImportRequest, ImporterView, Stage};
use crate::params::{DmaBufPlane, Format, ImportParams};
use crate::raw_import::ImportStage;

verus! {

/// Whether two buffers are described alike: the same size and format, the same
/// modifier, as many planes as far as they are told apart, and each of those with
/// the same offset and stride.
pub open spec fn alike(
    width_a: u32,
    height_a: u32,
    format_a: Format,
    planes_a: Seq<DmaBufPlane>,
    width_b: u32,
    height_b: u32,
    format_b: Format,
    planes_b: Seq<DmaBufPlane>,
) -> bool {
    &&& width_a == width_b
    &&& height_a == height_b
    &&& format_a == format_b
    &&& planes_a.len() == planes_b.len() || (planes_a.len() >= 4 && planes_b.len() >= 4)
    &&& planes_a.len() > 0 && planes_b.len() > 0 ==> planes_a[0].modifier == planes_b[0].modifier
    &&& forall|i: int|
        0 <= i < 4 && i < planes_a.len() && i < planes_b.len() ==> (#[trigger] planes_a[i]).offset
            == planes_b[i].offset && planes_a[i].stride == planes_b[i].stride
}

/// Two requests have the same parameters exactly when they describe their
/// buffers alike.
pub proof fn law_requests_match_when_alike(a: ImportRequest, b: ImportRequest)
    ensures
        a.params() == b.params() <==> alike(
            a.width,
            a.height,
            a.format,
            a.planes@,
            b.width,
            b.height,
            b.format,
            b.planes@,
        ),
        a.params() == b.params() ==> a.format == b.format && a.width == b.width && a.height
            == b.height,
{
    crate::laws::law_matching_parameters(
        a.width,
        a.height,
        a.format,
        a.planes@,
        b.width,
        b.height,
        b.format,
        b.planes@,
    );
}

/// A request asks for what it was made with, and nothing else.
pub proof fn law_requests_ask_as_given(
    request: ImportRequest,
    fd: i32,
    width: u32,
    height: u32,
    format: Format,
    planes: Seq<DmaBufPlane>,
)
    ensures
        request.asks(fd, width, height, format, planes) <==> request.fd == fd && request.width
            == width && request.height == height && request.format == format && request.planes@
            == planes,
{
}

/// A new importer has nothing, counts from zero and is idle.
pub proof fn law_new_importers_are_empty(inode: u64)
    ensures
        !ImporterView::initial().cache.contains_key(inode),
        ImporterView::initial().retired.len() == 0,
        ImporterView::initial().calls_since_sweep == 0,
        ImporterView::initial().stage is Idle,
{
}

/// A call that begins is counted. The sixtieth since the last sweep reads the
/// time to sweep, every other one the inode of its buffer. Nothing that is held
/// changes.
pub proof fn law_beginning(s: ImporterView, request: ImportRequest)
    requires
        s.wf(),
    ensures
        s.calls_since_sweep <= 59,
        s.begun(request).0.cache == s.cache,
        s.begun(request).0.retired == s.retired,
        s.calls_since_sweep == 59 ==> s.begun(request).0.calls_since_sweep == 0,
        s.calls_since_sweep == 59 ==> s.begun(request).0.stage == (Stage::ReadingSweepClock {
            request,
        }),
        s.calls_since_sweep == 59 ==> s.begun(request).1 is ReadClock,
        s.calls_since_sweep < 59 ==> s.begun(request).0.calls_since_sweep == s.calls_since_sweep
            + 1,
        s.calls_since_sweep < 59 ==> s.begun(request).0.stage == (Stage::ReadingInode { request }),
        s.calls_since_sweep < 59 ==> s.begun(request).1 == (ActionView::Stat { fd: request.fd }),
{
}

/// A sweep drops exactly what went unused for more than two seconds, cached and
/// retired, and keeps the rest as it is and in order. It gives up what it drops:
/// the cached ones each once, then the retired ones in order.
pub proof fn law_sweeping(
    s: ImporterView,
    request: ImportRequest,
    now: u128,
    after: ImporterView,
    action: ActionView,
    inode: u64,
)
    requires
        s.stage == (Stage::ReadingSweepClock { request }),
        s.steps(Event::Clock(now), after, action),
    ensures
        after.stage == (Stage::Sweeping { request }),
        after.calls_since_sweep == s.calls_since_sweep,
        after.cache.contains_key(inode) <==> s.cache.contains_key(inode) && now
            <= s.cache[inode].last_used + 2_000_000_000,
        after.cache.contains_key(inode) ==> after.cache[inode] == s.cache[inode],
        after.retired == s.retired.filter(
            |e: CachedImport| now <= e.last_used + 2_000_000_000,
        ),
        action matches ActionView::Evict(released) && exists|keys: Seq<u64>|
            {
                &&& #[trigger] keys.no_duplicates()
                &&& forall|k: u64| #[trigger]
                    keys.contains(k) <==> s.cache.contains_key(k) && s.cache[k].last_used
                        + 2_000_000_000 < now
                &&& released == keys.map_values(|k: u64| s.cache[k].resources)
                    + s.retired.filter(
                    |e: CachedImport| e.last_used + 2_000_000_000 < now,
                ).map_values(|e: CachedImport| e.resources)
            },
{
    let kept = |e: CachedImport| now <= e.last_used + 2_000_000_000;
    let live = |e: CachedImport| !crate::cache::expired(e, now);
    assert(kept =~= live);
    let dropped = |e: CachedImport| e.last_used + 2_000_000_000 < now;
    let gone = |e: CachedImport| crate::cache::expired(e, now);
    assert(dropped =~= gone);
    let released = action->Evict_0;
    let stale = crate::cache::expired_keys(s.cache, now);
    let keys = choose|keys: Seq<u64>| #[trigger]
        crate::cache::lists(keys, stale) && released == crate::cache::resources_at(s.cache, keys)
            + crate::cache::resources_of(crate::cache::expired_of(s.retired, now));
    assert(keys.no_duplicates());
}

/// Once the stale entries are gone the call reads the inode of its buffer.
pub proof fn law_after_sweeping(
    s: ImporterView,
    request: ImportRequest,
    after: ImporterView,
    action: ActionView,
)
    requires
        s.stage == (Stage::Sweeping { request }),
        s.steps(Event::Released, after, action),
    ensures
        after == (ImporterView { stage: Stage::ReadingInode { request }, ..s }),
        action == (ActionView::Stat { fd: request.fd }),
{
}

/// A call that has the inode reads the time; one that cannot have it fails with
/// the reason, and changes nothing.
pub proof fn law_reading_the_inode(
    s: ImporterView,
    request: ImportRequest,
    answer: Result<u64, String>,
    after: ImporterView,
    action: ActionView,
)
    requires
        s.stage == (Stage::ReadingInode { request }),
        s.steps(Event::Stat(answer), after, action),
    ensures
        after.cache == s.cache,
        after.retired == s.retired,
        after.calls_since_sweep == s.calls_since_sweep,
        answer matches Ok(inode) ==> after.stage == (Stage::ReadingClock { request, inode }),
        answer is Ok ==> action is ReadClock,
        answer is Err ==> after.stage is Idle,
        answer matches Err(reason) ==> action == ActionView::Finish(
            Err(ImportError::Stat { fd: request.fd, reason }),
        ),
{
}

/// Whether an entry was imported for a buffer that was described like this.
pub open spec fn describes(entry: CachedImport, request: ImportRequest) -> bool {
    let n = request.planes@.len();
    &&& entry.params.width == request.width
    &&& entry.params.height == request.height
    &&& entry.params.format == request.format
    &&& entry.params.modifier == (if n > 0 {
        request.planes@[0].modifier
    } else {
        0
    })
    &&& entry.params.plane_count == (if n < 4 {
        n
    } else {
        4
    })
    &&& forall|i: int|
        0 <= i < 4 ==> #[trigger] entry.params.plane_layouts@[i] == (if i < n {
            (request.planes@[i].offset, request.planes@[i].stride)
        } else {
            (0u32, 0u32)
        })
}

/// A lookup finds the entry under the inode if that describes the buffer. It
/// then returns its image, which needs no transition, and marks the entry as used
/// just now, neither earlier nor later. If it does not, the entry leaves the cache
/// and is the last of the retired ones, as of now, and the buffer is imported, or
/// refused if it has no planes. Entries under other inodes stay as they are.
pub proof fn law_looking_up(
    s: ImporterView,
    request: ImportRequest,
    inode: u64,
    now: u128,
    after: ImporterView,
    action: ActionView,
    other: u64,
)
    requires
        s.stage == (Stage::ReadingClock { request, inode }),
        s.steps(Event::Clock(now), after, action),
    ensures
        after.calls_since_sweep == s.calls_since_sweep,
        other != inode ==> after.cache.contains_key(other) == s.cache.contains_key(other),
        other != inode && s.cache.contains_key(other) ==> after.cache[other] == s.cache[other],
        s.cache.contains_key(inode) && describes(s.cache[inode], request) ==> {
            &&& action == ActionView::Finish(Ok((s.cache[inode].resources.image, false)))
            &&& after.stage is Idle
            &&& after.retired == s.retired
            &&& after.cache.contains_key(inode)
            &&& after.cache[inode].last_used == now
            &&& after.cache[inode].resources == s.cache[inode].resources
            &&& after.cache[inode].params == s.cache[inode].params
        },
        !(s.cache.contains_key(inode) && describes(s.cache[inode], request)) ==> {
            &&& !after.cache.contains_key(inode)
            &&& !s.cache.contains_key(inode) ==> after.retired == s.retired
            &&& s.cache.contains_key(inode) ==> {
                &&& after.retired.len() == s.retired.len() + 1
                &&& after.retired.drop_last() == s.retired
                &&& after.retired.last().last_used == now
                &&& after.retired.last().resources == s.cache[inode].resources
                &&& after.retired.last().params == s.cache[inode].params
            }
            &&& request.planes@.len() == 0 ==> after.stage is Idle && action == ActionView::Finish(
                Err(ImportError::NoPlanes),
            )
            &&& request.planes@.len() > 0 ==> {
                &&& after.stage matches Stage::Importing { inode: key, params, now: time, import }
                &&& key == inode
                &&& time == now
                &&& import.fd == request.planes@[0].fd
                &&& import.stage is CreatingImage
                &&& describes(
                    CachedImport { resources: arbitrary(), params, last_used: now },
                    request,
                )
                &&& action matches ActionView::CreateImage { plan, plane_layouts }
                &&& plan.width == request.width
                &&& plan.height == request.height
                &&& plan.format == request.format
                &&& plan.modifier == request.planes@[0].modifier
                &&& plane_layouts.len() == request.planes@.len()
                &&& forall|i: int|
                    0 <= i < plane_layouts.len() ==> (#[trigger] plane_layouts[i]).offset
                        == request.planes@[i].offset && plane_layouts[i].row_pitch
                        == request.planes@[i].stride
            }
        },
{
    if s.cache.contains_key(inode) && describes(s.cache[inode], request) {
        assert(s.cache[inode].params.plane_layouts =~= request.params().plane_layouts);
    }
}

/// An import under way leaves everything as it is but its own stage, until its
/// memory is bound. It is then entered under the inode of its buffer, with the
/// parameters and the time of the call, and its image is returned as one that
/// still needs its transition. If it fails nothing is entered.
pub proof fn law_importing(
    s: ImporterView,
    event: Event,
    after: ImporterView,
    action: ActionView,
)
    requires
        s.stage is Importing,
        s.awaits(&event),
        s.steps(event, after, action),
    ensures
        after.retired == s.retired,
        after.calls_since_sweep == s.calls_since_sweep,
        s.stage matches Stage::Importing { inode, params, now, import } ==> {
            match (import.stage, event) {
                (ImportStage::BindingMemory { image, memory }, Event::MemoryBound(Ok(_))) => {
                    &&& after.stage is Idle
                    &&& action == ActionView::Finish(Ok((image, true)))
                    &&& after.cache == s.cache.insert(inode, after.cache[inode])
                    &&& after.cache[inode].resources.image == image
                    &&& after.cache[inode].resources.memory == memory
                    &&& after.cache[inode].params == params
                    &&& after.cache[inode].last_used == now
                },
                _ => {
                    &&& after.cache == s.cache
                    &&& action !is Finish ==> {
                        &&& after.stage matches Stage::Importing {
                            inode: key,
                            params: same,
                            now: time,
                            import: further,
                        }
                        &&& key == inode
                        &&& same == params
                        &&& time == now
                        &&& further == import.next(event).0
                    }
                    &&& action is Finish ==> after.stage is Idle && action->Finish_0 is Err
                },
            }
        },
{
}

/// What an import under way asks of the device is what the import needs next,
/// and its failure is the failure of the call.
pub proof fn law_importing_asks(
    s: ImporterView,
    event: Event,
    after: ImporterView,
    action: ActionView,
)
    requires
        s.stage is Importing,
        s.awaits(&event),
        s.steps(event, after, action),
    ensures
        s.stage matches Stage::Importing { inode, params, now, import } ==> match (
            import.stage,
            event,
        ) {
            (ImportStage::CreatingImage, Event::ImageCreated(Ok(image))) => action
                == (ActionView::QueryMemoryRequirements { image }),
            (ImportStage::CreatingImage, Event::ImageCreated(Err(code))) => action
                == ActionView::Finish(Err(ImportError::ImageCreation { code })),
            (ImportStage::ReadingRequirements { .. }, _) => action
                == (ActionView::QueryFdProperties { handle_type: 512, fd: import.fd }),
            (ImportStage::ReadingFdProperties { .. }, Event::FdProperties(Ok(_))) => action
                == (ActionView::DuplicateFd { fd: import.fd }),
            (ImportStage::ReadingFdProperties { .. }, Event::FdProperties(Err(code))) => action
                == ActionView::Finish(Err(ImportError::FdProperties { code })),
            (ImportStage::DuplicatingFd { type_bits, .. }, Event::FdDuplicated(Ok(_))) => action
                == (ActionView::FindMemoryType { type_bits, properties: 0 }),
            (ImportStage::DuplicatingFd { .. }, Event::FdDuplicated(Err(reason))) => action
                == ActionView::Finish(Err(ImportError::DuplicateFd { reason })),
            (
                ImportStage::FindingMemoryType { image, size, fd },
                Event::MemoryType(Some(index)),
            ) => action matches ActionView::AllocateMemory { request } && request.size == size
                && request.memory_type_index == index && request.handle_type == 512 && request.fd
                == fd && request.image == image,
            (ImportStage::FindingMemoryType { .. }, Event::MemoryType(None)) => action
                == ActionView::Finish(Err(ImportError::NoMemoryType)),
            (ImportStage::AllocatingMemory { image }, Event::MemoryAllocated(Ok(memory))) => action
                == (ActionView::BindMemory { image, memory, offset: 0 }),
            (ImportStage::AllocatingMemory { image }, Event::MemoryAllocated(Err(_))) => action
                == (ActionView::DestroyImage { image }),
            (ImportStage::BindingMemory { image, memory }, Event::MemoryBound(Err(_))) => action
                == (ActionView::FreeAndDestroy { memory, image }),
            (ImportStage::Undoing { error }, _) => action == ActionView::Finish(Err(error)),
            _ => true,
        },
{
}

/// Whether `event` is an answer to `action`, whatever it says.
pub open spec fn answers(event: Event, action: ActionView) -> bool {
    match action {
        ActionView::ReadClock => event is Clock,
        ActionView::Evict(_) => event is Released,
        ActionView::Stat { .. } => event is Stat,
        ActionView::CreateImage { .. } => event is ImageCreated,
        ActionView::QueryMemoryRequirements { .. } => event is MemoryRequirements,
        ActionView::QueryFdProperties { .. } => event is FdProperties,
        ActionView::DuplicateFd { .. } => event is FdDuplicated,
        ActionView::FindMemoryType { .. } => event is MemoryType,
        ActionView::AllocateMemory { .. } => event is MemoryAllocated,
        ActionView::BindMemory { .. } => event is MemoryBound,
        ActionView::DestroyImage { .. } => event is Released,
        ActionView::FreeAndDestroy { .. } => event is Released,
        ActionView::Finish(_) => false,
    }
}

/// A call waits for the answer to what it asked for, whatever the answer is, and
/// for nothing else. One that is over waits for nothing.
pub proof fn law_calls_wait_for_answers(
    s: ImporterView,
    request: ImportRequest,
    event: Event,
    after: ImporterView,
    action: ActionView,
    then: Event,
)
    ensures
        s.stage is Idle ==> !s.awaits(&event),
        s.begun(request).0.awaits(&then) <==> answers(then, s.begun(request).1),
        s.awaits(&event) && s.steps(event, after, action) ==> (after.awaits(&then) <==> answers(
            then,
            action,
        )),
{
}

/// What is given up when an importer goes away: what every cached entry holds,
/// each once, then what the retired ones hold, in order.
pub proof fn law_draining(s: ImporterView, released: Seq<Resources>)
    requires
        s.lists_all(released),
    ensures
        exists|keys: Seq<u64>|
            {
                &&& #[trigger] keys.no_duplicates()
                &&& forall|k: u64| #[trigger] keys.contains(k) <==> s.cache.contains_key(k)
                &&& released == keys.map_values(|k: u64| s.cache[k].resources)
                    + s.retired.map_values(|e: CachedImport| e.resources)
            },
{
    let keys = choose|keys: Seq<u64>| #[trigger]
        crate::cache::lists(keys, s.cache.dom()) && released == crate::cache::resources_at(
            s.cache,
            keys,
        ) + crate::cache::resources_of(s.retired);
    assert(keys.no_duplicates());
}

/// Where a call that reads the inode of its buffer gets to when it imports the
/// buffer and nothing fails, and its last action.
pub open spec fn after_import(
    s: ImporterView,
    inode: u64,
    t: u128,
    image: Image,
    size: u64,
    image_bits: u32,
    fd_bits: u32,
    duplicate: i32,
    index: u32,
    memory: DeviceMemory,
) -> (ImporterView, ActionView) {
    let timed = s.next(Event::Stat(Ok(inode))).0;
    let missed = timed.next(Event::Clock(t)).0;
    let created = missed.next(Event::ImageCreated(Ok(image))).0;
    let required = created.next(Event::MemoryRequirements { size, type_bits: image_bits }).0;
    let described = required.next(Event::FdProperties(Ok(fd_bits))).0;
    let duplicated = described.next(Event::FdDuplicated(Ok(duplicate))).0;
    let found = duplicated.next(Event::MemoryType(Some(index))).0;
    let allocated = found.next(Event::MemoryAllocated(Ok(memory))).0;
    allocated.next(Event::MemoryBound(Ok(())))
}

/// How a call relates to the call that imported what is cached under its inode:
/// it returns the image of that import if and only if the two calls describe
/// their buffers alike. Otherwise it asks for a new image, as it describes it.
///
/// `first` and `second` are the two calls. The first one, at `t`, found nothing
/// to reuse and was told `image` and `memory`. The second one, at `u`, finds the
/// entry that it left.
pub proof fn law_reuse_needs_a_call_that_is_alike(
    s: ImporterView,
    first: ImportRequest,
    fd_a: i32,
    width_a: u32,
    height_a: u32,
    format_a: Format,
    planes_a: Seq<DmaBufPlane>,
    inode: u64,
    t: u128,
    image: Image,
    size: u64,
    image_bits: u32,
    fd_bits: u32,
    duplicate: i32,
    index: u32,
    memory: DeviceMemory,
    later: ImporterView,
    second: ImportRequest,
    fd_b: i32,
    width_b: u32,
    height_b: u32,
    format_b: Format,
    planes_b: Seq<DmaBufPlane>,
    u: u128,
)
    requires
        s.wf(),
        first.asks(fd_a, width_a, height_a, format_a, planes_a),
        second.asks(fd_b, width_b, height_b, format_b, planes_b),
        s.stage == (Stage::ReadingInode { request: first }),
        s.next(Event::Stat(Ok(inode))).0.next(Event::Clock(t)).1 is CreateImage,
        later.stage == (Stage::ReadingInode { request: second }),
        later.cache.contains_key(inode),
        later.cache[inode].resources == (Resources { image, memory }),
        later.cache[inode].params == after_import(
            s,
            inode,
            t,
            image,
            size,
            image_bits,
            fd_bits,
            duplicate,
            index,
            memory,
        ).0.cache[inode].params,
    ensures
        after_import(
            s,
            inode,
            t,
            image,
            size,
            image_bits,
            fd_bits,
            duplicate,
            index,
            memory,
        ).1 == ActionView::Finish(Ok((image, true))),
        ({
            let action = later.next(Event::Stat(Ok(inode))).0.next(Event::Clock(u)).1;
            let same = alike(
                width_a,
                height_a,
                format_a,
                planes_a,
                width_b,
                height_b,
                format_b,
                planes_b,
            );
            &&& same <==> action == ActionView::Finish(Ok((image, false)))
            &&& format_a != format_b ==> !same
            &&& width_a != width_b || height_a != height_b ==> !same
            &&& !same && planes_b.len() == 0 ==> action == ActionView::Finish(
                Err(ImportError::NoPlanes),
            )
            &&& !same && planes_b.len() > 0 ==> {
                &&& action matches ActionView::CreateImage { plan, plane_layouts }
                &&& plan.width == width_b
                &&& plan.height == height_b
                &&& plan.format == format_b
                &&& plan.modifier == planes_b[0].modifier
                &&& plane_layouts.len() == planes_b.len()
                &&& forall|i: int|
                    0 <= i < plane_layouts.len() ==> (#[trigger] plane_layouts[i]).offset
                        == planes_b[i].offset && plane_layouts[i].row_pitch == planes_b[i].stride
            }
        }),
{
    law_requests_match_when_alike(first, second);
}

/// What a call marked as used at `t` and nothing used since is given up by the
/// first sweep that comes more than two seconds after `t`, and by no sweep before
/// that. So a reuse keeps its entry for two seconds, and no longer.
///
/// `s` is the state in which the call looks its buffer up, `later` one in which
/// its entry is as the call left it and a sweep takes place, at `time`.
pub proof fn law_reused_entries_expire(
    s: ImporterView,
    request: ImportRequest,
    inode: u64,
    t: u128,
    image: Image,
    done: ImporterView,
    later: ImporterView,
    time: u128,
    after: ImporterView,
    action: ActionView,
)
    requires
        s.stage == (Stage::ReadingClock { request, inode }),
        s.steps(Event::Clock(t), done, ActionView::Finish(Ok((image, false)))),
        later.stage is ReadingSweepClock,
        later.cache.contains_key(inode),
        later.cache[inode] == done.cache[inode],
        later.steps(Event::Clock(time), after, action),
    ensures
        later.cache[inode].resources.image == image,
        later.cache[inode].resources == s.cache[inode].resources,
        time > t + 2_000_000_000 ==> !after.cache.contains_key(inode) && (
        action matches ActionView::Evict(released) && released.contains(
            s.cache[inode].resources,
        )),
        time <= t + 2_000_000_000 ==> after.cache.contains_key(inode) && after.cache[inode]
            == done.cache[inode],
{
    crate::laws::law_sweep_gives_up_stale_entries(later, time, action->Evict_0, inode, 0);
}

/// An import that nothing used since is given up by the first sweep that comes
/// more than two seconds after the call that made it, and by no sweep before
/// that.
///
/// `s` is the state in which the import of a call at `t` binds its memory.
pub proof fn law_imported_entries_expire(
    s: ImporterView,
    inode: u64,
    t: u128,
    image: Image,
    done: ImporterView,
    later: ImporterView,
    time: u128,
    after: ImporterView,
    action: ActionView,
)
    requires
        s.stage matches Stage::Importing { inode: key, now, import, .. } && key == inode && now == t
            && import.stage is BindingMemory,
        s.steps(Event::MemoryBound(Ok(())), done, ActionView::Finish(Ok((image, true)))),
        later.stage is ReadingSweepClock,
        later.cache.contains_key(inode),
        later.cache[inode] == done.cache[inode],
        later.steps(Event::Clock(time), after, action),
    ensures
        later.cache[inode].resources.image == image,
        time > t + 2_000_000_000 ==> !after.cache.contains_key(inode) && (
        action matches ActionView::Evict(released) && released.contains(
            later.cache[inode].resources,
        )),
        time <= t + 2_000_000_000 ==> after.cache.contains_key(inode) && after.cache[inode]
            == done.cache[inode],
{
    crate::laws::law_sweep_gives_up_stale_entries(later, time, action->Evict_0, inode, 0);
}

/// An entry that a call at `t` did not find to describe its buffer is given up by
/// the first sweep that comes more than two seconds after `t`, and by no sweep
/// before that.
///
/// `s` is the state in which the call looks its buffer up, `later` one in which
/// the entry that it retired is still there and a sweep takes place, at `time`.
pub proof fn law_retired_entries_expire(
    s: ImporterView,
    request: ImportRequest,
    inode: u64,
    t: u128,
    done: ImporterView,
    answer: ActionView,
    later: ImporterView,
    i: int,
    time: u128,
    after: ImporterView,
    action: ActionView,
)
    requires
        s.stage == (Stage::ReadingClock { request, inode }),
        s.cache.contains_key(inode),
        !describes(s.cache[inode], request),
        s.steps(Event::Clock(t), done, answer),
        later.stage is ReadingSweepClock,
        0 <= i < later.retired.len(),
        later.retired[i] == done.retired.last(),
        later.steps(Event::Clock(time), after, action),
    ensures
        later.retired[i].resources == s.cache[inode].resources,
        later.retired[i].params == s.cache[inode].params,
        time > t + 2_000_000_000 ==> !after.retired.contains(later.retired[i]) && (
        action matches ActionView::Evict(released) && released.contains(
            s.cache[inode].resources,
        )),
        time <= t + 2_000_000_000 ==> after.retired.contains(later.retired[i]),
{
    law_looking_up(s, request, inode, t, done, answer, inode);
    crate::laws::law_sweep_gives_up_stale_entries(later, time, action->Evict_0, inode, i);
    crate::laws::law_sweep_keeps_recently_retired(later, time, later.retired[i]);
}

} // verus!
