//! What holds of whole imports, whole calls and sequences of calls.
use vstd::prelude::*;

use crate::cache::{CachedImport, CACHE_TTL};
use crate::device::{
    Action, ActionView, DeviceMemory, Event, Image, MemoryRequest, Resources, HANDLE_TYPE_DMA_BUF,
    MEMORY_PROPERTIES_NONE,
};
use crate::error::ImportError;
use crate::importer::{ImportRequest, ImporterView, Stage, SWEEP_INTERVAL_CALLS};
use crate::params::{DmaBufPlane, Format, ImportParams, MAX_PLANES};
use crate::raw_import::{ImportStage, Progress, RawImport};

verus! {

/// Everything that the device and the system may answer during a raw import.
pub struct Answers {
    pub created: Result<Image, i32>,
    pub size: u64,
    pub type_bits: u32,
    pub fd_properties: Result<u32, i32>,
    pub duplicated: Result<i32, String>,
    pub memory_type: Option<u32>,
    pub allocated: Result<DeviceMemory, i32>,
    pub bound: Result<(), i32>,
}

/// The result of an import with these answers: the image and its memory if
/// nothing failed, the error for the first thing that failed otherwise.
pub open spec fn import_result(a: Answers) -> Result<Resources, ImportError> {
    match (a.created, a.fd_properties, a.duplicated, a.memory_type, a.allocated, a.bound) {
        (Err(code), _, _, _, _, _) => Err(ImportError::ImageCreation { code }),
        (Ok(_), Err(code), _, _, _, _) => Err(ImportError::FdProperties { code }),
        (Ok(_), Ok(_), Err(reason), _, _, _) => Err(ImportError::DuplicateFd { reason }),
        (Ok(_), Ok(_), Ok(_), None, _, _) => Err(ImportError::NoMemoryType),
        (Ok(_), Ok(_), Ok(_), Some(_), Err(code), _) => Err(ImportError::MemoryImport { code }),
        (Ok(_), Ok(_), Ok(_), Some(_), Ok(_), Err(code)) => Err(ImportError::MemoryBind { code }),
        (Ok(image), Ok(_), Ok(_), Some(_), Ok(memory), Ok(_)) => Ok(Resources { image, memory }),
    }
}

/// The events of an import with these answers, in order: each answer as far as
/// it is asked for, and an acknowledgement where something had to be undone.
pub open spec fn import_events(a: Answers) -> Seq<Event> {
    let until_created = seq![Event::ImageCreated(a.created)];
    let until_fd_properties = until_created.push(
        Event::MemoryRequirements { size: a.size, type_bits: a.type_bits },
    ).push(Event::FdProperties(a.fd_properties));
    let until_duplicated = until_fd_properties.push(Event::FdDuplicated(a.duplicated));
    let until_memory_type = until_duplicated.push(Event::MemoryType(a.memory_type));
    let until_allocated = until_memory_type.push(Event::MemoryAllocated(a.allocated));
    let until_bound = until_allocated.push(Event::MemoryBound(a.bound));
    match import_result(a) {
        Err(ImportError::ImageCreation { .. }) => until_created,
        Err(ImportError::FdProperties { .. }) => until_fd_properties,
        Err(ImportError::DuplicateFd { .. }) => until_duplicated,
        Err(ImportError::NoMemoryType) => until_memory_type,
        Err(ImportError::MemoryImport { .. }) => until_allocated.push(Event::Released),
        Err(_) => until_bound.push(Event::Released),
        Ok(_) => until_bound,
    }
}

/// What an import of a buffer whose first plane has the descriptor `fd` asks
/// for with these answers, in order, after the image.
pub open spec fn import_actions(fd: i32, a: Answers) -> Seq<Action> {
    let image = a.created->Ok_0;
    let memory = a.allocated->Ok_0;
    let until_fd_properties = seq![
        Action::QueryMemoryRequirements { image },
        Action::QueryFdProperties { handle_type: HANDLE_TYPE_DMA_BUF, fd },
    ];
    let until_duplicated = until_fd_properties.push(Action::DuplicateFd { fd });
    let until_memory_type = until_duplicated.push(
        Action::FindMemoryType {
            type_bits: a.type_bits & a.fd_properties->Ok_0,
            properties: MEMORY_PROPERTIES_NONE,
        },
    );
    let until_allocated = until_memory_type.push(
        Action::AllocateMemory {
            request: MemoryRequest {
                size: a.size,
                memory_type_index: a.memory_type->Some_0,
                handle_type: HANDLE_TYPE_DMA_BUF,
                fd: a.duplicated->Ok_0,
                image,
            },
        },
    );
    let until_bound = until_allocated.push(Action::BindMemory { image, memory, offset: 0 });
    match import_result(a) {
        Err(ImportError::ImageCreation { .. }) => seq![],
        Err(ImportError::FdProperties { .. }) => until_fd_properties,
        Err(ImportError::DuplicateFd { .. }) => until_duplicated,
        Err(ImportError::NoMemoryType) => until_memory_type,
        Err(ImportError::MemoryImport { .. }) => until_allocated.push(
            Action::DestroyImage { image },
        ),
        Err(_) => until_bound.push(Action::FreeAndDestroy { memory, image }),
        Ok(_) => until_bound,
    }
}

/// What an import makes of a row of events.
pub open spec fn import_run(import: RawImport, events: Seq<Event>) -> Seq<Progress>
    decreases events.len(),
{
    if events.len() == 0 {
        seq![]
    } else {
        let (next, progress) = import.next(events.first());
        seq![progress] + import_run(next, events.drop_first())
    }
}

/// Whether an import waits for each event of a row in turn.
pub open spec fn import_expects(import: RawImport, events: Seq<Event>) -> bool
    decreases events.len(),
{
    events.len() == 0 || (import.spec_awaits(&events.first()) && import_expects(
        import.next(events.first()).0,
        events.drop_first(),
    ))
}

/// An import that has just asked for its image.
pub open spec fn started_import(fd: i32) -> RawImport {
    RawImport { fd, stage: ImportStage::CreatingImage }
}

/// Whatever the device and the system answer, an import asks for exactly what
/// [`import_actions`] lists and ends with [`import_result`].
pub proof fn law_import_outcome(fd: i32, a: Answers)
    ensures
        import_expects(started_import(fd), import_events(a)),
        import_run(started_import(fd), import_events(a)) == import_actions(fd, a).map_values(
            |action: Action| Progress::Act(action),
        ).push(Progress::Done(import_result(a))),
{
    reveal_with_fuel(import_run, 9);
    reveal_with_fuel(import_expects, 9);
}

/// An import that fails leaves neither image nor memory behind: without an
/// image there is nothing to undo, if the memory was not imported it has the
/// image destroyed, and if the memory was not bound it has both given back. An
/// import that succeeds destroys nothing. This holds unless the import fails
/// between the image and the memory: for want of descriptor properties, of a
/// duplicate or of a memory type.
///
/// Descriptors are another matter: only a successful allocation consumes the
/// duplicate. If there is no memory type for it, or the memory cannot be
/// imported, the duplicate is left open.
pub proof fn law_failed_import_is_undone(fd: i32, a: Answers)
    requires
        a.created is Ok ==> a.fd_properties is Ok && a.duplicated is Ok && a.memory_type is Some,
    ensures
        a.created is Err ==> import_result(a) is Err && import_actions(fd, a).len() == 0,
        a.created is Ok ==> ({
            let image = a.created->Ok_0;
            let memory = a.allocated->Ok_0;
            let actions = import_actions(fd, a);
            &&& actions.contains(Action::DestroyImage { image }) <==> a.allocated is Err
            &&& actions.contains(Action::FreeAndDestroy { memory, image }) <==> a.allocated is Ok
                && a.bound is Err
            &&& import_result(a) is Ok <==> a.allocated is Ok && a.bound is Ok
        }),
{
    let image = a.created->Ok_0;
    let memory = a.allocated->Ok_0;
    let actions = import_actions(fd, a);
    if a.created is Ok && import_result(a) is Err {
        assert(actions[actions.len() - 1] == (if a.allocated is Err {
            Action::DestroyImage { image }
        } else {
            Action::FreeAndDestroy { memory, image }
        }));
    }
}

/// The state after a row of events, none of which is a sweep.
pub open spec fn call_end(s: ImporterView, events: Seq<Event>) -> ImporterView
    decreases events.len(),
{
    if events.len() == 0 {
        s
    } else {
        call_end(s.next(events.first()).0, events.drop_first())
    }
}

/// What a call asks for over a row of events, none of which is a sweep.
pub open spec fn call_actions(s: ImporterView, events: Seq<Event>) -> Seq<ActionView>
    decreases events.len(),
{
    if events.len() == 0 {
        seq![]
    } else {
        let (next, action) = s.next(events.first());
        seq![action] + call_actions(next, events.drop_first())
    }
}

/// The events by which a call learns which buffer it is about, and when.
pub open spec fn use_events(inode: u64, now: u128) -> Seq<Event> {
    seq![Event::Stat(Ok(inode)), Event::Clock(now)]
}

/// The state in which a call reads the inode of its buffer. If a sweep was due,
/// `time` is when it took place.
pub open spec fn reading_inode(
    s: ImporterView,
    request: ImportRequest,
    time: u128,
) -> ImporterView {
    if s.sweep_due() {
        ImporterView {
            calls_since_sweep: 0,
            stage: Stage::ReadingInode { request },
            ..s.swept(time)
        }
    } else {
        ImporterView {
            calls_since_sweep: (s.calls_since_sweep + 1) as u32,
            stage: Stage::ReadingInode { request },
            ..s
        }
    }
}

/// A call goes on to read the inode of its buffer: at once, or, when a sweep is
/// due, after it has read the time and had the stale entries destroyed.
pub proof fn law_call_begins(
    s: ImporterView,
    request: ImportRequest,
    time: u128,
    after: ImporterView,
    action: ActionView,
)
    requires
        s.wf(),
        s.stage is Idle,
    ensures
        !s.sweep_due() ==> s.begun(request) == (
            reading_inode(s, request, time),
            ActionView::Stat { fd: request.fd },
        ),
        s.sweep_due() ==> s.begun(request).1 is ReadClock,
        s.sweep_due() && s.begun(request).0.steps(Event::Clock(time), after, action) ==> (
        action matches ActionView::Evict(released) && s.sweeps_out(time, released)) && after.next(
            Event::Released,
        ) == (reading_inode(s, request, time), ActionView::Stat { fd: request.fd }),
{
}

/// A call whose buffer has no readable inode fails, and changes nothing more.
pub proof fn law_unreadable_inode_fails(s: ImporterView, request: ImportRequest, reason: String)
    requires
        s.stage == (Stage::ReadingInode { request }),
    ensures
        s.next(Event::Stat(Err(reason))) == (
            s.at(Stage::Idle),
            ActionView::Finish(Err(ImportError::Stat { fd: request.fd, reason })),
        ),
{
}

/// A call for a cached buffer, by inode and parameters, returns the cached
/// image, marks it as used, and asks nothing of the device.
pub proof fn law_cached_buffer_is_reused(
    s: ImporterView,
    request: ImportRequest,
    inode: u64,
    now: u128,
)
    requires
        s.wf(),
        s.stage == (Stage::ReadingInode { request }),
        s.cache.contains_key(inode),
        s.cache[inode].params == request.params(),
    ensures
        call_end(s, use_events(inode, now)) == s.touched(inode, now).at(Stage::Idle),
        call_actions(s, use_events(inode, now)) == seq![
            ActionView::ReadClock,
            ActionView::Finish(Ok((s.cache[inode].resources.image, false))),
        ],
{
    reveal_with_fuel(call_end, 3);
    reveal_with_fuel(call_actions, 3);
}

/// What a call asks for over two rows of events, and where they lead.
proof fn lemma_call_concat(s: ImporterView, a: Seq<Event>, b: Seq<Event>)
    ensures
        call_end(s, a + b) == call_end(call_end(s, a), b),
        call_actions(s, a + b) == call_actions(s, a) + call_actions(call_end(s, a), b),
    decreases a.len(),
{
    if a.len() > 0 {
        let next = s.next(a.first()).0;
        assert((a + b).drop_first() =~= a.drop_first() + b);
        lemma_call_concat(next, a.drop_first(), b);
    }
}

/// A call passes on what its import asks for.
proof fn lemma_call_imports(
    s: ImporterView,
    inode: u64,
    params: ImportParams,
    now: u128,
    import: RawImport,
    events: Seq<Event>,
    actions: Seq<Action>,
    result: Result<Resources, ImportError>,
)
    requires
        s.stage == (Stage::Importing { inode, params, now, import }),
        import_run(import, events) == actions.map_values(
            |action: Action| Progress::Act(action),
        ).push(Progress::Done(result)),
    ensures
        call_end(s, events) == (match result {
            Ok(resources) => s.recorded(inode, params, now, resources),
            Err(_) => s,
        }).at(Stage::Idle),
        call_actions(s, events) == actions.map_values(|action: Action| action@).push(
            ActionView::Finish(
                match result {
                    Ok(resources) => Ok((resources.image, true)),
                    Err(error) => Err(error),
                },
            ),
        ),
    decreases events.len(),
{
    let run = import_run(import, events);
    assert(run.len() > 0);
    let (next, progress) = import.next(events.first());
    let rest = import_run(next, events.drop_first());
    assert(run[0] == progress);
    if actions.len() == 0 {
        lemma_run_len(next, events.drop_first());
        reveal_with_fuel(call_end, 2);
        reveal_with_fuel(call_actions, 2);
    } else {
        let tail = actions.drop_first();
        assert(rest =~= tail.map_values(|action: Action| Progress::Act(action)).push(
            Progress::Done(result),
        )) by {
            assert(rest =~= run.drop_first());
        }
        lemma_call_imports(
            s.next(events.first()).0,
            inode,
            params,
            now,
            next,
            events.drop_first(),
            tail,
            result,
        );
    }
}

/// An import answers each event once.
proof fn lemma_run_len(import: RawImport, events: Seq<Event>)
    ensures
        import_run(import, events).len() == events.len(),
    decreases events.len(),
{
    if events.len() > 0 {
        lemma_run_len(import.next(events.first()).0, events.drop_first());
    }
}

/// A call for a buffer that is not cached, or cached with other parameters,
/// imports it. An entry left under the inode is retired, never reused. The
/// result is that of the import: on success the new image, still to be
/// transitioned, which is now cached under the inode; on failure the error, and
/// the inode has no entry.
pub proof fn law_other_buffer_is_imported(
    s: ImporterView,
    request: ImportRequest,
    inode: u64,
    now: u128,
    a: Answers,
)
    requires
        s.wf(),
        s.stage == (Stage::ReadingInode { request }),
        s.cache.contains_key(inode) ==> s.cache[inode].params != request.params(),
        request.planes@.len() > 0,
    ensures
        call_end(s, use_events(inode, now) + import_events(a)) == (match import_result(a) {
            Ok(resources) => s.retiring(inode, now).recorded(
                inode,
                request.params(),
                now,
                resources,
            ),
            Err(_) => s.retiring(inode, now),
        }).at(Stage::Idle),
        call_actions(s, use_events(inode, now) + import_events(a)) == seq![
            ActionView::ReadClock,
            ActionView::CreateImage {
                plan: crate::device::image_plan(
                    request.width,
                    request.height,
                    request.format,
                    request.planes@[0].modifier,
                ),
                plane_layouts: crate::device::image_layouts(request.planes@),
            },
        ] + import_actions(request.planes@[0].fd, a).map_values(|action: Action| action@).push(
            ActionView::Finish(
                match import_result(a) {
                    Ok(resources) => Ok((resources.image, true)),
                    Err(error) => Err(error),
                },
            ),
        ),
{
    let fd = request.planes@[0].fd;
    let first = use_events(inode, now);
    law_import_outcome(fd, a);
    lemma_call_concat(s, first, import_events(a));
    reveal_with_fuel(call_end, 3);
    reveal_with_fuel(call_actions, 3);
    let s1 = s.retiring(inode, now).at(
        Stage::Importing { inode, params: request.params(), now, import: started_import(fd) },
    );
    lemma_call_imports(
        s1,
        inode,
        request.params(),
        now,
        started_import(fd),
        import_events(a),
        import_actions(fd, a),
        import_result(a),
    );
}

/// A buffer without planes is refused, whatever is cached. An entry left under
/// the inode is retired.
pub proof fn law_no_planes_is_refused(
    s: ImporterView,
    request: ImportRequest,
    inode: u64,
    now: u128,
)
    requires
        s.wf(),
        s.stage == (Stage::ReadingInode { request }),
        request.planes@.len() == 0,
    ensures
        call_end(s, use_events(inode, now)) == s.retiring(inode, now).at(Stage::Idle),
        call_actions(s, use_events(inode, now)) == seq![
            ActionView::ReadClock,
            ActionView::Finish(Err(ImportError::NoPlanes)),
        ],
{
    reveal_with_fuel(call_end, 3);
    reveal_with_fuel(call_actions, 3);
}

/// The same buffer is imported only once: when a call has imported it, the next
/// call for it returns the same image, needs no transition, and asks nothing of
/// the device, even if that call sweeps, as long as the sweep comes within
/// [`CACHE_TTL`] of the import.
pub proof fn law_buffer_is_imported_once(
    s: ImporterView,
    first: ImportRequest,
    inode: u64,
    now: u128,
    a: Answers,
    second: ImportRequest,
    sweep: u128,
    later: u128,
)
    requires
        s.wf(),
        s.stage == (Stage::ReadingInode { request: first }),
        s.cache.contains_key(inode) ==> s.cache[inode].params != first.params(),
        first.planes@.len() > 0,
        import_result(a) is Ok,
        second.params() == first.params(),
        sweep <= now + CACHE_TTL,
    ensures
        ({
            let done = call_end(s, use_events(inode, now) + import_events(a));
            call_actions(reading_inode(done, second, sweep), use_events(inode, later)) == seq![
                ActionView::ReadClock,
                ActionView::Finish(Ok((import_result(a)->Ok_0.image, false))),
            ]
        }),
{
    law_other_buffer_is_imported(s, first, inode, now, a);
    let done = call_end(s, use_events(inode, now) + import_events(a));
    let again = reading_inode(done, second, sweep);
    vstd::set_lib::lemma_len_subset(again.cache.dom(), done.cache.dom());
    law_cached_buffer_is_reused(again, second, inode, later);
}

/// A retired entry keeps its resources, counts as used when it was retired, and
/// is out of the cache.
pub proof fn law_mismatched_entry_is_retired(s: ImporterView, inode: u64, now: u128)
    requires
        s.cache.contains_key(inode),
    ensures
        !s.retiring(inode, now).cache.contains_key(inode),
        s.retiring(inode, now).retired.last() == (CachedImport {
            last_used: now,
            ..s.cache[inode]
        }),
{
}

/// Whether the cache serves `r` for a buffer with this inode and these
/// parameters, used at `t` or later.
pub open spec fn serves_since(
    s: ImporterView,
    inode: u64,
    params: ImportParams,
    r: Resources,
    t: u128,
) -> bool {
    &&& s.cache.contains_key(inode)
    &&& s.cache[inode].params == params
    &&& s.cache[inode].resources == r
    &&& s.cache[inode].last_used >= t
}

/// A cached import goes on being served: nothing that happens within
/// [`CACHE_TTL`] of its last use takes it away, as long as clocks do not run
/// backwards, but a call that finds a different buffer under its inode.
pub proof fn law_cached_import_goes_on_being_served(
    s: ImporterView,
    event: Event,
    after: ImporterView,
    action: ActionView,
    inode: u64,
    params: ImportParams,
    r: Resources,
    t: u128,
)
    requires
        s.wf(),
        s.awaits(&event),
        s.steps(event, after, action),
        serves_since(s, inode, params, r, t),
        event matches Event::Clock(now) ==> t <= now,
        s.stage is ReadingSweepClock ==> (event matches Event::Clock(now) && now <= t + CACHE_TTL),
        s.stage matches Stage::ReadingClock { request, inode: found } ==> (found == inode
            ==> request.params() == params),
    ensures
        serves_since(after, inode, params, r, t),
{
}

/// What happens during a call leaves the entries of other buffers alone, unless
/// they are swept.
pub proof fn law_other_buffers_are_untouched(
    s: ImporterView,
    event: Event,
    after: ImporterView,
    action: ActionView,
    other: u64,
)
    requires
        s.wf(),
        s.awaits(&event),
        s.steps(event, after, action),
        !(s.stage is ReadingSweepClock),
        s.stage matches Stage::ReadingClock { inode, .. } ==> inode != other,
        s.stage matches Stage::Importing { inode, .. } ==> inode != other,
    ensures
        after.cache.contains_key(other) == s.cache.contains_key(other),
        s.cache.contains_key(other) ==> after.cache[other] == s.cache[other],
{
}

/// After a sweep exactly the entries that were used within [`CACHE_TTL`] are
/// left, as they were.
pub proof fn law_sweep_keeps_recent_entries(s: ImporterView, now: u128, inode: u64)
    ensures
        s.swept(now).cache.contains_key(inode) <==> s.cache.contains_key(inode) && now
            <= s.cache[inode].last_used + CACHE_TTL,
        s.swept(now).cache.contains_key(inode) ==> s.swept(now).cache[inode] == s.cache[inode],
{
}

/// After a sweep exactly the retired entries that were retired within
/// [`CACHE_TTL`] are left.
pub proof fn law_sweep_keeps_recently_retired(s: ImporterView, now: u128, entry: CachedImport)
    ensures
        s.swept(now).retired.contains(entry) <==> s.retired.contains(entry) && now
            <= entry.last_used + CACHE_TTL,
{
    let live = |e: CachedImport| !crate::cache::expired(e, now);
    if s.swept(now).retired.contains(entry) {
        s.retired.lemma_filter_contains_rev(live, entry);
        let kept = s.swept(now).retired;
        let i = choose|i: int| 0 <= i < kept.len() && kept[i] == entry;
        s.retired.lemma_filter_pred(live, i);
    }
    if s.retired.contains(entry) && live(entry) {
        let i = choose|i: int| 0 <= i < s.retired.len() && s.retired[i] == entry;
        s.retired.lemma_filter_contains(live, i);
    }
}

/// A sweep gives up every entry that has gone unused for longer than
/// [`CACHE_TTL`], cached or retired.
pub proof fn law_sweep_gives_up_stale_entries(
    s: ImporterView,
    now: u128,
    released: Seq<Resources>,
    inode: u64,
    i: int,
)
    requires
        s.sweeps_out(now, released),
    ensures
        s.cache.contains_key(inode) && s.cache[inode].last_used + CACHE_TTL < now
            ==> released.contains(s.cache[inode].resources),
        0 <= i < s.retired.len() && s.retired[i].last_used + CACHE_TTL < now ==> released.contains(
            s.retired[i].resources,
        ),
{
    let stale = crate::cache::expired_keys(s.cache, now);
    let gone = crate::cache::expired_of(s.retired, now);
    let keys = choose|keys: Seq<u64>| #[trigger]
        crate::cache::lists(keys, stale) && released == crate::cache::resources_at(s.cache, keys)
            + crate::cache::resources_of(gone);
    if s.cache.contains_key(inode) && s.cache[inode].last_used + CACHE_TTL < now {
        assert(stale.contains(inode));
        let j = choose|j: int| 0 <= j < keys.len() && keys[j] == inode;
        assert(released[j] == s.cache[inode].resources);
    }
    if 0 <= i < s.retired.len() && s.retired[i].last_used + CACHE_TTL < now {
        s.retired.lemma_filter_contains(|e: CachedImport| crate::cache::expired(e, now), i);
        let j = choose|j: int| 0 <= j < gone.len() && gone[j] == s.retired[i];
        assert(released[keys.len() + j] == s.retired[i].resources);
    }
}

/// Whether an entry, cached or retired, holds `r` and was last used at `t` or
/// later.
pub open spec fn held_since(s: ImporterView, r: Resources, t: u128) -> bool {
    ||| exists|inode: u64| #[trigger]
        s.cache.contains_key(inode) && s.cache[inode].resources == r && s.cache[inode].last_used
            >= t
    ||| exists|i: int|
        0 <= i < s.retired.len() && (#[trigger] s.retired[i]).resources == r
            && s.retired[i].last_used >= t
}

/// What was used at `t` stays held through everything that happens within
/// [`CACHE_TTL`] of `t`, so in-flight work on it can complete: as long as clocks
/// do not run backwards, no sweep until then drops it.
pub proof fn law_recent_use_is_protected(
    s: ImporterView,
    event: Event,
    after: ImporterView,
    action: ActionView,
    r: Resources,
    t: u128,
)
    requires
        s.wf(),
        s.awaits(&event),
        s.steps(event, after, action),
        event matches Event::Clock(now) ==> t <= now,
        s.stage is ReadingSweepClock ==> (event matches Event::Clock(now) && now <= t + CACHE_TTL),
        held_since(s, r, t),
    ensures
        held_since(after, r, t),
{
    if exists|inode: u64| #[trigger]
        s.cache.contains_key(inode) && s.cache[inode].resources == r && s.cache[inode].last_used
            >= t {
        let k = choose|inode: u64| #[trigger]
            s.cache.contains_key(inode) && s.cache[inode].resources == r
                && s.cache[inode].last_used >= t;
        if !after.cache.contains_key(k) {
            assert(after.retired.last().resources == r);
        }
    } else {
        let i = choose|i: int|
            0 <= i < s.retired.len() && (#[trigger] s.retired[i]).resources == r
                && s.retired[i].last_used >= t;
        match (s.stage, event) {
            (Stage::ReadingSweepClock { request }, Event::Clock(now)) => {
                law_sweep_keeps_recently_retired(s, now, s.retired[i]);
            },
            _ => {
                assert(after.retired[i] == s.retired[i]);
            },
        }
    }
}

/// What an entry holds is counted as held.
proof fn lemma_held_since_is_held(s: ImporterView, r: Resources, t: u128)
    requires
        s.wf(),
        held_since(s, r, t),
    ensures
        crate::accounting::held(s, r) > 0,
{
    if exists|inode: u64| #[trigger]
        s.cache.contains_key(inode) && s.cache[inode].resources == r && s.cache[inode].last_used
            >= t {
        let k = choose|inode: u64| #[trigger]
            s.cache.contains_key(inode) && s.cache[inode].resources == r
                && s.cache[inode].last_used >= t;
        let holding = s.cache.dom().filter(|inode: u64| s.cache[inode].resources == r);
        s.cache.dom().lemma_len_filter(|inode: u64| s.cache[inode].resources == r);
        assert(holding.contains(k));
    } else {
        let i = choose|i: int|
            0 <= i < s.retired.len() && (#[trigger] s.retired[i]).resources == r
                && s.retired[i].last_used >= t;
        let list = crate::cache::resources_of(s.retired);
        assert(list.contains(list[i]));
        crate::accounting::lemma_count_member(list, r);
    }
}

/// Resources that are held once and were used at `t` are not given up to be
/// destroyed by anything that happens within [`CACHE_TTL`] of `t`. When they are
/// held once is the subject of
/// [`law_nothing_is_held_twice`](crate::history::law_nothing_is_held_twice).
pub proof fn law_recent_use_is_not_given_up(
    s: ImporterView,
    event: Event,
    after: ImporterView,
    action: ActionView,
    r: Resources,
    t: u128,
)
    requires
        s.wf(),
        s.awaits(&event),
        s.steps(event, after, action),
        event matches Event::Clock(now) ==> t <= now,
        s.stage is ReadingSweepClock ==> (event matches Event::Clock(now) && now <= t + CACHE_TTL),
        held_since(s, r, t),
        crate::accounting::held(s, r) == 1,
    ensures
        crate::accounting::given_up(action, r) == 0,
{
    if s.stage is ReadingSweepClock {
        law_calls_end(s, event, after, action);
        law_recent_use_is_protected(s, event, after, action, r, t);
        lemma_held_since_is_held(after, r, t);
        crate::accounting::law_resources_are_conserved(s, event, after, action, r);
    }
}

/// An image that a call returns counts as used at the time the call read, and
/// so does an entry that it retired.
pub proof fn law_use_is_recorded(
    s: ImporterView,
    inode: u64,
    params: ImportParams,
    now: u128,
    r: Resources,
)
    ensures
        s.cache.contains_key(inode) ==> held_since(
            s.touched(inode, now),
            s.cache[inode].resources,
            now,
        ),
        s.cache.contains_key(inode) ==> held_since(
            s.retiring(inode, now),
            s.cache[inode].resources,
            now,
        ),
        held_since(s.recorded(inode, params, now, r), r, now),
{
    assert(s.recorded(inode, params, now, r).cache.contains_key(inode));
    if s.cache.contains_key(inode) {
        assert(s.touched(inode, now).cache.contains_key(inode));
        let retired = s.retiring(inode, now).retired;
        assert(retired[retired.len() - 1].resources == s.cache[inode].resources);
    }
}

/// Every sixtieth call sweeps, and no other: the counter of an importer shows
/// the number of calls so far, modulo the interval.
pub proof fn law_sweep_schedule(s: ImporterView, request: ImportRequest, calls: nat)
    requires
        s.wf(),
        s.calls_since_sweep == calls % (SWEEP_INTERVAL_CALLS as nat),
    ensures
        s.begun(request).0.calls_since_sweep == (calls + 1) % (SWEEP_INTERVAL_CALLS as nat),
        s.begun(request).0.stage is ReadingSweepClock <==> (calls + 1) % (
        SWEEP_INTERVAL_CALLS as nat) == 0,
{
}

/// Nothing but the beginning of a call moves the sweep counter.
pub proof fn law_only_calls_are_counted(
    s: ImporterView,
    event: Event,
    after: ImporterView,
    action: ActionView,
)
    requires
        s.awaits(&event),
        s.steps(event, after, action),
    ensures
        after.calls_since_sweep == s.calls_since_sweep,
{
}

/// How many events at most a call still waits for.
pub open spec fn events_left(s: ImporterView) -> nat {
    match s.stage {
        Stage::Idle => 0,
        Stage::ReadingSweepClock { .. } => 12,
        Stage::Sweeping { .. } => 11,
        Stage::ReadingInode { .. } => 10,
        Stage::ReadingClock { .. } => 9,
        Stage::Importing { import, .. } => match import.stage {
            ImportStage::CreatingImage => 8,
            ImportStage::ReadingRequirements { .. } => 7,
            ImportStage::ReadingFdProperties { .. } => 6,
            ImportStage::DuplicatingFd { .. } => 5,
            ImportStage::FindingMemoryType { .. } => 4,
            ImportStage::AllocatingMemory { .. } => 3,
            ImportStage::BindingMemory { .. } => 2,
            ImportStage::Undoing { .. } => 1,
            ImportStage::Ended => 0,
        },
    }
}

/// Every call ends: each event brings it nearer to its end, and it is over when,
/// and only when, its action is to finish.
pub proof fn law_calls_end(
    s: ImporterView,
    event: Event,
    after: ImporterView,
    action: ActionView,
)
    requires
        s.wf(),
        s.awaits(&event),
        s.steps(event, after, action),
    ensures
        events_left(after) < events_left(s),
        after.stage is Idle <==> action is Finish,
        after.wf(),
{
    if s.stage is ReadingSweepClock {
        vstd::set_lib::lemma_len_subset(after.cache.dom(), s.cache.dom());
    }
}

/// Two imports have the same parameters exactly when their size, format,
/// modifier and number of planes agree, and so do the offset and stride of each
/// plane. No more than four planes are told apart, and descriptors do not count.
pub proof fn law_matching_parameters(
    width_a: u32,
    height_a: u32,
    format_a: Format,
    planes_a: Seq<DmaBufPlane>,
    width_b: u32,
    height_b: u32,
    format_b: Format,
    planes_b: Seq<DmaBufPlane>,
)
    ensures
        ({
            let a = crate::params::params_of(width_a, height_a, format_a, planes_a);
            let b = crate::params::params_of(width_b, height_b, format_b, planes_b);
            a == b <==> {
                &&& width_a == width_b
                &&& height_a == height_b
                &&& format_a == format_b
                &&& planes_a.len() > 0 && planes_b.len() > 0 ==> planes_a[0].modifier
                    == planes_b[0].modifier
                &&& (planes_a.len() == planes_b.len() || (planes_a.len() >= MAX_PLANES
                    && planes_b.len() >= MAX_PLANES))
                &&& forall|i: int|
                    0 <= i < planes_a.len() && i < MAX_PLANES ==> (#[trigger] planes_a[i]).offset
                        == planes_b[i].offset && planes_a[i].stride == planes_b[i].stride
            }
        }),
{
}

} // verus!
