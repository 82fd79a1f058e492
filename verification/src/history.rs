//! What holds throughout the life of an importer.
use vstd::prelude::*;

use crate::cache::CACHE_TTL;
use crate::device::{ActionView, DeviceMemory, Event, Image, Resources};
use crate::importer::{ImportRequest, ImporterView, Stage};

verus! {

/// One thing that happens to an importer.
pub enum Move {
    /// A call begins.
    Begin(ImportRequest),
    /// An event takes the call under way on.
    Take(Event),
    /// Everything is given up.
    Drain,
}

/// Whether a move can take `s` to `after`, with `action` to be done then.
pub open spec fn moves(
    s: ImporterView,
    step: Move,
    after: ImporterView,
    action: ActionView,
) -> bool {
    match step {
        Move::Begin(request) => s.stage is Idle && (after, action) == s.begun(request),
        Move::Take(event) => s.awaits(&event) && s.steps(event, after, action),
        Move::Drain => {
            &&& after == (ImporterView { cache: Map::empty(), retired: Seq::empty(), ..s })
            &&& action matches ActionView::Evict(released) && s.lists_all(released)
        },
    }
}

/// The life of an importer so far: move `i` leads from state `i` to state
/// `i + 1`, with action `i` to be done then.
pub struct History {
    pub states: Seq<ImporterView>,
    pub steps: Seq<Move>,
    pub actions: Seq<ActionView>,
}

impl History {
    /// Whether this is the life of a new importer.
    pub open spec fn valid(self) -> bool {
        &&& self.states.len() == self.steps.len() + 1
        &&& self.actions.len() == self.steps.len()
        &&& self.states[0] == ImporterView::initial()
        &&& forall|i: int|
            0 <= i < self.steps.len() ==> moves(
                self.states[i],
                #[trigger] self.steps[i],
                self.states[i + 1],
                self.actions[i],
            )
    }

    /// Whether the device never handed out an image or memory that an entry
    /// held.
    pub open spec fn hands_out_fresh(self) -> bool {
        forall|i: int|
            0 <= i < self.steps.len() ==> (#[trigger] self.steps[i] matches Move::Take(event)
                ==> crate::handles::fresh(self.states[i], event))
    }

    /// Whether nothing was drained by the moves after `i` and up to `j`, and
    /// every time that they read lies between `t` and [`CACHE_TTL`] after it.
    pub open spec fn stays_within(self, i: int, j: int, t: u128) -> bool {
        forall|k: int|
            i < k <= j ==> match #[trigger] self.steps[k] {
                Move::Take(Event::Clock(now)) => t <= now <= t + CACHE_TTL,
                Move::Drain => false,
                _ => true,
            }
    }

    /// The time of use that a call records if move `i` ends it with an image.
    pub open spec fn use_time(self, i: int) -> u128 {
        match (self.states[i].stage, self.steps[i]) {
            (Stage::ReadingClock { .. }, Move::Take(Event::Clock(now))) => now,
            (Stage::Importing { now, .. }, _) => now,
            _ => arbitrary(),
        }
    }
}

/// Whether a move hands out `image`.
pub open spec fn hands_out_image(step: Move, image: Image) -> bool {
    step == Move::Take(Event::ImageCreated(Ok(image)))
}

/// Whether a move hands out `memory`.
pub open spec fn hands_out_memory(step: Move, memory: DeviceMemory) -> bool {
    step == Move::Take(Event::MemoryAllocated(Ok(memory)))
}

impl History {
    /// Whether `image` is live in state `n`: it was handed out, and has not been
    /// destroyed since.
    pub open spec fn image_live(self, n: int, image: Image) -> bool {
        exists|k: int|
            0 <= k < n && #[trigger] hands_out_image(self.steps[k], image) && forall|m: int|
                k <= m < n ==> !crate::handles::destroys_image(#[trigger] self.actions[m], image)
    }

    /// Whether `memory` is live in state `n`: it was handed out, and has not been
    /// freed since.
    pub open spec fn memory_live(self, n: int, memory: DeviceMemory) -> bool {
        exists|k: int|
            0 <= k < n && #[trigger] hands_out_memory(self.steps[k], memory) && forall|m: int|
                k <= m < n ==> !crate::handles::frees_memory(#[trigger] self.actions[m], memory)
    }

    /// Whether the device never handed out an image or memory that was live.
    pub open spec fn hands_out_unused(self) -> bool {
        &&& forall|i: int, image: Image|
            0 <= i < self.steps.len() && #[trigger] hands_out_image(self.steps[i], image)
                ==> !self.image_live(i, image)
        &&& forall|i: int, memory: DeviceMemory|
            0 <= i < self.steps.len() && #[trigger] hands_out_memory(self.steps[i], memory)
                ==> !self.memory_live(i, memory)
    }

    /// How often the first `n` moves brought `r` in.
    pub open spec fn entered_by(self, n: int, r: Resources) -> nat
        decreases n,
    {
        if n <= 0 {
            0
        } else {
            self.entered_by(n - 1, r) + match self.steps[n - 1] {
                Move::Take(event) => crate::accounting::entered(self.states[n - 1], event, r),
                _ => 0,
            }
        }
    }

    /// How often the first `n` actions gave `r` up.
    pub open spec fn given_up_by(self, n: int, r: Resources) -> nat
        decreases n,
    {
        if n <= 0 {
            0
        } else {
            self.given_up_by(n - 1, r) + crate::accounting::given_up(self.actions[n - 1], r)
        }
    }
}

/// Every state in the life of an importer is well-formed. So what is cached has
/// planes, and [`law_no_planes_is_refused`](crate::laws::law_no_planes_is_refused)
/// applies to every call.
pub proof fn law_states_are_well_formed(h: History, i: int)
    requires
        h.valid(),
        0 <= i < h.states.len(),
    ensures
        h.states[i].wf(),
    decreases i,
{
    if i > 0 {
        law_states_are_well_formed(h, i - 1);
        let s = h.states[i - 1];
        match h.steps[i - 1] {
            Move::Take(event) => {
                crate::laws::law_calls_end(s, event, h.states[i], h.actions[i - 1]);
            },
            _ => {},
        }
    }
}

/// As long as the device hands out no image and no memory that an entry holds,
/// no image and no memory is ever held twice, and so no entry's resources are.
pub proof fn law_nothing_is_held_twice(h: History, i: int, r: Resources)
    requires
        h.valid(),
        h.hands_out_fresh(),
        0 <= i < h.states.len(),
    ensures
        crate::handles::handles_distinct(h.states[i]),
        crate::accounting::held(h.states[i], r) <= 1,
    decreases i,
{
    if i > 0 {
        law_nothing_is_held_twice(h, i - 1, r);
        law_states_are_well_formed(h, i - 1);
        let s = h.states[i - 1];
        match h.steps[i - 1] {
            Move::Begin(request) => {
                crate::handles::law_beginning_keeps_handles(s, request);
            },
            Move::Take(event) => {
                crate::handles::law_handles_stay_distinct(
                    s,
                    event,
                    h.states[i],
                    h.actions[i - 1],
                );
            },
            Move::Drain => {},
        }
    }
    law_states_are_well_formed(h, i);
    crate::handles::law_distinct_handles_are_held_once(h.states[i], r);
}

/// Resources are conserved throughout the life of an importer: at every point
/// what came in by completed imports is what is held and what was given up, each
/// as often.
pub proof fn law_imports_are_accounted_for(h: History, n: int, r: Resources)
    requires
        h.valid(),
        0 <= n < h.states.len(),
    ensures
        h.entered_by(n, r) == crate::accounting::held(h.states[n], r) + h.given_up_by(n, r),
    decreases n,
{
    if n == 0 {
        crate::accounting::lemma_nothing_held(h.states[0], r);
    } else {
        law_imports_are_accounted_for(h, n - 1, r);
        law_states_are_well_formed(h, n - 1);
        let s = h.states[n - 1];
        let action = h.actions[n - 1];
        match h.steps[n - 1] {
            Move::Begin(request) => {
                crate::accounting::law_beginning_keeps_resources(s, request, r);
            },
            Move::Take(event) => {
                crate::accounting::law_resources_are_conserved(s, event, h.states[n], action, r);
            },
            Move::Drain => {
                crate::accounting::law_drain_gives_up_all(s, action->Evict_0, r);
                crate::accounting::lemma_nothing_held(h.states[n], r);
            },
        }
    }
}

/// Handles that are live, and not destroyed by the next move, stay so.
proof fn lemma_stays_live(h: History, n: int, image: Image, memory: DeviceMemory)
    requires
        h.valid(),
        0 <= n < h.steps.len(),
    ensures
        (h.image_live(n, image) || hands_out_image(h.steps[n], image))
            && !crate::handles::destroys_image(h.actions[n], image) ==> h.image_live(n + 1, image),
        (h.memory_live(n, memory) || hands_out_memory(h.steps[n], memory))
            && !crate::handles::frees_memory(h.actions[n], memory) ==> h.memory_live(n + 1, memory),
{
}

/// As long as the device hands out no live image and no live memory, what is in
/// use is live: every image and every memory that an entry holds, or that the
/// import under way has, was handed out and has not been destroyed or freed
/// since. And every handle in use is in use once.
pub proof fn law_in_use_is_live(h: History, n: int, image: Image, memory: DeviceMemory)
    requires
        h.valid(),
        h.hands_out_unused(),
        0 <= n < h.states.len(),
    ensures
        crate::handles::uses_image(h.states[n], image) ==> h.image_live(n, image),
        crate::handles::uses_memory(h.states[n], memory) ==> h.memory_live(n, memory),
        crate::handles::handles_distinct(h.states[n]),
    decreases n, 0int,
{
    if n > 0 {
        let s = h.states[n - 1];
        let after = h.states[n];
        let action = h.actions[n - 1];
        law_in_use_is_live(h, n - 1, image, memory);
        law_states_are_well_formed(h, n - 1);
        lemma_stays_live(h, n - 1, image, memory);
        match h.steps[n - 1] {
            Move::Begin(request) => {
                crate::handles::law_beginning_keeps_handles(s, request);
            },
            Move::Take(event) => {
                lemma_unused_is_fresh(h, n - 1);
                crate::handles::law_handles_stay_distinct(s, event, after, action);
                crate::handles::law_in_use_is_not_destroyed(
                    s,
                    event,
                    after,
                    action,
                    image,
                    memory,
                );
            },
            Move::Drain => {
                crate::handles::lemma_drain_gives_up_held(s, action->Evict_0);
            },
        }
    }
}

/// What is handed out while it is not live is held by no entry.
proof fn lemma_unused_is_fresh(h: History, i: int)
    requires
        h.valid(),
        h.hands_out_unused(),
        0 <= i < h.steps.len(),
    ensures
        h.steps[i] matches Move::Take(event) ==> crate::handles::fresh(h.states[i], event),
    decreases i, 1int,
{
    match h.steps[i] {
        Move::Take(Event::ImageCreated(Ok(image))) => {
            law_in_use_is_live(h, i, image, DeviceMemory(0));
        },
        Move::Take(Event::MemoryAllocated(Ok(memory))) => {
            law_in_use_is_live(h, i, Image(0), memory);
        },
        _ => {},
    }
}

/// A device that hands out nothing live hands out nothing that an entry holds.
/// So what holds of the latter holds of the former.
pub proof fn law_unused_is_fresh(h: History)
    requires
        h.valid(),
        h.hands_out_unused(),
    ensures
        h.hands_out_fresh(),
{
    assert forall|i: int| 0 <= i < h.steps.len() implies (
    #[trigger] h.steps[i] matches Move::Take(event) ==> crate::handles::fresh(
        h.states[i],
        event,
    )) by {
        lemma_unused_is_fresh(h, i);
    }
}

/// What a call returned is held, as of the time of the use.
proof fn lemma_returned_is_held(h: History, i: int, image: Image, first: bool) -> (memory:
    DeviceMemory)
    requires
        h.valid(),
        0 <= i < h.steps.len(),
        h.actions[i] == ActionView::Finish(Ok((image, first))),
    ensures
        crate::laws::held_since(h.states[i + 1], Resources { image, memory }, h.use_time(i)),
{
    let s = h.states[i];
    law_states_are_well_formed(h, i);
    assert(moves(s, h.steps[i], h.states[i + 1], h.actions[i]));
    let key = match s.stage {
        Stage::ReadingClock { inode, .. } => inode,
        Stage::Importing { inode, .. } => inode,
        _ => arbitrary(),
    };
    assert(h.states[i + 1].cache.contains_key(key));
    h.states[i + 1].cache[key].resources.memory
}

/// What was used at `t` is still held while every time that is read is within
/// [`CACHE_TTL`] of it.
proof fn lemma_stays_held(h: History, i: int, j: int, r: Resources, t: u128)
    requires
        h.valid(),
        0 <= i <= j < h.steps.len(),
        crate::laws::held_since(h.states[i + 1], r, t),
        h.stays_within(i, j, t),
    ensures
        crate::laws::held_since(h.states[j + 1], r, t),
    decreases j - i,
{
    if i < j {
        lemma_stays_held(h, i, j - 1, r, t);
        law_states_are_well_formed(h, j);
        let s = h.states[j];
        let after = h.states[j + 1];
        match h.steps[j] {
            Move::Take(event) => {
                crate::laws::law_recent_use_is_protected(s, event, after, h.actions[j], r, t);
            },
            _ => {
                assert(after.cache == s.cache && after.retired == s.retired);
            },
        }
    }
}

/// An image that a call returned is safe for [`CACHE_TTL`]: until then it stays
/// held together with its memory, and nothing destroys it or frees that memory,
/// as long as clocks do not run backwards, the importer is not drained, and the
/// device hands out nothing that an entry holds.
pub proof fn law_returned_image_is_not_destroyed(
    h: History,
    i: int,
    j: int,
    image: Image,
    first: bool,
)
    requires
        h.valid(),
        h.hands_out_fresh(),
        0 <= i < j < h.steps.len(),
        h.actions[i] == ActionView::Finish(Ok((image, first))),
        h.stays_within(i, j, h.use_time(i)),
    ensures
        !crate::handles::destroys_image(h.actions[j], image),
        exists|memory: DeviceMemory|
            !(#[trigger] crate::handles::frees_memory(h.actions[j], memory))
                && crate::laws::held_since(
                h.states[j + 1],
                Resources { image, memory },
                h.use_time(i),
            ),
{
    let t = h.use_time(i);
    let memory = lemma_returned_is_held(h, i, image, first);
    let r = Resources { image, memory };
    lemma_stays_held(h, i, j - 1, r, t);
    lemma_stays_held(h, i, j, r, t);
    law_nothing_is_held_twice(h, j, r);
    law_states_are_well_formed(h, j);
    if let Move::Take(event) = h.steps[j] {
        crate::handles::law_recent_use_is_not_destroyed(
            h.states[j],
            event,
            h.states[j + 1],
            h.actions[j],
            r,
            t,
        );
    }
}

} // verus!
