//! The importer: a cache of imports, and the calls that use and fill it.
use std::collections::HashMap;

use vstd::prelude::*;

use crate::cache::CachedImport;
use crate::device::{Action, ActionView, Event, Image, Resources};
use crate::error::ImportError;
use crate::kernel::warn_if_dmabuf_inodes_unsupported;
use crate::params::{DmaBufPlane, Format, ImportParams};
use crate::raw_import::{ImportStage, Progress, RawImport};

verus! {

broadcast use vstd::std_specs::hash::group_hash_axioms;

/// Sweep for stale cache entries every this many calls.
pub const SWEEP_INTERVAL_CALLS: u32 = 60;

/// The buffer that a call is about.
#[derive(Debug)]
pub struct ImportRequest {
    /// The descriptor that identifies the buffer, by its inode.
    pub fd: i32,
    pub width: u32,
    pub height: u32,
    pub format: Format,
    pub planes: Vec<DmaBufPlane>,
}

/// How far a call has come. Each variant but the first waits for one event.
#[derive(Debug)]
pub enum Stage {
    /// No call is under way.
    Idle,
    /// A sweep is due; it waits for the time.
    ReadingSweepClock { request: ImportRequest },
    /// Stale resources are being destroyed.
    Sweeping { request: ImportRequest },
    /// The inode of the buffer is being read.
    ReadingInode { request: ImportRequest },
    /// The time of this use is being read.
    ReadingClock { request: ImportRequest, inode: u64 },
    /// The buffer is being imported.
    Importing { inode: u64, params: ImportParams, now: u128, import: RawImport },
}

/// Importer of DMA-BUF file descriptors as device images.
///
/// Owns a per-buffer cache of images and their memory (keyed by inode) with TTL
/// eviction.
#[derive(Debug)]
pub struct DmaBufImporter {
    /// Per-buffer cache, keyed by the DMA-BUF inode so the same underlying
    /// buffer is reused even when it is wrapped anew, without a recycled
    /// descriptor number aliasing a different buffer.
    cache: HashMap<u64, CachedImport>,
    /// Imports whose inode now maps to a different buffer, awaiting TTL expiry
    /// before destruction.
    retired: Vec<CachedImport>,
    /// Calls since the last stale-entry sweep.
    calls_since_sweep: u32,
    /// The call under way.
    stage: Stage,
}

/// The state of an importer.
pub struct ImporterView {
    pub cache: Map<u64, CachedImport>,
    pub retired: Seq<CachedImport>,
    pub calls_since_sweep: u32,
    pub stage: Stage,
}

impl View for DmaBufImporter {
    type V = ImporterView;

    closed spec fn view(&self) -> ImporterView {
        ImporterView {
            cache: self.cache@,
            retired: self.retired@,
            calls_since_sweep: self.calls_since_sweep,
            stage: self.stage,
        }
    }
}

impl ImportRequest {
    /// The parameters that identify this import.
    pub open spec fn params(&self) -> ImportParams {
        crate::params::params_of(self.width, self.height, self.format, self.planes@)
    }

    /// Whether this request was made with these arguments.
    pub open spec fn asks(
        &self,
        fd: i32,
        width: u32,
        height: u32,
        format: Format,
        planes: Seq<DmaBufPlane>,
    ) -> bool {
        &&& self.fd == fd
        &&& self.width == width
        &&& self.height == height
        &&& self.format == format
        &&& self.planes@ == planes
    }
}

impl ImporterView {
    /// What every importer keeps to: sweeps are not overdue, what is cached or
    /// being imported has planes, and a buffer that is being imported has no
    /// entry yet.
    pub open spec fn wf(self) -> bool {
        &&& self.calls_since_sweep < SWEEP_INTERVAL_CALLS
        &&& self.cache.dom().finite()
        &&& forall|inode: u64| #[trigger]
            self.cache.contains_key(inode) ==> self.cache[inode].params.plane_count > 0
        &&& self.stage matches Stage::Importing { inode, params, .. }
            ==> !self.cache.contains_key(inode) && params.plane_count > 0
    }

    /// The state of a new importer.
    pub open spec fn initial() -> ImporterView {
        ImporterView {
            cache: Map::empty(),
            retired: Seq::empty(),
            calls_since_sweep: 0,
            stage: Stage::Idle,
        }
    }

    /// This state with the call at another stage.
    pub open spec fn at(self, stage: Stage) -> ImporterView {
        ImporterView { stage, ..self }
    }

    /// Whether the next call sweeps.
    pub open spec fn sweep_due(self) -> bool {
        self.calls_since_sweep + 1 >= SWEEP_INTERVAL_CALLS
    }

    /// The state after a call for `request` has begun, and its first action.
    pub open spec fn begun(self, request: ImportRequest) -> (
        ImporterView,
        ActionView,
    ) {
        if self.sweep_due() {
            (
                ImporterView {
                    calls_since_sweep: 0,
                    stage: Stage::ReadingSweepClock { request },
                    ..self
                },
                ActionView::ReadClock,
            )
        } else {
            (
                ImporterView {
                    calls_since_sweep: (self.calls_since_sweep + 1) as u32,
                    stage: Stage::ReadingInode { request },
                    ..self
                },
                ActionView::Stat { fd: request.fd },
            )
        }
    }

    /// The state once everything that is stale at `now` is gone.
    pub open spec fn swept(self, now: u128) -> ImporterView {
        ImporterView {
            cache: self.cache.remove_keys(crate::cache::expired_keys(self.cache, now)),
            retired: crate::cache::live_of(self.retired, now),
            ..self
        }
    }

    /// Whether `released` is what a sweep at `now` gives up: every stale entry
    /// of the cache in some order, then the stale retired entries.
    pub open spec fn sweeps_out(self, now: u128, released: Seq<Resources>) -> bool {
        exists|keys: Seq<u64>| #[trigger]
            crate::cache::lists(keys, crate::cache::expired_keys(self.cache, now)) && released
                == crate::cache::resources_at(self.cache, keys) + crate::cache::resources_of(
                crate::cache::expired_of(self.retired, now),
            )
    }

    /// Whether `released` is everything that is held: every entry of the cache
    /// in some order, then the retired entries.
    pub open spec fn lists_all(self, released: Seq<Resources>) -> bool {
        exists|keys: Seq<u64>| #[trigger]
            crate::cache::lists(keys, self.cache.dom()) && released == crate::cache::resources_at(
                self.cache,
                keys,
            ) + crate::cache::resources_of(self.retired)
    }

    /// The cached image for a buffer with this inode and these parameters. Both
    /// have to match.
    pub open spec fn hit(self, inode: u64, params: ImportParams) -> Option<Image> {
        if self.cache.contains_key(inode) && self.cache[inode].params == params {
            Some(self.cache[inode].resources.image)
        } else {
            None
        }
    }

    /// The state after the entry of `inode` was used at `now`.
    pub open spec fn touched(self, inode: u64, now: u128) -> ImporterView {
        ImporterView {
            cache: self.cache.insert(
                inode,
                CachedImport { last_used: now, ..self.cache[inode] },
            ),
            ..self
        }
    }

    /// The state after the entry of `inode`, if there is one, was retired at
    /// `now`.
    pub open spec fn retiring(self, inode: u64, now: u128) -> ImporterView {
        if self.cache.contains_key(inode) {
            ImporterView {
                cache: self.cache.remove(inode),
                retired: self.retired.push(
                    CachedImport { last_used: now, ..self.cache[inode] },
                ),
                ..self
            }
        } else {
            self
        }
    }

    /// The state after an import was entered in the cache.
    pub open spec fn recorded(
        self,
        inode: u64,
        params: ImportParams,
        now: u128,
        resources: Resources,
    ) -> ImporterView {
        ImporterView {
            cache: self.cache.insert(inode, CachedImport { resources, params, last_used: now }),
            ..self
        }
    }

    /// The state after the buffer of `request` was looked up at `now`, and what
    /// is to be done then: reuse the cached image, or import the buffer.
    pub open spec fn looked_up(self, request: ImportRequest, inode: u64, now: u128) -> (
        ImporterView,
        ActionView,
    ) {
        let params = request.params();
        match self.hit(inode, params) {
            Some(image) => (
                self.touched(inode, now).at(Stage::Idle),
                ActionView::Finish(Ok((image, false))),
            ),
            None => if request.planes@.len() == 0 {
                (
                    self.retiring(inode, now).at(Stage::Idle),
                    ActionView::Finish(Err(ImportError::NoPlanes)),
                )
            } else {
                (
                    self.retiring(inode, now).at(
                        Stage::Importing {
                            inode,
                            params,
                            now,
                            import: RawImport {
                                fd: request.planes@[0].fd,
                                stage: ImportStage::CreatingImage,
                            },
                        },
                    ),
                    ActionView::CreateImage {
                        plan: crate::device::image_plan(
                            request.width,
                            request.height,
                            request.format,
                            request.planes@[0].modifier,
                        ),
                        plane_layouts: crate::device::image_layouts(request.planes@),
                    },
                )
            },
        }
    }

    /// Whether `event` is what the call under way waits for.
    pub open spec fn awaits(self, event: &Event) -> bool {
        match self.stage {
            Stage::Idle => false,
            Stage::ReadingSweepClock { .. } => event is Clock,
            Stage::Sweeping { .. } => event is Released,
            Stage::ReadingInode { .. } => event is Stat,
            Stage::ReadingClock { .. } => event is Clock,
            Stage::Importing { import, .. } => import.spec_awaits(event),
        }
    }

    /// Where `event` takes the call under way, and what is to be done then, at
    /// every stage but the one that sweeps.
    pub open spec fn next(self, event: Event) -> (ImporterView, ActionView)
        recommends
            self.awaits(&event),
            !(self.stage is ReadingSweepClock),
    {
        match (self.stage, event) {
            (Stage::Sweeping { request }, Event::Released) => (
                self.at(Stage::ReadingInode { request }),
                ActionView::Stat { fd: request.fd },
            ),
            (Stage::ReadingInode { request }, Event::Stat(Ok(inode))) => (
                self.at(Stage::ReadingClock { request, inode }),
                ActionView::ReadClock,
            ),
            (Stage::ReadingInode { request }, Event::Stat(Err(reason))) => (
                self.at(Stage::Idle),
                ActionView::Finish(
                    Err(ImportError::Stat { fd: request.fd, reason }),
                ),
            ),
            (Stage::ReadingClock { request, inode }, Event::Clock(now)) => self.looked_up(
                request,
                inode,
                now,
            ),
            (Stage::Importing { inode, params, now, import }, event) => {
                let (import, progress) = import.next(event);
                match progress {
                    Progress::Act(action) => (
                        self.at(Stage::Importing { inode, params, now, import }),
                        action@,
                    ),
                    Progress::Done(Ok(resources)) => (
                        self.recorded(inode, params, now, resources).at(Stage::Idle),
                        ActionView::Finish(Ok((resources.image, true))),
                    ),
                    Progress::Done(Err(error)) => (
                        self.at(Stage::Idle),
                        ActionView::Finish(Err(error)),
                    ),
                }
            },
            _ => arbitrary(),
        }
    }

    /// Whether `event` can take this state to `after`, with `action` to be done
    /// then. Only the order in which a sweep lists what it gives up is open.
    pub open spec fn steps(
        self,
        event: Event,
        after: ImporterView,
        action: ActionView,
    ) -> bool {
        match (self.stage, event) {
            (Stage::ReadingSweepClock { request }, Event::Clock(now)) => {
                &&& after == self.swept(now).at(Stage::Sweeping { request })
                &&& action matches ActionView::Evict(released) && self.sweeps_out(
                    now,
                    released,
                )
            },
            _ => (after, action) == self.next(event),
        }
    }
}

/// The inodes that `cache` holds entries for.
fn cached_inodes(cache: &HashMap<u64, CachedImport>) -> (inodes: Vec<u64>)
    ensures
        crate::cache::lists(inodes@, cache@.dom()),
{
    let mut inodes: Vec<u64> = Vec::new();
    for key in it: cache.keys()
        invariant
            it.seq().unref().to_set() == cache@.dom(),
            it.seq().no_duplicates(),
            inodes@ == it.seq().unref().take(it.index()),
            it.index() == it.seq().len() ==> inodes@ =~= it.seq().unref(),
            inodes@.no_duplicates(),
    {
        inodes.push(*key);
    }
    inodes
}

/// Takes the expired entries out of `list`, and appends their resources to
/// `released`.
fn evict_retired(list: &mut Vec<CachedImport>, now: u128, released: &mut Vec<Resources>)
    ensures
        final(list)@ == crate::cache::live_of(old(list)@, now),
        final(released)@ == old(released)@ + crate::cache::resources_of(
            crate::cache::expired_of(old(list)@, now),
        ),
{
    let mut live: Vec<CachedImport> = Vec::new();
    let mut i: usize = 0;
    while i < list.len()
        invariant
            i <= list.len(),
            list@ == old(list)@,
            live@ == crate::cache::live_of(list@.take(i as int), now),
            released@ == old(released)@ + crate::cache::resources_of(
                crate::cache::expired_of(list@.take(i as int), now),
            ),
        decreases list.len() - i,
    {
        let entry = list[i];
        proof {
            reveal(Seq::filter);
            assert(list@.take(i + 1).drop_last() =~= list@.take(i as int));
        }
        if entry.is_expired(now) {
            released.push(entry.resources);
        } else {
            live.push(entry);
        }
        i = i + 1;
    }
    assert(list@.take(i as int) =~= list@);
    *list = live;
}

impl DmaBufImporter {
    /// Drops cached entries that have not been touched in `CACHE_TTL`, and
    /// hands out their resources to be destroyed.
    fn evict_stale(&mut self, now: u128) -> (released: Vec<Resources>)
        ensures
            final(self)@ == old(self)@.swept(now),
            old(self)@.sweeps_out(now, released@),
    {
        let ghost cached = self.cache@;
        let inodes = cached_inodes(&self.cache);
        let mut released: Vec<Resources> = Vec::new();
        let ghost mut gone: Seq<u64> = Seq::empty();
        let mut i: usize = 0;
        while i < inodes.len()
            invariant
                i <= inodes.len(),
                crate::cache::lists(inodes@, cached.dom()),
                self.retired@ == old(self).retired@,
                self.calls_since_sweep == old(self).calls_since_sweep,
                self.stage == old(self).stage,
                gone.no_duplicates(),
                forall|k: u64|
                    gone.contains(k) <==> #[trigger] inodes@.take(i as int).contains(k)
                        && crate::cache::expired(cached[k], now),
                released@ == crate::cache::resources_at(cached, gone),
                self.cache@ == cached.remove_keys(gone.to_set()),
            decreases inodes.len() - i,
        {
            let inode: u64 = inodes[i];
            proof {
                let seen = inodes@.take(i as int);
                assert(inodes@.take(i + 1) =~= seen.push(inode));
                crate::cache::lemma_push_contains(seen, inode);
                crate::cache::lemma_push_contains(gone, inode);
            }
            match self.cache.get(&inode) {
                Some(entry) => {
                    let entry = *entry;
                    if entry.is_expired(now) {
                        self.cache.remove(&inode);
                        released.push(entry.resources);
                        proof {
                            assert(crate::cache::resources_at(cached, gone.push(inode))
                                =~= crate::cache::resources_at(cached, gone).push(
                                cached[inode].resources,
                            ));
                            gone = gone.push(inode);
                        }
                    }
                },
                None => {},
            }
            i = i + 1;
        }
        assert(inodes@.take(i as int) =~= inodes@);
        assert(crate::cache::lists(gone, crate::cache::expired_keys(cached, now)));
        assert(self.cache@ =~= cached.remove_keys(crate::cache::expired_keys(cached, now)));
        evict_retired(&mut self.retired, now, &mut released);
        released
    }

    /// The cached image for a buffer with this inode and these parameters. If
    /// there is none, an entry left under the inode is retired: the inode now
    /// refers to a different buffer, and reusing its image would read the
    /// buffer with the wrong layout.
    fn reuse_or_retire(&mut self, inode: u64, params: ImportParams, now: u128) -> (image: Option<
        Image,
    >)
        ensures
            image == old(self)@.hit(inode, params),
            image is Some ==> final(self)@ == old(self)@.touched(inode, now),
            image is None ==> final(self)@ == old(self)@.retiring(inode, now),
    {
        match self.cache.remove(&inode) {
            Some(entry) => {
                if entry.params == params {
                    self.cache.insert(inode, entry.touched(now));
                    assert(self@.cache =~= old(self)@.touched(inode, now).cache);
                    Some(entry.resources.image)
                } else {
                    self.retired.push(entry.touched(now));
                    None
                }
            },
            None => {
                assert(self@.cache =~= old(self)@.cache);
                None
            },
        }
    }

    /// Creates an importer with an empty cache, on a host with this kernel
    /// release. If the host's DMA-BUF inodes do not identify buffers, a warning
    /// comes with it.
    pub fn new(kernel_release: &str) -> (created: (Self, Option<String>))
        ensures
            created.0@ == ImporterView::initial(),
            created.0@.wf(),
            created.1 is Some <==> crate::kernel::predates_inodes(kernel_release@),
            created.1 matches Some(warning) ==> warning@ == crate::kernel::inode_warning(
                kernel_release@,
            ),
    {
        let warning = warn_if_dmabuf_inodes_unsupported(kernel_release);
        let importer = Self {
            cache: HashMap::new(),
            retired: Vec::new(),
            calls_since_sweep: 0,
            stage: Stage::Idle,
        };
        (importer, warning)
    }

    /// Begins a call: imports a DMA-BUF as an image, reusing a cached import
    /// when the same buffer (by inode) has been seen before with the same
    /// parameters.
    ///
    /// The call goes on in [`resume`](Self::resume) until its action is
    /// [`Action::Finish`].
    pub fn import_or_reuse(
        &mut self,
        fd: i32,
        width: u32,
        height: u32,
        format: Format,
        planes: &[DmaBufPlane],
    ) -> (action: Action)
        requires
            old(self)@.wf(),
            old(self)@.stage is Idle,
        ensures
            final(self)@.wf(),
            exists|request: ImportRequest| #[trigger]
                request.asks(fd, width, height, format, planes@) && (final(self)@, action@) == old(
                    self,
                )@.begun(request),
    {
        let request = ImportRequest {
            fd,
            width,
            height,
            format,
            planes: vstd::slice::slice_to_vec(planes),
        };
        assert(request.asks(fd, width, height, format, planes@));
        self.calls_since_sweep = self.calls_since_sweep + 1;
        if self.calls_since_sweep >= SWEEP_INTERVAL_CALLS {
            self.calls_since_sweep = 0;
            self.stage = Stage::ReadingSweepClock { request };
            Action::ReadClock
        } else {
            self.stage = Stage::ReadingInode { request };
            Action::Stat { fd }
        }
    }

    /// Whether no call is under way.
    pub fn is_idle(&self) -> (idle: bool)
        ensures
            idle == (self@.stage is Idle),
    {
        match self.stage {
            Stage::Idle => true,
            _ => false,
        }
    }

    /// Whether `event` is what the call under way waits for.
    pub fn awaits(&self, event: &Event) -> (expected: bool)
        ensures
            expected == self@.awaits(event),
    {
        match (&self.stage, event) {
            (Stage::ReadingSweepClock { .. }, Event::Clock(_)) => true,
            (Stage::Sweeping { .. }, Event::Released) => true,
            (Stage::ReadingInode { .. }, Event::Stat(_)) => true,
            (Stage::ReadingClock { .. }, Event::Clock(_)) => true,
            (Stage::Importing { import, .. }, event) => import.awaits(event),
            _ => false,
        }
    }

    /// Looks the buffer of `request` up, and starts its import if it is not
    /// cached.
    fn look_up(&mut self, request: ImportRequest, inode: u64, now: u128) -> (action: Action)
        requires
            old(self)@.wf(),
            old(self)@.stage is Idle,
        ensures
            final(self)@.wf(),
            (final(self)@, action@) == old(self)@.looked_up(request, inode, now),
    {
        let params = ImportParams::new(
            request.width,
            request.height,
            request.format,
            request.planes.as_slice(),
        );
        match self.reuse_or_retire(inode, params, now) {
            Some(image) => Action::Finish(Ok((image, false))),
            None => match RawImport::import_internal(
                request.width,
                request.height,
                request.format,
                request.planes.as_slice(),
            ) {
                Err(error) => Action::Finish(Err(error)),
                Ok((import, action)) => {
                    self.stage = Stage::Importing { inode, params, now, import };
                    action
                },
            },
        }
    }

    /// Takes the call under way on by what came of its last action.
    pub fn resume(&mut self, event: Event) -> (action: Action)
        requires
            old(self)@.wf(),
            old(self)@.awaits(&event),
        ensures
            final(self)@.wf(),
            old(self)@.steps(event, final(self)@, action@),
    {
        let mut stage = Stage::Idle;
        std::mem::swap(&mut stage, &mut self.stage);
        match (stage, event) {
            (Stage::ReadingSweepClock { request }, Event::Clock(now)) => {
                let released = self.evict_stale(now);
                self.stage = Stage::Sweeping { request };
                Action::Evict(released)
            },
            (Stage::Sweeping { request }, Event::Released) => {
                let fd: i32 = request.fd;
                self.stage = Stage::ReadingInode { request };
                Action::Stat { fd }
            },
            (Stage::ReadingInode { request }, Event::Stat(Ok(inode))) => {
                self.stage = Stage::ReadingClock { request, inode };
                Action::ReadClock
            },
            (Stage::ReadingInode { request }, Event::Stat(Err(reason))) => Action::Finish(
                Err(ImportError::Stat { fd: request.fd, reason }),
            ),
            (Stage::ReadingClock { request, inode }, Event::Clock(now)) => self.look_up(
                request,
                inode,
                now,
            ),
            (Stage::Importing { inode, params, now, import }, event) => {
                let (import, progress) = import.resume(event);
                match progress {
                    Progress::Act(action) => {
                        self.stage = Stage::Importing { inode, params, now, import };
                        action
                    },
                    Progress::Done(Ok(resources)) => {
                        self.cache.insert(
                            inode,
                            CachedImport { resources, params, last_used: now },
                        );
                        Action::Finish(Ok((resources.image, true)))
                    },
                    Progress::Done(Err(error)) => Action::Finish(Err(error)),
                }
            },
            _ => vstd::pervasive::unreached(),
        }
    }

    /// Gives up everything that is cached or retired, to be destroyed.
    pub fn drain(&mut self) -> (released: Vec<Resources>)
        requires
            old(self)@.wf(),
        ensures
            final(self)@ == (ImporterView {
                cache: Map::empty(),
                retired: Seq::empty(),
                ..old(self)@
            }),
            final(self)@.wf(),
            old(self)@.lists_all(released@),
    {
        let ghost cached = self.cache@;
        let inodes = cached_inodes(&self.cache);
        let mut released: Vec<Resources> = Vec::new();
        let mut i: usize = 0;
        while i < inodes.len()
            invariant
                i <= inodes.len(),
                self.cache@ == cached,
                crate::cache::lists(inodes@, cached.dom()),
                released@ == crate::cache::resources_at(cached, inodes@.take(i as int)),
            decreases inodes.len() - i,
        {
            match self.cache.get(&inodes[i]) {
                Some(entry) => {
                    released.push(entry.resources);
                },
                None => {},
            }
            i = i + 1;
        }
        assert(inodes@.take(i as int) =~= inodes@);
        let ghost listed = released@;
        let mut j: usize = 0;
        while j < self.retired.len()
            invariant
                j <= self.retired.len(),
                released@ == listed + crate::cache::resources_of(self.retired@.take(j as int)),
            decreases self.retired.len() - j,
        {
            released.push(self.retired[j].resources);
            j = j + 1;
        }
        assert(self.retired@.take(j as int) =~= self.retired@);
        self.cache.clear();
        self.retired.clear();
        released
    }

    /// The parameters of the import that is cached under `inode`.
    pub fn cached_params(&self, inode: u64) -> (params: Option<ImportParams>)
        ensures
            params == (if self@.cache.contains_key(inode) {
                Some(self@.cache[inode].params)
            } else {
                None
            }),
    {
        match self.cache.get(&inode) {
            Some(entry) => Some(entry.params),
            None => None,
        }
    }

    /// How many imports are cached.
    pub fn cached_len(&self) -> (n: usize)
        ensures
            n == self@.cache.len(),
    {
        self.cache.len()
    }

    /// How many imports are retired and not yet destroyed.
    pub fn retired_len(&self) -> (n: usize)
        ensures
            n == self@.retired.len(),
    {
        self.retired.len()
    }
}

} // verus!
