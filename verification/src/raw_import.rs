//! The raw import of one buffer: from an image to memory bound to it.
use vstd::prelude::*;

use crate::device::{
    Action, ActionView, DeviceMemory, Event, Image, ImagePlan, MemoryRequest, PlaneLayout,
    Resources, HANDLE_TYPE_DMA_BUF, IMAGE_LAYOUT_UNDEFINED, IMAGE_TILING_DRM_FORMAT_MODIFIER,
    IMAGE_TYPE_2D, IMAGE_USAGE_TRANSFER_SRC_SAMPLED, MEMORY_PROPERTIES_NONE, SAMPLE_COUNT_1,
    SHARING_MODE_EXCLUSIVE,
};
use crate::error::ImportError;
use crate::params::{DmaBufPlane, Format};

verus! {

/// How far a raw import has come. Each variant waits for one event.
#[derive(Debug)]
pub enum ImportStage {
    /// The image is being created.
    CreatingImage,
    /// Its memory requirements were asked for.
    ReadingRequirements { image: Image },
    /// The memory properties of the descriptor were asked for.
    ReadingFdProperties { image: Image, size: u64, type_bits: u32 },
    /// The descriptor is being duplicated. `type_bits` are the memory types
    /// that suit both the image and the descriptor.
    DuplicatingFd { image: Image, size: u64, type_bits: u32 },
    /// A memory type is being looked for; `fd` is the duplicate.
    FindingMemoryType { image: Image, size: u64, fd: i32 },
    /// The memory is being imported.
    AllocatingMemory { image: Image },
    /// The memory is being bound.
    BindingMemory { image: Image, memory: DeviceMemory },
    /// What a failed import had made is being destroyed.
    Undoing { error: ImportError },
    /// There is nothing left to do.
    Ended,
}

/// A raw import under way.
#[derive(Debug)]
pub struct RawImport {
    /// The descriptor of the first plane, which the memory is imported from.
    pub fd: i32,
    pub stage: ImportStage,
}

/// What a raw import needs next, or its result.
#[derive(Debug)]
pub enum Progress {
    Act(Action),
    Done(Result<Resources, ImportError>),
}

impl RawImport {
    /// Whether `event` is what this import waits for.
    pub open spec fn spec_awaits(&self, event: &Event) -> bool {
        match self.stage {
            ImportStage::CreatingImage => event is ImageCreated,
            ImportStage::ReadingRequirements { .. } => event is MemoryRequirements,
            ImportStage::ReadingFdProperties { .. } => event is FdProperties,
            ImportStage::DuplicatingFd { .. } => event is FdDuplicated,
            ImportStage::FindingMemoryType { .. } => event is MemoryType,
            ImportStage::AllocatingMemory { .. } => event is MemoryAllocated,
            ImportStage::BindingMemory { .. } => event is MemoryBound,
            ImportStage::Undoing { .. } => event is Released,
            ImportStage::Ended => false,
        }
    }

    /// This import at another stage.
    pub open spec fn at(self, stage: ImportStage) -> RawImport {
        RawImport { fd: self.fd, stage }
    }

    /// Where `event` takes this import, and what is to be done then.
    pub open spec fn next(self, event: Event) -> (RawImport, Progress)
        recommends
            self.spec_awaits(&event),
    {
        match (self.stage, event) {
            (ImportStage::CreatingImage, Event::ImageCreated(Ok(image))) => (
                self.at(ImportStage::ReadingRequirements { image }),
                Progress::Act(Action::QueryMemoryRequirements { image }),
            ),
            (ImportStage::CreatingImage, Event::ImageCreated(Err(code))) => (
                self.at(ImportStage::Ended),
                Progress::Done(Err(ImportError::ImageCreation { code })),
            ),
            (
                ImportStage::ReadingRequirements { image },
                Event::MemoryRequirements { size, type_bits },
            ) => (
                self.at(ImportStage::ReadingFdProperties { image, size, type_bits }),
                Progress::Act(
                    Action::QueryFdProperties { handle_type: HANDLE_TYPE_DMA_BUF, fd: self.fd },
                ),
            ),
            (
                ImportStage::ReadingFdProperties { image, size, type_bits },
                Event::FdProperties(Ok(fd_type_bits)),
            ) => (
                self.at(
                    ImportStage::DuplicatingFd { image, size, type_bits: type_bits & fd_type_bits },
                ),
                Progress::Act(Action::DuplicateFd { fd: self.fd }),
            ),
            (ImportStage::ReadingFdProperties { .. }, Event::FdProperties(Err(code))) => (
                self.at(ImportStage::Ended),
                Progress::Done(Err(ImportError::FdProperties { code })),
            ),
            (
                ImportStage::DuplicatingFd { image, size, type_bits },
                Event::FdDuplicated(Ok(fd)),
            ) => (
                self.at(ImportStage::FindingMemoryType { image, size, fd }),
                Progress::Act(
                    Action::FindMemoryType { type_bits, properties: MEMORY_PROPERTIES_NONE },
                ),
            ),
            (ImportStage::DuplicatingFd { .. }, Event::FdDuplicated(Err(reason))) => (
                self.at(ImportStage::Ended),
                Progress::Done(Err(ImportError::DuplicateFd { reason })),
            ),
            (
                ImportStage::FindingMemoryType { image, size, fd },
                Event::MemoryType(Some(memory_type_index)),
            ) => (
                self.at(ImportStage::AllocatingMemory { image }),
                Progress::Act(
                    Action::AllocateMemory {
                        request: MemoryRequest {
                            size,
                            memory_type_index,
                            handle_type: HANDLE_TYPE_DMA_BUF,
                            fd,
                            image,
                        },
                    },
                ),
            ),
            (ImportStage::FindingMemoryType { .. }, Event::MemoryType(None)) => (
                self.at(ImportStage::Ended),
                Progress::Done(Err(ImportError::NoMemoryType)),
            ),
            (ImportStage::AllocatingMemory { image }, Event::MemoryAllocated(Ok(memory))) => (
                self.at(ImportStage::BindingMemory { image, memory }),
                Progress::Act(Action::BindMemory { image, memory, offset: 0 }),
            ),
            (ImportStage::AllocatingMemory { image }, Event::MemoryAllocated(Err(code))) => (
                self.at(ImportStage::Undoing { error: ImportError::MemoryImport { code } }),
                Progress::Act(Action::DestroyImage { image }),
            ),
            (ImportStage::BindingMemory { image, memory }, Event::MemoryBound(Ok(_))) => (
                self.at(ImportStage::Ended),
                Progress::Done(Ok(Resources { image, memory })),
            ),
            (ImportStage::BindingMemory { image, memory }, Event::MemoryBound(Err(code))) => (
                self.at(ImportStage::Undoing { error: ImportError::MemoryBind { code } }),
                Progress::Act(Action::FreeAndDestroy { memory, image }),
            ),
            (ImportStage::Undoing { error }, Event::Released) => (
                self.at(ImportStage::Ended),
                Progress::Done(Err(error)),
            ),
            _ => arbitrary(),
        }
    }

    /// Whether `event` is what this import waits for.
    pub fn awaits(&self, event: &Event) -> (expected: bool)
        ensures
            expected == self.spec_awaits(event),
    {
        match (&self.stage, event) {
            (ImportStage::CreatingImage, Event::ImageCreated(_)) => true,
            (ImportStage::ReadingRequirements { .. }, Event::MemoryRequirements { .. }) => true,
            (ImportStage::ReadingFdProperties { .. }, Event::FdProperties(_)) => true,
            (ImportStage::DuplicatingFd { .. }, Event::FdDuplicated(_)) => true,
            (ImportStage::FindingMemoryType { .. }, Event::MemoryType(_)) => true,
            (ImportStage::AllocatingMemory { .. }, Event::MemoryAllocated(_)) => true,
            (ImportStage::BindingMemory { .. }, Event::MemoryBound(_)) => true,
            (ImportStage::Undoing { .. }, Event::Released) => true,
            _ => false,
        }
    }

    /// Starts the raw import of a buffer, in the given format. The image is
    /// asked for in `UNDEFINED` layout; whoever uses it has to transition it.
    pub fn import_internal(
        width: u32,
        height: u32,
        format: Format,
        planes: &[DmaBufPlane],
    ) -> (started: Result<(RawImport, Action), ImportError>)
        ensures
            planes@.len() == 0 ==> started == Err::<(RawImport, Action), _>(ImportError::NoPlanes),
            planes@.len() > 0 ==> (started matches Ok((import, action)) && import == (RawImport {
                fd: planes@[0].fd,
                stage: ImportStage::CreatingImage,
            }) && action@ == (ActionView::CreateImage {
                plan: crate::device::image_plan(width, height, format, planes@[0].modifier),
                plane_layouts: crate::device::image_layouts(planes@),
            })),
            planes@.len() > 0 ==> (started matches Ok((_, action))
                && action matches Action::CreateImage { plan, plane_layouts } && plan.width == width
                && plan.height == height && plan.format == format && plan.modifier
                == planes@[0].modifier && plane_layouts@.len() == planes@.len() && forall|i: int|
                0 <= i < planes@.len() ==> (#[trigger] plane_layouts@[i]).offset
                    == planes@[i].offset && plane_layouts@[i].row_pitch == planes@[i].stride),
    {
        if planes.len() == 0 {
            return Err(ImportError::NoPlanes);
        }
        let mut plane_layouts: Vec<PlaneLayout> = Vec::new();
        let mut i: usize = 0;
        while i < planes.len()
            invariant
                i <= planes.len(),
                plane_layouts@ =~= crate::device::image_layouts(planes@.take(i as int)),
            decreases planes.len() - i,
        {
            plane_layouts.push(
                PlaneLayout {
                    offset: planes[i].offset as u64,
                    size: 0,
                    row_pitch: planes[i].stride as u64,
                    array_pitch: 0,
                    depth_pitch: 0,
                },
            );
            i = i + 1;
        }
        assert(planes@.take(i as int) =~= planes@);
        let plan = ImagePlan {
            image_type: IMAGE_TYPE_2D,
            format,
            width,
            height,
            depth: 1,
            mip_levels: 1,
            array_layers: 1,
            samples: SAMPLE_COUNT_1,
            tiling: IMAGE_TILING_DRM_FORMAT_MODIFIER,
            usage: IMAGE_USAGE_TRANSFER_SRC_SAMPLED,
            sharing_mode: SHARING_MODE_EXCLUSIVE,
            initial_layout: IMAGE_LAYOUT_UNDEFINED,
            handle_types: HANDLE_TYPE_DMA_BUF,
            modifier: planes[0].modifier,
        };
        Ok(
            (
                RawImport { fd: planes[0].fd, stage: ImportStage::CreatingImage },
                Action::CreateImage { plan, plane_layouts },
            ),
        )
    }

    /// Takes the import on by what came of its last action.
    pub fn resume(self, event: Event) -> (next: (RawImport, Progress))
        requires
            self.spec_awaits(&event),
        ensures
            next == self.next(event),
    {
        let fd: i32 = self.fd;
        let (stage, progress) = match (self.stage, event) {
            (ImportStage::CreatingImage, Event::ImageCreated(Ok(image))) => (
                ImportStage::ReadingRequirements { image },
                Progress::Act(Action::QueryMemoryRequirements { image }),
            ),
            (ImportStage::CreatingImage, Event::ImageCreated(Err(code))) => (
                ImportStage::Ended,
                Progress::Done(Err(ImportError::ImageCreation { code })),
            ),
            (
                ImportStage::ReadingRequirements { image },
                Event::MemoryRequirements { size, type_bits },
            ) => (
                ImportStage::ReadingFdProperties { image, size, type_bits },
                Progress::Act(Action::QueryFdProperties { handle_type: HANDLE_TYPE_DMA_BUF, fd }),
            ),
            (
                ImportStage::ReadingFdProperties { image, size, type_bits },
                Event::FdProperties(Ok(fd_type_bits)),
            ) => (
                ImportStage::DuplicatingFd { image, size, type_bits: type_bits & fd_type_bits },
                Progress::Act(Action::DuplicateFd { fd }),
            ),
            (ImportStage::ReadingFdProperties { .. }, Event::FdProperties(Err(code))) => (
                ImportStage::Ended,
                Progress::Done(Err(ImportError::FdProperties { code })),
            ),
            (
                ImportStage::DuplicatingFd { image, size, type_bits },
                Event::FdDuplicated(Ok(duplicate)),
            ) => (
                ImportStage::FindingMemoryType { image, size, fd: duplicate },
                Progress::Act(
                    Action::FindMemoryType { type_bits, properties: MEMORY_PROPERTIES_NONE },
                ),
            ),
            (ImportStage::DuplicatingFd { .. }, Event::FdDuplicated(Err(reason))) => (
                ImportStage::Ended,
                Progress::Done(Err(ImportError::DuplicateFd { reason })),
            ),
            (
                ImportStage::FindingMemoryType { image, size, fd: duplicate },
                Event::MemoryType(Some(memory_type_index)),
            ) => (
                ImportStage::AllocatingMemory { image },
                Progress::Act(
                    Action::AllocateMemory {
                        request: MemoryRequest {
                            size,
                            memory_type_index,
                            handle_type: HANDLE_TYPE_DMA_BUF,
                            fd: duplicate,
                            image,
                        },
                    },
                ),
            ),
            (ImportStage::FindingMemoryType { .. }, Event::MemoryType(None)) => (
                ImportStage::Ended,
                Progress::Done(Err(ImportError::NoMemoryType)),
            ),
            (ImportStage::AllocatingMemory { image }, Event::MemoryAllocated(Ok(memory))) => (
                ImportStage::BindingMemory { image, memory },
                Progress::Act(Action::BindMemory { image, memory, offset: 0 }),
            ),
            (ImportStage::AllocatingMemory { image }, Event::MemoryAllocated(Err(code))) => (
                ImportStage::Undoing { error: ImportError::MemoryImport { code } },
                Progress::Act(Action::DestroyImage { image }),
            ),
            (ImportStage::BindingMemory { image, memory }, Event::MemoryBound(Ok(_))) => (
                ImportStage::Ended,
                Progress::Done(Ok(Resources { image, memory })),
            ),
            (ImportStage::BindingMemory { image, memory }, Event::MemoryBound(Err(code))) => (
                ImportStage::Undoing { error: ImportError::MemoryBind { code } },
                Progress::Act(Action::FreeAndDestroy { memory, image }),
            ),
            (ImportStage::Undoing { error }, Event::Released) => (
                ImportStage::Ended,
                Progress::Done(Err(error)),
            ),
            _ => vstd::pervasive::unreached(),
        };
        (RawImport { fd, stage }, progress)
    }
}

/// What a successful import does with what it is told: it asks for memory of the
/// size that the image needs, of a type that suits both the image and the
/// descriptor, from a duplicate of the descriptor and dedicated to the image,
/// binds that memory to that image at its start, and ends with the two of them.
pub proof fn law_successful_import(
    fd: i32,
    image: Image,
    size: u64,
    image_bits: u32,
    fd_bits: u32,
    duplicate: i32,
    index: u32,
    memory: DeviceMemory,
)
    ensures
        ({
            let start = RawImport { fd, stage: ImportStage::CreatingImage };
            let created = start.next(Event::ImageCreated(Ok(image)));
            let required = created.0.next(
                Event::MemoryRequirements { size, type_bits: image_bits },
            );
            let described = required.0.next(Event::FdProperties(Ok(fd_bits)));
            let duplicated = described.0.next(Event::FdDuplicated(Ok(duplicate)));
            let found = duplicated.0.next(Event::MemoryType(Some(index)));
            let allocated = found.0.next(Event::MemoryAllocated(Ok(memory)));
            let bound = allocated.0.next(Event::MemoryBound(Ok(())));
            &&& created.1 == Progress::Act(Action::QueryMemoryRequirements { image })
            &&& required.1 == Progress::Act(Action::QueryFdProperties { handle_type: 512, fd })
            &&& described.1 == Progress::Act(Action::DuplicateFd { fd })
            &&& duplicated.1 == Progress::Act(
                Action::FindMemoryType { type_bits: image_bits & fd_bits, properties: 0 },
            )
            &&& found.1 matches Progress::Act(Action::AllocateMemory { request })
            &&& request.size == size
            &&& request.memory_type_index == index
            &&& request.handle_type == 512
            &&& request.fd == duplicate
            &&& request.image == image
            &&& allocated.1 == Progress::Act(Action::BindMemory { image, memory, offset: 0 })
            &&& bound.1 matches Progress::Done(Ok(resources))
            &&& resources.image == image
            &&& resources.memory == memory
        }),
{
}

/// What a failed import does at each point where it can fail: it ends with the
/// error for what failed, which carries the device's code or the system's
/// reason. If it had the image and the memory failed, it has the image
/// destroyed first, and if it had both, both.
pub proof fn law_failing_import(import: RawImport, code: i32, reason: String)
    ensures
        import.stage is CreatingImage ==> import.next(Event::ImageCreated(Err(code))).1
            == Progress::Done(Err(ImportError::ImageCreation { code })),
        import.stage is ReadingFdProperties ==> import.next(Event::FdProperties(Err(code))).1
            == Progress::Done(Err(ImportError::FdProperties { code })),
        import.stage is DuplicatingFd ==> import.next(Event::FdDuplicated(Err(reason))).1
            == Progress::Done(Err(ImportError::DuplicateFd { reason })),
        import.stage is FindingMemoryType ==> import.next(Event::MemoryType(None)).1
            == Progress::Done(Err(ImportError::NoMemoryType)),
        import.stage matches ImportStage::AllocatingMemory { image } ==> ({
            let failed = import.next(Event::MemoryAllocated(Err(code)));
            &&& failed.1 == Progress::Act(Action::DestroyImage { image })
            &&& failed.0.next(Event::Released).1 == Progress::Done(
                Err(ImportError::MemoryImport { code }),
            )
        }),
        import.stage matches ImportStage::BindingMemory { image, memory } ==> ({
            let failed = import.next(Event::MemoryBound(Err(code)));
            &&& failed.1 == Progress::Act(Action::FreeAndDestroy { memory, image })
            &&& failed.0.next(Event::Released).1 == Progress::Done(
                Err(ImportError::MemoryBind { code }),
            )
        }),
{
}

/// Each event takes an import one stage on, and it remembers what it was told:
/// the image from when it is created, the size and the memory types until the
/// memory is asked for, the duplicate until then too.
pub proof fn law_imports_remember(
    import: RawImport,
    image: Image,
    memory: DeviceMemory,
    size: u64,
    bits: u32,
    more: u32,
    fd: i32,
)
    ensures
        import.stage is CreatingImage ==> import.next(Event::ImageCreated(Ok(image))).0
            == (RawImport { fd: import.fd, stage: ImportStage::ReadingRequirements { image } }),
        import.stage == (ImportStage::ReadingRequirements { image }) ==> import.next(
            (Event::MemoryRequirements { size, type_bits: bits }),
        ).0 == (RawImport {
            fd: import.fd,
            stage: ImportStage::ReadingFdProperties { image, size, type_bits: bits },
        }),
        import.stage == (ImportStage::ReadingFdProperties { image, size, type_bits: bits })
            ==> import.next(Event::FdProperties(Ok(more))).0 == (RawImport {
            fd: import.fd,
            stage: ImportStage::DuplicatingFd { image, size, type_bits: bits & more },
        }),
        import.stage == (ImportStage::DuplicatingFd { image, size, type_bits: bits })
            ==> import.next(Event::FdDuplicated(Ok(fd))).0 == (RawImport {
            fd: import.fd,
            stage: ImportStage::FindingMemoryType { image, size, fd },
        }),
        import.stage == (ImportStage::FindingMemoryType { image, size, fd }) ==> import.next(
            Event::MemoryType(Some(more)),
        ).0 == (RawImport { fd: import.fd, stage: ImportStage::AllocatingMemory { image } }),
        import.stage == (ImportStage::AllocatingMemory { image }) ==> import.next(
            Event::MemoryAllocated(Ok(memory)),
        ).0 == (RawImport { fd: import.fd, stage: ImportStage::BindingMemory { image, memory } }),
{
}

/// An import waits for its image first, then for the answer to what it asked
/// for, whatever the answer is, and for nothing else. Once it has its result it
/// waits for nothing.
pub proof fn law_imports_wait_for_answers(import: RawImport, event: Event, then: Event)
    ensures
        import.stage is CreatingImage ==> (import.spec_awaits(&event) <==> event is ImageCreated),
        import.spec_awaits(&event) ==> ({
            let (after, progress) = import.next(event);
            match progress {
                Progress::Act(action) => after.spec_awaits(&then) <==> match action {
                    Action::QueryMemoryRequirements { .. } => then is MemoryRequirements,
                    Action::QueryFdProperties { .. } => then is FdProperties,
                    Action::DuplicateFd { .. } => then is FdDuplicated,
                    Action::FindMemoryType { .. } => then is MemoryType,
                    Action::AllocateMemory { .. } => then is MemoryAllocated,
                    Action::BindMemory { .. } => then is MemoryBound,
                    Action::DestroyImage { .. } => then is Released,
                    Action::FreeAndDestroy { .. } => then is Released,
                    _ => false,
                },
                Progress::Done(_) => !after.spec_awaits(&then),
            }
        }),
{
}

} // verus!
