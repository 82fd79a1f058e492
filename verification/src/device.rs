//! What the importer asks of the world around it, and what it is told back.
//!
//! The importer itself touches neither the device nor the operating system: it
//! hands out one [`Action`] at a time and takes the [`Event`] that came of it.
use vstd::prelude::*;

use crate::error::ImportError;
use crate::params::{DmaBufPlane, Format};

verus! {

/// `VK_IMAGE_TYPE_2D`.
pub const IMAGE_TYPE_2D: i32 = 1;

/// `VK_SAMPLE_COUNT_1_BIT`.
pub const SAMPLE_COUNT_1: u32 = 1;

/// `VK_IMAGE_TILING_DRM_FORMAT_MODIFIER_EXT`.
pub const IMAGE_TILING_DRM_FORMAT_MODIFIER: i32 = 1000158000;

/// `VK_IMAGE_USAGE_TRANSFER_SRC_BIT | VK_IMAGE_USAGE_SAMPLED_BIT`.
pub const IMAGE_USAGE_TRANSFER_SRC_SAMPLED: u32 = 5;

/// `VK_SHARING_MODE_EXCLUSIVE`.
pub const SHARING_MODE_EXCLUSIVE: i32 = 0;

/// `VK_IMAGE_LAYOUT_UNDEFINED`.
pub const IMAGE_LAYOUT_UNDEFINED: i32 = 0;

/// `VK_EXTERNAL_MEMORY_HANDLE_TYPE_DMA_BUF_BIT_EXT`.
pub const HANDLE_TYPE_DMA_BUF: u32 = 512;

/// No memory property at all.
pub const MEMORY_PROPERTIES_NONE: u32 = 0;

/// The raw handle of a `VkImage`.
#[derive(Debug, Clone, Copy, PartialEq, Eq, Structural)]
pub struct Image(pub u64);

/// The raw handle of a `VkDeviceMemory`.
#[derive(Debug, Clone, Copy, PartialEq, Eq, Structural)]
pub struct DeviceMemory(pub u64);

/// An imported image and the memory bound to it.
#[derive(Debug, Clone, Copy, PartialEq, Eq, Structural)]
pub struct Resources {
    pub image: Image,
    pub memory: DeviceMemory,
}

/// Where a plane lies within its image.
#[derive(Debug, Clone, Copy, PartialEq, Eq, Structural)]
pub struct PlaneLayout {
    pub offset: u64,
    pub size: u64,
    pub row_pitch: u64,
    pub array_pitch: u64,
    pub depth_pitch: u64,
}

/// One handle that is to be destroyed or freed.
#[derive(Debug, Clone, Copy, PartialEq, Eq, Structural)]
pub enum Release {
    Image(Image),
    Memory(DeviceMemory),
}

/// How to create the image of an import.
#[derive(Debug, Clone, Copy, PartialEq, Eq, Structural)]
pub struct ImagePlan {
    pub image_type: i32,
    pub format: Format,
    pub width: u32,
    pub height: u32,
    pub depth: u32,
    pub mip_levels: u32,
    pub array_layers: u32,
    pub samples: u32,
    pub tiling: i32,
    pub usage: u32,
    pub sharing_mode: i32,
    pub initial_layout: i32,
    /// The kind of external memory that will back the image.
    pub handle_types: u32,
    /// The DRM format modifier of the buffer.
    pub modifier: u64,
}

/// What memory to import.
#[derive(Debug, Clone, Copy, PartialEq, Eq, Structural)]
pub struct MemoryRequest {
    pub size: u64,
    pub memory_type_index: u32,
    pub handle_type: u32,
    /// The descriptor to import from; a successful allocation consumes it.
    pub fd: i32,
    /// The image that the allocation is dedicated to.
    pub image: Image,
}

/// What is to be done next.
#[derive(Debug)]
pub enum Action {
    /// Read the monotonic clock.
    ReadClock,
    /// Destroy each image and free its memory, in the order of [`releases`].
    Evict(Vec<Resources>),
    /// Read the inode of a descriptor.
    Stat { fd: i32 },
    /// Create an image with one explicit layout per plane.
    CreateImage { plan: ImagePlan, plane_layouts: Vec<PlaneLayout> },
    /// Ask for the memory requirements of an image.
    QueryMemoryRequirements { image: Image },
    /// Ask which memory types a descriptor can be imported into.
    QueryFdProperties { handle_type: u32, fd: i32 },
    /// Duplicate a descriptor.
    DuplicateFd { fd: i32 },
    /// Find a memory type among `type_bits` that has all of `properties`.
    FindMemoryType { type_bits: u32, properties: u32 },
    /// Import memory.
    AllocateMemory { request: MemoryRequest },
    /// Bind memory to an image.
    BindMemory { image: Image, memory: DeviceMemory, offset: u64 },
    /// Destroy an image that got no memory.
    DestroyImage { image: Image },
    /// Free memory that could not be bound, then destroy the image.
    FreeAndDestroy { memory: DeviceMemory, image: Image },
    /// Nothing: the call is over, and this is its result. The flag tells
    /// whether the image still needs its first layout transition.
    Finish(Result<(Image, bool), ImportError>),
}

/// What came of an action.
#[derive(Debug)]
pub enum Event {
    /// The clock shows this many nanoseconds.
    Clock(u128),
    /// What was to be destroyed or freed is gone.
    Released,
    /// The inode, or why it could not be read.
    Stat(Result<u64, String>),
    /// The new image, or the `VkResult` of the failure.
    ImageCreated(Result<Image, i32>),
    /// How much memory an image needs, and of which types.
    MemoryRequirements { size: u64, type_bits: u32 },
    /// The memory types for a descriptor, or the `VkResult` of the failure.
    FdProperties(Result<u32, i32>),
    /// The duplicate, or why there is none.
    FdDuplicated(Result<i32, String>),
    /// The index of a memory type, if there is one.
    MemoryType(Option<u32>),
    /// The imported memory, or the `VkResult` of the failure.
    MemoryAllocated(Result<DeviceMemory, i32>),
    /// The memory is bound, or the `VkResult` of the failure.
    MemoryBound(Result<(), i32>),
}

/// The image plan for a buffer of this size, format and modifier.
pub open spec fn image_plan(width: u32, height: u32, format: Format, modifier: u64) -> ImagePlan {
    ImagePlan {
        image_type: IMAGE_TYPE_2D,
        format,
        width,
        height,
        depth: 1,
        mip_levels: 1,
        array_layers: 1,
        samples: SAMPLE_COUNT_1,
        tiling: IMAGE_TILING_DRM_FORMAT_MODIFIER,
        usage: IMAGE_USAGE_TRANSFER_SRC_SAMPLED,
        sharing_mode: SHARING_MODE_EXCLUSIVE,
        initial_layout: IMAGE_LAYOUT_UNDEFINED,
        handle_types: HANDLE_TYPE_DMA_BUF,
        modifier,
    }
}

/// The layout of a plane: its offset and stride, and nothing else.
pub open spec fn image_layout(plane: DmaBufPlane) -> PlaneLayout {
    PlaneLayout {
        offset: plane.offset as u64,
        size: 0,
        row_pitch: plane.stride as u64,
        array_pitch: 0,
        depth_pitch: 0,
    }
}

/// The layouts of `planes`, one for each of them.
pub open spec fn image_layouts(planes: Seq<DmaBufPlane>) -> Seq<PlaneLayout> {
    planes.map_values(|p: DmaBufPlane| image_layout(p))
}

/// In what order `list` is given back: entry by entry, each image before the
/// memory bound to it.
pub open spec fn release_order(list: Seq<Resources>) -> Seq<Release> {
    Seq::new(
        2 * list.len(),
        |i: int|
            if i % 2 == 0 {
                Release::Image(list[i / 2].image)
            } else {
                Release::Memory(list[i / 2].memory)
            },
    )
}

/// An image is asked for with the size, format and modifier of its buffer, as
/// one 2D image that is sampled and copied from, and that DMA-BUF memory backs.
pub proof fn law_image_is_planned_as_given(width: u32, height: u32, format: Format, modifier: u64)
    ensures
        ({
            let plan = image_plan(width, height, format, modifier);
            &&& plan.width == width
            &&& plan.height == height
            &&& plan.format == format
            &&& plan.modifier == modifier
            &&& plan.image_type == 1
            &&& plan.depth == 1
            &&& plan.mip_levels == 1
            &&& plan.array_layers == 1
            &&& plan.samples == 1
            &&& plan.tiling == 1000158000
            &&& plan.usage == 5
            &&& plan.sharing_mode == 0
            &&& plan.initial_layout == 0
            &&& plan.handle_types == 512
        }),
{
}

/// Every plane has a layout of its own, with its offset and stride.
pub proof fn law_every_plane_is_laid_out(planes: Seq<DmaBufPlane>, i: int)
    ensures
        image_layouts(planes).len() == planes.len(),
        0 <= i < planes.len() ==> ({
            let layout = image_layouts(planes)[i];
            &&& layout.offset == planes[i].offset
            &&& layout.row_pitch == planes[i].stride
            &&& layout.size == 0
            &&& layout.array_pitch == 0
            &&& layout.depth_pitch == 0
        }),
{
}

/// Every image is destroyed and every memory freed, once for each time that it
/// is listed, and each image right before its own memory.
pub proof fn law_everything_listed_is_released(list: Seq<Resources>, k: int)
    ensures
        release_order(list).len() == 2 * list.len(),
        0 <= k < list.len() ==> release_order(list)[2 * k] == Release::Image(list[k].image),
        0 <= k < list.len() ==> release_order(list)[2 * k + 1] == Release::Memory(list[k].memory),
{
}

/// What an action shows of itself is what it asks for.
pub proof fn law_actions_show_what_they_ask(action: Action)
    ensures
        action is ReadClock <==> action@ is ReadClock,
        action is Evict <==> action@ is Evict,
        action is Evict ==> action->Evict_0@ == action@->Evict_0,
        action matches Action::Stat { fd } ==> (action@ matches ActionView::Stat { fd: shown } && fd
            == shown),
        action is CreateImage <==> action@ is CreateImage,
        action matches Action::CreateImage { plan, plane_layouts } ==> (
        action@ matches ActionView::CreateImage { plan: shown, plane_layouts: layouts } && plan
            == shown && plane_layouts@ == layouts),
        action matches Action::QueryMemoryRequirements { image } ==> (
        action@ matches ActionView::QueryMemoryRequirements { image: shown } && image == shown),
        action matches Action::QueryFdProperties { handle_type, fd } ==> (
        action@ matches ActionView::QueryFdProperties { handle_type: shown, fd: from } && handle_type
            == shown && fd == from),
        action matches Action::DuplicateFd { fd } ==> (
        action@ matches ActionView::DuplicateFd { fd: shown } && fd == shown),
        action matches Action::FindMemoryType { type_bits, properties } ==> (
        action@ matches ActionView::FindMemoryType { type_bits: shown, properties: wanted }
            && type_bits == shown && properties == wanted),
        action matches Action::AllocateMemory { request } ==> (
        action@ matches ActionView::AllocateMemory { request: shown } && request == shown),
        action matches Action::BindMemory { image, memory, offset } ==> (
        action@ matches ActionView::BindMemory { image: to, memory: shown, offset: at } && image
            == to && memory == shown && offset == at),
        action matches Action::DestroyImage { image } ==> (
        action@ matches ActionView::DestroyImage { image: shown } && image == shown),
        action matches Action::FreeAndDestroy { memory, image } ==> (
        action@ matches ActionView::FreeAndDestroy { memory: shown, image: of } && memory == shown
            && image == of),
        action is Finish <==> action@ is Finish,
        action is Finish ==> action->Finish_0 == action@->Finish_0,
{
}

/// The handles of `list` in the order in which they are given back.
pub fn releases(list: &[Resources]) -> (order: Vec<Release>)
    ensures
        order@ == release_order(list@),
        order@.len() == 2 * list@.len(),
        forall|k: int|
            0 <= k < list@.len() ==> order@[2 * k] == Release::Image((#[trigger] list@[k]).image)
                && order@[2 * k + 1] == Release::Memory(list@[k].memory),
{
    let mut order: Vec<Release> = Vec::new();
    let mut i: usize = 0;
    while i < list.len()
        invariant
            i <= list.len(),
            order@ =~= release_order(list@.take(i as int)),
        decreases list.len() - i,
    {
        order.push(Release::Image(list[i].image));
        order.push(Release::Memory(list[i].memory));
        i = i + 1;
    }
    order
}

/// An [`Action`] with its lists as sequences.
pub enum ActionView {
    ReadClock,
    Evict(Seq<Resources>),
    Stat { fd: i32 },
    CreateImage { plan: ImagePlan, plane_layouts: Seq<PlaneLayout> },
    QueryMemoryRequirements { image: Image },
    QueryFdProperties { handle_type: u32, fd: i32 },
    DuplicateFd { fd: i32 },
    FindMemoryType { type_bits: u32, properties: u32 },
    AllocateMemory { request: MemoryRequest },
    BindMemory { image: Image, memory: DeviceMemory, offset: u64 },
    DestroyImage { image: Image },
    FreeAndDestroy { memory: DeviceMemory, image: Image },
    Finish(Result<(Image, bool), ImportError>),
}

impl View for Action {
    type V = ActionView;

    open spec fn view(&self) -> ActionView {
        match *self {
            Action::ReadClock => ActionView::ReadClock,
            Action::Evict(list) => ActionView::Evict(list@),
            Action::Stat { fd } => ActionView::Stat { fd },
            Action::CreateImage { plan, plane_layouts } => ActionView::CreateImage {
                plan,
                plane_layouts: plane_layouts@,
            },
            Action::QueryMemoryRequirements { image } => ActionView::QueryMemoryRequirements {
                image,
            },
            Action::QueryFdProperties { handle_type, fd } => ActionView::QueryFdProperties {
                handle_type,
                fd,
            },
            Action::DuplicateFd { fd } => ActionView::DuplicateFd { fd },
            Action::FindMemoryType { type_bits, properties } => ActionView::FindMemoryType {
                type_bits,
                properties,
            },
            Action::AllocateMemory { request } => ActionView::AllocateMemory { request },
            Action::BindMemory { image, memory, offset } => ActionView::BindMemory {
                image,
                memory,
                offset,
            },
            Action::DestroyImage { image } => ActionView::DestroyImage { image },
            Action::FreeAndDestroy { memory, image } => ActionView::FreeAndDestroy {
                memory,
                image,
            },
            Action::Finish(result) => ActionView::Finish(result),
        }
    }
}

} // verus!
