//! The parameters that identify a DMA-BUF import.
use vstd::prelude::*;
use vstd::std_specs::cmp::PartialEqSpec;

verus! {

/// How many planes of a buffer take part in its identity.
pub const MAX_PLANES: usize = 4;

/// A pixel format, as the number that Vulkan gives it (`VkFormat`).
#[derive(Debug, Clone, Copy, PartialEq, Eq, Structural)]
pub struct Format(pub i32);

/// Information about a single DMA-BUF plane.
#[derive(Debug, Clone, Copy, PartialEq, Eq, Structural)]
pub struct DmaBufPlane {
    /// File descriptor for the DMA-BUF.
    pub fd: i32,
    /// Offset within the DMA-BUF to the start of this plane.
    pub offset: u32,
    /// Row stride in bytes.
    pub stride: u32,
    /// DRM format modifier.
    pub modifier: u64,
}

/// Identifying parameters of a DMA-BUF import. A cached image may only be
/// reused when all of these match the new request; a mismatch on the same
/// inode means the inode now maps to a different buffer.
#[derive(Debug, Clone, Copy)]
pub struct ImportParams {
    pub width: u32,
    pub height: u32,
    pub format: Format,
    /// The format modifier of the first plane, 0 when there is no plane.
    pub modifier: u64,
    /// How many of the entries of `plane_layouts` stand for a plane.
    pub plane_count: usize,
    /// (offset, stride) per plane.
    pub plane_layouts: [(u32, u32); 4],
}

/// The layout of plane `i`, as (offset, stride): zeros past the last plane.
pub open spec fn plane_layout(planes: Seq<DmaBufPlane>, i: int) -> (u32, u32) {
    if 0 <= i < planes.len() {
        (planes[i].offset, planes[i].stride)
    } else {
        (0, 0)
    }
}

/// The parameters of an import of `planes`.
pub open spec fn params_of(
    width: u32,
    height: u32,
    format: Format,
    planes: Seq<DmaBufPlane>,
) -> ImportParams {
    ImportParams {
        width,
        height,
        format,
        modifier: if planes.len() == 0 {
            0
        } else {
            planes[0].modifier
        },
        plane_count: if planes.len() < MAX_PLANES {
            planes.len() as usize
        } else {
            MAX_PLANES
        },
        plane_layouts: [
            plane_layout(planes, 0),
            plane_layout(planes, 1),
            plane_layout(planes, 2),
            plane_layout(planes, 3),
        ],
    }
}

/// The parameters are the size and format, the modifier of the first plane, how
/// many planes there are up to four, and the offset and stride of each of those.
pub proof fn law_parameters_are_those_given(
    width: u32,
    height: u32,
    format: Format,
    planes: Seq<DmaBufPlane>,
    i: int,
)
    ensures
        ({
            let params = params_of(width, height, format, planes);
            &&& params.width == width
            &&& params.height == height
            &&& params.format == format
            &&& planes.len() > 0 ==> params.modifier == planes[0].modifier
            &&& planes.len() == 0 ==> params.modifier == 0
            &&& planes.len() <= 4 ==> params.plane_count == planes.len()
            &&& planes.len() > 4 ==> params.plane_count == 4
            &&& 0 <= i < 4 && i < planes.len() ==> params.plane_layouts[i] == (
                planes[i].offset,
                planes[i].stride,
            )
            &&& 0 <= i < 4 && planes.len() <= i ==> params.plane_layouts[i] == (0u32, 0u32)
        }),
{
}

/// Two sets of parameters are held equal exactly when every one of them is.
pub proof fn law_equal_parameters_agree_in_all(a: ImportParams, b: ImportParams)
    ensures
        a.eq_spec(&b) <==> {
            &&& a.width == b.width
            &&& a.height == b.height
            &&& a.format == b.format
            &&& a.modifier == b.modifier
            &&& a.plane_count == b.plane_count
            &&& a.plane_layouts[0] == b.plane_layouts[0]
            &&& a.plane_layouts[1] == b.plane_layouts[1]
            &&& a.plane_layouts[2] == b.plane_layouts[2]
            &&& a.plane_layouts[3] == b.plane_layouts[3]
        },
        a.eq_spec(&b) <==> a == b,
{
    if forall|i: int| 0 <= i < 4 ==> a.plane_layouts[i] == b.plane_layouts[i] {
        assert(a.plane_layouts =~= b.plane_layouts);
    }
}

impl ImportParams {
    /// The parameters of an import of `planes`: the first four of them count.
    pub fn new(width: u32, height: u32, format: Format, planes: &[DmaBufPlane]) -> (params: Self)
        ensures
            params == params_of(width, height, format, planes@),
            params.width == width,
            params.height == height,
            params.format == format,
            planes@.len() > 0 ==> params.modifier == planes@[0].modifier,
            forall|i: int|
                0 <= i < planes@.len() && i < 4 ==> params.plane_layouts[i] == (
                    (#[trigger] planes@[i]).offset,
                    planes@[i].stride,
                ),
    {
        let mut plane_layouts: [(u32, u32); 4] = [(0u32, 0u32);4];
        let mut i: usize = 0;
        while i < planes.len() && i < MAX_PLANES
            invariant
                i <= planes.len(),
                i <= MAX_PLANES,
                forall|j: int|
                    0 <= j < MAX_PLANES ==> #[trigger] plane_layouts@[j] == (if j < i {
                        plane_layout(planes@, j)
                    } else {
                        (0u32, 0u32)
                    }),
            decreases MAX_PLANES - i,
        {
            plane_layouts[i] = (planes[i].offset, planes[i].stride);
            i = i + 1;
        }
        let modifier: u64 = if planes.len() == 0 {
            0
        } else {
            planes[0].modifier
        };
        let params = Self { width, height, format, modifier, plane_count: i, plane_layouts };
        assert(params.plane_layouts =~= params_of(width, height, format, planes@).plane_layouts);
        params
    }
}

impl PartialEq for ImportParams {
    fn eq(&self, other: &Self) -> (equal: bool) {
        let a = &self.plane_layouts;
        let b = &other.plane_layouts;
        let layouts = a[0].0 == b[0].0 && a[0].1 == b[0].1 && a[1].0 == b[1].0 && a[1].1 == b[1].1
            && a[2].0 == b[2].0 && a[2].1 == b[2].1 && a[3].0 == b[3].0 && a[3].1 == b[3].1;
        let equal = self.width == other.width && self.height == other.height && self.format.0
            == other.format.0 && self.modifier == other.modifier && self.plane_count
            == other.plane_count && layouts;
        assert(layouts ==> self.plane_layouts =~= other.plane_layouts);
        equal
    }
}

impl vstd::std_specs::cmp::PartialEqSpecImpl for ImportParams {
    open spec fn obeys_eq_spec() -> bool {
        true
    }

    open spec fn eq_spec(&self, other: &Self) -> bool {
        *self == *other
    }
}

impl Eq for ImportParams {

}

} // verus!
