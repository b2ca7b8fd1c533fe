//! The shape of a loaded volume and the box of its voxel indices.

use vstd::prelude::*;
use crate::utils::sampling::{bounding_cube_from_shape_3d, Cube};

verus! {

/// Why an array cannot serve as a volume.
#[derive(Debug, Clone, Copy, PartialEq, Eq, Structural)]
pub enum VolumeError {
    /// The array has the given number of dimensions, which is neither 3
    /// nor 4.
    UnsupportedDimensionality(usize),
    /// The dimension with the given index holds no element.
    EmptyAxis(usize),
    /// The dimension with the given index is longer than a voxel index can
    /// tell.
    AxisTooLong(usize),
}

/// The largest length of a dimension.
pub const MAX_AXIS_LEN: u64 = 0x7fff_ffff_ffff_ffff;

/// Whether every dimension before `upto` holds an element and is not too
/// long.
pub open spec fn spec_axes_usable(shape: Seq<usize>, upto: int) -> bool {
    forall|i: int| 0 <= i < upto ==> 1 <= #[trigger] shape[i] <= MAX_AXIS_LEN
}

/// Whether an array of this shape can serve as a volume: it has three
/// dimensions, or four of which the first counts the sub-volumes, and every
/// dimension holds an element and is not too long.
pub open spec fn spec_shape_supported(shape: Seq<usize>) -> bool {
    &&& shape.len() == 3 || shape.len() == 4
    &&& spec_axes_usable(shape, shape.len() as int)
}

/// The error for a shape that cannot serve: the number of dimensions comes
/// first, then the first dimension that is empty or too long.
pub open spec fn spec_shape_error(shape: Seq<usize>, err: VolumeError) -> bool {
    match err {
        VolumeError::UnsupportedDimensionality(n) => n == shape.len() && n != 3 && n != 4,
        VolumeError::EmptyAxis(i) => {
            &&& shape.len() == 3 || shape.len() == 4
            &&& i < shape.len()
            &&& shape[i as int] == 0
            &&& spec_axes_usable(shape, i as int)
        },
        VolumeError::AxisTooLong(i) => {
            &&& shape.len() == 3 || shape.len() == 4
            &&& i < shape.len()
            &&& shape[i as int] > MAX_AXIS_LEN
            &&& spec_axes_usable(shape, i as int)
        },
    }
}

/// The shape of the three-dimensional array that is shown: the last three
/// dimensions.
pub open spec fn spec_shape_3d(shape: Seq<usize>) -> Seq<usize> {
    shape.subrange(shape.len() - 3, shape.len() as int)
}

/// The shape of a volume and the box of its voxel indices.
#[derive(Debug, Clone, Copy, PartialEq, Eq)]
pub struct VolumeGrid {
    /// The number of leading dimensions that are read at index 0.
    pub leading: usize,
    /// The lengths of the three dimensions that are shown.
    pub shape: (usize, usize, usize),
    /// The box of the voxel indices.
    pub local_bounds: Cube,
}

impl VolumeGrid {
    /// The grid of an array of the given shape. Only arrays of three or four
    /// dimensions without an empty one can serve; of any other the error
    /// tells what is in the way.
    pub fn from_shape(shape: &[usize]) -> (grid: Result<VolumeGrid, VolumeError>)
        ensures
            grid is Ok <==> spec_shape_supported(shape@),
            grid matches Ok(g) ==> {
                &&& g.leading == shape@.len() - 3
                &&& g.shape.0 == spec_shape_3d(shape@)[0]
                &&& g.shape.1 == spec_shape_3d(shape@)[1]
                &&& g.shape.2 == spec_shape_3d(shape@)[2]
                &&& g.local_bounds.wf()
                &&& g.local_bounds.x0 == 0 && g.local_bounds.y0 == 0 && g.local_bounds.z0 == 0
                &&& g.local_bounds.x1 == g.shape.0 - 1
                &&& g.local_bounds.y1 == g.shape.1 - 1
                &&& g.local_bounds.z1 == g.shape.2 - 1
            },
            grid matches Err(e) ==> spec_shape_error(shape@, e),
    {
        let ndim = shape.len();
        if ndim != 3 && ndim != 4 {
            return Err(VolumeError::UnsupportedDimensionality(ndim));
        }
        let mut i: usize = 0;
        while i < ndim
            invariant
                ndim == shape@.len(),
                ndim == 3 || ndim == 4,
                i <= ndim,
                spec_axes_usable(shape@, i as int),
            decreases ndim - i,
        {
            if shape[i] == 0 {
                return Err(VolumeError::EmptyAxis(i));
            }
            if shape[i] as u64 > MAX_AXIS_LEN {
                return Err(VolumeError::AxisTooLong(i));
            }
            i = i + 1;
        }
        let leading = ndim - 3;
        let dims = vstd::slice::slice_subrange(shape, leading, ndim);
        assert(dims@ == spec_shape_3d(shape@));
        let local_bounds = bounding_cube_from_shape_3d(dims);
        Ok(VolumeGrid { leading, shape: (dims[0], dims[1], dims[2]), local_bounds })
    }

    /// The voxel in the middle of the volume.
    pub fn middle_slice(&self) -> (middle: (usize, usize, usize))
        ensures
            middle == (self.shape.0 / 2, self.shape.1 / 2, self.shape.2 / 2),
    {
        (self.shape.0 / 2, self.shape.1 / 2, self.shape.2 / 2)
    }
}

} // verus!
