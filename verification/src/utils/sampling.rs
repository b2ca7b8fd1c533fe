//! Axis conventions, boxes in voxel-index space and the layout of sampling
//! grids.

use vstd::prelude::*;

verus! {

/// One of the three axes along which a volume is cut.
#[derive(Debug, Clone, Copy, PartialEq, Eq, Hash, Structural)]
pub enum SliceAxis {
    X,
    Y,
    Z,
}

impl SliceAxis {
    /// The position of the axis in a coordinate triple.
    pub open spec fn spec_index(self) -> int {
        match self {
            SliceAxis::X => 0,
            SliceAxis::Y => 1,
            SliceAxis::Z => 2,
        }
    }

    /// The in-plane axis that runs along the columns of a displayed slice.
    pub open spec fn spec_column_index(self) -> int {
        match self {
            SliceAxis::X => 2,
            SliceAxis::Y => 2,
            SliceAxis::Z => 1,
        }
    }

    /// The in-plane axis that runs along the rows of a displayed slice.
    pub open spec fn spec_row_index(self) -> int {
        match self {
            SliceAxis::X => 1,
            SliceAxis::Y => 0,
            SliceAxis::Z => 0,
        }
    }

    /// The axis at position `index` of a coordinate triple.
    pub fn from_index(index: usize) -> (axis: SliceAxis)
        requires
            index < 3,
        ensures
            axis.spec_index() == index,
    {
        if index == 0 {
            SliceAxis::X
        } else if index == 1 {
            SliceAxis::Y
        } else {
            SliceAxis::Z
        }
    }

    /// The position of the axis in a coordinate triple.
    pub fn index(&self) -> (i: usize)
        ensures
            i == self.spec_index(),
    {
        match self {
            SliceAxis::X => 0,
            SliceAxis::Y => 1,
            SliceAxis::Z => 2,
        }
    }

    /// The position of the in-plane axis shown along the columns.
    pub fn column_index(&self) -> (i: usize)
        ensures
            i == self.spec_column_index(),
    {
        match self {
            SliceAxis::X => 2,
            SliceAxis::Y => 2,
            SliceAxis::Z => 1,
        }
    }

    /// The position of the in-plane axis shown along the rows.
    pub fn row_index(&self) -> (i: usize)
        ensures
            i == self.spec_row_index(),
    {
        match self {
            SliceAxis::X => 1,
            SliceAxis::Y => 0,
            SliceAxis::Z => 0,
        }
    }

    /// The one-letter name of the axis.
    pub fn label(&self) -> (s: &'static str)
        ensures
            self == SliceAxis::X ==> s@ == "X"@,
            self == SliceAxis::Y ==> s@ == "Y"@,
            self == SliceAxis::Z ==> s@ == "Z"@,
    {
        match self {
            SliceAxis::X => "X",
            SliceAxis::Y => "Y",
            SliceAxis::Z => "Z",
        }
    }

    /// The in-plane axis that a sampling grid sweeps along its width.
    pub open spec fn spec_sweep_width_index(self) -> int {
        match self {
            SliceAxis::X => 1,
            SliceAxis::Y => 0,
            SliceAxis::Z => 0,
        }
    }

    /// The in-plane axis that a sampling grid sweeps along its height.
    pub open spec fn spec_sweep_height_index(self) -> int {
        match self {
            SliceAxis::X => 2,
            SliceAxis::Y => 2,
            SliceAxis::Z => 1,
        }
    }

    /// The point of the cutting plane at depth `depth` whose in-plane
    /// coordinates are `along_width` and `along_height`.
    pub open spec fn spec_place<T>(self, depth: T, along_width: T, along_height: T, w: T) -> Coord<T> {
        match self {
            SliceAxis::X => Coord { x: depth, y: along_width, z: along_height, w },
            SliceAxis::Y => Coord { x: along_width, y: depth, z: along_height, w },
            SliceAxis::Z => Coord { x: along_width, y: along_height, z: depth, w },
        }
    }

    /// The point of the cutting plane at depth `depth` whose in-plane
    /// coordinates are `along_width` and `along_height`.
    pub fn place<T: Copy>(&self, depth: T, along_width: T, along_height: T, w: T) -> (p: Coord<T>)
        ensures
            p == self.spec_place(depth, along_width, along_height, w),
    {
        match self {
            SliceAxis::X => Coord { x: depth, y: along_width, z: along_height, w },
            SliceAxis::Y => Coord { x: along_width, y: depth, z: along_height, w },
            SliceAxis::Z => Coord { x: along_width, y: along_height, z: depth, w },
        }
    }

    /// The bounds of the cutting plane inside a box with corners `lower` and
    /// `upper`: the lower bound along the width, the lower bound along the
    /// height, then the two upper bounds.
    pub fn plane_bounds<T: Copy>(&self, lower: (T, T, T), upper: (T, T, T)) -> (b: (T, T, T, T))
        ensures
            self == SliceAxis::X ==> b == (lower.1, lower.2, upper.1, upper.2),
            self == SliceAxis::Y ==> b == (lower.0, lower.2, upper.0, upper.2),
            self == SliceAxis::Z ==> b == (lower.0, lower.1, upper.0, upper.1),
    {
        match self {
            SliceAxis::X => (lower.1, lower.2, upper.1, upper.2),
            SliceAxis::Y => (lower.0, lower.2, upper.0, upper.2),
            SliceAxis::Z => (lower.0, lower.1, upper.0, upper.1),
        }
    }
}

/// Splits a per-axis triple into the entry of the cut axis, the entry of the
/// column axis and the entry of the row axis, in that order.
pub fn position_2d<T: Copy>(labels: &[T], axis: SliceAxis) -> (r: (T, T, T))
    requires
        labels@.len() >= 3,
    ensures
        r.0 == labels@[axis.spec_index()],
        r.1 == labels@[axis.spec_column_index()],
        r.2 == labels@[axis.spec_row_index()],
{
    let index = labels[axis.index()];
    let y_index = labels[axis.row_index()];
    let x_index = labels[axis.column_index()];
    (index, x_index, y_index)
}

/// The three positions of a coordinate triple are the cut axis and its two
/// in-plane axes, each exactly once.
pub proof fn lemma_axes_partition(axis: SliceAxis)
    ensures
        0 <= axis.spec_index() < 3,
        0 <= axis.spec_column_index() < 3,
        0 <= axis.spec_row_index() < 3,
        axis.spec_index() != axis.spec_column_index(),
        axis.spec_index() != axis.spec_row_index(),
        axis.spec_column_index() != axis.spec_row_index(),
{
}

/// A point in homogeneous coordinates.
#[derive(Debug, Clone, Copy, PartialEq)]
pub struct Coord<T> {
    pub x: T,
    pub y: T,
    pub z: T,
    pub w: T,
}

/// The coordinate of component `i` (0, 1 or 2) of a point.
pub open spec fn spec_component<T>(p: Coord<T>, i: int) -> T {
    if i == 0 {
        p.x
    } else if i == 1 {
        p.y
    } else {
        p.z
    }
}

/// The sampling points of a slice, row after row.
///
/// `along_width` holds the in-plane coordinate of each grid column and
/// `along_height` that of each grid row. Point `i` belongs to column
/// `i % along_width.len()` and row `i / along_width.len()`: it lies at depth
/// `out_depth` on the cut axis and at the coordinates of its column and row
/// on the two swept axes. Every point has homogeneous weight `one`.
pub fn slice_cube_3d_coords<T: Copy>(
    axis: SliceAxis,
    out_depth: T,
    one: T,
    along_width: &[T],
    along_height: &[T],
) -> (coords: Vec<Coord<T>>)
    ensures
        coords@.len() == along_width@.len() * along_height@.len(),
        forall|i: int|
            0 <= i < coords@.len() ==> #[trigger] coords@[i] == axis.spec_place(
                out_depth,
                along_width@[i % (along_width@.len() as int)],
                along_height@[i / (along_width@.len() as int)],
                one,
            ),
{
    let out_width = along_width.len();
    let out_height = along_height.len();
    let mut coords: Vec<Coord<T>> = Vec::new();
    let mut v: usize = 0;
    while v < out_height
        invariant
            out_width == along_width@.len(),
            out_height == along_height@.len(),
            v <= out_height,
            coords@.len() == v * out_width,
            forall|i: int|
                0 <= i < coords@.len() ==> #[trigger] coords@[i] == axis.spec_place(
                    out_depth,
                    along_width@[i % (out_width as int)],
                    along_height@[i / (out_width as int)],
                    one,
                ),
        decreases out_height - v,
    {
        let mut h: usize = 0;
        while h < out_width
            invariant
                out_width == along_width@.len(),
                out_height == along_height@.len(),
                v < out_height,
                h <= out_width,
                coords@.len() == v * out_width + h,
                forall|i: int|
                    0 <= i < coords@.len() ==> #[trigger] coords@[i] == axis.spec_place(
                        out_depth,
                        along_width@[i % (out_width as int)],
                        along_height@[i / (out_width as int)],
                        one,
                    ),
            decreases out_width - h,
        {
            proof {
                vstd::arithmetic::div_mod::lemma_fundamental_div_mod_converse(
                    v * out_width + h,
                    out_width as int,
                    v as int,
                    h as int,
                );
            }
            let p = axis.place(out_depth, along_width[h], along_height[v], one);
            coords.push(p);
            h = h + 1;
        }
        proof {
            assert((v + 1) * out_width == v * out_width + out_width) by (nonlinear_arith);
        }
        v = v + 1;
    }
    proof {
        assert(out_height * out_width == out_width * out_height) by (nonlinear_arith);
    }
    coords
}

/// The sample that the display reads at column `x` and row `y`, before any
/// averaging, lies where the crosshair looks for it: sample `x * W + y` of a
/// grid of `W` columns lies at the given depth on the cut axis, at
/// `along_height[x]` on the display's column axis and at `along_width[y]` on
/// its row axis.
pub proof fn lemma_sample_lies_on_display_axes<T>(
    axis: SliceAxis,
    depth: T,
    one: T,
    along_width: Seq<T>,
    along_height: Seq<T>,
    coords: Seq<Coord<T>>,
    x: int,
    y: int,
)
    requires
        coords.len() == along_width.len() * along_height.len(),
        forall|i: int|
            0 <= i < coords.len() ==> #[trigger] coords[i] == axis.spec_place(
                depth,
                along_width[i % (along_width.len() as int)],
                along_height[i / (along_width.len() as int)],
                one,
            ),
        0 <= x < along_height.len(),
        0 <= y < along_width.len(),
    ensures
        0 <= x * along_width.len() + y < coords.len(),
        spec_component(coords[x * along_width.len() + y], axis.spec_index()) == depth,
        spec_component(coords[x * along_width.len() + y], axis.spec_column_index())
            == along_height[x],
        spec_component(coords[x * along_width.len() + y], axis.spec_row_index()) == along_width[y],
{
    let w = along_width.len() as int;
    let h = along_height.len() as int;
    let i = x * w + y;
    assert(0 <= i < w * h) by (nonlinear_arith)
        requires
            0 <= x < h,
            0 <= y < w,
            i == x * w + y,
    ;
    vstd::arithmetic::div_mod::lemma_fundamental_div_mod_converse(i, w, x, y);
    lemma_grid_matches_display(axis, depth, along_width[y], along_height[x], one);
    assert(coords[i] == axis.spec_place(depth, along_width[y], along_height[x], one));
}

/// A sampling grid and the display agree on the axes of a slice: the grid
/// puts the component named by `spec_sweep_width_index` along its width and
/// the one named by `spec_sweep_height_index` along its height, the cut axis
/// stays at the given depth, and the axis swept along the width is the
/// display's row axis while the axis swept along the height is its column
/// axis.
pub proof fn lemma_grid_matches_display<T>(axis: SliceAxis, depth: T, along_width: T, along_height: T, w: T)
    ensures
        spec_component(axis.spec_place(depth, along_width, along_height, w), axis.spec_index())
            == depth,
        spec_component(
            axis.spec_place(depth, along_width, along_height, w),
            axis.spec_sweep_width_index(),
        ) == along_width,
        spec_component(
            axis.spec_place(depth, along_width, along_height, w),
            axis.spec_sweep_height_index(),
        ) == along_height,
        axis.spec_place(depth, along_width, along_height, w).w == w,
        axis.spec_sweep_width_index() == axis.spec_row_index(),
        axis.spec_sweep_height_index() == axis.spec_column_index(),
{
}

/// An axis-aligned box in voxel-index space, both corners included.
#[derive(Debug, Clone, Copy, PartialEq, Eq, Structural)]
pub struct Cube {
    pub x0: i64,
    pub y0: i64,
    pub z0: i64,
    pub x1: i64,
    pub y1: i64,
    pub z1: i64,
    pub xd: u64,
    pub yd: u64,
    pub zd: u64,
}

impl Cube {
    /// The lower corner does not exceed the upper one, and the extents are
    /// the differences of the corners.
    pub open spec fn wf(self) -> bool {
        &&& self.x0 <= self.x1
        &&& self.y0 <= self.y1
        &&& self.z0 <= self.z1
        &&& self.xd == self.x1 - self.x0
        &&& self.yd == self.y1 - self.y0
        &&& self.zd == self.z1 - self.z0
    }

    /// Whether the first three coordinates of `p` lie in the box.
    pub open spec fn contains(self, p: Coord<i64>) -> bool {
        &&& self.x0 <= p.x <= self.x1
        &&& self.y0 <= p.y <= self.y1
        &&& self.z0 <= p.z <= self.z1
    }

    /// Whether every point of `other` lies in the box.
    pub open spec fn encloses(self, other: Cube) -> bool {
        &&& self.x0 <= other.x0 && other.x1 <= self.x1
        &&& self.y0 <= other.y0 && other.y1 <= self.y1
        &&& self.z0 <= other.z0 && other.z1 <= self.z1
    }

    /// The eight corners, in the order in which `corner_coords` lists them.
    pub open spec fn spec_corner_coords(self) -> Seq<Coord<i64>> {
        seq![
            Coord { x: self.x0, y: self.y0, z: self.z0, w: 1i64 },
            Coord { x: self.x1, y: self.y1, z: self.z1, w: 1i64 },
            Coord { x: self.x1, y: self.y0, z: self.z0, w: 1i64 },
            Coord { x: self.x0, y: self.y1, z: self.z1, w: 1i64 },
            Coord { x: self.x0, y: self.y0, z: self.z1, w: 1i64 },
            Coord { x: self.x1, y: self.y1, z: self.z0, w: 1i64 },
            Coord { x: self.x1, y: self.y0, z: self.z1, w: 1i64 },
            Coord { x: self.x0, y: self.y1, z: self.z0, w: 1i64 },
        ]
    }

    /// The box with the given corners.
    pub fn new(x0: i64, y0: i64, z0: i64, x1: i64, y1: i64, z1: i64) -> (cube: Cube)
        requires
            x0 <= x1,
            y0 <= y1,
            z0 <= z1,
        ensures
            cube.wf(),
            cube.x0 == x0 && cube.y0 == y0 && cube.z0 == z0,
            cube.x1 == x1 && cube.y1 == y1 && cube.z1 == z1,
    {
        let xd = extent(x0, x1);
        let yd = extent(y0, y1);
        let zd = extent(z0, z1);
        Cube { x0, y0, z0, x1, y1, z1, xd, yd, zd }
    }

    /// The eight corners in a fixed order, each with homogeneous weight 1.
    pub fn corner_coords(&self) -> (corners: Vec<Coord<i64>>)
        ensures
            corners@ == self.spec_corner_coords(),
    {
        let mut corners: Vec<Coord<i64>> = Vec::new();
        corners.push(Coord { x: self.x0, y: self.y0, z: self.z0, w: 1 });
        corners.push(Coord { x: self.x1, y: self.y1, z: self.z1, w: 1 });
        corners.push(Coord { x: self.x1, y: self.y0, z: self.z0, w: 1 });
        corners.push(Coord { x: self.x0, y: self.y1, z: self.z1, w: 1 });
        corners.push(Coord { x: self.x0, y: self.y0, z: self.z1, w: 1 });
        corners.push(Coord { x: self.x1, y: self.y1, z: self.z0, w: 1 });
        corners.push(Coord { x: self.x1, y: self.y0, z: self.z1, w: 1 });
        corners.push(Coord { x: self.x0, y: self.y1, z: self.z0, w: 1 });
        assert(corners@ =~= self.spec_corner_coords());
        corners
    }

    /// The lower corner, with homogeneous weight 1.
    pub fn min(&self) -> (p: Coord<i64>)
        ensures
            p == (Coord { x: self.x0, y: self.y0, z: self.z0, w: 1i64 }),
    {
        Coord { x: self.x0, y: self.y0, z: self.z0, w: 1 }
    }

    /// The upper corner, with homogeneous weight 1.
    pub fn max(&self) -> (p: Coord<i64>)
        ensures
            p == (Coord { x: self.x1, y: self.y1, z: self.z1, w: 1i64 }),
    {
        Coord { x: self.x1, y: self.y1, z: self.z1, w: 1 }
    }

    /// The centre in homogeneous coordinates with weight 2: the sums of the
    /// two corners' coordinates, so that dividing by the weight gives their
    /// arithmetic mean, which need not be a whole number.
    pub fn center(&self) -> (p: Coord<i128>)
        ensures
            p == (Coord::<i128> {
                x: (self.x0 + self.x1) as i128,
                y: (self.y0 + self.y1) as i128,
                z: (self.z0 + self.z1) as i128,
                w: 2i128,
            }),
    {
        Coord {
            x: self.x0 as i128 + self.x1 as i128,
            y: self.y0 as i128 + self.y1 as i128,
            z: self.z0 as i128 + self.z1 as i128,
            w: 2,
        }
    }

    /// The extent along each axis.
    pub fn size(&self) -> (s: (u64, u64, u64))
        ensures
            s == (self.xd, self.yd, self.zd),
    {
        (self.xd, self.yd, self.zd)
    }
}

/// The distance from `lo` up to `hi`.
fn extent(lo: i64, hi: i64) -> (d: u64)
    requires
        lo <= hi,
    ensures
        d == hi - lo,
{
    let wide: i128 = hi as i128 - lo as i128;
    wide as u64
}

/// The box of voxel indices of an array with the given shape: from 0 up to
/// the last index along each of the first three dimensions.
pub fn bounding_cube_from_shape_3d(shape: &[usize]) -> (cube: Cube)
    requires
        shape@.len() >= 3,
        forall|i: int| 0 <= i < 3 ==> 1 <= #[trigger] shape@[i] <= i64::MAX,
    ensures
        cube.wf(),
        cube.x0 == 0 && cube.y0 == 0 && cube.z0 == 0,
        cube.x1 == shape@[0] - 1,
        cube.y1 == shape@[1] - 1,
        cube.z1 == shape@[2] - 1,
{
    let x: i64 = (shape[0] - 1) as i64;
    let y: i64 = (shape[1] - 1) as i64;
    let z: i64 = (shape[2] - 1) as i64;
    Cube::new(0, 0, 0, x, y, z)
}

/// Whether `cube` is the bounding box of `coords`: it holds every point, and
/// each of its six faces touches one.
pub open spec fn is_bounding_cube(cube: Cube, coords: Seq<Coord<i64>>) -> bool {
    &&& cube.wf()
    &&& forall|i: int| 0 <= i < coords.len() ==> cube.contains(#[trigger] coords[i])
    &&& exists|i: int| 0 <= i < coords.len() && (#[trigger] coords[i]).x == cube.x0
    &&& exists|i: int| 0 <= i < coords.len() && (#[trigger] coords[i]).x == cube.x1
    &&& exists|i: int| 0 <= i < coords.len() && (#[trigger] coords[i]).y == cube.y0
    &&& exists|i: int| 0 <= i < coords.len() && (#[trigger] coords[i]).y == cube.y1
    &&& exists|i: int| 0 <= i < coords.len() && (#[trigger] coords[i]).z == cube.z0
    &&& exists|i: int| 0 <= i < coords.len() && (#[trigger] coords[i]).z == cube.z1
}

/// The smallest box that holds the first three coordinates of every point.
/// The homogeneous weight is not looked at.
pub fn bounding_cube_from_coords(coords: &[Coord<i64>]) -> (cube: Cube)
    requires
        coords@.len() > 0,
    ensures
        is_bounding_cube(cube, coords@),
{
    let first = coords[0];
    let mut x0: i64 = first.x;
    let mut x1: i64 = first.x;
    let mut y0: i64 = first.y;
    let mut y1: i64 = first.y;
    let mut z0: i64 = first.z;
    let mut z1: i64 = first.z;
    let mut k: usize = 1;
    while k < coords.len()
        invariant
            1 <= k <= coords@.len(),
            x0 <= x1 && y0 <= y1 && z0 <= z1,
            forall|i: int|
                0 <= i < k ==> {
                    &&& x0 <= (#[trigger] coords@[i]).x <= x1
                    &&& y0 <= coords@[i].y <= y1
                    &&& z0 <= coords@[i].z <= z1
                },
            exists|i: int| 0 <= i < k && (#[trigger] coords@[i]).x == x0,
            exists|i: int| 0 <= i < k && (#[trigger] coords@[i]).x == x1,
            exists|i: int| 0 <= i < k && (#[trigger] coords@[i]).y == y0,
            exists|i: int| 0 <= i < k && (#[trigger] coords@[i]).y == y1,
            exists|i: int| 0 <= i < k && (#[trigger] coords@[i]).z == z0,
            exists|i: int| 0 <= i < k && (#[trigger] coords@[i]).z == z1,
        decreases coords@.len() - k,
    {
        let p = coords[k];
        if p.x < x0 {
            x0 = p.x;
        }
        if p.x > x1 {
            x1 = p.x;
        }
        if p.y < y0 {
            y0 = p.y;
        }
        if p.y > y1 {
            y1 = p.y;
        }
        if p.z < z0 {
            z0 = p.z;
        }
        if p.z > z1 {
            z1 = p.z;
        }
        k = k + 1;
    }
    Cube::new(x0, y0, z0, x1, y1, z1)
}

/// No box that holds every point is tighter than their bounding box.
pub proof fn lemma_bounding_cube_is_smallest(coords: Seq<Coord<i64>>, cube: Cube, other: Cube)
    requires
        is_bounding_cube(cube, coords),
        forall|i: int| 0 <= i < coords.len() ==> other.contains(#[trigger] coords[i]),
    ensures
        other.encloses(cube),
{
    let ix0 = choose|i: int| 0 <= i < coords.len() && (#[trigger] coords[i]).x == cube.x0;
    let ix1 = choose|i: int| 0 <= i < coords.len() && (#[trigger] coords[i]).x == cube.x1;
    let iy0 = choose|i: int| 0 <= i < coords.len() && (#[trigger] coords[i]).y == cube.y0;
    let iy1 = choose|i: int| 0 <= i < coords.len() && (#[trigger] coords[i]).y == cube.y1;
    let iz0 = choose|i: int| 0 <= i < coords.len() && (#[trigger] coords[i]).z == cube.z0;
    let iz1 = choose|i: int| 0 <= i < coords.len() && (#[trigger] coords[i]).z == cube.z1;
    assert(other.contains(coords[ix0]));
    assert(other.contains(coords[ix1]));
    assert(other.contains(coords[iy0]));
    assert(other.contains(coords[iy1]));
    assert(other.contains(coords[iz0]));
    assert(other.contains(coords[iz1]));
}

/// The bounding box of a box's eight corners is the box itself.
pub proof fn lemma_corners_span_cube(cube: Cube)
    requires
        cube.wf(),
    ensures
        is_bounding_cube(cube, cube.spec_corner_coords()),
{
    let c = cube.spec_corner_coords();
    assert(c[0].x == cube.x0 && c[0].y == cube.y0 && c[0].z == cube.z0);
    assert(c[1].x == cube.x1 && c[1].y == cube.y1 && c[1].z == cube.z1);
}

/// The rows and columns of an image that one cell of its downsampled form
/// averages: from the start up to, not including, the end.
#[derive(Debug, Clone, Copy, PartialEq, Eq, Structural)]
pub struct Block {
    pub start_row: usize,
    pub end_row: usize,
    pub start_col: usize,
    pub end_col: usize,
}

/// The block to which row or column `index` of an image belongs when blocks
/// of `factor` are averaged.
pub open spec fn spec_block_of(index: int, factor: int) -> int {
    index / factor
}

/// The shape of an image of `rows` by `cols` after blocks of `factor` by
/// `factor` samples were averaged: what does not fill a block is left out.
pub fn downsample_shape(rows: usize, cols: usize, factor: usize) -> (shape: (usize, usize))
    requires
        factor > 0,
    ensures
        shape == (rows / factor, cols / factor),
{
    (rows / factor, cols / factor)
}

/// The block of an image of `rows` by `cols` that cell `(i, j)` of its
/// downsampled form averages. It lies inside the image, holds `factor` rows
/// and `factor` columns, and holds exactly the samples whose row divided by
/// `factor` is `i` and whose column divided by `factor` is `j`.
pub fn downsample_block(rows: usize, cols: usize, factor: usize, i: usize, j: usize) -> (block:
    Block)
    requires
        factor > 0,
        i < rows / factor,
        j < cols / factor,
    ensures
        block.start_row == i * factor,
        block.end_row == block.start_row + factor,
        block.end_row <= rows,
        block.start_col == j * factor,
        block.end_col == block.start_col + factor,
        block.end_col <= cols,
        forall|r: int|
            block.start_row <= r < block.end_row <==> 0 <= r && #[trigger] spec_block_of(
                r,
                factor as int,
            ) == i,
        forall|c: int|
            block.start_col <= c < block.end_col <==> 0 <= c && #[trigger] spec_block_of(
                c,
                factor as int,
            ) == j,
{
    proof {
        lemma_block_inside(rows as int, factor as int, i as int);
        lemma_block_inside(cols as int, factor as int, j as int);
        assert forall|r: int|
            i * factor <= r < i * factor + factor <==> 0 <= r && #[trigger] spec_block_of(
                r,
                factor as int,
            ) == i by {
            lemma_block_members(factor as int, i as int, r);
        }
        assert forall|c: int|
            j * factor <= c < j * factor + factor <==> 0 <= c && #[trigger] spec_block_of(
                c,
                factor as int,
            ) == j by {
            lemma_block_members(factor as int, j as int, c);
        }
    }
    let start_row = i * factor;
    let start_col = j * factor;
    Block { start_row, end_row: start_row + factor, start_col, end_col: start_col + factor }
}

/// A block that is counted by the quotient ends inside the whole.
proof fn lemma_block_inside(len: int, factor: int, i: int)
    requires
        factor > 0,
        0 <= i < len / factor,
    ensures
        0 <= i * factor,
        i * factor + factor <= len,
{
    vstd::arithmetic::div_mod::lemma_fundamental_div_mod(len, factor);
    vstd::arithmetic::div_mod::lemma_mod_bound(len, factor);
    let q = len / factor;
    assert(i * factor + factor <= q * factor) by (nonlinear_arith)
        requires
            0 <= i < q,
            factor > 0,
    ;
    assert(factor * q == q * factor) by (nonlinear_arith);
    assert(0 <= i * factor) by (nonlinear_arith)
        requires
            0 <= i,
            factor > 0,
    ;
}

/// Block `i` holds the numbers whose quotient by `factor` is `i`.
proof fn lemma_block_members(factor: int, i: int, r: int)
    requires
        factor > 0,
        0 <= i,
    ensures
        i * factor <= r < i * factor + factor <==> 0 <= r && r / factor == i,
{
    assert(0 <= i * factor) by (nonlinear_arith)
        requires
            0 <= i,
            factor > 0,
    ;
    if i * factor <= r < i * factor + factor {
        vstd::arithmetic::div_mod::lemma_fundamental_div_mod_converse(r, factor, i, r - i * factor);
    }
    if 0 <= r && r / factor == i {
        vstd::arithmetic::div_mod::lemma_fundamental_div_mod(r, factor);
        vstd::arithmetic::div_mod::lemma_mod_bound(r, factor);
        assert(factor * i == i * factor) by (nonlinear_arith);
    }
}

/// The largest voxel index along a dimension of length `dim` at which an
/// interpolation cell can start, so that the cell's far side is still a
/// voxel: sampling positions are clamped to the range from 0 to this index.
pub fn max_cell_index(dim: usize) -> (last: usize)
    requires
        dim >= 2,
    ensures
        last == dim - 2,
        last + 1 < dim,
{
    dim - 2
}

/// One of the eight voxels between which a position in a cell is
/// interpolated.
#[derive(Debug, Clone, Copy, PartialEq, Eq)]
pub struct CellCorner {
    /// The voxel's index.
    pub index: (usize, usize, usize),
    /// For each axis, whether the voxel lies on the cell's far side. The
    /// voxel's weight is the product, over the axes, of the position's
    /// offset into the cell where the voxel lies on the far side, and of one
    /// minus that offset where it lies on the near side.
    pub far: (bool, bool, bool),
}

/// The voxel of the cell at `base` that lies on the far side along exactly
/// the axes that `far` names.
pub open spec fn spec_corner(base: (usize, usize, usize), far: (bool, bool, bool)) -> CellCorner {
    CellCorner {
        index: (
            if far.0 {
                (base.0 + 1) as usize
            } else {
                base.0
            },
            if far.1 {
                (base.1 + 1) as usize
            } else {
                base.1
            },
            if far.2 {
                (base.2 + 1) as usize
            } else {
                base.2
            },
        ),
        far,
    }
}

/// The eight voxels between which a position in the cell at `base` is
/// interpolated, in the order in which their weighted values are added up:
/// the first axis changes fastest and the third slowest.
pub open spec fn spec_cell_corners(base: (usize, usize, usize)) -> Seq<CellCorner> {
    Seq::new(8, |k: int| spec_corner(base, (k % 2 == 1, (k / 2) % 2 == 1, k / 4 == 1)))
}

/// The eight voxels between which a position in the cell at `base` is
/// interpolated. The cell must lie inside an array of the given shape; then
/// so does every one of the eight.
pub fn cell_corners(shape: (usize, usize, usize), base: (usize, usize, usize)) -> (corners: Vec<
    CellCorner,
>)
    requires
        base.0 + 1 < shape.0,
        base.1 + 1 < shape.1,
        base.2 + 1 < shape.2,
    ensures
        corners@ == spec_cell_corners(base),
        forall|k: int|
            0 <= k < 8 ==> (#[trigger] corners@[k]).index.0 < shape.0 && corners@[k].index.1
                < shape.1 && corners@[k].index.2 < shape.2,
{
    let near = (base.0, base.1, base.2);
    let far = (base.0 + 1, base.1 + 1, base.2 + 1);
    let mut corners: Vec<CellCorner> = Vec::new();
    corners.push(CellCorner { index: (near.0, near.1, near.2), far: (false, false, false) });
    corners.push(CellCorner { index: (far.0, near.1, near.2), far: (true, false, false) });
    corners.push(CellCorner { index: (near.0, far.1, near.2), far: (false, true, false) });
    corners.push(CellCorner { index: (far.0, far.1, near.2), far: (true, true, false) });
    corners.push(CellCorner { index: (near.0, near.1, far.2), far: (false, false, true) });
    corners.push(CellCorner { index: (far.0, near.1, far.2), far: (true, false, true) });
    corners.push(CellCorner { index: (near.0, far.1, far.2), far: (false, true, true) });
    corners.push(CellCorner { index: (far.0, far.1, far.2), far: (true, true, true) });
    assert(corners@ =~= spec_cell_corners(base));
    corners
}

} // verus!
