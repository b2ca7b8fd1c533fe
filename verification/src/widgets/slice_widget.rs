//! One slice on the terminal: how finely it is sampled, where it is placed,
//! which cells carry the crosshair and what every cell shows.

use vstd::prelude::*;
use crate::tui::{Cell, PlacedCell, Rect};
use crate::utils::colors::{spec_max_contrast, spec_term_color, ColorMap, ColorMapper, ColorMode, HjColor, TermColor};
use crate::utils::sampling::{Cube, SliceAxis};

verus! {

/// The glyph of a cell that shows two samples, one above the other: its
/// lower half is drawn in the foreground colour.
pub const HALF_BLOCK: char = '\u{2584}';

/// The largest factor by which a slice is sampled more finely than shown.
pub const MAX_SUPERSAMPLING: usize = 16;

/// The size to which a source of `src_x` by `src_y` is scaled to fit into
/// `dest_x` by `dest_y`: it keeps its aspect ratio and fills the destination
/// along the side that is reached first; the other side is rounded down. A
/// source without width or height keeps none.
pub open spec fn spec_fit_relative(src_x: int, src_y: int, dest_x: int, dest_y: int) -> (int, int) {
    if src_x == 0 && src_y == 0 {
        (0, 0)
    } else if src_x > 0 && src_x * dest_y >= dest_x * src_y {
        (dest_x, (src_y * dest_x) / src_x)
    } else {
        ((src_x * dest_y) / src_y, dest_y)
    }
}

/// The size to which a source of `src_x` by `src_y` is scaled to fit into
/// `dest_x` by `dest_y` without changing its aspect ratio.
pub fn fit_relative(src_x: u32, src_y: u32, dest_x: u32, dest_y: u32) -> (fitted: (u32, u32))
    ensures
        fitted.0 == spec_fit_relative(src_x as int, src_y as int, dest_x as int, dest_y as int).0,
        fitted.1 == spec_fit_relative(src_x as int, src_y as int, dest_x as int, dest_y as int).1,
        fitted.0 <= dest_x,
        fitted.1 <= dest_y,
{
    if src_x == 0 && src_y == 0 {
        return (0, 0);
    }
    let sx = src_x as u64;
    let sy = src_y as u64;
    let dx = dest_x as u64;
    let dy = dest_y as u64;
    proof {
        lemma_product_fits(src_x, dest_y);
        lemma_product_fits(dest_x, src_y);
        lemma_product_fits(src_y, dest_x);
        lemma_fit_stays_inside(src_x as int, src_y as int, dest_x as int, dest_y as int);
    }
    if src_x > 0 && sx * dy >= dx * sy {
        let height = (sy * dx) / sx;
        (dest_x, height as u32)
    } else {
        let width = (sx * dy) / sy;
        (width as u32, dest_y)
    }
}

/// The product of two 32-bit numbers fits into 64 bits.
proof fn lemma_product_fits(a: u32, b: u32)
    ensures
        0 <= a * b <= 0xffff_fffe_0000_0001,
{
    assert(0 <= a * b <= 0xffff_ffff * 0xffff_ffff) by (nonlinear_arith)
        requires
            0 <= a <= 0xffff_ffff,
            0 <= b <= 0xffff_ffff,
    ;
}

/// A fitted size never exceeds the destination, in either direction.
pub proof fn lemma_fit_stays_inside(src_x: int, src_y: int, dest_x: int, dest_y: int)
    requires
        src_x >= 0,
        src_y >= 0,
        dest_x >= 0,
        dest_y >= 0,
    ensures
        0 <= spec_fit_relative(src_x, src_y, dest_x, dest_y).0 <= dest_x,
        0 <= spec_fit_relative(src_x, src_y, dest_x, dest_y).1 <= dest_y,
{
    if src_x == 0 && src_y == 0 {
    } else if src_x > 0 && src_x * dest_y >= dest_x * src_y {
        assert(0 <= (src_y * dest_x) / src_x <= dest_y) by (nonlinear_arith)
            requires
                src_x > 0,
                src_y >= 0,
                dest_x >= 0,
                dest_y >= 0,
                src_x * dest_y >= dest_x * src_y,
        ;
    } else {
        assert(src_y > 0) by (nonlinear_arith)
            requires
                src_x >= 0,
                src_y >= 0,
                dest_x >= 0,
                dest_y >= 0,
                !(src_x == 0 && src_y == 0),
                !(src_x > 0 && src_x * dest_y >= dest_x * src_y),
        ;
        assert(0 <= (src_x * dest_y) / src_y <= dest_x) by (nonlinear_arith)
            requires
                src_y > 0,
                src_x >= 0,
                dest_x >= 0,
                dest_y >= 0,
                src_x == 0 || src_x * dest_y < dest_x * src_y,
        ;
    }
}

/// A source with the aspect ratio of the destination is fitted to the
/// destination itself.
pub proof fn lemma_fit_same_aspect(src_x: int, src_y: int, dest_x: int, dest_y: int)
    requires
        src_x > 0,
        src_y > 0,
        dest_x >= 0,
        dest_y >= 0,
        src_x * dest_y == dest_x * src_y,
    ensures
        spec_fit_relative(src_x, src_y, dest_x, dest_y) == (dest_x, dest_y),
{
    assert((src_y * dest_x) / src_x == dest_y) by (nonlinear_arith)
        requires
            src_x > 0,
            src_x * dest_y == dest_x * src_y,
    ;
}

/// A fitted size has the aspect ratio of the source as nearly as whole
/// numbers allow: the side that does not fill the destination is the
/// largest whole number that does not make the result wider, or taller,
/// than the source is.
pub proof fn lemma_fit_keeps_aspect(src_x: int, src_y: int, dest_x: int, dest_y: int)
    requires
        src_x > 0,
        src_y > 0,
        dest_x >= 0,
        dest_y >= 0,
    ensures
        ({
            let fitted = spec_fit_relative(src_x, src_y, dest_x, dest_y);
            if src_x * dest_y >= dest_x * src_y {
                &&& fitted.0 == dest_x
                &&& fitted.1 * src_x <= src_y * dest_x < (fitted.1 + 1) * src_x
            } else {
                &&& fitted.1 == dest_y
                &&& fitted.0 * src_y <= src_x * dest_y < (fitted.0 + 1) * src_y
            }
        }),
{
    if src_x * dest_y >= dest_x * src_y {
        vstd::arithmetic::div_mod::lemma_fundamental_div_mod(src_y * dest_x, src_x);
        vstd::arithmetic::div_mod::lemma_mod_bound(src_y * dest_x, src_x);
        let q = (src_y * dest_x) / src_x;
        assert(src_x * q == q * src_x) by (nonlinear_arith);
        assert((q + 1) * src_x == q * src_x + src_x) by (nonlinear_arith);
    } else {
        vstd::arithmetic::div_mod::lemma_fundamental_div_mod(src_x * dest_y, src_y);
        vstd::arithmetic::div_mod::lemma_mod_bound(src_x * dest_y, src_y);
        let q = (src_x * dest_y) / src_y;
        assert(src_y * q == q * src_y) by (nonlinear_arith);
        assert((q + 1) * src_y == q * src_y + src_y) by (nonlinear_arith);
    }
}

/// The factor by which a slice is sampled more finely than it is shown, so
/// that `data_max` voxels along its longer side are not skipped by
/// `sampling_max` samples: the quotient rounded up, no less than 1 and no
/// more than 16.
pub open spec fn spec_supersampling_factor(data_max: int, sampling_max: int) -> int {
    if sampling_max <= 0 {
        if data_max <= 0 {
            1
        } else {
            16
        }
    } else {
        let whole = data_max / sampling_max;
        let rounded_up = if data_max % sampling_max == 0 {
            whole
        } else {
            whole + 1
        };
        if rounded_up < 1 {
            1
        } else if rounded_up > 16 {
            16
        } else {
            rounded_up
        }
    }
}

/// The factor by which a slice is sampled more finely than it is shown.
pub fn supersampling_factor(data_max: u64, sampling_max: u64) -> (factor: usize)
    ensures
        factor == spec_supersampling_factor(data_max as int, sampling_max as int),
        1 <= factor <= MAX_SUPERSAMPLING,
{
    if sampling_max == 0 {
        if data_max == 0 {
            1
        } else {
            MAX_SUPERSAMPLING
        }
    } else {
        let whole = data_max / sampling_max;
        if whole >= 16 {
            MAX_SUPERSAMPLING
        } else {
            let rounded_up = if data_max % sampling_max == 0 {
                whole
            } else {
                whole + 1
            };
            if rounded_up < 1 {
                1
            } else {
                rounded_up as usize
            }
        }
    }
}

/// A supersampling factor that is not cut off at 16 leaves no voxel out:
/// `factor` times `sampling_max` samples are at least `data_max`.
pub proof fn lemma_supersampling_covers(data_max: int, sampling_max: int)
    requires
        data_max >= 0,
        sampling_max > 0,
        spec_supersampling_factor(data_max, sampling_max) < 16,
    ensures
        spec_supersampling_factor(data_max, sampling_max) * sampling_max >= data_max,
{
    vstd::arithmetic::div_mod::lemma_fundamental_div_mod(data_max, sampling_max);
    vstd::arithmetic::div_mod::lemma_mod_bound(data_max, sampling_max);
    let whole = data_max / sampling_max;
    assert(whole >= 0) by (nonlinear_arith)
        requires
            whole == data_max / sampling_max,
            data_max >= 0,
            sampling_max > 0,
    ;
    assert(sampling_max * whole == whole * sampling_max) by (nonlinear_arith);
    assert((whole + 1) * sampling_max == whole * sampling_max + sampling_max) by (nonlinear_arith);
}

/// How a slice is sampled for an area of the terminal.
#[derive(Debug, Clone, Copy, PartialEq, Eq)]
pub struct SamplingPlan {
    /// The width of the shown image in samples.
    pub sampling_width: usize,
    /// The height of the shown image in samples, two to a cell.
    pub sampling_height: usize,
    /// The factor by which the slice is sampled more finely than shown.
    pub ssaa_factor: usize,
    /// The resolution that is asked of the sampler: the height times the
    /// factor, then the width times the factor.
    pub resolution: (usize, usize),
}

/// The plan for a slice with in-plane extents `extent_h` by `extent_v` that
/// is shown in `text_area`, whose cells are two samples high, when the
/// volume's voxel indices fill `local_bounds`.
pub open spec fn spec_sampling_plan(extent_h: u32, extent_v: u32, text_area: Rect, local_bounds: Cube) -> SamplingPlan {
    let fitted = spec_fit_relative(
        extent_h as int,
        extent_v as int,
        text_area.width as int,
        2 * text_area.height,
    );
    let sampling_max = if fitted.0 <= fitted.1 {
        fitted.0
    } else {
        fitted.1
    };
    let data_max = if local_bounds.xd >= local_bounds.yd {
        local_bounds.xd
    } else {
        local_bounds.yd
    };
    let factor = spec_supersampling_factor(data_max as int, sampling_max);
    SamplingPlan {
        sampling_width: fitted.0 as usize,
        sampling_height: fitted.1 as usize,
        ssaa_factor: factor as usize,
        resolution: ((fitted.1 * factor) as usize, (fitted.0 * factor) as usize),
    }
}

/// The plan for a slice with in-plane extents `extent_h` by `extent_v` that
/// is shown in `text_area`: the image is fitted into the area, and the slice
/// is sampled finely enough for the longer of the volume's first two sides.
/// Averaging blocks of `ssaa_factor` by `ssaa_factor` samples then gives an
/// image of `sampling_width` by `sampling_height`, which fits the area.
pub fn sampling_plan(extent_h: u32, extent_v: u32, text_area: Rect, local_bounds: &Cube) -> (plan:
    SamplingPlan)
    ensures
        plan == spec_sampling_plan(extent_h, extent_v, text_area, *local_bounds),
        plan.sampling_width <= text_area.width,
        plan.sampling_height <= 2 * text_area.height,
        1 <= plan.ssaa_factor <= MAX_SUPERSAMPLING,
        plan.resolution.0 == plan.sampling_height * plan.ssaa_factor,
        plan.resolution.1 == plan.sampling_width * plan.ssaa_factor,
        plan.resolution.0 / plan.ssaa_factor == plan.sampling_height,
        plan.resolution.1 / plan.ssaa_factor == plan.sampling_width,
{
    let screen_width: u32 = text_area.width as u32;
    let screen_height: u32 = (text_area.height as u32) * 2;
    let (width, height) = fit_relative(extent_h, extent_v, screen_width, screen_height);
    let sampling_max = if width <= height {
        width
    } else {
        height
    };
    let data_max = if local_bounds.xd >= local_bounds.yd {
        local_bounds.xd
    } else {
        local_bounds.yd
    };
    let factor = supersampling_factor(data_max, sampling_max as u64);
    let sampling_width = width as usize;
    let sampling_height = height as usize;
    proof {
        assert(sampling_height * factor <= 131070 * 16) by (nonlinear_arith)
            requires
                sampling_height <= 131070,
                1 <= factor <= 16,
        ;
        assert(sampling_width * factor <= 65535 * 16) by (nonlinear_arith)
            requires
                sampling_width <= 65535,
                1 <= factor <= 16,
        ;
        vstd::arithmetic::div_mod::lemma_div_multiples_vanish(
            sampling_height as int,
            factor as int,
        );
        vstd::arithmetic::div_mod::lemma_div_multiples_vanish(
            sampling_width as int,
            factor as int,
        );
        assert(sampling_height * factor == factor * sampling_height) by (nonlinear_arith);
        assert(sampling_width * factor == factor * sampling_width) by (nonlinear_arith);
    }
    SamplingPlan {
        sampling_width,
        sampling_height,
        ssaa_factor: factor,
        resolution: (sampling_height * factor, sampling_width * factor),
    }
}

/// The part of `text_area` in which an image of `width` by `height` samples
/// is drawn: as wide as the image, half as high, and in the middle of the
/// area, with any odd cell left over on the far side.
pub open spec fn spec_image_area(text_area: Rect, width: int, height: int) -> Rect {
    Rect {
        x: (text_area.x + (text_area.width - width) / 2) as u16,
        y: (text_area.y + ((2 * text_area.height - height) / 2) / 2) as u16,
        width: width as u16,
        height: (height / 2) as u16,
    }
}

/// The part of `text_area` in which an image of `width` by `height` samples
/// is drawn. The image must fit the area.
pub fn image_area(text_area: Rect, width: usize, height: usize) -> (area: Rect)
    requires
        text_area.wf(),
        width <= text_area.width,
        height <= 2 * text_area.height,
    ensures
        area == spec_image_area(text_area, width as int, height as int),
        area.wf(),
        text_area.encloses(area),
        area.width == width,
        2 * area.height <= height,
{
    let screen_width: usize = text_area.width as usize;
    let screen_height: usize = (text_area.height as usize) * 2;
    let x_offset = (screen_width - width) / 2;
    let y_offset = (screen_height - height) / 2;
    Rect {
        x: text_area.x + x_offset as u16,
        y: text_area.y + (y_offset / 2) as u16,
        width: width as u16,
        height: (height / 2) as u16,
    }
}

/// The glyphs of the crosshair's lines.
#[derive(Debug, Clone, Copy, PartialEq, Eq, Structural)]
pub struct CrosshairGlyphs {
    /// Where the two lines meet.
    pub cross: char,
    pub vertical: char,
    pub horizontal: char,
}

/// The crosshair of a slice: the axis that is cut, the sample at which the
/// lines meet, and the glyphs of the lines.
#[derive(Debug, Clone, Copy, PartialEq, Eq, Structural)]
pub struct Crosshair {
    pub axis: SliceAxis,
    pub cursor_x: usize,
    pub cursor_y: usize,
    pub glyphs: CrosshairGlyphs,
}

/// The letters at the two ends of an axis, the low end first: inferior and
/// superior, posterior and anterior, left and right.
pub open spec fn spec_ras_labels(axis_index: int) -> (char, char) {
    if axis_index == 0 {
        ('I', 'S')
    } else if axis_index == 1 {
        ('P', 'A')
    } else {
        ('L', 'R')
    }
}

/// The letters at the two ends of an axis, the low end first.
pub fn ras_labels(axis_index: usize) -> (labels: (char, char))
    requires
        axis_index < 3,
    ensures
        labels == spec_ras_labels(axis_index as int),
{
    if axis_index == 0 {
        ('I', 'S')
    } else if axis_index == 1 {
        ('P', 'A')
    } else {
        ('L', 'R')
    }
}

/// The name of the direction in which an axis grows.
pub fn coord_name(axis_index: usize) -> (name: &'static str)
    requires
        axis_index < 3,
    ensures
        axis_index == 0 ==> name@ == "Superior"@,
        axis_index == 1 ==> name@ == "Anterior"@,
        axis_index == 2 ==> name@ == "Right"@,
{
    if axis_index == 0 {
        "Superior"
    } else if axis_index == 1 {
        "Anterior"
    } else {
        "Right"
    }
}

/// Whether sample row `y` shares its terminal row with the cursor's row.
pub open spec fn spec_on_cursor_row(cursor_y: int, y: int) -> bool {
    y / 2 == cursor_y / 2
}

/// The glyph that the crosshair puts on the cell of sample `(x, y)` of an
/// image of `width` by `height` samples, if it puts one there.
///
/// The crosshair covers the cursor's column and the terminal row of the
/// cursor's sample row. Where the two meet stands the cross. The column
/// ends in the letters of the slice's row axis, the low end in sample row 0
/// and the high end in the last terminal row; the row ends in the letters of
/// the slice's column axis, the low end in column 0 and the high end in the
/// last column. Every other cell of the column or row carries a line.
pub open spec fn spec_overlay(
    crosshair: Crosshair,
    width: int,
    height: int,
    x: int,
    y: int,
) -> Option<char> {
    let on_column = x == crosshair.cursor_x;
    let on_row = spec_on_cursor_row(crosshair.cursor_y as int, y);
    let column_ends = spec_ras_labels(crosshair.axis.spec_column_index());
    let row_ends = spec_ras_labels(crosshair.axis.spec_row_index());
    if on_column && on_row {
        Some(crosshair.glyphs.cross)
    } else if on_column {
        if y == 0 {
            Some(row_ends.0)
        } else if y / 2 == height / 2 - 1 {
            Some(row_ends.1)
        } else {
            Some(crosshair.glyphs.vertical)
        }
    } else if on_row {
        if x == 0 {
            Some(column_ends.0)
        } else if x == width - 1 {
            Some(column_ends.1)
        } else {
            Some(crosshair.glyphs.horizontal)
        }
    } else {
        None
    }
}

impl Crosshair {
    /// The glyph that the crosshair puts on the cell of sample `(x, y)` of an
    /// image of `width` by `height` samples, if it puts one there.
    pub fn overlay(&self, width: usize, height: usize, x: usize, y: usize) -> (glyph: Option<char>)
        ensures
            glyph == spec_overlay(*self, width as int, height as int, x as int, y as int),
    {
        let on_row = y / 2 == self.cursor_y / 2;
        let on_column = x == self.cursor_x;
        if on_column && on_row {
            Some(self.glyphs.cross)
        } else if on_column {
            let row_ends = ras_labels(self.axis.row_index());
            if y == 0 {
                Some(row_ends.0)
            } else if y / 2 + 1 == height / 2 {
                Some(row_ends.1)
            } else {
                Some(self.glyphs.vertical)
            }
        } else if on_row {
            let column_ends = ras_labels(self.axis.column_index());
            if x == 0 {
                Some(column_ends.0)
            } else if width > 0 && x == width - 1 {
                Some(column_ends.1)
            } else {
                Some(self.glyphs.horizontal)
            }
        } else {
            None
        }
    }
}

/// A cell carries a glyph of the crosshair exactly if it lies in the
/// cursor's column or in the terminal row of the cursor, and the cross
/// where it lies in both.
pub proof fn lemma_overlay_on_cursor_lines(crosshair: Crosshair, width: int, height: int, x: int, y: int)
    ensures
        spec_overlay(crosshair, width, height, x, y) is Some <==> (x == crosshair.cursor_x
            || spec_on_cursor_row(crosshair.cursor_y as int, y)),
        x == crosshair.cursor_x && spec_on_cursor_row(crosshair.cursor_y as int, y)
            ==> spec_overlay(crosshair, width, height, x, y) == Some(crosshair.glyphs.cross),
{
}

/// The crosshair does not flicker with the parity of the cursor's sample
/// row: two cursors whose sample rows share a terminal row give the same
/// glyphs everywhere.
pub proof fn lemma_overlay_ignores_cursor_parity(
    a: Crosshair,
    b: Crosshair,
    width: int,
    height: int,
    x: int,
    y: int,
)
    requires
        a.axis == b.axis,
        a.glyphs == b.glyphs,
        a.cursor_x == b.cursor_x,
        a.cursor_y / 2 == b.cursor_y / 2,
    ensures
        spec_overlay(a, width, height, x, y) == spec_overlay(b, width, height, x, y),
{
}

/// An image whose samples are drawn two to a cell, one above the other.
pub trait DoubleYImage {
    /// What the image needs to hold for its methods to be called.
    spec fn wf(&self) -> bool;

    /// The width and the height in samples.
    spec fn spec_size(&self) -> (usize, usize);

    /// The glyph that lies over the cell of sample `(x, y)`, if any.
    spec fn spec_has_overlay(&self, x: usize, y: usize) -> Option<char>;

    /// The colour of sample `(x, y)`.
    spec fn spec_get(&self, x: usize, y: usize) -> TermColor;

    /// A colour that stands out from that of sample `(x, y)`.
    spec fn spec_get_max_contrast(&self, x: usize, y: usize) -> TermColor;

    /// The colour of the mean of samples `(x, y)` and `(x, y + 1)`.
    spec fn spec_get_double(&self, x: usize, y: usize) -> TermColor;

    /// A colour that stands out from that mean colour.
    spec fn spec_get_double_max_contrast(&self, x: usize, y: usize) -> TermColor;

    /// The width and the height in samples.
    fn size(&self) -> (size: (usize, usize))
        requires
            self.wf(),
        ensures
            size == self.spec_size(),
    ;

    /// The glyph to draw on the cell of sample `(x, y)`, if any. Where there
    /// is one, the cell shows it in the contrast colour on the mean colour of
    /// its two samples.
    fn has_overlay(&self, x: usize, y: usize) -> (glyph: Option<char>)
        requires
            self.wf(),
        ensures
            glyph == self.spec_has_overlay(x, y),
    ;

    /// The colour of sample `(x, y)`.
    fn get(&self, x: usize, y: usize) -> (color: TermColor)
        requires
            self.wf(),
            x < self.spec_size().0,
            y < self.spec_size().1,
        ensures
            color == self.spec_get(x, y),
    ;

    /// A colour that stands out from that of sample `(x, y)`.
    fn get_max_contrast(&self, x: usize, y: usize) -> (color: TermColor)
        requires
            self.wf(),
            x < self.spec_size().0,
            y < self.spec_size().1,
        ensures
            color == self.spec_get_max_contrast(x, y),
    ;

    /// The colour of the mean of samples `(x, y)` and `(x, y + 1)`.
    fn get_double(&self, x: usize, y: usize) -> (color: TermColor)
        requires
            self.wf(),
            x < self.spec_size().0,
            y + 1 < self.spec_size().1,
        ensures
            color == self.spec_get_double(x, y),
    ;

    /// A colour that stands out from that mean colour.
    fn get_double_max_contrast(&self, x: usize, y: usize) -> (color: TermColor)
        requires
            self.wf(),
            x < self.spec_size().0,
            y + 1 < self.spec_size().1,
        ensures
            color == self.spec_get_double_max_contrast(x, y),
    ;
}

/// What the cell in column `column` and row `row` of `area` shows of an
/// image, rows counted from the bottom of the area: the overlay glyph in the
/// contrast colour on the mean colour of the cell's two samples, or else the
/// half block with the lower sample as foreground and the upper one as
/// background.
pub open spec fn spec_cell<I: DoubleYImage>(image: &I, area: Rect, column: int, row: int) -> PlacedCell {
    let x = column as usize;
    let y = (2 * row) as usize;
    PlacedCell {
        x: (area.x + column) as u16,
        y: (area.y + area.height - 1 - row) as u16,
        cell: match image.spec_has_overlay(x, y) {
            Some(glyph) => Cell {
                symbol: glyph,
                fg: image.spec_get_double_max_contrast(x, y),
                bg: image.spec_get_double(x, y),
            },
            None => Cell {
                symbol: HALF_BLOCK,
                fg: image.spec_get(x, y),
                bg: image.spec_get(x, (y + 1) as usize),
            },
        },
    }
}

/// Draws an image two samples to a cell.
pub struct DoubleYImageRenderer<'a, I: DoubleYImage> {
    pub image: &'a I,
}

impl<'a, I: DoubleYImage> DoubleYImageRenderer<'a, I> {
    pub fn new(image: &'a I) -> (renderer: DoubleYImageRenderer<'a, I>)
        ensures
            renderer.image == image,
    {
        Self { image }
    }

    /// What the cell in column `column` and row `row` of `area` shows, rows
    /// counted from the bottom of the area.
    pub fn cell_at(&self, area: Rect, column: u16, row: u16) -> (placed: PlacedCell)
        requires
            self.image.wf(),
            area.wf(),
            self.image.spec_size().0 >= area.width,
            self.image.spec_size().1 >= 2 * area.height,
            column < area.width,
            row < area.height,
        ensures
            placed == spec_cell(self.image, area, column as int, row as int),
    {
        let x = column as usize;
        let y = 2 * (row as usize);
        let cell = match self.image.has_overlay(x, y) {
            Some(glyph) => {
                let bg = self.image.get_double(x, y);
                let fg = self.image.get_double_max_contrast(x, y);
                Cell { symbol: glyph, fg, bg }
            },
            None => {
                let bg = self.image.get(x, y + 1);
                let fg = self.image.get(x, y);
                Cell { symbol: HALF_BLOCK, fg, bg }
            },
        };
        PlacedCell { x: area.x + column, y: area.y + (area.height - 1 - row), cell }
    }

    /// The cells of `area`, row after row from the bottom one up and from
    /// left to right within a row. The image must be at least as wide as the
    /// area and twice as high.
    pub fn render(&self, area: Rect) -> (cells: Vec<PlacedCell>)
        requires
            self.image.wf(),
            area.wf(),
            self.image.spec_size().0 >= area.width,
            self.image.spec_size().1 >= 2 * area.height,
        ensures
            cells@.len() == area.width * area.height,
            forall|k: int|
                0 <= k < cells@.len() ==> #[trigger] cells@[k] == spec_cell(
                    self.image,
                    area,
                    k % (area.width as int),
                    k / (area.width as int),
                ),
    {
        let mut cells: Vec<PlacedCell> = Vec::new();
        let mut row: u16 = 0;
        while row < area.height
            invariant
                self.image.wf(),
                area.wf(),
                self.image.spec_size().0 >= area.width,
                self.image.spec_size().1 >= 2 * area.height,
                row <= area.height,
                cells@.len() == row * area.width,
                forall|k: int|
                    0 <= k < cells@.len() ==> #[trigger] cells@[k] == spec_cell(
                        self.image,
                        area,
                        k % (area.width as int),
                        k / (area.width as int),
                    ),
            decreases area.height - row,
        {
            let mut column: u16 = 0;
            while column < area.width
                invariant
                    self.image.wf(),
                    area.wf(),
                    self.image.spec_size().0 >= area.width,
                    self.image.spec_size().1 >= 2 * area.height,
                    row < area.height,
                    column <= area.width,
                    cells@.len() == row * area.width + column,
                    forall|k: int|
                        0 <= k < cells@.len() ==> #[trigger] cells@[k] == spec_cell(
                            self.image,
                            area,
                            k % (area.width as int),
                            k / (area.width as int),
                        ),
                decreases area.width - column,
            {
                proof {
                    vstd::arithmetic::div_mod::lemma_fundamental_div_mod_converse(
                        row * area.width + column,
                        area.width as int,
                        row as int,
                        column as int,
                    );
                }
                let placed = self.cell_at(area, column, row);
                cells.push(placed);
                column = column + 1;
            }
            proof {
                assert((row + 1) * area.width == row * area.width + area.width)
                    by (nonlinear_arith);
            }
            row = row + 1;
        }
        proof {
            assert(area.height * area.width == area.width * area.height) by (nonlinear_arith);
        }
        cells
    }
}

/// A slice ready to be drawn: the colour of the map for every sample and for
/// the mean of every pair of samples that share a cell, the mode of the
/// terminal, and the crosshair.
pub struct RenderedSlice {
    /// Column after column, the colour of the map at each sample.
    pixels: Vec<Vec<HjColor>>,
    /// Column after column, the colour of the map at the mean of samples
    /// `2 * i` and `2 * i + 1`.
    pairs: Vec<Vec<HjColor>>,
    height: usize,
    color_mapper: ColorMapper,
    color_mode: ColorMode,
    crosshair: Crosshair,
}

/// Whether `pixels` and `pairs` hold columns of one height, `pairs` with a
/// colour for every two samples of a column.
pub open spec fn spec_well_shaped(pixels: Seq<Vec<HjColor>>, pairs: Seq<Vec<HjColor>>, height: int) -> bool {
    &&& pixels.len() == pairs.len()
    &&& forall|x: int| 0 <= x < pixels.len() ==> (#[trigger] pixels[x])@.len() == height
    &&& forall|x: int| 0 <= x < pairs.len() ==> (#[trigger] pairs[x])@.len() == height / 2
}

impl RenderedSlice {
    /// The colour of the map at sample `(x, y)`.
    pub closed spec fn spec_pixel(&self, x: int, y: int) -> HjColor {
        self.pixels@[x]@[y]
    }

    /// The colour of the map at the mean of samples `(x, y)` and `(x, y + 1)`,
    /// where `y` is even.
    pub closed spec fn spec_pair(&self, x: int, y: int) -> HjColor {
        self.pairs@[x]@[y / 2]
    }

    /// The width in samples.
    pub closed spec fn spec_width(&self) -> usize {
        self.pixels@.len() as usize
    }

    /// The height in samples.
    pub closed spec fn spec_height(&self) -> usize {
        self.height
    }

    /// The colour map and the direction in which it is read.
    pub closed spec fn spec_color_mapper(&self) -> ColorMapper {
        self.color_mapper
    }

    /// The mode of the terminal.
    pub closed spec fn spec_color_mode(&self) -> ColorMode {
        self.color_mode
    }

    /// The crosshair that lies over the slice.
    pub closed spec fn spec_crosshair(&self) -> Crosshair {
        self.crosshair
    }

    /// A slice of `height` sample rows with the given colours, or `None`
    /// where the columns are not all `height` samples high or `pairs` does
    /// not hold a colour for every two samples.
    pub fn new(
        color_map: ColorMap,
        color_mode: ColorMode,
        height: usize,
        pixels: Vec<Vec<HjColor>>,
        pairs: Vec<Vec<HjColor>>,
        crosshair: Crosshair,
    ) -> (slice: Option<RenderedSlice>)
        ensures
            slice is Some <==> spec_well_shaped(pixels@, pairs@, height as int),
            slice matches Some(s) ==> {
                &&& s.wf()
                &&& s.spec_width() == pixels@.len()
                &&& s.spec_height() == height
                &&& s.spec_color_mode() == color_mode
                &&& s.spec_color_mapper().gradient == color_map
                &&& s.spec_color_mapper().invert == color_map.spec_inverted()
                &&& s.spec_crosshair() == crosshair
                &&& forall|x: int, y: int|
                    0 <= x < pixels@.len() && 0 <= y < height ==> #[trigger] s.spec_pixel(x, y)
                        == pixels@[x]@[y]
                &&& forall|x: int, y: int|
                    0 <= x < pixels@.len() && 0 <= y && y + 1 < height ==> #[trigger] s.spec_pair(
                        x,
                        y,
                    ) == pairs@[x]@[y / 2]
            },
    {
        if pixels.len() != pairs.len() {
            return None;
        }
        let mut x: usize = 0;
        while x < pixels.len()
            invariant
                pixels@.len() == pairs@.len(),
                x <= pixels@.len(),
                forall|i: int| 0 <= i < x ==> (#[trigger] pixels@[i])@.len() == height,
                forall|i: int| 0 <= i < x ==> (#[trigger] pairs@[i])@.len() == height / 2,
            decreases pixels@.len() - x,
        {
            if pixels[x].len() != height || pairs[x].len() != height / 2 {
                return None;
            }
            x = x + 1;
        }
        Some(
            RenderedSlice {
                pixels,
                pairs,
                height,
                color_mapper: color_map.get(),
                color_mode,
                crosshair,
            },
        )
    }
}

impl DoubleYImage for RenderedSlice {
    closed spec fn wf(&self) -> bool {
        spec_well_shaped(self.pixels@, self.pairs@, self.height as int)
    }

    open spec fn spec_size(&self) -> (usize, usize) {
        (self.spec_width(), self.spec_height())
    }

    open spec fn spec_has_overlay(&self, x: usize, y: usize) -> Option<char> {
        spec_overlay(
            self.spec_crosshair(),
            self.spec_width() as int,
            self.spec_height() as int,
            x as int,
            y as int,
        )
    }

    open spec fn spec_get(&self, x: usize, y: usize) -> TermColor {
        spec_term_color(self.spec_pixel(x as int, y as int), self.spec_color_mode())
    }

    open spec fn spec_get_max_contrast(&self, x: usize, y: usize) -> TermColor {
        spec_max_contrast(self.spec_pixel(x as int, y as int))
    }

    open spec fn spec_get_double(&self, x: usize, y: usize) -> TermColor {
        spec_term_color(self.spec_pair(x as int, y as int), self.spec_color_mode())
    }

    open spec fn spec_get_double_max_contrast(&self, x: usize, y: usize) -> TermColor {
        spec_max_contrast(self.spec_pair(x as int, y as int))
    }

    fn size(&self) -> (size: (usize, usize)) {
        (self.pixels.len(), self.height)
    }

    fn has_overlay(&self, x: usize, y: usize) -> (glyph: Option<char>) {
        self.crosshair.overlay(self.pixels.len(), self.height, x, y)
    }

    fn get(&self, x: usize, y: usize) -> (color: TermColor) {
        let sample = self.pixels[x][y];
        self.color_mapper.color(sample, self.color_mode)
    }

    fn get_max_contrast(&self, x: usize, y: usize) -> (color: TermColor) {
        let sample = self.pixels[x][y];
        self.color_mapper.color_max_contrast(sample, self.color_mode)
    }

    fn get_double(&self, x: usize, y: usize) -> (color: TermColor) {
        let sample = self.pairs[x][y / 2];
        self.color_mapper.color(sample, self.color_mode)
    }

    fn get_double_max_contrast(&self, x: usize, y: usize) -> (color: TermColor) {
        let sample = self.pairs[x][y / 2];
        self.color_mapper.color_max_contrast(sample, self.color_mode)
    }
}

} // verus!
