//! The colour bar: the colour map from end to end, with the smallest, the
//! middle and the largest value written on it.

use vstd::prelude::*;

verus! {

/// The columns at which the three values of a colour bar start.
#[derive(Debug, Clone, Copy, PartialEq, Eq, Structural)]
pub struct BarLabels {
    pub min: u16,
    pub middle: u16,
    pub max: u16,
}

/// The smaller of a length and a number of columns.
pub open spec fn spec_at_most(len: int, columns: int) -> int {
    if len <= columns {
        len
    } else {
        columns
    }
}

/// Where the values of a bar stand that starts at column `x` and is `width`
/// columns wide: the smallest at the left end, the largest so that it ends
/// at the right end, and the middle one centred on the middle column. A
/// value that is longer than the room to its left starts at the left end.
pub open spec fn spec_label_columns(x: int, width: int, middle_len: int, max_len: int) -> BarLabels {
    BarLabels {
        min: x as u16,
        middle: (x + width / 2 - spec_at_most(middle_len / 2, width / 2)) as u16,
        max: (x + width - spec_at_most(max_len, width)) as u16,
    }
}

/// Where the values of a bar stand that starts at column `x` and is `width`
/// columns wide, when the middle value is `middle_len` and the largest
/// `max_len` columns long.
pub fn label_columns(x: u16, width: u16, middle_len: usize, max_len: usize) -> (labels: BarLabels)
    requires
        x + width <= u16::MAX,
    ensures
        labels == spec_label_columns(x as int, width as int, middle_len as int, max_len as int),
        x <= labels.middle <= x + width / 2,
        x <= labels.max <= x + width,
{
    let half = width / 2;
    let middle_back: u16 = if middle_len / 2 <= half as usize {
        (middle_len / 2) as u16
    } else {
        half
    };
    let max_back: u16 = if max_len <= width as usize {
        max_len as u16
    } else {
        width
    };
    BarLabels { min: x, middle: x + half - middle_back, max: x + width - max_back }
}

} // verus!
