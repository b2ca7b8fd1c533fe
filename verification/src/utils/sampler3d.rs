//! Scaling of whole-number sizes.

use vstd::prelude::*;

verus! {

/// The sizes `x` and `y` scaled so that the larger becomes `max_val`: each
/// is multiplied by `max_val`, divided by the larger and rounded down. Two
/// sizes of zero stay zero.
pub open spec fn spec_scale_relative(x: int, y: int, max_val: int) -> (int, int) {
    let larger = if x >= y {
        x
    } else {
        y
    };
    if larger == 0 {
        (0, 0)
    } else {
        ((x * max_val) / larger, (y * max_val) / larger)
    }
}

/// Scale x and y relative so that the bigger one will be max_val.
pub fn _scale_relative(x: u32, y: u32, max_val: u32) -> (scaled: (u32, u32))
    ensures
        scaled.0 == spec_scale_relative(x as int, y as int, max_val as int).0,
        scaled.1 == spec_scale_relative(x as int, y as int, max_val as int).1,
        scaled.0 <= max_val,
        scaled.1 <= max_val,
        x >= y && x > 0 ==> scaled.0 == max_val,
        y >= x && y > 0 ==> scaled.1 == max_val,
{
    let larger = if x >= y {
        x
    } else {
        y
    };
    if larger == 0 {
        return (0, 0);
    }
    assert(x * max_val <= 0xffff_ffff * 0xffff_ffff && y * max_val <= 0xffff_ffff * 0xffff_ffff)
        by (nonlinear_arith)
        requires
            x <= 0xffff_ffff,
            y <= 0xffff_ffff,
            max_val <= 0xffff_ffff,
    ;
    let wide_x = (x as u64) * (max_val as u64);
    let wide_y = (y as u64) * (max_val as u64);
    proof {
        lemma_scaled_stays_below(x as int, larger as int, max_val as int);
        lemma_scaled_stays_below(y as int, larger as int, max_val as int);
        assert((larger * max_val) / (larger as int) == max_val) by (nonlinear_arith)
            requires
                larger > 0,
        ;
    }
    ((wide_x / (larger as u64)) as u32, (wide_y / (larger as u64)) as u32)
}

/// A part scaled by `max_val` over the whole does not exceed `max_val`.
proof fn lemma_scaled_stays_below(part: int, whole: int, max_val: int)
    requires
        0 <= part <= whole,
        whole > 0,
        0 <= max_val,
    ensures
        0 <= (part * max_val) / whole <= max_val,
        0 <= part * max_val <= whole * max_val,
{
    assert(0 <= part * max_val <= whole * max_val) by (nonlinear_arith)
        requires
            0 <= part <= whole,
            0 <= max_val,
    ;
    assert(0 <= (part * max_val) / whole <= max_val) by (nonlinear_arith)
        requires
            0 <= part * max_val <= whole * max_val,
            whole > 0,
    ;
}

} // verus!
