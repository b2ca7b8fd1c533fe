//! The smallest and the largest value of a run of integers.

use vstd::prelude::*;
use argminmax::ArgMinMax;

verus! {

/// Values of which the smallest and the largest can be asked.
pub trait MinMax2<T> {
    /// The number of values.
    spec fn spec_len(&self) -> nat;

    /// Whether `lo` is the smallest and `hi` the largest of the values.
    spec fn spec_is_minmax(&self, lo: T, hi: T) -> bool;

    /// The smallest and the largest value. There must be a value.
    fn minmax2(&self) -> (r: (T, T))
        requires
            self.spec_len() > 0,
        ensures
            self.spec_is_minmax(r.0, r.1),
    ;
}

/// Whether `lo` and `hi` occur in `data` and every value lies between them.
pub open spec fn spec_bounds(data: Seq<int>, lo: int, hi: int) -> bool {
    &&& exists|i: int| 0 <= i < data.len() && #[trigger] data[i] == lo
    &&& exists|i: int| 0 <= i < data.len() && #[trigger] data[i] == hi
    &&& forall|i: int| 0 <= i < data.len() ==> lo <= #[trigger] data[i] <= hi
}

/// `argminmax::ArgMinMax::argminmax` on a slice of `u16`: the place of a
/// smallest and the place of a largest value. The call panics on an empty
/// slice.
#[verifier::external_body]
fn argminmax_u16(data: &[u16]) -> (r: (usize, usize))
    requires
        data@.len() > 0,
    ensures
        r.0 < data@.len(),
        r.1 < data@.len(),
        forall|i: int|
            0 <= i < data@.len() ==> data@[r.0 as int] <= #[trigger] data@[i] <= data@[r.1 as int],
{
    data.argminmax()
}

/// `argminmax::ArgMinMax::argminmax` on a slice of `u32`: the place of a
/// smallest and the place of a largest value. The call panics on an empty
/// slice.
#[verifier::external_body]
fn argminmax_u32(data: &[u32]) -> (r: (usize, usize))
    requires
        data@.len() > 0,
    ensures
        r.0 < data@.len(),
        r.1 < data@.len(),
        forall|i: int|
            0 <= i < data@.len() ==> data@[r.0 as int] <= #[trigger] data@[i] <= data@[r.1 as int],
{
    data.argminmax()
}

/// `argminmax::ArgMinMax::argminmax` on a slice of `u64`: the place of a
/// smallest and the place of a largest value. The call panics on an empty
/// slice.
#[verifier::external_body]
fn argminmax_u64(data: &[u64]) -> (r: (usize, usize))
    requires
        data@.len() > 0,
    ensures
        r.0 < data@.len(),
        r.1 < data@.len(),
        forall|i: int|
            0 <= i < data@.len() ==> data@[r.0 as int] <= #[trigger] data@[i] <= data@[r.1 as int],
{
    data.argminmax()
}

impl MinMax2<u16> for Vec<u16> {
    open spec fn spec_len(&self) -> nat {
        self@.len()
    }

    open spec fn spec_is_minmax(&self, lo: u16, hi: u16) -> bool {
        spec_bounds(self@.map_values(|v: u16| v as int), lo as int, hi as int)
    }

    fn minmax2(&self) -> (r: (u16, u16)) {
        let (pmin, pmax) = argminmax_u16(self.as_slice());
        let ghost values = self@.map_values(|v: u16| v as int);
        assert(values[pmin as int] == self@[pmin as int]);
        assert(values[pmax as int] == self@[pmax as int]);
        (self[pmin], self[pmax])
    }
}

impl MinMax2<u32> for Vec<u32> {
    open spec fn spec_len(&self) -> nat {
        self@.len()
    }

    open spec fn spec_is_minmax(&self, lo: u32, hi: u32) -> bool {
        spec_bounds(self@.map_values(|v: u32| v as int), lo as int, hi as int)
    }

    fn minmax2(&self) -> (r: (u32, u32)) {
        let (pmin, pmax) = argminmax_u32(self.as_slice());
        let ghost values = self@.map_values(|v: u32| v as int);
        assert(values[pmin as int] == self@[pmin as int]);
        assert(values[pmax as int] == self@[pmax as int]);
        (self[pmin], self[pmax])
    }
}

impl MinMax2<u64> for Vec<u64> {
    open spec fn spec_len(&self) -> nat {
        self@.len()
    }

    open spec fn spec_is_minmax(&self, lo: u64, hi: u64) -> bool {
        spec_bounds(self@.map_values(|v: u64| v as int), lo as int, hi as int)
    }

    fn minmax2(&self) -> (r: (u64, u64)) {
        let (pmin, pmax) = argminmax_u64(self.as_slice());
        let ghost values = self@.map_values(|v: u64| v as int);
        assert(values[pmin as int] == self@[pmin as int]);
        assert(values[pmax as int] == self@[pmax as int]);
        (self[pmin], self[pmax])
    }
}

/// The smallest and the largest value are told by the values alone: any two
/// answers agree.
pub proof fn lemma_bounds_are_unique(data: Seq<int>, lo: int, hi: int, lo2: int, hi2: int)
    requires
        spec_bounds(data, lo, hi),
        spec_bounds(data, lo2, hi2),
    ensures
        lo == lo2,
        hi == hi2,
        lo <= hi,
{
    let i = choose|i: int| 0 <= i < data.len() && #[trigger] data[i] == lo;
    let j = choose|i: int| 0 <= i < data.len() && #[trigger] data[i] == hi;
    let i2 = choose|i: int| 0 <= i < data.len() && #[trigger] data[i] == lo2;
    let j2 = choose|i: int| 0 <= i < data.len() && #[trigger] data[i] == hi2;
    assert(lo2 <= data[i] <= hi2);
    assert(lo <= data[i2] <= hi);
    assert(lo2 <= data[j] <= hi2);
    assert(lo <= data[j2] <= hi);
}

} // verus!
