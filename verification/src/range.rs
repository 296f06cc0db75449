use vstd::prelude::*;

use crate::error::InputError;

verus! {

/// The end bound of a host-level integer range.
#[derive(Clone, Copy, Debug, PartialEq, Eq, Structural)]
pub enum EndBound {
    Included(i64),
    Excluded(i64),
    Unbounded,
}

/// A range-shaped pipeline value. The host also carries ranges over
/// non-integer elements; those reach this layer as `OtherRange` and are
/// rejected by the adapter.
#[derive(Clone, Copy, Debug, PartialEq, Eq, Structural)]
pub enum RangeArg {
    /// An integer range: the start is always inclusive.
    IntRange { start: i64, end: EndBound },
    /// A range over some other element type.
    OtherRange,
}

/// The canonical half-open interval `[start, end)` over 32-bit values:
/// the one internal range representation. Empty when `start >= end`;
/// an inverted pair is passed through and yields an empty result
/// downstream, never an error.
#[derive(Clone, Copy, Debug, PartialEq, Eq, Structural)]
pub struct CanonicalRange {
    pub start: u32,
    pub end: u32,
}

/// The set of values a half-open interval `[start, end)` covers.
pub open spec fn interval(start: u32, end: u32) -> Set<u32> {
    Set::new(|v: u32| start <= v && v < end)
}

/// The set of values a canonical range covers.
pub open spec fn range_set(cr: CanonicalRange) -> Set<u32> {
    interval(cr.start, cr.end)
}

/// Whether a set holds every value of the half-open interval
/// `[start, end)`; vacuously true of an empty or inverted interval.
pub open spec fn set_contains_range(s: Set<u32>, start: u32, end: u32) -> bool {
    forall|v: u32| start <= v && v < end ==> s.contains(v)
}

/// What the adapter turns a range argument into: `None` for a
/// non-integer range. Out-of-range endpoints are truncated to their low
/// 32 bits, exactly as the host hands them over; an inclusive end one
/// past `i64::MAX` wraps before truncation.
pub open spec fn canonical_of(ra: RangeArg) -> Option<CanonicalRange> {
    match ra {
        RangeArg::IntRange { start, end } => Some(
            CanonicalRange { start: start as u32, end: end_bound_value(end) },
        ),
        RangeArg::OtherRange => None,
    }
}

/// The canonical exclusive end a bound denotes: `Included(n)` is
/// `n + 1`, `Excluded(n)` is `n`, and an unbounded end covers the whole
/// 32-bit domain via `u32::MAX`.
pub open spec fn end_bound_value(end: EndBound) -> u32 {
    match end {
        EndBound::Included(n) => n.wrapping_add(1) as u32,
        EndBound::Excluded(n) => n as u32,
        EndBound::Unbounded => u32::MAX,
    }
}

/// The range adapter: normalizes a host range description to the
/// canonical half-open form. Pure and total; it does not check
/// `start <= end`, only that the range is integer-typed.
pub fn to_u32_range(r: RangeArg) -> (res: Result<CanonicalRange, InputError>)
    ensures
        match res {
            Ok(cr) => canonical_of(r) == Some(cr),
            Err(e) => canonical_of(r) is None && e is NotARange,
        },
{
    match r {
        RangeArg::IntRange { start, end } => {
            let s = #[verifier::truncate] (start as u32);
            let e = match end {
                EndBound::Included(n) => #[verifier::truncate] (n.wrapping_add(1) as u32),
                EndBound::Excluded(n) => #[verifier::truncate] (n as u32),
                EndBound::Unbounded => u32::MAX,
            };
            Ok(CanonicalRange { start: s, end: e })
        },
        RangeArg::OtherRange => Err(InputError::NotARange),
    }
}

} // verus!
