use vstd::prelude::*;

pub mod contains;
pub mod len;
pub mod list;
pub mod new;
pub mod serialize;

pub use contains::ContainsCommand;
pub use len::LenCommand;
pub use list::ListCommand;
pub use new::NewCommand;
pub use serialize::SerializeCommand;

use crate::range::{canonical_of, CanonicalRange, RangeArg};

verus! {

/// A positional argument value handed to a command: an integer, a range,
/// or something else.
#[derive(Clone, Copy, Debug, PartialEq, Eq, Structural)]
pub enum ValueArg {
    IntValue(i64),
    RangeValue(RangeArg),
    OtherValue,
}

/// The canonical range a `contains` argument denotes: a bare integer `n`
/// stands for the singleton `[n, n+1)`, truncated to 32 bits as the host
/// hands it over; a range goes through the adapter; anything else is
/// rejected.
pub open spec fn arg_range(v: ValueArg) -> Option<CanonicalRange> {
    match v {
        ValueArg::IntValue(n) => Some(
            CanonicalRange { start: n as u32, end: n.wrapping_add(1) as u32 },
        ),
        ValueArg::RangeValue(ra) => canonical_of(ra),
        ValueArg::OtherValue => None,
    }
}

/// Whether an optional `list` argument is admissible: absent, or an
/// integer range; a bare integer is not accepted here.
pub open spec fn list_arg_ok(a: Option<ValueArg>) -> bool {
    match a {
        None => true,
        Some(ValueArg::RangeValue(ra)) => canonical_of(ra) is Some,
        Some(_) => false,
    }
}

/// The restricting range an admissible `list` argument denotes, if any.
pub open spec fn list_filter(a: Option<ValueArg>) -> Option<CanonicalRange> {
    match a {
        Some(ValueArg::RangeValue(ra)) => canonical_of(ra),
        _ => None,
    }
}

} // verus!
