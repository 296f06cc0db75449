use vstd::prelude::*;

use crate::bitmap::enumeration_of;
use crate::command::{list_arg_ok, list_filter, ValueArg};
use crate::error::InputError;
use crate::input::{expected_error, input_ok, input_set, input_span, materialize};
use crate::input::{PipelineInput, PipelineSpan};
use crate::range::{to_u32_range, CanonicalRange};

verus! {

/// Lists the elements of a bitmap, optionally restricted to a range.
pub struct ListCommand;

impl ListCommand {
    pub fn name(&self) -> (r: &'static str)
        ensures
            r@ == "roaring list"@,
    {
        "roaring list"
    }

    pub fn description(&self) -> &'static str {
        "List the elements in a Roaring Bitmap"
    }

    /// The materialized bitmap's elements, ascending and duplicate-free;
    /// with a range argument, only those inside its canonical half-open
    /// interval, even when the bitmap holds elements outside it. A
    /// malformed argument is reported before the input is looked at.
    pub fn run(&self, input: PipelineInput, range: Option<ValueArg>) -> (res: Result<
        (Vec<u32>, PipelineSpan),
        InputError,
    >)
        ensures
            match res {
                Ok(out) => list_arg_ok(range) && input_ok(input) && enumeration_of(
                    input_set(input),
                    list_filter(range),
                    out.0@,
                ) && out.1 == input_span(input),
                Err(e) => if !list_arg_ok(range) {
                    e is NotARange
                } else {
                    !input_ok(input) && expected_error(input, e)
                },
            },
    {
        let filter: Option<CanonicalRange> = match range {
            Some(ValueArg::RangeValue(ra)) => match to_u32_range(ra) {
                Ok(cr) => Some(cr),
                Err(e) => {
                    return Err(e);
                },
            },
            Some(_) => {
                return Err(InputError::NotARange);
            },
            None => None,
        };
        match materialize(input) {
            Ok((handle, span)) => Ok((handle.enumerate(filter), span)),
            Err(e) => Err(e),
        }
    }
}

} // verus!
