use vstd::prelude::*;

use crate::command::{arg_range, ValueArg};
use crate::error::InputError;
use crate::input::{expected_error, input_ok, input_set, input_span, materialize};
use crate::input::{PipelineInput, PipelineSpan};
use crate::range::{set_contains_range, to_u32_range, CanonicalRange};

verus! {

/// Checks whether a bitmap contains a value or a whole range of values.
pub struct ContainsCommand;

impl ContainsCommand {
    pub fn name(&self) -> (r: &'static str)
        ensures
            r@ == "roaring contains"@,
    {
        "roaring contains"
    }

    pub fn description(&self) -> &'static str {
        "Check if a Roaring Bitmap contains a value"
    }

    /// True exactly when every value of the argument's canonical range is
    /// in the materialized bitmap; an empty range is vacuously contained.
    /// A malformed argument is reported before the input is looked at.
    pub fn run(&self, input: PipelineInput, value: ValueArg) -> (res: Result<
        (bool, PipelineSpan),
        InputError,
    >)
        ensures
            match res {
                Ok(out) => arg_range(value) is Some && input_ok(input) && out.0
                    == set_contains_range(
                    input_set(input),
                    arg_range(value)->0.start,
                    arg_range(value)->0.end,
                ) && out.1 == input_span(input),
                Err(e) => if arg_range(value) is None {
                    e is NotARange
                } else {
                    !input_ok(input) && expected_error(input, e)
                },
            },
    {
        let cr = match value {
            ValueArg::IntValue(n) => {
                let s = #[verifier::truncate] (n as u32);
                let e = #[verifier::truncate] (n.wrapping_add(1) as u32);
                CanonicalRange { start: s, end: e }
            },
            ValueArg::RangeValue(ra) => match to_u32_range(ra) {
                Ok(cr) => cr,
                Err(e) => {
                    return Err(e);
                },
            },
            ValueArg::OtherValue => {
                return Err(InputError::NotARange);
            },
        };
        match materialize(input) {
            Ok((handle, span)) => Ok((handle.contains_range(cr), span)),
            Err(e) => Err(e),
        }
    }
}

} // verus!
