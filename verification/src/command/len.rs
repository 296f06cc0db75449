use vstd::prelude::*;

use crate::error::InputError;
use crate::input::{expected_error, input_ok, input_set, input_span, materialize};
use crate::input::{PipelineInput, PipelineSpan};

verus! {

/// Reports the number of elements in a bitmap.
pub struct LenCommand;

impl LenCommand {
    pub fn name(&self) -> (r: &'static str)
        ensures
            r@ == "roaring len"@,
    {
        "roaring len"
    }

    pub fn description(&self) -> &'static str {
        "Get the number of elements in a Roaring Bitmap"
    }

    /// The exact cardinality of whatever bitmap the input materializes to,
    /// with the input's span.
    pub fn run(&self, input: PipelineInput) -> (res: Result<(u64, PipelineSpan), InputError>)
        ensures
            match res {
                Ok(out) => input_ok(input) && out.0 as nat == input_set(input).len() && out.1
                    == input_span(input),
                Err(e) => !input_ok(input) && expected_error(input, e),
            },
    {
        match materialize(input) {
            Ok((handle, span)) => Ok((handle.cardinality(), span)),
            Err(e) => Err(e),
        }
    }
}

} // verus!
