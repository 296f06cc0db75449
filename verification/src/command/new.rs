use vstd::prelude::*;

use crate::bitmap::BitmapHandle;
use crate::error::InputError;
use crate::input::{expected_error, input_ok, input_set, input_span, materialize, preserves_encoding};
use crate::input::{PipelineInput, PipelineSpan};

verus! {

/// Builds a new bitmap handle from any accepted pipeline input shape.
pub struct NewCommand;

impl NewCommand {
    pub fn name(&self) -> (r: &'static str)
        ensures
            r@ == "roaring new"@,
    {
        "roaring new"
    }

    pub fn description(&self) -> &'static str {
        "new roaring bitmap"
    }

    /// Materializes the input and hands the bitmap out as an opaque handle
    /// for downstream stages, with the input's span.
    pub fn run(&self, input: PipelineInput) -> (res: Result<
        (BitmapHandle, PipelineSpan),
        InputError,
    >)
        ensures
            match res {
                Ok(out) => input_ok(input) && out.0@ == input_set(input) && out.1 == input_span(
                    input,
                ) && preserves_encoding(input, out.0),
                Err(e) => !input_ok(input) && expected_error(input, e),
            },
    {
        materialize(input)
    }
}

} // verus!
