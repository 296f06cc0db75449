use vstd::prelude::*;

use crate::bitmap::{canonical_bytes, decode_of};
use crate::error::InputError;
use crate::input::{shape_name, spec_shape_name, PipelineInput, PipelineSpan};

verus! {

/// Extracts the canonical binary encoding from a bitmap handle.
pub struct SerializeCommand;

impl SerializeCommand {
    pub fn name(&self) -> (r: &'static str)
        ensures
            r@ == "roaring ser"@,
    {
        "roaring ser"
    }

    pub fn description(&self) -> &'static str {
        "Serialize a Roaring Bitmap"
    }

    /// Succeeds exactly on a bitmap handle, with the handle's canonical
    /// encoding, which decodes back to exactly the handle's set. Unlike
    /// the materializer this operation does not coerce: its purpose is to
    /// expose the current handle's encoding, so every other input shape —
    /// a raw binary or a range included — is rejected as the wrong type,
    /// under its observed type name.
    pub fn run(&self, input: PipelineInput) -> (res: Result<(Vec<u8>, PipelineSpan), InputError>)
        ensures
            match res {
                Ok(out) => input matches PipelineInput::HandleInput(h, sp) && out.0@
                    == h.encoding() && decode_of(out.0@) == Some(h@) && canonical_bytes(out.0@)
                    && out.1 == sp,
                Err(e) => !(input is HandleInput) && (e matches InputError::WrongInputType(n)
                    && n@ == spec_shape_name(input)),
            },
    {
        match input {
            PipelineInput::HandleInput(handle, span) => Ok((handle.to_base_value(), span)),
            other => Err(InputError::WrongInputType(shape_name(&other))),
        }
    }
}

} // verus!
