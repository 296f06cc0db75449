use vstd::prelude::*;

verus! {

/// The ways a command invocation can fail.
///
/// Every failure is a deterministic function of the input: there are no
/// transient error modes at this layer, so nothing is ever retried.
#[derive(Debug, PartialEq, Eq)]
pub enum InputError {
    /// A range-shaped argument was not an integer range.
    NotARange,
    /// The pipeline value has a shape no command accepts; carries the
    /// observed type name for the report.
    UnsupportedInput(String),
    /// The operation takes only a bitmap handle and was given something
    /// else; carries the observed type name.
    WrongInputType(String),
    /// A byte buffer or stream did not hold a well-formed bitmap encoding;
    /// carries the decoder's diagnostic.
    DecodeFailed(String),
    /// The input claims to be a byte stream but no reader could be obtained,
    /// kept distinct from `DecodeFailed` so callers can tell "bad bytes"
    /// from "no bytes available".
    StreamUnavailable,
}

} // verus!
