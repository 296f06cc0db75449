use vstd::prelude::*;

use crate::bitmap::{canonical_bytes, decode_of, io_error_message, BitmapHandle};
use crate::bitmap::{rb_deserialize, rb_insert, rb_insert_range, rb_new};
use crate::error::InputError;
use crate::range::{canonical_of, range_set, to_u32_range, RangeArg};

verus! {

/// Positional provenance metadata attached to pipeline values, carried
/// through unchanged from input to output and never interpreted here.
#[derive(Clone, Copy, Debug, PartialEq, Eq, Structural)]
pub struct PipelineSpan {
    pub start: usize,
    pub end: usize,
}

/// One element of a list-shaped pipeline value: an integer, a sub-range,
/// or something else (which list materialization silently skips).
#[derive(Clone, Copy, Debug, PartialEq, Eq, Structural)]
pub enum ListItem {
    IntItem(i64),
    RangeItem(RangeArg),
    OtherItem,
}

/// A pipeline value at the point it enters a command: one of the five
/// accepted shapes, or anything else under its observed type name. Each
/// accepted shape carries its source span. The shape is resolved once, by
/// `materialize`, and never re-dispatched downstream.
pub enum PipelineInput {
    /// A single range value.
    RangeInput(RangeArg, PipelineSpan),
    /// An ordered list of integers and/or sub-ranges.
    ListInput(Vec<ListItem>, PipelineSpan),
    /// A fully materialized raw byte buffer.
    BinaryInput(Vec<u8>, PipelineSpan),
    /// A streamed byte source, read to completion by the host before it
    /// reaches this layer; `None` when no reader could be obtained.
    StreamInput(Option<Vec<u8>>, PipelineSpan),
    /// An already-constructed bitmap handle from an upstream stage.
    HandleInput(BitmapHandle, PipelineSpan),
    /// Any other shape; carries the observed type name.
    OtherInput(String),
}

/// The set a single list element denotes: an integer is truncated to its
/// low 32 bits as the host hands it over; a sub-range covers its canonical
/// interval; anything else denotes nothing.
pub open spec fn item_set(it: ListItem) -> Set<u32> {
    match it {
        ListItem::IntItem(v) => set![v as u32],
        ListItem::RangeItem(ra) => match canonical_of(ra) {
            Some(cr) => range_set(cr),
            None => Set::empty(),
        },
        ListItem::OtherItem => Set::empty(),
    }
}

/// Whether one list element is admissible: only a non-integer sub-range is
/// rejected; non-numeric elements are silently skipped, not refused.
pub open spec fn item_ok(it: ListItem) -> bool {
    match it {
        ListItem::RangeItem(ra) => canonical_of(ra) is Some,
        _ => true,
    }
}

/// Whether every element of a list is admissible.
pub open spec fn items_ok(items: Seq<ListItem>) -> bool {
    forall|i: int| 0 <= i < items.len() ==> item_ok(#[trigger] items[i])
}

/// The set a whole list materializes to: each element's set in turn,
/// folded together by union, starting from the empty set.
pub open spec fn list_set(items: Seq<ListItem>) -> Set<u32>
    decreases items.len(),
{
    if items.len() == 0 {
        Set::empty()
    } else {
        list_set(items.drop_last()).union(item_set(items.last()))
    }
}

/// Whether a pipeline input materializes at all.
pub open spec fn input_ok(input: PipelineInput) -> bool {
    match input {
        PipelineInput::RangeInput(ra, _) => canonical_of(ra) is Some,
        PipelineInput::ListInput(items, _) => items_ok(items@),
        PipelineInput::BinaryInput(bytes, _) => decode_of(bytes@) is Some,
        PipelineInput::StreamInput(opt, _) => match opt {
            Some(bytes) => decode_of(bytes@) is Some,
            None => false,
        },
        PipelineInput::HandleInput(_, _) => true,
        PipelineInput::OtherInput(_) => false,
    }
}

/// The set an admissible pipeline input materializes to.
pub open spec fn input_set(input: PipelineInput) -> Set<u32> {
    match input {
        PipelineInput::RangeInput(ra, _) => range_set(canonical_of(ra)->0),
        PipelineInput::ListInput(items, _) => list_set(items@),
        PipelineInput::BinaryInput(bytes, _) => decode_of(bytes@)->0,
        PipelineInput::StreamInput(opt, _) => match opt {
            Some(bytes) => decode_of(bytes@)->0,
            None => Set::empty(),
        },
        PipelineInput::HandleInput(h, _) => h@,
        PipelineInput::OtherInput(_) => Set::empty(),
    }
}

/// The span an admissible pipeline input carries.
pub open spec fn input_span(input: PipelineInput) -> PipelineSpan {
    match input {
        PipelineInput::RangeInput(_, sp) => sp,
        PipelineInput::ListInput(_, sp) => sp,
        PipelineInput::BinaryInput(_, sp) => sp,
        PipelineInput::StreamInput(_, sp) => sp,
        PipelineInput::HandleInput(_, sp) => sp,
        PipelineInput::OtherInput(_) => PipelineSpan { start: 0, end: 0 },
    }
}

/// The error an inadmissible pipeline input is owed: a non-integer range
/// is `NotARange` (also inside a list); bad bytes are `DecodeFailed`; a
/// stream without a reader is `StreamUnavailable`, kept distinct from bad
/// bytes; any other shape is `UnsupportedInput` under its observed name.
pub open spec fn expected_error(input: PipelineInput, e: InputError) -> bool {
    match input {
        PipelineInput::RangeInput(_, _) => e is NotARange,
        PipelineInput::ListInput(_, _) => e is NotARange,
        PipelineInput::BinaryInput(_, _) => e is DecodeFailed,
        PipelineInput::StreamInput(opt, _) => match opt {
            Some(_) => e is DecodeFailed,
            None => e is StreamUnavailable,
        },
        PipelineInput::HandleInput(_, _) => false,
        PipelineInput::OtherInput(name) => e matches InputError::UnsupportedInput(n) && n@
            == name@,
    }
}

/// The observed type name of a pipeline input, as error reports carry it.
pub open spec fn spec_shape_name(input: PipelineInput) -> Seq<char> {
    match input {
        PipelineInput::RangeInput(_, _) => "range"@,
        PipelineInput::ListInput(_, _) => "list<any>"@,
        PipelineInput::BinaryInput(_, _) => "binary"@,
        PipelineInput::StreamInput(_, _) => "byte stream"@,
        PipelineInput::HandleInput(_, _) => "RoaringBitmap"@,
        PipelineInput::OtherInput(name) => name@,
    }
}

/// The observed type name of a pipeline input, as it appears in error
/// reports.
pub fn shape_name(input: &PipelineInput) -> (r: String)
    ensures
        r@ == spec_shape_name(*input),
{
    broadcast use vstd::string::group_string_axioms;

    match input {
        PipelineInput::RangeInput(_, _) => "range".to_string(),
        PipelineInput::ListInput(_, _) => "list<any>".to_string(),
        PipelineInput::BinaryInput(_, _) => "binary".to_string(),
        PipelineInput::StreamInput(_, _) => "byte stream".to_string(),
        PipelineInput::HandleInput(_, _) => "RoaringBitmap".to_string(),
        PipelineInput::OtherInput(name) => name.clone(),
    }
}

/// Whether materialization kept the canonical encoding of what it was
/// given: a handle passes through with its encoding intact, and a byte
/// buffer or stream that already is some bitmap's canonical encoding
/// decodes to a bitmap that re-encodes to those very bytes. The wire
/// format is an opaque blob preserved byte for byte on round trip.
pub open spec fn preserves_encoding(input: PipelineInput, h: BitmapHandle) -> bool {
    match input {
        PipelineInput::BinaryInput(bytes, _) => canonical_bytes(bytes@) ==> h.encoding()
            == bytes@,
        PipelineInput::StreamInput(opt, _) => match opt {
            Some(bytes) => canonical_bytes(bytes@) ==> h.encoding() == bytes@,
            None => true,
        },
        PipelineInput::HandleInput(h0, _) => h.encoding() == h0.encoding(),
        _ => true,
    }
}

/// The bitmap materializer: converts any accepted input shape into one
/// canonical in-memory bitmap, with the provenance span for the response.
/// Every command coerces its pipeline input through this single entry
/// point, so behavior is identical however a bitmap arrived at a stage.
#[verifier::loop_isolation(false)]
pub fn materialize(input: PipelineInput) -> (res: Result<(BitmapHandle, PipelineSpan), InputError>)
    ensures
        match res {
            Ok(out) => input_ok(input) && out.0@ == input_set(input) && out.1 == input_span(
                input,
            ) && preserves_encoding(input, out.0),
            Err(e) => !input_ok(input) && expected_error(input, e),
        },
{
    match input {
        PipelineInput::RangeInput(ra, span) => {
            match to_u32_range(ra) {
                Ok(cr) => {
                    let mut rb = rb_new();
                    rb_insert_range(&mut rb, cr.start, cr.end);
                    proof {
                        assert(crate::bitmap::bitmap_set(rb) =~= range_set(cr));
                    }
                    Ok((BitmapHandle::from_bitmap(rb), span))
                },
                Err(e) => Err(e),
            }
        },
        PipelineInput::ListInput(items, span) => {
            let mut rb = rb_new();
            let mut i: usize = 0;
            proof {
                assert(items@.take(0) =~= Seq::<ListItem>::empty());
            }
            while i < items.len()
                invariant
                    i <= items.len(),
                    items_ok(items@.take(i as int)),
                    crate::bitmap::bitmap_set(rb) == list_set(items@.take(i as int)),
                decreases items.len() - i,
            {
                let ghost prefix = items@.take(i as int);
                match items[i] {
                    ListItem::IntItem(v) => {
                        let value = #[verifier::truncate] (v as u32);
                        rb_insert(&mut rb, value);
                        proof {
                            assert(crate::bitmap::bitmap_set(rb) =~= list_set(prefix).union(
                                item_set(items@[i as int]),
                            ));
                        }
                    },
                    ListItem::RangeItem(ra) => {
                        match to_u32_range(ra) {
                            Ok(cr) => {
                                rb_insert_range(&mut rb, cr.start, cr.end);
                            },
                            Err(e) => {
                                proof {
                                    assert(!item_ok(items@[i as int]));
                                    assert(!items_ok(items@));
                                }
                                return Err(e);
                            },
                        }
                    },
                    ListItem::OtherItem => {
                        proof {
                            assert(crate::bitmap::bitmap_set(rb) =~= list_set(prefix).union(
                                item_set(items@[i as int]),
                            ));
                        }
                    },
                }
                proof {
                    assert(items@.take(i + 1).drop_last() =~= prefix);
                    assert(items@.take(i + 1).last() == items@[i as int]);
                }
                i = i + 1;
            }
            proof {
                assert(items@.take(items@.len() as int) =~= items@);
            }
            Ok((BitmapHandle::from_bitmap(rb), span))
        },
        PipelineInput::BinaryInput(bytes, span) => {
            match rb_deserialize(bytes.as_slice()) {
                Ok(rb) => Ok((BitmapHandle::from_bitmap(rb), span)),
                Err(e) => Err(InputError::DecodeFailed(io_error_message(&e))),
            }
        },
        PipelineInput::StreamInput(opt, span) => {
            match opt {
                Some(bytes) => {
                    match rb_deserialize(bytes.as_slice()) {
                        Ok(rb) => Ok((BitmapHandle::from_bitmap(rb), span)),
                        Err(e) => Err(InputError::DecodeFailed(io_error_message(&e))),
                    }
                },
                None => Err(InputError::StreamUnavailable),
            }
        },
        PipelineInput::HandleInput(h, span) => Ok((h, span)),
        PipelineInput::OtherInput(name) => Err(InputError::UnsupportedInput(name)),
    }
}

} // verus!
