use vstd::prelude::*;

use crate::range::CanonicalRange;
use crate::range::set_contains_range;
use roaring::RoaringBitmap;

verus! {

#[verifier::external_type_specification]
#[verifier::external_body]
pub struct ExRoaringBitmap(RoaringBitmap);

#[verifier::external_type_specification]
#[verifier::external_body]
pub struct ExIoError(std::io::Error);

/// The mathematical set of 32-bit values a compressed bitmap holds.
pub uninterp spec fn bitmap_set(rb: RoaringBitmap) -> Set<u32>;

/// The binary encoding `roaring::RoaringBitmap::serialize_into` writes for a
/// bitmap. It is a function of the bitmap value alone: the format is
/// deterministic and machine-independent. It is named rather than spelled
/// out because the wire format takes pages to state.
pub uninterp spec fn bitmap_bytes(rb: RoaringBitmap) -> Seq<u8>;

/// What `roaring::RoaringBitmap::deserialize_from` makes of a byte
/// sequence: `Some(s)` when the bytes are a well-formed encoding of the set
/// `s`, `None` when decoding fails. Deterministic in the bytes alone.
pub uninterp spec fn decode_of(bytes: Seq<u8>) -> Option<Set<u32>>;

/// Whether a byte sequence is the canonical encoding of some bitmap: the
/// wire format is treated as an opaque, versionless blob, and such a blob
/// must survive a decode-then-encode round trip byte for byte.
pub open spec fn canonical_bytes(bytes: Seq<u8>) -> bool {
    exists|rb: RoaringBitmap| bytes == bitmap_bytes(rb)
}

/// Relies on roaring::RoaringBitmap::new: an empty bitmap holds no values.
#[verifier::external_body]
pub(crate) fn rb_new() -> (rb: RoaringBitmap)
    ensures
        bitmap_set(rb) == Set::<u32>::empty(),
{
    RoaringBitmap::new()
}

/// Relies on roaring::RoaringBitmap::insert: adds one value to the set and
/// reports whether it was absent.
#[verifier::external_body]
pub(crate) fn rb_insert(rb: &mut RoaringBitmap, value: u32) -> (was_absent: bool)
    ensures
        bitmap_set(*final(rb)) == bitmap_set(*old(rb)).insert(value),
        was_absent == !bitmap_set(*old(rb)).contains(value),
{
    rb.insert(value)
}

/// Relies on roaring::RoaringBitmap::insert_range: adds every value of the
/// half-open range `[start, end)`; an empty or inverted range adds nothing.
#[verifier::external_body]
pub(crate) fn rb_insert_range(rb: &mut RoaringBitmap, start: u32, end: u32)
    ensures
        bitmap_set(*final(rb)) == bitmap_set(*old(rb)).union(crate::range::interval(start, end)),
{
    rb.insert_range(start..end);
}

/// Relies on roaring::RoaringBitmap::len: the number of distinct values in
/// the set, in constant work per container rather than per element. Any
/// in-memory bitmap holds finitely many 32-bit values.
#[verifier::external_body]
pub(crate) fn rb_len(rb: &RoaringBitmap) -> (n: u64)
    ensures
        n as nat == bitmap_set(*rb).len(),
{
    rb.len()
}

/// Relies on roaring::RoaringBitmap::contains_range: true exactly when every
/// value of `[start, end)` is present; an empty or inverted range is
/// vacuously contained.
#[verifier::external_body]
pub(crate) fn rb_contains_range(rb: &RoaringBitmap, start: u32, end: u32) -> (b: bool)
    ensures
        b == set_contains_range(bitmap_set(*rb), start, end),
{
    rb.contains_range(start..end)
}

/// Relies on roaring::RoaringBitmap::iter: yields each stored value once,
/// ordered by value.
#[verifier::external_body]
pub(crate) fn rb_to_vec(rb: &RoaringBitmap) -> (out: Vec<u32>)
    ensures
        forall|i: int, j: int| 0 <= i < j < out@.len() ==> out@[i] < out@[j],
        forall|v: u32| #[trigger] out@.contains(v) <==> bitmap_set(*rb).contains(v),
{
    rb.iter().collect()
}

/// Relies on roaring::RoaringBitmap::range: yields each stored value within
/// `[start, end)` once, ordered by value. That iterator panics on an
/// inverted range, so one is excluded here; callers turn it into an empty
/// result themselves.
#[verifier::external_body]
pub(crate) fn rb_range_vec(rb: &RoaringBitmap, start: u32, end: u32) -> (out: Vec<u32>)
    requires
        start <= end,
    ensures
        forall|i: int, j: int| 0 <= i < j < out@.len() ==> out@[i] < out@[j],
        forall|v: u32| #[trigger] out@.contains(v) <==> (bitmap_set(*rb).contains(v) && start <= v && v < end),
{
    rb.range(start..end).collect()
}

/// Relies on roaring::RoaringBitmap::serialize_into, writing into a fresh
/// byte vector: the bytes are the bitmap's canonical encoding, which
/// deserialize_from (the same crate, same format) decodes back to the same
/// set. serialize_into fails only when its writer does, and std's
/// io::Write for Vec<u8> is infallible, so this call cannot fail.
#[verifier::external_body]
pub(crate) fn rb_serialize(rb: &RoaringBitmap) -> (bytes: Vec<u8>)
    ensures
        bytes@ == bitmap_bytes(*rb),
        decode_of(bytes@) == Some(bitmap_set(*rb)),
{
    let mut bytes = vec![];
    rb.serialize_into(&mut bytes).expect("writing into a Vec cannot fail");
    bytes
}

/// Relies on roaring::RoaringBitmap::deserialize_from: a deterministic
/// decoder of the standard format; it fails exactly on bytes that are not
/// a well-formed encoding, and never panics. Any decoded bitmap holds
/// finitely many values. Decoding a canonical encoding reconstructs the
/// very container layout that encoding describes, so re-encoding the
/// result writes those same bytes back.
#[verifier::external_body]
pub(crate) fn rb_deserialize(bytes: &[u8]) -> (res: Result<RoaringBitmap, std::io::Error>)
    ensures
        match res {
            Ok(rb) => decode_of(bytes@) == Some(bitmap_set(rb)) && bitmap_set(rb).finite() && (
            canonical_bytes(bytes@) ==> bitmap_bytes(rb) == bytes@),
            Err(_) => decode_of(bytes@) is None,
        },
{
    RoaringBitmap::deserialize_from(bytes)
}

/// Relies on roaring::RoaringBitmap::clone: an exact structural copy, so
/// both the set and the canonical encoding are preserved.
#[verifier::external_body]
pub(crate) fn rb_clone(rb: &RoaringBitmap) -> (out: RoaringBitmap)
    ensures
        bitmap_set(out) == bitmap_set(*rb),
        bitmap_bytes(out) == bitmap_bytes(*rb),
{
    rb.clone()
}

/// Relies on std::fmt::Display for std::io::Error, to carry the decoder's
/// or encoder's diagnostic into an error message.
#[verifier::external_body]
pub(crate) fn io_error_message(e: &std::io::Error) -> String {
    format!("{}", e)
}

/// Whether a sequence is strictly ascending (and so duplicate-free).
pub open spec fn strictly_ascending(s: Seq<u32>) -> bool {
    forall|i: int, j: int| 0 <= i < j < s.len() ==> s[i] < s[j]
}

/// Whether `out` is the enumeration of the set `s`: strictly ascending,
/// duplicate-free, holding exactly the elements of `s` — restricted to the
/// filter's half-open range when one is given.
pub open spec fn enumeration_of(s: Set<u32>, filter: Option<CanonicalRange>, out: Seq<u32>) -> bool {
    strictly_ascending(out) && match filter {
        Some(cr) => forall|v: u32| #[trigger] out.contains(v) <==> (s.contains(v) && cr.start <= v && v < cr.end),
        None => forall|v: u32| #[trigger] out.contains(v) <==> s.contains(v),
    }
}

/// An owned wrapper around one compressed bitmap, passed between pipeline
/// stages without reserialization. It owns its bitmap exclusively: cloning
/// deep-copies, so no two handles ever alias.
pub struct BitmapHandle {
    rb: RoaringBitmap,
}

impl View for BitmapHandle {
    type V = Set<u32>;

    closed spec fn view(&self) -> Set<u32> {
        bitmap_set(self.rb)
    }
}

impl BitmapHandle {
    /// The canonical binary encoding this handle degrades to.
    pub closed spec fn encoding(&self) -> Seq<u8> {
        bitmap_bytes(self.rb)
    }

    /// Wraps a freshly built bitmap.
    pub fn from_bitmap(rb: RoaringBitmap) -> (h: Self)
        ensures
            h@ == bitmap_set(rb),
            h.encoding() == bitmap_bytes(rb),
    {
        BitmapHandle { rb }
    }

    /// Gives the owned bitmap back.
    pub fn into_bitmap(self) -> (rb: RoaringBitmap)
        ensures
            bitmap_set(rb) == self@,
            bitmap_bytes(rb) == self.encoding(),
    {
        self.rb
    }

    /// The tag under which the host identifies this kind of value.
    pub fn tag_name(&self) -> (r: &'static str)
        ensures
            r@ == "RoaringBitmap"@,
    {
        "RoaringBitmap"
    }

    /// Exact element count.
    pub fn cardinality(&self) -> (n: u64)
        ensures
            n as nat == self@.len(),
    {
        rb_len(&self.rb)
    }

    /// True exactly when every value of `[cr.start, cr.end)` is present;
    /// an empty range is vacuously contained.
    pub fn contains_range(&self, cr: CanonicalRange) -> (b: bool)
        ensures
            b == set_contains_range(self@, cr.start, cr.end),
    {
        rb_contains_range(&self.rb, cr.start, cr.end)
    }

    /// Every element, ascending and duplicate-free; with a filter range,
    /// restricted to `[cr.start, cr.end)`. The whole result is materialized
    /// before it is returned. An inverted filter range yields an empty
    /// result, never an error.
    pub fn enumerate(&self, filter: Option<CanonicalRange>) -> (out: Vec<u32>)
        ensures
            enumeration_of(self@, filter, out@),
    {
        match filter {
            Some(cr) => {
                if cr.start <= cr.end {
                    rb_range_vec(&self.rb, cr.start, cr.end)
                } else {
                    Vec::new()
                }
            },
            None => rb_to_vec(&self.rb),
        }
    }

    /// Coerces the handle to its base binary value: the canonical encoding
    /// of the wrapped bitmap, which decodes back to exactly this handle's
    /// set. Never mutates the bitmap and never fails for a well-formed
    /// in-memory bitmap; being a function of the handle alone, repeated
    /// coercions return equal bytes.
    pub fn to_base_value(&self) -> (bytes: Vec<u8>)
        ensures
            bytes@ == self.encoding(),
            decode_of(bytes@) == Some(self@),
            canonical_bytes(bytes@),
    {
        let bytes = rb_serialize(&self.rb);
        proof {
            assert(bytes@ == bitmap_bytes(self.rb));
        }
        bytes
    }
}

impl Clone for BitmapHandle {
    /// A deep copy of the wrapped bitmap: same set, same encoding.
    fn clone(&self) -> (out: Self)
        ensures
            out@ == self@,
            out.encoding() == self.encoding(),
    {
        BitmapHandle { rb: rb_clone(&self.rb) }
    }
}

} // verus!
