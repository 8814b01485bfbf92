//! The Protocol Buffers wire form of text fields, which `prost` writes.

use vstd::prelude::*;

verus! {

/// The smallest field number that a message may use.
pub const MIN_TAG: u32 = 1;

/// The largest field number that a message may use.
pub const MAX_TAG: u32 = 0x1FFF_FFFF;

/// The bytes that `prost::encoding::string::encode` writes for a text field:
/// the field's key, the length of the text and the text itself.  They depend
/// on the field number and the text alone.
pub uninterp spec fn string_field_encoding(tag: u32, value: Seq<char>) -> Seq<u8>;

/// What a message holds on the wire for a text field: nothing when the text
/// is empty, which is the field's default, and its encoding otherwise.
pub open spec fn optional_string_field(tag: u32, value: Seq<char>) -> Seq<u8> {
    if value.len() == 0 {
        Seq::empty()
    } else {
        string_field_encoding(tag, value)
    }
}

/// Calls `prost::encoding::string::encode` on a byte vector.  Not proved:
/// that the call leaves what the buffer held in place and writes behind it
/// the bytes named [`string_field_encoding`].  The field number must lie in
/// the range that `prost` asserts.
#[verifier::external_body]
pub(crate) fn encode_string_field(tag: u32, value: &String, buf: &mut Vec<u8>)
    requires
        MIN_TAG <= tag <= MAX_TAG,
    ensures
        final(buf)@ == old(buf)@ + string_field_encoding(tag, value@),
{
    prost::encoding::string::encode(tag, value, buf);
}

/// Writes a text field of a message behind what the buffer holds, leaving
/// out a field that is empty.
pub(crate) fn encode_optional_string_field(tag: u32, value: &String, buf: &mut Vec<u8>)
    requires
        MIN_TAG <= tag <= MAX_TAG,
    ensures
        final(buf)@ == old(buf)@ + optional_string_field(tag, value@),
{
    if !value.as_str().is_empty() {
        encode_string_field(tag, value, buf);
    } else {
        assert(buf@ =~= old(buf)@ + optional_string_field(tag, value@));
    }
}

} // verus!
