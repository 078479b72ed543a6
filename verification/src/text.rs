//! Lengths of text fields.
//!
//! Every limit on a text field counts the bytes of its UTF-8 encoding, so a
//! name of 64 ASCII letters fits where a name of 64 three-byte letters does
//! not.

use vstd::prelude::*;
use vstd::string::StringSliceAdditionalSpecFns;
use vstd::utf8::encode_utf8;

verus! {

/// The number of bytes that `text` takes in UTF-8.
pub open spec fn byte_len(text: Seq<char>) -> nat {
    encode_utf8(text).len()
}

/// Whether `text` takes at most `limit` bytes.
pub fn fits(text: &String, limit: usize) -> (within: bool)
    ensures
        within == (byte_len(text@) <= limit),
{
    text.as_str().as_bytes().len() <= limit
}

} // verus!
