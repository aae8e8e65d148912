//! Representability of text in the form the native engine requires.
//!
//! The engine takes paths and cipher lists as NUL-terminated C strings. A
//! Rust string can stand for one exactly when its UTF-8 encoding holds no
//! interior NUL byte.

use vstd::prelude::*;

use vstd::string::StringSliceAdditionalSpecFns;
use vstd::utf8::encode_utf8;

verus! {

/// Whether a byte sequence can be handed to the engine as a C string:
/// no interior NUL byte.
pub open spec fn c_representable(bytes: Seq<u8>) -> bool {
    forall|i: int| 0 <= i < bytes.len() ==> bytes[i] != 0
}

/// Whether a piece of text, once UTF-8 encoded, can be handed to the engine
/// as a C string.
pub open spec fn text_c_representable(s: Seq<char>) -> bool {
    c_representable(encode_utf8(s))
}

/// Decides whether `s` can be represented as the NUL-terminated text the
/// engine requires.
pub fn is_c_representable(s: &str) -> (b: bool)
    ensures
        b == text_c_representable(s@),
{
    let bytes = s.as_bytes();
    let n = bytes.len();
    let mut i: usize = 0;
    while i < n
        invariant
            n == bytes@.len(),
            bytes@ == s.spec_bytes(),
            0 <= i <= n,
            forall|j: int| 0 <= j < i ==> bytes@[j] != 0,
        decreases n - i,
    {
        if bytes[i] == 0 {
            return false;
        }
        i = i + 1;
    }
    true
}

} // verus!
