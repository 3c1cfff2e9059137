use vstd::prelude::*;
use vstd::utf8::{encode_utf8, valid_utf8};

use crate::ffi::{byte, byte_of, c_str, text_from_bytes, Utf8Error};

verus! {

/// The bytes that a buffer of C characters holds: each character as the byte
/// of the same bits.
pub open spec fn bytes_of(buf: Seq<i8>) -> Seq<u8> {
    Seq::new(buf.len(), |i: int| byte_of(buf[i]))
}

/// Text read from a buffer of C characters that holds a C string.
pub trait FromStringBuf: Sized {
    /// The text of the C string that starts the buffer. A buffer without a
    /// terminator is taken whole.
    fn from_string_buf<const SIZE: usize>(buf: [i8; SIZE]) -> Result<Self, Utf8Error>;
}

impl FromStringBuf for String {
    fn from_string_buf<const SIZE: usize>(buf: [i8; SIZE]) -> (r: Result<String, Utf8Error>)
        ensures
            r is Ok <==> valid_utf8(c_str(bytes_of(buf@))),
            r matches Ok(s) ==> encode_utf8(s@) == c_str(bytes_of(buf@)),
    {
        let mut chars_before_null: Vec<u8> = Vec::new();
        let mut i: usize = 0;
        while i < SIZE && buf[i] != 0
            invariant
                i <= SIZE,
                SIZE == buf@.len(),
                chars_before_null@ == bytes_of(buf@).take(i as int),
                forall|j: int| 0 <= j < i ==> bytes_of(buf@)[j] != 0,
            decreases SIZE - i,
        {
            chars_before_null.push(byte(buf[i]));
            i += 1;
            assert(chars_before_null@ == bytes_of(buf@).take(i as int));
        }
        proof {
            assert(crate::ffi::terminates_at(bytes_of(buf@), i as int));
            crate::ffi::lemma_terminates_at_unique(
                bytes_of(buf@),
                i as int,
                crate::ffi::c_str_len(bytes_of(buf@)),
            );
        }
        text_from_bytes(chars_before_null)
    }
}

} // verus!
