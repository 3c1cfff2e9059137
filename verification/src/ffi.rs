//! Text as it crosses the C boundary: NUL-terminated byte strings.

use vstd::prelude::*;
use vstd::string::StringSliceAdditionalSpecFns;
use vstd::utf8::{encode_utf8, valid_utf8};

verus! {

/// A string that was to be handed to the host holds a NUL byte.
#[derive(Clone, Copy, Debug, PartialEq, Eq, Structural)]
pub struct NulError {
    /// The index of the first NUL byte.
    pub position: usize,
}

/// Bytes that the host handed out are not UTF-8.
#[derive(Clone, Copy, Debug, PartialEq, Eq, Structural)]
pub struct Utf8Error;

/// A single-precision number, held as the bits of its IEEE 754 form. The layer
/// carries such numbers between the plugin and the host and never computes
/// with them.
#[derive(Clone, Copy, Debug, PartialEq, Eq, Structural)]
pub struct Single(pub u32);

/// A double-precision number, held as the bits of its IEEE 754 form.
#[derive(Clone, Copy, Debug, PartialEq, Eq, Structural)]
pub struct Double(pub u64);

/// The byte that a C character of the host holds: the same bits, read
/// without a sign. A character is signed here, so a byte above 127 arrives
/// as a negative character.
pub open spec fn byte_of(value: i8) -> u8 {
    if value >= 0 {
        value as u8
    } else {
        (value + 256) as u8
    }
}

/// The byte that a C character of the host holds.
pub fn byte(value: i8) -> (b: u8)
    ensures
        b == byte_of(value),
{
    let b = #[verifier::truncate]
    (value as u8);
    assert(value >= 0 ==> b == value) by (bit_vector)
        requires
            b == value as u8,
    ;
    assert(value < 0 ==> b == value + 256) by (bit_vector)
        requires
            b == value as u8,
    ;
    b
}

/// The C character that holds a byte: the same bits, read with a sign.
pub open spec fn char_of(b: u8) -> i8 {
    if b < 128 {
        b as i8
    } else {
        (b - 256) as i8
    }
}

/// The C character that holds a byte.
pub fn c_char(b: u8) -> (value: i8)
    ensures
        value == char_of(b),
        byte_of(value) == b,
{
    let value = #[verifier::truncate]
    (b as i8);
    assert(b < 128 ==> value == b) by (bit_vector)
        requires
            value == b as i8,
    ;
    assert(b >= 128 ==> value == b - 256) by (bit_vector)
        requires
            value == b as i8,
    ;
    value
}

/// Reads an integer that the host uses as a truth value: 1 is true, and
/// nothing else is.
pub fn truth(value: i32) -> (r: bool)
    ensures
        r == (value == 1),
{
    value == 1
}

/// `n` is where the C string that starts `bytes` ends: the index of the first
/// NUL byte, or the length of `bytes` if there is none.
pub open spec fn terminates_at(bytes: Seq<u8>, n: int) -> bool {
    &&& 0 <= n <= bytes.len()
    &&& forall|i: int| 0 <= i < n ==> bytes[i] != 0
    &&& n < bytes.len() ==> bytes[n] == 0
}

/// The length of the C string that starts `bytes`.
pub open spec fn c_str_len(bytes: Seq<u8>) -> int {
    choose|n: int| terminates_at(bytes, n)
}

/// The C string that starts `bytes`, without its terminator.
pub open spec fn c_str(bytes: Seq<u8>) -> Seq<u8> {
    bytes.take(c_str_len(bytes))
}

/// `bytes` holds no NUL byte.
pub open spec fn nul_free(bytes: Seq<u8>) -> bool {
    forall|i: int| 0 <= i < bytes.len() ==> bytes[i] != 0
}

/// A C string ends in one place only.
pub proof fn lemma_terminates_at_unique(bytes: Seq<u8>, n: int, m: int)
    requires
        terminates_at(bytes, n),
        terminates_at(bytes, m),
    ensures
        n == m,
{
    if n < m {
        assert(bytes[n] == 0);
    } else if m < n {
        assert(bytes[m] == 0);
    }
}

/// Counts the bytes before the first NUL byte.
pub fn c_str_length(bytes: &[u8]) -> (n: usize)
    ensures
        terminates_at(bytes@, n as int),
        n == c_str_len(bytes@),
{
    let mut n: usize = 0;
    while n < bytes.len() && bytes[n] != 0
        invariant
            n <= bytes.len(),
            forall|i: int| 0 <= i < n ==> bytes@[i] != 0,
        decreases bytes.len() - n,
    {
        n += 1;
    }
    proof {
        assert(terminates_at(bytes@, n as int));
        lemma_terminates_at_unique(bytes@, n as int, c_str_len(bytes@));
    }
    n
}

/// Copies the first `n` bytes.
fn prefix(bytes: &[u8], n: usize) -> (out: Vec<u8>)
    requires
        n <= bytes.len(),
    ensures
        out@ == bytes@.take(n as int),
{
    let mut out: Vec<u8> = Vec::new();
    let mut i: usize = 0;
    while i < n
        invariant
            i <= n <= bytes.len(),
            out@ == bytes@.take(i as int),
        decreases n - i,
    {
        out.push(bytes[i]);
        i += 1;
        assert(out@ == bytes@.take(i as int));
    }
    out
}

/// The C string that starts a buffer the host filled, without its terminator.
/// A buffer without a terminator is taken whole.
pub fn c_str_bytes(bytes: &[u8]) -> (out: Vec<u8>)
    ensures
        out@ == c_str(bytes@),
{
    let n = c_str_length(bytes);
    prefix(bytes, n)
}

/// The bytes of `text` followed by the terminator, as the host wants a string,
/// or the place of the NUL byte that `text` holds.
pub fn c_string(text: &str) -> (r: Result<Vec<u8>, NulError>)
    ensures
        r is Ok <==> nul_free(text.spec_bytes()),
        r matches Ok(out) ==> out@ == text.spec_bytes().push(0),
        r matches Err(e) ==> e.position == c_str_len(text.spec_bytes()),
{
    let bytes = text.as_bytes();
    let n = c_str_length(bytes);
    if n < bytes.len() {
        Err(NulError { position: n })
    } else {
        let mut out = prefix(bytes, n);
        out.push(0);
        assert(bytes@.take(n as int) == bytes@);
        Ok(out)
    }
}

/// `FromUtf8Error` of std, the error of `String::from_utf8`. It is carried
/// and dropped; nothing is claimed of what it holds.
#[verifier::external_type_specification]
#[verifier::external_body]
pub struct ExFromUtf8Error(std::string::FromUtf8Error);

/// `String::from_utf8` of std: it succeeds exactly on well-formed UTF-8, and
/// the string it gives is made of the bytes it was given.
pub assume_specification[ std::string::String::from_utf8 ](vec: std::vec::Vec<u8>) -> (r:
    std::result::Result<std::string::String, std::string::FromUtf8Error>)
    ensures
        r is Ok <==> valid_utf8(vec@),
        r matches Ok(s) ==> encode_utf8(s@) == vec@,
;

/// Reads bytes as text.
pub fn text_from_bytes(bytes: Vec<u8>) -> (r: Result<String, Utf8Error>)
    ensures
        r is Ok <==> valid_utf8(bytes@),
        r matches Ok(s) ==> encode_utf8(s@) == bytes@,
{
    match String::from_utf8(bytes) {
        Ok(s) => Ok(s),
        Err(_) => Err(Utf8Error),
    }
}

/// Text read from a buffer that holds a C string.
pub trait FromCStringBytes: Sized {
    /// The text of the C string that starts `bytes`.
    fn from_cstring_buffer(bytes: &[u8]) -> Result<Self, Utf8Error>;
}

impl FromCStringBytes for String {
    fn from_cstring_buffer(bytes: &[u8]) -> (r: Result<String, Utf8Error>)
        ensures
            r is Ok <==> valid_utf8(c_str(bytes@)),
            r matches Ok(s) ==> encode_utf8(s@) == c_str(bytes@),
    {
        text_from_bytes(c_str_bytes(bytes))
    }
}

} // verus!
