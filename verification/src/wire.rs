//! The RESP wire format, stated over character sequences.
//!
//! A bulk string is `$<n>\r\n<payload>\r\n`, where `n` is the UTF-8 byte
//! length of the payload; `$-1\r\n` with no payload is the null bulk string.
//! An array is `*<n>\r\n` followed by the encodings of its `n` elements.

use vstd::prelude::*;

use crate::digits::{dec_nat, lemma_dec_int_ascii};

verus! {

/// The CR LF terminator that closes every RESP token line.
pub open spec fn crlf() -> Seq<char> {
    "\r\n"@
}

/// The UTF-8 byte length of a character sequence. RESP length fields
/// count bytes, not characters, so multi-byte text stays well-formed.
pub open spec fn byte_len(p: Seq<char>) -> nat {
    vstd::utf8::encode_utf8(p).len()
}

/// The bulk-string encoding of a payload.
pub open spec fn bulk(p: Seq<char>) -> Seq<char> {
    "$"@ + dec_nat(byte_len(p)) + crlf() + p + crlf()
}

/// The null bulk string, which stands for an absent optional and for
/// the unit value.
pub open spec fn null_bulk() -> Seq<char> {
    "$-1\r\n"@
}

/// The header that announces an array of `n` elements.
pub open spec fn array_header(n: nat) -> Seq<char> {
    "*"@ + dec_nat(n) + crlf()
}

/// The bulk-string payload that spells a boolean.
pub open spec fn bool_chars(b: bool) -> Seq<char> {
    if b {
        "true"@
    } else {
        "false"@
    }
}

/// For an all-ASCII payload the RESP length field equals the character
/// count, since each ASCII character occupies one byte.
pub proof fn lemma_ascii_byte_len(p: Seq<char>)
    requires
        vstd::utf8::is_ascii_chars(p),
    ensures
        byte_len(p) == p.len(),
{
    vstd::utf8::is_ascii_chars_encode_utf8(p);
}

/// Decimal text is ASCII, so a decimal payload's length field counts
/// its characters.
pub proof fn lemma_dec_byte_len(i: int)
    ensures
        byte_len(crate::digits::dec_int(i)) == crate::digits::dec_int(i).len(),
{
    lemma_dec_int_ascii(i);
    lemma_ascii_byte_len(crate::digits::dec_int(i));
}

/// A single character's payload length is the byte width of its UTF-8
/// encoding, between one and four.
pub proof fn lemma_char_byte_len(c: char)
    ensures
        byte_len(seq![c]) == vstd::utf8::encode_scalar(c as u32).len(),
        1 <= byte_len(seq![c]) <= 4,
{
    let s = seq![c];
    assert(s.drop_first() =~= Seq::<char>::empty());
    assert(vstd::utf8::encode_utf8(s.drop_first()) =~= Seq::<u8>::empty());
    assert(vstd::utf8::encode_utf8(s) == vstd::utf8::encode_scalar(c as u32) + Seq::<u8>::empty());
    vstd::utf8::char_is_scalar(c);
}

} // verus!
