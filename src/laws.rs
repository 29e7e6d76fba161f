use vstd::prelude::*;
use crate::chunk_type::{
    ChunkType,
    DecodeError,
    bytes_of_chars,
    chars_of_bytes,
    decoded_from_bytes,
    decoded_from_string,
    is_ascii_letter,
    is_letter_char,
    is_tag_bytes,
    is_tag_chars,
};

verus! {

/// Four ASCII letters, formed into a chunk type, give back the same bytes:
/// whatever `from_bytes` or `try_from` returns on them is `Ok`, and its
/// bytes are `b`.
pub proof fn lemma_bytes_round_trip(b: Seq<u8>)
    requires
        is_tag_bytes(b),
    ensures
        forall|r: Result<ChunkType, DecodeError>| #[trigger]
            decoded_from_bytes(b, r) ==> r is Ok && r->Ok_0@ == b,
{
}

/// A string of four ASCII letters, formed into a chunk type, gives back the
/// same text: whatever `from_string` or `from_str` returns on it is `Ok`, and
/// `to_string` of that code is `s`.
pub proof fn lemma_string_round_trip(s: Seq<char>)
    requires
        is_tag_chars(s),
    ensures
        forall|r: Result<ChunkType, DecodeError>| #[trigger]
            decoded_from_string(s, r) ==> r is Ok && chars_of_bytes(r->Ok_0@) == s,
{
    lemma_letters_round_trip(s);
}

/// For ASCII letters, taking the byte of each character and then the
/// character of each byte gives back the characters.
pub proof fn lemma_letters_round_trip(s: Seq<char>)
    requires
        forall|i: int| 0 <= i < s.len() ==> is_letter_char(#[trigger] s[i]),
    ensures
        chars_of_bytes(bytes_of_chars(s)) == s,
        forall|i: int| 0 <= i < s.len() ==> is_ascii_letter(#[trigger] bytes_of_chars(s)[i]),
{
    assert forall|i: int| 0 <= i < s.len() implies #[trigger] chars_of_bytes(bytes_of_chars(s))[i]
        == s[i] by {
        let u = s[i] as u32;
        vstd::utf8::char_u32_cast(s[i], u);
    }
    assert(chars_of_bytes(bytes_of_chars(s)) =~= s);
}

/// The two constructors agree: a string of four ASCII letters and the bytes
/// of its characters give the same chunk type.
pub proof fn lemma_constructors_agree(s: Seq<char>)
    requires
        is_tag_chars(s),
    ensures
        forall|r1: Result<ChunkType, DecodeError>, r2: Result<ChunkType, DecodeError>|
            #[trigger] decoded_from_string(s, r1) && #[trigger] decoded_from_bytes(
                bytes_of_chars(s),
                r2,
            ) ==> r1 == r2,
{
    lemma_letters_round_trip(s);
    assert forall|r1: Result<ChunkType, DecodeError>, r2: Result<ChunkType, DecodeError>|
        #[trigger] decoded_from_string(s, r1) && #[trigger] decoded_from_bytes(
            bytes_of_chars(s),
            r2,
        ) implies r1 == r2 by {
        ChunkType::lemma_eq_iff_bytes(r1->Ok_0, r2->Ok_0);
    }
}

/// Bytes of which one is not an ASCII letter form no chunk type.
pub proof fn lemma_bytes_rejected(b: Seq<u8>, i: int)
    requires
        b.len() == 4,
        0 <= i < 4,
        !is_ascii_letter(b[i]),
    ensures
        forall|r: Result<ChunkType, DecodeError>| #[trigger] decoded_from_bytes(b, r) ==> r is Err,
{
}

/// A string that does not hold four characters, or that holds one that is not
/// an ASCII letter, forms no chunk type.
pub proof fn lemma_string_rejected(s: Seq<char>)
    requires
        s.len() != 4 || exists|i: int| 0 <= i < s.len() && !is_letter_char(#[trigger] s[i]),
    ensures
        forall|r: Result<ChunkType, DecodeError>| #[trigger]
            decoded_from_string(s, r) ==> r is Err,
{
}

/// Equality of chunk types is an equivalence, and it compares the bytes, case
/// included.
pub proof fn lemma_equality(a: ChunkType, b: ChunkType, c: ChunkType)
    ensures
        a == a,
        a == b ==> b == a,
        a == b && b == c ==> a == c,
        a == b <==> a@ == b@,
{
    ChunkType::lemma_eq_iff_bytes(a, b);
}

} // verus!
