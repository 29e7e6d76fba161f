use vstd::prelude::*;
use vstd::string::*;

verus! {

/// An ASCII letter, `A`-`Z` or `a`-`z`.
pub open spec fn is_ascii_letter(b: u8) -> bool {
    (65 <= b <= 90) || (97 <= b <= 122)
}

/// An ASCII upper-case letter, `A`-`Z`.
pub open spec fn is_ascii_upper(b: u8) -> bool {
    65 <= b <= 90
}

/// An ASCII lower-case letter, `a`-`z`.
pub open spec fn is_ascii_lower(b: u8) -> bool {
    97 <= b <= 122
}

/// Four bytes, each of them an ASCII letter: what a chunk type is made of.
pub open spec fn is_tag_bytes(b: Seq<u8>) -> bool {
    b.len() == 4 && forall|i: int| 0 <= i < 4 ==> is_ascii_letter(#[trigger] b[i])
}

/// Why a chunk type could not be formed from the input.
#[derive(Debug, Clone, Copy, PartialEq, Eq, Structural)]
pub enum DecodeError {
    /// The string did not hold exactly four characters; `len` is how many it held.
    WrongLength { len: usize },
    /// The byte or character at `index` is the first one that is not an ASCII letter.
    NotAlphabetic { index: usize },
}

impl DecodeError {
    /// A sentence for a person that says what was wrong with the input.
    pub fn message(&self) -> (r: &'static str)
        ensures
            self is WrongLength ==> r@ == "a chunk type must hold exactly four characters"@,
            self is NotAlphabetic ==> r@ == "a chunk type must hold ASCII letters only"@,
    {
        match self {
            DecodeError::WrongLength { .. } => "a chunk type must hold exactly four characters",
            DecodeError::NotAlphabetic { .. } => "a chunk type must hold ASCII letters only",
        }
    }
}

/// `index` is the position of the first byte of `b` that is not an ASCII letter.
pub open spec fn first_non_letter_at(b: Seq<u8>, index: int) -> bool {
    0 <= index < b.len() && !is_ascii_letter(b[index])
        && forall|j: int| 0 <= j < index ==> is_ascii_letter(#[trigger] b[j])
}

/// A character that is an ASCII letter, `A`-`Z` or `a`-`z`.
pub open spec fn is_letter_char(c: char) -> bool {
    (65 <= c as u32 <= 90) || (97 <= c as u32 <= 122)
}

/// `index` is the position of the first character of `s` that is not an ASCII letter.
pub open spec fn first_non_letter_char_at(s: Seq<char>, index: int) -> bool {
    0 <= index < s.len() && !is_letter_char(s[index])
        && forall|j: int| 0 <= j < index ==> is_letter_char(#[trigger] s[j])
}

/// Four characters, each of them an ASCII letter.
pub open spec fn is_tag_chars(s: Seq<char>) -> bool {
    s.len() == 4 && forall|i: int| 0 <= i < 4 ==> is_letter_char(#[trigger] s[i])
}

/// The byte of each character (its code point cut to eight bits).
pub open spec fn bytes_of_chars(s: Seq<char>) -> Seq<u8> {
    s.map_values(|c: char| c as u32 as u8)
}

/// The character of each byte.
pub open spec fn chars_of_bytes(b: Seq<u8>) -> Seq<char> {
    b.map_values(|x: u8| x as char)
}

/// What forming a chunk type from the bytes `b` gives: the code that holds
/// them when all four are ASCII letters, else the position of the first byte
/// that is not one.
pub open spec fn decoded_from_bytes(b: Seq<u8>, r: Result<ChunkType, DecodeError>) -> bool {
    match r {
        Ok(t) => is_tag_bytes(b) && t@ == b,
        Err(e) => match e {
            DecodeError::NotAlphabetic { index } => first_non_letter_at(b, index as int),
            DecodeError::WrongLength { .. } => false,
        },
    }
}

/// What forming a chunk type from the characters `s` gives: a length error
/// when there are not four of them, else the code of their bytes when all four
/// are ASCII letters, else the position of the first that is not one.
pub open spec fn decoded_from_string(s: Seq<char>, r: Result<ChunkType, DecodeError>) -> bool {
    match r {
        Ok(t) => is_tag_chars(s) && t@ == bytes_of_chars(s),
        Err(e) => match e {
            DecodeError::WrongLength { len } => s.len() != 4 && len == s.len(),
            DecodeError::NotAlphabetic { index } => s.len() == 4
                && first_non_letter_char_at(s, index as int),
        },
    }
}

fn byte_is_letter(b: u8) -> (r: bool)
    ensures
        r == is_ascii_letter(b),
{
    (65 <= b && b <= 90) || (97 <= b && b <= 122)
}

fn byte_is_upper(b: u8) -> (r: bool)
    ensures
        r == is_ascii_upper(b),
{
    65 <= b && b <= 90
}

fn byte_is_lower(b: u8) -> (r: bool)
    ensures
        r == is_ascii_lower(b),
{
    97 <= b && b <= 122
}

/// Relies on String::push: the character is appended at the end.
#[verifier::external_body]
fn push_char(s: &mut String, c: char)
    ensures
        final(s)@ == old(s)@.push(c),
{
    s.push(c)
}

fn char_is_letter(c: char) -> (r: bool)
    ensures
        r == is_letter_char(c),
{
    (c >= 'A' && c <= 'Z') || (c >= 'a' && c <= 'z')
}

/// A four-letter chunk type code. Every value holds four ASCII letters.
#[derive(Debug, Clone, Copy, PartialEq, Eq, Structural)]
pub struct ChunkType {
    ancillary_bit: u8,
    private_bit: u8,
    reserved_bit: u8,
    safe_to_copy_bit: u8,
}

impl View for ChunkType {
    type V = Seq<u8>;

    closed spec fn view(&self) -> Seq<u8> {
        seq![self.ancillary_bit, self.private_bit, self.reserved_bit, self.safe_to_copy_bit]
    }
}

impl ChunkType {
    #[verifier::type_invariant]
    spec fn letters(self) -> bool {
        is_tag_bytes(self@)
    }

    /// Forms a chunk type from four bytes, case kept. Fails on the first byte
    /// that is not an ASCII letter (bytes from 0x80 up included).
    pub fn from_bytes(bytes: [u8; 4]) -> (r: Result<ChunkType, DecodeError>)
        ensures
            decoded_from_bytes(bytes@, r),
    {
        let mut i: usize = 0;
        while i < 4
            invariant
                0 <= i <= 4,
                bytes@.len() == 4,
                forall|j: int| 0 <= j < i ==> is_ascii_letter(#[trigger] bytes@[j]),
            decreases 4 - i,
        {
            if !byte_is_letter(bytes[i]) {
                return Err(DecodeError::NotAlphabetic { index: i });
            }
            i = i + 1;
        }
        let t = ChunkType {
            ancillary_bit: bytes[0],
            private_bit: bytes[1],
            reserved_bit: bytes[2],
            safe_to_copy_bit: bytes[3],
        };
        assert(t@ =~= bytes@);
        Ok(t)
    }

    /// Forms a chunk type from a string of four ASCII letters, case kept. Fails
    /// when the string does not hold four characters, else on the first
    /// character that is not an ASCII letter.
    pub fn from_string(s: &str) -> (r: Result<ChunkType, DecodeError>)
        ensures
            decoded_from_string(s@, r),
    {
        let len = s.unicode_len();
        if len != 4 {
            return Err(DecodeError::WrongLength { len });
        }
        let mut bytes: [u8; 4] = [0; 4];
        let mut i: usize = 0;
        while i < 4
            invariant
                0 <= i <= 4,
                s@.len() == 4,
                bytes@.len() == 4,
                forall|j: int| 0 <= j < i ==> is_letter_char(#[trigger] s@[j]),
                forall|j: int| 0 <= j < i ==> #[trigger] bytes@[j] == bytes_of_chars(s@)[j],
            decreases 4 - i,
        {
            let c = s.get_char(i);
            if !char_is_letter(c) {
                return Err(DecodeError::NotAlphabetic { index: i });
            }
            bytes[i] = c as u8;
            i = i + 1;
        }
        assert(bytes_of_chars(s@) =~= bytes@);
        let t = ChunkType {
            ancillary_bit: bytes[0],
            private_bit: bytes[1],
            reserved_bit: bytes[2],
            safe_to_copy_bit: bytes[3],
        };
        assert(t@ =~= bytes@);
        Ok(t)
    }

    /// Two chunk types are equal exactly when their bytes are.
    pub proof fn lemma_eq_iff_bytes(a: ChunkType, b: ChunkType)
        ensures
            a == b <==> a@ == b@,
    {
        if a@ == b@ {
            assert(a@[0] == b@[0] && a@[1] == b@[1] && a@[2] == b@[2] && a@[3] == b@[3]);
        }
    }

    /// The four bytes of the code, in order; each is an ASCII letter.
    pub fn bytes(&self) -> (r: [u8; 4])
        ensures
            r@ == self@,
            is_tag_bytes(r@),
    {
        proof {
            use_type_invariant(self);
        }
        [self.ancillary_bit, self.private_bit, self.reserved_bit, self.safe_to_copy_bit]
    }

    /// The code as text: the character of each of its four bytes.
    pub fn to_string(&self) -> (r: String)
        ensures
            r@ == chars_of_bytes(self@),
    {
        let mut r = String::new();
        push_char(&mut r, self.ancillary_bit as char);
        push_char(&mut r, self.private_bit as char);
        push_char(&mut r, self.reserved_bit as char);
        push_char(&mut r, self.safe_to_copy_bit as char);
        assert(r@ =~= chars_of_bytes(self@));
        r
    }

    /// Critical: the first letter is upper case. A reader that does not know
    /// a critical chunk cannot skip it.
    pub fn is_critical(&self) -> (r: bool)
        ensures
            r == is_ascii_upper(self@[0]),
    {
        byte_is_upper(self.ancillary_bit)
    }

    /// Public: the second letter is upper case, so the code belongs to the
    /// registered vocabulary rather than to one application.
    pub fn is_public(&self) -> (r: bool)
        ensures
            r == is_ascii_upper(self@[1]),
    {
        byte_is_upper(self.private_bit)
    }

    /// The reserved flag is set: the third letter is upper case, as the
    /// current version of the format requires.
    pub fn is_reserved_bit_valid(&self) -> (r: bool)
        ensures
            r == is_ascii_upper(self@[2]),
    {
        byte_is_upper(self.reserved_bit)
    }

    /// Safe to copy: the fourth letter is lower case, so an editor that does not
    /// know the chunk may copy it unchanged.
    pub fn is_safe_to_copy(&self) -> (r: bool)
        ensures
            r == is_ascii_lower(self@[3]),
    {
        byte_is_lower(self.safe_to_copy_bit)
    }

    /// Acceptable for the current version of the format. The letters are
    /// checked when a code is formed, so this checks the reserved flag only.
    pub fn is_valid(&self) -> (r: bool)
        ensures
            r == is_ascii_upper(self@[2]),
    {
        self.is_reserved_bit_valid()
    }
}

impl ChunkType {
    /// The one result that `decoded_from_bytes` allows on four bytes.
    pub closed spec fn spec_from_bytes(b: Seq<u8>) -> Result<ChunkType, DecodeError> {
        if is_tag_bytes(b) {
            Ok(ChunkType {
                ancillary_bit: b[0],
                private_bit: b[1],
                reserved_bit: b[2],
                safe_to_copy_bit: b[3],
            })
        } else {
            Err(DecodeError::NotAlphabetic {
                index: (choose|i: int| first_non_letter_at(b, i)) as usize,
            })
        }
    }

    /// The result of forming a chunk type from four bytes is the only one
    /// that `decoded_from_bytes` allows.
    pub proof fn lemma_from_bytes_determined(b: Seq<u8>, r: Result<ChunkType, DecodeError>)
        requires
            b.len() == 4,
            decoded_from_bytes(b, r),
        ensures
            r == ChunkType::spec_from_bytes(b),
    {
        match r {
            Ok(t) => {
                let u = ChunkType::spec_from_bytes(b)->Ok_0;
                assert(u@ =~= b);
                ChunkType::lemma_eq_iff_bytes(t, u);
            },
            Err(e) => {
                let i = e->index as int;
                let k = choose|k: int| first_non_letter_at(b, k);
                assert(first_non_letter_at(b, i));
                assert(first_non_letter_at(b, k));
                if k < i {
                    assert(is_ascii_letter(b[k]));
                } else if i < k {
                    assert(is_ascii_letter(b[i]));
                }
            },
        }
    }
}

impl TryFrom<[u8; 4]> for ChunkType {
    type Error = DecodeError;

    /// Same as [`ChunkType::from_bytes`].
    fn try_from(bytes: [u8; 4]) -> (r: Result<ChunkType, DecodeError>)
        ensures
            decoded_from_bytes(bytes@, r),
    {
        let r = ChunkType::from_bytes(bytes);
        proof {
            ChunkType::lemma_from_bytes_determined(bytes@, r);
        }
        r
    }
}

impl vstd::std_specs::convert::TryFromSpecImpl<[u8; 4]> for ChunkType {
    open spec fn obeys_try_from_spec() -> bool {
        true
    }

    open spec fn try_from_spec(v: [u8; 4]) -> Result<ChunkType, DecodeError> {
        ChunkType::spec_from_bytes(v@)
    }
}

impl std::str::FromStr for ChunkType {
    type Err = DecodeError;

    /// Same as [`ChunkType::from_string`].
    fn from_str(s: &str) -> (r: Result<ChunkType, DecodeError>)
        ensures
            decoded_from_string(s@, r),
    {
        ChunkType::from_string(s)
    }
}

} // verus!
