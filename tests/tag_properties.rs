use pngme::{ChunkType, DecodeError};

#[test]
fn bytes_round_trip_on_letters() {
    for b in [[82u8, 117, 83, 116], [b'I', b'H', b'D', b'R'], [b'z', b'z', b'z', b'z'], [b'A', b'Z', b'a', b'z']] {
        let t = ChunkType::from_bytes(b).unwrap();
        assert_eq!(t.bytes(), b);
    }
}

#[test]
fn string_round_trip_on_letters() {
    for s in ["RuSt", "IHDR", "tEXt", "zzzz", "AZaz"] {
        let t = ChunkType::from_string(s).unwrap();
        assert_eq!(t.to_string(), s);
    }
}

#[test]
fn constructors_agree() {
    for s in ["RuSt", "IEND", "pHYs"] {
        let b: [u8; 4] = s.as_bytes().try_into().unwrap();
        assert_eq!(ChunkType::from_string(s).unwrap(), ChunkType::from_bytes(b).unwrap());
    }
}

#[test]
fn from_bytes_rejects_non_letters() {
    assert_eq!(ChunkType::from_bytes([82, 117, 49, 116]), Err(DecodeError::NotAlphabetic { index: 2 }));
    assert_eq!(ChunkType::from_bytes([0, 117, 49, 116]), Err(DecodeError::NotAlphabetic { index: 0 }));
    assert_eq!(ChunkType::from_bytes([82, 117, 83, 0xC3]), Err(DecodeError::NotAlphabetic { index: 3 }));
    assert_eq!(ChunkType::from_bytes([b'@', b'[', b'`', b'{']), Err(DecodeError::NotAlphabetic { index: 0 }));
    assert_eq!(ChunkType::from_bytes([b'A', b'[', b'a', b'a']), Err(DecodeError::NotAlphabetic { index: 1 }));
}

#[test]
fn from_string_rejects_non_letters() {
    assert_eq!(ChunkType::from_string("Ru1t"), Err(DecodeError::NotAlphabetic { index: 2 }));
    assert_eq!(ChunkType::from_string("Ru t"), Err(DecodeError::NotAlphabetic { index: 2 }));
    assert_eq!(ChunkType::from_string("éabc"), Err(DecodeError::NotAlphabetic { index: 0 }));
    assert_eq!(ChunkType::from_string("abcß"), Err(DecodeError::NotAlphabetic { index: 3 }));
}

#[test]
fn from_string_rejects_wrong_length() {
    assert_eq!(ChunkType::from_string(""), Err(DecodeError::WrongLength { len: 0 }));
    assert_eq!(ChunkType::from_string("Rus"), Err(DecodeError::WrongLength { len: 3 }));
    assert_eq!(ChunkType::from_string("RuStY"), Err(DecodeError::WrongLength { len: 5 }));
    assert_eq!(ChunkType::from_string("R1"), Err(DecodeError::WrongLength { len: 2 }));
}

#[test]
fn flags_of_rust_tag() {
    let t = ChunkType::from_string("RuSt").unwrap();
    assert!(t.is_critical());
    assert!(!t.is_public());
    assert!(t.is_reserved_bit_valid());
    assert!(t.is_safe_to_copy());
    assert!(t.is_valid());
}

#[test]
fn flags_of_all_upper_and_all_lower() {
    let up = ChunkType::from_string("ABCD").unwrap();
    assert!(up.is_critical() && up.is_public() && up.is_reserved_bit_valid() && up.is_valid());
    assert!(!up.is_safe_to_copy());
    let low = ChunkType::from_string("abcd").unwrap();
    assert!(!low.is_critical() && !low.is_public() && !low.is_reserved_bit_valid() && !low.is_valid());
    assert!(low.is_safe_to_copy());
}

#[test]
fn equality_is_an_equivalence_and_case_sensitive() {
    let a = ChunkType::from_string("RuSt").unwrap();
    let b = ChunkType::from_bytes([82, 117, 83, 116]).unwrap();
    let c = ChunkType::from_string("RuSt").unwrap();
    assert!(a == a);
    assert!(a == b && b == a);
    assert!(b == c && a == c);
    assert_ne!(a, ChunkType::from_string("rust").unwrap());
}

#[test]
fn text_of_rust_tag() {
    assert_eq!(ChunkType::from_string("RuSt").unwrap().to_string(), "RuSt");
}

#[test]
fn error_messages() {
    assert_eq!(DecodeError::WrongLength { len: 3 }.message(), "a chunk type must hold exactly four characters");
    assert_eq!(DecodeError::NotAlphabetic { index: 1 }.message(), "a chunk type must hold ASCII letters only");
}

#[test]
fn string_is_built_from_each_byte() {
    let t = ChunkType::from_bytes([b'q', b'W', b'e', b'R']).unwrap();
    assert_eq!(t.to_string(), "qWeR");
    assert_eq!(t.to_string().len(), 4);
}
