use nova_verifier::codec::{deserialize_pubs, encode_pubs};
use nova_verifier::errors::DeserializeError;
use nova_verifier::pubs::{CurveName, Pubs, Z0Values};

fn sample() -> Pubs {
    Pubs {
        first_curve: CurveName::Pallas,
        num_of_steps: 3,
        z0_primary: Z0Values::ONE,
        z0_secondary: Z0Values::ZERO,
    }
}

#[test]
fn test_bad_pubs_deserialization() {
    let mut bytes = encode_pubs(&sample());
    bytes[0] += 11;
    let result = deserialize_pubs(&bytes);
    assert!(matches!(result, Err(DeserializeError::InvalidPubs)));
}

#[test]
fn round_trip_basic() {
    let cases = [
        sample(),
        Pubs {
            first_curve: CurveName::Vesta,
            num_of_steps: 1,
            z0_primary: Z0Values::ZERO,
            z0_secondary: Z0Values::ONE,
        },
        Pubs {
            first_curve: CurveName::Pallas,
            num_of_steps: 127,
            z0_primary: Z0Values::ZERO,
            z0_secondary: Z0Values::ZERO,
        },
        Pubs {
            first_curve: CurveName::Vesta,
            num_of_steps: 128,
            z0_primary: Z0Values::ONE,
            z0_secondary: Z0Values::ONE,
        },
        Pubs {
            first_curve: CurveName::Pallas,
            num_of_steps: 1_000_000_007,
            z0_primary: Z0Values::ONE,
            z0_secondary: Z0Values::ZERO,
        },
    ];
    for p in cases {
        let bytes = encode_pubs(&p);
        assert_eq!(deserialize_pubs(&bytes), Ok(p));
    }
}

#[test]
fn round_trip_largest_steps() {
    let p = Pubs {
        first_curve: CurveName::Vesta,
        num_of_steps: usize::MAX,
        z0_primary: Z0Values::ZERO,
        z0_secondary: Z0Values::ONE,
    };
    let bytes = encode_pubs(&p);
    assert_eq!(deserialize_pubs(&bytes), Ok(p));
}

#[test]
fn encode_matches_postcard_single_byte_fields() {
    // The wire form of `Pubs` equals postcard's encoding of the same field
    // values written as plain integers.
    let bytes = encode_pubs(&sample());
    let reference: Vec<u8> = postcard::to_allocvec(&(0u32, 3u64, 1u32, 0u32)).unwrap();
    assert_eq!(bytes, reference);
    assert_eq!(bytes, vec![0, 3, 1, 0]);
}

#[test]
fn encode_matches_postcard_multi_byte_steps() {
    let p = Pubs {
        first_curve: CurveName::Vesta,
        num_of_steps: 300,
        z0_primary: Z0Values::ZERO,
        z0_secondary: Z0Values::ONE,
    };
    let bytes = encode_pubs(&p);
    let reference: Vec<u8> = postcard::to_allocvec(&(1u32, 300u64, 0u32, 1u32)).unwrap();
    assert_eq!(bytes, reference);
    assert_eq!(bytes, vec![1, 0xac, 0x02, 0, 1]);
}

#[test]
fn decode_matches_postcard_tuple() {
    let p = Pubs {
        first_curve: CurveName::Pallas,
        num_of_steps: 77,
        z0_primary: Z0Values::ONE,
        z0_secondary: Z0Values::ONE,
    };
    let bytes = encode_pubs(&p);
    let (tag, steps, z0p, z0s): (u32, u64, u32, u32) = postcard::from_bytes(&bytes).unwrap();
    assert_eq!((tag, steps, z0p, z0s), (0, 77, 1, 1));
    assert_eq!(deserialize_pubs(&bytes), Ok(p));
}

#[test]
fn decode_accepts_non_canonical_varint() {
    // A two-byte encoding of tag zero, as the reference deserializer accepts.
    let bytes = vec![0x80, 0x00, 3, 1, 0];
    let (tag, steps, z0p, z0s): (u32, u64, u32, u32) = postcard::from_bytes(&bytes).unwrap();
    assert_eq!((tag, steps, z0p, z0s), (0, 3, 1, 0));
    assert_eq!(deserialize_pubs(&bytes), Ok(sample()));
}

#[test]
fn decode_rejects_trailing_byte() {
    let mut bytes = encode_pubs(&sample());
    bytes.push(0);
    assert!(matches!(deserialize_pubs(&bytes), Err(DeserializeError::InvalidPubs)));
}

#[test]
fn decode_rejects_truncated() {
    let bytes = encode_pubs(&sample());
    for n in 0..bytes.len() {
        let prefix = bytes[..n].to_vec();
        assert!(matches!(deserialize_pubs(&prefix), Err(DeserializeError::InvalidPubs)));
    }
}

#[test]
fn decode_rejects_zero_steps() {
    let bytes = vec![0, 0, 1, 0];
    assert!(matches!(deserialize_pubs(&bytes), Err(DeserializeError::InvalidPubs)));
}

#[test]
fn decode_rejects_tag_out_of_range() {
    // Single-byte corruptions as well as continuation bytes that make the tag
    // varint swallow the step counter: every value but the two legal tags
    // must be rejected.
    for tag in [2u8, 11, 127, 0x80, 0x85, 0x90, 0xff] {
        let bytes = vec![tag, 3, 1, 0];
        assert!(matches!(deserialize_pubs(&bytes), Err(DeserializeError::InvalidPubs)));
    }
}

#[test]
fn decode_rejects_bad_z0_tags() {
    assert!(matches!(deserialize_pubs(&vec![0, 3, 2, 0]), Err(DeserializeError::InvalidPubs)));
    assert!(matches!(deserialize_pubs(&vec![0, 3, 1, 9]), Err(DeserializeError::InvalidPubs)));
}

#[test]
fn decode_rejects_empty() {
    assert!(matches!(deserialize_pubs(&Vec::new()), Err(DeserializeError::InvalidPubs)));
}

#[test]
fn decode_rejects_overlong_varint() {
    // Eleven continuation bytes exceed the 10-byte budget of the step counter.
    let mut bytes = vec![0u8];
    bytes.extend([0xff; 10]);
    bytes.extend([1, 1, 0]);
    assert!(matches!(deserialize_pubs(&bytes), Err(DeserializeError::InvalidPubs)));
    // The same bytes overflow a u64 for the reference deserializer as well.
    let reference: Result<(u32, u64, u32, u32), _> = postcard::from_bytes(&bytes);
    assert!(reference.is_err());
}
