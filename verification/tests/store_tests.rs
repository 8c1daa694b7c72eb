use nova_verifier::curve::{CurveEngine, CurvePoint};
use nova_verifier::store::{
    ck_primary_hex, ck_secondary_hex, hex_decode, parse_pallas_generators, parse_vesta_generators,
    GeneratorSet,
};

#[test]
fn hex_decode_matches_hex_crate() {
    let valid = ["", "0f", "00ff17", "AbCd09", "deadBEEF", "0123456789abcdefABCDEF00"];
    for s in valid {
        let mine = hex_decode(s).expect("valid hex must decode");
        let reference = hex::decode(s).expect("hex crate agrees it is valid");
        assert_eq!(mine, reference);
    }
    let invalid = ["a", "abc", "zz", "0g", "0x12", " 00", "\u{e9}\u{e9}"];
    for s in invalid {
        assert!(hex_decode(s).is_none());
        assert!(hex::decode(s).is_err());
    }
}

#[test]
fn generators_materialise_for_both_curves() {
    match CurveEngine::Pallas.generators() {
        Some(GeneratorSet::Pallas(points)) => assert_eq!(points.len(), 16),
        _ => panic!("the Pallas generator table must materialise"),
    }
    match CurveEngine::Vesta.generators() {
        Some(GeneratorSet::Vesta(points)) => assert_eq!(points.len(), 16),
        _ => panic!("the Vesta generator table must materialise"),
    }
}

#[test]
fn generators_identical_on_every_access() {
    // The store is pure recomputation over fixed data: repeated calls hand
    // out the same points.
    match (CurveEngine::Pallas.generators(), CurveEngine::Pallas.generators()) {
        (Some(GeneratorSet::Pallas(a)), Some(GeneratorSet::Pallas(b))) => assert_eq!(a, b),
        _ => panic!("both materialisations must succeed for Pallas"),
    }
    match (CurveEngine::Vesta.generators(), CurveEngine::Vesta.generators()) {
        (Some(GeneratorSet::Vesta(a)), Some(GeneratorSet::Vesta(b))) => assert_eq!(a, b),
        _ => panic!("both materialisations must succeed for Vesta"),
    }
}

#[test]
fn generators_points_follow_the_table_in_order() {
    // Each materialised point is the decoding of its table entry, in order.
    let table = ck_primary_hex();
    match CurveEngine::Pallas.generators() {
        Some(GeneratorSet::Pallas(points)) => {
            assert_eq!(points.len(), table.len());
            for i in 0..table.len() {
                let bytes = hex::decode(table[i]).unwrap();
                match CurveEngine::Pallas.point_from_bytes(&bytes) {
                    Some(CurvePoint::Pallas(p)) => assert_eq!(points[i], p),
                    _ => panic!("every table entry must decode"),
                }
            }
        },
        _ => panic!("the Pallas generator table must materialise"),
    }
}

#[test]
fn parse_rejects_malformed_entries() {
    let table = ck_primary_hex();
    let good: &str = table[0];

    // A single valid entry parses to a single point.
    let one = parse_pallas_generators(&vec![good]);
    assert_eq!(one.map(|v| v.len()), Some(1));

    // Text that is not hexadecimal aborts the whole parse.
    assert!(parse_pallas_generators(&vec![good, "not hex at all"]).is_none());
    // A hex entry of the wrong length aborts.
    assert!(parse_pallas_generators(&vec!["00ff"]).is_none());
    // A well-formed encoding of a value off the curve aborts.
    let off_curve = "0200000000000000000000000000000000000000000000000000000000000000";
    assert!(parse_pallas_generators(&vec![good, off_curve]).is_none());

    let vtable = ck_secondary_hex();
    let vgood: &str = vtable[0];
    assert!(parse_vesta_generators(&vec![vgood, off_curve]).is_none());
    assert_eq!(parse_vesta_generators(&vec![vgood]).map(|v| v.len()), Some(1));
}

#[test]
fn point_from_bytes_accepts_table_entries() {
    let table = ck_primary_hex();
    let bytes = hex::decode(table[3]).unwrap();
    match CurveEngine::Pallas.point_from_bytes(&bytes) {
        Some(CurvePoint::Pallas(_)) => {},
        _ => panic!("a table entry must decode as a Pallas point"),
    }
    let vtable = ck_secondary_hex();
    let vbytes = hex::decode(vtable[7]).unwrap();
    match CurveEngine::Vesta.point_from_bytes(&vbytes) {
        Some(CurvePoint::Vesta(_)) => {},
        _ => panic!("a table entry must decode as a Vesta point"),
    }
}

#[test]
fn point_from_bytes_rejects_invalid_encodings() {
    // x = 2 lies on neither curve of the cycle.
    let mut off_curve = vec![0u8; 32];
    off_curve[0] = 2;
    assert!(CurveEngine::Pallas.point_from_bytes(&off_curve).is_none());
    assert!(CurveEngine::Vesta.point_from_bytes(&off_curve).is_none());

    // An x-coordinate at or above the field modulus is not canonical.
    let too_large = vec![0xffu8; 32];
    assert!(CurveEngine::Pallas.point_from_bytes(&too_large).is_none());
    assert!(CurveEngine::Vesta.point_from_bytes(&too_large).is_none());
}

#[test]
fn tables_hold_distinct_entries() {
    let table = ck_primary_hex();
    let vtable = ck_secondary_hex();
    assert_eq!(table.len(), 16);
    assert_eq!(vtable.len(), 16);
    for i in 0..table.len() {
        for j in 0..table.len() {
            if i != j {
                assert_ne!(table[i], table[j]);
                assert_ne!(vtable[i], vtable[j]);
            }
        }
    }
}
