//! Trusted key-material store.
//!
//! Commitment generators must come from a trusted setup, never from the
//! attacker-controlled key bytes, so the pipeline overwrites the generator
//! sequences of every decoded key with the sequences materialised here.  The
//! source data is a fixed table of human-readable hexadecimal point
//! encodings, one 64-digit entry per curve point.
//!
//! Materialisation is a pure, deterministic function of the fixed table, so
//! repeated or concurrent calls always observe identical sequences.  A table
//! entry that fails the hex, length, or curve-membership check aborts
//! materialisation instead of being silently dropped: a quietly shortened
//! generator sequence could make verification fail opaquely, or pass against
//! the wrong parameters.

use vstd::prelude::*;
use vstd::string::StringSliceAdditionalSpecFns;

use crate::curve::{
    is_pallas_point_encoding, is_vesta_point_encoding, pallas_point_from_bytes_raw,
    pallas_point_of, vesta_point_from_bytes_raw, vesta_point_of, CurveEngine,
};

verus! {

/// Whether a byte is the ASCII code of a hexadecimal digit.
pub open spec fn is_hex_digit(b: u8) -> bool {
    (48 <= b <= 57) || (65 <= b <= 70) || (97 <= b <= 102)
}

/// The numeric value of a hexadecimal digit byte.
pub open spec fn hex_digit_value(b: u8) -> int
    recommends
        is_hex_digit(b),
{
    if 48 <= b <= 57 {
        b - 48
    } else if 65 <= b <= 70 {
        b - 55
    } else {
        b - 87
    }
}

/// Whether a byte sequence is well-formed hexadecimal text: an even number of
/// bytes, each a hexadecimal digit.
pub open spec fn is_hex_bytes(s: Seq<u8>) -> bool {
    s.len() % 2 == 0 && (forall|i: int| 0 <= i < s.len() ==> is_hex_digit(#[trigger] s[i]))
}

/// The bytes denoted by well-formed hexadecimal text, two digits per byte,
/// high digit first.
pub open spec fn spec_hex_decode(s: Seq<u8>) -> Seq<u8>
    recommends
        is_hex_bytes(s),
{
    Seq::new(
        (s.len() / 2) as nat,
        |i: int| (hex_digit_value(s[2 * i]) * 16 + hex_digit_value(s[2 * i + 1])) as u8,
    )
}

/// The numeric value of one hexadecimal digit byte, if it is one.
fn hex_digit(b: u8) -> (r: Option<u8>)
    ensures
        r is Some <==> is_hex_digit(b),
        r matches Some(v) ==> v as int == hex_digit_value(b),
{
    if b >= 48 && b <= 57 {
        Some(b - 48)
    } else if b >= 65 && b <= 70 {
        Some(b - 55)
    } else if b >= 97 && b <= 102 {
        Some(b - 87)
    } else {
        None
    }
}

/// Decodes hexadecimal text into bytes.  Succeeds exactly on well-formed
/// hexadecimal input: an even number of digits, nothing else.
pub fn hex_decode(s: &str) -> (r: Option<Vec<u8>>)
    ensures
        r is Some <==> is_hex_bytes(s.spec_bytes()),
        r matches Some(v) ==> v@ == spec_hex_decode(s.spec_bytes()),
{
    let b: &[u8] = s.as_bytes();
    let n: usize = b.len();
    if n % 2 != 0 {
        return None;
    }
    let mut out: Vec<u8> = Vec::new();
    let mut i: usize = 0;
    while i < n
        invariant
            b@ == s.spec_bytes(),
            n == b@.len(),
            n % 2 == 0,
            i % 2 == 0,
            i <= n,
            out@.len() == i / 2,
            forall|j: int| 0 <= j < i ==> is_hex_digit(#[trigger] b@[j]),
            forall|j: int|
                0 <= j < i / 2 ==> (#[trigger] out@[j]) as int == hex_digit_value(b@[2 * j]) * 16
                    + hex_digit_value(b@[2 * j + 1]),
        decreases n - i,
    {
        let hi = match hex_digit(b[i]) {
            Some(v) => v,
            None => {
                assert(!is_hex_digit(b@[i as int]));
                return None;
            },
        };
        let lo = match hex_digit(b[i + 1]) {
            Some(v) => v,
            None => {
                assert(!is_hex_digit(b@[i as int + 1]));
                return None;
            },
        };
        out.push(hi * 16 + lo);
        i = i + 2;
    }
    assert(out@ =~= spec_hex_decode(s.spec_bytes()));
    Some(out)
}

/// Whether a table entry is valid generator material for the Pallas curve:
/// 64 hexadecimal digits denoting a valid compressed point encoding.
pub open spec fn pallas_entry_ok(bytes: Seq<u8>) -> bool {
    is_hex_bytes(bytes) && bytes.len() == 64 && is_pallas_point_encoding(spec_hex_decode(bytes))
}

/// Whether a table entry is valid generator material for the Vesta curve.
pub open spec fn vesta_entry_ok(bytes: Seq<u8>) -> bool {
    is_hex_bytes(bytes) && bytes.len() == 64 && is_vesta_point_encoding(spec_hex_decode(bytes))
}

/// Decodes a table of hexadecimal entries into Pallas points.  Succeeds
/// exactly when every entry is valid; one point per entry, the decoding of
/// that entry, in table order.
pub fn parse_pallas_generators(entries: &Vec<&str>) -> (r: Option<Vec<pasta_curves::EpAffine>>)
    ensures
        r is Some <==> (forall|i: int|
            0 <= i < entries@.len() ==> pallas_entry_ok((#[trigger] entries@[i]).spec_bytes())),
        r matches Some(v) ==> v@.len() == entries@.len() && (forall|i: int|
            0 <= i < entries@.len() ==> v@[i] == pallas_point_of(
                spec_hex_decode((#[trigger] entries@[i]).spec_bytes()),
            )),
{
    let n: usize = entries.len();
    let mut out: Vec<pasta_curves::EpAffine> = Vec::new();
    let mut i: usize = 0;
    while i < n
        invariant
            n == entries@.len(),
            i <= n,
            out@.len() == i,
            forall|j: int| 0 <= j < i ==> pallas_entry_ok((#[trigger] entries@[j]).spec_bytes()),
            forall|j: int| 0 <= j < i ==> out@[j] == pallas_point_of(
                spec_hex_decode((#[trigger] entries@[j]).spec_bytes()),
            ),
        decreases n - i,
    {
        let e: &str = entries[i];
        let bytes = match hex_decode(e) {
            Some(v) => v,
            None => {
                return None;
            },
        };
        if bytes.len() != 32 {
            return None;
        }
        let pt = match pallas_point_from_bytes_raw(&bytes) {
            Some(p) => p,
            None => {
                return None;
            },
        };
        out.push(pt);
        i = i + 1;
    }
    Some(out)
}

/// Decodes a table of hexadecimal entries into Vesta points.  Succeeds
/// exactly when every entry is valid; one point per entry, the decoding of
/// that entry, in table order.
pub fn parse_vesta_generators(entries: &Vec<&str>) -> (r: Option<Vec<pasta_curves::EqAffine>>)
    ensures
        r is Some <==> (forall|i: int|
            0 <= i < entries@.len() ==> vesta_entry_ok((#[trigger] entries@[i]).spec_bytes())),
        r matches Some(v) ==> v@.len() == entries@.len() && (forall|i: int|
            0 <= i < entries@.len() ==> v@[i] == vesta_point_of(
                spec_hex_decode((#[trigger] entries@[i]).spec_bytes()),
            )),
{
    let n: usize = entries.len();
    let mut out: Vec<pasta_curves::EqAffine> = Vec::new();
    let mut i: usize = 0;
    while i < n
        invariant
            n == entries@.len(),
            i <= n,
            out@.len() == i,
            forall|j: int| 0 <= j < i ==> vesta_entry_ok((#[trigger] entries@[j]).spec_bytes()),
            forall|j: int| 0 <= j < i ==> out@[j] == vesta_point_of(
                spec_hex_decode((#[trigger] entries@[j]).spec_bytes()),
            ),
        decreases n - i,
    {
        let e: &str = entries[i];
        let bytes = match hex_decode(e) {
            Some(v) => v,
            None => {
                return None;
            },
        };
        if bytes.len() != 32 {
            return None;
        }
        let pt = match vesta_point_from_bytes_raw(&bytes) {
            Some(p) => p,
            None => {
                return None;
            },
        };
        out.push(pt);
        i = i + 1;
    }
    Some(out)
}

/// The entries of the fixed Pallas generator table, as character sequences.
pub open spec fn ck_primary_table() -> Seq<Seq<char>> {
    seq![
        "061118775e71466b020e19196624a6713c4839aae38c7b702187483afb70982e"@,
        "142d0ed8f2a163f06b726992e70cb39b6e39b3759945a6628418a837397b91ab"@,
        "6985bdfb4fc962a67b3c5efd83a7689d5bf01885074078308382a9ea4dae37a6"@,
        "aa18c10472692606a9316f36cf8114aa309315bb8adde30aeeb5659bed3fbba8"@,
        "d7a3a416f5a5935f5d249aaa4f9c1952b133cf9a44f3689804d97bd9341a05b1"@,
        "20150e9f74778c07207e78d8bab33167e6b3b5121d060aa8938ed7706b445436"@,
        "18b430b5d01900e00f3c5605c7926abf3c88f4c2a1cbdf138d84c420b4573f98"@,
        "98ff895e0b0fd191034eb245796e1c5a199c10596c4267d30e83612346e94bb8"@,
        "e6107fd78783d058e6e1afea25b00f522a1b6ead9a010ad8f2a3b335986bb939"@,
        "24a1c0cedd3ddfee73495ca913b74939916838885436e867af338659747e2e91"@,
        "e0b3ee8b34673dcb988b4856e3573feacbf8f20ad6221dc882e70e475f579b39"@,
        "2a7efa55dfcc70fa15cb0e3c52a18244f19c90de9c9c4eee04334fc445c346ab"@,
        "459f879034841f13e8ff672bc1f401c1cdabd2405ab0c88a8ec8e45d037f7ca1"@,
        "70155d3c1f211a7ce48e218e864449aa735230cb539cea3875e6504c9fa8e50f"@,
        "091b31774ca7dae06eccebc9bba992d5c7e73bfd5b3c1801c6844d3910fb6c37"@,
        "0fc9a55098204d3f8f0b927283bb1b283b415c6720fc64e399d8d9d5c4832a20"@,
    ]
}

/// The entries of the fixed Vesta generator table, as character sequences.
pub open spec fn ck_secondary_table() -> Seq<Seq<char>> {
    seq![
        "7aeb446bc3472db4e797b05eb8825ee4b1df0bc1ef722d56fae495dcb00e5b1c"@,
        "7066aa131f741dc3993f382c0812a91261f7796e4a19ec90656b7b733aa129b6"@,
        "e81d71c08ee6dcfe5617ed25937728df3fefe607b68a3a246d1520c6e603d992"@,
        "c8339789fdc052a67fc3e83966eb07fbb323b7de2804600ea0f2bf52c0304889"@,
        "e03615763c2a9d7f233716929b07819d090a6c3c07659ed70b47b0256982338a"@,
        "f6d085c7371af8b1c42f07810b7c8534367cc5dfb392f1af14ef70be0b855eb4"@,
        "065dd79d76297e04c97b87b8695b8d01479c894292430fbf8726f69e02734e19"@,
        "ba25e6d5d5a9392c5b2cc00adbbab39a3c818162351381a269a3f4177143520b"@,
        "c1b5a25d7955634eb272fb7b6ba39c6fd9e679356e214ee7ace9e5403b8650b0"@,
        "83b8ccc0aa203ade4bc3960c76475059d12301fdf8a6dd21e8a503cb06696407"@,
        "c102951a8066b72dce2d5127e40c89284be5637aae32a039da6292e8f2293c8e"@,
        "059a21f65c820687455bf7408167cf59395df3f334bd582d44d57f097b0fdc10"@,
        "a3e3258f59c05f14af71d8b4b957e0d5e2a9225cc6be592b1812bc10ae2fad25"@,
        "a011f941b370221bdb881f1cc4a368a664c580bb7d76143a38dd3fff281bcd2c"@,
        "e2f7cf2c4865fb202ddf1748228e7b28d9b358baa3006f88261b58b81295f3a3"@,
        "5404440e001246754267224cdadf222d48343fdc9e97a38c98eac47349a7972e"@,
    ]
}

/// Whether every entry of the fixed Pallas table is valid generator material.
pub open spec fn pallas_table_ok() -> bool {
    forall|i: int|
        0 <= i < ck_primary_table().len() ==> pallas_entry_ok(
            vstd::utf8::encode_utf8(#[trigger] ck_primary_table()[i]),
        )
}

/// Whether every entry of the fixed Vesta table is valid generator material.
pub open spec fn vesta_table_ok() -> bool {
    forall|i: int|
        0 <= i < ck_secondary_table().len() ==> vesta_entry_ok(
            vstd::utf8::encode_utf8(#[trigger] ck_secondary_table()[i]),
        )
}

/// The in-order point decodings of the fixed Pallas table.
pub open spec fn pallas_table_points() -> Seq<pasta_curves::EpAffine> {
    Seq::new(
        ck_primary_table().len(),
        |i: int| pallas_point_of(spec_hex_decode(vstd::utf8::encode_utf8(ck_primary_table()[i]))),
    )
}

/// The in-order point decodings of the fixed Vesta table.
pub open spec fn vesta_table_points() -> Seq<pasta_curves::EqAffine> {
    Seq::new(
        ck_secondary_table().len(),
        |i: int| vesta_point_of(spec_hex_decode(vstd::utf8::encode_utf8(ck_secondary_table()[i]))),
    )
}

/// The fixed table of compressed generator encodings for the Pallas curve,
/// 64 hexadecimal digits per point: exactly the entries of
/// `ck_primary_table`.
pub fn ck_primary_hex() -> (r: Vec<&'static str>)
    ensures
        r@.len() == ck_primary_table().len(),
        forall|i: int| 0 <= i < r@.len() ==> (#[trigger] r@[i])@ == ck_primary_table()[i],
{
    let mut v: Vec<&'static str> = Vec::new();
    v.push("061118775e71466b020e19196624a6713c4839aae38c7b702187483afb70982e");
    v.push("142d0ed8f2a163f06b726992e70cb39b6e39b3759945a6628418a837397b91ab");
    v.push("6985bdfb4fc962a67b3c5efd83a7689d5bf01885074078308382a9ea4dae37a6");
    v.push("aa18c10472692606a9316f36cf8114aa309315bb8adde30aeeb5659bed3fbba8");
    v.push("d7a3a416f5a5935f5d249aaa4f9c1952b133cf9a44f3689804d97bd9341a05b1");
    v.push("20150e9f74778c07207e78d8bab33167e6b3b5121d060aa8938ed7706b445436");
    v.push("18b430b5d01900e00f3c5605c7926abf3c88f4c2a1cbdf138d84c420b4573f98");
    v.push("98ff895e0b0fd191034eb245796e1c5a199c10596c4267d30e83612346e94bb8");
    v.push("e6107fd78783d058e6e1afea25b00f522a1b6ead9a010ad8f2a3b335986bb939");
    v.push("24a1c0cedd3ddfee73495ca913b74939916838885436e867af338659747e2e91");
    v.push("e0b3ee8b34673dcb988b4856e3573feacbf8f20ad6221dc882e70e475f579b39");
    v.push("2a7efa55dfcc70fa15cb0e3c52a18244f19c90de9c9c4eee04334fc445c346ab");
    v.push("459f879034841f13e8ff672bc1f401c1cdabd2405ab0c88a8ec8e45d037f7ca1");
    v.push("70155d3c1f211a7ce48e218e864449aa735230cb539cea3875e6504c9fa8e50f");
    v.push("091b31774ca7dae06eccebc9bba992d5c7e73bfd5b3c1801c6844d3910fb6c37");
    v.push("0fc9a55098204d3f8f0b927283bb1b283b415c6720fc64e399d8d9d5c4832a20");
    proof {
        assert forall|i: int| 0 <= i < v@.len() implies (#[trigger] v@[i])@ == ck_primary_table()[i]
        by {
        }
    }
    v
}

/// The fixed table of compressed generator encodings for the Vesta curve:
/// exactly the entries of `ck_secondary_table`.
pub fn ck_secondary_hex() -> (r: Vec<&'static str>)
    ensures
        r@.len() == ck_secondary_table().len(),
        forall|i: int| 0 <= i < r@.len() ==> (#[trigger] r@[i])@ == ck_secondary_table()[i],
{
    let mut v: Vec<&'static str> = Vec::new();
    v.push("7aeb446bc3472db4e797b05eb8825ee4b1df0bc1ef722d56fae495dcb00e5b1c");
    v.push("7066aa131f741dc3993f382c0812a91261f7796e4a19ec90656b7b733aa129b6");
    v.push("e81d71c08ee6dcfe5617ed25937728df3fefe607b68a3a246d1520c6e603d992");
    v.push("c8339789fdc052a67fc3e83966eb07fbb323b7de2804600ea0f2bf52c0304889");
    v.push("e03615763c2a9d7f233716929b07819d090a6c3c07659ed70b47b0256982338a");
    v.push("f6d085c7371af8b1c42f07810b7c8534367cc5dfb392f1af14ef70be0b855eb4");
    v.push("065dd79d76297e04c97b87b8695b8d01479c894292430fbf8726f69e02734e19");
    v.push("ba25e6d5d5a9392c5b2cc00adbbab39a3c818162351381a269a3f4177143520b");
    v.push("c1b5a25d7955634eb272fb7b6ba39c6fd9e679356e214ee7ace9e5403b8650b0");
    v.push("83b8ccc0aa203ade4bc3960c76475059d12301fdf8a6dd21e8a503cb06696407");
    v.push("c102951a8066b72dce2d5127e40c89284be5637aae32a039da6292e8f2293c8e");
    v.push("059a21f65c820687455bf7408167cf59395df3f334bd582d44d57f097b0fdc10");
    v.push("a3e3258f59c05f14af71d8b4b957e0d5e2a9225cc6be592b1812bc10ae2fad25");
    v.push("a011f941b370221bdb881f1cc4a368a664c580bb7d76143a38dd3fff281bcd2c");
    v.push("e2f7cf2c4865fb202ddf1748228e7b28d9b358baa3006f88261b58b81295f3a3");
    v.push("5404440e001246754267224cdadf222d48343fdc9e97a38c98eac47349a7972e");
    proof {
        assert forall|i: int|
            0 <= i < v@.len() implies (#[trigger] v@[i])@ == ck_secondary_table()[i] by {
        }
    }
    v
}

/// The trusted generator sequence of one specific curve.
#[derive(Clone, Debug)]
pub enum GeneratorSet {
    Pallas(Vec<pasta_curves::EpAffine>),
    Vesta(Vec<pasta_curves::EqAffine>),
}

impl GeneratorSet {
    /// How many points the set holds.
    pub open spec fn point_count(self) -> int {
        match self {
            GeneratorSet::Pallas(v) => v@.len() as int,
            GeneratorSet::Vesta(v) => v@.len() as int,
        }
    }

    /// Whether this set holds exactly the in-order decodings of the fixed
    /// table of the given engine's curve.
    pub open spec fn is_table_for(self, e: CurveEngine) -> bool {
        match self {
            GeneratorSet::Pallas(v) => e is Pallas && v@ == pallas_table_points(),
            GeneratorSet::Vesta(v) => e is Vesta && v@ == vesta_table_points(),
        }
    }
}

/// Whether two generator sets are for the same curve and hold identical point
/// sequences.
pub open spec fn same_points(g1: GeneratorSet, g2: GeneratorSet) -> bool {
    match (g1, g2) {
        (GeneratorSet::Pallas(v1), GeneratorSet::Pallas(v2)) => v1@ == v2@,
        (GeneratorSet::Vesta(v1), GeneratorSet::Vesta(v2)) => v1@ == v2@,
        _ => false,
    }
}

/// The store is read-only configuration: any two successful materialisations
/// for the same engine hold identical point sequences, whatever the order or
/// interleaving of the calls that produced them.
pub proof fn lemma_store_identical_on_every_access(
    e: CurveEngine,
    g1: GeneratorSet,
    g2: GeneratorSet,
)
    requires
        g1.is_table_for(e),
        g2.is_table_for(e),
    ensures
        same_points(g1, g2),
{
}

impl CurveEngine {
    /// Whether every entry of this engine's fixed table is valid.
    pub open spec fn spec_table_ok(self) -> bool {
        match self {
            CurveEngine::Pallas => pallas_table_ok(),
            CurveEngine::Vesta => vesta_table_ok(),
        }
    }

    /// Materialises the trusted generator sequence for this engine's curve:
    /// succeeds exactly when every entry of the fixed table passes its
    /// format and curve-membership checks, and then returns precisely the
    /// in-order decodings of that table.  A malformed entry aborts the whole
    /// materialisation rather than being dropped.  Deterministic, so repeated
    /// or concurrent calls agree.
    pub fn generators(&self) -> (r: Option<GeneratorSet>)
        ensures
            r is Some <==> self.spec_table_ok(),
            r matches Some(g) ==> g.is_table_for(*self) && g.point_count() == 16,
    {
        match self {
            CurveEngine::Pallas => {
                let table = ck_primary_hex();
                proof {
                    assert forall|i: int|
                        0 <= i < table@.len() implies (#[trigger] table@[i]).spec_bytes()
                        == vstd::utf8::encode_utf8(ck_primary_table()[i]) by {
                        assert(table@[i]@ == ck_primary_table()[i]);
                    }
                }
                match parse_pallas_generators(&table) {
                    Some(points) => {
                        proof {
                            assert forall|i: int|
                                0 <= i < ck_primary_table().len() implies pallas_entry_ok(
                                vstd::utf8::encode_utf8(#[trigger] ck_primary_table()[i]),
                            ) by {
                                assert(pallas_entry_ok(table@[i].spec_bytes()));
                            }
                            assert forall|i: int|
                                0 <= i < points@.len() implies points@[i]
                                == pallas_table_points()[i] by {
                                assert(points@[i] == pallas_point_of(
                                    spec_hex_decode((#[trigger] table@[i]).spec_bytes()),
                                ));
                            }
                            assert(points@ =~= pallas_table_points());
                        }
                        Some(GeneratorSet::Pallas(points))
                    },
                    None => {
                        proof {
                            if pallas_table_ok() {
                                assert forall|i: int|
                                    0 <= i < table@.len() implies pallas_entry_ok(
                                    (#[trigger] table@[i]).spec_bytes(),
                                ) by {
                                    assert(pallas_entry_ok(
                                        vstd::utf8::encode_utf8(ck_primary_table()[i]),
                                    ));
                                }
                                assert(false);
                            }
                        }
                        None
                    },
                }
            },
            CurveEngine::Vesta => {
                let table = ck_secondary_hex();
                proof {
                    assert forall|i: int|
                        0 <= i < table@.len() implies (#[trigger] table@[i]).spec_bytes()
                        == vstd::utf8::encode_utf8(ck_secondary_table()[i]) by {
                        assert(table@[i]@ == ck_secondary_table()[i]);
                    }
                }
                match parse_vesta_generators(&table) {
                    Some(points) => {
                        proof {
                            assert forall|i: int|
                                0 <= i < ck_secondary_table().len() implies vesta_entry_ok(
                                vstd::utf8::encode_utf8(#[trigger] ck_secondary_table()[i]),
                            ) by {
                                assert(vesta_entry_ok(table@[i].spec_bytes()));
                            }
                            assert forall|i: int|
                                0 <= i < points@.len() implies points@[i]
                                == vesta_table_points()[i] by {
                                assert(points@[i] == vesta_point_of(
                                    spec_hex_decode((#[trigger] table@[i]).spec_bytes()),
                                ));
                            }
                            assert(points@ =~= vesta_table_points());
                        }
                        Some(GeneratorSet::Vesta(points))
                    },
                    None => {
                        proof {
                            if vesta_table_ok() {
                                assert forall|i: int|
                                    0 <= i < table@.len() implies vesta_entry_ok(
                                    (#[trigger] table@[i]).spec_bytes(),
                                ) by {
                                    assert(vesta_entry_ok(
                                        vstd::utf8::encode_utf8(ck_secondary_table()[i]),
                                    ));
                                }
                                assert(false);
                            }
                        }
                        None
                    },
                }
            },
        }
    }
}

} // verus!
