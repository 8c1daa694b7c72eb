//! Public-input codec.
//!
//! The wire format is postcard's compact binary layout for the record: each
//! enum tag is a little-endian base-128 varint of its variant index (at most
//! 5 bytes, the last holding at most 4 significant bits), the step counter is
//! a 64-bit varint (at most 10 bytes, the last holding at most 1 significant
//! bit), and the four fields follow each other with no framing.  Decoding
//! rejects trailing or missing bytes, out-of-range tags, and a step count of
//! zero.

use vstd::prelude::*;

use crate::errors::DeserializeError;
use crate::pubs::{CurveName, Pubs, Z0Values};

verus! {

/// Wire tag of a `CurveName` value.
pub open spec fn curve_tag(c: CurveName) -> int {
    match c {
        CurveName::Pallas => 0,
        CurveName::Vesta => 1,
    }
}

/// Wire tag of a `Z0Values` value.
pub open spec fn z0_tag(z: Z0Values) -> int {
    match z {
        Z0Values::ZERO => 0,
        Z0Values::ONE => 1,
    }
}

/// Reads one little-endian base-128 varint from the front of `s`, consuming at
/// most `rem` bytes and allowing at most `last_max` in a byte that is reached
/// as the very last permitted one.  Returns the value and the number of bytes
/// consumed, or `None` when the input is exhausted, the byte budget runs out,
/// or the final permitted byte is over its limit.
pub open spec fn svarint(s: Seq<u8>, rem: int, last_max: u8) -> Option<(int, int)>
    decreases rem,
{
    if rem <= 0 || s.len() == 0 {
        None
    } else if s[0] < 128 {
        if rem == 1 && s[0] > last_max {
            None
        } else {
            Some((s[0] as int, 1int))
        }
    } else {
        match svarint(s.skip(1), rem - 1, last_max) {
            None => None,
            Some(vc) => Some(((s[0] - 128) + 128 * vc.0, vc.1 + 1)),
        }
    }
}

/// Exclusive upper bound on the value a varint of at most `rem` bytes can
/// carry when its last permitted byte is capped at `last_max`.
pub open spec fn varint_bound(rem: int, last_max: u8) -> int
    decreases rem,
{
    if rem <= 1 {
        last_max + 1
    } else {
        128 * varint_bound(rem - 1, last_max)
    }
}

/// The canonical (shortest) varint encoding of a non-negative integer.
pub open spec fn spec_encode_varint(n: int) -> Seq<u8>
    recommends
        0 <= n,
    decreases n,
{
    if n < 128 {
        seq![n as u8]
    } else {
        seq![(n % 128 + 128) as u8] + spec_encode_varint(n / 128)
    }
}

/// The wire encoding of a public-input record: curve tag, step counter, and
/// the two initial-value tags, concatenated.
pub open spec fn spec_encode_pubs(p: Pubs) -> Seq<u8> {
    spec_encode_varint(curve_tag(p.first_curve)) + spec_encode_varint(p.num_of_steps as int)
        + spec_encode_varint(z0_tag(p.z0_primary)) + spec_encode_varint(z0_tag(p.z0_secondary))
}

/// The decoder as a total mathematical function: `None` is every input that
/// `deserialize_pubs` rejects.
pub open spec fn spec_decode_pubs(s: Seq<u8>) -> Option<Pubs> {
    match svarint(s, 5, 15) {
        None => None,
        Some(tc) => if tc.0 > 1 {
            None
        } else {
            match svarint(s.skip(tc.1), 10, 1) {
                None => None,
                Some(sc) => if sc.0 < 1 || sc.0 > usize::MAX as int {
                    None
                } else {
                    match svarint(s.skip(tc.1 + sc.1), 5, 15) {
                        None => None,
                        Some(pc) => if pc.0 > 1 {
                            None
                        } else {
                            match svarint(s.skip(tc.1 + sc.1 + pc.1), 5, 15) {
                                None => None,
                                Some(qc) => if qc.0 > 1 || s.len() != tc.1 + sc.1 + pc.1 + qc.1 {
                                    None
                                } else {
                                    Some(
                                        Pubs {
                                            first_curve: if tc.0 == 0 {
                                                CurveName::Pallas
                                            } else {
                                                CurveName::Vesta
                                            },
                                            num_of_steps: sc.0 as usize,
                                            z0_primary: if pc.0 == 0 {
                                                Z0Values::ZERO
                                            } else {
                                                Z0Values::ONE
                                            },
                                            z0_secondary: if qc.0 == 0 {
                                                Z0Values::ZERO
                                            } else {
                                                Z0Values::ONE
                                            },
                                        },
                                    )
                                },
                            }
                        },
                    }
                },
            }
        },
    }
}

/// A successful varint read stays under `varint_bound` and consumes between
/// one byte and the whole budget, never more than the input holds.
pub proof fn lemma_svarint_bound(s: Seq<u8>, rem: int, last_max: u8)
    ensures
        svarint(s, rem, last_max) matches Some(vc) ==> 0 <= vc.0 < varint_bound(rem, last_max)
            && 1 <= vc.1 <= rem && vc.1 <= s.len(),
    decreases rem,
{
    if rem <= 0 || s.len() == 0 {
    } else if s[0] < 128 {
        if !(rem == 1 && s[0] > last_max) {
            if rem == 1 {
                assert(s[0] <= last_max);
            } else {
                lemma_varint_bound_at_least(rem, last_max);
                assert(varint_bound(rem, last_max) >= 128);
            }
        }
    } else {
        lemma_svarint_bound(s.skip(1), rem - 1, last_max);
        match svarint(s.skip(1), rem - 1, last_max) {
            Some(vc) => {
                assert(128 * vc.0 <= 128 * (varint_bound(rem - 1, last_max) - 1));
            },
            None => {},
        }
    }
}

/// For a budget of at least two bytes the bound is at least 128.
proof fn lemma_varint_bound_at_least(rem: int, last_max: u8)
    ensures
        rem >= 1 ==> varint_bound(rem, last_max) >= last_max + 1,
        rem >= 2 ==> varint_bound(rem, last_max) >= 128,
    decreases rem,
{
    if rem >= 2 {
        lemma_varint_bound_at_least(rem - 1, last_max);
    }
}

/// The bound grows with the byte budget.
pub proof fn lemma_varint_bound_mono(k1: int, k2: int, last_max: u8)
    requires
        1 <= k1 <= k2,
    ensures
        varint_bound(k1, last_max) <= varint_bound(k2, last_max),
    decreases k2,
{
    if k1 < k2 {
        lemma_varint_bound_mono(k1, k2 - 1, last_max);
        lemma_varint_bound_at_least(k2 - 1, last_max);
    }
}

/// A canonical encoding that fits under `varint_bound(k, last_max)` takes at
/// most `k` bytes, and when it takes exactly `k` its final byte obeys the cap.
pub proof fn lemma_encode_varint_fits(n: int, k: int, last_max: u8)
    requires
        1 <= k,
        0 <= n < varint_bound(k, last_max),
        last_max < 128,
    ensures
        1 <= spec_encode_varint(n).len() <= k,
        spec_encode_varint(n).len() == k ==> spec_encode_varint(n).last() <= last_max,
    decreases k,
{
    if n < 128 {
        if k == 1 {
            assert(n <= last_max);
            assert(spec_encode_varint(n).last() == n as u8);
        }
    } else {
        assert(k >= 2) by {
            lemma_varint_bound_at_least(k, last_max);
            if k == 1 {
                assert(varint_bound(k, last_max) == last_max + 1);
            }
        }
        assert(n / 128 < varint_bound(k - 1, last_max)) by {
            assert(varint_bound(k, last_max) == 128 * varint_bound(k - 1, last_max));
            assert(n / 128 < varint_bound(k - 1, last_max)) by (nonlinear_arith)
                requires
                    n < 128 * varint_bound(k - 1, last_max),
                    0 <= n,
            ;
        }
        lemma_encode_varint_fits(n / 128, k - 1, last_max);
        let e = spec_encode_varint(n);
        let e2 = spec_encode_varint(n / 128);
        assert(e == seq![(n % 128 + 128) as u8] + e2);
        assert(e.last() == e2.last());
    }
}

/// Reading a varint from a canonical encoding followed by anything recovers
/// exactly the encoded value and consumes exactly the encoding.
pub proof fn lemma_svarint_of_encoding(n: int, rest: Seq<u8>, rem: int, last_max: u8)
    requires
        0 <= n,
        spec_encode_varint(n).len() <= rem,
        spec_encode_varint(n).len() == rem ==> spec_encode_varint(n).last() <= last_max,
    ensures
        svarint(spec_encode_varint(n) + rest, rem, last_max) == Some(
            (n, spec_encode_varint(n).len() as int),
        ),
    decreases n,
{
    let e = spec_encode_varint(n);
    let s = e + rest;
    if n < 128 {
        assert(s[0] == n as u8);
        assert(s[0] < 128);
        if rem == 1 {
            assert(e.last() == s[0]);
        }
    } else {
        let e2 = spec_encode_varint(n / 128);
        assert(s[0] == (n % 128 + 128) as u8);
        assert(s[0] >= 128);
        assert(s.skip(1) =~= e2 + rest);
        assert(e2.len() == e.len() - 1);
        if e2.len() == rem - 1 {
            assert(e.last() == e2.last());
        }
        lemma_svarint_of_encoding(n / 128, rest, rem - 1, last_max);
        assert(svarint(s.skip(1), rem - 1, last_max) == Some((n / 128, e2.len() as int)));
        assert((s[0] - 128) + 128 * (n / 128) == n) by {
            vstd::arithmetic::div_mod::lemma_fundamental_div_mod(n, 128);
        }
    }
}

/// Any varint read that starts on the canonical encoding of a positive number
/// either fails or yields a positive value: the continuation bits force every
/// partial read to stop on a byte that carries at least one set payload bit.
proof fn lemma_svarint_on_positive_encoding(n: int, rest: Seq<u8>, rem: int, last_max: u8)
    requires
        1 <= n,
    ensures
        svarint(spec_encode_varint(n) + rest, rem, last_max) matches Some(vc) ==> vc.0 >= 1,
    decreases n,
{
    let e = spec_encode_varint(n);
    let s = e + rest;
    if rem <= 0 || s.len() == 0 {
    } else if n < 128 {
        assert(s[0] == n as u8);
    } else {
        assert(s[0] == (n % 128 + 128) as u8);
        assert(s[0] >= 128);
        assert(s.skip(1) =~= spec_encode_varint(n / 128) + rest);
        lemma_svarint_on_positive_encoding(n / 128, rest, rem - 1, last_max);
        match svarint(s.skip(1), rem - 1, last_max) {
            Some(vc) => {
                assert(128 * vc.0 >= 128) by (nonlinear_arith)
                    requires
                        vc.0 >= 1,
                ;
            },
            None => {},
        }
    }
}

/// Round trip: decoding the encoding of any well-formed public-input record
/// yields exactly that record.
pub proof fn lemma_pubs_round_trip(p: Pubs)
    requires
        p.wf(),
    ensures
        spec_decode_pubs(spec_encode_pubs(p)) == Some(p),
{
    let e1 = spec_encode_varint(curve_tag(p.first_curve));
    let e2 = spec_encode_varint(p.num_of_steps as int);
    let e3 = spec_encode_varint(z0_tag(p.z0_primary));
    let e4 = spec_encode_varint(z0_tag(p.z0_secondary));
    let s = spec_encode_pubs(p);
    assert(s =~= e1 + (e2 + (e3 + (e4 + Seq::<u8>::empty()))));

    assert(e1.len() == 1 && e3.len() == 1 && e4.len() == 1);
    lemma_svarint_of_encoding(curve_tag(p.first_curve), e2 + (e3 + (e4 + Seq::<u8>::empty())), 5, 15);
    assert(svarint(s, 5, 15) == Some((curve_tag(p.first_curve), 1int)));

    assert(varint_bound(10, 1) == 0x1_0000_0000_0000_0000) by {
        reveal_with_fuel(varint_bound, 11);
    }
    assert((p.num_of_steps as int) < varint_bound(10, 1));
    lemma_encode_varint_fits(p.num_of_steps as int, 10, 1);
    assert(s.skip(1) =~= e2 + (e3 + (e4 + Seq::<u8>::empty())));
    lemma_svarint_of_encoding(p.num_of_steps as int, e3 + (e4 + Seq::<u8>::empty()), 10, 1);
    let c2 = e2.len() as int;
    assert(svarint(s.skip(1), 10, 1) == Some((p.num_of_steps as int, c2)));

    assert(s.skip(1 + c2) =~= e3 + (e4 + Seq::<u8>::empty()));
    lemma_svarint_of_encoding(z0_tag(p.z0_primary), e4 + Seq::<u8>::empty(), 5, 15);
    assert(svarint(s.skip(1 + c2), 5, 15) == Some((z0_tag(p.z0_primary), 1int)));

    assert(s.skip(1 + c2 + 1) =~= e4 + Seq::<u8>::empty());
    lemma_svarint_of_encoding(z0_tag(p.z0_secondary), Seq::<u8>::empty(), 5, 15);
    assert(svarint(s.skip(1 + c2 + 1), 5, 15) == Some((z0_tag(p.z0_secondary), 1int)));

    assert(s.len() == 1 + c2 + 1 + 1);
}

/// Corrupting the discriminant byte of a valid encoding to anything that is
/// not itself one of the two legal tags makes decoding fail.  (Turning one
/// legal tag into the other still decodes, to the record with the curves
/// swapped, so those two byte values are excluded here.)
pub proof fn lemma_corrupt_discriminant_rejected(p: Pubs, c: u8)
    requires
        p.wf(),
        c != 0,
        c != 1,
    ensures
        spec_decode_pubs(spec_encode_pubs(p).update(0, c)) is None,
{
    let e1 = spec_encode_varint(curve_tag(p.first_curve));
    let e2 = spec_encode_varint(p.num_of_steps as int);
    let e3 = spec_encode_varint(z0_tag(p.z0_primary));
    let e4 = spec_encode_varint(z0_tag(p.z0_secondary));
    let s = spec_encode_pubs(p);
    let t = s.update(0, c);
    assert(e1.len() == 1);
    assert(t =~= seq![c] + (e2 + (e3 + e4)));
    if c < 128 {
        assert(t[0] == c);
        assert(svarint(t, 5, 15) == Some((c as int, 1int)));
        assert(c as int > 1);
    } else {
        assert(t[0] == c && c >= 128);
        assert(t.skip(1) =~= e2 + (e3 + e4));
        lemma_svarint_on_positive_encoding(p.num_of_steps as int, e3 + e4, 4, 15);
        match svarint(t.skip(1), 4, 15) {
            None => {
                assert(svarint(t, 5, 15) is None);
            },
            Some(vc) => {
                assert(128 * vc.0 >= 128) by (nonlinear_arith)
                    requires
                        vc.0 >= 1,
                ;
                assert(svarint(t, 5, 15) matches Some(wc) && wc.0 > 1);
            },
        }
    }
}

/// Reads one varint from `bytes` starting at `pos`, with the same byte budget
/// and last-byte cap semantics as `svarint`.
fn decode_varint(bytes: &Vec<u8>, pos: usize, rem: usize, last_max: u8) -> (r: Option<(u64, usize)>)
    requires
        pos <= bytes@.len(),
        1 <= rem,
        (rem <= 5 && last_max == 15) || (rem <= 10 && last_max == 1),
    ensures
        r matches Some(rc) ==> svarint(bytes@.skip(pos as int), rem as int, last_max) == Some(
            (rc.0 as int, rc.1 as int),
        ) && pos + rc.1 <= bytes@.len() && 1 <= rc.1,
        r is None ==> svarint(bytes@.skip(pos as int), rem as int, last_max) is None,
    decreases rem,
{
    let ghost s = bytes@.skip(pos as int);
    proof {
        lemma_svarint_bound(s, rem as int, last_max);
    }
    if pos == bytes.len() {
        return None;
    }
    let b: u8 = bytes[pos];
    assert(s[0] == b);
    if b < 128 {
        if rem == 1 && b > last_max {
            None
        } else {
            Some((b as u64, 1))
        }
    } else {
        if rem == 1 {
            assert(svarint(s.skip(1), 0, last_max) is None);
            None
        } else {
            assert(s.skip(1) =~= bytes@.skip(pos as int + 1));
            match decode_varint(bytes, pos + 1, rem - 1, last_max) {
                None => None,
                Some(vc) => {
                    proof {
                        lemma_svarint_bound(bytes@.skip(pos as int + 1), rem as int - 1, last_max);
                        lemma_varint_bound_mono(rem as int - 1, if last_max == 15 { 4 } else { 9 }, last_max);
                        assert(varint_bound(4, 15) == 0x2000000) by {
                            reveal_with_fuel(varint_bound, 5);
                        }
                        assert(varint_bound(9, 1) == 0x200_0000_0000_0000) by {
                            reveal_with_fuel(varint_bound, 10);
                        }
                        match svarint(bytes@.skip(pos as int + 1), rem as int - 1, last_max) {
                            Some(ic) => {
                                assert(ic.0 < 0x200_0000_0000_0000);
                                assert(vc.0 == ic.0 as u64 && vc.1 == ic.1 as usize);
                                assert(svarint(s, rem as int, last_max) == Some(
                                    ((s[0] - 128) + 128 * ic.0, ic.1 + 1),
                                ));
                                assert(((b - 128) + 128 * (vc.0 as int)) == (s[0] - 128) + 128
                                    * ic.0);
                            },
                            None => {
                                assert(false);
                            },
                        }
                    }
                    Some(((b - 128) as u64 + 128 * vc.0, vc.1 + 1))
                },
            }
        }
    }
}

/// Appends the canonical varint encoding of `n` to `out`.
fn encode_varint(n: u64, out: &mut Vec<u8>)
    ensures
        final(out)@ == old(out)@ + spec_encode_varint(n as int),
    decreases n,
{
    if n < 128 {
        out.push(n as u8);
        assert(out@ =~= old(out)@ + spec_encode_varint(n as int));
    } else {
        let ghost before = out@;
        out.push((n % 128 + 128) as u8);
        encode_varint(n / 128, out);
        assert(out@ =~= before + spec_encode_varint(n as int));
    }
}

/// Encodes a public-input record into its wire form.
pub fn encode_pubs(p: &Pubs) -> (r: Vec<u8>)
    ensures
        r@ == spec_encode_pubs(*p),
{
    let mut out: Vec<u8> = Vec::new();
    let tag: u64 = match p.first_curve {
        CurveName::Pallas => 0,
        CurveName::Vesta => 1,
    };
    encode_varint(tag, &mut out);
    encode_varint(p.num_of_steps as u64, &mut out);
    let z0p: u64 = match p.z0_primary {
        Z0Values::ZERO => 0,
        Z0Values::ONE => 1,
    };
    encode_varint(z0p, &mut out);
    let z0s: u64 = match p.z0_secondary {
        Z0Values::ZERO => 0,
        Z0Values::ONE => 1,
    };
    encode_varint(z0s, &mut out);
    assert(out@ =~= spec_encode_pubs(*p));
    out
}

/// Decodes a public-input blob.  Succeeds exactly on the inputs on which the
/// mathematical decoder does, and every record handed out is well formed.
pub fn deserialize_pubs(pubs_bytes: &Vec<u8>) -> (r: Result<Pubs, DeserializeError>)
    ensures
        match spec_decode_pubs(pubs_bytes@) {
            Some(p) => r == Ok::<Pubs, DeserializeError>(p),
            None => r == Err::<Pubs, DeserializeError>(DeserializeError::InvalidPubs),
        },
        r matches Ok(p) ==> p.wf(),
{
    let s = pubs_bytes;
    let blob_len: usize = s.len();
    assert(s@.skip(0) =~= s@);
    let (tag, c1) = match decode_varint(s, 0, 5, 15) {
        None => {
            return Err(DeserializeError::InvalidPubs);
        },
        Some(x) => x,
    };
    if tag > 1 {
        return Err(DeserializeError::InvalidPubs);
    }
    let (steps, c2) = match decode_varint(s, c1, 10, 1) {
        None => {
            return Err(DeserializeError::InvalidPubs);
        },
        Some(x) => x,
    };
    if steps < 1 || steps > usize::MAX as u64 {
        return Err(DeserializeError::InvalidPubs);
    }
    let (z0p, c3) = match decode_varint(s, c1 + c2, 5, 15) {
        None => {
            return Err(DeserializeError::InvalidPubs);
        },
        Some(x) => x,
    };
    if z0p > 1 {
        return Err(DeserializeError::InvalidPubs);
    }
    let (z0s, c4) = match decode_varint(s, c1 + c2 + c3, 5, 15) {
        None => {
            return Err(DeserializeError::InvalidPubs);
        },
        Some(x) => x,
    };
    if z0s > 1 || c1 + c2 + c3 + c4 != blob_len {
        return Err(DeserializeError::InvalidPubs);
    }
    Ok(
        Pubs {
            first_curve: if tag == 0 {
                CurveName::Pallas
            } else {
                CurveName::Vesta
            },
            num_of_steps: steps as usize,
            z0_primary: if z0p == 0 {
                Z0Values::ZERO
            } else {
                Z0Values::ONE
            },
            z0_secondary: if z0s == 0 {
                Z0Values::ZERO
            } else {
                Z0Values::ONE
            },
        },
    )
}

/// Whatever the input bytes, a record that decodes successfully is well
/// formed: a step count of zero never leaves the codec.
pub proof fn lemma_decoded_pubs_well_formed(s: Seq<u8>)
    ensures
        spec_decode_pubs(s) matches Some(p) ==> p.wf(),
{
}

} // verus!
