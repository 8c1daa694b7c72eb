//! The two curve engines of the Pallas/Vesta cycle.
//!
//! Each engine bundles the per-curve operations the pipeline needs: decoding
//! a compressed point encoding and producing the supported initial-value
//! field constants.  The curve arithmetic itself lives in the `pasta_curves`
//! crate and is reached only through the trusted items declared here.

use vstd::prelude::*;

use crate::pubs::{CurveName, Z0Values};

verus! {

#[verifier::external_type_specification]
#[verifier::external_body]
pub struct ExEpAffine(pasta_curves::EpAffine);

#[verifier::external_type_specification]
#[verifier::external_body]
pub struct ExEqAffine(pasta_curves::EqAffine);

#[verifier::external_type_specification]
#[verifier::external_body]
pub struct ExFp(pasta_curves::Fp);

#[verifier::external_type_specification]
#[verifier::external_body]
pub struct ExFq(pasta_curves::Fq);

/// Whether 32 bytes are a valid compressed encoding of a Pallas point; decided
/// by the curve membership check of `pasta_curves`, a function of the bytes
/// alone.
pub uninterp spec fn is_pallas_point_encoding(b: Seq<u8>) -> bool;

/// Whether 32 bytes are a valid compressed encoding of a Vesta point.
pub uninterp spec fn is_vesta_point_encoding(b: Seq<u8>) -> bool;

/// The Pallas point that a valid 32-byte compressed encoding denotes; decided
/// by `pasta_curves`, a function of the bytes alone.
pub uninterp spec fn pallas_point_of(b: Seq<u8>) -> pasta_curves::EpAffine;

/// The Vesta point that a valid 32-byte compressed encoding denotes.
pub uninterp spec fn vesta_point_of(b: Seq<u8>) -> pasta_curves::EqAffine;

/// The constant of the Pallas scalar field that an initial-value tag selects:
/// the field's additive identity for `ZERO`, its multiplicative identity for
/// `ONE`.
pub uninterp spec fn pallas_z0_of(tag: Z0Values) -> pasta_curves::Fq;

/// The constant of the Vesta scalar field that an initial-value tag selects.
pub uninterp spec fn vesta_z0_of(tag: Z0Values) -> pasta_curves::Fp;

/// Relies on `EpAffine::from_bytes` (`GroupEncoding`): it accepts exactly the
/// valid compressed Pallas point encodings, a deterministic function of the
/// 32 bytes alone.
#[verifier::external_body]
pub(crate) fn pallas_point_from_bytes_raw(bytes: &Vec<u8>) -> (r: Option<pasta_curves::EpAffine>)
    requires
        bytes@.len() == 32,
    ensures
        r is Some <==> is_pallas_point_encoding(bytes@),
        r matches Some(pt) ==> pt == pallas_point_of(bytes@),
{
    let arr: [u8; 32] = bytes.as_slice().try_into().unwrap();
    <pasta_curves::EpAffine as pasta_curves::group::GroupEncoding>::from_bytes(&arr).into()
}

/// Relies on `EqAffine::from_bytes` (`GroupEncoding`): it accepts exactly the
/// valid compressed Vesta point encodings, a deterministic function of the
/// 32 bytes alone.
#[verifier::external_body]
pub(crate) fn vesta_point_from_bytes_raw(bytes: &Vec<u8>) -> (r: Option<pasta_curves::EqAffine>)
    requires
        bytes@.len() == 32,
    ensures
        r is Some <==> is_vesta_point_encoding(bytes@),
        r matches Some(pt) ==> pt == vesta_point_of(bytes@),
{
    let arr: [u8; 32] = bytes.as_slice().try_into().unwrap();
    <pasta_curves::EqAffine as pasta_curves::group::GroupEncoding>::from_bytes(&arr).into()
}

/// Relies on `ff::Field::ZERO` of the Pallas scalar field.
#[verifier::external_body]
fn pallas_scalar_zero() -> (r: pasta_curves::Fq)
    ensures
        r == pallas_z0_of(Z0Values::ZERO),
{
    <pasta_curves::Fq as pasta_curves::group::ff::Field>::ZERO
}

/// Relies on `ff::Field::ONE` of the Pallas scalar field.
#[verifier::external_body]
fn pallas_scalar_one() -> (r: pasta_curves::Fq)
    ensures
        r == pallas_z0_of(Z0Values::ONE),
{
    <pasta_curves::Fq as pasta_curves::group::ff::Field>::ONE
}

/// Relies on `ff::Field::ZERO` of the Vesta scalar field.
#[verifier::external_body]
fn vesta_scalar_zero() -> (r: pasta_curves::Fp)
    ensures
        r == vesta_z0_of(Z0Values::ZERO),
{
    <pasta_curves::Fp as pasta_curves::group::ff::Field>::ZERO
}

/// Relies on `ff::Field::ONE` of the Vesta scalar field.
#[verifier::external_body]
fn vesta_scalar_one() -> (r: pasta_curves::Fp)
    ensures
        r == vesta_z0_of(Z0Values::ONE),
{
    <pasta_curves::Fp as pasta_curves::group::ff::Field>::ONE
}

/// A point of one specific curve of the cycle.
#[derive(Clone, Copy, Debug)]
pub enum CurvePoint {
    Pallas(pasta_curves::EpAffine),
    Vesta(pasta_curves::EqAffine),
}

/// An initial step-function input value, as a field element of one specific
/// curve's scalar field.
#[derive(Clone, Copy, Debug)]
pub enum Z0Scalar {
    Pallas(pasta_curves::Fq),
    Vesta(pasta_curves::Fp),
}

/// One of the two concrete curve engines; the uniform capability set the
/// dispatcher selects between at runtime.
#[derive(Clone, Copy, Debug, PartialEq, Eq, Structural)]
pub enum CurveEngine {
    Pallas,
    Vesta,
}

/// The engine that serves a given curve.
pub open spec fn engine_for(c: CurveName) -> CurveEngine {
    match c {
        CurveName::Pallas => CurveEngine::Pallas,
        CurveName::Vesta => CurveEngine::Vesta,
    }
}

impl CurveEngine {
    /// The curve this engine serves.
    pub open spec fn curve(self) -> CurveName {
        match self {
            CurveEngine::Pallas => CurveName::Pallas,
            CurveEngine::Vesta => CurveName::Vesta,
        }
    }

    /// Selects the engine of a curve.
    pub fn of_curve(c: CurveName) -> (r: CurveEngine)
        ensures
            r == engine_for(c),
            r.curve() == c,
    {
        match c {
            CurveName::Pallas => CurveEngine::Pallas,
            CurveName::Vesta => CurveEngine::Vesta,
        }
    }

    /// Whether the bytes are a valid compressed point encoding for this
    /// engine's curve.
    pub open spec fn spec_point_encoding_ok(self, b: Seq<u8>) -> bool {
        match self {
            CurveEngine::Pallas => is_pallas_point_encoding(b),
            CurveEngine::Vesta => is_vesta_point_encoding(b),
        }
    }

    /// The point this engine decodes from a valid compressed encoding.
    pub open spec fn spec_point_of(self, b: Seq<u8>) -> CurvePoint {
        match self {
            CurveEngine::Pallas => CurvePoint::Pallas(pallas_point_of(b)),
            CurveEngine::Vesta => CurvePoint::Vesta(vesta_point_of(b)),
        }
    }

    /// The field constant this engine draws for an initial-value tag.
    pub open spec fn spec_z0_scalar(self, tag: Z0Values) -> Z0Scalar {
        match self {
            CurveEngine::Pallas => Z0Scalar::Pallas(pallas_z0_of(tag)),
            CurveEngine::Vesta => Z0Scalar::Vesta(vesta_z0_of(tag)),
        }
    }

    /// Decodes one compressed point of this engine's curve.
    pub fn point_from_bytes(&self, bytes: &Vec<u8>) -> (r: Option<CurvePoint>)
        requires
            bytes@.len() == 32,
        ensures
            r is Some <==> self.spec_point_encoding_ok(bytes@),
            r matches Some(pt) ==> pt == self.spec_point_of(bytes@),
    {
        match self {
            CurveEngine::Pallas => match pallas_point_from_bytes_raw(bytes) {
                Some(pt) => Some(CurvePoint::Pallas(pt)),
                None => None,
            },
            CurveEngine::Vesta => match vesta_point_from_bytes_raw(bytes) {
                Some(pt) => Some(CurvePoint::Vesta(pt)),
                None => None,
            },
        }
    }

    /// The field constant this engine uses for an initial-value tag: the
    /// additive identity for `ZERO`, the multiplicative identity for `ONE`,
    /// in this engine's scalar field.
    pub fn z0_scalar(&self, tag: Z0Values) -> (r: Z0Scalar)
        ensures
            r == self.spec_z0_scalar(tag),
            r is Pallas <==> *self is Pallas,
    {
        match self {
            CurveEngine::Pallas => match tag {
                Z0Values::ZERO => Z0Scalar::Pallas(pallas_scalar_zero()),
                Z0Values::ONE => Z0Scalar::Pallas(pallas_scalar_one()),
            },
            CurveEngine::Vesta => match tag {
                Z0Values::ZERO => Z0Scalar::Vesta(vesta_scalar_zero()),
                Z0Values::ONE => Z0Scalar::Vesta(vesta_scalar_one()),
            },
        }
    }
}

} // verus!
