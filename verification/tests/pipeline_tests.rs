use nova_verifier::codec::encode_pubs;
use nova_verifier::curve::{CurveEngine, Z0Scalar};
use nova_verifier::dispatch::resolve;
use nova_verifier::errors::{DeserializeError, NovaVerifierError};
use nova_verifier::pipeline::{attribute_decode_failure, conclude_verification,
    prepare_verification, EngineOutcome};
use nova_verifier::pubs::{CurveName, Pubs, Z0Values};
use nova_verifier::store::GeneratorSet;

use pasta_curves::group::ff::Field;

#[test]
fn dispatcher_role_swap() {
    let r = resolve(CurveName::Pallas, Z0Values::ONE, Z0Values::ZERO);
    assert_eq!(r.primary, CurveEngine::Pallas);
    assert_eq!(r.secondary, CurveEngine::Vesta);
    assert_eq!(r.z0_primary_tag, Z0Values::ONE);
    assert_eq!(r.z0_secondary_tag, Z0Values::ZERO);

    let s = resolve(CurveName::Vesta, Z0Values::ONE, Z0Values::ZERO);
    assert_eq!(s.primary, CurveEngine::Vesta);
    assert_eq!(s.secondary, CurveEngine::Pallas);
}

#[test]
fn dispatcher_draws_field_constants() {
    // first curve Pallas: the primary initial value lives in the Pallas
    // scalar field, the secondary one in the Vesta scalar field.
    let r = resolve(CurveName::Pallas, Z0Values::ONE, Z0Values::ZERO);
    match r.z0_primary_value {
        Z0Scalar::Pallas(v) => assert_eq!(v, pasta_curves::Fq::ONE),
        Z0Scalar::Vesta(_) => panic!("primary value must live in the Pallas scalar field"),
    }
    match r.z0_secondary_value {
        Z0Scalar::Vesta(v) => assert_eq!(v, pasta_curves::Fp::ZERO),
        Z0Scalar::Pallas(_) => panic!("secondary value must live in the Vesta scalar field"),
    }

    // roles swapped: the same tags now select constants of the other fields.
    let s = resolve(CurveName::Vesta, Z0Values::ZERO, Z0Values::ONE);
    match s.z0_primary_value {
        Z0Scalar::Vesta(v) => assert_eq!(v, pasta_curves::Fp::ZERO),
        Z0Scalar::Pallas(_) => panic!("primary value must live in the Vesta scalar field"),
    }
    match s.z0_secondary_value {
        Z0Scalar::Pallas(v) => assert_eq!(v, pasta_curves::Fq::ONE),
        Z0Scalar::Vesta(_) => panic!("secondary value must live in the Pallas scalar field"),
    }
}

#[test]
fn z0_constants_are_the_two_supported_values() {
    let e = CurveEngine::Pallas;
    let zero = match e.z0_scalar(Z0Values::ZERO) {
        Z0Scalar::Pallas(v) => v,
        Z0Scalar::Vesta(_) => panic!("wrong field"),
    };
    let one = match e.z0_scalar(Z0Values::ONE) {
        Z0Scalar::Pallas(v) => v,
        Z0Scalar::Vesta(_) => panic!("wrong field"),
    };
    assert_eq!(zero, pasta_curves::Fq::ZERO);
    assert_eq!(one, pasta_curves::Fq::ONE);
    assert_ne!(zero, one);
}

#[test]
fn prepare_verification_builds_a_job() {
    let p = Pubs {
        first_curve: CurveName::Vesta,
        num_of_steps: 5,
        z0_primary: Z0Values::ZERO,
        z0_secondary: Z0Values::ONE,
    };
    let bytes = encode_pubs(&p);
    let job = prepare_verification(&bytes).expect("a valid blob must prepare");
    assert_eq!(job.num_of_steps, 5);
    assert_eq!(job.resolution.primary, CurveEngine::Vesta);
    assert_eq!(job.resolution.secondary, CurveEngine::Pallas);
    assert_eq!(job.resolution.z0_primary_tag, Z0Values::ZERO);
    assert_eq!(job.resolution.z0_secondary_tag, Z0Values::ONE);
    match job.ck_primary {
        GeneratorSet::Vesta(points) => assert_eq!(points.len(), 16),
        GeneratorSet::Pallas(_) => panic!("primary key material must be for Vesta"),
    }
    match job.ck_secondary {
        GeneratorSet::Pallas(points) => assert_eq!(points.len(), 16),
        GeneratorSet::Vesta(_) => panic!("secondary key material must be for Pallas"),
    }
}

#[test]
fn prepare_verification_rejects_bad_pubs() {
    let bytes = vec![9, 9, 9];
    assert!(matches!(
        prepare_verification(&bytes),
        Err(NovaVerifierError::Deserialize(DeserializeError::InvalidPubs))
    ));
}

#[test]
fn prepare_verification_rejects_zero_steps() {
    // tag Pallas, zero steps, both z0 tags ZERO: the codec must refuse it, so
    // a zero step count can never reach the engine.
    let bytes = vec![0, 0, 0, 0];
    assert!(matches!(
        prepare_verification(&bytes),
        Err(NovaVerifierError::Deserialize(DeserializeError::InvalidPubs))
    ));
}

#[test]
fn decode_failure_attribution_orders_key_first() {
    // The pipeline decodes the key before the proof, so when both blobs are
    // undecodable the key's error kind wins.
    assert_eq!(attribute_decode_failure(false, false), Some(EngineOutcome::VkRejected));
    assert_eq!(attribute_decode_failure(false, true), Some(EngineOutcome::VkRejected));
    assert_eq!(attribute_decode_failure(true, false), Some(EngineOutcome::ProofRejected));
    assert_eq!(attribute_decode_failure(true, true), None);
}

#[test]
fn conclude_maps_every_outcome_distinctly() {
    assert!(conclude_verification(EngineOutcome::Accepted).is_ok());
    assert!(matches!(
        conclude_verification(EngineOutcome::VkRejected),
        Err(NovaVerifierError::Deserialize(DeserializeError::InvalidVerifyingKey))
    ));
    assert!(matches!(
        conclude_verification(EngineOutcome::ProofRejected),
        Err(NovaVerifierError::Deserialize(DeserializeError::InvalidProof))
    ));
    match conclude_verification(EngineOutcome::Rejected(String::from("proof check failed"))) {
        Err(NovaVerifierError::Nova(f)) => assert_eq!(f.detail, "proof check failed"),
        _ => panic!("an engine rejection must surface as an engine error"),
    }
}
