//! Verification pipeline.
//!
//! The pipeline decodes the public inputs, resolves the curve roles, and
//! materialises the trusted generators before any cryptographic work begins;
//! a decode failure aborts immediately, so no further bytes are touched.
//! The cryptographic engine itself is an external collaborator: the driver
//! that runs it hands its outcome back, and the pipeline alone decides what
//! every outcome means.  Decode errors and engine rejections are never
//! conflated: only an accepted outcome yields success.

use vstd::prelude::*;

use crate::codec::{deserialize_pubs, spec_decode_pubs};
use crate::curve::engine_for;
use crate::dispatch::{partner, resolve, Resolution};
use crate::errors::{DeserializeError, EngineFailure, NovaVerifierError};
use crate::store::{pallas_table_ok, vesta_table_ok, GeneratorSet};

verus! {

/// Everything the engine needs for one verification call: the resolved
/// roles and initial values, the declared step count, and the trusted
/// generator sequences that overwrite whatever generators the untrusted key
/// bytes carried.
pub struct VerificationJob {
    pub resolution: Resolution,
    pub num_of_steps: usize,
    pub ck_primary: GeneratorSet,
    pub ck_secondary: GeneratorSet,
}

impl VerificationJob {
    /// A job is well formed when it demands at least one recursive step, its
    /// roles are consistent, and each trusted generator sequence belongs to
    /// the curve of the role it patches.
    pub open spec fn wf(self) -> bool {
        &&& self.num_of_steps >= 1
        &&& self.resolution.wf()
        &&& (self.ck_primary is Pallas <==> self.resolution.primary is Pallas)
        &&& (self.ck_secondary is Pallas <==> self.resolution.secondary is Pallas)
        &&& self.ck_primary.point_count() == 16
        &&& self.ck_secondary.point_count() == 16
    }
}

/// Decodes the public inputs, resolves the curve ordering, and materialises
/// the trusted key material.
///
/// A blob that does not decode is reported as `InvalidPubs` and nothing else
/// is touched; in particular a declared step count of zero never reaches the
/// engine, because the codec already rejects it.  On every decodable blob the
/// call succeeds if and only if both fixed generator tables are valid, and
/// the job then carries exactly their in-order point decodings, assigned to
/// the roles the declared first curve resolves to.
pub fn prepare_verification(pubs_bytes: &Vec<u8>) -> (r: Result<VerificationJob, NovaVerifierError>)
    ensures
        match spec_decode_pubs(pubs_bytes@) {
            None => r == Err::<VerificationJob, NovaVerifierError>(
                NovaVerifierError::Deserialize(DeserializeError::InvalidPubs),
            ),
            Some(p) => {
                let primary = engine_for(p.first_curve);
                let secondary = engine_for(partner(p.first_curve));
                match r {
                    Ok(job) => {
                        &&& pallas_table_ok() && vesta_table_ok()
                        &&& job.wf()
                        &&& job.num_of_steps == p.num_of_steps
                        &&& job.resolution.primary == primary
                        &&& job.resolution.secondary == secondary
                        &&& job.resolution.z0_primary_tag == p.z0_primary
                        &&& job.resolution.z0_secondary_tag == p.z0_secondary
                        &&& job.resolution.z0_primary_value == primary.spec_z0_scalar(p.z0_primary)
                        &&& job.resolution.z0_secondary_value == secondary.spec_z0_scalar(
                            p.z0_secondary,
                        )
                        &&& job.ck_primary.is_table_for(primary)
                        &&& job.ck_secondary.is_table_for(secondary)
                    },
                    Err(e) => e == NovaVerifierError::InvalidKeyMaterial && !(pallas_table_ok()
                        && vesta_table_ok()),
                }
            },
        },
{
    let pubs = match deserialize_pubs(pubs_bytes) {
        Ok(p) => p,
        Err(_) => {
            return Err(NovaVerifierError::Deserialize(DeserializeError::InvalidPubs));
        },
    };
    let resolution = resolve(pubs.first_curve, pubs.z0_primary, pubs.z0_secondary);
    let ck_primary = match resolution.primary.generators() {
        Some(g) => g,
        None => {
            return Err(NovaVerifierError::InvalidKeyMaterial);
        },
    };
    let ck_secondary = match resolution.secondary.generators() {
        Some(g) => g,
        None => {
            return Err(NovaVerifierError::InvalidKeyMaterial);
        },
    };
    Ok(VerificationJob { resolution, num_of_steps: pubs.num_of_steps, ck_primary, ck_secondary })
}

/// What the driver of the engine observed for a prepared job, in the order
/// the pipeline demands: the key is decoded first, the proof second, and the
/// engine runs last.
#[derive(Clone, Debug, PartialEq, Eq)]
pub enum EngineOutcome {
    /// The key bytes did not decode to a key for the resolved curve pair.
    VkRejected,
    /// The proof bytes did not decode to a proof for the resolved curve pair.
    ProofRejected,
    /// The engine accepted the proof.
    Accepted,
    /// The engine rejected a structurally valid proof; its own error detail.
    Rejected(String),
}

/// Attributes a run in which a blob failed to decode: the pipeline decodes
/// the key before the proof, so when both blobs are undecodable the key's
/// error kind wins.  `None` means both blobs decoded and the engine's answer
/// decides.
pub fn attribute_decode_failure(vk_decoded: bool, proof_decoded: bool) -> (r: Option<EngineOutcome>)
    ensures
        !vk_decoded ==> r == Some(EngineOutcome::VkRejected),
        vk_decoded && !proof_decoded ==> r == Some(EngineOutcome::ProofRejected),
        r is None <==> vk_decoded && proof_decoded,
{
    if !vk_decoded {
        Some(EngineOutcome::VkRejected)
    } else if !proof_decoded {
        Some(EngineOutcome::ProofRejected)
    } else {
        None
    }
}

/// Maps the driver's outcome to the pipeline's answer.  Success is returned
/// exactly for an accepted proof; each decode failure keeps its own kind, and
/// an engine rejection wraps the engine's detail, never conflated with the
/// decode kinds.
pub fn conclude_verification(outcome: EngineOutcome) -> (r: Result<(), NovaVerifierError>)
    ensures
        r is Ok <==> outcome is Accepted,
        outcome is VkRejected ==> r == Err::<(), NovaVerifierError>(
            NovaVerifierError::Deserialize(DeserializeError::InvalidVerifyingKey),
        ),
        outcome is ProofRejected ==> r == Err::<(), NovaVerifierError>(
            NovaVerifierError::Deserialize(DeserializeError::InvalidProof),
        ),
        outcome matches EngineOutcome::Rejected(d) ==> r matches Err(e) && e matches
            NovaVerifierError::Nova(f) && f.detail == d,
{
    match outcome {
        EngineOutcome::VkRejected => Err(
            NovaVerifierError::Deserialize(DeserializeError::InvalidVerifyingKey),
        ),
        EngineOutcome::ProofRejected => Err(
            NovaVerifierError::Deserialize(DeserializeError::InvalidProof),
        ),
        EngineOutcome::Accepted => Ok(()),
        EngineOutcome::Rejected(detail) => Err(
            NovaVerifierError::Nova(EngineFailure { detail }),
        ),
    }
}

} // verus!
