use vstd::prelude::*;

verus! {

/// Decode-time failures: the offending blob could not even be parsed.  Each
/// of the three untrusted inputs has its own kind, so callers can tell which
/// artifact to request again.
#[derive(Clone, Copy, Debug, PartialEq, Eq, Structural)]
pub enum DeserializeError {
    InvalidProof,
    InvalidPubs,
    InvalidVerifyingKey,
}

/// Detail reported by the cryptographic engine when it rejects a structurally
/// valid proof; kept verbatim for diagnostics.
#[derive(Clone, Debug, PartialEq, Eq)]
pub struct EngineFailure {
    pub detail: String,
}

/// Every failure mode of the verification pipeline.
///
/// Decode errors never become engine errors and vice versa: `Deserialize`
/// means a blob could not be parsed, `Nova` means the engine rejected a
/// structurally valid proof, and `InvalidKeyMaterial` means the baked-in
/// generator table failed to materialise (construction aborts instead of
/// silently dropping a malformed entry).
#[derive(Clone, Debug, PartialEq, Eq)]
pub enum NovaVerifierError {
    Deserialize(DeserializeError),
    Nova(EngineFailure),
    InvalidKeyMaterial,
}

} // verus!
