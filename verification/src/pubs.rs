use vstd::prelude::*;

verus! {

/// Which curve of the Pallas/Vesta cycle is declared first, i.e. plays the
/// primary role for this proof instance.
#[derive(Clone, Copy, Debug, PartialEq, Eq, Structural)]
pub enum CurveName {
    Pallas,
    Vesta,
}

/// The only two initial step-function input values the system supports; each
/// selects a field-element constant per curve at dispatch time.
#[derive(Clone, Copy, Debug, PartialEq, Eq, Structural)]
#[allow(non_camel_case_types)]
pub enum Z0Values {
    ZERO,
    ONE,
}

/// The public inputs of a proof instance, decoded from an untrusted blob.
#[derive(Clone, Copy, Debug, PartialEq, Eq, Structural)]
pub struct Pubs {
    pub first_curve: CurveName,
    pub num_of_steps: usize,
    pub z0_primary: Z0Values,
    pub z0_secondary: Z0Values,
}

impl Pubs {
    /// A folding scheme needs at least one recursive step; a step count of
    /// zero is semantically invalid and must never reach the engine.
    pub open spec fn wf(self) -> bool {
        self.num_of_steps >= 1
    }
}

} // verus!
