//! Dual-curve dispatcher.
//!
//! From the decoded public inputs the dispatcher picks which engine plays the
//! primary and which the secondary role, and draws the initial step values
//! for each role from the declared tags.  The mapping is pure and total: both
//! tags range over two-valued enums, so there is no error path.

use vstd::prelude::*;

use crate::curve::{engine_for, CurveEngine, Z0Scalar};
use crate::pubs::{CurveName, Z0Values};

verus! {

/// The curve that plays the other role of the cycle.
pub open spec fn partner(c: CurveName) -> CurveName {
    match c {
        CurveName::Pallas => CurveName::Vesta,
        CurveName::Vesta => CurveName::Pallas,
    }
}

/// The dispatcher's answer: engine roles, the tags that were declared for
/// them, and the field constants those tags select in each engine's scalar
/// field.
pub struct Resolution {
    pub primary: CurveEngine,
    pub secondary: CurveEngine,
    pub z0_primary_tag: Z0Values,
    pub z0_secondary_tag: Z0Values,
    pub z0_primary_value: Z0Scalar,
    pub z0_secondary_value: Z0Scalar,
}

impl Resolution {
    /// The two roles are served by the two distinct curves and each initial
    /// value lives in the scalar field of the engine it is meant for.
    pub open spec fn wf(self) -> bool {
        &&& self.secondary.curve() == partner(self.primary.curve())
        &&& (self.z0_primary_value is Pallas <==> self.primary is Pallas)
        &&& (self.z0_secondary_value is Pallas <==> self.secondary is Pallas)
    }
}

/// Resolves the declared first curve to the (primary, secondary) engine pair
/// and draws one field constant per role from the declared tags.
pub fn resolve(first_curve: CurveName, z0_primary: Z0Values, z0_secondary: Z0Values) -> (r:
    Resolution)
    ensures
        r.wf(),
        r.primary == engine_for(first_curve),
        r.secondary == engine_for(partner(first_curve)),
        r.z0_primary_tag == z0_primary,
        r.z0_secondary_tag == z0_secondary,
        r.z0_primary_value == engine_for(first_curve).spec_z0_scalar(z0_primary),
        r.z0_secondary_value == engine_for(partner(first_curve)).spec_z0_scalar(z0_secondary),
{
    let primary = match first_curve {
        CurveName::Pallas => CurveEngine::Pallas,
        CurveName::Vesta => CurveEngine::Vesta,
    };
    let secondary = match first_curve {
        CurveName::Pallas => CurveEngine::Vesta,
        CurveName::Vesta => CurveEngine::Pallas,
    };
    let z0_primary_value = primary.z0_scalar(z0_primary);
    let z0_secondary_value = secondary.z0_scalar(z0_secondary);
    Resolution {
        primary,
        secondary,
        z0_primary_tag: z0_primary,
        z0_secondary_tag: z0_secondary,
        z0_primary_value,
        z0_secondary_value,
    }
}

} // verus!
