//! Surface materials.

use crate::color::Color;
use vstd::prelude::*;
use vstd::std_specs::cmp::PartialEqSpec;

verus! {

/// What a surface is made of: for now only its base colour.
#[derive(Debug, Clone)]
pub struct Material {
    pub albedo: Color,
}

impl PartialEq for Material {
    fn eq(&self, other: &Self) -> (equal: bool) {
        self.albedo == other.albedo
    }
}

impl vstd::std_specs::cmp::PartialEqSpecImpl for Material {
    open spec fn obeys_eq_spec() -> bool {
        true
    }

    /// Two materials are equal exactly when their albedos are.
    open spec fn eq_spec(&self, other: &Material) -> bool {
        self.albedo == other.albedo
    }
}

impl Eq for Material {

}

/// Two materials are equal exactly when their albedos agree on all four
/// channels.
pub proof fn lemma_material_eq_by_channels(a: Material, b: Material)
    ensures
        a.eq_spec(&b) <==> a.albedo.eq_spec(&b.albedo),
        a.eq_spec(&b) <==> a == b,
{
}

} // verus!
