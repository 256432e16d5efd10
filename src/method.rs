use vstd::prelude::*;

verus! {

/// Acceptance and coupling functions of coupled simulated annealing.
#[allow(non_camel_case_types)]
#[derive(Clone, Copy, Debug, PartialEq, Eq, Structural)]
pub enum CoupledSAMethods {
    CSA_MuSA,
    CSA_BA,
    CSA_M,
}

impl CoupledSAMethods {
    /// Sign of the exponent of the coupling term: `exp(sign * E / T)`.
    pub open spec fn coupling_sign_spec(self) -> int {
        match self {
            CoupledSAMethods::CSA_M => 1,
            _ => -1,
        }
    }

    /// Returns -1 for MuSA and BA, whose coupling term is `exp(-E/T)`, and
    /// +1 for M, whose coupling term is `exp(E/T)`.
    pub fn coupling_sign(&self) -> (r: i8)
        ensures
            r as int == self.coupling_sign_spec(),
    {
        match self {
            CoupledSAMethods::CSA_M => 1,
            _ => -1,
        }
    }
}

} // verus!
