use vstd::prelude::*;

verus! {

/// Why a circuit could not be synthesized.
#[derive(Clone, Copy, Debug, PartialEq, Eq, Structural)]
pub enum SynthesisError {
    /// A value needed to build the assignment was not available.
    AssignmentMissing,
    /// A division by zero was attempted while computing the assignment.
    DivisionByZero,
    /// The assignment does not satisfy the constraint system.
    Unsatisfiable,
    /// The backend accepts no further variables of the requested kind.
    AllocationRejected,
}

} // verus!
