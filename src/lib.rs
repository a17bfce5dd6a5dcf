//! A backend-independent interface for building and populating rank-1
//! constraint systems, with a witness-generating backend.

pub mod dynamic;
pub mod error;
pub mod lc;
pub mod variable;
pub mod witness;

pub use dynamic::DynamicCS;
pub use error::SynthesisError;
pub use lc::LinearCombination;
pub use variable::{Index, Variable};
pub use witness::WitnessCS;
