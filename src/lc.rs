use vstd::prelude::*;

use crate::variable::Variable;

verus! {

/// A weighted sum of variables: the terms `(variable, coefficient)` in the
/// order in which they were added. A variable named by several terms weighs
/// the sum of their coefficients.
pub struct LinearCombination<S> {
    terms: Vec<(Variable, S)>,
}

impl<S> View for LinearCombination<S> {
    type V = Seq<(Variable, S)>;

    closed spec fn view(&self) -> Seq<(Variable, S)> {
        self.terms@
    }
}

impl<S> LinearCombination<S> {
    /// The empty combination, which evaluates to zero.
    pub fn zero() -> (r: Self)
        ensures
            r@ == Seq::<(Variable, S)>::empty(),
    {
        LinearCombination { terms: Vec::new() }
    }

    /// The combination with one more term, `coeff * var`, at its end.
    pub fn add_term(self, var: Variable, coeff: S) -> (r: Self)
        ensures
            r@ == self@.push((var, coeff)),
    {
        let mut terms = self.terms;
        terms.push((var, coeff));
        LinearCombination { terms }
    }

    /// The number of terms.
    pub fn len(&self) -> (r: usize)
        ensures
            r == self@.len(),
    {
        self.terms.len()
    }
}

} // verus!
