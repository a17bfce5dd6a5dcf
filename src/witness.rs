use vstd::prelude::*;

use crate::dynamic::DynamicCS;
use crate::error::SynthesisError;
use crate::lc::LinearCombination;
use crate::variable::{Index, Variable};

verus! {

/// A witness generator: it keeps no constraints, only the value of every
/// input and auxiliary variable, in allocation order. Input 0 holds the
/// field's one; reserved slots start out holding the field's zero.
pub struct WitnessCS<S> {
    input_assignment: Vec<S>,
    aux_assignment: Vec<S>,
    zero: S,
}

impl<S: Copy + Send> WitnessCS<S> {
    /// Each namespace counts the values it holds, and accepts another
    /// variable exactly while the next index fits in `usize`.
    pub proof fn lemma_counts(&self)
        ensures
            self.num_aux() == self.aux_view().len(),
            self.num_inputs() == self.inputs_view().len(),
            self.accepts_aux() <==> self.aux_view().len() < usize::MAX,
            self.accepts_input() <==> self.inputs_view().len() < usize::MAX,
            self.inv() <==> self.inputs_view().len() >= 1,
    {
    }

    /// An empty witness: the input vector holds only `one`, the value of the
    /// constant-one variable; reserved slots will be filled with `zero`.
    pub fn with_constants(one: S, zero: S) -> (r: Self)
        ensures
            r.inputs_view() == seq![one],
            r.aux_view() == Seq::<S>::empty(),
            r.empty_value() == zero,
            r.accepts_aux(),
            r.accepts_input(),
            r.inv(),
    {
        let mut input_assignment: Vec<S> = Vec::new();
        input_assignment.push(one);
        WitnessCS { input_assignment, aux_assignment: Vec::new(), zero }
    }

    /// Appends `n` copies of the fill value to `v`.
    fn grow(v: &mut Vec<S>, n: usize, fill: S)
        requires
            old(v)@.len() + n <= usize::MAX,
        ensures
            final(v)@ == old(v)@ + Seq::new(n as nat, |_i: int| fill),
    {
        let ghost start = v@;
        let mut k: usize = 0;
        while k < n
            invariant
                k <= n,
                start.len() + n <= usize::MAX,
                v@ == start + Seq::new(k as nat, |_i: int| fill),
            decreases n - k,
        {
            v.push(fill);
            k = k + 1;
            assert(v@ =~= start + Seq::new(k as nat, |_i: int| fill));
        }
    }

    /// Appends the values of `new` to `v`.
    fn append_values(v: &mut Vec<S>, new: &[S])
        requires
            old(v)@.len() + new@.len() <= usize::MAX,
        ensures
            final(v)@ == old(v)@ + new@,
    {
        let ghost start = v@;
        let mut k: usize = 0;
        while k < new.len()
            invariant
                k <= new@.len(),
                start.len() + new@.len() <= usize::MAX,
                v@ == start + new@.subrange(0, k as int),
            decreases new@.len() - k,
        {
            v.push(new[k]);
            k = k + 1;
            assert(v@ =~= start + new@.subrange(0, k as int));
        }
        assert(new@.subrange(0, new@.len() as int) =~= new@);
    }

    /// The part of `v` from position `from` on, for writing.
    fn tail_mut(v: &mut Vec<S>, from: usize) -> (r: &mut [S])
        requires
            from <= old(v)@.len(),
        ensures
            r@ == old(v)@.subrange(from as int, old(v)@.len() as int),
            final(v)@ == old(v)@.subrange(0, from as int) + final(r)@,
    {
        let s = v.as_mut_slice();
        let (_head, tail) = s.split_at_mut(from);
        tail
    }
}

impl<S: Copy + Send> DynamicCS<S> for WitnessCS<S> {
    /// A witness records no constraints.
    closed spec fn constraints(&self) -> Seq<
        (Seq<(Variable, S)>, Seq<(Variable, S)>, Seq<(Variable, S)>),
    > {
        Seq::empty()
    }

    /// Reserved slots start out holding the field's zero.
    closed spec fn empty_value(&self) -> S {
        self.zero
    }

    closed spec fn inv(&self) -> bool {
        self.input_assignment@.len() >= 1
    }

    closed spec fn num_inputs(&self) -> nat {
        self.input_assignment@.len()
    }

    closed spec fn num_aux(&self) -> nat {
        self.aux_assignment@.len()
    }

    closed spec fn inputs_view(&self) -> Seq<S> {
        self.input_assignment@
    }

    closed spec fn aux_view(&self) -> Seq<S> {
        self.aux_assignment@
    }

    /// Auxiliary variables are accepted while their indices fit in `usize`.
    closed spec fn accepts_aux(&self) -> bool {
        self.aux_assignment@.len() < usize::MAX
    }

    /// Input variables are accepted while their indices fit in `usize`.
    closed spec fn accepts_input(&self) -> bool {
        self.input_assignment@.len() < usize::MAX
    }

    open spec fn extensible() -> bool {
        false
    }

    open spec fn witness_generator() -> bool {
        true
    }

    proof fn lemma_inv(&self) {
    }

    /// Not offered: a witness needs its field's one and zero, which
    /// `with_constants` takes.
    fn new() -> (r: Self) {
        vstd::pervasive::unreached()
    }

    fn alloc_strict<A: FnOnce() -> String>(&mut self, annotation: A, value: S) -> (r: Result<
        Variable,
        SynthesisError,
    >) {
        let i = self.aux_assignment.len();
        if i == usize::MAX {
            return Err(SynthesisError::AllocationRejected);
        }
        self.aux_assignment.push(value);
        Ok(Variable::new_unchecked(Index::Aux(i)))
    }

    fn alloc_input_strict<A: FnOnce() -> String>(&mut self, annotation: A, value: S) -> (r:
        Result<Variable, SynthesisError>) {
        let i = self.input_assignment.len();
        if i == usize::MAX {
            return Err(SynthesisError::AllocationRejected);
        }
        self.input_assignment.push(value);
        Ok(Variable::new_unchecked(Index::Input(i)))
    }

    fn enforce<A, LA, LB, LC>(&mut self, annotation: A, a: LA, b: LB, c: LC)
        where
            A: FnOnce() -> String,
            LA: FnOnce(LinearCombination<S>) -> LinearCombination<S>,
            LB: FnOnce(LinearCombination<S>) -> LinearCombination<S>,
            LC: FnOnce(LinearCombination<S>) -> LinearCombination<S>,
    {
        // The sides are built as the interface asks, and then dropped: a
        // witness keeps no constraints.
        let _a = a(LinearCombination::zero());
        let _b = b(LinearCombination::zero());
        let _c = c(LinearCombination::zero());
    }

    fn is_extensible(&self) -> (r: bool) {
        false
    }

    fn is_witness_generator(&self) -> (r: bool) {
        true
    }

    fn extend_inputs(&mut self, new_inputs: &[S]) {
        Self::append_values(&mut self.input_assignment, new_inputs);
    }

    fn extend_aux(&mut self, new_aux: &[S]) {
        Self::append_values(&mut self.aux_assignment, new_aux);
    }

    fn allocate_empty(&mut self, aux_n: usize, inputs_n: usize) -> (r: (&mut [S], &mut [S])) {
        let aux_from = self.aux_assignment.len();
        let inputs_from = self.input_assignment.len();
        Self::grow(&mut self.aux_assignment, aux_n, self.zero);
        Self::grow(&mut self.input_assignment, inputs_n, self.zero);
        let aux = Self::tail_mut(&mut self.aux_assignment, aux_from);
        let inputs = Self::tail_mut(&mut self.input_assignment, inputs_from);
        (aux, inputs)
    }

    fn allocate_empty_inputs(&mut self, n: usize) -> (r: &mut [S]) {
        let from = self.input_assignment.len();
        Self::grow(&mut self.input_assignment, n, self.zero);
        Self::tail_mut(&mut self.input_assignment, from)
    }

    fn allocate_empty_aux(&mut self, n: usize) -> (r: &mut [S]) {
        let from = self.aux_assignment.len();
        Self::grow(&mut self.aux_assignment, n, self.zero);
        Self::tail_mut(&mut self.aux_assignment, from)
    }

    fn inputs_slice(&self) -> (r: &[S]) {
        self.input_assignment.as_slice()
    }

    fn aux_slice(&self) -> (r: &[S]) {
        self.aux_assignment.as_slice()
    }
}


} // verus!
