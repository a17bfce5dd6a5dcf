use vstd::prelude::*;

use crate::error::SynthesisError;
use crate::lc::LinearCombination;
use crate::variable::{Index, Variable};

verus! {

/// What an allocation in one namespace does to that namespace's count of
/// variables: on success the new variable takes the next index (`Aux` when
/// `aux` holds, `Input` otherwise) and the count grows by one; on failure the
/// count stays.
pub open spec fn alloc_outcome(
    r: Result<Variable, SynthesisError>,
    aux: bool,
    before: nat,
    after: nat,
) -> bool {
    match r {
        Ok(v) => {
            &&& (if aux { v.index().is_aux_at(before) } else { v.index().is_input_at(before) })
            &&& after == before + 1
        },
        Err(_) => after == before,
    }
}

/// Two auxiliary allocations in a row, with nothing between them, return
/// the indices `i` and `i + 1`.
pub proof fn lemma_aux_indices_consecutive(
    v1: Variable,
    before1: nat,
    after1: nat,
    v2: Variable,
    after2: nat,
)
    requires
        alloc_outcome(Ok(v1), true, before1, after1),
        alloc_outcome(Ok(v2), true, after1, after2),
    ensures
        v1.index().is_aux_at(before1),
        v2.index().is_aux_at(before1 + 1),
{
}

/// Every call of `one` on a backend gives the same variable, and it is the
/// variable that wraps input index 0.
pub proof fn lemma_one_is_input_zero(a: Variable, b: Variable, z: Variable)
    requires
        a.index() == Index::Input(0),
        b.index() == Index::Input(0),
        z.index() == Index::Input(0),
    ensures
        a == b,
        a == z,
{
    Variable::lemma_index_determines(a, b);
    Variable::lemma_index_determines(a, z);
}

/// Over any run of successful auxiliary allocations on one instance, in call
/// order, where whatever ran between two of them did not shrink the auxiliary
/// namespace: the returned variables are auxiliary, their indices strictly
/// increase, they are pairwise distinct, and none is the constant one.
/// `vs[k]` is the k-th variable returned, `before[k]` and `after[k]` the
/// auxiliary counts around that call.
pub proof fn lemma_aux_run_increasing(vs: Seq<Variable>, before: Seq<nat>, after: Seq<nat>)
    requires
        before.len() == vs.len(),
        after.len() == vs.len(),
        forall|k: int| 0 <= k < vs.len() ==> alloc_outcome(Ok(#[trigger] vs[k]), true, before[k], after[k]),
        forall|k: int| 0 <= k < vs.len() - 1 ==> #[trigger] after[k] <= before[k + 1],
    ensures
        forall|k: int| 0 <= k < vs.len() ==> (#[trigger] vs[k]).index() is Aux,
        forall|k: int| 0 <= k < vs.len() ==> (#[trigger] vs[k]).index() != Index::Input(0),
        forall|k: int, l: int|
            0 <= k < l < vs.len() ==> (#[trigger] vs[k]).index().position() < (#[trigger] vs[l]).index().position(),
        forall|k: int, l: int| 0 <= k < l < vs.len() ==> #[trigger] vs[k] != #[trigger] vs[l],
{
    assert forall|j: int| 0 <= j < vs.len() implies #[trigger] after[j] == before[j] + 1 by {
        assert(alloc_outcome(Ok(vs[j]), true, before[j], after[j]));
    }
    assert forall|k: int, l: int| 0 <= k < l < vs.len() implies (#[trigger] vs[k]).index().position()
        < (#[trigger] vs[l]).index().position() by {
        lemma_counts_increase(before, after, k, l);
        assert(alloc_outcome(Ok(vs[k]), true, before[k], after[k]));
        assert(alloc_outcome(Ok(vs[l]), true, before[l], after[l]));
    }
    assert forall|k: int, l: int| 0 <= k < l < vs.len() implies #[trigger] vs[k] != #[trigger] vs[l] by {
        lemma_counts_increase(before, after, k, l);
        assert(alloc_outcome(Ok(vs[k]), true, before[k], after[k]));
        assert(alloc_outcome(Ok(vs[l]), true, before[l], after[l]));
    }
    assert forall|k: int| 0 <= k < vs.len() implies (#[trigger] vs[k]).index() != Index::Input(0) by {
        assert(alloc_outcome(Ok(vs[k]), true, before[k], after[k]));
    }
}

/// Over any run of successful input allocations on one instance that held
/// the constant one before the first, in call order, where whatever ran
/// between two of them did not shrink the input namespace: the returned
/// variables are inputs, their indices strictly increase, they are pairwise
/// distinct, and none takes the reserved index 0.
pub proof fn lemma_input_run_increasing(vs: Seq<Variable>, before: Seq<nat>, after: Seq<nat>)
    requires
        before.len() == vs.len(),
        after.len() == vs.len(),
        vs.len() > 0 ==> before[0] >= 1,
        forall|k: int| 0 <= k < vs.len() ==> alloc_outcome(Ok(#[trigger] vs[k]), false, before[k], after[k]),
        forall|k: int| 0 <= k < vs.len() - 1 ==> #[trigger] after[k] <= before[k + 1],
    ensures
        forall|k: int| 0 <= k < vs.len() ==> (#[trigger] vs[k]).index() is Input,
        forall|k: int| 0 <= k < vs.len() ==> (#[trigger] vs[k]).index().position() >= 1,
        forall|k: int, l: int|
            0 <= k < l < vs.len() ==> (#[trigger] vs[k]).index().position() < (#[trigger] vs[l]).index().position(),
        forall|k: int, l: int| 0 <= k < l < vs.len() ==> #[trigger] vs[k] != #[trigger] vs[l],
{
    assert forall|j: int| 0 <= j < vs.len() implies #[trigger] after[j] == before[j] + 1 by {
        assert(alloc_outcome(Ok(vs[j]), false, before[j], after[j]));
    }
    assert forall|k: int, l: int| 0 <= k < l < vs.len() implies (#[trigger] vs[k]).index().position()
        < (#[trigger] vs[l]).index().position() by {
        lemma_counts_increase(before, after, k, l);
        assert(alloc_outcome(Ok(vs[k]), false, before[k], after[k]));
        assert(alloc_outcome(Ok(vs[l]), false, before[l], after[l]));
    }
    assert forall|k: int, l: int| 0 <= k < l < vs.len() implies #[trigger] vs[k] != #[trigger] vs[l] by {
        lemma_counts_increase(before, after, k, l);
        assert(alloc_outcome(Ok(vs[k]), false, before[k], after[k]));
        assert(alloc_outcome(Ok(vs[l]), false, before[l], after[l]));
    }
    assert forall|k: int| 0 <= k < vs.len() implies (#[trigger] vs[k]).index().position() >= 1 by {
        assert(alloc_outcome(Ok(vs[k]), false, before[k], after[k]));
        if k > 0 {
            lemma_counts_increase(before, after, 0, k);
        }
    }
}

/// Counts that grow by one at each allocation and never shrink between them
/// strictly increase from one allocation to any later one.
proof fn lemma_counts_increase(before: Seq<nat>, after: Seq<nat>, k: int, l: int)
    requires
        before.len() == after.len(),
        0 <= k < l < before.len(),
        forall|j: int| 0 <= j < before.len() ==> #[trigger] after[j] == before[j] + 1,
        forall|j: int| 0 <= j < before.len() - 1 ==> #[trigger] after[j] <= before[j + 1],
    ensures
        before[k] < before[l],
    decreases l - k,
{
    assert(after[l - 1] <= before[l]);
    if k < l - 1 {
        lemma_counts_increase(before, after, k, l - 1);
    }
}

/// Values written into slots reserved at the end of the auxiliary vector are
/// its last values: after a reservation whose slots end up holding `written`,
/// the auxiliary vector ends with `written`.
pub proof fn lemma_reserved_values_end_aux<S, CS: DynamicCS<S>>(
    before: CS,
    after: CS,
    written: Seq<S>,
)
    requires
        after.aux_view() == before.aux_view() + written,
    ensures
        after.aux_view().len() >= written.len(),
        after.aux_view().subrange(
            after.aux_view().len() - written.len(),
            after.aux_view().len() as int,
        ) == written,
{
    assert(after.aux_view().subrange(
        after.aux_view().len() - written.len(),
        after.aux_view().len() as int,
    ) =~= written);
}

/// The transform can be applied to an empty combination.
pub open spec fn accepts_empty<S, F: FnOnce(LinearCombination<S>) -> LinearCombination<S>>(
    f: F,
) -> bool {
    forall|l: LinearCombination<S>| l@.len() == 0 ==> #[trigger] f.requires((l,))
}

/// The operations that circuit code calls on a constraint system, whatever
/// backend stores it.
///
/// A backend tells its capabilities through two flags fixed by its type:
/// extensible backends can be created empty and grown without bound;
/// witness generators keep no constraints, only the values of the variables,
/// and offer direct access to those value vectors.
pub trait DynamicCS<S>: Send + Sized {
    /// The backend's invariant.
    spec fn inv(&self) -> bool;

    /// How many input variables exist, the constant one included.
    spec fn num_inputs(&self) -> nat;

    /// How many auxiliary variables exist.
    spec fn num_aux(&self) -> nat;

    /// The input values held by a witness generator.
    spec fn inputs_view(&self) -> Seq<S>;

    /// The auxiliary values held by a witness generator.
    spec fn aux_view(&self) -> Seq<S>;

    /// The constraints recorded so far, in order, each as the terms of its
    /// three sides `(A, B, C)`. A witness generator records none.
    spec fn constraints(&self) -> Seq<(Seq<(Variable, S)>, Seq<(Variable, S)>, Seq<(Variable, S)>)>;

    /// What a slot reserved by `allocate_empty` and its variants holds until
    /// the caller writes it.
    spec fn empty_value(&self) -> S;

    /// Whether the backend accepts one more auxiliary variable.
    spec fn accepts_aux(&self) -> bool;

    /// Whether the backend accepts one more input variable.
    spec fn accepts_input(&self) -> bool;

    /// Whether the backend type is extensible.
    spec fn extensible() -> bool;

    /// Whether the backend type is a witness generator.
    spec fn witness_generator() -> bool;

    /// Input index 0 always stands for the constant one; a witness generator
    /// holds one value for each variable.
    proof fn lemma_inv(&self)
        requires
            self.inv(),
        ensures
            self.num_inputs() >= 1,
            Self::witness_generator() ==> self.inputs_view().len() == self.num_inputs(),
            Self::witness_generator() ==> self.aux_view().len() == self.num_aux(),
    ;

    /// An empty system: only the constant one exists.
    fn new() -> (r: Self)
        requires
            Self::extensible(),
        ensures
            r.inv(),
            r.num_inputs() == 1,
            r.num_aux() == 0,
    ;

    /// The variable that stands for the constant one: input index 0.
    fn one(&self) -> (r: Variable)
        ensures
            r.index() == Index::Input(0),
    {
        Variable::new_unchecked(Index::Input(0))
    }

    /// Allocates a private variable holding `value`, or fails where the
    /// backend accepts no more. The annotation is a label for diagnostics and
    /// is not evaluated on success.
    fn alloc_strict<A: FnOnce() -> String>(&mut self, annotation: A, value: S) -> (r: Result<
        Variable,
        SynthesisError,
    >)
        requires
            old(self).inv(),
        ensures
            final(self).inv(),
            r is Ok <==> old(self).accepts_aux(),
            alloc_outcome(r, true, old(self).num_aux(), final(self).num_aux()),
            final(self).num_inputs() == old(self).num_inputs(),
            final(self).constraints() == old(self).constraints(),
            Self::witness_generator() ==> final(self).inputs_view() == old(self).inputs_view(),
            Self::witness_generator() ==> (final(self).aux_view() == match r {
                Ok(_) => old(self).aux_view().push(value),
                Err(_) => old(self).aux_view(),
            }),
    ;

    /// Allocates a public input variable holding `value`, or fails where the
    /// backend accepts no more; index 0 stays reserved for the constant one.
    fn alloc_input_strict<A: FnOnce() -> String>(&mut self, annotation: A, value: S) -> (r:
        Result<Variable, SynthesisError>)
        requires
            old(self).inv(),
        ensures
            final(self).inv(),
            r is Ok <==> old(self).accepts_input(),
            alloc_outcome(r, false, old(self).num_inputs(), final(self).num_inputs()),
            final(self).num_aux() == old(self).num_aux(),
            final(self).constraints() == old(self).constraints(),
            Self::witness_generator() ==> final(self).aux_view() == old(self).aux_view(),
            Self::witness_generator() ==> (final(self).inputs_view() == match r {
                Ok(_) => old(self).inputs_view().push(value),
                Err(_) => old(self).inputs_view(),
            }),
    ;
    /// Records the constraint `A * B = C`, where `a`, `b` and `c` each turn the
    /// empty combination into one side: the recorded sides are what the
    /// transforms return. A witness generator records nothing and leaves its
    /// values as they are. Never fails.
    fn enforce<A, LA, LB, LC>(&mut self, annotation: A, a: LA, b: LB, c: LC)
        where
            A: FnOnce() -> String,
            LA: FnOnce(LinearCombination<S>) -> LinearCombination<S>,
            LB: FnOnce(LinearCombination<S>) -> LinearCombination<S>,
            LC: FnOnce(LinearCombination<S>) -> LinearCombination<S>,
        requires
            old(self).inv(),
            accepts_empty(a),
            accepts_empty(b),
            accepts_empty(c),
        ensures
            final(self).inv(),
            final(self).num_inputs() == old(self).num_inputs(),
            final(self).num_aux() == old(self).num_aux(),
            !Self::witness_generator() ==> exists|
                z: LinearCombination<S>,
                la: LinearCombination<S>,
                lb: LinearCombination<S>,
                lc: LinearCombination<S>,
            |
                {
                    &&& z@.len() == 0
                    &&& #[trigger] a.ensures((z,), la)
                    &&& #[trigger] b.ensures((z,), lb)
                    &&& #[trigger] c.ensures((z,), lc)
                    &&& final(self).constraints() == old(self).constraints().push(
                        (la@, lb@, lc@),
                    )
                },
            Self::witness_generator() ==> final(self).constraints() == old(self).constraints(),
            Self::witness_generator() ==> final(self).inputs_view() == old(self).inputs_view(),
            Self::witness_generator() ==> final(self).aux_view() == old(self).aux_view(),
    ;

    /// Whether the backend can be created empty and grown without bound.
    fn is_extensible(&self) -> (r: bool)
        ensures
            r == Self::extensible(),
    ;

    /// Whether the backend only computes the values of the variables.
    fn is_witness_generator(&self) -> (r: bool)
        ensures
            r == Self::witness_generator(),
    ;

    /// Appends `new_inputs` to the input values.
    fn extend_inputs(&mut self, new_inputs: &[S])
        requires
            Self::witness_generator(),
            old(self).inv(),
            old(self).num_inputs() + new_inputs@.len() <= usize::MAX,
        ensures
            final(self).inv(),
            final(self).constraints() == old(self).constraints(),
            final(self).inputs_view() == old(self).inputs_view() + new_inputs@,
            final(self).aux_view() == old(self).aux_view(),
    ;

    /// Appends `new_aux` to the auxiliary values.
    fn extend_aux(&mut self, new_aux: &[S])
        requires
            Self::witness_generator(),
            old(self).inv(),
            old(self).num_aux() + new_aux@.len() <= usize::MAX,
        ensures
            final(self).inv(),
            final(self).constraints() == old(self).constraints(),
            final(self).aux_view() == old(self).aux_view() + new_aux@,
            final(self).inputs_view() == old(self).inputs_view(),
    ;

    /// Reserves `aux_n` auxiliary and `inputs_n` input values at the ends of
    /// the two vectors and hands out the reserved parts for writing: what the
    /// caller leaves in them is what the vectors end with.
    fn allocate_empty(&mut self, aux_n: usize, inputs_n: usize) -> (r: (&mut [S], &mut [S]))
        requires
            Self::witness_generator(),
            old(self).inv(),
            old(self).num_aux() + aux_n <= usize::MAX,
            old(self).num_inputs() + inputs_n <= usize::MAX,
        ensures
            r.0@ == Seq::new(aux_n as nat, |_i: int| old(self).empty_value()),
            r.1@ == Seq::new(inputs_n as nat, |_i: int| old(self).empty_value()),
            final(self).empty_value() == old(self).empty_value(),
            final(self).inv(),
            final(self).constraints() == old(self).constraints(),
            final(self).aux_view() == old(self).aux_view() + final(r.0)@,
            final(self).inputs_view() == old(self).inputs_view() + final(r.1)@,
    ;

    /// Reserves `n` input values at the end of the input vector and hands out
    /// the reserved part for writing.
    fn allocate_empty_inputs(&mut self, n: usize) -> (r: &mut [S])
        requires
            Self::witness_generator(),
            old(self).inv(),
            old(self).num_inputs() + n <= usize::MAX,
        ensures
            r@ == Seq::new(n as nat, |_i: int| old(self).empty_value()),
            final(self).empty_value() == old(self).empty_value(),
            final(self).inv(),
            final(self).constraints() == old(self).constraints(),
            final(self).inputs_view() == old(self).inputs_view() + final(r)@,
            final(self).aux_view() == old(self).aux_view(),
    ;

    /// Reserves `n` auxiliary values at the end of the auxiliary vector and
    /// hands out the reserved part for writing.
    fn allocate_empty_aux(&mut self, n: usize) -> (r: &mut [S])
        requires
            Self::witness_generator(),
            old(self).inv(),
            old(self).num_aux() + n <= usize::MAX,
        ensures
            r@ == Seq::new(n as nat, |_i: int| old(self).empty_value()),
            final(self).empty_value() == old(self).empty_value(),
            final(self).inv(),
            final(self).constraints() == old(self).constraints(),
            final(self).aux_view() == old(self).aux_view() + final(r)@,
            final(self).inputs_view() == old(self).inputs_view(),
    ;

    /// All input values so far, the constant one first.
    fn inputs_slice(&self) -> (r: &[S])
        requires
            Self::witness_generator(),
            self.inv(),
        ensures
            r@ == self.inputs_view(),
    ;

    /// All auxiliary values so far.
    fn aux_slice(&self) -> (r: &[S])
        requires
            Self::witness_generator(),
            self.inv(),
        ensures
            r@ == self.aux_view(),
    ;
}

} // verus!
