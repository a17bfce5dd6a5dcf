use vstd::prelude::*;

verus! {

/// Where a variable lives: the public input namespace or the private
/// auxiliary namespace. Input index 0 is reserved for the constant one.
#[derive(Clone, Copy, Debug, PartialEq, Eq, Structural)]
pub enum Index {
    Input(usize),
    Aux(usize),
}

impl Index {
    /// The index is the auxiliary index `n`.
    pub open spec fn is_aux_at(self, n: nat) -> bool {
        match self {
            Index::Aux(i) => i as nat == n,
            Index::Input(_) => false,
        }
    }

    /// The index is the input index `n`.
    pub open spec fn is_input_at(self, n: nat) -> bool {
        match self {
            Index::Input(i) => i as nat == n,
            Index::Aux(_) => false,
        }
    }

    /// The position of the index within its namespace.
    pub open spec fn position(self) -> nat {
        match self {
            Index::Input(i) => i as nat,
            Index::Aux(i) => i as nat,
        }
    }
}

/// An opaque handle on one variable of a constraint system.
#[derive(Clone, Copy, Debug, PartialEq, Eq, Structural)]
pub struct Variable(Index);

impl Variable {
    /// The index that the handle wraps.
    pub closed spec fn index(self) -> Index {
        self.0
    }

    /// Wraps an index without checking that a constraint system allocated it.
    pub fn new_unchecked(idx: Index) -> (r: Variable)
        ensures
            r.index() == idx,
    {
        Variable(idx)
    }

    /// The wrapped index.
    pub fn get_unchecked(&self) -> (r: Index)
        ensures
            r == self.index(),
    {
        self.0
    }

    /// Two handles are equal exactly when they wrap the same index.
    pub proof fn lemma_index_determines(a: Variable, b: Variable)
        ensures
            (a == b) <==> (a.index() == b.index()),
    {
    }
}

} // verus!
