//! The circuit's data: the matrix `A` and the right-hand side `b` of `A * x = b`.

use core::marker::PhantomData;
use vstd::prelude::*;
use vstd::string::StringExecFns;

use crate::layout::{
    circuit_layout, GateLayout, LOOKUP_BITS, NUM_ADVICE, NUM_ADVICE_LOOKUP, NUM_FIXED,
};

verus! {

/// A linear system `A * x = b` over a field `F`, as the circuit carries it.
///
/// Nothing ties the shape of `A` to that of `b`: any grid and any sequence are
/// accepted. An entry of `b` that is `None` is a value the prover does not know.
#[allow(non_snake_case)]
pub struct MyCircuit<F> {
    /// The matrix, row by row.
    pub A: Vec<Vec<F>>,
    /// The right-hand side.
    pub b: Vec<Option<F>>,
    /// Ties the circuit to its field when it holds no entry.
    pub _marker: PhantomData<F>,
}

/// A linear system as mathematical values: the rows of the matrix and the
/// right-hand side.
pub ghost struct LinearSystem<F> {
    pub matrix: Seq<Seq<F>>,
    pub rhs: Seq<Option<F>>,
}

impl<F> LinearSystem<F> {
    /// The system without any row and without a right-hand side.
    pub open spec fn blank() -> LinearSystem<F> {
        LinearSystem { matrix: Seq::empty(), rhs: Seq::empty() }
    }
}

impl<F> View for MyCircuit<F> {
    type V = LinearSystem<F>;

    open spec fn view(&self) -> LinearSystem<F> {
        LinearSystem { matrix: Seq::new(self.A@.len(), |i: int| self.A@[i]@), rhs: self.b@ }
    }
}

impl<F> MyCircuit<F> {
    /// The same circuit with every witness taken out; since all of `A` and `b`
    /// is witness data, what is left is blank whatever `self` holds.
    pub fn without_witnesses(&self) -> (blank: Self)
        ensures
            blank@ == LinearSystem::<F>::blank(),
    {
        let blank = MyCircuit { A: Vec::new(), b: Vec::new(), _marker: PhantomData };
        assert(blank@.matrix =~= Seq::<Seq<F>>::empty());
        blank
    }

    /// The column layout that every circuit of this type is configured with. It does
    /// not depend on the data.
    pub fn configure() -> (layout: GateLayout)
        ensures
            layout@ == circuit_layout(),
    {
        let mut num_advice: Vec<usize> = Vec::new();
        num_advice.push(NUM_ADVICE);
        let mut num_lookup_advice: Vec<usize> = Vec::new();
        num_lookup_advice.push(NUM_ADVICE_LOOKUP);
        let layout = GateLayout {
            num_advice,
            num_lookup_advice,
            num_fixed: NUM_FIXED,
            lookup_bits: LOOKUP_BITS,
            context_id: String::from_str("default"),
        };
        assert(layout@.num_advice =~= seq![NUM_ADVICE]);
        assert(layout@.num_lookup_advice =~= seq![NUM_ADVICE_LOOKUP]);
        layout
    }
}

impl<F> Default for MyCircuit<F> {
    /// The blank circuit.
    fn default() -> (blank: Self)
        ensures
            blank@ == LinearSystem::<F>::blank(),
    {
        let blank = MyCircuit { A: Vec::new(), b: Vec::new(), _marker: PhantomData };
        assert(blank@.matrix =~= Seq::<Seq<F>>::empty());
        blank
    }
}

} // verus!
