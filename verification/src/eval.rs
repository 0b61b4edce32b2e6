//! The capability a literal type offers: a truth value under a context.

use vstd::prelude::*;
use vstd::std_specs::cmp::PartialEqSpec;

verus! {

/// A value that has a truth value once some contextual data is supplied.
///
/// `holds` is the mathematical truth value and `eval` computes it: an
/// implementation promises that what `eval` returns is a function of the
/// value and the context alone.
pub trait Eval: Clone + PartialEq {
    /// The contextual data required to decide the truth value.
    type Context;

    /// The truth value of `self` under `data`. The default leaves it
    /// unspecified; an implementation in verified code overrides it with
    /// the value that its `eval` computes.
    open spec fn holds(&self, data: &Self::Context) -> bool {
        arbitrary()
    }

    /// Evaluates `self` under `data`.
    fn eval(&self, data: &Self::Context) -> (b: bool)
        ensures
            b == self.holds(data),
    ;
}

/// Every clone of a literal is the literal itself.
pub open spec fn clone_is_exact<V: Clone>() -> bool {
    forall|a: V, b: V| #[trigger] cloned(a, b) ==> a == b
}

/// Literals that `==` takes for equal have the same truth value under every
/// context.
pub open spec fn eq_decides_truth<V: Eval>() -> bool {
    forall|a: V, b: V, data: V::Context|
        #![trigger a.eq_spec(&b), a.holds(&data)]
        a.eq_spec(&b) ==> a.holds(&data) == b.holds(&data)
}

/// Every literal is equal to itself under `==`.
pub open spec fn eq_is_reflexive<V: PartialEq>() -> bool {
    forall|a: V| #[trigger] a.eq_spec(&a)
}

} // verus!
