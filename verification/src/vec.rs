//! Normal forms that keep their clauses in the order of extraction, with
//! repeated clauses kept.

use vstd::prelude::*;
use vstd::std_specs::cmp::PartialEqSpec;
use vstd::std_specs::cmp::PartialEqSpecImpl;
use vstd::std_specs::convert::FromSpecImpl;
use crate::eval::Eval;
use crate::expr::Expr;

verus! {

/// A boolean expression in conjunctive normal form, stored as a `Vec` of
/// clauses that are joined by `And`.
#[derive(Debug)]
pub struct CnfVec<V>(Vec<Expr<V>>) where V: Eval + Eq;

impl<V> View for CnfVec<V> where V: Eval + Eq {
    type V = Seq<Expr<V>>;

    /// The clauses, in the order in which they are stored.
    closed spec fn view(&self) -> Seq<Expr<V>> {
        self.0@
    }
}

impl<V> CnfVec<V> where V: Eval + Eq {
    /// Returns the conjunctive clauses as elements of a `Vec`.
    pub fn into_vec(self) -> (v: Vec<Expr<V>>)
        ensures
            v@ == self@,
    {
        self.0
    }

    /// Returns true if the boolean expression contains no terms.
    pub fn is_empty(&self) -> (b: bool)
        ensures
            b == (self@.len() == 0),
    {
        self.0.is_empty()
    }
}

impl<V> Clone for CnfVec<V> where V: Eval + Eq {
    fn clone(&self) -> (r: Self)
        ensures
            r@.len() == self@.len(),
            forall|i: int| 0 <= i < self@.len() ==> #[trigger] self@[i].copies_to(r@[i]),
            crate::eval::clone_is_exact::<V>() ==> r@ == self@,
    {
        let r = CnfVec(crate::clauses::copy(&self.0));
        r
    }
}

impl<V> PartialEq for CnfVec<V> where V: Eval + Eq {
    /// Equality clause by clause, in order.
    fn eq(&self, other: &Self) -> (r: bool) {
        self.0 == other.0
    }
}

impl<V> PartialEqSpecImpl for CnfVec<V> where V: Eval + Eq {
    open spec fn obeys_eq_spec() -> bool {
        V::obeys_eq_spec()
    }

    open spec fn eq_spec(&self, other: &Self) -> bool {
        crate::clauses::same_in_order(self@, other@)
    }
}

impl<V> Eval for CnfVec<V> where V: Eval + Eq {
    type Context = V::Context;

    open spec fn holds(&self, data: &Self::Context) -> bool {
        crate::clauses::all_hold(self@, *data)
    }

    fn eval(&self, data: &Self::Context) -> (b: bool)
        ensures
            self@.len() == 0 ==> b,
    {
        crate::clauses::eval_all(&self.0, data)
    }
}

impl<V> From<Expr<V>> for CnfVec<V> where V: Eval + Eq {
    /// Extracts the conjunctive normal form of the expression.
    fn from(expr: Expr<V>) -> (r: Self)
        ensures
            V::obeys_eq_spec() && crate::eval::clone_is_exact::<V>() ==> r@ == expr.cnf_clauses(),
            V::obeys_eq_spec() && crate::eval::clone_is_exact::<V>()
                && crate::eval::eq_decides_truth::<V>() ==> forall|data: V::Context| #[trigger]
                r.holds(&data) == expr.holds(&data),
            r@.len() >= 1,
    {
        proof {
            if crate::eval::eq_decides_truth::<V>() {
                assert forall|data: V::Context|
                    crate::clauses::all_hold(expr.cnf_clauses(), data) == expr.truth(data) by {
                    expr.lemma_normal_forms_truth(data);
                }
            }
        }
        CnfVec(expr.normal_clauses(true))
    }
}

impl<V> FromSpecImpl<Expr<V>> for CnfVec<V> where V: Eval + Eq {
    /// What `from` returns is stated by its own `ensures`, over the view.
    open spec fn obeys_from_spec() -> bool {
        false
    }

    open spec fn from_spec(expr: Expr<V>) -> Self {
        arbitrary()
    }
}

impl<V> From<Vec<Expr<V>>> for CnfVec<V> where V: Eval + Eq {
    /// Takes the clauses as they are.
    fn from(clauses: Vec<Expr<V>>) -> (r: Self)
        ensures
            r@ == clauses@,
    {
        CnfVec(clauses)
    }
}

impl<V> FromSpecImpl<Vec<Expr<V>>> for CnfVec<V> where V: Eval + Eq {
    open spec fn obeys_from_spec() -> bool {
        true
    }

    closed spec fn from_spec(clauses: Vec<Expr<V>>) -> Self {
        CnfVec(clauses)
    }
}

impl<V> From<CnfVec<V>> for Vec<Expr<V>> where V: Eval + Eq {
    fn from(cnf: CnfVec<V>) -> (v: Vec<Expr<V>>)
        ensures
            v@ == cnf@,
    {
        cnf.0
    }
}

impl<V> FromSpecImpl<CnfVec<V>> for Vec<Expr<V>> where V: Eval + Eq {
    open spec fn obeys_from_spec() -> bool {
        true
    }

    closed spec fn from_spec(cnf: CnfVec<V>) -> Self {
        cnf.0
    }
}

impl<V> Default for CnfVec<V> where V: Eval + Eq {
    fn default() -> (r: Self)
        ensures
            r@ == Seq::<Expr<V>>::empty(),
    {
        CnfVec(Vec::new())
    }
}

/// A boolean expression in disjunctive normal form, stored as a `Vec` of
/// clauses that are joined by `Or`.
#[derive(Debug)]
pub struct DnfVec<V>(Vec<Expr<V>>) where V: Eval + Eq;

impl<V> View for DnfVec<V> where V: Eval + Eq {
    type V = Seq<Expr<V>>;

    /// The clauses, in the order in which they are stored.
    closed spec fn view(&self) -> Seq<Expr<V>> {
        self.0@
    }
}

impl<V> DnfVec<V> where V: Eval + Eq {
    /// Returns the disjunctive clauses as elements of a `Vec`.
    pub fn into_vec(self) -> (v: Vec<Expr<V>>)
        ensures
            v@ == self@,
    {
        self.0
    }

    /// Returns true if the boolean expression contains no terms.
    pub fn is_empty(&self) -> (b: bool)
        ensures
            b == (self@.len() == 0),
    {
        self.0.is_empty()
    }
}

impl<V> Clone for DnfVec<V> where V: Eval + Eq {
    fn clone(&self) -> (r: Self)
        ensures
            r@.len() == self@.len(),
            forall|i: int| 0 <= i < self@.len() ==> #[trigger] self@[i].copies_to(r@[i]),
            crate::eval::clone_is_exact::<V>() ==> r@ == self@,
    {
        let r = DnfVec(crate::clauses::copy(&self.0));
        r
    }
}

impl<V> PartialEq for DnfVec<V> where V: Eval + Eq {
    /// Equality clause by clause, in order.
    fn eq(&self, other: &Self) -> (r: bool) {
        self.0 == other.0
    }
}

impl<V> PartialEqSpecImpl for DnfVec<V> where V: Eval + Eq {
    open spec fn obeys_eq_spec() -> bool {
        V::obeys_eq_spec()
    }

    open spec fn eq_spec(&self, other: &Self) -> bool {
        crate::clauses::same_in_order(self@, other@)
    }
}

impl<V> Eval for DnfVec<V> where V: Eval + Eq {
    type Context = V::Context;

    open spec fn holds(&self, data: &Self::Context) -> bool {
        crate::clauses::any_holds(self@, *data)
    }

    fn eval(&self, data: &Self::Context) -> (b: bool)
        ensures
            self@.len() == 0 ==> !b,
    {
        crate::clauses::eval_any(&self.0, data)
    }
}

impl<V> From<Expr<V>> for DnfVec<V> where V: Eval + Eq {
    /// Extracts the disjunctive normal form of the expression.
    fn from(expr: Expr<V>) -> (r: Self)
        ensures
            V::obeys_eq_spec() && crate::eval::clone_is_exact::<V>() ==> r@ == expr.dnf_clauses(),
            V::obeys_eq_spec() && crate::eval::clone_is_exact::<V>()
                && crate::eval::eq_decides_truth::<V>() ==> forall|data: V::Context| #[trigger]
                r.holds(&data) == expr.holds(&data),
            r@.len() >= 1,
    {
        proof {
            if crate::eval::eq_decides_truth::<V>() {
                assert forall|data: V::Context|
                    crate::clauses::any_holds(expr.dnf_clauses(), data) == expr.truth(data) by {
                    expr.lemma_normal_forms_truth(data);
                }
            }
        }
        DnfVec(expr.normal_clauses(false))
    }
}

impl<V> FromSpecImpl<Expr<V>> for DnfVec<V> where V: Eval + Eq {
    /// What `from` returns is stated by its own `ensures`, over the view.
    open spec fn obeys_from_spec() -> bool {
        false
    }

    open spec fn from_spec(expr: Expr<V>) -> Self {
        arbitrary()
    }
}

impl<V> From<Vec<Expr<V>>> for DnfVec<V> where V: Eval + Eq {
    /// Takes the clauses as they are.
    fn from(clauses: Vec<Expr<V>>) -> (r: Self)
        ensures
            r@ == clauses@,
    {
        DnfVec(clauses)
    }
}

impl<V> FromSpecImpl<Vec<Expr<V>>> for DnfVec<V> where V: Eval + Eq {
    open spec fn obeys_from_spec() -> bool {
        true
    }

    closed spec fn from_spec(clauses: Vec<Expr<V>>) -> Self {
        DnfVec(clauses)
    }
}

impl<V> From<DnfVec<V>> for Vec<Expr<V>> where V: Eval + Eq {
    fn from(dnf: DnfVec<V>) -> (v: Vec<Expr<V>>)
        ensures
            v@ == dnf@,
    {
        dnf.0
    }
}

impl<V> FromSpecImpl<DnfVec<V>> for Vec<Expr<V>> where V: Eval + Eq {
    open spec fn obeys_from_spec() -> bool {
        true
    }

    closed spec fn from_spec(dnf: DnfVec<V>) -> Self {
        dnf.0
    }
}

impl<V> Default for DnfVec<V> where V: Eval + Eq {
    fn default() -> (r: Self)
        ensures
            r@ == Seq::<Expr<V>>::empty(),
    {
        DnfVec(Vec::new())
    }
}

} // verus!
