//! Normal forms that keep no clause twice: of clauses that are equal, the
//! one that was extracted first stays.

use vstd::prelude::*;
use vstd::std_specs::cmp::PartialEqSpec;
use vstd::std_specs::cmp::PartialEqSpecImpl;
use vstd::std_specs::convert::FromSpecImpl;
use crate::eval::Eval;
use crate::expr::Expr;

verus! {

/// A boolean expression in conjunctive normal form, stored as a set of
/// clauses that are joined by `And`.
#[derive(Debug)]
pub struct CnfHashSet<V>(Vec<Expr<V>>) where V: Eval + Eq;

impl<V> View for CnfHashSet<V> where V: Eval + Eq {
    type V = Seq<Expr<V>>;

    /// The clauses, in the order in which the set took them.
    closed spec fn view(&self) -> Seq<Expr<V>> {
        self.0@
    }
}

impl<V> CnfHashSet<V> where V: Eval + Eq {
    /// Where `==` and `clone` of the literals can be relied on, no clause
    /// is equal to an earlier one.
    #[verifier::type_invariant]
    spec fn distinct_clauses(self) -> bool {
        V::obeys_eq_spec() && crate::eval::clone_is_exact::<V>() ==> crate::clauses::no_repeat(
            self.0@,
        )
    }

    /// Returns the conjunctive clauses as elements of a `Vec`.
    pub fn into_vec(self) -> (v: Vec<Expr<V>>)
        ensures
            v@ == self@,
            V::obeys_eq_spec() && crate::eval::clone_is_exact::<V>() ==> crate::clauses::no_repeat(
                v@,
            ),
    {
        proof {
            use_type_invariant(&self);
        }
        self.0
    }

    /// Returns true if the boolean expression contains no terms.
    pub fn is_empty(&self) -> (b: bool)
        ensures
            b == (self@.len() == 0),
    {
        self.0.is_empty()
    }
}

impl<V> Clone for CnfHashSet<V> where V: Eval + Eq {
    fn clone(&self) -> (r: Self)
        ensures
            r@.len() == self@.len(),
            forall|i: int| 0 <= i < self@.len() ==> #[trigger] self@[i].copies_to(r@[i]),
            crate::eval::clone_is_exact::<V>() ==> r@ == self@,
    {
        proof {
            use_type_invariant(self);
        }
        CnfHashSet(crate::clauses::copy(&self.0))
    }
}

impl<V> PartialEq for CnfHashSet<V> where V: Eval + Eq {
    /// Equality as sets: as many clauses, and each clause of `self` equal
    /// to one of `other`.
    fn eq(&self, other: &Self) -> (r: bool) {
        crate::clauses::eq_as_sets(&self.0, &other.0)
    }
}

impl<V> PartialEqSpecImpl for CnfHashSet<V> where V: Eval + Eq {
    open spec fn obeys_eq_spec() -> bool {
        V::obeys_eq_spec()
    }

    open spec fn eq_spec(&self, other: &Self) -> bool {
        crate::clauses::same_set(self@, other@)
    }
}

impl<V> Eval for CnfHashSet<V> where V: Eval + Eq {
    type Context = V::Context;

    open spec fn holds(&self, data: &Self::Context) -> bool {
        crate::clauses::all_hold(self@, *data)
    }

    fn eval(&self, data: &Self::Context) -> (b: bool)
        ensures
            self@.len() == 0 ==> b,
    {
        crate::clauses::eval_all(&self.0, data)
    }
}

impl<V> From<Expr<V>> for CnfHashSet<V> where V: Eval + Eq {
    /// Extracts the conjunctive normal form of the expression.
    fn from(expr: Expr<V>) -> (r: Self)
        ensures
            V::obeys_eq_spec() && crate::eval::clone_is_exact::<V>() ==> r@
                == crate::clauses::distinct(expr.cnf_clauses()),
            V::obeys_eq_spec() && crate::eval::clone_is_exact::<V>()
                && crate::eval::eq_decides_truth::<V>() ==> forall|data: V::Context| #[trigger]
                r.holds(&data) == expr.holds(&data),
            r@.len() >= 1,
    {
        let clauses = crate::clauses::collect_distinct(expr.normal_clauses(true));
        proof {
            crate::clauses::lemma_distinct_no_repeat(expr.cnf_clauses());
            if crate::eval::eq_decides_truth::<V>() {
                assert forall|data: V::Context|
                    crate::clauses::all_hold(crate::clauses::distinct(expr.cnf_clauses()), data)
                        == expr.truth(data) by {
                    expr.lemma_normal_forms_truth(data);
                }
            }
        }
        CnfHashSet(clauses)
    }
}

impl<V> FromSpecImpl<Expr<V>> for CnfHashSet<V> where V: Eval + Eq {
    /// What `from` returns is stated by its own `ensures`, over the view.
    open spec fn obeys_from_spec() -> bool {
        false
    }

    open spec fn from_spec(expr: Expr<V>) -> Self {
        arbitrary()
    }
}

impl<V> From<Vec<Expr<V>>> for CnfHashSet<V> where V: Eval + Eq {
    /// Takes the clauses as they are, but for those that are equal to an
    /// earlier one.
    fn from(clauses: Vec<Expr<V>>) -> (r: Self)
        ensures
            V::obeys_eq_spec() ==> r@ == crate::clauses::distinct(clauses@),
            r@.len() <= clauses@.len(),
            clauses@.len() == 0 ==> r@.len() == 0,
            clauses@.len() >= 1 ==> r@.len() >= 1 && r@[0] == clauses@[0],
    {
        proof {
            crate::clauses::lemma_distinct_no_repeat(clauses@);
        }
        CnfHashSet(crate::clauses::collect_distinct(clauses))
    }
}

impl<V> FromSpecImpl<Vec<Expr<V>>> for CnfHashSet<V> where V: Eval + Eq {
    /// What `from` returns is stated by its own `ensures`, over the view.
    open spec fn obeys_from_spec() -> bool {
        false
    }

    open spec fn from_spec(clauses: Vec<Expr<V>>) -> Self {
        arbitrary()
    }
}

impl<V> From<CnfHashSet<V>> for Vec<Expr<V>> where V: Eval + Eq {
    fn from(cnf: CnfHashSet<V>) -> (v: Vec<Expr<V>>)
        ensures
            v@ == cnf@,
    {
        cnf.0
    }
}

impl<V> FromSpecImpl<CnfHashSet<V>> for Vec<Expr<V>> where V: Eval + Eq {
    open spec fn obeys_from_spec() -> bool {
        true
    }

    closed spec fn from_spec(cnf: CnfHashSet<V>) -> Self {
        cnf.0
    }
}

impl<V> Default for CnfHashSet<V> where V: Eval + Eq {
    fn default() -> (r: Self)
        ensures
            r@ == Seq::<Expr<V>>::empty(),
    {
        CnfHashSet(Vec::new())
    }
}

/// A boolean expression in disjunctive normal form, stored as a set of
/// clauses that are joined by `Or`.
#[derive(Debug)]
pub struct DnfHashSet<V>(Vec<Expr<V>>) where V: Eval + Eq;

impl<V> View for DnfHashSet<V> where V: Eval + Eq {
    type V = Seq<Expr<V>>;

    /// The clauses, in the order in which the set took them.
    closed spec fn view(&self) -> Seq<Expr<V>> {
        self.0@
    }
}

impl<V> DnfHashSet<V> where V: Eval + Eq {
    /// Where `==` and `clone` of the literals can be relied on, no clause
    /// is equal to an earlier one.
    #[verifier::type_invariant]
    spec fn distinct_clauses(self) -> bool {
        V::obeys_eq_spec() && crate::eval::clone_is_exact::<V>() ==> crate::clauses::no_repeat(
            self.0@,
        )
    }

    /// Returns the disjunctive clauses as elements of a `Vec`.
    pub fn into_vec(self) -> (v: Vec<Expr<V>>)
        ensures
            v@ == self@,
            V::obeys_eq_spec() && crate::eval::clone_is_exact::<V>() ==> crate::clauses::no_repeat(
                v@,
            ),
    {
        proof {
            use_type_invariant(&self);
        }
        self.0
    }

    /// Returns true if the boolean expression contains no terms.
    pub fn is_empty(&self) -> (b: bool)
        ensures
            b == (self@.len() == 0),
    {
        self.0.is_empty()
    }
}

impl<V> Clone for DnfHashSet<V> where V: Eval + Eq {
    fn clone(&self) -> (r: Self)
        ensures
            r@.len() == self@.len(),
            forall|i: int| 0 <= i < self@.len() ==> #[trigger] self@[i].copies_to(r@[i]),
            crate::eval::clone_is_exact::<V>() ==> r@ == self@,
    {
        proof {
            use_type_invariant(self);
        }
        DnfHashSet(crate::clauses::copy(&self.0))
    }
}

impl<V> PartialEq for DnfHashSet<V> where V: Eval + Eq {
    /// Equality as sets: as many clauses, and each clause of `self` equal
    /// to one of `other`.
    fn eq(&self, other: &Self) -> (r: bool) {
        crate::clauses::eq_as_sets(&self.0, &other.0)
    }
}

impl<V> PartialEqSpecImpl for DnfHashSet<V> where V: Eval + Eq {
    open spec fn obeys_eq_spec() -> bool {
        V::obeys_eq_spec()
    }

    open spec fn eq_spec(&self, other: &Self) -> bool {
        crate::clauses::same_set(self@, other@)
    }
}

impl<V> Eval for DnfHashSet<V> where V: Eval + Eq {
    type Context = V::Context;

    open spec fn holds(&self, data: &Self::Context) -> bool {
        crate::clauses::any_holds(self@, *data)
    }

    fn eval(&self, data: &Self::Context) -> (b: bool)
        ensures
            self@.len() == 0 ==> !b,
    {
        crate::clauses::eval_any(&self.0, data)
    }
}

impl<V> From<Expr<V>> for DnfHashSet<V> where V: Eval + Eq {
    /// Extracts the disjunctive normal form of the expression.
    fn from(expr: Expr<V>) -> (r: Self)
        ensures
            V::obeys_eq_spec() && crate::eval::clone_is_exact::<V>() ==> r@
                == crate::clauses::distinct(expr.dnf_clauses()),
            V::obeys_eq_spec() && crate::eval::clone_is_exact::<V>()
                && crate::eval::eq_decides_truth::<V>() ==> forall|data: V::Context| #[trigger]
                r.holds(&data) == expr.holds(&data),
            r@.len() >= 1,
    {
        let clauses = crate::clauses::collect_distinct(expr.normal_clauses(false));
        proof {
            crate::clauses::lemma_distinct_no_repeat(expr.dnf_clauses());
            if crate::eval::eq_decides_truth::<V>() {
                assert forall|data: V::Context|
                    crate::clauses::any_holds(crate::clauses::distinct(expr.dnf_clauses()), data)
                        == expr.truth(data) by {
                    expr.lemma_normal_forms_truth(data);
                }
            }
        }
        DnfHashSet(clauses)
    }
}

impl<V> FromSpecImpl<Expr<V>> for DnfHashSet<V> where V: Eval + Eq {
    /// What `from` returns is stated by its own `ensures`, over the view.
    open spec fn obeys_from_spec() -> bool {
        false
    }

    open spec fn from_spec(expr: Expr<V>) -> Self {
        arbitrary()
    }
}

impl<V> From<Vec<Expr<V>>> for DnfHashSet<V> where V: Eval + Eq {
    /// Takes the clauses as they are, but for those that are equal to an
    /// earlier one.
    fn from(clauses: Vec<Expr<V>>) -> (r: Self)
        ensures
            V::obeys_eq_spec() ==> r@ == crate::clauses::distinct(clauses@),
            r@.len() <= clauses@.len(),
            clauses@.len() == 0 ==> r@.len() == 0,
            clauses@.len() >= 1 ==> r@.len() >= 1 && r@[0] == clauses@[0],
    {
        proof {
            crate::clauses::lemma_distinct_no_repeat(clauses@);
        }
        DnfHashSet(crate::clauses::collect_distinct(clauses))
    }
}

impl<V> FromSpecImpl<Vec<Expr<V>>> for DnfHashSet<V> where V: Eval + Eq {
    /// What `from` returns is stated by its own `ensures`, over the view.
    open spec fn obeys_from_spec() -> bool {
        false
    }

    open spec fn from_spec(clauses: Vec<Expr<V>>) -> Self {
        arbitrary()
    }
}

impl<V> From<DnfHashSet<V>> for Vec<Expr<V>> where V: Eval + Eq {
    fn from(dnf: DnfHashSet<V>) -> (v: Vec<Expr<V>>)
        ensures
            v@ == dnf@,
    {
        dnf.0
    }
}

impl<V> FromSpecImpl<DnfHashSet<V>> for Vec<Expr<V>> where V: Eval + Eq {
    open spec fn obeys_from_spec() -> bool {
        true
    }

    closed spec fn from_spec(dnf: DnfHashSet<V>) -> Self {
        dnf.0
    }
}

impl<V> Default for DnfHashSet<V> where V: Eval + Eq {
    fn default() -> (r: Self)
        ensures
            r@ == Seq::<Expr<V>>::empty(),
    {
        DnfHashSet(Vec::new())
    }
}

/// The conjunctive normal form that keeps no clause twice.
pub type Cnf<V> = CnfHashSet<V>;

/// The disjunctive normal form that keeps no clause twice.
pub type Dnf<V> = DnfHashSet<V>;

} // verus!
