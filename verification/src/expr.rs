//! The expression tree and its structural operations.

use vstd::prelude::*;
use vstd::std_specs::cmp::PartialEqSpec;
use vstd::std_specs::cmp::PartialEqSpecImpl;
use crate::eval::Eval;

verus! {

/// A boolean expression consisting of boolean operators and variables.
#[derive(Debug)]
pub enum Expr<V> {
    /// A boolean variable.
    Var(V),
    /// A negated expression.
    Not(Box<Expr<V>>),
    /// A disjunction of expressions.
    Or(Box<Expr<V>>, Box<Expr<V>>),
    /// A conjunction of expressions.
    And(Box<Expr<V>>, Box<Expr<V>>),
}

impl<V: PartialEq> PartialEq for Expr<V> {
    /// Equality that treats the two operands of `Or` and of `And` as an
    /// unordered pair.
    fn eq(&self, other: &Self) -> (r: bool)
        decreases self,
    {
        match (self, other) {
            (Expr::Var(p), Expr::Var(q)) => p == q,
            (Expr::Not(p), Expr::Not(q)) => (**p).eq(&**q),
            (Expr::Or(a1, b1), Expr::Or(a2, b2)) => {
                ((**a1).eq(&**a2) && (**b1).eq(&**b2)) || ((**a1).eq(&**b2) && (**b1).eq(&**a2))
            },
            (Expr::And(a1, b1), Expr::And(a2, b2)) => {
                ((**a1).eq(&**a2) && (**b1).eq(&**b2)) || ((**a1).eq(&**b2) && (**b1).eq(&**a2))
            },
            _ => false,
        }
    }
}

impl<V: PartialEq> Expr<V> {
    /// Structural equality up to the order of the operands of each `Or` and
    /// `And` node, with literals compared by their own `==`.
    pub open spec fn same(self, other: Self) -> bool
        decreases self,
    {
        match (self, other) {
            (Expr::Var(p), Expr::Var(q)) => p.eq_spec(&q),
            (Expr::Not(p), Expr::Not(q)) => p.same(*q),
            (Expr::Or(a1, b1), Expr::Or(a2, b2)) => {
                (a1.same(*a2) && b1.same(*b2)) || (a1.same(*b2) && b1.same(*a2))
            },
            (Expr::And(a1, b1), Expr::And(a2, b2)) => {
                (a1.same(*a2) && b1.same(*b2)) || (a1.same(*b2) && b1.same(*a2))
            },
            _ => false,
        }
    }
}

impl<V: PartialEq> PartialEqSpecImpl for Expr<V> {
    open spec fn obeys_eq_spec() -> bool {
        V::obeys_eq_spec()
    }

    open spec fn eq_spec(&self, other: &Self) -> bool {
        self.same(*other)
    }
}

impl<V: Clone> Expr<V> {
    /// `other` has the shape of `self`, and each of its literals is a clone
    /// of the literal at the same place in `self`.
    pub open spec fn copies_to(self, other: Self) -> bool
        decreases self,
    {
        match (self, other) {
            (Expr::Var(p), Expr::Var(q)) => cloned(p, q),
            (Expr::Not(p), Expr::Not(q)) => p.copies_to(*q),
            (Expr::Or(a1, b1), Expr::Or(a2, b2)) => a1.copies_to(*a2) && b1.copies_to(*b2),
            (Expr::And(a1, b1), Expr::And(a2, b2)) => a1.copies_to(*a2) && b1.copies_to(*b2),
            _ => false,
        }
    }

    /// Where cloning a literal returns the literal, a copy of an expression
    /// is the expression.
    pub proof fn lemma_exact_copy(self, other: Self)
        requires
            crate::eval::clone_is_exact::<V>(),
            self.copies_to(other),
        ensures
            other == self,
        decreases self,
    {
        match (self, other) {
            (Expr::Var(p), Expr::Var(q)) => {},
            (Expr::Not(p), Expr::Not(q)) => {
                p.lemma_exact_copy(*q);
            },
            (Expr::Or(a1, b1), Expr::Or(a2, b2)) => {
                a1.lemma_exact_copy(*a2);
                b1.lemma_exact_copy(*b2);
            },
            (Expr::And(a1, b1), Expr::And(a2, b2)) => {
                a1.lemma_exact_copy(*a2);
                b1.lemma_exact_copy(*b2);
            },
            _ => {},
        }
    }
}

impl<V: Clone> Clone for Expr<V> {
    fn clone(&self) -> (r: Self)
        ensures
            self.copies_to(r),
            crate::eval::clone_is_exact::<V>() ==> r == *self,
        decreases self,
    {
        let r = match self {
            Expr::Var(p) => Expr::Var(p.clone()),
            Expr::Not(p) => Expr::Not(Box::new((**p).clone())),
            Expr::Or(a, b) => Expr::Or(Box::new((**a).clone()), Box::new((**b).clone())),
            Expr::And(a, b) => Expr::And(Box::new((**a).clone()), Box::new((**b).clone())),
        };
        proof {
            if crate::eval::clone_is_exact::<V>() {
                self.lemma_exact_copy(r);
            }
        }
        r
    }
}

impl<V: Eval> Expr<V> {
    /// The truth value of the expression when its literals are decided by
    /// `data`.
    pub open spec fn truth(self, data: V::Context) -> bool
        decreases self,
    {
        match self {
            Expr::Var(p) => p.holds(&data),
            Expr::Not(p) => !p.truth(data),
            Expr::Or(a, b) => a.truth(data) || b.truth(data),
            Expr::And(a, b) => a.truth(data) && b.truth(data),
        }
    }
}

impl<V: Eval> Eval for Expr<V> {
    type Context = V::Context;

    open spec fn holds(&self, data: &Self::Context) -> bool {
        self.truth(*data)
    }

    fn eval(&self, data: &Self::Context) -> (b: bool)
        decreases self,
    {
        match self {
            Expr::Var(p) => p.eval(data),
            Expr::Not(p) => !(**p).eval(data),
            Expr::Or(a, b) => (**a).eval(data) || (**b).eval(data),
            Expr::And(a, b) => (**a).eval(data) && (**b).eval(data),
        }
    }
}

impl<V: Eval> Expr<V> {
    /// The expression without double negations and without nodes whose two
    /// simplified operands are the same.
    pub open spec fn simplified(self) -> Self
        decreases self,
    {
        match self {
            Expr::Var(_) => self,
            Expr::Not(p) => match *p {
                Expr::Not(q) => q.simplified(),
                _ => Expr::Not(Box::new(p.simplified())),
            },
            Expr::Or(a, b) => {
                let a = a.simplified();
                let b = b.simplified();
                if a.same(b) {
                    a
                } else {
                    Expr::Or(Box::new(a), Box::new(b))
                }
            },
            Expr::And(a, b) => {
                let a = a.simplified();
                let b = b.simplified();
                if a.same(b) {
                    a
                } else {
                    Expr::And(Box::new(a), Box::new(b))
                }
            },
        }
    }

    /// The expression with a negation at its root moved one level down:
    /// paired negations at the root cancel, and a negated `Or` or `And`
    /// becomes the dual node over the negated operands.
    pub open spec fn pushed_down(self) -> Self
        decreases self,
    {
        match self {
            Expr::Not(e) => match *e {
                Expr::Var(_) => self,
                Expr::Not(p) => p.pushed_down(),
                Expr::Or(a, b) => Expr::And(Box::new(Expr::Not(a)), Box::new(Expr::Not(b))),
                Expr::And(a, b) => Expr::Or(Box::new(Expr::Not(a)), Box::new(Expr::Not(b))),
            },
            _ => self,
        }
    }

    /// Simplifies the expression by removing double negations and equal
    /// operands, bottom-up.
    pub fn simplify(self) -> (r: Self)
        ensures
            V::obeys_eq_spec() ==> r == self.simplified(),
        decreases self,
    {
        match self {
            Expr::Not(p) => match *p {
                Expr::Not(q) => (*q).simplify(),
                q => Expr::Not(Box::new(q.simplify())),
            },
            Expr::And(a, b) => {
                let a = (*a).simplify();
                let b = (*b).simplify();
                if a == b {
                    a
                } else {
                    Expr::And(Box::new(a), Box::new(b))
                }
            },
            Expr::Or(a, b) => {
                let a = (*a).simplify();
                let b = (*b).simplify();
                if a == b {
                    a
                } else {
                    Expr::Or(Box::new(a), Box::new(b))
                }
            },
            other => other,
        }
    }

    /// Pushes a negation at the root below an `And` or `Or`, or removes it
    /// if it stands above another negation.
    pub fn pushdown_not(self) -> (r: Self)
        ensures
            r == self.pushed_down(),
        decreases self,
    {
        match self {
            Expr::Not(e) => match *e {
                Expr::Var(p) => Expr::Not(Box::new(Expr::Var(p))),
                Expr::Not(p) => (*p).pushdown_not(),
                Expr::Or(a, b) => Expr::And(Box::new(Expr::Not(a)), Box::new(Expr::Not(b))),
                Expr::And(a, b) => Expr::Or(Box::new(Expr::Not(a)), Box::new(Expr::Not(b))),
            },
            other => other,
        }
    }
}

impl<V: Eval> Expr<V> {
    /// Where the root is an `And` with an `Or` among its operands: the other
    /// operand, then the two operands of that `Or`. The first operand of
    /// the root is looked at before the second.
    pub open spec fn and_over_or(self) -> Option<(Self, Self, Self)> {
        match self {
            Expr::And(a, b) => match (*a, *b) {
                (Expr::Or(q, r), p) => Some((p, *q, *r)),
                (p, Expr::Or(q, r)) => Some((p, *q, *r)),
                _ => None,
            },
            _ => None,
        }
    }

    /// Where the root is an `Or` with an `And` among its operands: the other
    /// operand, then the two operands of that `And`. The first operand of
    /// the root is looked at before the second.
    pub open spec fn or_over_and(self) -> Option<(Self, Self, Self)> {
        match self {
            Expr::Or(a, b) => match (*a, *b) {
                (Expr::And(q, r), p) => Some((p, *q, *r)),
                (p, Expr::And(q, r)) => Some((p, *q, *r)),
                _ => None,
            },
            _ => None,
        }
    }

    /// `Or(And(c, q), And(p, r))`.
    pub open spec fn or_of_ands(c: Self, p: Self, q: Self, r: Self) -> Self {
        Expr::Or(
            Box::new(Expr::And(Box::new(c), Box::new(q))),
            Box::new(Expr::And(Box::new(p), Box::new(r))),
        )
    }

    /// `And(Or(c, q), Or(p, r))`.
    pub open spec fn and_of_ors(c: Self, p: Self, q: Self, r: Self) -> Self {
        Expr::And(
            Box::new(Expr::Or(Box::new(c), Box::new(q))),
            Box::new(Expr::Or(Box::new(p), Box::new(r))),
        )
    }

    /// The expression with an `And` at the root distributed over an `Or`
    /// operand: `And(p, Or(q, r))` and `And(Or(q, r), p)` become
    /// `Or(And(p, q), And(p, r))`; any other expression stays as it is.
    /// Where both operands are an `Or`, the first is the one distributed
    /// over and the second the one repeated.
    pub open spec fn distributed_and(self) -> Self {
        match self.and_over_or() {
            Some((p, q, r)) => Self::or_of_ands(p, p, q, r),
            None => self,
        }
    }

    /// The expression with an `Or` at the root distributed over an `And`
    /// operand: `Or(p, And(q, r))` and `Or(And(q, r), p)` become
    /// `And(Or(p, q), Or(p, r))`; any other expression stays as it is.
    /// Where both operands are an `And`, the first is the one distributed
    /// over and the second the one repeated.
    pub open spec fn distributed_or(self) -> Self {
        match self.or_over_and() {
            Some((p, q, r)) => Self::and_of_ors(p, p, q, r),
            None => self,
        }
    }

    /// `res` is `self.distributed_and()` with a copy of the repeated operand
    /// in the first place where it occurs.
    pub open spec fn distributes_and_to(self, res: Self) -> bool {
        match self.and_over_or() {
            Some((p, q, r)) => exists|c: Self| #[trigger]
                p.copies_to(c) && res == Self::or_of_ands(c, p, q, r),
            None => res == self,
        }
    }

    /// `res` is `self.distributed_or()` with a copy of the repeated operand
    /// in the first place where it occurs.
    pub open spec fn distributes_or_to(self, res: Self) -> bool {
        match self.or_over_and() {
            Some((p, q, r)) => exists|c: Self| #[trigger]
                p.copies_to(c) && res == Self::and_of_ors(c, p, q, r),
            None => res == self,
        }
    }

    /// Distributes `And` over `Or`. The operand that is repeated is cloned
    /// for its first occurrence and moved into its second.
    pub fn distribute_and(self) -> (res: Self)
        ensures
            self.distributes_and_to(res),
            crate::eval::clone_is_exact::<V>() ==> res == self.distributed_and(),
    {
        match self {
            Expr::And(a, b) => match (*a, *b) {
                (Expr::Or(q, r), p) => {
                    let c = p.clone();
                    Expr::Or(
                        Box::new(Expr::And(Box::new(c), q)),
                        Box::new(Expr::And(Box::new(p), r)),
                    )
                },
                (p, Expr::Or(q, r)) => {
                    let c = p.clone();
                    Expr::Or(
                        Box::new(Expr::And(Box::new(c), q)),
                        Box::new(Expr::And(Box::new(p), r)),
                    )
                },
                (a, b) => Expr::And(Box::new(a), Box::new(b)),
            },
            other => other,
        }
    }

    /// Distributes `Or` over `And`. The operand that is repeated is cloned
    /// for its first occurrence and moved into its second.
    pub fn distribute_or(self) -> (res: Self)
        ensures
            self.distributes_or_to(res),
            crate::eval::clone_is_exact::<V>() ==> res == self.distributed_or(),
    {
        match self {
            Expr::Or(a, b) => match (*a, *b) {
                (Expr::And(q, r), p) => {
                    let c = p.clone();
                    Expr::And(
                        Box::new(Expr::Or(Box::new(c), q)),
                        Box::new(Expr::Or(Box::new(p), r)),
                    )
                },
                (p, Expr::And(q, r)) => {
                    let c = p.clone();
                    Expr::And(
                        Box::new(Expr::Or(Box::new(c), q)),
                        Box::new(Expr::Or(Box::new(p), r)),
                    )
                },
                (a, b) => Expr::Or(Box::new(a), Box::new(b)),
            },
            other => other,
        }
    }
}

impl<V: Eval> Expr<V> {
    /// The two expressions have the same operators in the same places, over
    /// literals that are pairwise equal under `==`.
    pub open spec fn same_repr(self, other: Self) -> bool
        decreases self,
    {
        match (self, other) {
            (Expr::Var(p), Expr::Var(q)) => p.eq_spec(&q),
            (Expr::Not(p), Expr::Not(q)) => p.same_repr(*q),
            (Expr::Or(a1, b1), Expr::Or(a2, b2)) => a1.same_repr(*a2) && b1.same_repr(*b2),
            (Expr::And(a1, b1), Expr::And(a2, b2)) => a1.same_repr(*a2) && b1.same_repr(*b2),
            _ => false,
        }
    }

    /// Returns true if the expressions have the same representation, up to
    /// equality of the boolean variables: all of the boolean operators are
    /// the same and applied, in the same order, to equal variables.
    pub fn eq_repr(&self, other: &Self) -> (r: bool)
        ensures
            V::obeys_eq_spec() ==> r == self.same_repr(*other),
        decreases self,
    {
        match (self, other) {
            (Expr::Var(a), Expr::Var(b)) => a == b,
            (Expr::Not(a), Expr::Not(b)) => (**a).eq_repr(&**b),
            (Expr::Or(a1, b1), Expr::Or(a2, b2)) => {
                (**a1).eq_repr(&**a2) && (**b1).eq_repr(&**b2)
            },
            (Expr::And(a1, b1), Expr::And(a2, b2)) => {
                (**a1).eq_repr(&**a2) && (**b1).eq_repr(&**b2)
            },
            _ => false,
        }
    }

    /// Expressions with the same representation are equal.
    pub proof fn lemma_same_repr_is_same(self, other: Self)
        requires
            self.same_repr(other),
        ensures
            self.same(other),
        decreases self,
    {
        match (self, other) {
            (Expr::Not(p), Expr::Not(q)) => {
                p.lemma_same_repr_is_same(*q);
            },
            (Expr::Or(a1, b1), Expr::Or(a2, b2)) => {
                a1.lemma_same_repr_is_same(*a2);
                b1.lemma_same_repr_is_same(*b2);
            },
            (Expr::And(a1, b1), Expr::And(a2, b2)) => {
                a1.lemma_same_repr_is_same(*a2);
                b1.lemma_same_repr_is_same(*b2);
            },
            _ => {},
        }
    }
}

impl<V: Eq> Eq for Expr<V> {

}

impl<V: Eval> Expr<V> {
    /// Some negation in the expression stands directly above another.
    pub open spec fn has_double_not(self) -> bool
        decreases self,
    {
        match self {
            Expr::Var(_) => false,
            Expr::Not(p) => *p is Not || p.has_double_not(),
            Expr::Or(a, b) => a.has_double_not() || b.has_double_not(),
            Expr::And(a, b) => a.has_double_not() || b.has_double_not(),
        }
    }

    /// No `Or` and no `And` in the expression has two operands that are
    /// equal.
    pub open spec fn operands_differ(self) -> bool
        decreases self,
    {
        match self {
            Expr::Var(_) => true,
            Expr::Not(p) => p.operands_differ(),
            Expr::Or(a, b) => !a.same(*b) && a.operands_differ() && b.operands_differ(),
            Expr::And(a, b) => !a.same(*b) && a.operands_differ() && b.operands_differ(),
        }
    }

    /// The number of nodes of the expression.
    pub open spec fn size(self) -> nat
        decreases self,
    {
        match self {
            Expr::Var(_) => 1,
            Expr::Not(p) => 1 + p.size(),
            Expr::Or(a, b) => 1 + a.size() + b.size(),
            Expr::And(a, b) => 1 + a.size() + b.size(),
        }
    }

    /// Equal expressions have as many nodes.
    pub proof fn lemma_same_size(self, other: Self)
        requires
            self.same(other),
        ensures
            self.size() == other.size(),
        decreases self,
    {
        match (self, other) {
            (Expr::Not(p), Expr::Not(q)) => {
                p.lemma_same_size(*q);
            },
            (Expr::Or(a1, b1), Expr::Or(a2, b2)) => {
                if a1.same(*a2) && b1.same(*b2) {
                    a1.lemma_same_size(*a2);
                    b1.lemma_same_size(*b2);
                } else {
                    a1.lemma_same_size(*b2);
                    b1.lemma_same_size(*a2);
                }
            },
            (Expr::And(a1, b1), Expr::And(a2, b2)) => {
                if a1.same(*a2) && b1.same(*b2) {
                    a1.lemma_same_size(*a2);
                    b1.lemma_same_size(*b2);
                } else {
                    a1.lemma_same_size(*b2);
                    b1.lemma_same_size(*a2);
                }
            },
            _ => {},
        }
    }

    /// Simplification adds no node, and removes one where a negation
    /// stands directly above another.
    pub proof fn lemma_simplified_size(self)
        ensures
            self.simplified().size() <= self.size(),
            self.has_double_not() ==> self.simplified().size() < self.size(),
        decreases self,
    {
        reveal_with_fuel(Expr::size, 3);
        match self {
            Expr::Var(_) => {},
            Expr::Not(p) => match *p {
                Expr::Not(q) => {
                    q.lemma_simplified_size();
                },
                _ => {
                    p.lemma_simplified_size();
                },
            },
            Expr::Or(a, b) => {
                a.lemma_simplified_size();
                b.lemma_simplified_size();
            },
            Expr::And(a, b) => {
                a.lemma_simplified_size();
                b.lemma_simplified_size();
            },
        }
    }

    /// Simplification leaves no `Or` and no `And` with two equal operands.
    pub proof fn lemma_simplified_operands_differ(self)
        ensures
            self.simplified().operands_differ(),
        decreases self,
    {
        match self {
            Expr::Var(_) => {},
            Expr::Not(p) => match *p {
                Expr::Not(q) => {
                    q.lemma_simplified_operands_differ();
                },
                _ => {
                    p.lemma_simplified_operands_differ();
                },
            },
            Expr::Or(a, b) => {
                a.lemma_simplified_operands_differ();
                b.lemma_simplified_operands_differ();
            },
            Expr::And(a, b) => {
                a.lemma_simplified_operands_differ();
                b.lemma_simplified_operands_differ();
            },
        }
    }

    /// An expression without double negations and without equal operands
    /// is its own simplification.
    pub proof fn lemma_simplified_fixed(self)
        requires
            !self.has_double_not(),
            self.operands_differ(),
        ensures
            self.simplified() == self,
        decreases self,
    {
        match self {
            Expr::Var(_) => {},
            Expr::Not(p) => {
                p.lemma_simplified_fixed();
            },
            Expr::Or(a, b) => {
                a.lemma_simplified_fixed();
                b.lemma_simplified_fixed();
            },
            Expr::And(a, b) => {
                a.lemma_simplified_fixed();
                b.lemma_simplified_fixed();
            },
        }
    }

    /// Simplifying twice gives what simplifying once gives, where the first
    /// round leaves no negation directly above another.
    pub proof fn lemma_simplified_twice(self)
        requires
            !self.simplified().has_double_not(),
        ensures
            self.simplified().simplified() == self.simplified(),
            crate::eval::eq_is_reflexive::<V>() ==> self.simplified().simplified().same(
                self.simplified(),
            ),
    {
        self.lemma_simplified_operands_differ();
        self.simplified().lemma_simplified_fixed();
        if crate::eval::eq_is_reflexive::<V>() {
            self.simplified().lemma_same_reflexive();
        }
    }

    /// Where the first round of simplification leaves a negation directly
    /// above another, a second round gives an expression that is not equal
    /// to what the first gave.
    pub proof fn lemma_simplified_twice_differs(self)
        requires
            self.simplified().has_double_not(),
        ensures
            !self.simplified().simplified().same(self.simplified()),
            !self.simplified().same(self.simplified().simplified()),
    {
        let once = self.simplified();
        let twice = once.simplified();
        once.lemma_simplified_size();
        if twice.same(once) {
            twice.lemma_same_size(once);
        }
        if once.same(twice) {
            once.lemma_same_size(twice);
        }
    }

    /// Where every literal is equal to itself, so is every expression.
    pub proof fn lemma_same_reflexive(self)
        requires
            crate::eval::eq_is_reflexive::<V>(),
        ensures
            self.same(self),
        decreases self,
    {
        match self {
            Expr::Var(_) => {},
            Expr::Not(p) => {
                p.lemma_same_reflexive();
            },
            Expr::Or(a, b) => {
                a.lemma_same_reflexive();
                b.lemma_same_reflexive();
            },
            Expr::And(a, b) => {
                a.lemma_same_reflexive();
                b.lemma_same_reflexive();
            },
        }
    }

    /// `Or` and `And` are equal to themselves with the operands exchanged,
    /// and an `Or` is never equal to an `And`.
    pub proof fn lemma_same_commutes(a: Self, b: Self)
        requires
            crate::eval::eq_is_reflexive::<V>(),
        ensures
            Expr::Or(Box::new(a), Box::new(b)).same(Expr::Or(Box::new(b), Box::new(a))),
            Expr::And(Box::new(a), Box::new(b)).same(Expr::And(Box::new(b), Box::new(a))),
            !Expr::Or(Box::new(a), Box::new(b)).same(Expr::And(Box::new(a), Box::new(b))),
            !Expr::And(Box::new(a), Box::new(b)).same(Expr::Or(Box::new(a), Box::new(b))),
    {
        a.lemma_same_reflexive();
        b.lemma_same_reflexive();
    }

    /// A double negation has the truth value of what it negates.
    pub proof fn lemma_double_negation(self, data: V::Context)
        ensures
            Expr::Not(Box::new(Expr::Not(Box::new(self)))).truth(data) == self.truth(data),
    {
        reveal_with_fuel(Expr::truth, 3);
    }

    /// Where equal literals have the same truth value, so have equal
    /// expressions.
    pub proof fn lemma_same_truth(self, other: Self, data: V::Context)
        requires
            crate::eval::eq_decides_truth::<V>(),
            self.same(other),
        ensures
            self.truth(data) == other.truth(data),
        decreases self,
    {
        match (self, other) {
            (Expr::Var(p), Expr::Var(q)) => {
            },
            (Expr::Not(p), Expr::Not(q)) => {
                p.lemma_same_truth(*q, data);
            },
            (Expr::Or(a1, b1), Expr::Or(a2, b2)) => {
                if a1.same(*a2) && b1.same(*b2) {
                    a1.lemma_same_truth(*a2, data);
                    b1.lemma_same_truth(*b2, data);
                } else {
                    a1.lemma_same_truth(*b2, data);
                    b1.lemma_same_truth(*a2, data);
                }
            },
            (Expr::And(a1, b1), Expr::And(a2, b2)) => {
                if a1.same(*a2) && b1.same(*b2) {
                    a1.lemma_same_truth(*a2, data);
                    b1.lemma_same_truth(*b2, data);
                } else {
                    a1.lemma_same_truth(*b2, data);
                    b1.lemma_same_truth(*a2, data);
                }
            },
            _ => {},
        }
    }

    /// Where equal literals have the same truth value, simplification
    /// keeps the truth value.
    pub proof fn lemma_simplified_truth(self, data: V::Context)
        requires
            crate::eval::eq_decides_truth::<V>(),
        ensures
            self.simplified().truth(data) == self.truth(data),
        decreases self,
    {
        reveal_with_fuel(Expr::truth, 3);
        match self {
            Expr::Var(_) => {},
            Expr::Not(p) => match *p {
                Expr::Not(q) => {
                    q.lemma_simplified_truth(data);
                },
                _ => {
                    p.lemma_simplified_truth(data);
                },
            },
            Expr::Or(a, b) => {
                a.lemma_simplified_truth(data);
                b.lemma_simplified_truth(data);
                if a.simplified().same(b.simplified()) {
                    a.simplified().lemma_same_truth(b.simplified(), data);
                }
            },
            Expr::And(a, b) => {
                a.lemma_simplified_truth(data);
                b.lemma_simplified_truth(data);
                if a.simplified().same(b.simplified()) {
                    a.simplified().lemma_same_truth(b.simplified(), data);
                }
            },
        }
    }

    /// Pushing a negation down keeps the truth value.
    pub proof fn lemma_pushed_down_truth(self, data: V::Context)
        ensures
            self.pushed_down().truth(data) == self.truth(data),
        decreases self,
    {
        reveal_with_fuel(Expr::truth, 3);
        match self {
            Expr::Not(e) => match *e {
                Expr::Not(p) => {
                    p.lemma_pushed_down_truth(data);
                },
                _ => {},
            },
            _ => {},
        }
    }

    /// Distribution keeps the truth value.
    pub proof fn lemma_distributed_truth(self, data: V::Context)
        ensures
            self.distributed_and().truth(data) == self.truth(data),
            self.distributed_or().truth(data) == self.truth(data),
    {
        reveal_with_fuel(Expr::truth, 3);
    }
}

impl<V: Eval> Expr<V> {
    /// `v` is one of the literals of the expression.
    pub open spec fn mentions(self, v: V) -> bool
        decreases self,
    {
        match self {
            Expr::Var(p) => p == v,
            Expr::Not(p) => p.mentions(v),
            Expr::Or(a, b) => a.mentions(v) || b.mentions(v),
            Expr::And(a, b) => a.mentions(v) || b.mentions(v),
        }
    }

    /// `res` has the operators of `self` in the same places, over literals
    /// that `f` can return for the literals of `self`.
    pub open spec fn maps_to<W: Eval, F: Fn(V) -> W>(self, f: F, res: Expr<W>) -> bool
        decreases self,
    {
        match (self, res) {
            (Expr::Var(p), Expr::Var(q)) => f.ensures((p,), q),
            (Expr::Not(p), Expr::Not(q)) => p.maps_to(f, *q),
            (Expr::Or(a1, b1), Expr::Or(a2, b2)) => a1.maps_to(f, *a2) && b1.maps_to(f, *b2),
            (Expr::And(a1, b1), Expr::And(a2, b2)) => a1.maps_to(f, *a2) && b1.maps_to(f, *b2),
            _ => false,
        }
    }

    /// Replaces each literal by what `f` makes of it, and keeps the
    /// operators.
    pub fn map<W: Eval, F: Fn(V) -> W>(self, f: F) -> (res: Expr<W>)
        requires
            forall|v: V| self.mentions(v) ==> #[trigger] f.requires((v,)),
        ensures
            self.maps_to(f, res),
    {
        self.map_with(&f)
    }

    fn map_with<W: Eval, F: Fn(V) -> W>(self, f: &F) -> (res: Expr<W>)
        requires
            forall|v: V| self.mentions(v) ==> #[trigger] f.requires((v,)),
        ensures
            self.maps_to(*f, res),
        decreases self,
    {
        match self {
            Expr::Var(p) => Expr::Var(f(p)),
            Expr::Not(p) => Expr::Not(Box::new((*p).map_with(f))),
            Expr::Or(a, b) => Expr::Or(Box::new((*a).map_with(f)), Box::new((*b).map_with(f))),
            Expr::And(a, b) => Expr::And(Box::new((*a).map_with(f)), Box::new((*b).map_with(f))),
        }
    }
}

} // verus!
