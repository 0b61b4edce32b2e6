//! Extraction of the clauses of a conjunctive or disjunctive normal form.
//!
//! Both forms come from one rewriting scheme. The flag `conj` selects the
//! form: with `conj` the clauses are joined by `And` and `Or` is distributed
//! over `And`; without it the clauses are joined by `Or` and `And` is
//! distributed over `Or`.

use vstd::prelude::*;
use vstd::std_specs::cmp::PartialEqSpec;
use crate::eval::Eval;
use crate::expr::Expr;

verus! {

impl<V: Eval> Expr<V> {
    /// The first operand of an `Or` or `And`.
    pub open spec fn left(self) -> Self {
        match self {
            Expr::Or(a, _) => *a,
            Expr::And(a, _) => *a,
            _ => self,
        }
    }

    /// The second operand of an `Or` or `And`.
    pub open spec fn right(self) -> Self {
        match self {
            Expr::Or(_, b) => *b,
            Expr::And(_, b) => *b,
            _ => self,
        }
    }

    /// The root is the operator that joins the clauses of the form.
    pub open spec fn splits(self, conj: bool) -> bool {
        if conj {
            self is And
        } else {
            self is Or
        }
    }

    /// One round of rewriting at the root: a negation is pushed down, then
    /// the operator that joins the literals of a clause is distributed over
    /// the one that joins the clauses.
    pub open spec fn rewritten(self, conj: bool) -> Self {
        if conj {
            self.pushed_down().distributed_or()
        } else {
            self.pushed_down().distributed_and()
        }
    }

    /// `res` is `self.rewritten(conj)` up to a copy of the operand that
    /// distribution repeats.
    pub open spec fn rewrites_to(self, res: Self, conj: bool) -> bool {
        if conj {
            self.pushed_down().distributes_or_to(res)
        } else {
            self.pushed_down().distributes_and_to(res)
        }
    }

    /// A bound on the rewriting that the expression still needs: each round
    /// that splits an expression leaves two parts whose weights add up to
    /// less than its own.
    pub open spec fn weight(self, conj: bool) -> nat
        decreases self,
    {
        match self {
            Expr::Var(_) => 1,
            Expr::Not(p) => p.weight(!conj),
            Expr::Or(a, b) => if conj {
                a.weight(conj) * b.weight(conj)
            } else {
                a.weight(conj) + b.weight(conj) + 1
            },
            Expr::And(a, b) => if conj {
                a.weight(conj) + b.weight(conj) + 1
            } else {
                a.weight(conj) * b.weight(conj)
            },
        }
    }

    /// The clauses that rewriting leaves of the expression, in the order in
    /// which a stack of pending parts yields them: those of the second
    /// operand of a split before those of the first.
    pub open spec fn flattened(self, conj: bool) -> Seq<Self>
        decreases self.weight(conj),
        via Self::flattened_decreases
    {
        let e = self.rewritten(conj);
        if e.splits(conj) {
            e.right().flattened(conj) + e.left().flattened(conj)
        } else {
            seq![e]
        }
    }

    #[via_fn]
    proof fn flattened_decreases(self, conj: bool) {
        let e = self.rewritten(conj);
        self.lemma_rewritten_rewrites(conj);
        self.lemma_rewrite_weight(e, conj);
        e.left().lemma_weight_positive(conj);
        e.right().lemma_weight_positive(conj);
    }

    /// The clauses of the conjunctive normal form of the expression.
    pub open spec fn cnf_clauses(self) -> Seq<Self> {
        self.simplified().flattened(true)
    }

    /// The clauses of the disjunctive normal form of the expression.
    pub open spec fn dnf_clauses(self) -> Seq<Self> {
        self.simplified().flattened(false)
    }

    /// Every expression is a copy of itself.
    pub proof fn lemma_copies_to_self(self)
        ensures
            self.copies_to(self),
        decreases self,
    {
        match self {
            Expr::Var(_) => {},
            Expr::Not(p) => {
                p.lemma_copies_to_self();
            },
            Expr::Or(a, b) => {
                a.lemma_copies_to_self();
                b.lemma_copies_to_self();
            },
            Expr::And(a, b) => {
                a.lemma_copies_to_self();
                b.lemma_copies_to_self();
            },
        }
    }

    /// A copy weighs what the expression weighs.
    pub proof fn lemma_copy_weight(self, other: Self, conj: bool)
        requires
            self.copies_to(other),
        ensures
            other.weight(conj) == self.weight(conj),
        decreases self,
    {
        match (self, other) {
            (Expr::Not(p), Expr::Not(q)) => {
                p.lemma_copy_weight(*q, !conj);
            },
            (Expr::Or(a1, b1), Expr::Or(a2, b2)) => {
                a1.lemma_copy_weight(*a2, conj);
                b1.lemma_copy_weight(*b2, conj);
            },
            (Expr::And(a1, b1), Expr::And(a2, b2)) => {
                a1.lemma_copy_weight(*a2, conj);
                b1.lemma_copy_weight(*b2, conj);
            },
            _ => {},
        }
    }

    /// No expression weighs nothing.
    pub proof fn lemma_weight_positive(self, conj: bool)
        ensures
            self.weight(conj) >= 1,
        decreases self,
    {
        match self {
            Expr::Var(_) => {},
            Expr::Not(p) => {
                p.lemma_weight_positive(!conj);
            },
            Expr::Or(a, b) => {
                a.lemma_weight_positive(conj);
                b.lemma_weight_positive(conj);
                assert(a.weight(conj) * b.weight(conj) >= 1) by (nonlinear_arith)
                    requires
                        a.weight(conj) >= 1,
                        b.weight(conj) >= 1,
                ;
            },
            Expr::And(a, b) => {
                a.lemma_weight_positive(conj);
                b.lemma_weight_positive(conj);
                assert(a.weight(conj) * b.weight(conj) >= 1) by (nonlinear_arith)
                    requires
                        a.weight(conj) >= 1,
                        b.weight(conj) >= 1,
                ;
            },
        }
    }

    /// The exact rewriting is one of the rewritings up to a copy.
    pub proof fn lemma_rewritten_rewrites(self, conj: bool)
        ensures
            self.rewrites_to(self.rewritten(conj), conj),
    {
        let e = self.pushed_down();
        if conj {
            if let Some((p, q, r)) = e.or_over_and() {
                p.lemma_copies_to_self();
            }
        } else {
            if let Some((p, q, r)) = e.and_over_or() {
                p.lemma_copies_to_self();
            }
        }
    }

    /// A round of rewriting that ends in a split leaves two operands that
    /// together weigh less than the expression did.
    pub proof fn lemma_rewrite_weight(self, res: Self, conj: bool)
        requires
            self.rewrites_to(res, conj),
        ensures
            res.splits(conj) ==> res.left().weight(conj) + res.right().weight(conj)
                < self.weight(conj),
        decreases self,
    {
        match self {
            Expr::Var(_) => {},
            Expr::Not(e) => match *e {
                Expr::Var(_) => {},
                Expr::Not(p) => {
                    assert(e.weight(!conj) == p.weight(conj));
                    p.lemma_rewrite_weight(res, conj);
                },
                Expr::Or(a, b) => {
                    assert(e.weight(!conj) == if conj {
                        a.weight(!conj) + b.weight(!conj) + 1
                    } else {
                        a.weight(!conj) * b.weight(!conj)
                    });
                },
                Expr::And(a, b) => {
                    assert(e.weight(!conj) == if conj {
                        a.weight(!conj) * b.weight(!conj)
                    } else {
                        a.weight(!conj) + b.weight(!conj) + 1
                    });
                },
            },
            Expr::Or(a, b) => {
                if conj {
                    self.lemma_distribution_weight(res, conj);
                }
            },
            Expr::And(a, b) => {
                if !conj {
                    self.lemma_distribution_weight(res, conj);
                }
            },
        }
    }

    /// Distribution at the root leaves two operands that together weigh
    /// less than the expression did.
    proof fn lemma_distribution_weight(self, res: Self, conj: bool)
        requires
            if conj {
                self is Or && self.distributes_or_to(res)
            } else {
                self is And && self.distributes_and_to(res)
            },
        ensures
            res.splits(conj) ==> res.left().weight(conj) + res.right().weight(conj)
                < self.weight(conj),
    {
        let parts = if conj {
            self.or_over_and()
        } else {
            self.and_over_or()
        };
        if let Some((p, q, r)) = parts {
            let c = res.left().left();
            p.lemma_copy_weight(c, conj);
            p.lemma_weight_positive(conj);
            let wp = p.weight(conj);
            let wq = q.weight(conj);
            let wr = r.weight(conj);
            let a = self.left();
            let b = self.right();
            if a == p {
                assert(b.weight(conj) == wq + wr + 1);
            } else {
                assert(a.weight(conj) == wq + wr + 1);
            }
            assert(wp * wq + wp * wr < wp * (wq + wr + 1) && wp * (wq + wr + 1) == (wq + wr + 1)
                * wp) by (nonlinear_arith)
                requires
                    wp >= 1,
            ;
        }
    }
}

/// What the expressions of a stack of pending parts weigh together.
pub open spec fn pending_weight<V: Eval>(stack: Seq<Expr<V>>, conj: bool) -> nat
    decreases stack.len(),
{
    if stack.len() == 0 {
        0
    } else {
        pending_weight(stack.drop_last(), conj) + stack.last().weight(conj)
    }
}

/// The clauses that a stack of pending parts still yields, the top of the
/// stack first.
pub open spec fn pending_clauses<V: Eval>(stack: Seq<Expr<V>>, conj: bool) -> Seq<Expr<V>>
    decreases stack.len(),
{
    if stack.len() == 0 {
        Seq::empty()
    } else {
        stack.last().flattened(conj) + pending_clauses(stack.drop_last(), conj)
    }
}

impl<V: Eval> Expr<V> {
    /// Extracts the clauses of a normal form of the expression: of the
    /// conjunctive one where `conj` is set, of the disjunctive one where it
    /// is not. The expression is simplified once; then a stack of pending
    /// parts is rewritten part by part, until each part is a clause.
    pub fn normal_clauses(self, conj: bool) -> (out: Vec<Self>)
        ensures
            V::obeys_eq_spec() && crate::eval::clone_is_exact::<V>() ==> out@
                == self.simplified().flattened(conj),
            out@.len() >= 1,
    {
        let ghost faithful = V::obeys_eq_spec() && crate::eval::clone_is_exact::<V>();
        let ghost start = self.simplified();
        let mut out: Vec<Self> = Vec::new();
        let mut stack: Vec<Self> = Vec::with_capacity(2);
        stack.push(self.simplify());
        proof {
            if faithful {
                assert(pending_clauses(stack@.drop_last(), conj) =~= Seq::empty());
            }
        }
        while stack.len() > 0
            invariant
                faithful == (V::obeys_eq_spec() && crate::eval::clone_is_exact::<V>()),
                faithful ==> out@ + pending_clauses(stack@, conj) == start.flattened(conj),
                out@.len() + stack@.len() >= 1,
            decreases pending_weight(stack@, conj),
        {
            let ghost before = stack@;
            let ghost rest = before.drop_last();
            let ghost done = out@;
            let part = stack.pop().unwrap();
            let part = if conj {
                part.pushdown_not().distribute_or()
            } else {
                part.pushdown_not().distribute_and()
            };
            proof {
                let x = before.last();
                x.lemma_rewrite_weight(part, conj);
                x.lemma_weight_positive(conj);
            }
            match (conj, part) {
                (true, Expr::And(a, b)) => {
                    stack.push(*a);
                    stack.push(*b);
                    proof {
                        lemma_pending_two(rest, *a, *b, conj);
                    }
                },
                (false, Expr::Or(a, b)) => {
                    stack.push(*a);
                    stack.push(*b);
                    proof {
                        lemma_pending_two(rest, *a, *b, conj);
                    }
                },
                (_, clause) => {
                    out.push(clause);
                    proof {
                        if faithful {
                            assert(out@ + pending_clauses(stack@, conj) =~= done + (seq![clause]
                                + pending_clauses(rest, conj)));
                        }
                    }
                },
            }
        }
        out
    }
}

/// Two parts on top of a stack add their weights to its weight, and put
/// their clauses, those of the upper part first, before its clauses.
proof fn lemma_pending_two<V: Eval>(rest: Seq<Expr<V>>, a: Expr<V>, b: Expr<V>, conj: bool)
    ensures
        pending_weight(rest.push(a).push(b), conj) == pending_weight(rest, conj) + a.weight(conj)
            + b.weight(conj),
        pending_clauses(rest.push(a).push(b), conj) == (b.flattened(conj) + a.flattened(conj))
            + pending_clauses(rest, conj),
{
    let one = rest.push(a);
    let two = one.push(b);
    assert(two.drop_last() =~= one);
    assert(one.drop_last() =~= rest);
    assert(pending_weight(two, conj) == pending_weight(one, conj) + b.weight(conj));
    assert(pending_clauses(one, conj) == a.flattened(conj) + pending_clauses(rest, conj));
    assert(b.flattened(conj) + (a.flattened(conj) + pending_clauses(rest, conj)) =~= (b.flattened(
        conj,
    ) + a.flattened(conj)) + pending_clauses(rest, conj));
}

impl<V: Eval> Expr<V> {
    /// One round of rewriting keeps the truth value.
    pub proof fn lemma_rewritten_truth(self, data: V::Context, conj: bool)
        ensures
            self.rewritten(conj).truth(data) == self.truth(data),
    {
        self.lemma_pushed_down_truth(data);
        self.pushed_down().lemma_distributed_truth(data);
    }

    /// The clauses of an expression, taken together, have its truth value.
    pub proof fn lemma_flattened_truth(self, data: V::Context, conj: bool)
        ensures
            crate::clauses::joint_truth(self.flattened(conj), data, conj) == self.truth(data),
        decreases self.weight(conj),
    {
        let e = self.rewritten(conj);
        self.lemma_rewritten_truth(data, conj);
        if e.splits(conj) {
            self.lemma_rewritten_rewrites(conj);
            self.lemma_rewrite_weight(e, conj);
            e.left().lemma_weight_positive(conj);
            e.right().lemma_weight_positive(conj);
            e.left().lemma_flattened_truth(data, conj);
            e.right().lemma_flattened_truth(data, conj);
            crate::clauses::lemma_concat_truth(
                e.right().flattened(conj),
                e.left().flattened(conj),
                data,
            );
        } else {
            assert(seq![e][0] == e);
        }
    }

    /// Rewriting leaves at least one clause, and no clause that would still
    /// be split.
    pub proof fn lemma_flattened_whole(self, conj: bool)
        ensures
            self.flattened(conj).len() >= 1,
            forall|i: int|
                #![trigger self.flattened(conj)[i]]
                0 <= i < self.flattened(conj).len() ==> !self.flattened(conj)[i].splits(conj),
        decreases self.weight(conj),
    {
        let e = self.rewritten(conj);
        if e.splits(conj) {
            self.lemma_rewritten_rewrites(conj);
            self.lemma_rewrite_weight(e, conj);
            e.left().lemma_weight_positive(conj);
            e.right().lemma_weight_positive(conj);
            e.left().lemma_flattened_whole(conj);
            e.right().lemma_flattened_whole(conj);
        }
    }

    /// Evaluation is consistent across the forms: where equal literals have
    /// the same truth value, the conjunction of the clauses of the
    /// conjunctive normal form and the disjunction of the clauses of the
    /// disjunctive normal form have the truth value of the expression, with
    /// repeated clauses kept or left out.
    pub proof fn lemma_normal_forms_truth(self, data: V::Context)
        requires
            crate::eval::eq_decides_truth::<V>(),
        ensures
            crate::clauses::all_hold(self.cnf_clauses(), data) == self.truth(data),
            crate::clauses::any_holds(self.dnf_clauses(), data) == self.truth(data),
            crate::clauses::all_hold(crate::clauses::distinct(self.cnf_clauses()), data)
                == self.truth(data),
            crate::clauses::any_holds(crate::clauses::distinct(self.dnf_clauses()), data)
                == self.truth(data),
    {
        self.lemma_simplified_truth(data);
        self.simplified().lemma_flattened_truth(data, true);
        self.simplified().lemma_flattened_truth(data, false);
        crate::clauses::lemma_distinct_truth(self.cnf_clauses(), data);
        crate::clauses::lemma_distinct_truth(self.dnf_clauses(), data);
    }
}

} // verus!
