use simple_predicates::Eval;
use simple_predicates::Expr;
use simple_predicates::Expr::{And, Not, Or, Var};

/// A literal that holds when its number occurs in the context.
#[derive(Debug, Clone, PartialEq, Eq)]
struct Num(u32);

impl Eval for Num {
    type Context = Vec<u32>;

    fn eval(&self, data: &Self::Context) -> bool {
        data.contains(&self.0)
    }
}

fn v(n: u32) -> Expr<Num> {
    Var(Num(n))
}

fn not(e: Expr<Num>) -> Expr<Num> {
    Not(Box::new(e))
}

fn or(a: Expr<Num>, b: Expr<Num>) -> Expr<Num> {
    Or(Box::new(a), Box::new(b))
}

fn and(a: Expr<Num>, b: Expr<Num>) -> Expr<Num> {
    And(Box::new(a), Box::new(b))
}

/// Asserts that the two expressions have the same operators over the same
/// literals, in the same order.
fn assert_repr(actual: Expr<Num>, expected: Expr<Num>) {
    assert!(
        actual.eq_repr(&expected),
        "{:?} is not written as {:?}",
        actual,
        expected
    );
}

#[test]
fn equality_ignores_the_order_of_operands() {
    assert_eq!(or(v(1), v(2)), or(v(2), v(1)));
    assert_eq!(and(v(1), v(2)), and(v(2), v(1)));
    assert_eq!(or(v(1), v(2)), or(v(1), v(2)));
    assert_eq!(
        and(or(v(1), v(2)), not(v(3))),
        and(not(v(3)), or(v(2), v(1)))
    );
}

#[test]
fn equality_tells_the_operators_apart() {
    assert_ne!(or(v(1), v(2)), and(v(1), v(2)));
    assert_ne!(and(v(1), v(2)), or(v(1), v(2)));
    assert_ne!(v(1), not(v(1)));
    assert_ne!(v(1), v(2));
    assert_ne!(or(v(1), v(2)), or(v(1), v(3)));
    assert_ne!(not(v(1)), not(v(2)));
}

#[test]
fn equality_is_not_associative() {
    assert_ne!(or(or(v(1), v(2)), v(3)), or(v(1), or(v(2), v(3))));
    assert_ne!(and(and(v(1), v(2)), v(3)), and(v(1), and(v(2), v(3))));
}

#[test]
fn eq_repr_compares_operands_in_order() {
    assert!(v(1).eq_repr(&v(1)));
    assert!(!v(1).eq_repr(&v(2)));
    assert!(not(v(1)).eq_repr(&not(v(1))));
    assert!(or(v(1), v(2)).eq_repr(&or(v(1), v(2))));
    assert!(and(v(1), v(2)).eq_repr(&and(v(1), v(2))));
    assert!(!or(v(1), v(2)).eq_repr(&or(v(2), v(1))));
    assert!(!and(v(1), v(2)).eq_repr(&and(v(2), v(1))));
    assert!(!or(v(1), v(2)).eq_repr(&and(v(1), v(2))));
    assert!(!or(v(1), v(1)).eq_repr(&or(v(2), v(2))));
    assert!(!v(1).eq_repr(&not(v(1))));
}

#[test]
fn eq_repr_implies_equality() {
    let a = and(or(v(1), not(v(2))), v(3));
    let b = and(or(v(1), not(v(2))), v(3));
    assert!(a.eq_repr(&b));
    assert_eq!(a, b);
}

#[test]
fn clone_copies_the_tree() {
    let a = and(or(v(1), not(v(2))), v(3));
    let b = a.clone();
    assert!(a.eq_repr(&b));
}

#[test]
fn simplify_leaves_a_literal() {
    assert_repr(v(7).simplify(), v(7));
}

#[test]
fn simplify_removes_a_double_negation() {
    assert_repr(not(not(v(1))).simplify(), v(1));
    assert_repr(not(not(not(v(1)))).simplify(), not(v(1)));
    assert_repr(not(not(not(not(v(1))))).simplify(), v(1));
    assert_repr(or(not(not(v(1))), v(2)).simplify(), or(v(1), v(2)));
}

#[test]
fn simplify_keeps_a_single_negation() {
    assert_repr(not(v(1)).simplify(), not(v(1)));
    assert_repr(
        not(and(not(not(v(1))), v(2))).simplify(),
        not(and(v(1), v(2))),
    );
}

#[test]
fn simplify_collapses_equal_operands() {
    assert_repr(and(v(1), v(1)).simplify(), v(1));
    assert_repr(or(v(1), v(1)).simplify(), v(1));
    // The operands are equal once each is simplified.
    assert_repr(and(not(not(v(1))), v(1)).simplify(), v(1));
    // Equal up to the order of operands: the first one stays.
    assert_repr(and(or(v(1), v(2)), or(v(2), v(1))).simplify(), or(v(1), v(2)));
    assert_repr(or(and(v(2), v(1)), and(v(1), v(2))).simplify(), and(v(2), v(1)));
}

#[test]
fn simplify_keeps_different_operands() {
    assert_repr(and(v(1), v(2)).simplify(), and(v(1), v(2)));
    assert_repr(or(v(1), v(2)).simplify(), or(v(1), v(2)));
    // No absorption and no De Morgan.
    assert_repr(
        or(v(1), and(v(1), v(2))).simplify(),
        or(v(1), and(v(1), v(2))),
    );
    assert_repr(not(or(v(1), v(2))).simplify(), not(or(v(1), v(2))));
    assert_repr(or(v(1), not(v(1))).simplify(), or(v(1), not(v(1))));
}

#[test]
fn simplify_twice_is_simplify_once() {
    let inputs = vec![
        v(1),
        not(not(v(1))),
        and(v(1), v(1)),
        or(and(v(1), v(2)), and(v(2), v(1))),
        and(or(not(not(v(1))), v(2)), not(v(3))),
        not(and(v(1), not(not(v(2))))),
    ];
    for e in inputs {
        let once = e.simplify();
        let twice = once.clone().simplify();
        assert_eq!(twice, once);
        assert!(twice.eq_repr(&once));
    }
}

#[test]
fn simplify_can_leave_a_double_negation() {
    // The operands collapse to a negation, below a negation.
    let e = not(and(not(v(1)), not(v(1))));
    let once = e.simplify();
    assert_repr(once.clone(), not(not(v(1))));
    let twice = once.clone().simplify();
    assert_repr(twice.clone(), v(1));
    assert_ne!(twice, once);
}

#[test]
fn pushdown_not_leaves_what_is_no_negation() {
    assert_repr(v(1).pushdown_not(), v(1));
    assert_repr(or(v(1), v(2)).pushdown_not(), or(v(1), v(2)));
    assert_repr(and(v(1), not(v(2))).pushdown_not(), and(v(1), not(v(2))));
}

#[test]
fn pushdown_not_leaves_a_negated_literal() {
    assert_repr(not(v(1)).pushdown_not(), not(v(1)));
}

#[test]
fn pushdown_not_cancels_paired_negations() {
    assert_repr(not(not(v(1))).pushdown_not(), v(1));
    assert_repr(not(not(or(v(1), v(2)))).pushdown_not(), or(v(1), v(2)));
    assert_repr(not(not(not(v(1)))).pushdown_not(), not(v(1)));
    assert_repr(
        not(not(not(or(v(1), v(2))))).pushdown_not(),
        and(not(v(1)), not(v(2))),
    );
}

#[test]
fn pushdown_not_applies_de_morgan_once() {
    assert_repr(not(or(v(1), v(2))).pushdown_not(), and(not(v(1)), not(v(2))));
    assert_repr(not(and(v(1), v(2))).pushdown_not(), or(not(v(1)), not(v(2))));
    // The operands are negated as they are.
    assert_repr(
        not(or(and(v(1), v(2)), not(v(3)))).pushdown_not(),
        and(not(and(v(1), v(2))), not(not(v(3)))),
    );
}

#[test]
fn distribute_and_over_the_second_operand() {
    assert_repr(
        and(v(1), or(v(2), v(3))).distribute_and(),
        or(and(v(1), v(2)), and(v(1), v(3))),
    );
}

#[test]
fn distribute_and_over_the_first_operand() {
    assert_repr(
        and(or(v(2), v(3)), v(1)).distribute_and(),
        or(and(v(1), v(2)), and(v(1), v(3))),
    );
}

#[test]
fn distribute_and_with_two_disjunctions_splits_the_first() {
    assert_repr(
        and(or(v(1), v(2)), or(v(3), v(4))).distribute_and(),
        or(and(or(v(3), v(4)), v(1)), and(or(v(3), v(4)), v(2))),
    );
}

#[test]
fn distribute_and_leaves_the_rest() {
    assert_repr(and(v(1), v(2)).distribute_and(), and(v(1), v(2)));
    assert_repr(and(v(1), and(v(2), v(3))).distribute_and(), and(v(1), and(v(2), v(3))));
    assert_repr(or(v(1), and(v(2), v(3))).distribute_and(), or(v(1), and(v(2), v(3))));
    assert_repr(v(1).distribute_and(), v(1));
    assert_repr(
        not(and(v(1), or(v(2), v(3)))).distribute_and(),
        not(and(v(1), or(v(2), v(3)))),
    );
}

#[test]
fn distribute_or_over_the_second_operand() {
    assert_repr(
        or(v(1), and(v(2), v(3))).distribute_or(),
        and(or(v(1), v(2)), or(v(1), v(3))),
    );
}

#[test]
fn distribute_or_over_the_first_operand() {
    assert_repr(
        or(and(v(2), v(3)), v(1)).distribute_or(),
        and(or(v(1), v(2)), or(v(1), v(3))),
    );
}

#[test]
fn distribute_or_with_two_conjunctions_splits_the_first() {
    assert_repr(
        or(and(v(1), v(2)), and(v(3), v(4))).distribute_or(),
        and(or(and(v(3), v(4)), v(1)), or(and(v(3), v(4)), v(2))),
    );
}

#[test]
fn distribute_or_leaves_the_rest() {
    assert_repr(or(v(1), v(2)).distribute_or(), or(v(1), v(2)));
    assert_repr(or(v(1), or(v(2), v(3))).distribute_or(), or(v(1), or(v(2), v(3))));
    assert_repr(and(v(1), or(v(2), v(3))).distribute_or(), and(v(1), or(v(2), v(3))));
    assert_repr(v(1).distribute_or(), v(1));
}

#[test]
fn distribution_keeps_the_truth_value() {
    let contexts: Vec<Vec<u32>> = vec![
        vec![],
        vec![1],
        vec![2],
        vec![3],
        vec![1, 2],
        vec![1, 3],
        vec![2, 3],
        vec![1, 2, 3],
    ];
    for items in contexts {
        let a = and(v(1), or(v(2), v(3)));
        assert_eq!(a.clone().distribute_and().eval(&items), a.eval(&items));
        let o = or(and(v(2), v(3)), v(1));
        assert_eq!(o.clone().distribute_or().eval(&items), o.eval(&items));
        let n = not(or(v(1), and(v(2), v(3))));
        assert_eq!(n.clone().pushdown_not().eval(&items), n.eval(&items));
    }
}
