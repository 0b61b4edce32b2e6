use simple_predicates::Eval;
use simple_predicates::Expr;
use simple_predicates::Expr::{And, Not, Or, Var};

/// A literal that holds when its number occurs in the context.
#[derive(Debug, Clone, PartialEq, Eq)]
struct Contains(u32);

impl Eval for Contains {
    type Context = Vec<u32>;

    fn eval(&self, data: &Self::Context) -> bool {
        data.contains(&self.0)
    }
}

fn var(n: u32) -> Expr<Contains> {
    Var(Contains(n))
}

#[test]
fn simple_bool() {
    let items: Vec<u32> = vec![1, 2, 4, 5, 7, 9, 10];

    let expr = var(4);
    assert!(expr.eval(&items));

    let expr = var(3);
    assert!(!expr.eval(&items));
}

#[test]
fn simple_not() {
    let items: Vec<u32> = vec![1, 2, 4, 5, 7, 9, 10];

    let expr = Not(Box::new(var(4)));
    assert!(!expr.eval(&items));

    let expr = Not(Box::new(var(3)));
    assert!(expr.eval(&items));
}

#[test]
fn simple_or() {
    let items: Vec<u32> = vec![1, 2, 4, 5, 7, 9, 10];

    let expr = Or(Box::new(var(4)), Box::new(var(5)));
    assert!(expr.eval(&items));

    let expr = Or(Box::new(var(3)), Box::new(var(4)));
    assert!(expr.eval(&items));

    let expr = Or(Box::new(var(3)), Box::new(var(6)));
    assert!(!expr.eval(&items));
}

#[test]
fn simple_and() {
    let items: Vec<u32> = vec![1, 2, 4, 5, 7, 9, 10];

    let expr = And(Box::new(var(4)), Box::new(var(5)));
    assert!(expr.eval(&items));

    let expr = And(Box::new(var(3)), Box::new(var(4)));
    assert!(!expr.eval(&items));

    let expr = And(Box::new(var(3)), Box::new(var(6)));
    assert!(!expr.eval(&items));
}

#[test]
fn map_and() {
    let items: Vec<u32> = vec![1, 2, 4, 5, 7, 9, 10];

    let expr = And(Box::new(var(3)), Box::new(var(8))).map(|v| Contains(v.0 + 1));
    assert!(expr.eval(&items));

    let expr = And(Box::new(var(1)), Box::new(var(5))).map(|v| Contains(v.0 + 1));
    assert!(!expr.eval(&items));

    let expr = And(Box::new(var(10)), Box::new(var(4))).map(|v| Contains(v.0 + 1));
    assert!(!expr.eval(&items));
}

#[test]
fn map_keeps_the_operators() {
    let expr = Or(
        Box::new(Not(Box::new(var(1)))),
        Box::new(And(Box::new(var(2)), Box::new(var(3)))),
    );
    let mapped = expr.map(|v| Contains(v.0 * 10));
    let expected = Or(
        Box::new(Not(Box::new(var(10)))),
        Box::new(And(Box::new(var(20)), Box::new(var(30)))),
    );
    assert!(mapped.eq_repr(&expected));
}

#[test]
fn nested_operators_evaluate_by_their_operands() {
    let items: Vec<u32> = vec![1, 2, 4, 5, 7, 9, 10];

    // 4 is there and 5 is there, so "4 and not 5" fails.
    let expr = And(Box::new(var(4)), Box::new(Not(Box::new(var(5)))));
    assert!(!expr.eval(&items));

    // 4 is there and 6 is not.
    let expr = And(Box::new(var(4)), Box::new(Not(Box::new(var(6)))));
    assert!(expr.eval(&items));

    let expr = Or(
        Box::new(And(Box::new(var(3)), Box::new(var(4)))),
        Box::new(Not(Box::new(Or(Box::new(var(6)), Box::new(var(8)))))),
    );
    assert!(expr.eval(&items));
}

#[test]
fn double_negation_evaluates_as_the_operand() {
    let items: Vec<u32> = vec![1, 2, 4, 5, 7, 9, 10];
    for n in 0..12 {
        let twice = Not(Box::new(Not(Box::new(var(n)))));
        assert_eq!(twice.eval(&items), var(n).eval(&items));
    }
    let inner = And(Box::new(var(4)), Box::new(Not(Box::new(var(3)))));
    let twice = Not(Box::new(Not(Box::new(inner.clone()))));
    assert!(inner.eval(&items));
    assert!(twice.eval(&items));
}

#[test]
fn evaluation_against_an_empty_context() {
    let items: Vec<u32> = Vec::new();
    assert!(!var(1).eval(&items));
    assert!(Not(Box::new(var(1))).eval(&items));
    assert!(!Or(Box::new(var(1)), Box::new(var(2))).eval(&items));
}
