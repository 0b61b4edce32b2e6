//! Simple boolean predicates.
//!
//! A predicate is a formula that is true or false once the variables that
//! occur in it are decided. Here the variables are values of a type chosen
//! by the user, the literals, which implement [`Eval`]: given some
//! contextual data, a literal says whether it holds. [`Expr`] combines
//! literals with `Not`, `Or` and `And`, and evaluates the combination.
//!
//! ```text
//! #[derive(Clone, PartialEq, Eq)]
//! struct Contains(u32);
//!
//! impl Eval for Contains {
//!     type Context = Vec<u32>;
//!
//!     fn eval(&self, data: &Vec<u32>) -> bool {
//!         data.contains(&self.0)
//!     }
//! }
//!
//! // True of a context that holds 4 and not 5.
//! let expr = And(
//!     Box::new(Var(Contains(4))),
//!     Box::new(Not(Box::new(Var(Contains(5))))),
//! );
//! assert!(expr.eval(&vec![1, 2, 4, 7]));
//! ```
//!
//! # Normal forms
//!
//! An expression converts into the clauses of its conjunctive normal form,
//! which are joined by `And`, or of its disjunctive normal form, which are
//! joined by `Or`. [`CnfVec`] and [`DnfVec`] keep the clauses in the order
//! in which extraction yields them, repeated clauses included;
//! [`CnfHashSet`] and [`DnfHashSet`] keep of equal clauses the first only.
//! Each of them is made `from` an expression, or `from` a `Vec` of clauses
//! that is taken as it is, and evaluates like the expression it was made
//! from.
//!
//! Extraction rewrites at the root only: it simplifies the expression once
//! ([`Expr::simplify`]), then takes pending parts from a stack, pushes a
//! negation at the root of the part down ([`Expr::pushdown_not`]),
//! distributes ([`Expr::distribute_or`] for the conjunctive form,
//! [`Expr::distribute_and`] for the disjunctive one), and either splits the
//! result into two pending parts or keeps it as a clause.
//!
//! # Equality
//!
//! `==` on expressions takes the two operands of an `Or` or an `And` as an
//! unordered pair, and nothing more: `Or(a, b) == Or(b, a)`, but
//! `Or(Or(a, b), c) != Or(a, Or(b, c))`. [`Expr::eq_repr`] compares the
//! operands in order.
//!
//! # What is stated of literals
//!
//! What the operations return depends on how `==`, `clone` and `eval` of
//! the literal type behave. The contracts name what they rely on:
//! `obeys_eq_spec` of the literal type where a result depends on `==`,
//! [`eval::clone_is_exact`] where it depends on `clone`, and
//! [`eval::eq_decides_truth`] where a truth value is kept only if equal
//! literals evaluate alike. For a literal type that does not meet what a
//! contract names, that contract states nothing.

pub mod clauses;
pub mod eval;
pub mod expr;
pub mod hash;
pub mod normal;
pub mod vec;

pub use eval::Eval;
pub use expr::Expr;
pub use hash::Cnf;
pub use hash::CnfHashSet;
pub use hash::Dnf;
pub use hash::DnfHashSet;
pub use vec::CnfVec;
pub use vec::DnfVec;
