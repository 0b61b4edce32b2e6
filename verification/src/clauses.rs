//! Sequences of clauses: their joint truth, and how a collection that keeps
//! no clause twice is filled and compared.

use vstd::prelude::*;
use vstd::std_specs::cmp::PartialEqSpec;
use crate::eval::Eval;
use crate::expr::Expr;

verus! {

/// Every clause of `s` holds under `data`: the truth value of a conjunction
/// of clauses. An empty conjunction holds.
pub open spec fn all_hold<V: Eval>(s: Seq<Expr<V>>, data: V::Context) -> bool {
    forall|i: int| 0 <= i < s.len() ==> #[trigger] s[i].truth(data)
}

/// Some clause of `s` holds under `data`: the truth value of a disjunction
/// of clauses. An empty disjunction does not hold.
pub open spec fn any_holds<V: Eval>(s: Seq<Expr<V>>, data: V::Context) -> bool {
    exists|i: int| 0 <= i < s.len() && #[trigger] s[i].truth(data)
}

/// `s` has a clause that `e` is equal to.
pub open spec fn has_same<V: Eval>(s: Seq<Expr<V>>, e: Expr<V>) -> bool {
    exists|i: int| 0 <= i < s.len() && #[trigger] e.same(s[i])
}

/// No clause of `s` is equal to one that stands before it.
pub open spec fn no_repeat<V: Eval>(s: Seq<Expr<V>>) -> bool {
    forall|i: int, j: int| 0 <= i < j < s.len() ==> !#[trigger] s[j].same(#[trigger] s[i])
}

/// `s` after `e` was offered to it: unchanged where it has a clause that
/// `e` is equal to, and with `e` at its end where it has none.
pub open spec fn inserted<V: Eval>(s: Seq<Expr<V>>, e: Expr<V>) -> Seq<Expr<V>> {
    if has_same(s, e) {
        s
    } else {
        s.push(e)
    }
}

/// The clauses of `s` offered one by one, from the first on, to a sequence
/// that starts empty: of clauses that are equal, the first one stays.
pub open spec fn distinct<V: Eval>(s: Seq<Expr<V>>) -> Seq<Expr<V>>
    decreases s.len(),
{
    if s.len() == 0 {
        Seq::empty()
    } else {
        inserted(distinct(s.drop_last()), s.last())
    }
}

/// `a` and `b` have as many clauses, and each clause of `a` is equal to one
/// of `b`.
pub open spec fn same_set<V: Eval>(a: Seq<Expr<V>>, b: Seq<Expr<V>>) -> bool {
    a.len() == b.len() && forall|i: int| 0 <= i < a.len() ==> has_same(b, #[trigger] a[i])
}

/// Whether every clause holds under `data`, looking no further than the
/// first that does not.
pub fn eval_all<V: Eval>(clauses: &Vec<Expr<V>>, data: &V::Context) -> (b: bool)
    ensures
        b == all_hold(clauses@, *data),
{
    let mut i: usize = 0;
    while i < clauses.len()
        invariant
            i <= clauses.len(),
            forall|j: int| 0 <= j < i ==> #[trigger] clauses@[j].truth(*data),
        decreases clauses.len() - i,
    {
        if !clauses[i].eval(data) {
            return false;
        }
        i += 1;
    }
    true
}

/// Whether some clause holds under `data`, looking no further than the
/// first that does.
pub fn eval_any<V: Eval>(clauses: &Vec<Expr<V>>, data: &V::Context) -> (b: bool)
    ensures
        b == any_holds(clauses@, *data),
{
    let mut i: usize = 0;
    while i < clauses.len()
        invariant
            i <= clauses.len(),
            forall|j: int| 0 <= j < i ==> !#[trigger] clauses@[j].truth(*data),
        decreases clauses.len() - i,
    {
        if clauses[i].eval(data) {
            return true;
        }
        i += 1;
    }
    false
}

/// Whether the collection has a clause that `e` is equal to.
pub fn contains<V: Eval>(clauses: &Vec<Expr<V>>, e: &Expr<V>) -> (b: bool)
    ensures
        V::obeys_eq_spec() ==> b == has_same(clauses@, *e),
        clauses@.len() == 0 ==> !b,
{
    let mut i: usize = 0;
    while i < clauses.len()
        invariant
            i <= clauses.len(),
            V::obeys_eq_spec() ==> forall|j: int| 0 <= j < i ==> !#[trigger] e.same(clauses@[j]),
        decreases clauses.len() - i,
    {
        if *e == clauses[i] {
            return true;
        }
        i += 1;
    }
    false
}

/// Offers `e` to the collection, which takes it unless it has a clause that
/// `e` is equal to.
pub fn insert<V: Eval>(clauses: &mut Vec<Expr<V>>, e: Expr<V>)
    ensures
        V::obeys_eq_spec() ==> final(clauses)@ == inserted(old(clauses)@, e),
        final(clauses)@ == old(clauses)@ || final(clauses)@ == old(clauses)@.push(e),
        old(clauses)@.len() == 0 ==> final(clauses)@ == old(clauses)@.push(e),
{
    if !contains(clauses, &e) {
        clauses.push(e);
    }
}

/// Collects the clauses into a collection that keeps no clause twice.
pub fn collect_distinct<V: Eval>(clauses: Vec<Expr<V>>) -> (out: Vec<Expr<V>>)
    ensures
        V::obeys_eq_spec() ==> out@ == distinct(clauses@),
        out@.len() <= clauses@.len(),
        clauses@.len() == 0 ==> out@.len() == 0,
        clauses@.len() >= 1 ==> out@.len() >= 1 && out@[0] == clauses@[0],
{
    let mut out: Vec<Expr<V>> = Vec::new();
    let ghost all = clauses@;
    for e in it: clauses
        invariant
            it.seq() == all,
            V::obeys_eq_spec() ==> out@ == distinct(all.take(it.index() as int)),
            out@.len() <= it.index(),
            it.index() >= 1 ==> out@.len() >= 1 && out@[0] == all[0],
    {
        proof {
            let n = it.index() as int;
            assert(all.take(n + 1).drop_last() =~= all.take(n));
        }
        insert(&mut out, e);
    }
    proof {
        assert(all.take(all.len() as int) =~= all);
    }
    out
}

/// Whether the two collections have as many clauses and each clause of the
/// first is equal to one of the second.
pub fn eq_as_sets<V: Eval>(a: &Vec<Expr<V>>, b: &Vec<Expr<V>>) -> (r: bool)
    ensures
        V::obeys_eq_spec() ==> r == same_set(a@, b@),
{
    if a.len() != b.len() {
        return false;
    }
    let mut i: usize = 0;
    while i < a.len()
        invariant
            i <= a.len(),
            a.len() == b.len(),
            V::obeys_eq_spec() ==> forall|j: int| 0 <= j < i ==> has_same(b@, #[trigger] a@[j]),
        decreases a.len() - i,
    {
        if !contains(b, &a[i]) {
            return false;
        }
        i += 1;
    }
    true
}

/// `a` and `b` have as many clauses, and each clause of `a` is equal to the
/// clause of `b` at the same place.
pub open spec fn same_in_order<V: Eval>(a: Seq<Expr<V>>, b: Seq<Expr<V>>) -> bool {
    a.len() == b.len() && forall|i: int| 0 <= i < a.len() ==> #[trigger] a[i].same(b[i])
}

/// Copies the clauses, each by `clone`.
pub fn copy<V: Eval>(clauses: &Vec<Expr<V>>) -> (out: Vec<Expr<V>>)
    ensures
        out@.len() == clauses@.len(),
        forall|i: int| 0 <= i < clauses@.len() ==> #[trigger] clauses@[i].copies_to(out@[i]),
        crate::eval::clone_is_exact::<V>() ==> out@ == clauses@,
{
    let mut out: Vec<Expr<V>> = Vec::with_capacity(clauses.len());
    let mut i: usize = 0;
    while i < clauses.len()
        invariant
            i <= clauses.len(),
            out@.len() == i,
            forall|j: int| 0 <= j < i ==> #[trigger] clauses@[j].copies_to(out@[j]),
            crate::eval::clone_is_exact::<V>() ==> out@ == clauses@.take(i as int),
        decreases clauses.len() - i,
    {
        let c = clauses[i].clone();
        out.push(c);
        i += 1;
    }
    out
}

/// What `distinct` leaves holds no clause that is equal to an earlier one.
pub proof fn lemma_distinct_no_repeat<V: Eval>(s: Seq<Expr<V>>)
    ensures
        no_repeat(distinct(s)),
    decreases s.len(),
{
    if s.len() > 0 {
        lemma_distinct_no_repeat(s.drop_last());
    }
}

/// The truth value of the clauses of a normal form taken together: that of
/// their conjunction where `conj` is set, that of their disjunction where
/// it is not.
pub open spec fn joint_truth<V: Eval>(s: Seq<Expr<V>>, data: V::Context, conj: bool) -> bool {
    if conj {
        all_hold(s, data)
    } else {
        any_holds(s, data)
    }
}

/// A conjunction without clauses holds under every context, and a
/// disjunction without clauses under none.
pub proof fn lemma_empty_truth<V: Eval>(data: V::Context)
    ensures
        all_hold(Seq::<Expr<V>>::empty(), data),
        !any_holds(Seq::<Expr<V>>::empty(), data),
{
}

/// The clauses of two sequences, one after the other, hold together where
/// both sequences do, and one of them holds where one of either does.
pub proof fn lemma_concat_truth<V: Eval>(a: Seq<Expr<V>>, b: Seq<Expr<V>>, data: V::Context)
    ensures
        all_hold(a + b, data) == (all_hold(a, data) && all_hold(b, data)),
        any_holds(a + b, data) == (any_holds(a, data) || any_holds(b, data)),
{
    let s = a + b;
    assert forall|i: int| 0 <= i < a.len() implies s[i] == a[i] by {}
    assert forall|i: int| 0 <= i < b.len() implies s[a.len() + i] == b[i] by {}
    if all_hold(s, data) {
        assert forall|i: int| 0 <= i < a.len() implies #[trigger] a[i].truth(data) by {
            assert(s[i].truth(data));
        }
        assert forall|i: int| 0 <= i < b.len() implies #[trigger] b[i].truth(data) by {
            assert(s[a.len() + i].truth(data));
        }
    }
    if any_holds(a, data) {
        let i = choose|i: int| 0 <= i < a.len() && #[trigger] a[i].truth(data);
        assert(s[i].truth(data));
    }
    if any_holds(b, data) {
        let i = choose|i: int| 0 <= i < b.len() && #[trigger] b[i].truth(data);
        assert(s[a.len() + i].truth(data));
    }
}

/// Where equal literals have the same truth value, leaving out the clauses
/// that are equal to an earlier one changes neither the truth value of the
/// conjunction nor that of the disjunction.
pub proof fn lemma_distinct_truth<V: Eval>(s: Seq<Expr<V>>, data: V::Context)
    requires
        crate::eval::eq_decides_truth::<V>(),
    ensures
        all_hold(distinct(s), data) == all_hold(s, data),
        any_holds(distinct(s), data) == any_holds(s, data),
    decreases s.len(),
{
    if s.len() > 0 {
        let front = s.drop_last();
        let e = s.last();
        let kept = distinct(front);
        lemma_distinct_truth(front, data);
        assert(s =~= front + seq![e]);
        lemma_concat_truth(front, seq![e], data);
        if has_same(kept, e) {
            let i = choose|i: int| 0 <= i < kept.len() && #[trigger] e.same(kept[i]);
            e.lemma_same_truth(kept[i], data);
        } else {
            assert(distinct(s) =~= kept + seq![e]);
            lemma_concat_truth(kept, seq![e], data);
        }
    }
}

} // verus!
