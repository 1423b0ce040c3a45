//! Sequences in ascending order.

use vstd::prelude::*;

#[allow(unused_imports)]
use crate::text::text_before;

verus! {

/// Whether each item is before every later one.
pub open spec fn ascends<T>(items: Seq<T>, before: spec_fn(T, T) -> bool) -> bool {
    forall|i: int, j: int|
        0 <= i < j < items.len() ==> before(#[trigger] items[i], #[trigger] items[j])
}

/// Two ascending sequences of the same items are one sequence.
pub proof fn lemma_ascending_unique<T>(a: Seq<T>, b: Seq<T>, before: spec_fn(T, T) -> bool)
    requires
        ascends(a, before),
        ascends(b, before),
        forall|x: T, y: T| #[trigger] before(x, y) ==> !before(y, x),
        forall|x: T| #[trigger] a.contains(x) <==> b.contains(x),
    ensures
        a == b,
{
    lemma_ascending_prefix(a, b, before, if a.len() <= b.len() { a.len() } else { b.len() });
    if a.len() > b.len() {
        let x = a[b.len() as int];
        assert(a.contains(x));
        let j = choose|j: int| 0 <= j < b.len() && b[j] == x;
        assert(a[j] == x);
        assert(before(a[j], a[b.len() as int]));
    } else if b.len() > a.len() {
        let x = b[a.len() as int];
        assert(b.contains(x) && a.contains(x));
        let j = choose|j: int| 0 <= j < a.len() && a[j] == x;
        assert(b[j] == x);
        assert(before(b[j], b[a.len() as int]));
    }
    assert(a =~= b);
}

proof fn lemma_ascending_prefix<T>(
    a: Seq<T>,
    b: Seq<T>,
    before: spec_fn(T, T) -> bool,
    count: nat,
)
    requires
        ascends(a, before),
        ascends(b, before),
        forall|x: T, y: T| #[trigger] before(x, y) ==> !before(y, x),
        forall|x: T| #[trigger] a.contains(x) <==> b.contains(x),
        count <= a.len(),
        count <= b.len(),
    ensures
        forall|i: int| 0 <= i < count ==> a[i] == b[i],
    decreases count,
{
    if count > 0 {
        let i = count - 1;
        lemma_ascending_prefix(a, b, before, i as nat);
        assert(a.contains(a[i]));
        assert(b.contains(b[i]) && a.contains(b[i]));
        let j = choose|j: int| 0 <= j < b.len() && b[j] == a[i];
        let k = choose|k: int| 0 <= k < a.len() && a[k] == b[i];
        if j < i {
            assert(before(a[j], a[i]));
        } else if k < i {
            assert(before(b[k], b[i]));
        } else if j > i && k > i {
            assert(before(b[i], b[j]));
            assert(before(a[i], a[k]));
        }
    }
}

/// Of two texts not both come before the other.
pub proof fn lemma_text_before_asymmetric(a: Seq<char>, b: Seq<char>)
    requires
        text_before(a, b),
    ensures
        !text_before(b, a),
    decreases a.len(),
{
    if a.len() > 0 && a[0] == b[0] {
        lemma_text_before_asymmetric(a.drop_first(), b.drop_first());
    }
}

/// Of two different texts one comes before the other.
pub proof fn lemma_text_before_total(a: Seq<char>, b: Seq<char>)
    requires
        a != b,
    ensures
        text_before(a, b) || text_before(b, a),
    decreases a.len(),
{
    if a.len() == 0 || b.len() == 0 {
        if a.len() == b.len() {
            assert(a =~= b);
        }
    } else if a[0] == b[0] {
        if a.drop_first() == b.drop_first() {
            assert(a =~= seq![a[0]] + a.drop_first());
            assert(b =~= seq![b[0]] + b.drop_first());
        }
        lemma_text_before_total(a.drop_first(), b.drop_first());
    }
}

/// What comes before a text that comes before a third comes before the third.
pub proof fn lemma_text_before_transitive(a: Seq<char>, b: Seq<char>, c: Seq<char>)
    requires
        text_before(a, b),
        text_before(b, c),
    ensures
        text_before(a, c),
    decreases a.len(),
{
    if a.len() > 0 && a[0] == b[0] && b[0] == c[0] {
        lemma_text_before_transitive(a.drop_first(), b.drop_first(), c.drop_first());
    }
}

} // verus!
