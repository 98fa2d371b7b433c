//! The order of texts by their characters, and sorting by it.

use vstd::prelude::*;
use crate::text;

verus! {

/// Does `a` stand before `b`, or are they equal, in the order of their characters?
pub open spec fn text_le(a: Seq<char>, b: Seq<char>) -> bool
    decreases a.len(),
{
    ||| a.len() == 0
    ||| {
        &&& b.len() > 0
        &&& {
            ||| a[0] < b[0]
            ||| a[0] == b[0] && text_le(
                a.subrange(1, a.len() as int),
                b.subrange(1, b.len() as int),
            )
        }
    }
}

/// The order of texts as a relation.
pub open spec fn by_text() -> spec_fn(Seq<char>, Seq<char>) -> bool {
    |a: Seq<char>, b: Seq<char>| text_le(a, b)
}

/// The texts in their order.
pub open spec fn in_order(parts: Seq<Seq<char>>) -> Seq<Seq<char>> {
    parts.sort_by(by_text())
}

proof fn lemma_le_reflexive(a: Seq<char>)
    ensures
        text_le(a, a),
    decreases a.len(),
{
    if a.len() > 0 {
        lemma_le_reflexive(a.subrange(1, a.len() as int));
    }
}

proof fn lemma_le_total(a: Seq<char>, b: Seq<char>)
    ensures
        text_le(a, b) || text_le(b, a),
    decreases a.len(),
{
    if a.len() > 0 && b.len() > 0 {
        lemma_le_total(a.subrange(1, a.len() as int), b.subrange(1, b.len() as int));
    }
}

proof fn lemma_le_antisymmetric(a: Seq<char>, b: Seq<char>)
    requires
        text_le(a, b),
        text_le(b, a),
    ensures
        a == b,
    decreases a.len(),
{
    if a.len() > 0 && b.len() > 0 {
        let x = a.subrange(1, a.len() as int);
        let y = b.subrange(1, b.len() as int);
        lemma_le_antisymmetric(x, y);
        assert(a =~= seq![a[0]] + x);
        assert(b =~= seq![b[0]] + y);
    } else {
        assert(a =~= b);
    }
}

proof fn lemma_le_transitive(a: Seq<char>, b: Seq<char>, c: Seq<char>)
    requires
        text_le(a, b),
        text_le(b, c),
    ensures
        text_le(a, c),
    decreases a.len(),
{
    if a.len() > 0 && b.len() > 0 && c.len() > 0 && a[0] == b[0] && b[0] == c[0] {
        lemma_le_transitive(
            a.subrange(1, a.len() as int),
            b.subrange(1, b.len() as int),
            c.subrange(1, c.len() as int),
        );
    }
}

/// Any two texts are in order one way or the other, and only equal texts both ways.
pub proof fn law_text_order_is_total()
    ensures
        vstd::relations::total_ordering(by_text()),
{
    let r = by_text();
    assert forall|x: Seq<char>| #[trigger] r(x, x) by {
        lemma_le_reflexive(x);
    }
    assert forall|x: Seq<char>, y: Seq<char>| #[trigger] r(x, y) && #[trigger] r(y, x) implies x
        == y by {
        lemma_le_antisymmetric(x, y);
    }
    assert forall|x: Seq<char>, y: Seq<char>, z: Seq<char>| #[trigger]
        r(x, y) && #[trigger] r(y, z) implies r(x, z) by {
        lemma_le_transitive(x, y, z);
    }
    assert forall|x: Seq<char>, y: Seq<char>| #[trigger] r(x, y) || #[trigger] r(y, x) by {
        lemma_le_total(x, y);
    }
}

/// The order of a list of texts does not show in the sorted list.
pub proof fn law_sorting_forgets_order(a: Seq<Seq<char>>, b: Seq<Seq<char>>)
    requires
        a.to_multiset() == b.to_multiset(),
    ensures
        in_order(a) == in_order(b),
{
    law_text_order_is_total();
    a.lemma_sort_by_ensures(by_text());
    b.lemma_sort_by_ensures(by_text());
    vstd::seq_lib::lemma_sorted_unique(in_order(a), in_order(b), by_text());
}

/// Is `a` at most `b` in the order of texts?
fn is_le(a: &str, b: &str) -> (r: bool)
    ensures
        r == text_le(a@, b@),
{
    let x = text::chars_of(a);
    let y = text::chars_of(b);
    let m: usize = x.len();
    let n: usize = y.len();
    let mut i: usize = 0;
    assert(x@.subrange(0, m as int) =~= x@);
    assert(y@.subrange(0, n as int) =~= y@);
    while i < m && i < n && x[i] == y[i]
        invariant
            i <= m == x@.len(),
            i <= n == y@.len(),
            text_le(x@, y@) == text_le(
                x@.subrange(i as int, m as int),
                y@.subrange(i as int, n as int),
            ),
        decreases m - i,
    {
        proof {
            let p = x@.subrange(i as int, m as int);
            let q = y@.subrange(i as int, n as int);
            assert(p.subrange(1, p.len() as int) =~= x@.subrange(i + 1, m as int));
            assert(q.subrange(1, q.len() as int) =~= y@.subrange(i + 1, n as int));
        }
        i += 1;
    }
    if i == m {
        true
    } else if i == n {
        false
    } else {
        x[i] < y[i]
    }
}

/// Sorts the texts by their characters.
pub fn sort_texts(v: &Vec<String>) -> (r: Vec<String>)
    ensures
        text::texts(r@) == in_order(text::texts(v@)),
{
    let mut r: Vec<String> = Vec::new();
    let n: usize = v.len();
    let mut i: usize = 0;
    let ghost all = text::texts(v@);
    proof {
        law_text_order_is_total();
        assert(text::texts(r@) =~= all.take(0));
    }
    while i < n
        invariant
            i <= n == v@.len(),
            all == text::texts(v@),
            r@.len() == i,
            vstd::relations::total_ordering(by_text()),
            vstd::relations::sorted_by(text::texts(r@), by_text()),
            text::texts(r@).to_multiset() == all.take(i as int).to_multiset(),
        decreases n - i,
    {
        let mut k: usize = 0;
        while k < i && is_le(r[k].as_str(), v[i].as_str())
            invariant
                k <= i < n == v@.len(),
                r@.len() == i,
                forall|j: int| 0 <= j < k ==> text_le(#[trigger] r@[j]@, v@[i as int]@),
            decreases i - k,
        {
            k += 1;
        }
        let ghost before = text::texts(r@);
        let ghost x = v@[i as int]@;
        r.insert(k, v[i].clone());
        proof {
            assert(text::texts(r@) =~= before.insert(k as int, x));
            assert(all.take(i + 1) =~= all.take(i as int).push(x));
            vstd::seq_lib::to_multiset_insert(before, k as int, x);
            vstd::seq_lib::to_multiset_build(all.take(i as int), x);
            let now = text::texts(r@);
            let le = by_text();
            assert forall|a: int, b: int| 0 <= a < b < now.len() implies #[trigger] le(
                now[a],
                now[b],
            ) by {
                if k < i && !text_le(before[k as int], x) {
                    assert(le(before[k as int], x) || le(x, before[k as int]));
                }
                if a == k {
                    assert(now[b] == before[b - 1]);
                    if b - 1 > k {
                        assert(le(before[k as int], before[b - 1]));
                        assert(le(x, before[k as int]));
                    }
                } else if b == k {
                    assert(now[a] == before[a]);
                } else if a < k && b < k {
                    assert(le(before[a], before[b]));
                } else if a < k {
                    assert(le(before[a], before[b - 1]));
                } else {
                    assert(le(before[a - 1], before[b - 1]));
                }
            }
        }
        i += 1;
    }
    proof {
        assert(all.take(n as int) =~= all);
        all.lemma_sort_by_ensures(by_text());
        vstd::seq_lib::lemma_sorted_unique(text::texts(r@), in_order(all), by_text());
    }
    r
}

/// Texts are ordered by the first character in which they differ; a text comes before every longer
/// one that begins with it.
pub proof fn law_the_first_difference_decides(
    common: Seq<char>,
    x: char,
    y: char,
    rest: Seq<char>,
    other: Seq<char>,
)
    ensures
        x != y ==> (text_le(common + (seq![x] + rest), common + (seq![y] + other)) <==> x < y),
        text_le(common, common + rest),
        rest.len() > 0 ==> !text_le(common + rest, common),
    decreases common.len(),
{
    let a = common + (seq![x] + rest);
    let b = common + (seq![y] + other);
    let c = common + rest;
    if common.len() == 0 {
        assert(a[0] == x && b[0] == y);
    } else {
        let short = common.subrange(1, common.len() as int);
        law_the_first_difference_decides(short, x, y, rest, other);
        assert(a.subrange(1, a.len() as int) =~= short + (seq![x] + rest));
        assert(b.subrange(1, b.len() as int) =~= short + (seq![y] + other));
        assert(c.subrange(1, c.len() as int) =~= short + rest);
    }
}

/// Sorting keeps the texts, each as often as it stands there, and puts none before a smaller one.
pub proof fn law_sorting_orders_what_there_is(parts: Seq<Seq<char>>)
    ensures
        in_order(parts).to_multiset() == parts.to_multiset(),
        forall|i: int, j: int|
            0 <= i < j < in_order(parts).len() ==> text_le(
                #[trigger] in_order(parts)[i],
                #[trigger] in_order(parts)[j],
            ),
{
    law_text_order_is_total();
    parts.lemma_sort_by_ensures(by_text());
    let sorted = in_order(parts);
    assert forall|i: int, j: int| 0 <= i < j < sorted.len() implies text_le(
        #[trigger] sorted[i],
        #[trigger] sorted[j],
    ) by {
        assert(by_text()(sorted[i], sorted[j]));
    }
}

} // verus!
