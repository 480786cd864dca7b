//! The order of texts and sorting by it.
use crate::text::chars_of;
use vstd::prelude::*;
use vstd::relations::{sorted_by, total_ordering};
use vstd::seq_lib::to_multiset_insert;

verus! {

/// Whether `a` comes no later than `b` when texts are ordered character by character, a
/// text in front of the longer ones that it starts.
pub open spec fn no_later(a: Seq<char>, b: Seq<char>) -> bool
    decreases a.len(),
{
    if a.len() == 0 {
        true
    } else if b.len() == 0 {
        false
    } else {
        ||| a[0] < b[0]
        ||| a[0] == b[0] && no_later(a.skip(1), b.skip(1))
    }
}

/// Whether the texts stand in order.
pub open spec fn in_order(texts: Seq<Seq<char>>) -> bool {
    forall|i: int, j: int| 0 <= i < j < texts.len() ==> no_later(#[trigger] texts[i], #[trigger] texts[j])
}

/// The texts in order.
pub open spec fn ordered(texts: Seq<Seq<char>>) -> Seq<Seq<char>> {
    texts.sort_by(|a: Seq<char>, b: Seq<char>| no_later(a, b))
}

/// Compares two texts.
pub fn is_no_later(a: &str, b: &str) -> (r: bool)
    ensures
        r == no_later(a@, b@),
{
    let x = chars_of(a);
    let y = chars_of(b);
    let mut i: usize = 0;
    assert(a@.skip(0) =~= a@);
    assert(b@.skip(0) =~= b@);
    while i < x.len()
        invariant
            i <= x@.len(),
            i <= y@.len(),
            x@ == a@,
            y@ == b@,
            no_later(a@, b@) == no_later(a@.skip(i as int), b@.skip(i as int)),
        decreases x@.len() - i,
    {
        if i == y.len() {
            return false;
        }
        proof {
            assert(a@.skip(i as int).skip(1) =~= a@.skip(i + 1));
            assert(b@.skip(i as int).skip(1) =~= b@.skip(i + 1));
        }
        if x[i] < y[i] {
            return true;
        }
        if x[i] != y[i] {
            return false;
        }
        i += 1;
    }
    true
}

proof fn lemma_order_total(a: Seq<char>, b: Seq<char>)
    ensures
        no_later(a, b) || no_later(b, a),
    decreases a.len(),
{
    if a.len() > 0 && b.len() > 0 {
        lemma_order_total(a.skip(1), b.skip(1));
    }
}

proof fn lemma_order_antisymmetric(a: Seq<char>, b: Seq<char>)
    requires
        no_later(a, b),
        no_later(b, a),
    ensures
        a == b,
    decreases a.len(),
{
    if a.len() > 0 && b.len() > 0 {
        lemma_order_antisymmetric(a.skip(1), b.skip(1));
        assert(a =~= seq![a[0]] + a.skip(1));
        assert(b =~= seq![b[0]] + b.skip(1));
    } else {
        assert(a =~= b);
    }
}

proof fn lemma_order_transitive(a: Seq<char>, b: Seq<char>, c: Seq<char>)
    requires
        no_later(a, b),
        no_later(b, c),
    ensures
        no_later(a, c),
    decreases a.len(),
{
    if a.len() > 0 && b.len() > 0 && c.len() > 0 && a[0] == b[0] && b[0] == c[0] {
        lemma_order_transitive(a.skip(1), b.skip(1), c.skip(1));
    }
}

proof fn lemma_order_is_total_ordering()
    ensures
        total_ordering(|a: Seq<char>, b: Seq<char>| no_later(a, b)),
{
    let leq = |a: Seq<char>, b: Seq<char>| no_later(a, b);
    assert forall|x: Seq<char>| #[trigger] leq(x, x) by {
        lemma_order_total(x, x);
    }
    assert forall|x: Seq<char>, y: Seq<char>| #[trigger] leq(x, y) && #[trigger] leq(
        y,
        x,
    ) implies x == y by {
        lemma_order_antisymmetric(x, y);
    }
    assert forall|x: Seq<char>, y: Seq<char>, z: Seq<char>| #[trigger] leq(x, y) && #[trigger] leq(
        y,
        z,
    ) implies leq(x, z) by {
        lemma_order_transitive(x, y, z);
    }
    assert forall|x: Seq<char>, y: Seq<char>| #[trigger] leq(x, y) || #[trigger] leq(y, x) by {
        lemma_order_total(x, y);
    }
}

/// Puts texts in order.
pub fn sort_texts(texts: Vec<String>) -> (r: Vec<String>)
    ensures
        r.deep_view() == ordered(texts.deep_view()),
{
    let mut out: Vec<String> = Vec::new();
    let ghost all = texts.deep_view();
    let mut i: usize = 0;
    assert(out.deep_view() =~= all.take(0));
    while i < texts.len()
        invariant
            i <= texts@.len(),
            all == texts.deep_view(),
            in_order(out.deep_view()),
            out.deep_view().to_multiset() == all.take(i as int).to_multiset(),
        decreases texts@.len() - i,
    {
        let ghost placed = out.deep_view();
        let ghost x = texts@[i as int]@;
        let mut at: usize = 0;
        while at < out.len() && is_no_later(out[at].as_str(), texts[i].as_str())
            invariant
                i < texts@.len(),
                at <= out@.len(),
                placed == out.deep_view(),
                x == texts@[i as int]@,
                forall|k: int| 0 <= k < at ==> no_later(#[trigger] placed[k], x),
            decreases out@.len() - at,
        {
            at += 1;
        }
        out.insert(at, texts[i].clone());
        proof {
            let now = out.deep_view();
            assert(now =~= placed.insert(at as int, x));
            to_multiset_insert(placed, at as int, x);
            assert(all.take(i + 1) =~= all.take(i as int).push(x));
            vstd::seq_lib::to_multiset_build(all.take(i as int), x);
            if at < placed.len() {
                lemma_order_total(placed[at as int], x);
            }
            assert forall|k: int, l: int| 0 <= k < l < now.len() implies no_later(
                #[trigger] now[k],
                #[trigger] now[l],
            ) by {
                if k < at && l > at {
                    assert(now[l] == placed[l - 1]);
                } else if k == at {
                    assert(now[l] == placed[l - 1]);
                    if l - 1 > at {
                        lemma_order_transitive(x, placed[at as int], placed[l - 1]);
                    }
                } else if k > at {
                    assert(now[k] == placed[k - 1]);
                    assert(now[l] == placed[l - 1]);
                }
            }
        }
        i += 1;
    }
    proof {
        assert(all.take(i as int) =~= all);
        law_ordered_is_in_order(all);
        law_order_is_unique(out.deep_view(), ordered(all));
    }
    out
}

/// There is one way only to put given texts in order.
pub proof fn law_order_is_unique(a: Seq<Seq<char>>, b: Seq<Seq<char>>)
    requires
        in_order(a),
        in_order(b),
        a.to_multiset() == b.to_multiset(),
    ensures
        a == b,
{
    let leq = |a: Seq<char>, b: Seq<char>| no_later(a, b);
    lemma_order_is_total_ordering();
    assert forall|x: Seq<char>| #[trigger] leq(x, x) by {
        lemma_order_total(x, x);
    }
    assert(sorted_by(a, leq));
    assert(sorted_by(b, leq));
    vstd::seq_lib::lemma_sorted_unique(a, b, leq);
}

/// The texts in order are the same texts, and they stand in order.
pub proof fn law_ordered_is_in_order(texts: Seq<Seq<char>>)
    ensures
        in_order(ordered(texts)),
        ordered(texts).to_multiset() == texts.to_multiset(),
{
    let leq = |a: Seq<char>, b: Seq<char>| no_later(a, b);
    lemma_order_is_total_ordering();
    texts.lemma_sort_by_ensures(leq);
    let s = ordered(texts);
    assert forall|i: int, j: int| 0 <= i < j < s.len() implies no_later(
        #[trigger] s[i],
        #[trigger] s[j],
    ) by {
        assert(leq(s[i], s[j]));
    }
}

/// Texts are ordered by the first character in which they differ, and a text comes before
/// those that it starts.
pub proof fn law_order_goes_by_the_first_difference(
    p: Seq<char>,
    x: char,
    a: Seq<char>,
    y: char,
    b: Seq<char>,
)
    ensures
        x < y ==> no_later(p + seq![x] + a, p + seq![y] + b) && !no_later(
            p + seq![y] + b,
            p + seq![x] + a,
        ),
        no_later(p, p + a),
        a.len() > 0 ==> !no_later(p + a, p),
    decreases p.len(),
{
    let s = p + seq![x] + a;
    let t = p + seq![y] + b;
    if p.len() == 0 {
        assert(s[0] == x);
        assert(t[0] == y);
        assert(p + a =~= a);
    } else {
        let tail = p.skip(1);
        law_order_goes_by_the_first_difference(tail, x, a, y, b);
        assert(s.skip(1) =~= tail + seq![x] + a);
        assert(t.skip(1) =~= tail + seq![y] + b);
        assert((p + a).skip(1) =~= tail + a);
        assert(s[0] == p[0]);
        assert(t[0] == p[0]);
        assert((p + a)[0] == p[0]);
    }
}

} // verus!
