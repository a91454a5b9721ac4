//! Sorting by a text key, keeping the order of equal keys.

use crate::text::{is_before, precedes};
use vstd::prelude::*;

verus! {

/// A type with a text to sort by.
pub trait Keyed: View + Sized {
    /// The text a value is sorted by.
    spec fn key() -> spec_fn(Self::V) -> Seq<char>;

    /// The text this value is sorted by.
    fn key_text(&self) -> (r: &str)
        ensures
            r@ == (Self::key())(self@),
    ;
}

/// The views of a sequence.
pub open spec fn seq_view<T: View>(s: Seq<T>) -> Seq<T::V> {
    s.map_values(|t: T| t@)
}

/// The property of having the key `k`.
pub open spec fn has_key<V>(key: spec_fn(V) -> Seq<char>, k: Seq<char>) -> spec_fn(V) -> bool {
    |v: V| key(v) == k
}

/// Whether no value of `s` stands after one with a greater key.
pub open spec fn is_sorted<V>(s: Seq<V>, key: spec_fn(V) -> Seq<char>) -> bool {
    forall|i: int, j: int|
        0 <= i < j < s.len() ==> !precedes(key(#[trigger] s[j]), key(#[trigger] s[i]))
}

/// Whether `output` holds the values of `input` sorted by their keys, with the
/// values of each key in the order in which `input` has them.
pub open spec fn is_stable_sort<V>(
    input: Seq<V>,
    output: Seq<V>,
    key: spec_fn(V) -> Seq<char>,
) -> bool {
    &&& is_sorted(output, key)
    &&& forall|k: Seq<char>| #[trigger]
        output.filter(has_key(key, k)) == input.filter(has_key(key, k))
}

/// No string stands before itself.
pub proof fn lemma_irreflexive(a: Seq<char>)
    ensures
        !precedes(a, a),
    decreases a.len(),
{
    if a.len() > 0 {
        lemma_irreflexive(a.drop_first());
    }
}

/// Of two different strings one stands before the other, and only one.
pub proof fn lemma_total(a: Seq<char>, b: Seq<char>)
    ensures
        a == b || precedes(a, b) || precedes(b, a),
        !(precedes(a, b) && precedes(b, a)),
    decreases a.len(),
{
    if a.len() == 0 || b.len() == 0 {
        assert(a.len() == 0 && b.len() == 0 ==> a =~= b);
    } else if a[0] == b[0] {
        lemma_total(a.drop_first(), b.drop_first());
        if a.drop_first() == b.drop_first() {
            assert(a =~= seq![a[0]] + a.drop_first());
            assert(b =~= seq![b[0]] + b.drop_first());
        }
    }
}

/// The order of strings is transitive.
pub proof fn lemma_transitive(a: Seq<char>, b: Seq<char>, c: Seq<char>)
    requires
        precedes(a, b),
        precedes(b, c),
    ensures
        precedes(a, c),
    decreases a.len(),
{
    if a.len() > 0 && b.len() > 0 && c.len() > 0 && a[0] == b[0] && b[0] == c[0] {
        lemma_transitive(a.drop_first(), b.drop_first(), c.drop_first());
    }
}

/// What does not stand after `b`, with `b` not after `c`, does not stand after
/// `c`.
proof fn lemma_not_after(a: Seq<char>, b: Seq<char>, c: Seq<char>)
    requires
        !precedes(b, a),
        !precedes(c, b),
    ensures
        !precedes(c, a),
{
    if precedes(c, a) {
        lemma_total(a, b);
        lemma_total(b, c);
        if a == b {
        } else if b == c {
        } else {
            lemma_transitive(a, b, c);
            lemma_total(a, c);
        }
    }
}

proof fn lemma_filter_none<V>(s: Seq<V>, pred: spec_fn(V) -> bool)
    requires
        forall|i: int| 0 <= i < s.len() ==> !pred(#[trigger] s[i]),
    ensures
        s.filter(pred).len() == 0,
    decreases s.len(),
{
    reveal(Seq::filter);
    if s.len() > 0 {
        assert(!pred(s.last()));
        lemma_filter_none(s.drop_last(), pred);
    }
}

proof fn lemma_insert<V>(
    input: Seq<V>,
    output: Seq<V>,
    value: V,
    at: int,
    key: spec_fn(V) -> Seq<char>,
)
    requires
        is_stable_sort(input, output, key),
        0 <= at <= output.len(),
        at > 0 ==> !precedes(key(value), key(output[at - 1])),
        forall|j: int| at <= j < output.len() ==> precedes(key(value), key(#[trigger] output[j])),
    ensures
        is_stable_sort(input.push(value), output.insert(at, value), key),
{
    let head = output.take(at);
    let tail = output.skip(at);
    let result = output.insert(at, value);
    assert(output =~= head + tail);
    assert(result =~= (head + seq![value]) + tail);
    assert forall|i: int, j: int| 0 <= i < j < result.len() implies !precedes(
        key(#[trigger] result[j]),
        key(#[trigger] result[i]),
    ) by {
        if i == at {
            assert(result[j] == output[j - 1]);
            lemma_total(key(value), key(output[j - 1]));
        } else if j == at {
            assert(result[i] == output[i]);
            if i < at - 1 {
                lemma_not_after(key(output[i]), key(output[at - 1]), key(value));
            }
        } else {
            let x = if i < at {
                i
            } else {
                i - 1
            };
            let y = if j < at {
                j
            } else {
                j - 1
            };
            assert(result[i] == output[x]);
            assert(result[j] == output[y]);
        }
    }
    assert forall|k: Seq<char>| #[trigger]
        result.filter(has_key(key, k)) == input.push(value).filter(has_key(key, k)) by {
        let pred = has_key(key, k);
        Seq::filter_distributes_over_add(head, tail, pred);
        Seq::filter_distributes_over_add(head + seq![value], tail, pred);
        Seq::filter_distributes_over_add(head, seq![value], pred);
        Seq::filter_distributes_over_add(input, seq![value], pred);
        assert(input.push(value) =~= input + seq![value]);
        assert(output.filter(pred) == input.filter(pred));
        if key(value) == k {
            assert forall|j: int| 0 <= j < tail.len() implies !pred(#[trigger] tail[j]) by {
                assert(tail[j] == output[at + j]);
                lemma_irreflexive(k);
            }
            lemma_filter_none(tail, pred);
            assert(tail.filter(pred) =~= Seq::empty());
            assert(head.filter(pred) + tail.filter(pred) =~= head.filter(pred));
            assert((head.filter(pred) + seq![value].filter(pred)) + tail.filter(pred)
                =~= head.filter(pred) + seq![value].filter(pred));
        } else {
            assert(seq![value].filter(pred) =~= Seq::empty()) by {
                reveal_with_fuel(Seq::filter, 2);
            }
            assert((head.filter(pred) + seq![value].filter(pred)) + tail.filter(pred)
                =~= head.filter(pred) + tail.filter(pred));
            assert(input.filter(pred) + seq![value].filter(pred) =~= input.filter(pred));
        }
    }
}

proof fn lemma_filter_member<V>(s: Seq<V>, pred: spec_fn(V) -> bool)
    requires
        s.filter(pred).len() > 0,
    ensures
        exists|i: int| 0 <= i < s.len() && pred(#[trigger] s[i]),
{
    if forall|i: int| 0 <= i < s.len() ==> !pred(#[trigger] s[i]) {
        lemma_filter_none(s, pred);
    }
}

proof fn lemma_greatest_key<V>(a: Seq<V>, b: Seq<V>, key: spec_fn(V) -> Seq<char>)
    requires
        a.len() > 0,
        is_sorted(b, key),
        forall|k: Seq<char>| #[trigger] a.filter(has_key(key, k)) == b.filter(has_key(key, k)),
    ensures
        b.len() > 0,
        !precedes(key(b.last()), key(a.last())),
{
    let pred = has_key(key, key(a.last()));
    reveal(Seq::filter);
    assert(a.filter(pred).len() > 0);
    lemma_filter_member(b, pred);
    let i = choose|i: int| 0 <= i < b.len() && pred(#[trigger] b[i]);
    if i < b.len() - 1 {
        assert(!precedes(key(b[b.len() - 1]), key(b[i])));
    } else {
        lemma_irreflexive(key(a.last()));
    }
}

/// What is sorted already is the only stable sort of itself.
proof fn lemma_sorted_is_fixed<V>(a: Seq<V>, b: Seq<V>, key: spec_fn(V) -> Seq<char>)
    requires
        is_sorted(a, key),
        is_stable_sort(a, b, key),
    ensures
        a == b,
    decreases a.len(),
{
    assert forall|k: Seq<char>| #[trigger]
        b.filter(has_key(key, k)) == a.filter(has_key(key, k)) by {}
    if a.len() == 0 {
        if b.len() > 0 {
            lemma_greatest_key(b, a, key);
        }
        assert(a =~= b);
    } else {
        assert forall|k: Seq<char>| #[trigger]
            a.filter(has_key(key, k)) == b.filter(has_key(key, k)) by {
            assert(b.filter(has_key(key, k)) == a.filter(has_key(key, k)));
        }
        lemma_greatest_key(a, b, key);
        lemma_greatest_key(b, a, key);
        lemma_total(key(a.last()), key(b.last()));
        let top = has_key(key, key(a.last()));
        reveal(Seq::filter);
        assert(a.filter(top).last() == a.last());
        assert(b.filter(top).last() == b.last());
        assert(b.filter(top) == a.filter(top));
        assert forall|k: Seq<char>| #[trigger]
            b.drop_last().filter(has_key(key, k)) == a.drop_last().filter(has_key(key, k)) by {
            let pred = has_key(key, k);
            assert(b.filter(pred) == a.filter(pred));
            if k == key(a.last()) {
                assert(a.filter(pred).drop_last() =~= a.drop_last().filter(pred));
                assert(b.filter(pred).drop_last() =~= b.drop_last().filter(pred));
            }
        }
        lemma_sorted_is_fixed(a.drop_last(), b.drop_last(), key);
        assert(a =~= a.drop_last().push(a.last()));
        assert(b =~= b.drop_last().push(b.last()));
    }
}

/// A sort that keeps the order of equal keys has one result only.
pub proof fn law_sort_is_unique<V>(
    input: Seq<V>,
    first: Seq<V>,
    second: Seq<V>,
    key: spec_fn(V) -> Seq<char>,
)
    requires
        is_stable_sort(input, first, key),
        is_stable_sort(input, second, key),
    ensures
        first == second,
{
    assert forall|k: Seq<char>| #[trigger]
        second.filter(has_key(key, k)) == first.filter(has_key(key, k)) by {
        assert(first.filter(has_key(key, k)) == input.filter(has_key(key, k)));
    }
    lemma_sorted_is_fixed(first, second, key);
}

proof fn lemma_filter_count<V>(s: Seq<V>, pred: spec_fn(V) -> bool, v: V)
    requires
        pred(v),
    ensures
        s.filter(pred).to_multiset().count(v) == s.to_multiset().count(v),
    decreases s.len(),
{
    broadcast use vstd::seq_lib::group_to_multiset_ensures;

    reveal(Seq::filter);
    if s.len() > 0 {
        let init = s.drop_last();
        lemma_filter_count(init, pred, v);
        assert(s =~= init.push(s.last()));
        if pred(s.last()) {
            assert(s.filter(pred) =~= init.filter(pred).push(s.last()));
        }
    }
}

/// Sorting keeps everything: each value occurs as often as before.
pub proof fn law_sort_keeps_everything<V>(
    input: Seq<V>,
    output: Seq<V>,
    key: spec_fn(V) -> Seq<char>,
)
    requires
        is_stable_sort(input, output, key),
    ensures
        output.to_multiset() == input.to_multiset(),
{
    assert forall|v: V| #[trigger]
        output.to_multiset().count(v) == input.to_multiset().count(v) by {
        let pred = has_key(key, key(v));
        assert(output.filter(pred) == input.filter(pred));
        lemma_filter_count(output, pred, v);
        lemma_filter_count(input, pred, v);
    }
    assert(output.to_multiset() =~= input.to_multiset());
}

/// Sorts `items` by their keys, keeping the order of equal keys.
pub fn sort<T: Keyed>(items: Vec<T>) -> (r: Vec<T>)
    ensures
        is_stable_sort(seq_view(items@), seq_view(r@), T::key()),
{
    let mut items: Vec<T> = items;
    let ghost all = seq_view(items@);
    let ghost mut done: Seq<T::V> = Seq::empty();
    let mut out: Vec<T> = Vec::new();
    assert(done + seq_view(items@) =~= all);
    assert(seq_view(out@) =~= done);
    while items.len() > 0
        invariant
            done + seq_view(items@) == all,
            is_stable_sort(done, seq_view(out@), T::key()),
        decreases items.len(),
    {
        let ghost before = seq_view(items@);
        let value: T = items.remove(0);
        assert(before =~= seq![value@] + seq_view(items@));
        let ghost sorted = seq_view(out@);
        let mut at: usize = out.len();
        while at > 0 && is_before(value.key_text(), out[at - 1].key_text())
            invariant
                at <= out.len(),
                sorted == seq_view(out@),
                forall|j: int|
                    at <= j < sorted.len() ==> precedes(
                        (T::key())(value@),
                        (T::key())(#[trigger] sorted[j]),
                    ),
            decreases at,
        {
            assert(sorted[at - 1] == out@[at - 1]@);
            at = at - 1;
        }
        proof {
            if at > 0 {
                assert(sorted[at - 1] == out@[at - 1]@);
            }
            lemma_insert(done, sorted, value@, at as int, T::key());
            done = done.push(value@);
        }
        out.insert(at, value);
        assert(seq_view(out@) =~= sorted.insert(at as int, value@));
        assert(done + seq_view(items@) =~= all);
    }
    assert(done =~= all);
    out
}

}
