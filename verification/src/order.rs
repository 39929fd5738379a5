//! The order in which matched paths are taken: texts compared character by
//! character, a shorter text before each of its extensions.

use crate::text::chars_of;
use vstd::prelude::*;
use vstd::relations::{sorted_by, total_ordering};
use vstd::seq_lib::{lemma_sorted_unique, to_multiset_build, to_multiset_insert};

verus! {

/// `a` comes before `b`, or is `b`: at the first place where the two
/// differ, `a` has ended or holds the lesser character.
pub open spec fn text_le(a: Seq<char>, b: Seq<char>) -> bool
    decreases a.len(),
{
    if a.len() == 0 {
        true
    } else if b.len() == 0 {
        false
    } else if a[0] != b[0] {
        (a[0] as u32) < (b[0] as u32)
    } else {
        text_le(a.skip(1), b.skip(1))
    }
}

/// `text_le` as a relation.
pub open spec fn text_order() -> spec_fn(Seq<char>, Seq<char>) -> bool {
    |a: Seq<char>, b: Seq<char>| text_le(a, b)
}

/// The texts that a sequence of strings holds.
pub open spec fn texts(v: Seq<String>) -> Seq<Seq<char>> {
    v.map_values(|s: String| s@)
}

/// The texts in ascending order.
pub open spec fn sorted_texts(v: Seq<Seq<char>>) -> Seq<Seq<char>> {
    v.sort_by(text_order())
}

proof fn lemma_text_le_reflexive(a: Seq<char>)
    ensures
        text_le(a, a),
    decreases a.len(),
{
    if a.len() > 0 {
        lemma_text_le_reflexive(a.skip(1));
    }
}

proof fn lemma_text_le_antisymmetric(a: Seq<char>, b: Seq<char>)
    requires
        text_le(a, b),
        text_le(b, a),
    ensures
        a == b,
    decreases a.len(),
{
    if a.len() == 0 || b.len() == 0 {
        assert(a =~= b);
    } else {
        lemma_text_le_antisymmetric(a.skip(1), b.skip(1));
        assert(a =~= seq![a[0]] + a.skip(1));
        assert(b =~= seq![b[0]] + b.skip(1));
    }
}

proof fn lemma_text_le_transitive(a: Seq<char>, b: Seq<char>, c: Seq<char>)
    requires
        text_le(a, b),
        text_le(b, c),
    ensures
        text_le(a, c),
    decreases a.len(),
{
    if a.len() > 0 && a[0] == b[0] && b[0] == c[0] {
        lemma_text_le_transitive(a.skip(1), b.skip(1), c.skip(1));
    }
}

proof fn lemma_text_le_total(a: Seq<char>, b: Seq<char>)
    ensures
        text_le(a, b) || text_le(b, a),
    decreases a.len(),
{
    if a.len() > 0 && b.len() > 0 {
        if a[0] == b[0] {
            lemma_text_le_total(a.skip(1), b.skip(1));
        } else {
            vstd::utf8::char_u32_cast(a[0], a[0] as u32);
            vstd::utf8::char_u32_cast(b[0], b[0] as u32);
        }
    }
}

/// The order of texts is total: any two texts compare, and only equal
/// texts compare both ways.
pub proof fn lemma_text_order_total()
    ensures
        total_ordering(text_order()),
{
    let r = text_order();
    assert forall|a: Seq<char>| #[trigger] r(a, a) by {
        lemma_text_le_reflexive(a);
    }
    assert forall|a: Seq<char>, b: Seq<char>| #[trigger] r(a, b) && #[trigger] r(b, a) implies a
        == b by {
        lemma_text_le_antisymmetric(a, b);
    }
    assert forall|a: Seq<char>, b: Seq<char>, c: Seq<char>| #[trigger]
        r(a, b) && #[trigger] r(b, c) implies r(a, c) by {
        lemma_text_le_transitive(a, b, c);
    }
    assert forall|a: Seq<char>, b: Seq<char>| #[trigger] r(a, b) || #[trigger] r(b, a) by {
        lemma_text_le_total(a, b);
    }
}

/// Sorting forgets the order in which the texts came: two sequences that
/// hold the same texts, each as often as the other, sort to one sequence.
pub proof fn lemma_sorted_texts_of_permutation(a: Seq<Seq<char>>, b: Seq<Seq<char>>)
    requires
        a.to_multiset() == b.to_multiset(),
    ensures
        sorted_texts(a) == sorted_texts(b),
{
    lemma_text_order_total();
    a.lemma_sort_by_ensures(text_order());
    b.lemma_sort_by_ensures(text_order());
    lemma_sorted_unique(sorted_texts(a), sorted_texts(b), text_order());
}

fn le(a: &Vec<char>, b: &Vec<char>) -> (r: bool)
    ensures
        r == text_le(a@, b@),
{
    let mut i: usize = 0;
    assert(a@.skip(0) =~= a@);
    assert(b@.skip(0) =~= b@);
    loop
        invariant
            i <= a.len(),
            i <= b.len(),
            text_le(a@, b@) == text_le(a@.skip(i as int), b@.skip(i as int)),
        decreases a.len() - i,
    {
        if i == a.len() {
            return true;
        }
        if i == b.len() {
            return false;
        }
        let x = a[i];
        let y = b[i];
        assert(a@.skip(i as int)[0] == x);
        assert(b@.skip(i as int)[0] == y);
        if x != y {
            return (x as u32) < (y as u32);
        }
        assert(a@.skip(i as int).skip(1) =~= a@.skip(i + 1));
        assert(b@.skip(i as int).skip(1) =~= b@.skip(i + 1));
        i = i + 1;
    }
}

/// Whether `a` comes before `b` or is `b`.
pub fn text_precedes(a: &str, b: &str) -> (r: bool)
    ensures
        r == text_le(a@, b@),
{
    let x = chars_of(a);
    let y = chars_of(b);
    le(&x, &y)
}

/// The paths in ascending order.
pub fn sort_paths(paths: &Vec<String>) -> (r: Vec<String>)
    ensures
        texts(r@) == sorted_texts(texts(paths@)),
{
    let mut out: Vec<String> = Vec::new();
    proof {
        lemma_text_order_total();
        assert(texts(out@) =~= texts(paths@.take(0)));
    }
    for i in 0..paths.len()
        invariant
            total_ordering(text_order()),
            sorted_by(texts(out@), text_order()),
            texts(out@).to_multiset() == texts(paths@.take(i as int)).to_multiset(),
    {
        let p = paths[i].clone();
        let mut pos: usize = 0;
        while pos < out.len() && text_precedes(out[pos].as_str(), p.as_str())
            invariant
                pos <= out.len(),
                forall|k: int| 0 <= k < pos ==> text_le(#[trigger] out@[k]@, p@),
            decreases out.len() - pos,
        {
            pos = pos + 1;
        }
        let ghost before = texts(out@);
        proof {
            assert forall|k: int| pos <= k < before.len() implies text_le(
                p@,
                #[trigger] before[k],
            ) by {
                lemma_text_le_total(p@, before[pos as int]);
                assert(before[pos as int] == out@[pos as int]@);
                if k > pos {
                    assert(text_order()(before[pos as int], before[k]));
                    lemma_text_le_transitive(p@, before[pos as int], before[k]);
                }
            }
        }
        out.insert(pos, p);
        proof {
            let after = texts(out@);
            assert(after =~= before.insert(pos as int, p@));
            to_multiset_insert(before, pos as int, p@);
            assert(texts(paths@.take(i + 1)) =~= texts(paths@.take(i as int)).push(p@));
            to_multiset_build(texts(paths@.take(i as int)), p@);
            assert forall|x: int, y: int| 0 <= x < y < after.len() implies #[trigger] text_order()(
                after[x],
                after[y],
            ) by {
                if x < pos && y > pos {
                    assert(text_order()(before[x], before[y - 1]));
                } else if x < pos && y < pos {
                    assert(text_order()(before[x], before[y]));
                } else if x > pos {
                    assert(text_order()(before[x - 1], before[y - 1]));
                }
            }
        }
    }
    proof {
        assert(paths@.take(paths@.len() as int) =~= paths@);
        texts(paths@).lemma_sort_by_ensures(text_order());
        lemma_sorted_unique(texts(out@), sorted_texts(texts(paths@)), text_order());
    }
    out
}

} // verus!
