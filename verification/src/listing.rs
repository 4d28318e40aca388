use vstd::prelude::*;
use vstd::relations::{sorted_by, total_ordering};
use vstd::seq_lib::*;
use vstd::string::*;

use crate::text::views;

verus! {

/// `a` comes before `b`, or equals it, in the order of `String`: character
/// by character, and a text before every longer text that it begins.
pub open spec fn text_le(a: Seq<char>, b: Seq<char>) -> bool
    decreases a.len(),
{
    if a.len() == 0 {
        true
    } else if b.len() == 0 {
        false
    } else if a[0] != b[0] {
        a[0] < b[0]
    } else {
        text_le(a.drop_first(), b.drop_first())
    }
}

/// The order of `String` as a relation.
pub open spec fn text_order() -> spec_fn(Seq<char>, Seq<char>) -> bool {
    |a: Seq<char>, b: Seq<char>| text_le(a, b)
}

proof fn lemma_text_le_reflexive(a: Seq<char>)
    ensures
        text_le(a, a),
    decreases a.len(),
{
    if a.len() > 0 {
        lemma_text_le_reflexive(a.drop_first());
    }
}

proof fn lemma_text_le_antisymmetric(a: Seq<char>, b: Seq<char>)
    requires
        text_le(a, b),
        text_le(b, a),
    ensures
        a == b,
    decreases a.len(),
{
    if a.len() == 0 {
        assert(b.len() == 0);
        assert(a =~= b);
    } else {
        assert(b.len() > 0);
        assert(a[0] == b[0]);
        lemma_text_le_antisymmetric(a.drop_first(), b.drop_first());
        assert(a =~= seq![a[0]] + a.drop_first());
        assert(b =~= seq![b[0]] + b.drop_first());
    }
}

proof fn lemma_text_le_transitive(a: Seq<char>, b: Seq<char>, c: Seq<char>)
    requires
        text_le(a, b),
        text_le(b, c),
    ensures
        text_le(a, c),
    decreases a.len(),
{
    if a.len() > 0 {
        assert(b.len() > 0);
        assert(c.len() > 0);
        if a[0] == b[0] && b[0] == c[0] {
            lemma_text_le_transitive(a.drop_first(), b.drop_first(), c.drop_first());
        }
    }
}

proof fn lemma_text_le_total(a: Seq<char>, b: Seq<char>)
    ensures
        text_le(a, b) || text_le(b, a),
    decreases a.len(),
{
    if a.len() > 0 && b.len() > 0 && a[0] == b[0] {
        lemma_text_le_total(a.drop_first(), b.drop_first());
    }
}

/// The order of `String` is a total order.
pub proof fn lemma_text_order_is_total()
    ensures
        total_ordering(text_order()),
{
    let r = text_order();
    assert forall|a: Seq<char>| #[trigger] r(a, a) by {
        lemma_text_le_reflexive(a);
    }
    assert forall|a: Seq<char>, b: Seq<char>| #[trigger] r(a, b) && #[trigger] r(b, a) implies a
        == b by {
        lemma_text_le_antisymmetric(a, b);
    }
    assert forall|a: Seq<char>, b: Seq<char>, c: Seq<char>| #[trigger]
        r(a, b) && #[trigger] r(b, c) implies r(a, c) by {
        lemma_text_le_transitive(a, b, c);
    }
    assert forall|a: Seq<char>, b: Seq<char>| #[trigger] r(a, b) || #[trigger] r(b, a) by {
        lemma_text_le_total(a, b);
    }
}

/// Whether `a` comes before `b`, or equals it, in the order of `String`.
pub fn str_le(a: &str, b: &str) -> (r: bool)
    ensures
        r == text_le(a@, b@),
{
    let n: usize = a.unicode_len();
    let m: usize = b.unicode_len();
    let mut i: usize = 0;
    assert(a@.skip(0) =~= a@);
    assert(b@.skip(0) =~= b@);
    while i < n && i < m
        invariant
            n == a@.len(),
            m == b@.len(),
            i <= n,
            i <= m,
            text_le(a@, b@) == text_le(a@.skip(i as int), b@.skip(i as int)),
        decreases n - i,
    {
        let x = a.get_char(i);
        let y = b.get_char(i);
        assert(a@.skip(i as int)[0] == x);
        assert(b@.skip(i as int)[0] == y);
        if x != y {
            return x < y;
        }
        assert(a@.skip(i as int).drop_first() =~= a@.skip(i + 1));
        assert(b@.skip(i as int).drop_first() =~= b@.skip(i + 1));
        i = i + 1;
    }
    i == n
}

/// Inserting `x` where everything before is below it and the element at the
/// place is not keeps a sorted sequence sorted.
proof fn lemma_insert_keeps_sorted(v: Seq<Seq<char>>, j: int, x: Seq<char>)
    requires
        sorted_by(v, text_order()),
        0 <= j <= v.len(),
        forall|k: int| 0 <= k < j ==> !text_le(x, #[trigger] v[k]),
        j < v.len() ==> text_le(x, v[j]),
    ensures
        sorted_by(v.insert(j, x), text_order()),
{
    let w = v.insert(j, x);
    let r = text_order();
    assert forall|i: int, k: int| 0 <= i < k < w.len() implies #[trigger] r(w[i], w[k]) by {
        if k < j {
            assert(r(v[i], v[k]));
        } else if k == j {
            lemma_text_le_total(x, v[i]);
        } else if i < j {
            assert(r(v[i], v[k - 1]));
        } else if i == j {
            if k - 1 == j {
            } else {
                assert(r(v[j], v[k - 1]));
                lemma_text_le_transitive(x, v[j], v[k - 1]);
            }
        } else {
            assert(r(v[i - 1], v[k - 1]));
        }
    }
}

/// The names of the entries of a directory in the order of `String`, as
/// `Vec::sort` leaves them.
pub fn sort_entry_names(entries: Vec<String>) -> (r: Vec<String>)
    ensures
        views(r@) == views(entries@).sort_by(text_order()),
{
    let mut sorted: Vec<String> = Vec::new();
    let mut i: usize = 0;
    assert(views(sorted@) =~= Seq::<Seq<char>>::empty());
    assert(views(entries@).take(0) =~= Seq::<Seq<char>>::empty());
    while i < entries.len()
        invariant
            i <= entries.len(),
            sorted_by(views(sorted@), text_order()),
            views(sorted@).to_multiset() == views(entries@).take(i as int).to_multiset(),
        decreases entries.len() - i,
    {
        let x = entries[i].clone();
        let mut j: usize = 0;
        while j < sorted.len() && !str_le(x.as_str(), sorted[j].as_str())
            invariant
                j <= sorted.len(),
                forall|k: int| 0 <= k < j ==> !text_le(x@, #[trigger] views(sorted@)[k]),
            decreases sorted.len() - j,
        {
            j = j + 1;
        }
        let ghost before = views(sorted@);
        proof {
            lemma_insert_keeps_sorted(before, j as int, x@);
        }
        sorted.insert(j, x);
        proof {
            assert(views(sorted@) =~= before.insert(j as int, entries@[i as int]@));
            to_multiset_insert(before, j as int, entries@[i as int]@);
            assert(views(entries@).take(i + 1) =~= views(entries@).take(i as int).push(
                entries@[i as int]@,
            ));
            to_multiset_build(views(entries@).take(i as int), entries@[i as int]@);
        }
        i = i + 1;
    }
    proof {
        assert(views(entries@).take(entries.len() as int) =~= views(entries@));
        lemma_text_order_is_total();
        views(entries@).lemma_sort_by_ensures(text_order());
        lemma_sorted_unique(views(sorted@), views(entries@).sort_by(text_order()), text_order());
    }
    sorted
}

} // verus!
