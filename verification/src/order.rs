//! The order of texts and stable sorting.
use vstd::prelude::*;
use vstd::string::*;
use crate::strs::to_chars;

verus! {

/// `a` comes strictly before `b` in the order of `str` (lexicographic by
/// code point).
pub open spec fn text_lt(a: Seq<char>, b: Seq<char>) -> bool
    decreases a.len(),
{
    if a.len() == 0 {
        b.len() > 0
    } else if b.len() == 0 {
        false
    } else if a[0] != b[0] {
        (a[0] as u32) < (b[0] as u32)
    } else {
        text_lt(a.skip(1), b.skip(1))
    }
}

proof fn lemma_text_lt_from(a: Seq<char>, b: Seq<char>, i: int)
    requires
        0 <= i <= a.len(),
        i <= b.len(),
        forall|k: int| 0 <= k < i ==> a[k] == b[k],
    ensures
        text_lt(a, b) == text_lt(a.skip(i), b.skip(i)),
    decreases i,
{
    if i > 0 {
        lemma_text_lt_from(a.skip(1), b.skip(1), i - 1);
        assert(a.skip(1).skip(i - 1) =~= a.skip(i));
        assert(b.skip(1).skip(i - 1) =~= b.skip(i));
    } else {
        assert(a.skip(0) =~= a);
        assert(b.skip(0) =~= b);
    }
}

/// Whether `a` comes strictly before `b`.
pub fn text_less(a: &str, b: &str) -> (r: bool)
    ensures
        r == text_lt(a@, b@),
{
    let x = to_chars(a);
    let y = to_chars(b);
    let mut i: usize = 0;
    while i < x.len() && i < y.len()
        invariant
            i <= x.len(),
            i <= y.len(),
            x@ == a@,
            y@ == b@,
            forall|k: int| 0 <= k < i ==> x@[k] == y@[k],
        decreases x.len() - i,
    {
        if x[i] != y[i] {
            proof {
                lemma_text_lt_from(a@, b@, i as int);
            }
            return (x[i] as u32) < (y[i] as u32);
        }
        i += 1;
    }
    proof {
        lemma_text_lt_from(a@, b@, i as int);
    }
    i == x.len() && i < y.len()
}

/// `text_lt` is irreflexive and transitive, and any two different texts
/// are ordered one way or the other.
pub proof fn lemma_text_lt_order(a: Seq<char>, b: Seq<char>, c: Seq<char>)
    ensures
        !text_lt(a, a),
        text_lt(a, b) && text_lt(b, c) ==> text_lt(a, c),
        a != b ==> text_lt(a, b) || text_lt(b, a),
        text_lt(a, b) ==> !text_lt(b, a),
    decreases a.len(),
{
    if a.len() > 0 && b.len() > 0 && c.len() > 0 {
        lemma_text_lt_order(a.skip(1), b.skip(1), c.skip(1));
    }
    if a.len() > 0 && b.len() > 0 && a[0] == b[0] && a != b {
        assert(a.skip(1) != b.skip(1)) by {
            if a.skip(1) == b.skip(1) {
                assert(a =~= seq![a[0]] + a.skip(1));
                assert(b =~= seq![b[0]] + b.skip(1));
            }
        }
    }
    if a.len() > 0 {
        lemma_text_lt_order(a.skip(1), a.skip(1), a.skip(1));
    }
    if a.len() > 0 && b.len() > 0 {
        lemma_text_lt_order(a.skip(1), b.skip(1), b.skip(1));
    }
    if a.len() == 0 && b.len() == 0 {
        assert(a =~= b);
    }
    if a.len() > 0 && b.len() > 0 && a[0] != b[0] {
        vstd::utf8::char_u32_cast(a[0], a[0] as u32);
        vstd::utf8::char_u32_cast(b[0], b[0] as u32);
    }
}

/// `x` inserted into `s` before the first element that it comes before.
pub open spec fn insert_sorted<T>(s: Seq<T>, x: T, before: spec_fn(T, T) -> bool) -> Seq<T>
    decreases s.len(),
{
    if s.len() == 0 {
        seq![x]
    } else if before(x, s[0]) {
        seq![x] + s
    } else {
        seq![s[0]] + insert_sorted(s.skip(1), x, before)
    }
}

/// Stable sort: each element, in turn, goes after every element already
/// placed that it does not come before.
pub open spec fn stable_sort<T>(s: Seq<T>, before: spec_fn(T, T) -> bool) -> Seq<T>
    decreases s.len(),
{
    if s.len() == 0 {
        s
    } else {
        insert_sorted(stable_sort(s.drop_last(), before), s.last(), before)
    }
}

/// Inserting at the first position whose element `x` comes before is
/// `insert_sorted`.
pub proof fn lemma_insert_at<T>(s: Seq<T>, x: T, before: spec_fn(T, T) -> bool, j: int)
    requires
        0 <= j <= s.len(),
        forall|k: int| 0 <= k < j ==> !before(x, #[trigger] s[k]),
        j < s.len() ==> before(x, s[j]),
    ensures
        insert_sorted(s, x, before) == s.insert(j, x),
    decreases j,
{
    if j == 0 {
        if s.len() == 0 {
            assert(s.insert(0, x) =~= seq![x]);
        } else {
            assert(s.insert(0, x) =~= seq![x] + s);
        }
    } else {
        let t = s.skip(1);
        assert forall|k: int| 0 <= k < j - 1 implies !before(x, #[trigger] t[k]) by {
            assert(t[k] == s[k + 1]);
        }
        lemma_insert_at(t, x, before, j - 1);
        assert(s.insert(j, x) =~= seq![s[0]] + t.insert(j - 1, x));
    }
}

pub proof fn lemma_insert_sorted_multiset<T>(s: Seq<T>, x: T, before: spec_fn(T, T) -> bool)
    ensures
        insert_sorted(s, x, before).to_multiset() == s.to_multiset().insert(x),
        insert_sorted(s, x, before).len() == s.len() + 1,
    decreases s.len(),
{
    broadcast use vstd::seq_lib::group_to_multiset_ensures;

    if s.len() == 0 {
        assert(seq![x] =~= Seq::<T>::empty().push(x));
    } else if before(x, s[0]) {
        assert(seq![x] + s =~= seq![x] + s);
        vstd::seq_lib::lemma_multiset_commutative(seq![x], s);
        assert(seq![x] =~= Seq::<T>::empty().push(x));
    } else {
        lemma_insert_sorted_multiset(s.skip(1), x, before);
        vstd::seq_lib::lemma_multiset_commutative(seq![s[0]], insert_sorted(s.skip(1), x, before));
        vstd::seq_lib::lemma_multiset_commutative(seq![s[0]], s.skip(1));
        assert(seq![s[0]] + s.skip(1) =~= s);
        assert(seq![s[0]] =~= Seq::<T>::empty().push(s[0]));
    }
}

/// Sorting keeps exactly the elements it was given.
pub proof fn lemma_stable_sort_multiset<T>(s: Seq<T>, before: spec_fn(T, T) -> bool)
    ensures
        stable_sort(s, before).to_multiset() == s.to_multiset(),
        stable_sort(s, before).len() == s.len(),
    decreases s.len(),
{
    broadcast use vstd::seq_lib::group_to_multiset_ensures;

    if s.len() > 0 {
        lemma_stable_sort_multiset(s.drop_last(), before);
        lemma_insert_sorted_multiset(stable_sort(s.drop_last(), before), s.last(), before);
        assert(s.drop_last().push(s.last()) =~= s);
    }
}

} // verus!
