//! The listing of Soterspaces: which directory entries count, and their
//! order, which is that of `String`: code point by code point, a proper
//! prefix first.

use vstd::prelude::*;
use vstd::string::*;
use crate::text::strings;

verus! {

// ---------------------------------------------------------------- the order

/// `a` comes strictly before `b`.
pub open spec fn name_lt(a: Seq<char>, b: Seq<char>) -> bool
    decreases a.len(),
{
    if a.len() == 0 {
        b.len() > 0
    } else if b.len() == 0 {
        false
    } else if a[0] != b[0] {
        a[0] < b[0]
    } else {
        name_lt(a.drop_first(), b.drop_first())
    }
}

/// `a` comes before `b` or is `b`.
pub open spec fn name_le(a: Seq<char>, b: Seq<char>) -> bool {
    a == b || name_lt(a, b)
}

/// Every name comes before or is each later name.
pub open spec fn is_sorted(s: Seq<Seq<char>>) -> bool {
    forall|i: int, j: int| 0 <= i < j < s.len() ==> name_le(#[trigger] s[i], #[trigger] s[j])
}

proof fn lemma_first_differs(a: Seq<char>, b: Seq<char>)
    requires
        a.len() > 0,
        b.len() > 0,
        a[0] == b[0],
        a != b,
    ensures
        a.drop_first() != b.drop_first(),
{
    if a.drop_first() == b.drop_first() {
        assert(a =~= seq![a[0]] + a.drop_first());
        assert(b =~= seq![b[0]] + b.drop_first());
    }
}

/// Law: no name comes before itself.
pub proof fn lemma_name_lt_irreflexive(a: Seq<char>)
    ensures
        !name_lt(a, a),
    decreases a.len(),
{
    if a.len() > 0 {
        lemma_name_lt_irreflexive(a.drop_first());
    }
}

/// Law: of two different names, one comes before the other, and not both.
pub proof fn lemma_name_lt_total(a: Seq<char>, b: Seq<char>)
    ensures
        a != b ==> (name_lt(a, b) || name_lt(b, a)),
        !(name_lt(a, b) && name_lt(b, a)),
    decreases a.len(),
{
    if a.len() > 0 && b.len() > 0 {
        if a[0] == b[0] {
            lemma_name_lt_total(a.drop_first(), b.drop_first());
            if a != b {
                lemma_first_differs(a, b);
            }
        }
    } else if a.len() == 0 && b.len() == 0 {
        assert(a =~= b);
    }
}

/// Law: the order is transitive.
pub proof fn lemma_name_lt_transitive(a: Seq<char>, b: Seq<char>, c: Seq<char>)
    requires
        name_lt(a, b),
        name_lt(b, c),
    ensures
        name_lt(a, c),
    decreases a.len(),
{
    if a.len() > 0 && b.len() > 0 && c.len() > 0 && a[0] == b[0] && b[0] == c[0] {
        lemma_name_lt_transitive(a.drop_first(), b.drop_first(), c.drop_first());
    }
}

/// Whether `a` comes strictly before `b`.
pub fn name_less(a: &str, b: &str) -> (r: bool)
    ensures
        r == name_lt(a@, b@),
{
    let an = a.unicode_len();
    let bn = b.unicode_len();
    let mut i: usize = 0;
    assert(a@.skip(0) =~= a@);
    assert(b@.skip(0) =~= b@);
    while i < an && i < bn
        invariant
            an == a@.len(),
            bn == b@.len(),
            i <= an,
            i <= bn,
            name_lt(a@, b@) == name_lt(a@.skip(i as int), b@.skip(i as int)),
        decreases an - i,
    {
        let x = a.get_char(i);
        let y = b.get_char(i);
        assert(a@.skip(i as int)[0] == x);
        assert(b@.skip(i as int)[0] == y);
        if x != y {
            return x < y;
        }
        assert(a@.skip(i as int).drop_first() =~= a@.skip(i + 1));
        assert(b@.skip(i as int).drop_first() =~= b@.skip(i + 1));
        i = i + 1;
    }
    i == an && i < bn
}

// ---------------------------------------------------------------- the listing

/// The names of the entries that count as Soterspaces, in the order given.
pub open spec fn kept_names(entries: Seq<(String, bool)>) -> Seq<Seq<char>>
    decreases entries.len(),
{
    if entries.len() == 0 {
        seq![]
    } else {
        kept_names(entries.drop_last()) + if entries.last().1 {
            seq![entries.last().0@]
        } else {
            Seq::<Seq<char>>::empty()
        }
    }
}

/// Where `x` goes in the sorted `v`: after every name that is not later
/// than it.
fn insertion_point(v: &Vec<String>, x: &str) -> (p: usize)
    requires
        is_sorted(strings(v@)),
    ensures
        p <= v.len(),
        forall|k: int| 0 <= k < p ==> !name_lt(x@, #[trigger] strings(v@)[k]),
        p < v.len() ==> name_lt(x@, strings(v@)[p as int]),
{
    let mut p: usize = 0;
    while p < v.len()
        invariant
            p <= v.len(),
            forall|k: int| 0 <= k < p ==> !name_lt(x@, #[trigger] strings(v@)[k]),
        decreases v.len() - p,
    {
        if name_less(x, v[p].as_str()) {
            return p;
        }
        p = p + 1;
    }
    p
}

proof fn lemma_insert_sorted(s: Seq<Seq<char>>, p: int, x: Seq<char>)
    requires
        is_sorted(s),
        0 <= p <= s.len(),
        forall|k: int| 0 <= k < p ==> !name_lt(x, #[trigger] s[k]),
        p < s.len() ==> name_lt(x, s[p]),
    ensures
        is_sorted(s.insert(p, x)),
{
    let t = s.insert(p, x);
    assert forall|i: int, j: int| 0 <= i < j < t.len() implies name_le(#[trigger] t[i], #[trigger] t[j]) by {
        if i < p && j < p {
            assert(t[i] == s[i] && t[j] == s[j]);
        } else if i < p && j == p {
            assert(t[i] == s[i] && t[j] == x);
            assert(!name_lt(x, s[i]));
            lemma_name_lt_total(x, s[i]);
        } else if i < p && j > p {
            assert(t[i] == s[i] && t[j] == s[j - 1]);
        } else if i == p {
            assert(t[i] == x && t[j] == s[j - 1]);
            assert(name_le(s[p], s[j - 1]));
            if s[p] != s[j - 1] {
                lemma_name_lt_transitive(x, s[p], s[j - 1]);
            }
        } else {
            assert(t[i] == s[i - 1] && t[j] == s[j - 1]);
        }
    }
}

/// The Soterspaces among the entries of the state root, given each entry's
/// name and whether it is a directory that holds a `space.conf`: the names
/// of those that do, sorted.
pub fn listed_spaces(entries: &Vec<(String, bool)>) -> (r: Vec<String>)
    ensures
        is_sorted(strings(r@)),
        strings(r@).to_multiset() == kept_names(entries@).to_multiset(),
{
    let mut r: Vec<String> = Vec::new();
    let mut i: usize = 0;
    assert(strings(r@) =~= Seq::<Seq<char>>::empty());
    while i < entries.len()
        invariant
            i <= entries.len(),
            is_sorted(strings(r@)),
            strings(r@).to_multiset() == kept_names(entries@.take(i as int)).to_multiset(),
        decreases entries.len() - i,
    {
        let ghost before = strings(r@);
        assert(entries@.take(i + 1).drop_last() =~= entries@.take(i as int));
        if entries[i].1 {
            let name = entries[i].0.clone();
            let p = insertion_point(&r, name.as_str());
            proof {
                lemma_insert_sorted(before, p as int, name@);
                vstd::seq_lib::to_multiset_insert(before, p as int, name@);
                vstd::seq_lib::to_multiset_build(kept_names(entries@.take(i as int)), name@);
            }
            r.insert(p, name);
            assert(strings(r@) =~= before.insert(p as int, entries@[i as int].0@));
            assert(kept_names(entries@.take(i + 1)) =~= kept_names(entries@.take(i as int)).push(
                entries@[i as int].0@,
            ));
        } else {
            assert(kept_names(entries@.take(i + 1)) =~= kept_names(entries@.take(i as int)));
        }
        i = i + 1;
    }
    assert(entries@.take(entries.len() as int) =~= entries@);
    r
}

} // verus!
