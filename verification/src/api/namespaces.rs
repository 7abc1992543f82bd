//! The namespace picker's list: every named namespace, sorted by name.

use vstd::prelude::*;

verus! {

broadcast use vstd::seq_lib::group_to_multiset_ensures;

#[derive(Clone, Debug)]
pub struct NamespaceItem {
    pub name: String,
}

/// Lexicographic order on strings by code point (the order of `String`'s `Ord`).
pub open spec fn lex_le(a: Seq<char>, b: Seq<char>) -> bool
    decreases a.len(),
{
    if a.len() == 0 {
        true
    } else if b.len() == 0 {
        false
    } else if a[0] != b[0] {
        a[0] < b[0]
    } else {
        lex_le(a.drop_first(), b.drop_first())
    }
}

/// Any two strings are ordered one way or the other.
pub proof fn lemma_lex_total(a: Seq<char>, b: Seq<char>)
    ensures
        lex_le(a, b) || lex_le(b, a),
    decreases a.len(),
{
    if a.len() > 0 && b.len() > 0 && a[0] == b[0] {
        lemma_lex_total(a.drop_first(), b.drop_first());
    }
}

/// The order is transitive.
pub proof fn lemma_lex_trans(a: Seq<char>, b: Seq<char>, c: Seq<char>)
    requires
        lex_le(a, b),
        lex_le(b, c),
    ensures
        lex_le(a, c),
    decreases a.len(),
{
    if a.len() > 0 && b.len() > 0 && c.len() > 0 && a[0] == b[0] && b[0] == c[0] {
        lemma_lex_trans(a.drop_first(), b.drop_first(), c.drop_first());
    }
}

/// Once a common prefix is compared, the rest decides.
proof fn lemma_lex_skip(a: Seq<char>, b: Seq<char>, i: int)
    requires
        0 <= i <= a.len(),
        i <= b.len(),
        forall|j: int| 0 <= j < i ==> a[j] == b[j],
    ensures
        lex_le(a, b) == lex_le(a.skip(i), b.skip(i)),
    decreases i,
{
    if i > 0 {
        assert(a.drop_first().skip(i - 1) =~= a.skip(i));
        assert(b.drop_first().skip(i - 1) =~= b.skip(i));
        assert forall|j: int| 0 <= j < i - 1 implies a.drop_first()[j] == b.drop_first()[j] by {
            assert(a.drop_first()[j] == a[j + 1]);
            assert(b.drop_first()[j] == b[j + 1]);
        }
        lemma_lex_skip(a.drop_first(), b.drop_first(), i - 1);
    } else {
        assert(a.skip(0) =~= a);
        assert(b.skip(0) =~= b);
    }
}

/// `a` sorts before or together with `b`.
pub fn str_lex_le(a: &str, b: &str) -> (r: bool)
    ensures
        r == lex_le(a@, b@),
{
    let n = a.unicode_len();
    let m = b.unicode_len();
    let mut i: usize = 0;
    while i < n && i < m && a.get_char(i) == b.get_char(i)
        invariant
            n == a@.len(),
            m == b@.len(),
            i <= n,
            i <= m,
            forall|j: int| 0 <= j < i ==> a@[j] == b@[j],
        decreases n - i,
    {
        i += 1;
    }
    proof {
        lemma_lex_skip(a@, b@, i as int);
    }
    if i == n {
        true
    } else if i == m {
        false
    } else {
        let x = a.get_char(i);
        let y = b.get_char(i);
        proof {
            assert(a@.skip(i as int)[0] == x);
            assert(b@.skip(i as int)[0] == y);
        }
        x < y
    }
}

pub open spec fn names_view(items: Seq<NamespaceItem>) -> Seq<Seq<char>> {
    items.map_values(|it: NamespaceItem| it.name@)
}

/// The names that are present, in order.
pub open spec fn present_names(names: Seq<Option<String>>) -> Seq<Seq<char>>
    decreases names.len(),
{
    if names.len() == 0 {
        Seq::empty()
    } else {
        let rest = present_names(names.drop_last());
        match names.last() {
            Some(n) => rest.push(n@),
            None => rest,
        }
    }
}

pub open spec fn sorted_by_name(s: Seq<Seq<char>>) -> bool {
    forall|i: int, j: int| 0 <= i < j < s.len() ==> lex_le(#[trigger] s[i], #[trigger] s[j])
}

/// Insert `item` after every item it does not sort before, keeping the run sorted.
fn insert_sorted(out: &mut Vec<NamespaceItem>, item: NamespaceItem)
    requires
        sorted_by_name(names_view(old(out)@)),
    ensures
        sorted_by_name(names_view(final(out)@)),
        names_view(final(out)@).to_multiset() == names_view(old(out)@).to_multiset().insert(
            item.name@,
        ),
{
    let ghost x = item.name@;
    let mut j: usize = 0;
    while j < out.len() && str_lex_le(out[j].name.as_str(), item.name.as_str())
        invariant
            j <= out.len(),
            x == item.name@,
            forall|k: int| 0 <= k < j ==> lex_le(#[trigger] names_view(out@)[k], x),
        decreases out.len() - j,
    {
        j += 1;
    }
    let ghost before = names_view(out@);
    proof {
        if j < out.len() {
            assert(!lex_le(before[j as int], x));
            lemma_lex_total(before[j as int], x);
        }
    }
    out.insert(j, item);
    proof {
        let after = names_view(out@);
        assert(after =~= before.insert(j as int, x));
        assert forall|p: int, q: int| 0 <= p < q < after.len() implies lex_le(
            #[trigger] after[p],
            #[trigger] after[q],
        ) by {
            if q < j {
                assert(after[p] == before[p] && after[q] == before[q]);
            } else if q == j {
                assert(after[p] == before[p]);
            } else if p == j {
                assert(after[q] == before[q - 1]);
                if q - 1 > j {
                    lemma_lex_trans(x, before[j as int], before[q - 1]);
                }
            } else if p < j {
                assert(after[q] == before[q - 1]);
                assert(after[p] == before[p]);
            } else {
                assert(after[q] == before[q - 1]);
                assert(after[p] == before[p - 1]);
            }
        }
        vstd::seq_lib::to_multiset_insert(before, j as int, x);
    }
}

/// The namespaces that have a name, sorted by name.
pub fn namespace_items(names: Vec<Option<String>>) -> (r: Vec<NamespaceItem>)
    ensures
        sorted_by_name(names_view(r@)),
        names_view(r@).to_multiset() == present_names(names@).to_multiset(),
{
    let mut out: Vec<NamespaceItem> = Vec::new();
    let mut i: usize = 0;
    assert(names_view(out@) =~= Seq::<Seq<char>>::empty());
    while i < names.len()
        invariant
            i <= names.len(),
            sorted_by_name(names_view(out@)),
            names_view(out@).to_multiset() == present_names(names@.take(i as int)).to_multiset(),
        decreases names.len() - i,
    {
        proof {
            assert(names@.take(i + 1).drop_last() =~= names@.take(i as int));
        }
        match &names[i] {
            Some(n) => {
                insert_sorted(&mut out, NamespaceItem { name: n.clone() });
                proof {
                    vstd::seq_lib::to_multiset_build(present_names(names@.take(i as int)), n@);
                }
            },
            None => {},
        }
        i += 1;
    }
    assert(names@.take(names.len() as int) =~= names@);
    out
}


/// A string sorts before every longer string it begins with, and never after it: the empty
/// string first of all.
pub proof fn lemma_lex_prefix_first(a: Seq<char>, b: Seq<char>)
    ensures
        lex_le(a, a + b),
        b.len() > 0 ==> !lex_le(a + b, a),
    decreases a.len(),
{
    if a.len() > 0 {
        assert((a + b)[0] == a[0]);
        assert((a + b).drop_first() =~= a.drop_first() + b);
        lemma_lex_prefix_first(a.drop_first(), b);
    }
}

/// In the sorted namespace list, a name comes before every name that extends it (`prod`
/// before `prod-db`).
pub proof fn lemma_sorted_names_prefix_first(s: Seq<Seq<char>>, i: int, j: int, ext: Seq<char>)
    requires
        sorted_by_name(s),
        0 <= i < s.len(),
        0 <= j < s.len(),
        ext.len() > 0,
        s[j] == s[i] + ext,
    ensures
        i < j,
{
    lemma_lex_prefix_first(s[i], ext);
    if j < i {
        assert(lex_le(s[j], s[i]));
    }
    if i == j {
        assert(s[i].len() == s[i].len() + ext.len());
    }
}

} // verus!
