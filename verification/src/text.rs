//! String comparison, sorting and joining used by the DDL renderers.
//!
//! Constraint column lists in generated DDL are rendered in a stable sorted
//! order, so the generated SQL is deterministic and diffable.

use vstd::prelude::*;

verus! {

/// Lexicographic comparison of the suffixes of `a` and `b` starting at `i`:
/// true when `a[i..]` sorts at or before `b[i..]` by code point.
pub open spec fn lex_le_from(a: Seq<char>, b: Seq<char>, i: int) -> bool
    decreases a.len() - i,
{
    if i < 0 || i >= a.len() {
        true
    } else if i >= b.len() {
        false
    } else if (a[i] as u32) == (b[i] as u32) {
        lex_le_from(a, b, i + 1)
    } else {
        (a[i] as u32) < (b[i] as u32)
    }
}

/// `a` sorts at or before `b` in lexicographic (code point) order.
pub open spec fn lex_le(a: Seq<char>, b: Seq<char>) -> bool {
    lex_le_from(a, b, 0)
}

/// Decides `lex_le(a@, b@)`.
pub fn str_le(a: &str, b: &str) -> (r: bool)
    ensures
        r == lex_le(a@, b@),
{
    let a_len = a.unicode_len();
    let b_len = b.unicode_len();
    let mut i: usize = 0;
    loop
        invariant
            i <= a_len,
            a_len == a@.len(),
            b_len == b@.len(),
            lex_le(a@, b@) == lex_le_from(a@, b@, i as int),
        decreases a_len - i,
    {
        if i >= a_len {
            return true;
        }
        if i >= b_len {
            return false;
        }
        let ca = a.get_char(i) as u32;
        let cb = b.get_char(i) as u32;
        if ca != cb {
            return ca < cb;
        }
        i = i + 1;
    }
}

/// Decides `a@ == b@`.
pub fn str_eq(a: &str, b: &str) -> (r: bool)
    ensures
        r == (a@ == b@),
{
    let owned_a = a.to_owned();
    let owned_b = b.to_owned();
    owned_a == owned_b
}

/// `x` inserted into `s` before the first element that `x` sorts at or
/// before; `s` sorted implies the result is sorted.
pub open spec fn insert_sorted(s: Seq<Seq<char>>, x: Seq<char>) -> Seq<Seq<char>>
    decreases s.len(),
{
    if s.len() == 0 {
        seq![x]
    } else if lex_le(x, s[0]) {
        seq![x] + s
    } else {
        seq![s[0]] + insert_sorted(s.skip(1), x)
    }
}

/// Insertion sort of a sequence of names by `lex_le`.
pub open spec fn sort_names(s: Seq<Seq<char>>) -> Seq<Seq<char>>
    decreases s.len(),
{
    if s.len() == 0 {
        Seq::empty()
    } else {
        insert_sorted(sort_names(s.drop_last()), s.last())
    }
}

/// The names appear in lexicographic order.
pub open spec fn names_sorted(s: Seq<Seq<char>>) -> bool {
    forall|i: int, j: int| 0 <= i < j < s.len() ==> lex_le(#[trigger] s[i], #[trigger] s[j])
}

proof fn lemma_lex_le_from_total(a: Seq<char>, b: Seq<char>, i: int)
    ensures
        lex_le_from(a, b, i) || lex_le_from(b, a, i),
    decreases a.len() - i,
{
    if i < 0 || i >= a.len() {
    } else if i >= b.len() {
    } else if (a[i] as u32) == (b[i] as u32) {
        lemma_lex_le_from_total(a, b, i + 1);
    }
}

/// Lexicographic order is total: of any two names, one sorts at or before
/// the other.
pub proof fn lemma_lex_le_total(a: Seq<char>, b: Seq<char>)
    ensures
        lex_le(a, b) || lex_le(b, a),
{
    lemma_lex_le_from_total(a, b, 0);
}

proof fn lemma_lex_le_from_trans(a: Seq<char>, b: Seq<char>, c: Seq<char>, i: int)
    requires
        lex_le_from(a, b, i),
        lex_le_from(b, c, i),
    ensures
        lex_le_from(a, c, i),
    decreases a.len() - i,
{
    if i < 0 || i >= a.len() {
    } else {
        assert(i < b.len());
        assert(i < c.len());
        if (a[i] as u32) == (b[i] as u32) && (b[i] as u32) == (c[i] as u32) {
            lemma_lex_le_from_trans(a, b, c, i + 1);
        }
    }
}

/// Lexicographic order is transitive.
pub proof fn lemma_lex_le_trans(a: Seq<char>, b: Seq<char>, c: Seq<char>)
    requires
        lex_le(a, b),
        lex_le(b, c),
    ensures
        lex_le(a, c),
{
    lemma_lex_le_from_trans(a, b, c, 0);
}

proof fn lemma_insert_sorted_multiset(s: Seq<Seq<char>>, x: Seq<char>)
    ensures
        insert_sorted(s, x).to_multiset() == s.to_multiset().insert(x),
    decreases s.len(),
{
    broadcast use vstd::seq_lib::group_to_multiset_ensures;
    broadcast use vstd::multiset::group_multiset_axioms;

    if s.len() == 0 {
        assert(Seq::<Seq<char>>::empty().push(x) =~= insert_sorted(s, x));
        assert(insert_sorted(s, x).to_multiset() =~= s.to_multiset().insert(x));
    } else if lex_le(x, s[0]) {
        vstd::seq_lib::lemma_multiset_commutative(seq![x], s);
        assert(Seq::<Seq<char>>::empty().push(x) =~= seq![x]);
        assert(seq![x].to_multiset() =~= Seq::<Seq<char>>::empty().to_multiset().insert(x));
        assert(insert_sorted(s, x).to_multiset() =~= s.to_multiset().insert(x));
    } else {
        let t = s.skip(1);
        lemma_insert_sorted_multiset(t, x);
        vstd::seq_lib::lemma_multiset_commutative(seq![s[0]], insert_sorted(t, x));
        vstd::seq_lib::lemma_multiset_commutative(seq![s[0]], t);
        assert(seq![s[0]] + t =~= s);
        assert(insert_sorted(s, x).to_multiset() =~= s.to_multiset().insert(x));
    }
}

proof fn lemma_insert_sorted_keeps_sorted(s: Seq<Seq<char>>, x: Seq<char>)
    requires
        names_sorted(s),
    ensures
        names_sorted(insert_sorted(s, x)),
    decreases s.len(),
{
    broadcast use vstd::seq_lib::group_to_multiset_ensures;
    broadcast use vstd::multiset::group_multiset_axioms;

    if s.len() == 0 {
    } else if lex_le(x, s[0]) {
        let r = seq![x] + s;
        assert forall|i: int, j: int| 0 <= i < j < r.len() implies lex_le(
            #[trigger] r[i],
            #[trigger] r[j],
        ) by {
            if i == 0 {
                if j > 1 {
                    lemma_lex_le_trans(x, s[0], s[j - 1]);
                }
            } else {
                assert(r[i] == s[i - 1] && r[j] == s[j - 1]);
            }
        }
    } else {
        let t = s.skip(1);
        assert forall|i: int, j: int| 0 <= i < j < t.len() implies lex_le(
            #[trigger] t[i],
            #[trigger] t[j],
        ) by {
            assert(t[i] == s[i + 1] && t[j] == s[j + 1]);
        }
        lemma_insert_sorted_keeps_sorted(t, x);
        lemma_insert_sorted_multiset(t, x);
        lemma_lex_le_total(x, s[0]);
        let u = insert_sorted(t, x);
        let r = seq![s[0]] + u;
        assert(insert_sorted(s, x) == r);
        assert forall|j: int| 0 <= j < u.len() implies lex_le(s[0], #[trigger] u[j]) by {
            assert(u.contains(u[j]));
            assert(u.to_multiset().count(u[j]) > 0);
            if u[j] == x {
            } else {
                assert(t.to_multiset().count(u[j]) > 0);
                assert(t.contains(u[j]));
                let k = choose|k: int| 0 <= k < t.len() && t[k] == u[j];
                assert(lex_le(s[0], s[k + 1]));
            }
        }
        assert forall|i: int, j: int| 0 <= i < j < r.len() implies lex_le(
            #[trigger] r[i],
            #[trigger] r[j],
        ) by {
            if i > 0 {
                assert(r[i] == u[i - 1] && r[j] == u[j - 1]);
            } else {
                assert(lex_le(s[0], u[j - 1]));
            }
        }
    }
}

/// Sorting the names yields the same names, in lexicographic order: the
/// rendering of a constraint's column list is a stable, deterministic
/// reordering of the columns.
pub proof fn lemma_sort_names_sorted(s: Seq<Seq<char>>)
    ensures
        names_sorted(sort_names(s)),
        sort_names(s).to_multiset() == s.to_multiset(),
    decreases s.len(),
{
    broadcast use vstd::seq_lib::group_to_multiset_ensures;
    broadcast use vstd::multiset::group_multiset_axioms;

    if s.len() == 0 {
    } else {
        let pfx = s.drop_last();
        lemma_sort_names_sorted(pfx);
        lemma_insert_sorted_keeps_sorted(sort_names(pfx), s.last());
        lemma_insert_sorted_multiset(sort_names(pfx), s.last());
        assert(pfx.push(s.last()) =~= s);
        assert(sort_names(s).to_multiset() =~= s.to_multiset());
    }
}

proof fn lemma_insert_sorted_at(s: Seq<Seq<char>>, x: Seq<char>, p: int)
    requires
        0 <= p <= s.len(),
        forall|k: int| 0 <= k < p ==> !lex_le(x, #[trigger] s[k]),
        p < s.len() ==> lex_le(x, s[p]),
    ensures
        insert_sorted(s, x) =~= s.subrange(0, p) + seq![x] + s.skip(p),
    decreases p,
{
    if p == 0 {
        if s.len() == 0 {
            assert(insert_sorted(s, x) =~= s.subrange(0, 0) + seq![x] + s.skip(0));
        } else {
            assert(lex_le(x, s[0]));
        }
    } else {
        assert(!lex_le(x, s[0]));
        let t = s.skip(1);
        assert(forall|k: int| 0 <= k < p - 1 ==> !lex_le(x, #[trigger] t[k])) by {
            assert(forall|k: int| 0 <= k < p - 1 ==> t[k] == s[k + 1]);
        }
        lemma_insert_sorted_at(t, x, p - 1);
    }
}

/// One step of insertion sort on vectors of owned strings.
fn insert_name_sorted(v: &mut Vec<String>, x: String)
    ensures
        final(v).deep_view() == insert_sorted(old(v).deep_view(), x@),
{
    let ghost s = v.deep_view();
    let mut p: usize = 0;
    loop
        invariant
            p <= v.len(),
            s == v.deep_view(),
            forall|k: int| 0 <= k < p ==> !lex_le(x@, #[trigger] s[k]),
        ensures
            p <= v.len(),
            s == v.deep_view(),
            forall|k: int| 0 <= k < p ==> !lex_le(x@, #[trigger] s[k]),
            p < v.len() ==> lex_le(x@, s[p as int]),
        decreases v.len() - p,
    {
        if p >= v.len() {
            break;
        }
        if str_le(x.as_str(), v[p].as_str()) {
            break;
        }
        p = p + 1;
    }
    proof {
        lemma_insert_sorted_at(s, x@, p as int);
    }
    let ghost xv = x@;
    v.insert(p, x);
    proof {
        assert(v.deep_view() =~= s.subrange(0, p as int) + seq![xv] + s.skip(p as int));
    }
}

/// Returns the names sorted by `lex_le`, leaving the input untouched.
pub fn sorted_names(names: &Vec<String>) -> (r: Vec<String>)
    ensures
        r.deep_view() == sort_names(names.deep_view()),
{
    let ghost s = names.deep_view();
    let mut r: Vec<String> = Vec::new();
    let mut j: usize = 0;
    while j < names.len()
        invariant
            j <= names.len(),
            s == names.deep_view(),
            r.deep_view() == sort_names(s.subrange(0, j as int)),
        decreases names.len() - j,
    {
        let name = names[j].clone();
        assert(name@ == s[j as int]);
        insert_name_sorted(&mut r, name);
        proof {
            assert(s.subrange(0, j + 1 as int).drop_last() =~= s.subrange(0, j as int));
            assert(s.subrange(0, j + 1 as int).last() == s[j as int]);
        }
        j = j + 1;
    }
    proof {
        assert(s.subrange(0, names.deep_view().len() as int) =~= s);
    }
    r
}

/// The two sequences hold the same set of names, regardless of order or
/// multiplicity.
pub open spec fn same_elements(a: Seq<Seq<char>>, b: Seq<Seq<char>>) -> bool {
    &&& forall|x: Seq<char>| a.contains(x) ==> b.contains(x)
    &&& forall|x: Seq<char>| b.contains(x) ==> a.contains(x)
}

/// True when the vector of names contains the name.
pub fn contains_str(v: &Vec<String>, x: &str) -> (r: bool)
    ensures
        r == v.deep_view().contains(x@),
{
    let mut i: usize = 0;
    while i < v.len()
        invariant
            i <= v.len(),
            forall|k: int| 0 <= k < i ==> v.deep_view()[k] != x@,
        decreases v.len() - i,
    {
        if str_eq(v[i].as_str(), x) {
            assert(v.deep_view()[i as int] == x@);
            return true;
        }
        i = i + 1;
    }
    false
}

fn names_subset(a: &Vec<String>, b: &Vec<String>) -> (r: bool)
    ensures
        r == forall|x: Seq<char>| a.deep_view().contains(x) ==> b.deep_view().contains(x),
{
    let mut i: usize = 0;
    while i < a.len()
        invariant
            i <= a.len(),
            forall|k: int| 0 <= k < i ==> b.deep_view().contains(#[trigger] a.deep_view()[k]),
        decreases a.len() - i,
    {
        if !contains_str(b, a[i].as_str()) {
            assert(a.deep_view().contains(a.deep_view()[i as int]));
            return false;
        }
        assert(b.deep_view().contains(a.deep_view()[i as int]));
        i = i + 1;
    }
    proof {
        assert forall|x: Seq<char>| a.deep_view().contains(x) implies b.deep_view().contains(
            x,
        ) by {
            let k = choose|k: int| 0 <= k < a.deep_view().len() && a.deep_view()[k] == x;
            assert(b.deep_view().contains(a.deep_view()[k]));
        }
    }
    true
}

/// Decides `same_elements(a.deep_view(), b.deep_view())`.
pub fn names_same_elements(a: &Vec<String>, b: &Vec<String>) -> (r: bool)
    ensures
        r == same_elements(a.deep_view(), b.deep_view()),
{
    let ab = names_subset(a, b);
    let ba = names_subset(b, a);
    ab && ba
}

/// The name wrapped in double quotes, as it appears in generated SQL.
pub open spec fn quoted(name: Seq<char>) -> Seq<char> {
    "\""@ + name + "\""@
}

/// The quoted names joined with a comma and a space.
pub open spec fn comma_sep(names: Seq<Seq<char>>) -> Seq<char>
    decreases names.len(),
{
    if names.len() == 0 {
        Seq::empty()
    } else if names.len() == 1 {
        quoted(names[0])
    } else {
        comma_sep(names.drop_last()) + ", "@ + quoted(names.last())
    }
}

/// The quoted names, sorted, joined with a comma and a space: the stable
/// rendering of a constraint's column list.
pub open spec fn sorted_comma_sep(names: Seq<Seq<char>>) -> Seq<char> {
    comma_sep(sort_names(names))
}

/// Renders the quoted names joined with a comma and a space, in the order
/// given.
pub fn comma_list(names: &Vec<String>) -> (r: String)
    ensures
        r@ == comma_sep(names.deep_view()),
{
    let ghost s = names.deep_view();
    let mut r = String::new();
    let mut j: usize = 0;
    while j < names.len()
        invariant
            j <= names.len(),
            s == names.deep_view(),
            r@ == comma_sep(s.subrange(0, j as int)),
        decreases names.len() - j,
    {
        if j > 0 {
            r.append(", ");
        }
        r.append("\"");
        r.append(names[j].as_str());
        r.append("\"");
        proof {
            assert(s.subrange(0, j + 1 as int).drop_last() =~= s.subrange(0, j as int));
            assert(s.subrange(0, j + 1 as int).last() == s[j as int]);
        }
        j = j + 1;
    }
    proof {
        assert(s.subrange(0, s.len() as int) =~= s);
    }
    r
}

/// Renders `sorted_comma_sep(names.deep_view())`.
pub fn sorted_comma_list(names: &Vec<String>) -> (r: String)
    ensures
        r@ == sorted_comma_sep(names.deep_view()),
{
    let sorted = sorted_names(names);
    comma_list(&sorted)
}

} // verus!
