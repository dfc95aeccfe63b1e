//! Listing bus names: activatable names added to the running ones, and the
//! list ordered with well-known names first, then unique names (`:1.42`),
//! each group in byte order.

use vstd::prelude::*;
use vstd::string::StringSliceAdditionalSpecFns;
use crate::atspi::string_views;

verus! {

/// Strict lexicographic order on byte strings.
pub open spec fn bytes_lt(a: Seq<u8>, b: Seq<u8>) -> bool
    decreases a.len(),
{
    if a.len() == 0 {
        b.len() > 0
    } else if b.len() == 0 {
        false
    } else if a[0] < b[0] {
        true
    } else if a[0] > b[0] {
        false
    } else {
        bytes_lt(a.subrange(1, a.len() as int), b.subrange(1, b.len() as int))
    }
}

/// A unique connection name starts with `:`.
pub open spec fn is_unique_name(s: Seq<char>) -> bool {
    s.len() > 0 && s[0] == ':'
}

/// Whether name `a` comes strictly before name `b`: well-known names before
/// unique ones, and within each group by the bytes of their UTF-8 form.
pub open spec fn name_before(a: Seq<char>, b: Seq<char>) -> bool {
    if is_unique_name(a) != is_unique_name(b) {
        !is_unique_name(a)
    } else {
        bytes_lt(vstd::utf8::encode_utf8(a), vstd::utf8::encode_utf8(b))
    }
}

/// Names in order: no name comes strictly before an earlier one.
pub open spec fn names_ordered(s: Seq<Seq<char>>) -> bool {
    forall|i: int, j: int| 0 <= i < j < s.len() ==> !name_before(#[trigger] s[j], #[trigger] s[i])
}

/// The names of `extra` that are not among `names`, in order.
pub open spec fn new_names(names: Seq<Seq<char>>, extra: Seq<Seq<char>>) -> Seq<Seq<char>>
    decreases extra.len(),
{
    if extra.len() == 0 {
        seq![]
    } else {
        let prev = new_names(names, extra.subrange(0, extra.len() - 1));
        let e = extra[extra.len() - 1];
        if names.contains(e) {
            prev
        } else {
            prev.push(e)
        }
    }
}

/// No byte string is before itself.
pub proof fn lemma_bytes_lt_irreflexive(a: Seq<u8>)
    ensures
        !bytes_lt(a, a),
    decreases a.len(),
{
    if a.len() > 0 {
        lemma_bytes_lt_irreflexive(a.subrange(1, a.len() as int));
    }
}

/// The byte order is transitive.
pub proof fn lemma_bytes_lt_transitive(a: Seq<u8>, b: Seq<u8>, c: Seq<u8>)
    requires
        bytes_lt(a, b),
        bytes_lt(b, c),
    ensures
        bytes_lt(a, c),
    decreases a.len(),
{
    if a.len() > 0 && b.len() > 0 && c.len() > 0 && a[0] == b[0] && b[0] == c[0] {
        lemma_bytes_lt_transitive(
            a.subrange(1, a.len() as int),
            b.subrange(1, b.len() as int),
            c.subrange(1, c.len() as int),
        );
    }
}

/// The name order is transitive.
pub proof fn lemma_name_before_transitive(a: Seq<char>, b: Seq<char>, c: Seq<char>)
    requires
        name_before(a, b),
        name_before(b, c),
    ensures
        name_before(a, c),
{
    if is_unique_name(a) == is_unique_name(b) && is_unique_name(b) == is_unique_name(c) {
        lemma_bytes_lt_transitive(
            vstd::utf8::encode_utf8(a),
            vstd::utf8::encode_utf8(b),
            vstd::utf8::encode_utf8(c),
        );
    }
}

/// No name is before itself.
pub proof fn lemma_name_before_irreflexive(a: Seq<char>)
    ensures
        !name_before(a, a),
{
    lemma_bytes_lt_irreflexive(vstd::utf8::encode_utf8(a));
}

/// Whether byte string `a` is strictly before `b`.
pub fn bytes_less(a: &[u8], b: &[u8]) -> (r: bool)
    ensures
        r == bytes_lt(a@, b@),
{
    let mut i: usize = 0;
    assert(a@.subrange(0, a@.len() as int) =~= a@);
    assert(b@.subrange(0, b@.len() as int) =~= b@);
    while i < a.len() && i < b.len()
        invariant
            i <= a@.len(),
            i <= b@.len(),
            bytes_lt(a@, b@) == bytes_lt(
                a@.subrange(i as int, a@.len() as int),
                b@.subrange(i as int, b@.len() as int),
            ),
        decreases a.len() - i,
    {
        let ghost sa = a@.subrange(i as int, a@.len() as int);
        let ghost sb = b@.subrange(i as int, b@.len() as int);
        assert(sa[0] == a@[i as int] && sb[0] == b@[i as int]);
        if a[i] < b[i] {
            return true;
        }
        if a[i] > b[i] {
            return false;
        }
        assert(sa.subrange(1, sa.len() as int) =~= a@.subrange(i + 1, a@.len() as int));
        assert(sb.subrange(1, sb.len() as int) =~= b@.subrange(i + 1, b@.len() as int));
        i = i + 1;
    }
    i == a.len() && i < b.len()
}

/// Whether name `a` comes strictly before name `b`.
pub fn bus_name_before(a: &str, b: &str) -> (r: bool)
    ensures
        r == name_before(a@, b@),
{
    let au = a.unicode_len() > 0 && a.get_char(0) == ':';
    let bu = b.unicode_len() > 0 && b.get_char(0) == ':';
    if au != bu {
        !au
    } else {
        bytes_less(a.as_bytes(), b.as_bytes())
    }
}

/// The names in order: well-known names first, then unique names, each group
/// in byte order; the same names as given, each as often.
pub fn order_bus_names(v: &Vec<String>) -> (r: Vec<String>)
    ensures
        string_views(r@).to_multiset() == string_views(v@).to_multiset(),
        names_ordered(string_views(r@)),
{
    broadcast use vstd::seq_lib::to_multiset_insert;

    let mut out: Vec<String> = Vec::new();
    let mut i: usize = 0;
    assert(string_views(v@).subrange(0, 0) =~= Seq::<Seq<char>>::empty());
    assert(string_views(out@) =~= Seq::<Seq<char>>::empty());
    while i < v.len()
        invariant
            i <= v@.len(),
            names_ordered(string_views(out@)),
            string_views(out@).to_multiset() == string_views(v@).subrange(0, i as int).to_multiset(),
        decreases v.len() - i,
    {
        let x = v[i].clone();
        let ghost o = string_views(out@);
        let mut p: usize = 0;
        while p < out.len() && !bus_name_before(x.as_str(), out[p].as_str())
            invariant
                p <= out@.len(),
                o == string_views(out@),
                forall|k: int| 0 <= k < p ==> !name_before(x@, #[trigger] o[k]),
            decreases out.len() - p,
        {
            p = p + 1;
        }
        proof {
            let t = o.insert(p as int, x@);
            assert forall|a: int, b: int| 0 <= a < b < t.len() implies !name_before(
                #[trigger] t[b],
                #[trigger] t[a],
            ) by {
                if a < p && b < p {
                    assert(t[a] == o[a] && t[b] == o[b]);
                } else if a < p && b == p {
                    assert(t[a] == o[a] && t[b] == x@);
                } else if a < p && b > p {
                    assert(t[a] == o[a] && t[b] == o[b - 1]);
                } else if a == p {
                    assert(t[a] == x@ && t[b] == o[b - 1]);
                    assert(p < o.len());
                    assert(name_before(x@, o[p as int]));
                    if name_before(o[b - 1], x@) {
                        lemma_name_before_transitive(o[b - 1], x@, o[p as int]);
                        if b - 1 == p {
                            lemma_name_before_irreflexive(o[p as int]);
                        }
                    }
                } else {
                    assert(t[a] == o[a - 1] && t[b] == o[b - 1]);
                }
            }
        }
        let ghost before = out@;
        out.insert(p, x);
        proof {
            assert(string_views(out@) =~= o.insert(p as int, x@));
            assert(string_views(v@).subrange(0, i + 1) =~= string_views(v@).subrange(
                0,
                i as int,
            ).push(x@));
            vstd::seq_lib::to_multiset_insert(o, p as int, x@);
            vstd::seq_lib::to_multiset_build(string_views(v@).subrange(0, i as int), x@);
        }
        i = i + 1;
    }
    assert(string_views(v@).subrange(0, v@.len() as int) =~= string_views(v@));
    out
}

/// The running names followed by the activatable names not among them.
pub fn merge_bus_names(names: &Vec<String>, activatable: &Vec<String>) -> (r: Vec<String>)
    ensures
        string_views(r@) == string_views(names@) + new_names(
            string_views(names@),
            string_views(activatable@),
        ),
{
    let ghost ns = string_views(names@);
    let ghost ex = string_views(activatable@);
    let mut out: Vec<String> = crate::events::clone_strings(names);
    let mut i: usize = 0;
    assert(ex.subrange(0, 0) =~= Seq::<Seq<char>>::empty());
    assert(ns + new_names(ns, ex.subrange(0, 0)) =~= ns);
    while i < activatable.len()
        invariant
            i <= activatable@.len(),
            ns == string_views(names@),
            ex == string_views(activatable@),
            string_views(out@) == ns + new_names(ns, ex.subrange(0, i as int)),
        decreases activatable.len() - i,
    {
        let a = &activatable[i];
        let mut found = false;
        let mut k: usize = 0;
        while k < names.len()
            invariant
                k <= names@.len(),
                ns == string_views(names@),
                found == exists|m: int| 0 <= m < k && ns[m] == a@,
            decreases names.len() - k,
        {
            assert(ns[k as int] == names@[k as int]@);
            if crate::text::str_eq(names[k].as_str(), a.as_str()) {
                found = true;
            }
            k = k + 1;
        }
        let ghost next = ex.subrange(0, i + 1);
        assert(next.subrange(0, next.len() - 1) =~= ex.subrange(0, i as int));
        assert(next[next.len() - 1] == a@);
        if !found {
            let ghost before = string_views(out@);
            out.push(a.clone());
            assert(string_views(out@) =~= before.push(a@));
            assert(!ns.contains(a@));
        } else {
            assert(ns.contains(a@));
        }
        i = i + 1;
    }
    assert(ex.subrange(0, activatable@.len() as int) =~= ex);
    out
}

/// The bus names to list: the running names, with the activatable names not
/// already among them when asked for, in order.
pub fn list_bus_names(names: &Vec<String>, activatable: Option<&Vec<String>>) -> (r: Vec<String>)
    ensures
        string_views(r@).to_multiset() == (match activatable {
            Some(a) => string_views(names@) + new_names(string_views(names@), string_views(a@)),
            None => string_views(names@),
        }).to_multiset(),
        names_ordered(string_views(r@)),
{
    match activatable {
        Some(a) => {
            let merged = merge_bus_names(names, a);
            order_bus_names(&merged)
        },
        None => order_bus_names(names),
    }
}

} // verus!
