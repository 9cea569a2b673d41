//! The typedefs of trait handles in the C header: one per trait, in name
//! order, each listing the C types that implement the trait.

use vstd::prelude::*;
use crate::text::{chars_of, join_spec, join_strings, push_str, strings_view};

verus! {

// ---------------------------------------------------------------------------
// Ordering of names
// ---------------------------------------------------------------------------

/// `a` sorts before `b`: lexicographic order by code point (which is the
/// byte order of their UTF-8 encodings, the order of `str`).
pub open spec fn str_lt(a: Seq<char>, b: Seq<char>) -> bool
    decreases a.len(),
{
    if b.len() == 0 {
        false
    } else if a.len() == 0 {
        true
    } else if a[0] != b[0] {
        a[0] < b[0]
    } else {
        str_lt(a.drop_first(), b.drop_first())
    }
}

/// No name sorts before itself.
pub proof fn lemma_str_lt_irreflexive(a: Seq<char>)
    ensures
        !str_lt(a, a),
    decreases a.len(),
{
    if a.len() > 0 {
        lemma_str_lt_irreflexive(a.drop_first());
    }
}

/// The order is transitive.
pub proof fn lemma_str_lt_transitive(a: Seq<char>, b: Seq<char>, c: Seq<char>)
    requires
        str_lt(a, b),
        str_lt(b, c),
    ensures
        str_lt(a, c),
    decreases a.len(),
{
    if a.len() > 0 && b.len() > 0 && c.len() > 0 && a[0] == b[0] && b[0] == c[0] {
        lemma_str_lt_transitive(a.drop_first(), b.drop_first(), c.drop_first());
    }
}

/// Of two different names, one sorts before the other.
pub proof fn lemma_str_lt_total(a: Seq<char>, b: Seq<char>)
    requires
        a != b,
    ensures
        str_lt(a, b) || str_lt(b, a),
    decreases a.len(),
{
    if a.len() > 0 && b.len() > 0 && a[0] == b[0] {
        if a.drop_first() == b.drop_first() {
            assert(a =~= seq![a[0]] + a.drop_first());
            assert(b =~= seq![b[0]] + b.drop_first());
        }
        lemma_str_lt_total(a.drop_first(), b.drop_first());
    } else if a.len() == 0 && b.len() == 0 {
        assert(a =~= b);
    }
}

/// The order is asymmetric.
pub proof fn lemma_str_lt_asymmetric(a: Seq<char>, b: Seq<char>)
    requires
        str_lt(a, b),
    ensures
        !str_lt(b, a),
{
    if str_lt(b, a) {
        lemma_str_lt_transitive(a, b, a);
        lemma_str_lt_irreflexive(a);
    }
}

/// Whether `a` sorts before `b`.
pub fn str_less(a: &[char], b: &[char]) -> (r: bool)
    ensures
        r == str_lt(a@, b@),
{
    let mut i: usize = 0;
    assert(a@.skip(0) =~= a@);
    assert(b@.skip(0) =~= b@);
    while i < a.len() && i < b.len() && a[i] == b[i]
        invariant
            i <= a@.len(),
            i <= b@.len(),
            str_lt(a@, b@) == str_lt(a@.skip(i as int), b@.skip(i as int)),
        decreases a@.len() - i,
    {
        assert(a@.skip(i as int).drop_first() =~= a@.skip(i + 1));
        assert(b@.skip(i as int).drop_first() =~= b@.skip(i + 1));
        i = i + 1;
    }
    if i == b.len() {
        false
    } else if i == a.len() {
        true
    } else {
        a[i] < b[i]
    }
}

// ---------------------------------------------------------------------------
// Groups of implementors
// ---------------------------------------------------------------------------

/// A C type that implements a trait: the trait's Rust and C names and the
/// implementor's C name.
pub struct TraitImplementor {
    pub trait_name: String,
    pub trait_c_name: String,
    pub implementor_c: String,
}

/// The implementors of trait `n`, in order.
pub open spec fn impls_of(es: Seq<TraitImplementor>, n: Seq<char>) -> Seq<Seq<char>>
    decreases es.len(),
{
    if es.len() == 0 {
        Seq::empty()
    } else if es.last().trait_name@ == n {
        impls_of(es.drop_last(), n).push(es.last().implementor_c@)
    } else {
        impls_of(es.drop_last(), n)
    }
}

/// The C name given to trait `n` by its first entry.
pub open spec fn first_c_name(es: Seq<TraitImplementor>, n: Seq<char>) -> Option<Seq<char>>
    decreases es.len(),
{
    if es.len() == 0 {
        None
    } else {
        match first_c_name(es.drop_last(), n) {
            Some(c) => Some(c),
            None => if es.last().trait_name@ == n {
                Some(es.last().trait_c_name@)
            } else {
                None
            },
        }
    }
}

/// Some entry is for trait `n`.
pub open spec fn has_trait(es: Seq<TraitImplementor>, n: Seq<char>) -> bool {
    exists|j: int| 0 <= j < es.len() && (#[trigger] es[j]).trait_name@ == n
}

/// `names` lists the traits of the entries, each once, in ascending order.
pub open spec fn sorted_traits(es: Seq<TraitImplementor>, names: Seq<Seq<char>>) -> bool {
    &&& forall|i: int, j: int| 0 <= i < j < names.len() ==> str_lt(#[trigger] names[i], #[trigger] names[j])
    &&& forall|i: int| 0 <= i < names.len() ==> has_trait(es, #[trigger] names[i])
    &&& forall|j: int| 0 <= j < es.len() ==> names.contains((#[trigger] es[j]).trait_name@)
}

/// The typedef of a trait handle, listing its implementors.
pub open spec fn typedef_line(c_name: Seq<char>, impls: Seq<Seq<char>>) -> Seq<char> {
    "typedef void* "@ + c_name + "; /* "@ + join_spec(impls, " | "@) + " */\n"@
}

/// The typedefs of the traits `names`, in order.
pub open spec fn typedefs_text(es: Seq<TraitImplementor>, names: Seq<Seq<char>>) -> Seq<char>
    decreases names.len(),
{
    if names.len() == 0 {
        Seq::empty()
    } else {
        typedefs_text(es, names.drop_last()) + typedef_line(
            first_c_name(es, names.last())->0,
            impls_of(es, names.last()),
        )
    }
}

/// Only one list of names is sorted and holds exactly the traits of the
/// entries: the typedefs are determined by the entries.
pub proof fn lemma_sorted_traits_unique(es: Seq<TraitImplementor>, n1: Seq<Seq<char>>, n2: Seq<Seq<char>>)
    requires
        sorted_traits(es, n1),
        sorted_traits(es, n2),
    ensures
        n1 == n2,
{
    assert forall|x: Seq<char>| n1.contains(x) <==> n2.contains(x) by {
        if n1.contains(x) {
            let i = choose|i: int| 0 <= i < n1.len() && n1[i] == x;
            assert(has_trait(es, n1[i]));
            let j = choose|j: int| 0 <= j < es.len() && (#[trigger] es[j]).trait_name@ == n1[i];
            assert(n2.contains(es[j].trait_name@));
        }
        if n2.contains(x) {
            let i = choose|i: int| 0 <= i < n2.len() && n2[i] == x;
            assert(has_trait(es, n2[i]));
            let j = choose|j: int| 0 <= j < es.len() && (#[trigger] es[j]).trait_name@ == n2[i];
            assert(n1.contains(es[j].trait_name@));
        }
    }
    lemma_sorted_same_elements(n1, n2);
}

/// Two strictly increasing lists with the same elements are equal.
pub(crate) proof fn lemma_sorted_same_elements(n1: Seq<Seq<char>>, n2: Seq<Seq<char>>)
    requires
        forall|i: int, j: int| 0 <= i < j < n1.len() ==> str_lt(#[trigger] n1[i], #[trigger] n1[j]),
        forall|i: int, j: int| 0 <= i < j < n2.len() ==> str_lt(#[trigger] n2[i], #[trigger] n2[j]),
        forall|x: Seq<char>| n1.contains(x) <==> n2.contains(x),
    ensures
        n1 == n2,
    decreases n1.len(),
{
    if n1.len() == 0 {
        if n2.len() > 0 {
            assert(n2.contains(n2[0]));
        }
        assert(n1 =~= n2);
    } else {
        assert(n1.contains(n1[0]));
        assert(n2.len() > 0);
        assert(n2.contains(n2[0]));
        let k = choose|k: int| 0 <= k < n2.len() && n2[k] == n1[0];
        let m = choose|m: int| 0 <= m < n1.len() && n1[m] == n2[0];
        if k > 0 && m > 0 {
            assert(str_lt(n2[0], n2[k]));
            assert(str_lt(n1[0], n1[m]));
            lemma_str_lt_asymmetric(n1[0], n1[m]);
        } else if k > 0 {
            assert(m == 0);
            assert(str_lt(n2[0], n2[k]));
            lemma_str_lt_irreflexive(n1[0]);
        } else if m > 0 {
            assert(k == 0);
            assert(str_lt(n1[0], n1[m]));
            lemma_str_lt_irreflexive(n1[0]);
        }
        assert(n1[0] == n2[0]);
        let t1 = n1.drop_first();
        let t2 = n2.drop_first();
        assert forall|x: Seq<char>| t1.contains(x) <==> t2.contains(x) by {
            if t1.contains(x) {
                let i = choose|i: int| 0 <= i < t1.len() && t1[i] == x;
                assert(n1[i + 1] == x);
                assert(str_lt(n1[0], n1[i + 1]));
                assert(n2.contains(x));
                let j = choose|j: int| 0 <= j < n2.len() && n2[j] == x;
                if j == 0 {
                    lemma_str_lt_irreflexive(x);
                }
                assert(t2[j - 1] == x);
            }
            if t2.contains(x) {
                let i = choose|i: int| 0 <= i < t2.len() && t2[i] == x;
                assert(n2[i + 1] == x);
                assert(str_lt(n2[0], n2[i + 1]));
                assert(n1.contains(x));
                let j = choose|j: int| 0 <= j < n1.len() && n1[j] == x;
                if j == 0 {
                    lemma_str_lt_irreflexive(x);
                }
                assert(t1[j - 1] == x);
            }
        }
        assert forall|i: int, j: int| 0 <= i < j < t1.len() implies str_lt(#[trigger] t1[i], #[trigger] t1[j]) by {
            assert(t1[i] == n1[i + 1] && t1[j] == n1[j + 1]);
        }
        assert forall|i: int, j: int| 0 <= i < j < t2.len() implies str_lt(#[trigger] t2[i], #[trigger] t2[j]) by {
            assert(t2[i] == n2[i + 1] && t2[j] == n2[j + 1]);
        }
        lemma_sorted_same_elements(t1, t2);
        assert(n1 =~= n2) by {
            assert forall|i: int| 0 <= i < n1.len() implies n1[i] == n2[i] by {
                if i > 0 {
                    assert(t1[i - 1] == t2[i - 1]);
                }
            }
        }
    }
}

// ---------------------------------------------------------------------------
// Grouping
// ---------------------------------------------------------------------------

proof fn lemma_step(es: Seq<TraitImplementor>, k: int, n: Seq<char>)
    requires
        0 <= k < es.len(),
    ensures
        impls_of(es.take(k + 1), n) == if es[k].trait_name@ == n {
            impls_of(es.take(k), n).push(es[k].implementor_c@)
        } else {
            impls_of(es.take(k), n)
        },
        first_c_name(es.take(k + 1), n) == match first_c_name(es.take(k), n) {
            Some(c) => Some(c),
            None => if es[k].trait_name@ == n {
                Some(es[k].trait_c_name@)
            } else {
                None
            },
        },
        has_trait(es.take(k + 1), n) <==> (has_trait(es.take(k), n) || es[k].trait_name@ == n),
{
    let a = es.take(k + 1);
    let b = es.take(k);
    assert(a.drop_last() =~= b);
    assert(a.last() == es[k]);
    if has_trait(a, n) {
        let j = choose|j: int| 0 <= j < a.len() && (#[trigger] a[j]).trait_name@ == n;
        if j < k {
            assert(b[j] == a[j]);
        }
    }
    if has_trait(b, n) {
        let j = choose|j: int| 0 <= j < b.len() && (#[trigger] b[j]).trait_name@ == n;
        assert(a[j] == b[j]);
    }
    if es[k].trait_name@ == n {
        assert(a[k].trait_name@ == n);
    }
}

proof fn lemma_absent(es: Seq<TraitImplementor>, n: Seq<char>)
    requires
        !has_trait(es, n),
    ensures
        impls_of(es, n) == Seq::<Seq<char>>::empty(),
        first_c_name(es, n) is None,
    decreases es.len(),
{
    if es.len() > 0 {
        assert(!has_trait(es.drop_last(), n)) by {
            if has_trait(es.drop_last(), n) {
                let j = choose|j: int| 0 <= j < es.drop_last().len() && (#[trigger] es.drop_last()[j]).trait_name@ == n;
                assert(es[j] == es.drop_last()[j]);
            }
        }
        assert(es.last().trait_name@ != n) by {
            if es.last().trait_name@ == n {
                assert(es[es.len() - 1].trait_name@ == n);
            }
        }
        lemma_absent(es.drop_last(), n);
    }
}

/// The typedef of one trait handle: the trait, its C name and its
/// implementors.
pub struct TraitTypedef {
    pub name: String,
    pub c_name: String,
    pub implementors: Vec<String>,
}

/// The names of a list of typedefs.
pub open spec fn typedef_names(gs: Seq<TraitTypedef>) -> Seq<Seq<char>> {
    gs.map_values(|g: TraitTypedef| g.name@)
}

/// The typedefs of the traits of the entries: one per trait, in name
/// order, with the C name given by the trait's first entry and the
/// implementors of all its entries in order.
pub open spec fn typedefs_ok(es: Seq<TraitImplementor>, gs: Seq<TraitTypedef>) -> bool {
    &&& sorted_traits(es, typedef_names(gs))
    &&& forall|i: int|
        0 <= i < gs.len() ==> first_c_name(es, (#[trigger] gs[i]).name@) == Some(gs[i].c_name@)
            && strings_view(gs[i].implementors@) == impls_of(es, gs[i].name@)
}

fn copy_list(v: &Vec<String>) -> (r: Vec<String>)
    ensures
        strings_view(r@) == strings_view(v@),
{
    let mut out: Vec<String> = Vec::new();
    let mut i: usize = 0;
    while i < v.len()
        invariant
            i <= v@.len(),
            strings_view(out@) == strings_view(v@).take(i as int),
        decreases v@.len() - i,
    {
        let ghost before = strings_view(out@);
        let x = v[i].clone();
        out.push(x);
        assert(strings_view(out@) =~= before.push(x@));
        i = i + 1;
        assert(strings_view(out@) =~= strings_view(v@).take(i as int));
    }
    assert(strings_view(v@).take(v@.len() as int) =~= strings_view(v@));
    out
}

/// The number of names that sort before `n` in a sorted list.
pub(crate) fn position_of(names: &Vec<String>, n: &[char]) -> (p: usize)
    ensures
        p <= names@.len(),
        forall|j: int| 0 <= j < p ==> str_lt(#[trigger] strings_view(names@)[j], n@),
        p < names@.len() ==> !str_lt(strings_view(names@)[p as int], n@),
{
    let mut p: usize = 0;
    while p < names.len()
        invariant
            p <= names@.len(),
            forall|j: int| 0 <= j < p ==> str_lt(#[trigger] strings_view(names@)[j], n@),
        decreases names@.len() - p,
    {
        let pc = chars_of(names[p].as_str());
        if !str_less(pc.as_slice(), n) {
            return p;
        }
        p = p + 1;
    }
    p
}

/// Groups the implementors by trait, in trait name order.
#[verifier::loop_isolation(false)]
#[verifier::rlimit(50)]
pub fn trait_typedefs(implementors: &[TraitImplementor]) -> (r: Vec<TraitTypedef>)
    ensures
        typedefs_ok(implementors@, r@),
{
    let ghost es = implementors@;
    let mut names: Vec<String> = Vec::new();
    let mut cs: Vec<String> = Vec::new();
    let mut lists: Vec<Vec<String>> = Vec::new();
    let mut k: usize = 0;
    assert(es.take(0) =~= Seq::<TraitImplementor>::empty());
    while k < implementors.len()
        invariant
            k <= es.len(),
            es == implementors@,
            names@.len() == cs@.len(),
            names@.len() == lists@.len(),
            sorted_traits(es.take(k as int), strings_view(names@)),
            forall|i: int|
                0 <= i < names@.len() ==> first_c_name(es.take(k as int), (#[trigger] names@[i])@) == Some(cs@[i]@)
                    && strings_view(lists@[i]@) == impls_of(es.take(k as int), names@[i]@),
        decreases es.len() - k,
    {
        let e = &implementors[k];
        let ghost n = e.trait_name@;
        let ghost nv = strings_view(names@);
        let ghost ek = es.take(k as int);
        let ghost ek1 = es.take(k + 1);
        let nchars = chars_of(e.trait_name.as_str());
        let p = position_of(&names, nchars.as_slice());
        assert forall|x: Seq<char>| #[trigger] has_trait(ek1, x) <==> (has_trait(ek, x) || x == n) by {
            lemma_step(es, k as int, x);
        }
        if p < names.len() && crate::text::str_eq(names[p].as_str(), e.trait_name.as_str()) {
            // A known trait: one more implementor.
            let mut l = copy_list(&lists[p]);
            let ghost lv = strings_view(l@);
            l.push(e.implementor_c.clone());
            assert(strings_view(l@) =~= lv.push(e.implementor_c@));
            let ghost old_lists = lists@;
            lists.set(p, l);
            assert forall|i: int| 0 <= i < names@.len() implies first_c_name(ek1, (#[trigger] names@[i])@) == Some(
                cs@[i]@,
            ) && strings_view(lists@[i]@) == impls_of(ek1, names@[i]@) by {
                lemma_step(es, k as int, names@[i]@);
                if i != p {
                    assert(nv[i] == names@[i]@);
                    if i < p {
                        assert(str_lt(nv[i], n));
                        lemma_str_lt_irreflexive(n);
                    } else {
                        assert(str_lt(nv[p as int], nv[i]));
                        lemma_str_lt_irreflexive(n);
                    }
                    assert(lists@[i] == old_lists[i]);
                }
            }
            assert forall|j: int| 0 <= j < ek1.len() implies nv.contains((#[trigger] ek1[j]).trait_name@) by {
                if j < k {
                    assert(ek[j] == ek1[j]);
                } else {
                    assert(ek1[j] == es[k as int]);
                    assert(nv[p as int] == n);
                }
            }
        } else {
            // A new trait: a group inserted at its place.
            proof {
                if p < names@.len() {
                    assert(nv[p as int] != n);
                    lemma_str_lt_total(nv[p as int], n);
                }
                assert forall|j: int| p <= j < nv.len() implies str_lt(n, #[trigger] nv[j]) by {
                    if j > p {
                        lemma_str_lt_transitive(n, nv[p as int], nv[j]);
                    }
                }
                assert(!nv.contains(n)) by {
                    if nv.contains(n) {
                        let j = choose|j: int| 0 <= j < nv.len() && nv[j] == n;
                        lemma_str_lt_irreflexive(n);
                    }
                }
                assert(!has_trait(ek, n)) by {
                    if has_trait(ek, n) {
                        let j = choose|j: int| 0 <= j < ek.len() && (#[trigger] ek[j]).trait_name@ == n;
                        assert(nv.contains(ek[j].trait_name@));
                    }
                }
                lemma_absent(ek, n);
                lemma_step(es, k as int, n);
            }
            let mut l: Vec<String> = Vec::new();
            l.push(e.implementor_c.clone());
            let ghost old_names = names@;
            let ghost old_cs = cs@;
            let ghost old_lists = lists@;
            names.insert(p, e.trait_name.clone());
            cs.insert(p, e.trait_c_name.clone());
            lists.insert(p, l);
            let ghost nv2 = strings_view(names@);
            assert(nv2 =~= nv.insert(p as int, n));
            assert forall|i: int, j: int| 0 <= i < j < nv2.len() implies str_lt(#[trigger] nv2[i], #[trigger] nv2[j]) by {
                if j < p {
                    assert(nv2[i] == nv[i] && nv2[j] == nv[j]);
                } else if j == p {
                    assert(nv2[i] == nv[i]);
                } else if i < p {
                    assert(nv2[i] == nv[i] && nv2[j] == nv[j - 1]);
                    assert(str_lt(nv[i], n));
                    assert(str_lt(n, nv[j - 1]));
                    lemma_str_lt_transitive(nv[i], n, nv[j - 1]);
                } else if i == p {
                    assert(nv2[j] == nv[j - 1]);
                } else {
                    assert(nv2[i] == nv[i - 1] && nv2[j] == nv[j - 1]);
                }
            }
            assert forall|i: int| 0 <= i < nv2.len() implies has_trait(ek1, #[trigger] nv2[i]) by {
                if i < p {
                    assert(nv2[i] == nv[i]);
                    assert(has_trait(ek, nv[i]));
                } else if i > p {
                    assert(nv2[i] == nv[i - 1]);
                    assert(has_trait(ek, nv[i - 1]));
                }
            }
            assert forall|j: int| 0 <= j < ek1.len() implies nv2.contains((#[trigger] ek1[j]).trait_name@) by {
                if j < k {
                    assert(ek[j] == ek1[j]);
                    assert(nv.contains(ek[j].trait_name@));
                    let m = choose|m: int| 0 <= m < nv.len() && nv[m] == ek[j].trait_name@;
                    if m < p {
                        assert(nv2[m] == nv[m]);
                    } else {
                        assert(nv2[m + 1] == nv[m]);
                    }
                } else {
                    assert(ek1[j] == es[k as int]);
                    assert(nv2[p as int] == n);
                }
            }
            assert forall|i: int| 0 <= i < names@.len() implies first_c_name(ek1, (#[trigger] names@[i])@) == Some(
                cs@[i]@,
            ) && strings_view(lists@[i]@) == impls_of(ek1, names@[i]@) by {
                lemma_step(es, k as int, names@[i]@);
                if i < p {
                    assert(names@[i] == old_names[i] && cs@[i] == old_cs[i] && lists@[i] == old_lists[i]);
                    assert(str_lt(nv[i], n));
                    lemma_str_lt_irreflexive(n);
                } else if i > p {
                    assert(names@[i] == old_names[i - 1] && cs@[i] == old_cs[i - 1] && lists@[i] == old_lists[i - 1]);
                    assert(str_lt(n, nv[i - 1]));
                    lemma_str_lt_irreflexive(n);
                } else {
                    assert(strings_view(lists@[i]@) =~= Seq::<Seq<char>>::empty().push(e.implementor_c@));
                }
            }
        }
        k = k + 1;
    }
    assert(es.take(es.len() as int) =~= es);
    let mut out: Vec<TraitTypedef> = Vec::new();
    let mut i: usize = 0;
    while i < names.len()
        invariant
            i <= names@.len(),
            names@.len() == cs@.len(),
            names@.len() == lists@.len(),
            out@.len() == i,
            forall|j: int|
                0 <= j < i ==> (#[trigger] out@[j]).name@ == names@[j]@ && out@[j].c_name@ == cs@[j]@ && strings_view(
                    out@[j].implementors@,
                ) == strings_view(lists@[j]@),
        decreases names@.len() - i,
    {
        out.push(TraitTypedef { name: names[i].clone(), c_name: cs[i].clone(), implementors: copy_list(&lists[i]) });
        i = i + 1;
    }
    assert(typedef_names(out@) =~= strings_view(names@));
    out
}

/// The typedef lines of a list of typedefs.
pub open spec fn typedef_lines_text(gs: Seq<TraitTypedef>) -> Seq<char>
    decreases gs.len(),
{
    if gs.len() == 0 {
        Seq::empty()
    } else {
        typedef_lines_text(gs.drop_last()) + typedef_line(
            gs.last().c_name@,
            strings_view(gs.last().implementors@),
        )
    }
}

/// Each typedef has the C name and implementors the entries give its trait.
pub open spec fn groups_match(es: Seq<TraitImplementor>, gs: Seq<TraitTypedef>) -> bool {
    forall|i: int|
        0 <= i < gs.len() ==> first_c_name(es, (#[trigger] gs[i]).name@) == Some(gs[i].c_name@) && strings_view(
            gs[i].implementors@,
        ) == impls_of(es, gs[i].name@)
}

/// The typedef lines are the typedefs of the entries' traits in order.
pub proof fn lemma_typedef_lines(es: Seq<TraitImplementor>, gs: Seq<TraitTypedef>)
    requires
        groups_match(es, gs),
    ensures
        typedef_lines_text(gs) == typedefs_text(es, typedef_names(gs)),
    decreases gs.len(),
{
    if gs.len() > 0 {
        let d = gs.drop_last();
        assert(typedef_names(d) =~= typedef_names(gs).drop_last());
        assert(groups_match(es, d)) by {
            assert forall|i: int| 0 <= i < d.len() implies first_c_name(es, (#[trigger] d[i]).name@) == Some(d[i].c_name@)
                && strings_view(d[i].implementors@) == impls_of(es, d[i].name@) by {
                assert(d[i] == gs[i]);
            }
        }
        lemma_typedef_lines(es, d);
        assert(typedef_names(gs).last() == gs.last().name@);
        let i = gs.len() - 1;
        assert(first_c_name(es, gs[i].name@) == Some(gs[i].c_name@));
    }
}

/// Appends the typedefs of the trait handles: one per trait, in name order,
/// each listing its implementors.
pub fn emit_trait_typedefs(out: &mut String, implementors: &[TraitImplementor])
    ensures
        exists|names: Seq<Seq<char>>|
            sorted_traits(implementors@, names) && final(out)@ == old(out)@ + typedefs_text(implementors@, names),
{
    let gs = trait_typedefs(implementors);
    let ghost o0 = out@;
    let mut i: usize = 0;
    assert(gs@.take(0) =~= Seq::<TraitTypedef>::empty());
    while i < gs.len()
        invariant
            i <= gs@.len(),
            out@ == o0 + typedef_lines_text(gs@.take(i as int)),
        decreases gs@.len() - i,
    {
        let g = &gs[i];
        let list = join_strings(g.implementors.as_slice(), " | ");
        push_str(out, "typedef void* ");
        push_str(out, g.c_name.as_str());
        push_str(out, "; /* ");
        push_str(out, list.as_str());
        push_str(out, " */\n");
        i = i + 1;
        assert(gs@.take(i as int).drop_last() =~= gs@.take(i - 1));
        assert(gs@.take(i as int).last() == gs@[i - 1]);
        assert(out@ =~= o0 + typedef_lines_text(gs@.take(i as int)));
    }
    assert(gs@.take(gs@.len() as int) =~= gs@);
    proof {
        lemma_typedef_lines(implementors@, gs@);
    }
}

} // verus!
