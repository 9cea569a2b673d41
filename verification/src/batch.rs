//! The batch of metadata items that the bridge is generated from: the order
//! in which the items are handled, and the check of the type tags that
//! handles carry (each type needs one, and no two types may share one),
//! with the table from tag to type name that dispatch errors print.

use vstd::prelude::*;
use crate::text::{decimal, owned, push_decimal, push_str, str_eq};

verus! {

// ---------------------------------------------------------------------------
// Order of the items
// ---------------------------------------------------------------------------

/// The category of a metadata tag: errors first, then exported types,
/// implementable traits, trait impls, enum constants, bitflags constants and
/// free functions.
pub open spec fn category(t: Seq<char>) -> Option<int> {
    if t == "error"@ {
        Some(0)
    } else if t == "exportable"@ {
        Some(1)
    } else if t == "implementable"@ {
        Some(2)
    } else if t == "trait_impl"@ {
        Some(3)
    } else if t == "enum_constants"@ {
        Some(4)
    } else if t == "bitflags_constants"@ {
        Some(5)
    } else if t == "free_fn"@ {
        Some(6)
    } else {
        None
    }
}

/// The views of a list of strings.
pub open spec fn tags_view(tags: Seq<String>) -> Seq<Seq<char>> {
    tags.map_values(|t: String| t@)
}

/// The first tag that is not a known category.
pub open spec fn first_unknown(tags: Seq<Seq<char>>) -> Option<int>
    decreases tags.len(),
{
    if tags.len() == 0 {
        None
    } else {
        match first_unknown(tags.drop_last()) {
            Some(i) => Some(i),
            None => if category(tags.last()) is None {
                Some(tags.len() - 1)
            } else {
                None
            },
        }
    }
}

/// The positions of the items of category `c`, in order.
pub open spec fn positions_in(tags: Seq<Seq<char>>, c: int) -> Seq<usize>
    decreases tags.len(),
{
    if tags.len() == 0 {
        Seq::empty()
    } else if category(tags.last()) == Some(c) {
        positions_in(tags.drop_last(), c).push((tags.len() - 1) as usize)
    } else {
        positions_in(tags.drop_last(), c)
    }
}

/// The block of category `c` in the order of a batch holds exactly the
/// positions of the items of that category, each once, in batch order; so
/// the order (the blocks one after the other) handles every item of a known
/// category once, grouped by category.
pub proof fn lemma_category_block(tags: Seq<Seq<char>>, c: int)
    requires
        tags.len() <= usize::MAX,
    ensures
        forall|k: int| 0 <= k < positions_in(tags, c).len() ==> (#[trigger] positions_in(tags, c)[k]) < tags.len() && category(
            tags[positions_in(tags, c)[k] as int],
        ) == Some(c),
        forall|a: int, b: int|
            0 <= a < b < positions_in(tags, c).len() ==> (#[trigger] positions_in(tags, c)[a]) < (#[trigger] positions_in(tags, c)[b]),
        forall|i: int| 0 <= i < tags.len() && category(#[trigger] tags[i]) == Some(c) ==> positions_in(tags, c).contains(i as usize),
    decreases tags.len(),
{
    if tags.len() > 0 {
        let d = tags.drop_last();
        let n = (tags.len() - 1) as usize;
        lemma_category_block(d, c);
        let pd = positions_in(d, c);
        let p = positions_in(tags, c);
        if category(tags.last()) == Some(c) {
            assert(p == pd.push(n));
            assert forall|k: int| 0 <= k < p.len() implies (#[trigger] p[k]) < tags.len() && category(tags[p[k] as int]) == Some(c) by {
                if k < pd.len() {
                    assert(p[k] == pd[k]);
                    assert(tags[pd[k] as int] == d[pd[k] as int]);
                }
            }
            assert forall|a: int, b: int| 0 <= a < b < p.len() implies (#[trigger] p[a]) < (#[trigger] p[b]) by {
                assert(p[a] == pd[a]);
                if b < pd.len() {
                    assert(p[b] == pd[b]);
                } else {
                    assert(pd[a] < d.len());
                }
            }
            assert forall|i: int| 0 <= i < tags.len() && category(#[trigger] tags[i]) == Some(c) implies p.contains(i as usize) by {
                if i < tags.len() - 1 {
                    assert(d[i] == tags[i]);
                    let k = choose|k: int| 0 <= k < pd.len() && pd[k] == i as usize;
                    assert(p[k] == pd[k]);
                } else {
                    assert(p[pd.len() as int] == i as usize);
                }
            }
        } else {
            assert(p == pd);
            assert forall|k: int| 0 <= k < p.len() implies (#[trigger] p[k]) < tags.len() && category(tags[p[k] as int]) == Some(c) by {
                assert(tags[pd[k] as int] == d[pd[k] as int]);
            }
            assert forall|i: int| 0 <= i < tags.len() && category(#[trigger] tags[i]) == Some(c) implies p.contains(i as usize) by {
                assert(i < tags.len() - 1);
                assert(d[i] == tags[i]);
            }
        }
    }
}

/// The message for an unknown tag.
pub open spec fn unknown_tag_message(t: Seq<char>) -> Seq<char> {
    "unknown metadata tag `@"@ + t + "` in batch"@
}

fn category_of(t: &str) -> (r: Option<u8>)
    ensures
        match category(t@) {
            Some(c) => r == Some(c as u8),
            None => r is None,
        },
{
    if str_eq(t, "error") {
        Some(0)
    } else if str_eq(t, "exportable") {
        Some(1)
    } else if str_eq(t, "implementable") {
        Some(2)
    } else if str_eq(t, "trait_impl") {
        Some(3)
    } else if str_eq(t, "enum_constants") {
        Some(4)
    } else if str_eq(t, "bitflags_constants") {
        Some(5)
    } else if str_eq(t, "free_fn") {
        Some(6)
    } else {
        None
    }
}

fn push_positions(out: &mut Vec<usize>, tags: &[String], c: u8)
    requires
        c < 7,
    ensures
        final(out)@ == old(out)@ + positions_in(tags_view(tags@), c as int),
{
    let ghost o0 = out@;
    let ghost tv = tags_view(tags@);
    let mut i: usize = 0;
    assert(tv.take(0) =~= Seq::<Seq<char>>::empty());
    assert(o0 + positions_in(tv.take(0), c as int) =~= o0);
    while i < tags.len()
        invariant
            i <= tags@.len(),
            tv == tags_view(tags@),
            c < 7,
            out@ == o0 + positions_in(tv.take(i as int), c as int),
        decreases tags@.len() - i,
    {
        assert(tv.take(i + 1).drop_last() =~= tv.take(i as int));
        assert(tv.take(i + 1).last() == tags@[i as int]@);
        let k = category_of(tags[i].as_str());
        if k == Some(c) {
            out.push(i);
        }
        i = i + 1;
        assert(out@ =~= o0 + positions_in(tv.take(i as int), c as int));
    }
    assert(tv.take(tags@.len() as int) =~= tv);
}

/// The order in which the bridge handles the items of a batch, given their
/// metadata tags: the positions of the errors, then of the exported types,
/// the implementable traits, the trait impls, the enum constants, the
/// bitflags constants and the free functions, each in batch order; or the
/// message for the first tag of no known category.
pub fn batch_order(tags: &[String]) -> (r: Result<Vec<usize>, String>)
    ensures
        match first_unknown(tags_view(tags@)) {
            Some(i) => r matches Err(msg) && msg@ == unknown_tag_message(tags@[i]@),
            None => r matches Ok(order) && order@ == positions_in(tags_view(tags@), 0) + positions_in(tags_view(tags@), 1)
                + positions_in(tags_view(tags@), 2) + positions_in(tags_view(tags@), 3) + positions_in(tags_view(tags@), 4)
                + positions_in(tags_view(tags@), 5) + positions_in(tags_view(tags@), 6),
        },
{
    let ghost tv = tags_view(tags@);
    let mut i: usize = 0;
    assert(tv.take(0) =~= Seq::<Seq<char>>::empty());
    while i < tags.len()
        invariant
            i <= tags@.len(),
            tv == tags_view(tags@),
            first_unknown(tv.take(i as int)) is None,
        decreases tags@.len() - i,
    {
        assert(tv.take(i + 1).drop_last() =~= tv.take(i as int));
        assert(tv.take(i + 1).last() == tags@[i as int]@);
        if category_of(tags[i].as_str()).is_none() {
            proof {
                lemma_unknown_stays(tv, i + 1);
            }
            let mut msg = owned("unknown metadata tag `@");
            push_str(&mut msg, tags[i].as_str());
            push_str(&mut msg, "` in batch");
            return Err(msg);
        }
        i = i + 1;
    }
    assert(tv.take(tags@.len() as int) =~= tv);
    let mut order: Vec<usize> = Vec::new();
    push_positions(&mut order, tags, 0);
    push_positions(&mut order, tags, 1);
    push_positions(&mut order, tags, 2);
    push_positions(&mut order, tags, 3);
    push_positions(&mut order, tags, 4);
    push_positions(&mut order, tags, 5);
    push_positions(&mut order, tags, 6);
    assert(order@ =~= positions_in(tv, 0) + positions_in(tv, 1) + positions_in(tv, 2) + positions_in(tv, 3) + positions_in(tv, 4)
        + positions_in(tv, 5) + positions_in(tv, 6));
    Ok(order)
}

proof fn lemma_unknown_stays(tags: Seq<Seq<char>>, n: int)
    requires
        0 <= n <= tags.len(),
        first_unknown(tags.take(n)) is Some,
    ensures
        first_unknown(tags) == first_unknown(tags.take(n)),
    decreases tags.len() - n,
{
    if n < tags.len() {
        assert(tags.take(n + 1).drop_last() =~= tags.take(n));
        lemma_unknown_stays(tags, n + 1);
    } else {
        assert(tags.take(n) =~= tags);
    }
}

// ---------------------------------------------------------------------------
// Type tags
// ---------------------------------------------------------------------------

/// A type with its type tag (0 when `library_definition!` gave it none).
pub struct TaggedType {
    pub name: String,
    pub type_tag: u32,
}

/// A type to check: the name that messages use, the entry to suggest when
/// the tag is missing, and the tag.
pub struct TagEntry {
    pub name: String,
    pub hint: String,
    pub type_tag: u32,
}

/// A type to check, as plain values.
pub struct TagEntryView {
    pub name: Seq<char>,
    pub hint: Seq<char>,
    pub tag: u32,
}

/// The view of a type to check.
pub open spec fn entry_view(e: TagEntry) -> TagEntryView {
    TagEntryView { name: e.name@, hint: e.hint@, tag: e.type_tag }
}

/// The views of the types to check.
pub open spec fn entries_view(es: Seq<TagEntry>) -> Seq<TagEntryView> {
    es.map_values(|e: TagEntry| entry_view(e))
}

/// An error or exported type: named as itself, suggested as `Name = N`.
pub open spec fn type_entry(t: TaggedType) -> TagEntryView {
    TagEntryView { name: t.name@, hint: t.name@ + " = N"@, tag: t.type_tag }
}

/// An implementable trait: its handles are `Vtable<Trait>`, suggested as
/// `trait Trait = N`.
pub open spec fn vtable_entry(t: TaggedType) -> TagEntryView {
    TagEntryView { name: "Vtable"@ + t.name@, hint: "trait "@ + t.name@ + " = N"@, tag: t.type_tag }
}

/// The types to check, in order: errors, exported types, then the vtable
/// wrappers of implementable traits.
pub open spec fn tag_entries_spec(errors: Seq<TaggedType>, exportables: Seq<TaggedType>, implementables: Seq<TaggedType>) -> Seq<
    TagEntryView,
> {
    errors.map_values(|t: TaggedType| type_entry(t)) + exportables.map_values(|t: TaggedType| type_entry(t))
        + implementables.map_values(|t: TaggedType| vtable_entry(t))
}

/// Why the type tags are refused.
pub enum TagError {
    /// A type has no tag.
    Missing { name: String, hint: String },
    /// Two types share a tag.
    Duplicate { tag: u32, first: String, second: String },
}

/// The refusal as plain values.
pub enum TagErrorView {
    Missing { name: Seq<char>, hint: Seq<char> },
    Duplicate { tag: u32, first: Seq<char>, second: Seq<char> },
}

/// The view of a refusal.
pub open spec fn tag_error_view(e: TagError) -> TagErrorView {
    match e {
        TagError::Missing { name, hint } => TagErrorView::Missing { name: name@, hint: hint@ },
        TagError::Duplicate { tag, first, second } => TagErrorView::Duplicate { tag, first: first@, second: second@ },
    }
}

/// The position of the last type with tag `t`.
pub open spec fn tag_owner(es: Seq<TagEntryView>, t: u32) -> Option<int>
    decreases es.len(),
{
    if es.len() == 0 {
        None
    } else if es.last().tag == t {
        Some(es.len() - 1)
    } else {
        tag_owner(es.drop_last(), t)
    }
}

/// The first problem with the tags, in order: a type without a tag, or a
/// type whose tag an earlier type has.
pub open spec fn tag_check(es: Seq<TagEntryView>) -> Option<TagErrorView>
    decreases es.len(),
{
    if es.len() == 0 {
        None
    } else {
        match tag_check(es.drop_last()) {
            Some(e) => Some(e),
            None => {
                let x = es.last();
                if x.tag == 0 {
                    Some(TagErrorView::Missing { name: x.name, hint: x.hint })
                } else {
                    match tag_owner(es.drop_last(), x.tag) {
                        Some(j) => Some(TagErrorView::Duplicate { tag: x.tag, first: es[j].name, second: x.name }),
                        None => None,
                    }
                }
            },
        }
    }
}

/// The view of a tag table.
pub open spec fn table_view(t: Seq<(u32, String)>) -> Seq<(u32, Seq<char>)> {
    t.map_values(|p: (u32, String)| (p.0, p.1@))
}

/// The tags of the table strictly increase.
pub open spec fn tags_increase(t: Seq<(u32, Seq<char>)>) -> bool {
    forall|i: int, j: int| 0 <= i < j < t.len() ==> (#[trigger] t[i]).0 < (#[trigger] t[j]).0
}

/// The table of `es`: every type's tag and name, sorted by tag.
pub open spec fn table_of(es: Seq<TagEntryView>, t: Seq<(u32, Seq<char>)>) -> bool {
    &&& t.len() == es.len()
    &&& tags_increase(t)
    &&& forall|k: int| 0 <= k < es.len() ==> t.contains(((#[trigger] es[k]).tag, es[k].name))
    &&& forall|p: int| 0 <= p < t.len() ==> entry_has(es, (#[trigger] t[p]).0, t[p].1)
}

/// Some type of `es` has tag `tag` and name `name`.
pub open spec fn entry_has(es: Seq<TagEntryView>, tag: u32, name: Seq<char>) -> bool {
    exists|k: int| 0 <= k < es.len() && (#[trigger] es[k]).tag == tag && es[k].name == name
}

/// In a batch whose tags are accepted, every type has a tag, and no two
/// types share one.
pub proof fn lemma_check_ok_tags(es: Seq<TagEntryView>)
    requires
        tag_check(es) is None,
    ensures
        forall|k: int| 0 <= k < es.len() ==> (#[trigger] es[k]).tag != 0,
        forall|i: int, j: int| 0 <= i < j < es.len() ==> (#[trigger] es[i]).tag != (#[trigger] es[j]).tag,
    decreases es.len(),
{
    if es.len() > 0 {
        let d = es.drop_last();
        lemma_check_ok_tags(d);
        lemma_tag_owner(d, es.last().tag);
        assert forall|k: int| 0 <= k < es.len() implies (#[trigger] es[k]).tag != 0 by {
            if k < d.len() {
                assert(d[k] == es[k]);
            }
        }
        assert forall|i: int, j: int| 0 <= i < j < es.len() implies (#[trigger] es[i]).tag != (#[trigger] es[j]).tag by {
            assert(d[i] == es[i]);
            if j < d.len() {
                assert(d[j] == es[j]);
            }
        }
    }
}

proof fn lemma_tag_owner(es: Seq<TagEntryView>, t: u32)
    ensures
        tag_owner(es, t) matches Some(j) ==> 0 <= j < es.len() && es[j].tag == t,
        tag_owner(es, t) is None ==> forall|k: int| 0 <= k < es.len() ==> (#[trigger] es[k]).tag != t,
    decreases es.len(),
{
    if es.len() > 0 {
        let d = es.drop_last();
        lemma_tag_owner(d, t);
        if tag_owner(es, t) is None {
            assert forall|k: int| 0 <= k < es.len() implies (#[trigger] es[k]).tag != t by {
                if k < d.len() {
                    assert(d[k] == es[k]);
                }
            }
        }
    }
}

proof fn lemma_check_stays(es: Seq<TagEntryView>, n: int)
    requires
        0 <= n <= es.len(),
        tag_check(es.take(n)) is Some,
    ensures
        tag_check(es) == tag_check(es.take(n)),
    decreases es.len() - n,
{
    if n < es.len() {
        assert(es.take(n + 1).drop_last() =~= es.take(n));
        lemma_check_stays(es, n + 1);
    } else {
        assert(es.take(n) =~= es);
    }
}

/// The position in the table of tag `t`, or where it would go.
fn table_position(table: &Vec<(u32, String)>, t: u32) -> (p: usize)
    requires
        tags_increase(table_view(table@)),
    ensures
        p <= table@.len(),
        forall|i: int| 0 <= i < p ==> (#[trigger] table@[i]).0 < t,
        p < table@.len() ==> table@[p as int].0 >= t,
{
    let mut p: usize = 0;
    while p < table.len() && table[p].0 < t
        invariant
            p <= table@.len(),
            tags_increase(table_view(table@)),
            forall|i: int| 0 <= i < p ==> (#[trigger] table@[i]).0 < t,
        decreases table@.len() - p,
    {
        p = p + 1;
    }
    p
}

proof fn lemma_table_found(pre: Seq<TagEntryView>, tv: Seq<(u32, Seq<char>)>, p: int)
    requires
        table_of(pre, tv),
        tag_check(pre) is None,
        0 <= p < tv.len(),
    ensures
        tag_owner(pre, tv[p].0) matches Some(o) && 0 <= o < pre.len() && pre[o].name == tv[p].1,
{
    lemma_check_ok_tags(pre);
    lemma_tag_owner(pre, tv[p].0);
    assert(entry_has(pre, tv[p].0, tv[p].1));
    let j = choose|j: int| 0 <= j < pre.len() && (#[trigger] pre[j]).tag == tv[p].0 && pre[j].name == tv[p].1;
    assert(pre[j].tag == tv[p].0);
    let o = tag_owner(pre, tv[p].0)->0;
    assert(o == j);
}

proof fn lemma_table_absent(pre: Seq<TagEntryView>, tv: Seq<(u32, Seq<char>)>, t: u32, p: int)
    requires
        table_of(pre, tv),
        0 <= p <= tv.len(),
        forall|i: int| 0 <= i < p ==> (#[trigger] tv[i]).0 < t,
        p < tv.len() ==> tv[p].0 > t,
    ensures
        tag_owner(pre, t) is None,
{
    lemma_tag_owner(pre, t);
    if tag_owner(pre, t) is Some {
        let o = tag_owner(pre, t)->0;
        assert(tv.contains((pre[o].tag, pre[o].name)));
        let q = choose|q: int| 0 <= q < tv.len() && tv[q] == (pre[o].tag, pre[o].name);
        if q < p {
            assert(tv[q].0 < t);
        } else if q > p {
            assert(tv[p].0 < tv[q].0);
        }
    }
}

#[verifier::spinoff_prover]
#[verifier::rlimit(40)]
proof fn lemma_table_insert(pre: Seq<TagEntryView>, tv0: Seq<(u32, Seq<char>)>, e: TagEntryView, p: int)
    requires
        table_of(pre, tv0),
        0 <= p <= tv0.len(),
        forall|i: int| 0 <= i < p ==> (#[trigger] tv0[i]).0 < e.tag,
        p < tv0.len() ==> tv0[p].0 > e.tag,
    ensures
        table_of(pre.push(e), tv0.insert(p, (e.tag, e.name))),
{
    let tv1 = tv0.insert(p, (e.tag, e.name));
    let cur = pre.push(e);
    let x = (e.tag, e.name);
    assert forall|i: int, j: int| 0 <= i < j < tv1.len() implies (#[trigger] tv1[i]).0 < (#[trigger] tv1[j]).0 by {
        if j < p {
            assert(tv1[i] == tv0[i] && tv1[j] == tv0[j]);
        } else if j == p {
            assert(tv1[i] == tv0[i]);
        } else if i < p {
            assert(tv1[i] == tv0[i] && tv1[j] == tv0[j - 1]);
            if j - 1 > p {
                assert(tv0[p].0 < tv0[j - 1].0);
            }
        } else if i == p {
            assert(tv1[j] == tv0[j - 1]);
            if j - 1 > p {
                assert(tv0[p].0 < tv0[j - 1].0);
            }
        } else {
            assert(tv1[i] == tv0[i - 1] && tv1[j] == tv0[j - 1]);
        }
    }
    assert forall|q: int| 0 <= q < cur.len() implies tv1.contains(((#[trigger] cur[q]).tag, cur[q].name)) by {
        if q < pre.len() {
            assert(cur[q] == pre[q]);
            assert(tv0.contains((pre[q].tag, pre[q].name)));
            let w = choose|w: int| 0 <= w < tv0.len() && tv0[w] == (pre[q].tag, pre[q].name);
            if w < p {
                assert(tv1[w] == tv0[w]);
            } else {
                assert(tv1[w + 1] == tv0[w]);
            }
        } else {
            assert(tv1[p] == x);
        }
    }
    assert forall|w: int| 0 <= w < tv1.len() implies entry_has(cur, (#[trigger] tv1[w]).0, tv1[w].1) by {
        if w < p {
            assert(tv1[w] == tv0[w]);
            assert(entry_has(pre, tv0[w].0, tv0[w].1));
            let q = choose|q: int| 0 <= q < pre.len() && (#[trigger] pre[q]).tag == tv0[w].0 && pre[q].name == tv0[w].1;
            assert(cur[q] == pre[q]);
        } else if w == p {
            let q = pre.len() as int;
            assert(tv1[w] == x);
            assert(cur[q] == e);
        } else {
            assert(tv1[w] == tv0[w - 1]);
            assert(entry_has(pre, tv0[w - 1].0, tv0[w - 1].1));
            let q = choose|q: int| 0 <= q < pre.len() && (#[trigger] pre[q]).tag == tv0[w - 1].0 && pre[q].name == tv0[w - 1].1;
            assert(cur[q] == pre[q]);
        }
    }
    assert(tv1.len() == cur.len());
    assert(tags_increase(tv1));
}

/// Checks the type tags of a batch, in order, and builds the table from tag
/// to type name, sorted by tag.
pub fn check_type_tags(entries: &[TagEntry]) -> (r: Result<Vec<(u32, String)>, TagError>)
    ensures
        match tag_check(entries_view(entries@)) {
            Some(e) => r matches Err(err) && tag_error_view(err) == e,
            None => r matches Ok(table) && table_of(entries_view(entries@), table_view(table@)),
        },
{
    let ghost es = entries_view(entries@);
    let mut table: Vec<(u32, String)> = Vec::new();
    let mut k: usize = 0;
    assert(es.take(0) =~= Seq::<TagEntryView>::empty());
    while k < entries.len()
        invariant
            k <= entries@.len(),
            es == entries_view(entries@),
            tag_check(es.take(k as int)) is None,
            table_of(es.take(k as int), table_view(table@)),
        decreases entries@.len() - k,
    {
        let ghost pre = es.take(k as int);
        let ghost tv0 = table_view(table@);
        let e = &entries[k];
        assert(es[k as int] == entry_view(*e));
        assert(es.take(k + 1).drop_last() =~= pre);
        assert(es.take(k + 1).last() == es[k as int]);
        if e.type_tag == 0 {
            proof {
                lemma_check_stays(es, k + 1);
            }
            return Err(TagError::Missing { name: e.name.clone(), hint: e.hint.clone() });
        }
        let p = table_position(&table, e.type_tag);
        if p < table.len() && table[p].0 == e.type_tag {
            proof {
                assert(tv0[p as int] == (table@[p as int].0, table@[p as int].1@));
                lemma_table_found(pre, tv0, p as int);
                let o = tag_owner(pre, e.type_tag)->0;
                assert(es.take(k + 1)[o] == pre[o]);
                assert(tag_check(es.take(k + 1)) == Some(TagErrorView::Duplicate { tag: e.type_tag, first: pre[o].name, second: e.name@ }));
                lemma_check_stays(es, k + 1);
            }
            return Err(TagError::Duplicate { tag: e.type_tag, first: table[p].1.clone(), second: e.name.clone() });
        }
        proof {
            lemma_table_absent(pre, tv0, e.type_tag, p as int);
        }
        table.insert(p, (e.type_tag, e.name.clone()));
        k = k + 1;
        proof {
            assert(table_view(table@) =~= tv0.insert(p as int, (e.type_tag, e.name@)));
            assert(es.take(k as int) =~= pre.push(es[k - 1]));
            lemma_table_insert(pre, tv0, es[k - 1], p as int);
        }
    }
    assert(es.take(entries@.len() as int) =~= es);
    Ok(table)
}

fn type_entry_of(t: &TaggedType) -> (r: TagEntry)
    ensures
        entry_view(r) == type_entry(*t),
{
    let mut hint = t.name.clone();
    push_str(&mut hint, " = N");
    TagEntry { name: t.name.clone(), hint, type_tag: t.type_tag }
}

fn vtable_entry_of(t: &TaggedType) -> (r: TagEntry)
    ensures
        entry_view(r) == vtable_entry(*t),
{
    let mut name = owned("Vtable");
    push_str(&mut name, t.name.as_str());
    let mut hint = owned("trait ");
    push_str(&mut hint, t.name.as_str());
    push_str(&mut hint, " = N");
    TagEntry { name, hint, type_tag: t.type_tag }
}

fn push_entries(out: &mut Vec<TagEntry>, ts: &[TaggedType], vtable: bool)
    ensures
        entries_view(final(out)@) == entries_view(old(out)@) + if vtable {
            ts@.map_values(|t: TaggedType| vtable_entry(t))
        } else {
            ts@.map_values(|t: TaggedType| type_entry(t))
        },
{
    let ghost o0 = entries_view(out@);
    let ghost want = if vtable {
        ts@.map_values(|t: TaggedType| vtable_entry(t))
    } else {
        ts@.map_values(|t: TaggedType| type_entry(t))
    };
    let mut i: usize = 0;
    while i < ts.len()
        invariant
            i <= ts@.len(),
            want == (if vtable {
                ts@.map_values(|t: TaggedType| vtable_entry(t))
            } else {
                ts@.map_values(|t: TaggedType| type_entry(t))
            }),
            entries_view(out@) == o0 + want.take(i as int),
        decreases ts@.len() - i,
    {
        let e = if vtable {
            vtable_entry_of(&ts[i])
        } else {
            type_entry_of(&ts[i])
        };
        let ghost before = out@;
        out.push(e);
        i = i + 1;
        assert(entries_view(out@) =~= entries_view(before).push(entry_view(e)));
        assert(entries_view(out@) =~= o0 + want.take(i as int));
    }
    assert(want.take(ts@.len() as int) =~= want);
}

/// Checks the type tags of a library's errors, exported types and
/// implementable traits (whose handles are their vtable wrappers), in that
/// order, and builds the table from tag to type name, sorted by tag.
pub fn type_tag_table(errors: &[TaggedType], exportables: &[TaggedType], implementables: &[TaggedType]) -> (r: Result<
    Vec<(u32, String)>,
    TagError,
>)
    ensures
        match tag_check(tag_entries_spec(errors@, exportables@, implementables@)) {
            Some(e) => r matches Err(err) && tag_error_view(err) == e,
            None => r matches Ok(table) && table_of(tag_entries_spec(errors@, exportables@, implementables@), table_view(table@)),
        },
{
    let mut entries: Vec<TagEntry> = Vec::new();
    assert(entries_view(entries@) =~= Seq::<TagEntryView>::empty());
    push_entries(&mut entries, errors, false);
    push_entries(&mut entries, exportables, false);
    push_entries(&mut entries, implementables, true);
    assert(entries_view(entries@) =~= tag_entries_spec(errors@, exportables@, implementables@));
    check_type_tags(entries.as_slice())
}

impl TagError {
    /// The message of the refusal.
    pub fn message(&self) -> (r: String)
        ensures
            r@ == match self {
                TagError::Missing { name, hint } => "type `"@ + name@ + "` has no type tag; add `"@ + hint@ + "` in library_definition!()"@,
                TagError::Duplicate { tag, first, second } => "duplicate type tag "@ + decimal(*tag as nat) + ": used by both `"@ + first@
                    + "` and `"@ + second@ + "`"@,
            },
    {
        match self {
            TagError::Missing { name, hint } => {
                let mut s = owned("type `");
                push_str(&mut s, name.as_str());
                push_str(&mut s, "` has no type tag; add `");
                push_str(&mut s, hint.as_str());
                push_str(&mut s, "` in library_definition!()");
                s
            },
            TagError::Duplicate { tag, first, second } => {
                let mut s = owned("duplicate type tag ");
                push_decimal(&mut s, *tag as u64);
                push_str(&mut s, ": used by both `");
                push_str(&mut s, first.as_str());
                push_str(&mut s, "` and `");
                push_str(&mut s, second.as_str());
                push_str(&mut s, "`");
                s
            },
        }
    }
}

} // verus!
