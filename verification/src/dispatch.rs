//! How the bridge dispatches `impl Trait` parameters: the map from each
//! trait to the types that implement it, and for each parameter whether the
//! handle is matched against those types one by one or passed on through the
//! trait's vtable.

use vstd::prelude::*;
use crate::text::{decimal, join_spec, join_strings, owned, push_decimal, push_str, str_eq, strings_view};

verus! {

// ---------------------------------------------------------------------------
// The trait map
// ---------------------------------------------------------------------------

/// `impl Trait for Struct`, as the metadata of a trait impl gives it.
pub struct TraitImplEntry {
    pub trait_name: String,
    pub struct_name: String,
    /// The path of the implementing type, as text.
    pub struct_path: String,
}

/// A trait implementable from C, as its metadata gives it.
pub struct ImplementableEntry {
    pub trait_name: String,
    /// The path of the trait, as text.
    pub trait_path: String,
    /// The path of the wrapper type around a C vtable, as text.
    pub wrapper_path: String,
}

/// A type that a handle passed for a trait parameter may hold.
pub struct TraitVariant {
    pub name: String,
    /// The type's path, as text.
    pub bridge_type: String,
}

/// What the bridge knows of one trait.
pub struct TraitDispatchInfo {
    pub trait_name: String,
    /// The implementing types: those of the trait impls in order, then the
    /// vtable wrapper of the trait if it is implementable.
    pub variants: Vec<TraitVariant>,
    /// The position among the implementables of the trait's metadata (the
    /// last one, if it was given more than once).
    pub implementable: Option<usize>,
}

/// The traits that `impl Trait` parameters can name, each once.
pub struct TraitMap {
    pub traits: Vec<TraitDispatchInfo>,
}

/// A variant as plain values: name and type path.
pub open spec fn variant_view(v: TraitVariant) -> (Seq<char>, Seq<char>) {
    (v.name@, v.bridge_type@)
}

/// The views of a list of variants.
pub open spec fn variants_view(vs: Seq<TraitVariant>) -> Seq<(Seq<char>, Seq<char>)> {
    vs.map_values(|v: TraitVariant| variant_view(v))
}

/// The implementors of trait `t` among the trait impls, in order.
pub open spec fn impl_variants(impls: Seq<TraitImplEntry>, t: Seq<char>) -> Seq<(Seq<char>, Seq<char>)>
    decreases impls.len(),
{
    if impls.len() == 0 {
        Seq::empty()
    } else if impls.last().trait_name@ == t {
        impl_variants(impls.drop_last(), t).push((impls.last().struct_name@, impls.last().struct_path@))
    } else {
        impl_variants(impls.drop_last(), t)
    }
}

/// The vtable wrappers of trait `t` among the implementables, in order:
/// each is named `Vtable<Trait>`.
pub open spec fn wrapper_variants(imps: Seq<ImplementableEntry>, t: Seq<char>) -> Seq<(Seq<char>, Seq<char>)>
    decreases imps.len(),
{
    if imps.len() == 0 {
        Seq::empty()
    } else if imps.last().trait_name@ == t {
        wrapper_variants(imps.drop_last(), t).push(("Vtable"@ + t, imps.last().wrapper_path@))
    } else {
        wrapper_variants(imps.drop_last(), t)
    }
}

/// The position of the last implementable metadata of trait `t`.
pub open spec fn last_implementable(imps: Seq<ImplementableEntry>, t: Seq<char>) -> Option<int>
    decreases imps.len(),
{
    if imps.len() == 0 {
        None
    } else if imps.last().trait_name@ == t {
        Some(imps.len() - 1)
    } else {
        last_implementable(imps.drop_last(), t)
    }
}

/// One of the first `n` trait impls is for trait `t`.
pub open spec fn impl_names(impls: Seq<TraitImplEntry>, n: int, t: Seq<char>) -> bool {
    exists|i: int| 0 <= i < n && (#[trigger] impls[i]).trait_name@ == t
}

/// One of the first `n` implementables is trait `t`.
pub open spec fn implementable_names(imps: Seq<ImplementableEntry>, n: int, t: Seq<char>) -> bool {
    exists|j: int| 0 <= j < n && (#[trigger] imps[j]).trait_name@ == t
}

/// Trait `t` is named by a trait impl or an implementable.
pub open spec fn trait_known(impls: Seq<TraitImplEntry>, imps: Seq<ImplementableEntry>, t: Seq<char>) -> bool {
    impl_names(impls, impls.len() as int, t) || implementable_names(imps, imps.len() as int, t)
}

/// `t` is among `names`.
pub open spec fn has_name(names: Seq<String>, t: Seq<char>) -> bool {
    exists|k: int| 0 <= k < names.len() && (#[trigger] names[k])@ == t
}

/// The position of trait `t` in the map.
pub open spec fn entry_index(traits: Seq<TraitDispatchInfo>, t: Seq<char>) -> Option<int>
    decreases traits.len(),
{
    if traits.len() == 0 {
        None
    } else if traits.last().trait_name@ == t {
        Some(traits.len() - 1)
    } else {
        entry_index(traits.drop_last(), t)
    }
}

impl TraitMap {
    /// Each trait has one entry, with at least one implementing type.
    pub open spec fn wf(&self) -> bool {
        &&& forall|i: int, j: int|
            0 <= i < j < self.traits@.len() ==> (#[trigger] self.traits@[i]).trait_name@ != (#[trigger] self.traits@[j]).trait_name@
        &&& forall|i: int| 0 <= i < self.traits@.len() ==> (#[trigger] self.traits@[i]).variants@.len() > 0
    }

    /// The entry of trait `t`, if any.
    pub open spec fn entry(&self, t: Seq<char>) -> Option<TraitDispatchInfo> {
        match entry_index(self.traits@, t) {
            Some(k) => Some(self.traits@[k]),
            None => None,
        }
    }

    /// The entry of the trait named `name`.
    pub fn get(&self, name: &str) -> (r: Option<&TraitDispatchInfo>)
        ensures
            match r {
                Some(info) => self.entry(name@) == Some(*info),
                None => self.entry(name@) is None,
            },
    {
        let mut found: Option<usize> = None;
        let mut i: usize = 0;
        assert(self.traits@.take(0) =~= Seq::<TraitDispatchInfo>::empty());
        while i < self.traits.len()
            invariant
                i <= self.traits@.len(),
                match found {
                    Some(k) => k < i && entry_index(self.traits@.take(i as int), name@) == Some(k as int),
                    None => entry_index(self.traits@.take(i as int), name@) is None,
                },
            decreases self.traits@.len() - i,
        {
            if str_eq(self.traits[i].trait_name.as_str(), name) {
                found = Some(i);
            }
            i = i + 1;
            assert(self.traits@.take(i as int).drop_last() =~= self.traits@.take(i - 1));
            assert(self.traits@.take(i as int).last() == self.traits@[i - 1]);
        }
        assert(self.traits@.take(self.traits@.len() as int) =~= self.traits@);
        match found {
            Some(k) => Some(&self.traits[k]),
            None => None,
        }
    }
}

/// The map of a library: one entry for each trait that a trait impl or an
/// implementable names, with its implementors and its implementable
/// metadata.
pub open spec fn trait_map_ok(impls: Seq<TraitImplEntry>, imps: Seq<ImplementableEntry>, m: TraitMap) -> bool {
    &&& m.wf()
    &&& forall|t: Seq<char>| #[trigger] m.entry(t) is Some <==> trait_known(impls, imps, t)
    &&& forall|t: Seq<char>|
        #[trigger] m.entry(t) matches Some(info) ==> variants_view(info.variants@) == impl_variants(impls, t) + wrapper_variants(imps, t)
            && match info.implementable {
            Some(k) => last_implementable(imps, t) == Some(k as int),
            None => last_implementable(imps, t) is None,
        }
}

pub(crate) proof fn lemma_entry_index_found(traits: Seq<TraitDispatchInfo>, t: Seq<char>)
    ensures
        entry_index(traits, t) matches Some(k) ==> 0 <= k < traits.len() && traits[k].trait_name@ == t,
        entry_index(traits, t) is None ==> forall|i: int| 0 <= i < traits.len() ==> (#[trigger] traits[i]).trait_name@ != t,
    decreases traits.len(),
{
    if traits.len() > 0 {
        let d = traits.drop_last();
        lemma_entry_index_found(d, t);
        if entry_index(traits, t) is None {
            assert forall|i: int| 0 <= i < traits.len() implies (#[trigger] traits[i]).trait_name@ != t by {
                if i < d.len() {
                    assert(d[i] == traits[i]);
                }
            }
        }
    }
}

proof fn lemma_entry_index_unique(traits: Seq<TraitDispatchInfo>, k: int)
    requires
        0 <= k < traits.len(),
        forall|i: int, j: int| 0 <= i < j < traits.len() ==> (#[trigger] traits[i]).trait_name@ != (#[trigger] traits[j]).trait_name@,
    ensures
        entry_index(traits, traits[k].trait_name@) == Some(k),
    decreases traits.len(),
{
    if k < traits.len() - 1 {
        let d = traits.drop_last();
        assert(traits[k].trait_name@ != traits[traits.len() - 1].trait_name@);
        assert forall|i: int, j: int| 0 <= i < j < d.len() implies (#[trigger] d[i]).trait_name@ != (#[trigger] d[j]).trait_name@ by {
            assert(d[i] == traits[i] && d[j] == traits[j]);
        }
        assert(d[k] == traits[k]);
        lemma_entry_index_unique(d, k);
    }
}

proof fn lemma_known_has_variants(impls: Seq<TraitImplEntry>, imps: Seq<ImplementableEntry>, t: Seq<char>)
    requires
        trait_known(impls, imps, t),
    ensures
        (impl_variants(impls, t) + wrapper_variants(imps, t)).len() > 0,
{
    lemma_impl_variants_len(impls, t, impls.len() as int);
    lemma_wrapper_variants_len(imps, t, imps.len() as int);
}

proof fn lemma_impl_variants_len(impls: Seq<TraitImplEntry>, t: Seq<char>, n: int)
    requires
        0 <= n <= impls.len(),
    ensures
        impl_names(impls, n, t) ==> impl_variants(impls.take(n), t).len() > 0,
        n == impls.len() ==> impl_variants(impls.take(n), t) == impl_variants(impls, t),
    decreases n,
{
    if n == impls.len() {
        assert(impls.take(n) =~= impls);
    }
    if n > 0 {
        lemma_impl_variants_len(impls, t, n - 1);
        assert(impls.take(n).drop_last() =~= impls.take(n - 1));
        if impl_names(impls, n, t) && !impl_names(impls, n - 1, t) {
            let k = choose|k: int| 0 <= k < n && (#[trigger] impls[k]).trait_name@ == t;
            assert(k == n - 1);
        }
    }
}

proof fn lemma_wrapper_variants_len(imps: Seq<ImplementableEntry>, t: Seq<char>, n: int)
    requires
        0 <= n <= imps.len(),
    ensures
        implementable_names(imps, n, t) ==> wrapper_variants(imps.take(n), t).len() > 0,
        n == imps.len() ==> wrapper_variants(imps.take(n), t) == wrapper_variants(imps, t),
    decreases n,
{
    if n == imps.len() {
        assert(imps.take(n) =~= imps);
    }
    if n > 0 {
        lemma_wrapper_variants_len(imps, t, n - 1);
        assert(imps.take(n).drop_last() =~= imps.take(n - 1));
        if implementable_names(imps, n, t) && !implementable_names(imps, n - 1, t) {
            let k = choose|k: int| 0 <= k < n && (#[trigger] imps[k]).trait_name@ == t;
            assert(k == n - 1);
        }
    }
}

fn impl_variants_of(impls: &[TraitImplEntry], t: &str) -> (r: Vec<TraitVariant>)
    ensures
        variants_view(r@) == impl_variants(impls@, t@),
{
    let mut out: Vec<TraitVariant> = Vec::new();
    let mut i: usize = 0;
    assert(impls@.take(0) =~= Seq::<TraitImplEntry>::empty());
    while i < impls.len()
        invariant
            i <= impls@.len(),
            variants_view(out@) == impl_variants(impls@.take(i as int), t@),
        decreases impls@.len() - i,
    {
        assert(impls@.take(i + 1).drop_last() =~= impls@.take(i as int));
        assert(impls@.take(i + 1).last() == impls@[i as int]);
        if str_eq(impls[i].trait_name.as_str(), t) {
            let v = TraitVariant { name: impls[i].struct_name.clone(), bridge_type: impls[i].struct_path.clone() };
            let ghost before = out@;
            out.push(v);
            assert(variants_view(out@) =~= variants_view(before).push(variant_view(v)));
        }
        i = i + 1;
    }
    assert(impls@.take(impls@.len() as int) =~= impls@);
    out
}

fn add_wrapper_variants(out: &mut Vec<TraitVariant>, imps: &[ImplementableEntry], t: &str) -> (last: Option<usize>)
    ensures
        variants_view(final(out)@) == variants_view(old(out)@) + wrapper_variants(imps@, t@),
        match last {
            Some(k) => last_implementable(imps@, t@) == Some(k as int),
            None => last_implementable(imps@, t@) is None,
        },
{
    let ghost out0 = variants_view(out@);
    let mut last: Option<usize> = None;
    let mut i: usize = 0;
    assert(imps@.take(0) =~= Seq::<ImplementableEntry>::empty());
    assert(out0 + wrapper_variants(imps@.take(0), t@) =~= out0);
    while i < imps.len()
        invariant
            i <= imps@.len(),
            variants_view(out@) == out0 + wrapper_variants(imps@.take(i as int), t@),
            match last {
                Some(k) => last_implementable(imps@.take(i as int), t@) == Some(k as int),
                None => last_implementable(imps@.take(i as int), t@) is None,
            },
        decreases imps@.len() - i,
    {
        assert(imps@.take(i + 1).drop_last() =~= imps@.take(i as int));
        assert(imps@.take(i + 1).last() == imps@[i as int]);
        if str_eq(imps[i].trait_name.as_str(), t) {
            let mut name = owned("Vtable");
            push_str(&mut name, t);
            let v = TraitVariant { name, bridge_type: imps[i].wrapper_path.clone() };
            let ghost before = out@;
            out.push(v);
            assert(variants_view(out@) =~= variants_view(before).push(variant_view(v)));
            last = Some(i);
        }
        i = i + 1;
    }
    assert(imps@.take(imps@.len() as int) =~= imps@);
    last
}

fn trait_info(impls: &[TraitImplEntry], imps: &[ImplementableEntry], t: &str) -> (r: TraitDispatchInfo)
    ensures
        r.trait_name@ == t@,
        variants_view(r.variants@) == impl_variants(impls@, t@) + wrapper_variants(imps@, t@),
        match r.implementable {
            Some(k) => last_implementable(imps@, t@) == Some(k as int),
            None => last_implementable(imps@, t@) is None,
        },
{
    let mut variants = impl_variants_of(impls, t);
    let implementable = add_wrapper_variants(&mut variants, imps, t);
    TraitDispatchInfo { trait_name: owned(t), variants, implementable }
}

/// One step of collecting names: `x` is added unless it is there.
proof fn lemma_names_step(before: Seq<String>, after: Seq<String>, x: Seq<char>, present: bool)
    requires
        present == has_name(before, x),
        present ==> after == before,
        !present ==> after.len() == before.len() + 1 && after.drop_last() == before && after.last()@ == x,
        forall|a: int, b: int| 0 <= a < b < before.len() ==> (#[trigger] before[a])@ != (#[trigger] before[b])@,
    ensures
        forall|t: Seq<char>| #[trigger] has_name(after, t) <==> (has_name(before, t) || t == x),
        forall|a: int, b: int| 0 <= a < b < after.len() ==> (#[trigger] after[a])@ != (#[trigger] after[b])@,
{
    if !present {
        assert forall|t: Seq<char>| #[trigger] has_name(after, t) <==> (has_name(before, t) || t == x) by {
            if has_name(after, t) {
                let k = choose|k: int| 0 <= k < after.len() && (#[trigger] after[k])@ == t;
                if k < before.len() {
                    assert(after[k] == before[k]);
                }
            }
            if has_name(before, t) {
                let k = choose|k: int| 0 <= k < before.len() && (#[trigger] before[k])@ == t;
                assert(after[k] == before[k]);
            }
            if t == x {
                assert(after[after.len() - 1]@ == t);
            }
        }
        assert forall|a: int, b: int| 0 <= a < b < after.len() implies (#[trigger] after[a])@ != (#[trigger] after[b])@ by {
            assert(after[a] == before[a]);
            if b < before.len() {
                assert(after[b] == before[b]);
            } else {
                if after[a]@ == after[b]@ {
                    assert(has_name(before, x));
                }
            }
        }
    }
}

fn contains_name(names: &Vec<String>, t: &str) -> (r: bool)
    ensures
        r == has_name(names@, t@),
{
    let mut i: usize = 0;
    while i < names.len()
        invariant
            i <= names@.len(),
            forall|j: int| 0 <= j < i ==> (#[trigger] names@[j])@ != t@,
        decreases names@.len() - i,
    {
        if str_eq(names[i].as_str(), t) {
            return true;
        }
        i = i + 1;
    }
    false
}

/// Builds the trait map from the metadata of the library's trait impls and
/// implementables.
pub fn build_trait_map(impls: &[TraitImplEntry], imps: &[ImplementableEntry]) -> (m: TraitMap)
    ensures
        trait_map_ok(impls@, imps@, m),
{
    let mut names: Vec<String> = Vec::new();
    let mut i: usize = 0;
    while i < impls.len()
        invariant
            i <= impls@.len(),
            forall|a: int, b: int| 0 <= a < b < names@.len() ==> (#[trigger] names@[a])@ != (#[trigger] names@[b])@,
            forall|t: Seq<char>| #[trigger] has_name(names@, t) <==> impl_names(impls@, i as int, t),
        decreases impls@.len() - i,
    {
        let t = impls[i].trait_name.as_str();
        let ghost before = names@;
        let present = contains_name(&names, t);
        if !present {
            names.push(impls[i].trait_name.clone());
        }
        proof {
            if !present {
                assert(names@.drop_last() =~= before);
            }
            lemma_names_step(before, names@, impls@[i as int].trait_name@, present);
        }
        i = i + 1;
        assert forall|t: Seq<char>| #[trigger] has_name(names@, t) <==> impl_names(impls@, i as int, t) by {
            if impl_names(impls@, i as int, t) {
                let k = choose|k: int| 0 <= k < i && (#[trigger] impls@[k]).trait_name@ == t;
                if k < i - 1 {
                    assert(impl_names(impls@, i - 1, t));
                }
            }
            if impl_names(impls@, i - 1, t) {
                let k = choose|k: int| 0 <= k < i - 1 && (#[trigger] impls@[k]).trait_name@ == t;
                assert(impls@[k].trait_name@ == t);
            }
            if t == impls@[i - 1].trait_name@ {
                assert(impls@[i - 1].trait_name@ == t);
            }
        }
    }
    let mut j: usize = 0;
    while j < imps.len()
        invariant
            j <= imps@.len(),
            forall|a: int, b: int| 0 <= a < b < names@.len() ==> (#[trigger] names@[a])@ != (#[trigger] names@[b])@,
            forall|t: Seq<char>|
                #[trigger] has_name(names@, t) <==> (impl_names(impls@, impls@.len() as int, t) || implementable_names(imps@, j as int, t)),
        decreases imps@.len() - j,
    {
        let t = imps[j].trait_name.as_str();
        let ghost before = names@;
        let present = contains_name(&names, t);
        if !present {
            names.push(imps[j].trait_name.clone());
        }
        proof {
            if !present {
                assert(names@.drop_last() =~= before);
            }
            lemma_names_step(before, names@, imps@[j as int].trait_name@, present);
        }
        j = j + 1;
        assert forall|t: Seq<char>|
            #[trigger] has_name(names@, t) <==> (impl_names(impls@, impls@.len() as int, t) || implementable_names(imps@, j as int, t)) by {
            if implementable_names(imps@, j as int, t) {
                let k = choose|k: int| 0 <= k < j && (#[trigger] imps@[k]).trait_name@ == t;
                if k < j - 1 {
                    assert(implementable_names(imps@, j - 1, t));
                }
            }
            if implementable_names(imps@, j - 1, t) {
                let k = choose|k: int| 0 <= k < j - 1 && (#[trigger] imps@[k]).trait_name@ == t;
                assert(imps@[k].trait_name@ == t);
            }
            if t == imps@[j - 1].trait_name@ {
                assert(imps@[j - 1].trait_name@ == t);
            }
        }
    }
    let mut traits: Vec<TraitDispatchInfo> = Vec::new();
    let mut k: usize = 0;
    while k < names.len()
        invariant
            k <= names@.len(),
            traits@.len() == k,
            forall|q: int| 0 <= q < k ==> (#[trigger] traits@[q]).trait_name@ == names@[q]@ && variants_view(traits@[q].variants@)
                == impl_variants(impls@, names@[q]@) + wrapper_variants(imps@, names@[q]@) && match traits@[q].implementable {
                Some(x) => last_implementable(imps@, names@[q]@) == Some(x as int),
                None => last_implementable(imps@, names@[q]@) is None,
            },
        decreases names@.len() - k,
    {
        let info = trait_info(impls, imps, names[k].as_str());
        traits.push(info);
        k = k + 1;
    }
    let m = TraitMap { traits };
    proof {
        let ts = m.traits@;
        assert forall|a: int, b: int| 0 <= a < b < ts.len() implies (#[trigger] ts[a]).trait_name@ != (#[trigger] ts[b]).trait_name@ by {
            assert(names@[a]@ != names@[b]@);
        }
        assert forall|a: int| 0 <= a < ts.len() implies (#[trigger] ts[a]).variants@.len() > 0 by {
            let t = names@[a]@;
            assert(has_name(names@, t));
            lemma_known_has_variants(impls@, imps@, t);
            assert(variants_view(ts[a].variants@).len() == ts[a].variants@.len());
        }
        assert forall|t: Seq<char>| #[trigger] m.entry(t) is Some <==> trait_known(impls@, imps@, t) by {
            lemma_entry_index_found(ts, t);
            if m.entry(t) is Some {
                let q = entry_index(ts, t)->0;
                assert(names@[q]@ == t);
                assert(has_name(names@, t));
            }
            if trait_known(impls@, imps@, t) {
                assert(has_name(names@, t));
                let q = choose|q: int| 0 <= q < names@.len() && (#[trigger] names@[q])@ == t;
                assert(ts[q].trait_name@ == t);
            }
        }
        assert forall|t: Seq<char>| #[trigger] m.entry(t) is Some implies ({
            let info = m.entry(t)->0;
            variants_view(info.variants@) == impl_variants(impls@, t) + wrapper_variants(imps@, t) && match info.implementable {
                Some(x) => last_implementable(imps@, t) == Some(x as int),
                None => last_implementable(imps@, t) is None,
            }
        }) by {
            lemma_entry_index_found(ts, t);
        }
    }
    m
}

// ---------------------------------------------------------------------------
// Dispatch of `impl Trait` parameters
// ---------------------------------------------------------------------------

/// How an `impl Trait` parameter asks to be dispatched
/// (`#[ffier(dispatch = ..)]`, `auto` when not given).
#[derive(Clone, Copy, PartialEq, Eq, Debug, Structural)]
pub enum DispatchMode {
    Auto,
    Concrete,
    Vtable,
}

/// An `impl Trait` parameter of a method or free function.
pub struct ImplTraitArg {
    pub name: String,
    pub trait_name: String,
    pub dispatch: DispatchMode,
}

/// Why the dispatch of a function's parameters is refused.
pub enum DispatchError {
    /// Matching every parameter by type would take more branches than the
    /// limit, and a parameter left the choice to the generator.
    TooManyBranches { total: u64 },
    /// A parameter asks for the vtable of a trait that is not implementable.
    NotImplementable { param: String, trait_name: String },
}

/// The dispatch of each parameter.
pub struct DispatchPlan {
    /// For each parameter: `None` when its trait is not in the map (the
    /// handle is passed on as is), else whether it goes through the trait's
    /// vtable (`true`) or is matched against the trait's types (`false`).
    pub vtable: Vec<Option<bool>>,
    /// The number of branches that matching every parameter that does not
    /// ask for the vtable by type would take.
    pub total_branches: u64,
}

/// The trait of parameter `a` is in the map.
pub open spec fn arg_known(m: TraitMap, a: ImplTraitArg) -> bool {
    m.entry(a.trait_name@) is Some
}

/// The factor that parameter `a` contributes to the branch count: the number
/// of its trait's types unless it asks for the vtable or its trait is not in
/// the map.
pub open spec fn branch_factor(m: TraitMap, a: ImplTraitArg) -> nat {
    match m.entry(a.trait_name@) {
        Some(info) => if a.dispatch != DispatchMode::Vtable {
            info.variants@.len()
        } else {
            1
        },
        None => 1,
    }
}

/// The product of the branch factors.
pub open spec fn branches(args: Seq<ImplTraitArg>, m: TraitMap) -> nat
    decreases args.len(),
{
    if args.len() == 0 {
        1
    } else {
        branches(args.drop_last(), m) * branch_factor(m, args.last())
    }
}

/// A parameter whose trait is in the map leaves the choice to the generator.
pub open spec fn any_auto(args: Seq<ImplTraitArg>, m: TraitMap) -> bool {
    exists|i: int| 0 <= i < args.len() && arg_known(m, #[trigger] args[i]) && args[i].dispatch == DispatchMode::Auto
}

/// Parameter `a` asks for the vtable of a trait that is not implementable.
pub open spec fn wants_missing_vtable(m: TraitMap, a: ImplTraitArg) -> bool {
    m.entry(a.trait_name@) matches Some(info) && a.dispatch == DispatchMode::Vtable && info.implementable is None
}

/// The first parameter that asks for a vtable that is not there.
pub open spec fn first_missing_vtable(args: Seq<ImplTraitArg>, m: TraitMap) -> Option<int>
    decreases args.len(),
{
    if args.len() == 0 {
        None
    } else {
        match first_missing_vtable(args.drop_last(), m) {
            Some(i) => Some(i),
            None => if wants_missing_vtable(m, args.last()) {
                Some(args.len() - 1)
            } else {
                None
            },
        }
    }
}

/// Every parameter is matched by type: none asks for the vtable, and the
/// branches stay within the limit or every parameter asks to be matched.
pub open spec fn all_concrete(args: Seq<ImplTraitArg>, m: TraitMap, max_dispatch: u64) -> bool {
    &&& forall|i: int| 0 <= i < args.len() && arg_known(m, #[trigger] args[i]) ==> args[i].dispatch != DispatchMode::Vtable
    &&& (branches(args, m) <= max_dispatch || forall|i: int|
        0 <= i < args.len() && arg_known(m, #[trigger] args[i]) ==> args[i].dispatch == DispatchMode::Concrete)
}

/// A parameter before position `i` leaves the choice to the generator.
pub open spec fn auto_before(args: Seq<ImplTraitArg>, m: TraitMap, i: int) -> bool {
    exists|j: int| 0 <= j < i && arg_known(m, #[trigger] args[j]) && args[j].dispatch == DispatchMode::Auto
}

/// Whether parameter `i` goes through the vtable: never when every
/// parameter is matched by type; else as it asks, and of the parameters
/// that leave the choice, the first is matched by type and the others go
/// through the vtable.
pub open spec fn goes_through_vtable(args: Seq<ImplTraitArg>, m: TraitMap, max_dispatch: u64, i: int) -> bool {
    if all_concrete(args, m, max_dispatch) {
        false
    } else {
        match args[i].dispatch {
            DispatchMode::Concrete => false,
            DispatchMode::Vtable => true,
            DispatchMode::Auto => auto_before(args, m, i),
        }
    }
}

/// The dispatch of `args`: refused when there are too many branches and a
/// parameter left the choice, or (next) when a parameter asks for a vtable
/// that is not there; else the plan of each parameter.
pub open spec fn plan_ok(args: Seq<ImplTraitArg>, m: TraitMap, max_dispatch: u64, r: Result<DispatchPlan, DispatchError>) -> bool {
    if branches(args, m) > max_dispatch && any_auto(args, m) {
        r matches Err(DispatchError::TooManyBranches { total }) && total == branches(args, m)
    } else {
        match first_missing_vtable(args, m) {
            Some(i) => r matches Err(DispatchError::NotImplementable { param, trait_name }) && param@ == args[i].name@
                && trait_name@ == args[i].trait_name@,
            None => r matches Ok(plan) && plan.total_branches == branches(args, m) && plan.vtable@.len() == args.len() && (forall|i: int|
                0 <= i < args.len() ==> (#[trigger] plan.vtable@[i]) == if arg_known(m, args[i]) {
                    Some(goes_through_vtable(args, m, max_dispatch, i))
                } else {
                    None
                }),
        }
    }
}

proof fn lemma_branches_prefix(args: Seq<ImplTraitArg>, m: TraitMap, n: int)
    requires
        m.wf(),
        0 <= n <= args.len(),
    ensures
        branches(args.take(n), m) <= branches(args, m),
        branches(args.take(n), m) >= 1,
    decreases args.len() - n,
{
    lemma_branches_positive(args.take(n), m);
    if n < args.len() {
        lemma_branches_prefix(args, m, n + 1);
        assert(args.take(n + 1).drop_last() =~= args.take(n));
        let a = args.take(n + 1).last();
        let b = branches(args.take(n), m);
        let f = branch_factor(m, a);
        lemma_factor_positive(m, a);
        assert(b <= b * f) by (nonlinear_arith)
            requires
                f >= 1,
                b >= 0,
        ;
    } else {
        assert(args.take(n) =~= args);
    }
}

proof fn lemma_factor_positive(m: TraitMap, a: ImplTraitArg)
    requires
        m.wf(),
    ensures
        branch_factor(m, a) >= 1,
{
    lemma_entry_index_found(m.traits@, a.trait_name@);
}

proof fn lemma_branches_positive(args: Seq<ImplTraitArg>, m: TraitMap)
    requires
        m.wf(),
    ensures
        branches(args, m) >= 1,
    decreases args.len(),
{
    if args.len() > 0 {
        lemma_branches_positive(args.drop_last(), m);
        lemma_factor_positive(m, args.last());
        let b = branches(args.drop_last(), m);
        let f = branch_factor(m, args.last());
        assert(b * f >= 1) by (nonlinear_arith)
            requires
                b >= 1,
                f >= 1,
        ;
    }
}

proof fn lemma_missing_stays(args: Seq<ImplTraitArg>, m: TraitMap, n: int)
    requires
        0 <= n <= args.len(),
        first_missing_vtable(args.take(n), m) is Some,
    ensures
        first_missing_vtable(args, m) == first_missing_vtable(args.take(n), m),
    decreases args.len() - n,
{
    if n < args.len() {
        assert(args.take(n + 1).drop_last() =~= args.take(n));
        lemma_missing_stays(args, m, n + 1);
    } else {
        assert(args.take(n) =~= args);
    }
}

proof fn lemma_missing_none(args: Seq<ImplTraitArg>, m: TraitMap, n: int)
    requires
        0 <= n <= args.len(),
        forall|j: int| 0 <= j < n ==> !wants_missing_vtable(m, #[trigger] args[j]),
    ensures
        first_missing_vtable(args.take(n), m) is None,
    decreases n,
{
    if n > 0 {
        assert(args.take(n).drop_last() =~= args.take(n - 1));
        lemma_missing_none(args, m, n - 1);
    }
}

/// Decides how each `impl Trait` parameter of a function is dispatched,
/// given the trait map and the largest number of branches that dispatch by
/// type may take when the generator chooses.
pub fn plan_dispatch(args: &[ImplTraitArg], m: &TraitMap, max_dispatch: u64) -> (r: Result<DispatchPlan, DispatchError>)
    requires
        m.wf(),
        branches(args@, *m) <= u64::MAX,
    ensures
        plan_ok(args@, *m, max_dispatch, r),
{
    // The branch count and whether a parameter leaves the choice.
    let mut total: u64 = 1;
    let mut auto_seen = false;
    let mut i: usize = 0;
    assert(args@.take(0) =~= Seq::<ImplTraitArg>::empty());
    while i < args.len()
        invariant
            i <= args@.len(),
            m.wf(),
            branches(args@, *m) <= u64::MAX,
            total == branches(args@.take(i as int), *m),
            auto_seen == auto_before(args@, *m, i as int),
        decreases args@.len() - i,
    {
        let a = &args[i];
        assert(args@.take(i + 1).drop_last() =~= args@.take(i as int));
        assert(args@.take(i + 1).last() == args@[i as int]);
        proof {
            lemma_branches_prefix(args@, *m, i + 1);
        }
        let ghost before = total;
        let ghost f = branch_factor(*m, args@[i as int]);
        match m.get(a.trait_name.as_str()) {
            Some(info) => {
                if a.dispatch != DispatchMode::Vtable {
                    let n = info.variants.len() as u64;
                    assert(f == n);
                    total = total * n;
                } else {
                    assert(f == 1);
                    assert(before * f == before) by (nonlinear_arith)
                        requires
                            f == 1,
                    ;
                }
                if a.dispatch == DispatchMode::Auto {
                    auto_seen = true;
                }
            },
            None => {
                assert(f == 1);
                assert(before * f == before) by (nonlinear_arith)
                    requires
                        f == 1,
                ;
            },
        }
        assert(total == before * f);
        i = i + 1;
        assert(auto_seen == auto_before(args@, *m, i as int)) by {
            if auto_before(args@, *m, i as int) {
                let j = choose|j: int| 0 <= j < i && arg_known(*m, #[trigger] args@[j]) && args@[j].dispatch == DispatchMode::Auto;
                if j < i - 1 {
                    assert(auto_before(args@, *m, i - 1));
                }
            }
        }
    }
    assert(args@.take(args@.len() as int) =~= args@);
    assert(auto_seen == any_auto(args@, *m));
    if total > max_dispatch && auto_seen {
        return Err(DispatchError::TooManyBranches { total });
    }
    // A parameter that asks for a vtable that is not there.

    let mut k: usize = 0;
    while k < args.len()
        invariant
            k <= args@.len(),
            !(branches(args@, *m) > max_dispatch && any_auto(args@, *m)),
            forall|j: int| 0 <= j < k ==> !wants_missing_vtable(*m, #[trigger] args@[j]),
        decreases args@.len() - k,
    {
        let a = &args[k];
        match m.get(a.trait_name.as_str()) {
            Some(info) => {
                if a.dispatch == DispatchMode::Vtable && info.implementable.is_none() {
                    proof {
                        lemma_missing_none(args@, *m, k as int);
                        assert(args@.take(k + 1).drop_last() =~= args@.take(k as int));
                        assert(args@.take(k + 1).last() == args@[k as int]);
                        lemma_missing_stays(args@, *m, k + 1);
                    }
                    return Err(DispatchError::NotImplementable { param: a.name.clone(), trait_name: a.trait_name.clone() });
                }
            },
            None => {},
        }
        k = k + 1;
    }
    proof {
        lemma_missing_none(args@, *m, args@.len() as int);
    }
    // Whether every parameter is matched by type.
    let mut no_vtable = true;
    let mut all_asked = true;
    let mut q: usize = 0;
    while q < args.len()
        invariant
            q <= args@.len(),
            no_vtable == forall|j: int| 0 <= j < q && arg_known(*m, #[trigger] args@[j]) ==> args@[j].dispatch != DispatchMode::Vtable,
            all_asked == forall|j: int| 0 <= j < q && arg_known(*m, #[trigger] args@[j]) ==> args@[j].dispatch == DispatchMode::Concrete,
        decreases args@.len() - q,
    {
        let a = &args[q];
        let known = m.get(a.trait_name.as_str()).is_some();
        if known && a.dispatch == DispatchMode::Vtable {
            no_vtable = false;
        }
        if known && a.dispatch != DispatchMode::Concrete {
            all_asked = false;
        }
        q = q + 1;
    }
    let concrete = no_vtable && (total <= max_dispatch || all_asked);
    // The plan.
    let mut vtable: Vec<Option<bool>> = Vec::new();
    let mut first_auto_seen = false;
    let mut p: usize = 0;
    while p < args.len()
        invariant
            p <= args@.len(),
            concrete == all_concrete(args@, *m, max_dispatch),
            first_auto_seen == auto_before(args@, *m, p as int),
            vtable@.len() == p,
            forall|j: int|
                0 <= j < p ==> (#[trigger] vtable@[j]) == if arg_known(*m, args@[j]) {
                    Some(goes_through_vtable(args@, *m, max_dispatch, j))
                } else {
                    None
                },
        decreases args@.len() - p,
    {
        let a = &args[p];
        let known = m.get(a.trait_name.as_str()).is_some();
        let v = if !known {
            None
        } else if concrete {
            Some(false)
        } else {
            match a.dispatch {
                DispatchMode::Concrete => Some(false),
                DispatchMode::Vtable => Some(true),
                DispatchMode::Auto => Some(first_auto_seen),
            }
        };
        vtable.push(v);
        if known && a.dispatch == DispatchMode::Auto {
            first_auto_seen = true;
        }
        p = p + 1;
        assert(first_auto_seen == auto_before(args@, *m, p as int)) by {
            if auto_before(args@, *m, p as int) {
                let j = choose|j: int| 0 <= j < p && arg_known(*m, #[trigger] args@[j]) && args@[j].dispatch == DispatchMode::Auto;
                if j < p - 1 {
                    assert(auto_before(args@, *m, p - 1));
                }
            }
        }
    }
    Ok(DispatchPlan { vtable, total_branches: total })
}

impl DispatchError {
    /// The message of the refusal, for the function whose C name is
    /// `ffi_name`.
    pub fn message(&self, ffi_name: &str, max_dispatch: u64) -> (r: String)
        ensures
            r@ == match self {
                DispatchError::TooManyBranches { total } => "ffier: `"@ + ffi_name@ + "` would generate "@ + decimal(*total as nat)
                    + " dispatch branches (limit: "@ + decimal(max_dispatch as nat)
                    + "). Add `#[ffier(dispatch = vtable)]` to the impl Trait param(s) or `#[ffier(dispatch = concrete)]` to override the limit."@,
                DispatchError::NotImplementable { param, trait_name } => "ffier: `#[ffier(dispatch = vtable)]` on param `"@ + param@
                    + "` requires trait `"@ + trait_name@ + "` to have `#[ffier::implementable]`"@,
            },
    {
        match self {
            DispatchError::TooManyBranches { total } => {
                let mut s = owned("ffier: `");
                push_str(&mut s, ffi_name);
                push_str(&mut s, "` would generate ");
                push_decimal(&mut s, *total);
                push_str(&mut s, " dispatch branches (limit: ");
                push_decimal(&mut s, max_dispatch);
                push_str(
                    &mut s,
                    "). Add `#[ffier(dispatch = vtable)]` to the impl Trait param(s) or `#[ffier(dispatch = concrete)]` to override the limit.",
                );
                s
            },
            DispatchError::NotImplementable { param, trait_name } => {
                let mut s = owned("ffier: `#[ffier(dispatch = vtable)]` on param `");
                push_str(&mut s, param.as_str());
                push_str(&mut s, "` requires trait `");
                push_str(&mut s, trait_name.as_str());
                push_str(&mut s, "` to have `#[ffier::implementable]`");
                s
            },
        }
    }
}

/// What the dispatch of `impl Trait` parameters promises: a parameter that
/// asks to be matched by type is, and one that asks for the vtable goes
/// through it, whose trait is then implementable; when every parameter asks
/// to be matched by type the limit does not apply; within the limit and
/// with no parameter asking for the vtable, every parameter is matched by
/// type; and beyond it, of the parameters that leave the choice only the
/// first is matched by type.
pub proof fn lemma_dispatch_laws(args: Seq<ImplTraitArg>, m: TraitMap, max_dispatch: u64, r: Result<DispatchPlan, DispatchError>)
    requires
        m.wf(),
        plan_ok(args, m, max_dispatch, r),
    ensures
        r matches Ok(plan) ==> forall|i: int|
            0 <= i < args.len() && arg_known(m, #[trigger] args[i]) && args[i].dispatch == DispatchMode::Concrete ==> plan.vtable@[i]
                == Some(false),
        r matches Ok(plan) ==> forall|i: int|
            0 <= i < args.len() && arg_known(m, #[trigger] args[i]) && args[i].dispatch == DispatchMode::Vtable ==> plan.vtable@[i]
                == Some(true) && m.entry(args[i].trait_name@)->0.implementable is Some,
        (forall|i: int| 0 <= i < args.len() && arg_known(m, #[trigger] args[i]) ==> args[i].dispatch == DispatchMode::Concrete) ==> (
        r matches Ok(plan) && forall|i: int| 0 <= i < args.len() && arg_known(m, #[trigger] args[i]) ==> plan.vtable@[i] == Some(false)),
        (branches(args, m) <= max_dispatch && forall|i: int|
            0 <= i < args.len() && arg_known(m, #[trigger] args[i]) ==> args[i].dispatch != DispatchMode::Vtable) ==> (r matches Ok(
            plan) && forall|i: int| 0 <= i < args.len() && arg_known(m, #[trigger] args[i]) ==> plan.vtable@[i] == Some(false)),
        r matches Ok(plan) ==> (!all_concrete(args, m, max_dispatch) ==> forall|i: int, j: int|
            0 <= i < j < args.len() && arg_known(m, #[trigger] args[i]) && arg_known(m, #[trigger] args[j]) && args[i].dispatch
                == DispatchMode::Auto && args[j].dispatch == DispatchMode::Auto ==> plan.vtable@[j] == Some(true)),
        r matches Ok(plan) ==> forall|i: int|
            0 <= i < args.len() && arg_known(m, #[trigger] args[i]) && args[i].dispatch == DispatchMode::Auto && !auto_before(args, m, i)
                ==> plan.vtable@[i] == Some(false),
{
    if r is Ok {
        assert forall|i: int|
            0 <= i < args.len() && arg_known(m, #[trigger] args[i]) && args[i].dispatch == DispatchMode::Vtable implies m.entry(
            args[i].trait_name@,
        )->0.implementable is Some by {
            if m.entry(args[i].trait_name@)->0.implementable is None {
                assert(wants_missing_vtable(m, args[i]));
                lemma_missing_found(args, m, i);
            }
        }
    }
    if forall|i: int| 0 <= i < args.len() && arg_known(m, #[trigger] args[i]) ==> args[i].dispatch == DispatchMode::Concrete {
        assert(!any_auto(args, m));
        assert forall|i: int| 0 <= i < args.len() implies !wants_missing_vtable(m, #[trigger] args[i]) by {}
        lemma_missing_none(args, m, args.len() as int);
        assert(args.take(args.len() as int) =~= args);
    }
    if branches(args, m) <= max_dispatch && forall|i: int|
        0 <= i < args.len() && arg_known(m, #[trigger] args[i]) ==> args[i].dispatch != DispatchMode::Vtable {
        assert forall|i: int| 0 <= i < args.len() implies !wants_missing_vtable(m, #[trigger] args[i]) by {}
        lemma_missing_none(args, m, args.len() as int);
        assert(args.take(args.len() as int) =~= args);
    }
}

proof fn lemma_missing_found(args: Seq<ImplTraitArg>, m: TraitMap, i: int)
    requires
        0 <= i < args.len(),
        wants_missing_vtable(m, args[i]),
    ensures
        first_missing_vtable(args, m) is Some,
    decreases args.len(),
{
    if i < args.len() - 1 {
        assert(args.drop_last()[i] == args[i]);
        lemma_missing_found(args.drop_last(), m, i);
    }
}

/// The names of a trait's types.
pub open spec fn variant_names(vs: Seq<TraitVariant>) -> Seq<Seq<char>> {
    vs.map_values(|v: TraitVariant| v.name@)
}

/// The types that a parameter of the trait accepts, as dispatch errors list
/// them: `Apple | Pear | VtableFruit`.
pub fn accepted_types(info: &TraitDispatchInfo) -> (r: String)
    ensures
        r@ == join_spec(variant_names(info.variants@), " | "@),
{
    let mut names: Vec<String> = Vec::new();
    let mut i: usize = 0;
    while i < info.variants.len()
        invariant
            i <= info.variants@.len(),
            strings_view(names@) == variant_names(info.variants@).take(i as int),
        decreases info.variants@.len() - i,
    {
        let ghost before = names@;
        names.push(info.variants[i].name.clone());
        i = i + 1;
        assert(names@ == before.push(info.variants@[i - 1].name));
        assert(strings_view(names@) =~= strings_view(before).push(info.variants@[i - 1].name@));
        assert(strings_view(names@) =~= variant_names(info.variants@).take(i as int));
    }
    assert(variant_names(info.variants@).take(info.variants@.len() as int) =~= variant_names(info.variants@));
    join_strings(names.as_slice(), " | ")
}

} // verus!
