//! The names that `library_definition!` derives from its entries: the type
//! tag constants, the shim macros that inject a tag into a type's metadata
//! macro, and the chain of metadata macros the library macro walks.

use vstd::prelude::*;
use crate::syntax::{chain_path, replace_last_segment, to_chain_path, SimplePath};
use crate::text::{owned, push_str, str_eq, strings_view};

verus! {

/// One entry of `library_definition!`.
pub enum LibraryEntry {
    /// A type or error with its type tag: `Path = N`.
    Tagged(SimplePath, u32),
    /// A trait implementable from C with its type tag: `trait Path = N`.
    TaggedTrait(SimplePath, u32),
    /// A trait impl bridge: `TraitPath for StructPath`.
    TraitImpl { trait_path: SimplePath, struct_path: SimplePath },
}

/// Why a library definition is refused.
#[derive(Clone, Copy, Debug, PartialEq, Eq, Structural)]
pub enum LibraryError {
    /// A type tag is 0, which is reserved for success and untyped values.
    ZeroTag,
    /// `library_definition!` requires at least one type.
    NoEntries,
}

impl LibraryError {
    /// The message reported for the error.
    pub fn message(&self) -> (r: String)
        ensures
            r@ == match self {
                LibraryError::ZeroTag => "type tag must be nonzero (0 is reserved)"@,
                LibraryError::NoEntries => "library_definition! requires at least one type"@,
            },
    {
        match self {
            LibraryError::ZeroTag => owned("type tag must be nonzero (0 is reserved)"),
            LibraryError::NoEntries => owned("library_definition! requires at least one type"),
        }
    }
}

/// The entry gives a type tag of 0.
pub open spec fn zero_tag(e: LibraryEntry) -> bool {
    match e {
        LibraryEntry::Tagged(_, t) => t == 0,
        LibraryEntry::TaggedTrait(_, t) => t == 0,
        LibraryEntry::TraitImpl { .. } => false,
    }
}

/// Some entry gives a type tag of 0.
pub open spec fn has_zero_tag(es: Seq<LibraryEntry>) -> bool {
    exists|i: int| 0 <= i < es.len() && zero_tag(#[trigger] es[i])
}

fn find_zero_tag(entries: &[LibraryEntry]) -> (r: bool)
    ensures
        r == has_zero_tag(entries@),
{
    let mut i: usize = 0;
    while i < entries.len()
        invariant
            i <= entries@.len(),
            forall|j: int| 0 <= j < i ==> !zero_tag(#[trigger] entries@[j]),
        decreases entries@.len() - i,
    {
        let z = match &entries[i] {
            LibraryEntry::Tagged(_, t) => *t == 0,
            LibraryEntry::TaggedTrait(_, t) => *t == 0,
            LibraryEntry::TraitImpl { .. } => false,
        };
        if z {
            assert(zero_tag(entries@[i as int]));
            return true;
        }
        i = i + 1;
    }
    false
}

/// What the library macro is built from.
pub struct LibraryPlan {
    /// `(name, tag)` of each type tag constant, e.g. `__ffier_type_tag_Widget`.
    pub tag_consts: Vec<(String, u32)>,
    /// The shim macro of each tagged entry.
    pub shim_names: Vec<String>,
    /// The metadata macro path of each entry, in order, as the chain walks
    /// them.
    pub chain_paths: Vec<SimplePath>,
    /// External trait paths to re-export, with their vtable structs.
    pub trait_reexports: Vec<SimplePath>,
    /// The name of the library's entry macro, `__ffier_{prefix}_library`.
    pub entry_macro_name: String,
}

/// Every path of the entry has at least one segment.
pub open spec fn entry_well_formed(e: LibraryEntry) -> bool {
    match e {
        LibraryEntry::Tagged(p, _) => p.segments@.len() > 0,
        LibraryEntry::TaggedTrait(p, _) => p.segments@.len() > 0,
        LibraryEntry::TraitImpl { trait_path, struct_path } => trait_path.segments@.len() > 0
            && struct_path.segments@.len() > 0,
    }
}

/// The identifiers of a path.
pub open spec fn segs(p: SimplePath) -> Seq<Seq<char>> {
    strings_view(p.segments@)
}

/// The last identifier of a path.
pub open spec fn last_ident(p: SimplePath) -> Seq<char> {
    segs(p).last()
}

/// The shim macro of a tagged entry: `__ffier_tagged_{prefix}_{name}`.
pub open spec fn shim_name(prefix: Seq<char>, name: Seq<char>) -> Seq<char> {
    "__ffier_tagged_"@ + prefix + "_"@ + name
}

/// The metadata alias of a trait impl, next to the struct:
/// `__ffier_meta_{Trait}_for_{Struct}`.
pub open spec fn trait_impl_alias(trait_name: Seq<char>, struct_name: Seq<char>) -> Seq<char> {
    "__ffier_meta_"@ + trait_name + "_for_"@ + struct_name
}

/// The metadata macro path the chain uses for an entry.
pub open spec fn entry_chain_path(prefix: Seq<char>, e: LibraryEntry) -> Seq<Seq<char>> {
    match e {
        LibraryEntry::Tagged(p, _) => seq!["$crate"@, shim_name(prefix, last_ident(p))],
        LibraryEntry::TaggedTrait(p, _) => seq!["$crate"@, shim_name(prefix, last_ident(p))],
        LibraryEntry::TraitImpl { trait_path, struct_path } => chain_path(
            segs(struct_path).drop_last().push(trait_impl_alias(last_ident(trait_path), last_ident(struct_path))),
        ),
    }
}

/// A trait path outside the library crate: more than one segment, not
/// starting with `crate`.
pub open spec fn is_external(p: SimplePath) -> bool {
    segs(p).len() > 1 && segs(p)[0] != "crate"@
}

/// The paths an entry re-exports at the library root: an external trait
/// and its vtable struct `{Trait}Vtable`.
pub open spec fn entry_reexports(e: LibraryEntry) -> Seq<Seq<Seq<char>>> {
    match e {
        LibraryEntry::TaggedTrait(p, _) => if is_external(p) {
            seq![segs(p), segs(p).drop_last().push(last_ident(p) + "Vtable"@)]
        } else {
            Seq::empty()
        },
        _ => Seq::empty(),
    }
}

/// The tag constant of an entry, for a tagged type.
pub open spec fn entry_tag_consts(e: LibraryEntry) -> Seq<(Seq<char>, u32)> {
    match e {
        LibraryEntry::Tagged(p, tag) => seq![("__ffier_type_tag_"@ + last_ident(p), tag)],
        _ => Seq::empty(),
    }
}

/// The shim macro of an entry, for a tagged type or trait.
pub open spec fn entry_shims(prefix: Seq<char>, e: LibraryEntry) -> Seq<Seq<char>> {
    match e {
        LibraryEntry::Tagged(p, _) => seq![shim_name(prefix, last_ident(p))],
        LibraryEntry::TaggedTrait(p, _) => seq![shim_name(prefix, last_ident(p))],
        _ => Seq::empty(),
    }
}

/// The views of a list of paths.
pub open spec fn paths_segs(ps: Seq<SimplePath>) -> Seq<Seq<Seq<char>>> {
    ps.map_values(|p: SimplePath| segs(p))
}

/// The views of a list of tag constants.
pub open spec fn tags_view(ts: Seq<(String, u32)>) -> Seq<(Seq<char>, u32)> {
    ts.map_values(|t: (String, u32)| (t.0@, t.1))
}

/// The chain paths of all entries, in order.
pub open spec fn chain_paths_of(prefix: Seq<char>, es: Seq<LibraryEntry>) -> Seq<Seq<Seq<char>>>
    decreases es.len(),
{
    if es.len() == 0 {
        Seq::empty()
    } else {
        chain_paths_of(prefix, es.drop_last()).push(entry_chain_path(prefix, es.last()))
    }
}

/// The tag constants of all entries, in order.
pub open spec fn tag_consts_of(es: Seq<LibraryEntry>) -> Seq<(Seq<char>, u32)>
    decreases es.len(),
{
    if es.len() == 0 {
        Seq::empty()
    } else {
        tag_consts_of(es.drop_last()) + entry_tag_consts(es.last())
    }
}

/// The shim macros of all entries, in order.
pub open spec fn shims_of(prefix: Seq<char>, es: Seq<LibraryEntry>) -> Seq<Seq<char>>
    decreases es.len(),
{
    if es.len() == 0 {
        Seq::empty()
    } else {
        shims_of(prefix, es.drop_last()) + entry_shims(prefix, es.last())
    }
}

/// The re-exported trait paths of all entries, in order.
pub open spec fn reexports_of(es: Seq<LibraryEntry>) -> Seq<Seq<Seq<char>>>
    decreases es.len(),
{
    if es.len() == 0 {
        Seq::empty()
    } else {
        reexports_of(es.drop_last()) + entry_reexports(es.last())
    }
}

fn shim_name_of(prefix: &str, name: &str) -> (r: String)
    ensures
        r@ == shim_name(prefix@, name@),
{
    let mut s = owned("__ffier_tagged_");
    push_str(&mut s, prefix);
    push_str(&mut s, "_");
    push_str(&mut s, name);
    s
}

fn path_of(parts: Vec<String>) -> (r: SimplePath)
    ensures
        segs(r) == strings_view(parts@),
{
    SimplePath { segments: parts }
}

fn last_of(p: &SimplePath) -> (r: &String)
    requires
        p.segments@.len() > 0,
    ensures
        r@ == last_ident(*p),
{
    let n = p.segments.len();
    &p.segments[n - 1]
}

fn copy_path(p: &SimplePath) -> (r: SimplePath)
    ensures
        segs(r) == segs(*p),
{
    let mut out: Vec<String> = Vec::new();
    let mut i: usize = 0;
    while i < p.segments.len()
        invariant
            i <= p.segments@.len(),
            strings_view(out@) == segs(*p).take(i as int),
        decreases p.segments@.len() - i,
    {
        let ghost before = strings_view(out@);
        let s = p.segments[i].clone();
        out.push(s);
        assert(strings_view(out@) =~= before.push(s@));
        i = i + 1;
        assert(strings_view(out@) =~= segs(*p).take(i as int));
    }
    assert(segs(*p).take(segs(*p).len() as int) =~= segs(*p));
    SimplePath { segments: out }
}

/// The names `library_definition!` derives from its entries.
#[verifier::loop_isolation(false)]
pub fn plan_library(prefix: &str, entries: &[LibraryEntry]) -> (r: Result<LibraryPlan, LibraryError>)
    requires
        forall|i: int| 0 <= i < entries@.len() ==> entry_well_formed(#[trigger] entries@[i]),
    ensures
        match r {
            Ok(plan) => {
                &&& entries@.len() > 0
                &&& !has_zero_tag(entries@)
                &&& tags_view(plan.tag_consts@) == tag_consts_of(entries@)
                &&& strings_view(plan.shim_names@) == shims_of(prefix@, entries@)
                &&& paths_segs(plan.chain_paths@) == chain_paths_of(prefix@, entries@)
                &&& paths_segs(plan.trait_reexports@) == reexports_of(entries@)
                &&& plan.entry_macro_name@ == "__ffier_"@ + prefix@ + "_library"@
            },
            Err(e) => if has_zero_tag(entries@) {
                e == LibraryError::ZeroTag
            } else {
                e == LibraryError::NoEntries && entries@.len() == 0
            },
        },
{
    if find_zero_tag(entries) {
        return Err(LibraryError::ZeroTag);
    }
    let mut tag_consts: Vec<(String, u32)> = Vec::new();
    let mut shim_names: Vec<String> = Vec::new();
    let mut chain_paths: Vec<SimplePath> = Vec::new();
    let mut trait_reexports: Vec<SimplePath> = Vec::new();
    let ghost es = entries@;
    assert(es.take(0) =~= Seq::<LibraryEntry>::empty());
    assert(tags_view(tag_consts@) =~= Seq::<(Seq<char>, u32)>::empty());
    assert(strings_view(shim_names@) =~= Seq::<Seq<char>>::empty());
    assert(paths_segs(chain_paths@) =~= Seq::<Seq<Seq<char>>>::empty());
    assert(paths_segs(trait_reexports@) =~= Seq::<Seq<Seq<char>>>::empty());
    let mut i: usize = 0;
    while i < entries.len()
        invariant
            i <= es.len(),
            es == entries@,
            tags_view(tag_consts@) == tag_consts_of(es.take(i as int)),
            strings_view(shim_names@) == shims_of(prefix@, es.take(i as int)),
            paths_segs(chain_paths@) == chain_paths_of(prefix@, es.take(i as int)),
            paths_segs(trait_reexports@) == reexports_of(es.take(i as int)),
        decreases es.len() - i,
    {
        let e = &entries[i];
        assert(entry_well_formed(*e));
        let ghost t0 = tags_view(tag_consts@);
        let ghost s0 = strings_view(shim_names@);
        let ghost c0 = paths_segs(chain_paths@);
        let ghost x0 = paths_segs(trait_reexports@);
        match e {
            LibraryEntry::Tagged(path, tag) => {
                let last = last_of(path);
                let mut cname = owned("__ffier_type_tag_");
                push_str(&mut cname, last.as_str());
                let ghost tv = (cname@, *tag);
                tag_consts.push((cname, *tag));
                assert(tags_view(tag_consts@) =~= t0 + seq![tv]);
                let shim = shim_name_of(prefix, last.as_str());
                let ghost sv = shim@;
                shim_names.push(shim.clone());
                assert(strings_view(shim_names@) =~= s0 + seq![sv]);
                let mut parts: Vec<String> = Vec::new();
                parts.push(owned("$crate"));
                parts.push(shim);
                let cp = path_of(parts);
                assert(segs(cp) =~= seq!["$crate"@, sv]);
                chain_paths.push(cp);
                assert(paths_segs(chain_paths@) =~= c0.push(segs(cp)));
                assert(paths_segs(trait_reexports@) =~= x0 + Seq::<Seq<Seq<char>>>::empty());
            },
            LibraryEntry::TaggedTrait(path, _tag) => {
                let last = last_of(path);
                let shim = shim_name_of(prefix, last.as_str());
                let ghost sv = shim@;
                shim_names.push(shim.clone());
                assert(strings_view(shim_names@) =~= s0 + seq![sv]);
                let mut parts: Vec<String> = Vec::new();
                parts.push(owned("$crate"));
                parts.push(shim);
                let cp = path_of(parts);
                assert(segs(cp) =~= seq!["$crate"@, sv]);
                chain_paths.push(cp);
                assert(paths_segs(chain_paths@) =~= c0.push(segs(cp)));
                let external = path.segments.len() > 1 && !str_eq(path.segments[0].as_str(), "crate");
                if external {
                    let tp = copy_path(path);
                    let mut vname = last.clone();
                    push_str(&mut vname, "Vtable");
                    let vp = replace_last_segment(path, vname.as_str());
                    let ghost tv = segs(tp);
                    let ghost vv = segs(vp);
                    trait_reexports.push(tp);
                    trait_reexports.push(vp);
                    assert(paths_segs(trait_reexports@) =~= x0 + seq![tv, vv]);
                } else {
                    assert(paths_segs(trait_reexports@) =~= x0 + Seq::<Seq<Seq<char>>>::empty());
                }
                assert(tags_view(tag_consts@) =~= t0 + Seq::<(Seq<char>, u32)>::empty());
            },
            LibraryEntry::TraitImpl { trait_path, struct_path } => {
                let tname = last_of(trait_path);
                let sname = last_of(struct_path);
                let mut alias = owned("__ffier_meta_");
                push_str(&mut alias, tname.as_str());
                push_str(&mut alias, "_for_");
                push_str(&mut alias, sname.as_str());
                let ap = replace_last_segment(struct_path, alias.as_str());
                assert(strings_view(ap.segments@).len() == ap.segments@.len());
                let cp = to_chain_path(&ap);
                chain_paths.push(cp);
                assert(paths_segs(chain_paths@) =~= c0.push(segs(cp)));
                assert(tags_view(tag_consts@) =~= t0 + Seq::<(Seq<char>, u32)>::empty());
                assert(strings_view(shim_names@) =~= s0 + Seq::<Seq<char>>::empty());
                assert(paths_segs(trait_reexports@) =~= x0 + Seq::<Seq<Seq<char>>>::empty());
            },
        }
        i = i + 1;
        assert(es.take(i as int).drop_last() =~= es.take(i - 1));
        assert(es.take(i as int).last() == es[i - 1]);
    }
    assert(es.take(es.len() as int) =~= es);
    if chain_paths.len() == 0 {
        return Err(LibraryError::NoEntries);
    }
    let mut entry_macro_name = owned("__ffier_");
    push_str(&mut entry_macro_name, prefix);
    push_str(&mut entry_macro_name, "_library");
    Ok(LibraryPlan { tag_consts, shim_names, chain_paths, trait_reexports, entry_macro_name })
}

} // verus!
