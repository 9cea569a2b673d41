//! The type registry of a library's schema: every type the generators can
//! meet, by Rust name, with what it is in C.

use vstd::prelude::*;
use crate::bridge::{type_prefix, CTypeResolver};
use crate::text::{owned, push_str, str_eq, strings_view};

verus! {

// ---------------------------------------------------------------------------
// Entries
// ---------------------------------------------------------------------------

/// A special role that a type plays for the generators.
#[derive(Clone, Copy, Debug, PartialEq, Eq, Structural)]
pub enum Blessing {
    Str,
    Bytes,
    Result,
    Path,
    VtableHandle,
    RawFd,
    BorrowedFd,
    OwnedFd,
    ErrorTrait,
    PushStr,
    ReplacesSelf,
}

/// What a type is in C.
pub enum TypeKind {
    /// A C primitive, e.g. `int32_t`.
    Primitive { c_type: String },
    /// The string slice struct.
    Str { c_name: String },
    /// The byte slice struct.
    Bytes { c_name: String },
    /// An opaque handle to an exported type.
    Handle { c_name: String },
    /// An opaque handle to an error.
    Error { c_name: String },
    /// An opaque handle to a trait object.
    Trait { c_name: String },
    /// A C-style enum with the given representation.
    Enum { alias_of: String },
    /// A bitflags type with the given representation.
    Bitflags { alias_of: String },
    /// Another name for a registered type.
    Alias { alias_of: String },
}

/// The plain-value form of a [`TypeKind`].
pub enum TypeKindView {
    Primitive(Seq<char>),
    Str(Seq<char>),
    Bytes(Seq<char>),
    Handle(Seq<char>),
    Error(Seq<char>),
    Trait(Seq<char>),
    Enum(Seq<char>),
    Bitflags(Seq<char>),
    Alias(Seq<char>),
}

impl View for TypeKind {
    type V = TypeKindView;

    open spec fn view(&self) -> TypeKindView {
        match self {
            TypeKind::Primitive { c_type } => TypeKindView::Primitive(c_type@),
            TypeKind::Str { c_name } => TypeKindView::Str(c_name@),
            TypeKind::Bytes { c_name } => TypeKindView::Bytes(c_name@),
            TypeKind::Handle { c_name } => TypeKindView::Handle(c_name@),
            TypeKind::Error { c_name } => TypeKindView::Error(c_name@),
            TypeKind::Trait { c_name } => TypeKindView::Trait(c_name@),
            TypeKind::Enum { alias_of } => TypeKindView::Enum(alias_of@),
            TypeKind::Bitflags { alias_of } => TypeKindView::Bitflags(alias_of@),
            TypeKind::Alias { alias_of } => TypeKindView::Alias(alias_of@),
        }
    }
}

/// A registered type.
pub struct TypeEntry {
    pub kind: TypeKind,
    pub type_tag: Option<u32>,
    pub bless: Option<Blessing>,
    pub lifetime_params: Vec<String>,
}

/// The plain-value form of a [`TypeEntry`].
pub struct TypeEntryView {
    pub kind: TypeKindView,
    pub type_tag: Option<u32>,
    pub bless: Option<Blessing>,
    pub lifetime_params: Seq<Seq<char>>,
}

impl View for TypeEntry {
    type V = TypeEntryView;

    open spec fn view(&self) -> TypeEntryView {
        TypeEntryView {
            kind: self.kind@,
            type_tag: self.type_tag,
            bless: self.bless,
            lifetime_params: strings_view(self.lifetime_params@),
        }
    }
}

// ---------------------------------------------------------------------------
// The registry
// ---------------------------------------------------------------------------

/// The types of a library by Rust name.
pub struct TypeRegistry {
    entries: Vec<(String, TypeEntry)>,
}

/// The map described by a list of entries (a later entry for a name wins).
pub open spec fn entries_map(es: Seq<(String, TypeEntry)>) -> Map<Seq<char>, TypeEntryView>
    decreases es.len(),
{
    if es.len() == 0 {
        Map::empty()
    } else {
        entries_map(es.drop_last()).insert(es.last().0@, es.last().1@)
    }
}

/// No name occurs twice.
pub open spec fn names_distinct(es: Seq<(String, TypeEntry)>) -> bool {
    forall|i: int, j: int| 0 <= i < j < es.len() ==> (#[trigger] es[i]).0@ != (#[trigger] es[j]).0@
}

proof fn lemma_entries_map_dom(es: Seq<(String, TypeEntry)>, name: Seq<char>)
    ensures
        entries_map(es).contains_key(name) <==> exists|i: int| 0 <= i < es.len() && (#[trigger] es[i]).0@ == name,
    decreases es.len(),
{
    if es.len() > 0 {
        lemma_entries_map_dom(es.drop_last(), name);
        if entries_map(es.drop_last()).contains_key(name) {
            let i = choose|i: int| 0 <= i < es.drop_last().len() && (#[trigger] es.drop_last()[i]).0@ == name;
            assert(es[i] == es.drop_last()[i]);
        }
        if exists|i: int| 0 <= i < es.len() && (#[trigger] es[i]).0@ == name {
            let i = choose|i: int| 0 <= i < es.len() && (#[trigger] es[i]).0@ == name;
            if i < es.len() - 1 {
                assert(es.drop_last()[i] == es[i]);
            }
        }
    }
}

proof fn lemma_entries_map_at(es: Seq<(String, TypeEntry)>, k: int)
    requires
        names_distinct(es),
        0 <= k < es.len(),
    ensures
        entries_map(es).contains_key(es[k].0@),
        entries_map(es)[es[k].0@] == es[k].1@,
    decreases es.len(),
{
    if k < es.len() - 1 {
        assert(names_distinct(es.drop_last())) by {
            assert forall|i: int, j: int| 0 <= i < j < es.drop_last().len() implies (#[trigger] es.drop_last()[i]).0@
                != (#[trigger] es.drop_last()[j]).0@ by {
                assert(es.drop_last()[i] == es[i]);
                assert(es.drop_last()[j] == es[j]);
            }
        }
        assert(es.drop_last()[k] == es[k]);
        lemma_entries_map_at(es.drop_last(), k);
        assert(es[k].0@ != es.last().0@);
    }
}

proof fn lemma_entries_map_update(es: Seq<(String, TypeEntry)>, k: int, x: (String, TypeEntry))
    requires
        names_distinct(es),
        0 <= k < es.len(),
        es[k].0@ == x.0@,
    ensures
        names_distinct(es.update(k, x)),
        entries_map(es.update(k, x)) == entries_map(es).insert(x.0@, x.1@),
    decreases es.len(),
{
    let us = es.update(k, x);
    assert(names_distinct(us)) by {
        assert forall|i: int, j: int| 0 <= i < j < us.len() implies (#[trigger] us[i]).0@ != (#[trigger] us[j]).0@ by {
            assert(es[i].0@ != es[j].0@);
        }
    }
    if k == es.len() - 1 {
        assert(us.drop_last() =~= es.drop_last());
        assert(entries_map(us) =~= entries_map(es).insert(x.0@, x.1@));
    } else {
        let d = es.drop_last();
        assert(names_distinct(d)) by {
            assert forall|i: int, j: int| 0 <= i < j < d.len() implies (#[trigger] d[i]).0@ != (#[trigger] d[j]).0@ by {
                assert(d[i] == es[i]);
                assert(d[j] == es[j]);
            }
        }
        assert(d[k] == es[k]);
        lemma_entries_map_update(d, k, x);
        assert(us.drop_last() =~= d.update(k, x));
        assert(us.last() == es.last());
        assert(es.last().0@ != x.0@) by {
            assert(es[k].0@ != es[es.len() - 1].0@);
        }
        assert(entries_map(us) =~= entries_map(es).insert(x.0@, x.1@));
    }
}

impl View for TypeRegistry {
    type V = Map<Seq<char>, TypeEntryView>;

    closed spec fn view(&self) -> Map<Seq<char>, TypeEntryView> {
        entries_map(self.entries@)
    }
}

impl TypeRegistry {
    /// The registry is well formed: no name is registered twice.
    pub closed spec fn wf(&self) -> bool {
        names_distinct(self.entries@)
    }

    /// An empty registry.
    pub fn new() -> (r: TypeRegistry)
        ensures
            r.wf(),
            r@ == Map::<Seq<char>, TypeEntryView>::empty(),
    {
        TypeRegistry { entries: Vec::new() }
    }

    fn find(&self, name: &str) -> (r: Option<usize>)
        requires
            self.wf(),
        ensures
            match r {
                Some(k) => k < self.entries@.len() && self.entries@[k as int].0@ == name@,
                None => !self@.contains_key(name@),
            },
    {
        let mut i: usize = 0;
        while i < self.entries.len()
            invariant
                i <= self.entries@.len(),
                forall|j: int| 0 <= j < i ==> (#[trigger] self.entries@[j]).0@ != name@,
            decreases self.entries@.len() - i,
        {
            if str_eq(self.entries[i].0.as_str(), name) {
                return Some(i);
            }
            i = i + 1;
        }
        proof {
            lemma_entries_map_dom(self.entries@, name@);
        }
        None
    }

    /// Registers a type, replacing any entry of the same name.
    pub fn insert(&mut self, name: String, entry: TypeEntry)
        requires
            old(self).wf(),
        ensures
            final(self).wf(),
            final(self)@ == old(self)@.insert(name@, entry@),
    {
        let ghost nv = name@;
        let ghost ev = entry@;
        match self.find(name.as_str()) {
            Some(k) => {
                proof {
                    lemma_entries_map_update(self.entries@, k as int, (name, entry));
                }
                self.entries.set(k, (name, entry));
            },
            None => {
                proof {
                    lemma_entries_map_dom(self.entries@, nv);
                }
                let ghost before = self.entries@;
                self.entries.push((name, entry));
                assert(self.entries@.drop_last() =~= before);
                assert(names_distinct(self.entries@)) by {
                    assert forall|i: int, j: int| 0 <= i < j < self.entries@.len() implies (#[trigger] self.entries@[
                        i
                    ]).0@ != (#[trigger] self.entries@[j]).0@ by {
                        if j == self.entries@.len() - 1 {
                            assert(self.entries@[i] == before[i]);
                        } else {
                            assert(self.entries@[i] == before[i]);
                            assert(self.entries@[j] == before[j]);
                        }
                    }
                }
            },
        }
    }

    /// Registers a type unless one of that name is registered already.
    pub fn insert_if_absent(&mut self, name: String, entry: TypeEntry)
        requires
            old(self).wf(),
        ensures
            final(self).wf(),
            final(self)@ == if old(self)@.contains_key(name@) {
                old(self)@
            } else {
                old(self)@.insert(name@, entry@)
            },
    {
        match self.find(name.as_str()) {
            Some(k) => {
                proof {
                    lemma_entries_map_at(self.entries@, k as int);
                }
            },
            None => {
                self.insert(name, entry);
            },
        }
    }

    /// The entry registered for a name.
    pub fn get(&self, name: &str) -> (r: Option<&TypeEntry>)
        requires
            self.wf(),
        ensures
            match r {
                Some(e) => self@.contains_key(name@) && self@[name@] == e@,
                None => !self@.contains_key(name@),
            },
    {
        match self.find(name) {
            Some(k) => {
                proof {
                    lemma_entries_map_at(self.entries@, k as int);
                }
                Some(&self.entries[k].1)
            },
            None => None,
        }
    }

    /// A type blessed with `b`, if any is; when several are, which one
    /// comes back is left open.
    pub fn blessed(&self, b: Blessing) -> (r: Option<String>)
        requires
            self.wf(),
        ensures
            match r {
                Some(n) => self@.contains_key(n@) && self@[n@].bless == Some(b),
                None => forall|k: Seq<char>| #[trigger] self@.contains_key(k) ==> self@[k].bless != Some(b),
            },
    {
        let mut i: usize = 0;
        while i < self.entries.len()
            invariant
                i <= self.entries@.len(),
                self.wf(),
                forall|j: int| 0 <= j < i ==> (#[trigger] self.entries@[j]).1.bless != Some(b),
            decreases self.entries@.len() - i,
        {
            let found = match self.entries[i].1.bless {
                Some(x) => x == b,
                None => false,
            };
            if found {
                proof {
                    lemma_entries_map_at(self.entries@, i as int);
                }
                return Some(owned(self.entries[i].0.as_str()));
            }
            i = i + 1;
        }
        proof {
            assert forall|k: Seq<char>| #[trigger] self@.contains_key(k) implies self@[k].bless != Some(b) by {
                lemma_entries_map_dom(self.entries@, k);
                let j = choose|j: int| 0 <= j < self.entries@.len() && (#[trigger] self.entries@[j]).0@ == k;
                lemma_entries_map_at(self.entries@, j);
            }
        }
        None
    }

    /// The number of registered types.
    pub fn len(&self) -> (r: usize)
        requires
            self.wf(),
        ensures
            r == self@.len(),
    {
        proof {
            lemma_entries_map_len(self.entries@);
        }
        self.entries.len()
    }
}

proof fn lemma_entries_map_len(es: Seq<(String, TypeEntry)>)
    requires
        names_distinct(es),
    ensures
        entries_map(es).dom().finite(),
        entries_map(es).len() == es.len(),
    decreases es.len(),
{
    if es.len() > 0 {
        let d = es.drop_last();
        assert(names_distinct(d)) by {
            assert forall|i: int, j: int| 0 <= i < j < d.len() implies (#[trigger] d[i]).0@ != (#[trigger] d[j]).0@ by {
                assert(d[i] == es[i]);
                assert(d[j] == es[j]);
            }
        }
        lemma_entries_map_len(d);
        lemma_entries_map_dom(d, es.last().0@);
        if entries_map(d).contains_key(es.last().0@) {
            let i = choose|i: int| 0 <= i < d.len() && (#[trigger] d[i]).0@ == es.last().0@;
            assert(d[i] == es[i]);
        }
    }
}

// ---------------------------------------------------------------------------
// Building the registry
// ---------------------------------------------------------------------------

/// A C-style enum or bitflags type: its name and representation.
pub struct EnumMeta {
    pub name: String,
    pub repr: String,
}

/// An exported type: its name, type tag and lifetime parameters.
pub struct HandleMeta {
    pub name: String,
    pub type_tag: u32,
    pub lifetimes: Vec<String>,
}

/// An error type: its name and type tag.
pub struct ErrorMeta {
    pub name: String,
    pub type_tag: u32,
}

/// A trait implementable from C: its name, type tag, blessing
/// (`error_trait` or `push_str`) and lifetime parameters.
pub struct TraitMeta {
    pub name: String,
    pub type_tag: u32,
    pub bless: Option<String>,
    pub lifetimes: Vec<String>,
}

/// A trait implementation: the trait's name and its lifetime arguments.
pub struct TraitImplMeta {
    pub trait_name: String,
    pub trait_lifetime_args: Vec<String>,
}

/// An entry without tag, blessing or lifetimes.
pub open spec fn plain_entry(kind: TypeKindView) -> TypeEntryView {
    TypeEntryView { kind, type_tag: None, bless: None, lifetime_params: Seq::empty() }
}

/// The entry of a C primitive.
pub open spec fn primitive_entry(c_type: Seq<char>) -> TypeEntryView {
    plain_entry(TypeKindView::Primitive(c_type))
}

/// An entry with a blessing.
pub open spec fn blessed_entry(kind: TypeKindView, b: Blessing, lifetimes: Seq<Seq<char>>) -> TypeEntryView {
    TypeEntryView { kind, type_tag: None, bless: Some(b), lifetime_params: lifetimes }
}

/// The primitives, string and byte slices, framework types and file
/// descriptor types every library has, with C names under the type prefix
/// `tp`.
pub open spec fn builtin_types(tp: Seq<char>) -> Map<Seq<char>, TypeEntryView> {
    Map::<Seq<char>, TypeEntryView>::empty()
        .insert("i8"@, primitive_entry("int8_t"@))
        .insert("i16"@, primitive_entry("int16_t"@))
        .insert("i32"@, primitive_entry("int32_t"@))
        .insert("i64"@, primitive_entry("int64_t"@))
        .insert("u8"@, primitive_entry("uint8_t"@))
        .insert("u16"@, primitive_entry("uint16_t"@))
        .insert("u32"@, primitive_entry("uint32_t"@))
        .insert("u64"@, primitive_entry("uint64_t"@))
        .insert("f32"@, primitive_entry("float"@))
        .insert("f64"@, primitive_entry("double"@))
        .insert("isize"@, primitive_entry("ssize_t"@))
        .insert("usize"@, primitive_entry("size_t"@))
        .insert("bool"@, primitive_entry("bool"@))
        .insert("str"@, blessed_entry(TypeKindView::Str(tp + "Str"@), Blessing::Str, Seq::empty()))
        .insert("[u8]"@, blessed_entry(TypeKindView::Bytes(tp + "Bytes"@), Blessing::Bytes, Seq::empty()))
        .insert("FfierResult"@, blessed_entry(TypeKindView::Primitive(tp + "Result"@), Blessing::Result, Seq::empty()))
        .insert("FfierPath"@, blessed_entry(TypeKindView::Bytes(tp + "Path"@), Blessing::Path, Seq::empty()))
        .insert(
            "FfierVtableHandle"@,
            blessed_entry(TypeKindView::Primitive(tp + "VtableHandle"@), Blessing::VtableHandle, Seq::empty()),
        )
        .insert("RawFd"@, blessed_entry(TypeKindView::Primitive("int"@), Blessing::RawFd, Seq::empty()))
        .insert("BorrowedFd"@, blessed_entry(TypeKindView::Alias("RawFd"@), Blessing::BorrowedFd, seq!["fd"@]))
        .insert("OwnedFd"@, blessed_entry(TypeKindView::Alias("RawFd"@), Blessing::OwnedFd, Seq::empty()))
}

/// The enums registered in order.
pub open spec fn with_enums(m: Map<Seq<char>, TypeEntryView>, es: Seq<EnumMeta>) -> Map<Seq<char>, TypeEntryView>
    decreases es.len(),
{
    if es.len() == 0 {
        m
    } else {
        with_enums(m, es.drop_last()).insert(es.last().name@, plain_entry(TypeKindView::Enum(es.last().repr@)))
    }
}

/// The bitflags types registered in order.
pub open spec fn with_bitflags(m: Map<Seq<char>, TypeEntryView>, es: Seq<EnumMeta>) -> Map<Seq<char>, TypeEntryView>
    decreases es.len(),
{
    if es.len() == 0 {
        m
    } else {
        with_bitflags(m, es.drop_last()).insert(
            es.last().name@,
            plain_entry(TypeKindView::Bitflags(es.last().repr@)),
        )
    }
}

/// The exported types registered in order, as handles.
pub open spec fn with_handles(m: Map<Seq<char>, TypeEntryView>, tp: Seq<char>, hs: Seq<HandleMeta>) -> Map<Seq<char>, TypeEntryView>
    decreases hs.len(),
{
    if hs.len() == 0 {
        m
    } else {
        let h = hs.last();
        with_handles(m, tp, hs.drop_last()).insert(
            h.name@,
            TypeEntryView {
                kind: TypeKindView::Handle(tp + h.name@),
                type_tag: Some(h.type_tag),
                bless: None,
                lifetime_params: strings_view(h.lifetimes@),
            },
        )
    }
}

/// The error types registered in order.
pub open spec fn with_errors(m: Map<Seq<char>, TypeEntryView>, tp: Seq<char>, es: Seq<ErrorMeta>) -> Map<Seq<char>, TypeEntryView>
    decreases es.len(),
{
    if es.len() == 0 {
        m
    } else {
        let e = es.last();
        with_errors(m, tp, es.drop_last()).insert(
            e.name@,
            TypeEntryView {
                kind: TypeKindView::Error(tp + e.name@),
                type_tag: Some(e.type_tag),
                bless: None,
                lifetime_params: Seq::empty(),
            },
        )
    }
}

/// The blessing a trait annotation names.
pub open spec fn blessing_of(b: Option<Seq<char>>) -> Option<Blessing> {
    match b {
        Some(s) => if s == "error_trait"@ {
            Some(Blessing::ErrorTrait)
        } else {
            Some(Blessing::PushStr)
        },
        None => None,
    }
}

/// A trait blessing is one the generators know.
pub open spec fn known_blessing(b: Option<String>) -> bool {
    match b {
        Some(s) => s@ == "error_trait"@ || s@ == "push_str"@,
        None => true,
    }
}

/// The view of an optional string.
pub open spec fn opt_string(o: Option<String>) -> Option<Seq<char>> {
    match o {
        Some(s) => Some(s@),
        None => None,
    }
}

/// The implementable traits registered in order.
pub open spec fn with_traits(m: Map<Seq<char>, TypeEntryView>, tp: Seq<char>, ts: Seq<TraitMeta>) -> Map<Seq<char>, TypeEntryView>
    decreases ts.len(),
{
    if ts.len() == 0 {
        m
    } else {
        let t = ts.last();
        with_traits(m, tp, ts.drop_last()).insert(
            t.name@,
            TypeEntryView {
                kind: TypeKindView::Trait(tp + t.name@),
                type_tag: Some(t.type_tag),
                bless: blessing_of(opt_string(t.bless)),
                lifetime_params: strings_view(t.lifetimes@),
            },
        )
    }
}

/// The lifetime arguments other than `'static`.
pub open spec fn non_static(args: Seq<Seq<char>>) -> Seq<Seq<char>>
    decreases args.len(),
{
    if args.len() == 0 {
        Seq::empty()
    } else if args.last() == "static"@ {
        non_static(args.drop_last())
    } else {
        non_static(args.drop_last()).push(args.last())
    }
}

/// The traits met only in trait impls, registered unless already known,
/// with their non-`'static` lifetime arguments as parameters.
pub open spec fn with_trait_impls(m: Map<Seq<char>, TypeEntryView>, tp: Seq<char>, tis: Seq<TraitImplMeta>) -> Map<Seq<char>, TypeEntryView>
    decreases tis.len(),
{
    if tis.len() == 0 {
        m
    } else {
        let prev = with_trait_impls(m, tp, tis.drop_last());
        let t = tis.last();
        if prev.contains_key(t.trait_name@) {
            prev
        } else {
            prev.insert(
                t.trait_name@,
                TypeEntryView {
                    kind: TypeKindView::Trait(tp + t.trait_name@),
                    type_tag: None,
                    bless: None,
                    lifetime_params: non_static(strings_view(t.trait_lifetime_args@)),
                },
            )
        }
    }
}

/// The type registry of a library with prefix `prefix`, before unreferenced
/// types are pruned: the built-in types, then the enums, bitflags, exported
/// types, errors and implementable traits (each replacing an earlier entry
/// of the same name), then the traits of trait impls not yet known, then
/// `self_type`, the schema's name for `Self`, as `void`.
pub open spec fn registry_spec(
    prefix: Seq<char>,
    enums: Seq<EnumMeta>,
    bitflags: Seq<EnumMeta>,
    handles: Seq<HandleMeta>,
    errors: Seq<ErrorMeta>,
    traits: Seq<TraitMeta>,
    trait_impls: Seq<TraitImplMeta>,
    self_type: Seq<char>,
) -> Map<Seq<char>, TypeEntryView> {
    let tp = type_prefix(prefix);
    let m1 = with_bitflags(with_enums(builtin_types(tp), enums), bitflags);
    let m2 = with_traits(with_errors(with_handles(m1, tp, handles), tp, errors), tp, traits);
    with_trait_impls(m2, tp, trait_impls).insert(
        self_type,
        blessed_entry(TypeKindView::Primitive("void"@), Blessing::ReplacesSelf, Seq::empty()),
    )
}

fn primitive(c_type: &str) -> (r: TypeEntry)
    ensures
        r@ == primitive_entry(c_type@),
{
    let r = TypeEntry { kind: TypeKind::Primitive { c_type: owned(c_type) }, type_tag: None, bless: None, lifetime_params: Vec::new() };
    assert(r@.lifetime_params =~= Seq::<Seq<char>>::empty());
    r
}

fn blessed(kind: TypeKind, b: Blessing) -> (r: TypeEntry)
    ensures
        r@ == blessed_entry(kind@, b, Seq::empty()),
{
    let r = TypeEntry { kind, type_tag: None, bless: Some(b), lifetime_params: Vec::new() };
    assert(r@.lifetime_params =~= Seq::<Seq<char>>::empty());
    r
}

fn prefixed(tp: &String, name: &str) -> (r: String)
    ensures
        r@ == tp@ + name@,
{
    let mut s = tp.clone();
    push_str(&mut s, name);
    s
}

fn copy_strings(v: &Vec<String>) -> (r: Vec<String>)
    ensures
        strings_view(r@) == strings_view(v@),
{
    let mut out: Vec<String> = Vec::new();
    let mut i: usize = 0;
    while i < v.len()
        invariant
            i <= v@.len(),
            strings_view(out@) == strings_view(v@).take(i as int),
        decreases v@.len() - i,
    {
        let ghost before = strings_view(out@);
        let x = v[i].clone();
        out.push(x);
        assert(strings_view(out@) =~= before.push(x@));
        i = i + 1;
        assert(strings_view(out@) =~= strings_view(v@).take(i as int));
    }
    assert(strings_view(v@).take(v@.len() as int) =~= strings_view(v@));
    out
}

pub(crate) fn non_static_of(args: &Vec<String>) -> (r: Vec<String>)
    ensures
        strings_view(r@) == non_static(strings_view(args@)),
{
    let ghost av = strings_view(args@);
    let mut out: Vec<String> = Vec::new();
    let mut i: usize = 0;
    assert(av.take(0) =~= Seq::<Seq<char>>::empty());
    while i < args.len()
        invariant
            i <= args@.len(),
            av == strings_view(args@),
            strings_view(out@) == non_static(av.take(i as int)),
        decreases args@.len() - i,
    {
        let ghost before = strings_view(out@);
        if !str_eq(args[i].as_str(), "static") {
            let x = args[i].clone();
            out.push(x);
            assert(strings_view(out@) =~= before.push(x@));
        }
        i = i + 1;
        assert(av.take(i as int).drop_last() =~= av.take(i - 1));
        assert(av.take(i as int).last() == args@[i - 1]@);
    }
    assert(av.take(av.len() as int) =~= av);
    out
}

fn builtin_registry(tp: &String) -> (r: TypeRegistry)
    ensures
        r.wf(),
        r@ == builtin_types(tp@),
{
    let mut reg = TypeRegistry::new();
    reg.insert(owned("i8"), primitive("int8_t"));
    reg.insert(owned("i16"), primitive("int16_t"));
    reg.insert(owned("i32"), primitive("int32_t"));
    reg.insert(owned("i64"), primitive("int64_t"));
    reg.insert(owned("u8"), primitive("uint8_t"));
    reg.insert(owned("u16"), primitive("uint16_t"));
    reg.insert(owned("u32"), primitive("uint32_t"));
    reg.insert(owned("u64"), primitive("uint64_t"));
    reg.insert(owned("f32"), primitive("float"));
    reg.insert(owned("f64"), primitive("double"));
    reg.insert(owned("isize"), primitive("ssize_t"));
    reg.insert(owned("usize"), primitive("size_t"));
    reg.insert(owned("bool"), primitive("bool"));
    reg.insert(owned("str"), blessed(TypeKind::Str { c_name: prefixed(tp, "Str") }, Blessing::Str));
    reg.insert(owned("[u8]"), blessed(TypeKind::Bytes { c_name: prefixed(tp, "Bytes") }, Blessing::Bytes));
    reg.insert(owned("FfierResult"), blessed(TypeKind::Primitive { c_type: prefixed(tp, "Result") }, Blessing::Result));
    reg.insert(owned("FfierPath"), blessed(TypeKind::Bytes { c_name: prefixed(tp, "Path") }, Blessing::Path));
    reg.insert(
        owned("FfierVtableHandle"),
        blessed(TypeKind::Primitive { c_type: prefixed(tp, "VtableHandle") }, Blessing::VtableHandle),
    );
    reg.insert(owned("RawFd"), blessed(TypeKind::Primitive { c_type: owned("int") }, Blessing::RawFd));
    let mut fd_lifetimes: Vec<String> = Vec::new();
    fd_lifetimes.push(owned("fd"));
    let borrowed = TypeEntry {
        kind: TypeKind::Alias { alias_of: owned("RawFd") },
        type_tag: None,
        bless: Some(Blessing::BorrowedFd),
        lifetime_params: fd_lifetimes,
    };
    assert(borrowed@.lifetime_params =~= seq!["fd"@]);
    reg.insert(owned("BorrowedFd"), borrowed);
    reg.insert(owned("OwnedFd"), blessed(TypeKind::Alias { alias_of: owned("RawFd") }, Blessing::OwnedFd));
    reg
}

/// Builds the type registry of a library (see [`registry_spec`]).
#[verifier::loop_isolation(false)]
pub fn build_type_registry(
    prefix: &str,
    enums: &[EnumMeta],
    bitflags: &[EnumMeta],
    handles: &[HandleMeta],
    errors: &[ErrorMeta],
    traits: &[TraitMeta],
    trait_impls: &[TraitImplMeta],
    self_type: &str,
) -> (r: TypeRegistry)
    requires
        forall|i: int| 0 <= i < traits@.len() ==> known_blessing(#[trigger] traits@[i].bless),
    ensures
        r.wf(),
        r@ == registry_spec(prefix@, enums@, bitflags@, handles@, errors@, traits@, trait_impls@, self_type@),
{
    let resolver = CTypeResolver::new(prefix);
    let tp = &resolver.type_pfx;
    let ghost tpv = tp@;
    let mut reg = builtin_registry(tp);
    let ghost m0 = reg@;

    let mut i: usize = 0;
    while i < enums.len()
        invariant
            i <= enums@.len(),
            reg.wf(),
            reg@ == with_enums(m0, enums@.take(i as int)),
        decreases enums@.len() - i,
    {
        let e = &enums[i];
        let entry = TypeEntry { kind: TypeKind::Enum { alias_of: e.repr.clone() }, type_tag: None, bless: None, lifetime_params: Vec::new() };
        assert(entry@.lifetime_params =~= Seq::<Seq<char>>::empty());
        reg.insert(e.name.clone(), entry);
        i = i + 1;
        assert(enums@.take(i as int).drop_last() =~= enums@.take(i - 1));
    }
    assert(enums@.take(enums@.len() as int) =~= enums@);
    let ghost m1 = reg@;

    let mut i: usize = 0;
    while i < bitflags.len()
        invariant
            i <= bitflags@.len(),
            reg.wf(),
            reg@ == with_bitflags(m1, bitflags@.take(i as int)),
        decreases bitflags@.len() - i,
    {
        let e = &bitflags[i];
        let entry = TypeEntry { kind: TypeKind::Bitflags { alias_of: e.repr.clone() }, type_tag: None, bless: None, lifetime_params: Vec::new() };
        assert(entry@.lifetime_params =~= Seq::<Seq<char>>::empty());
        reg.insert(e.name.clone(), entry);
        i = i + 1;
        assert(bitflags@.take(i as int).drop_last() =~= bitflags@.take(i - 1));
    }
    assert(bitflags@.take(bitflags@.len() as int) =~= bitflags@);
    let ghost m2 = reg@;

    let mut i: usize = 0;
    while i < handles.len()
        invariant
            i <= handles@.len(),
            reg.wf(),
            reg@ == with_handles(m2, tpv, handles@.take(i as int)),
        decreases handles@.len() - i,
    {
        let h = &handles[i];
        let entry = TypeEntry {
            kind: TypeKind::Handle { c_name: resolver.handle_c_name(h.name.as_str()) },
            type_tag: Some(h.type_tag),
            bless: None,
            lifetime_params: copy_strings(&h.lifetimes),
        };
        reg.insert(h.name.clone(), entry);
        i = i + 1;
        assert(handles@.take(i as int).drop_last() =~= handles@.take(i - 1));
    }
    assert(handles@.take(handles@.len() as int) =~= handles@);
    let ghost m3 = reg@;

    let mut i: usize = 0;
    while i < errors.len()
        invariant
            i <= errors@.len(),
            reg.wf(),
            reg@ == with_errors(m3, tpv, errors@.take(i as int)),
        decreases errors@.len() - i,
    {
        let e = &errors[i];
        let entry = TypeEntry {
            kind: TypeKind::Error { c_name: resolver.handle_c_name(e.name.as_str()) },
            type_tag: Some(e.type_tag),
            bless: None,
            lifetime_params: Vec::new(),
        };
        assert(entry@.lifetime_params =~= Seq::<Seq<char>>::empty());
        reg.insert(e.name.clone(), entry);
        i = i + 1;
        assert(errors@.take(i as int).drop_last() =~= errors@.take(i - 1));
    }
    assert(errors@.take(errors@.len() as int) =~= errors@);
    let ghost m4 = reg@;

    let mut i: usize = 0;
    while i < traits.len()
        invariant
            i <= traits@.len(),
            reg.wf(),
            reg@ == with_traits(m4, tpv, traits@.take(i as int)),
        decreases traits@.len() - i,
    {
        let t = &traits[i];
        assert(known_blessing(traits@[i as int].bless));
        let bless = match &t.bless {
            Some(b) => if str_eq(b.as_str(), "error_trait") {
                Some(Blessing::ErrorTrait)
            } else {
                Some(Blessing::PushStr)
            },
            None => None,
        };
        let entry = TypeEntry {
            kind: TypeKind::Trait { c_name: resolver.handle_c_name(t.name.as_str()) },
            type_tag: Some(t.type_tag),
            bless,
            lifetime_params: copy_strings(&t.lifetimes),
        };
        reg.insert(t.name.clone(), entry);
        i = i + 1;
        assert(traits@.take(i as int).drop_last() =~= traits@.take(i - 1));
    }
    assert(traits@.take(traits@.len() as int) =~= traits@);
    let ghost m5 = reg@;

    let mut i: usize = 0;
    while i < trait_impls.len()
        invariant
            i <= trait_impls@.len(),
            reg.wf(),
            reg@ == with_trait_impls(m5, tpv, trait_impls@.take(i as int)),
        decreases trait_impls@.len() - i,
    {
        let t = &trait_impls[i];
        let entry = TypeEntry {
            kind: TypeKind::Trait { c_name: resolver.handle_c_name(t.trait_name.as_str()) },
            type_tag: None,
            bless: None,
            lifetime_params: non_static_of(&t.trait_lifetime_args),
        };
        reg.insert_if_absent(t.trait_name.clone(), entry);
        i = i + 1;
        assert(trait_impls@.take(i as int).drop_last() =~= trait_impls@.take(i - 1));
    }
    assert(trait_impls@.take(trait_impls@.len() as int) =~= trait_impls@);

    reg.insert(owned(self_type), blessed(TypeKind::Primitive { c_type: owned("void") }, Blessing::ReplacesSelf));
    reg
}

} // verus!
