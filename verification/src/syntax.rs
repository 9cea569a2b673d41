//! Rust types as the annotation macros read them, and the questions the
//! macros ask of a type: is it `&[&str]`, a `Result`, a primitive, an
//! `impl Trait`, a return of `Self`?

use vstd::prelude::*;
use crate::text::{owned, push_str, str_eq, strings_view};

verus! {

// ---------------------------------------------------------------------------
// The type model
// ---------------------------------------------------------------------------

/// A Rust type.
pub enum TypeExpr {
    /// A path such as `std::result::Result<T, E>`.
    Path(TypePath),
    /// `&'a mut T`.
    Reference(TypeReference),
    /// `[T]`.
    Slice(Box<TypeExpr>),
    /// `(A, B)`; `()` is the unit type.
    Tuple(Vec<TypeExpr>),
    /// `impl A + B`.
    ImplTrait(Vec<TypeBound>),
    /// Any other type, as its token text without spaces.
    Other(String),
}

/// A path: its segments, separated by `::`.
pub struct TypePath {
    pub segments: Vec<PathSegment>,
}

/// One segment of a path, with its generic arguments.
pub struct PathSegment {
    pub ident: String,
    pub arguments: PathArguments,
}

/// The arguments of a path segment.
pub enum PathArguments {
    /// No arguments.
    Bare,
    /// `<'a, T>`.
    AngleBracketed(Vec<GenericArgument>),
    /// `(A, B) -> C`, as its token text without spaces.
    Parenthesized(String),
}

/// One generic argument.
pub enum GenericArgument {
    /// A lifetime, without its `'`.
    Lifetime(String),
    Type(TypeExpr),
    /// Any other argument, as its token text without spaces.
    Other(String),
}

/// A reference type.
pub struct TypeReference {
    /// The lifetime, without its `'`.
    pub lifetime: Option<String>,
    pub mutable: bool,
    pub elem: Box<TypeExpr>,
}

/// A bound of an `impl Trait` type.
pub enum TypeBound {
    Trait(TypePath),
    /// Any other bound (a lifetime, `?Sized`, ...), as its token text.
    Other(String),
}

// ---------------------------------------------------------------------------
// Simple classifications
// ---------------------------------------------------------------------------

/// The path is the single identifier `name` (no arguments).
pub open spec fn path_is_ident(p: TypePath, name: Seq<char>) -> bool {
    &&& p.segments@.len() == 1
    &&& p.segments@[0].ident@ == name
    &&& p.segments@[0].arguments is Bare
}

pub(crate) fn is_ident(p: &TypePath, name: &str) -> (r: bool)
    ensures
        r == path_is_ident(*p, name@),
{
    if p.segments.len() != 1 {
        return false;
    }
    let seg = &p.segments[0];
    match &seg.arguments {
        PathArguments::Bare => str_eq(seg.ident.as_str(), name),
        _ => false,
    }
}

/// `&[&str]`: a reference to a slice of string references.
pub open spec fn is_str_slice_spec(ty: TypeExpr) -> bool {
    &&& ty matches TypeExpr::Reference(r)
    &&& *r.elem matches TypeExpr::Slice(elem)
    &&& *elem matches TypeExpr::Reference(inner)
    &&& *inner.elem matches TypeExpr::Path(p)
    &&& path_is_ident(p, "str"@)
}

/// Detects `&[&str]`, a slice of string references.
pub fn is_str_slice(ty: &TypeExpr) -> (r: bool)
    ensures
        r == is_str_slice_spec(*ty),
{
    let TypeExpr::Reference(r) = ty else {
        return false;
    };
    let TypeExpr::Slice(elem) = &*r.elem else {
        return false;
    };
    let TypeExpr::Reference(inner) = &**elem else {
        return false;
    };
    match &*inner.elem {
        TypeExpr::Path(p) => is_ident(p, "str"),
        _ => false,
    }
}

/// The unit type `()`.
pub open spec fn is_unit_type_spec(ty: TypeExpr) -> bool {
    ty matches TypeExpr::Tuple(elems) && elems@.len() == 0
}

/// Detects the unit type `()`.
pub fn is_unit_type(ty: &TypeExpr) -> (r: bool)
    ensures
        r == is_unit_type_spec(*ty),
{
    match ty {
        TypeExpr::Tuple(elems) => elems.len() == 0,
        _ => false,
    }
}

/// The identifier of the last segment of a path type; `Error` for other
/// types and for an empty path.
pub open spec fn type_ident_name_spec(ty: TypeExpr) -> Seq<char> {
    match ty {
        TypeExpr::Path(p) => if p.segments@.len() > 0 {
            p.segments@.last().ident@
        } else {
            "Error"@
        },
        _ => "Error"@,
    }
}

/// The name of a type: the last identifier of its path.
pub fn type_ident_name(ty: &TypeExpr) -> (r: String)
    ensures
        r@ == type_ident_name_spec(*ty),
{
    match ty {
        TypeExpr::Path(p) => {
            let n = p.segments.len();
            if n > 0 {
                p.segments[n - 1].ident.clone()
            } else {
                owned("Error")
            }
        },
        _ => owned("Error"),
    }
}

/// The primitive types passed to C as they are.
pub open spec fn primitive_names() -> Seq<Seq<char>> {
    seq![
        "i8"@, "i16"@, "i32"@, "i64"@, "u8"@, "u16"@, "u32"@, "u64"@, "isize"@, "usize"@,
        "bool"@, "f32"@, "f64"@,
    ]
}

/// A path of one segment naming a primitive type (its arguments are not
/// looked at).
pub open spec fn is_primitive_spec(ty: TypeExpr) -> bool {
    &&& ty matches TypeExpr::Path(p)
    &&& p.segments@.len() == 1
    &&& primitive_names().contains(p.segments@[0].ident@)
}

fn is_primitive_name(name: &str) -> (r: bool)
    ensures
        r == primitive_names().contains(name@),
{
    let names: [&str; 13] = [
        "i8", "i16", "i32", "i64", "u8", "u16", "u32", "u64", "isize", "usize", "bool", "f32", "f64",
    ];
    let ghost pv = primitive_names();
    assert(names@.map_values(|s: &str| s@) =~= pv);
    let mut i: usize = 0;
    while i < 13
        invariant
            i <= 13,
            names@.map_values(|s: &str| s@) == pv,
            pv == primitive_names(),
            forall|j: int| 0 <= j < i ==> pv[j] != name@,
        decreases 13 - i,
    {
        assert(pv[i as int] == names@[i as int]@);
        if str_eq(name, names[i]) {
            assert(pv.contains(name@));
            return true;
        }
        i = i + 1;
    }
    assert(!pv.contains(name@)) by {
        if pv.contains(name@) {
            let k = choose|k: int| 0 <= k < pv.len() && pv[k] == name@;
            assert(pv[k] != name@);
        }
    }
    false
}

/// Detects a primitive type.
pub fn is_primitive(ty: &TypeExpr) -> (r: bool)
    ensures
        r == is_primitive_spec(*ty),
{
    let TypeExpr::Path(p) = ty else {
        return false;
    };
    if p.segments.len() != 1 {
        return false;
    }
    is_primitive_name(p.segments[0].ident.as_str())
}

// ---------------------------------------------------------------------------
// Results and `impl Trait`
// ---------------------------------------------------------------------------

/// The type held by a generic argument, if it is a type.
pub open spec fn arg_type(a: GenericArgument) -> Option<TypeExpr> {
    match a {
        GenericArgument::Type(t) => Some(t),
        _ => None,
    }
}

/// For a path type whose last segment is `Result<T, E, ..>` with types as
/// its first two arguments: `T` and `E`.
pub open spec fn result_args(ty: TypeExpr) -> Option<(TypeExpr, TypeExpr)> {
    match ty {
        TypeExpr::Path(p) => if p.segments@.len() == 0 || p.segments@.last().ident@ != "Result"@ {
            None
        } else {
            match p.segments@.last().arguments {
                PathArguments::AngleBracketed(args) => if args@.len() >= 2 && arg_type(args@[0]) is Some
                    && arg_type(args@[1]) is Some {
                    Some((arg_type(args@[0])->0, arg_type(args@[1])->0))
                } else {
                    None
                },
                _ => None,
            }
        },
        _ => None,
    }
}

/// The ok and error types of a `Result` type.
pub fn extract_result_types(ty: &TypeExpr) -> (r: Option<(&TypeExpr, &TypeExpr)>)
    ensures
        match r {
            Some((ok, err)) => result_args(*ty) == Some((*ok, *err)),
            None => result_args(*ty) is None,
        },
{
    let TypeExpr::Path(p) = ty else {
        return None;
    };
    let n = p.segments.len();
    if n == 0 {
        return None;
    }
    let last = &p.segments[n - 1];
    if !str_eq(last.ident.as_str(), "Result") {
        return None;
    }
    let PathArguments::AngleBracketed(args) = &last.arguments else {
        return None;
    };
    if args.len() < 2 {
        return None;
    }
    let GenericArgument::Type(ok_ty) = &args[0] else {
        return None;
    };
    let GenericArgument::Type(err_ty) = &args[1] else {
        return None;
    };
    Some((ok_ty, err_ty))
}

/// The lifetimes among generic arguments, without their `'`, in order.
pub open spec fn arg_lifetimes(args: Seq<GenericArgument>) -> Seq<Seq<char>>
    decreases args.len(),
{
    if args.len() == 0 {
        Seq::empty()
    } else {
        arg_lifetimes(args.drop_last()) + match args.last() {
            GenericArgument::Lifetime(l) => seq![l@],
            _ => Seq::empty(),
        }
    }
}

/// The lifetime arguments of a path segment.
pub open spec fn segment_lifetimes(seg: PathSegment) -> Seq<Seq<char>> {
    match seg.arguments {
        PathArguments::AngleBracketed(args) => arg_lifetimes(args@),
        _ => Seq::empty(),
    }
}

/// The first trait bound from position `i` on that has a path: its last
/// identifier and lifetime arguments.
pub open spec fn bounds_trait_info(bs: Seq<TypeBound>, i: int) -> Option<(Seq<char>, Seq<Seq<char>>)>
    decreases bs.len() - i,
{
    if i < 0 || i >= bs.len() {
        None
    } else {
        match bs[i] {
            TypeBound::Trait(p) => if p.segments@.len() > 0 {
                Some((p.segments@.last().ident@, segment_lifetimes(p.segments@.last())))
            } else {
                bounds_trait_info(bs, i + 1)
            },
            TypeBound::Other(_) => bounds_trait_info(bs, i + 1),
        }
    }
}

/// For `impl Trait<'a, 'b>`: the trait's name and lifetime arguments.
pub open spec fn impl_trait_info(ty: TypeExpr) -> Option<(Seq<char>, Seq<Seq<char>>)> {
    match ty {
        TypeExpr::ImplTrait(bs) => bounds_trait_info(bs@, 0),
        _ => None,
    }
}

fn lifetimes_of(seg: &PathSegment) -> (r: Vec<String>)
    ensures
        strings_view(r@) == segment_lifetimes(*seg),
{
    let mut out: Vec<String> = Vec::new();
    match &seg.arguments {
        PathArguments::AngleBracketed(args) => {
            let mut k: usize = 0;
            assert(args@.take(0) =~= Seq::<GenericArgument>::empty());
            assert(strings_view(out@) =~= Seq::<Seq<char>>::empty());
            while k < args.len()
                invariant
                    k <= args@.len(),
                    strings_view(out@) == arg_lifetimes(args@.take(k as int)),
                decreases args@.len() - k,
            {
                let ghost before = strings_view(out@);
                match &args[k] {
                    GenericArgument::Lifetime(l) => {
                        out.push(l.clone());
                        assert(strings_view(out@) =~= before + seq![l@]);
                    },
                    _ => {
                        assert(strings_view(out@) =~= before + Seq::<Seq<char>>::empty());
                    },
                }
                k = k + 1;
                assert(args@.take(k as int).drop_last() =~= args@.take(k - 1));
                assert(args@.take(k as int).last() == args@[k - 1]);
            }
            assert(args@.take(args@.len() as int) =~= args@);
        },
        _ => {
            assert(strings_view(out@) =~= Seq::<Seq<char>>::empty());
        },
    }
    out
}

/// The trait name and lifetime arguments of an `impl Trait<'a, ..>` type
/// (`impl Snapshot<'a>` → `("Snapshot", ["a"])`).
#[verifier::loop_isolation(false)]
pub fn extract_impl_trait_info(ty: &TypeExpr) -> (r: Option<(String, Vec<String>)>)
    ensures
        match r {
            Some((name, lts)) => impl_trait_info(*ty) == Some((name@, strings_view(lts@))),
            None => impl_trait_info(*ty) is None,
        },
{
    let TypeExpr::ImplTrait(bounds) = ty else {
        return None;
    };
    let mut i: usize = 0;
    while i < bounds.len()
        invariant
            i <= bounds@.len(),
            bounds_trait_info(bounds@, 0) == bounds_trait_info(bounds@, i as int),
        decreases bounds@.len() - i,
    {
        match &bounds[i] {
            TypeBound::Trait(p) => {
                let n = p.segments.len();
                if n > 0 {
                    let seg = &p.segments[n - 1];
                    return Some((seg.ident.clone(), lifetimes_of(seg)));
                }
            },
            TypeBound::Other(_) => {},
        }
        i = i + 1;
    }
    None
}

// ---------------------------------------------------------------------------
// Paths of `library_definition!` and `#[reexport]`
// ---------------------------------------------------------------------------

/// A path to a type or trait as written in `library_definition!`:
/// its identifiers, separated by `::`.
pub struct SimplePath {
    pub segments: Vec<String>,
}

/// The name of the metadata alias of a type: `__ffier_meta_{name}`.
pub open spec fn meta_alias_name(name: Seq<char>) -> Seq<char> {
    "__ffier_meta_"@ + name
}

fn meta_alias_name_of(name: &str) -> (r: String)
    ensures
        r@ == meta_alias_name(name@),
{
    let mut s = owned("__ffier_meta_");
    push_str(&mut s, name);
    s
}

/// The last identifier of a path.
pub fn path_last_ident(path: &SimplePath) -> (r: &String)
    requires
        path.segments@.len() > 0,
    ensures
        *r == path.segments@.last(),
{
    let n = path.segments.len();
    &path.segments[n - 1]
}

/// The path with its last identifier replaced.
pub fn replace_last_segment(path: &SimplePath, new_last: &str) -> (r: SimplePath)
    requires
        path.segments@.len() > 0,
    ensures
        strings_view(r.segments@) == strings_view(path.segments@).drop_last().push(new_last@),
{
    let n = path.segments.len();
    let mut segs: Vec<String> = Vec::new();
    let mut i: usize = 0;
    while i + 1 < n
        invariant
            n == path.segments@.len(),
            n > 0,
            i <= n - 1,
            strings_view(segs@) == strings_view(path.segments@).take(i as int),
        decreases n - i,
    {
        let ghost before = strings_view(segs@);
        let seg = path.segments[i].clone();
        assert(seg@ == strings_view(path.segments@)[i as int]);
        segs.push(seg);
        assert(strings_view(segs@) =~= before.push(seg@));
        i = i + 1;
        assert(strings_view(segs@) =~= strings_view(path.segments@).take(i as int));
    }
    segs.push(owned(new_last));
    assert(strings_view(segs@) =~= strings_view(path.segments@).drop_last().push(new_last@));
    SimplePath { segments: segs }
}

/// The path of the metadata alias of a type or trait:
/// `a::b::Foo` → `a::b::__ffier_meta_Foo`.
pub fn meta_alias_for_type(path: &SimplePath) -> (r: SimplePath)
    requires
        path.segments@.len() > 0,
    ensures
        strings_view(r.segments@) == strings_view(path.segments@).drop_last().push(
            meta_alias_name(path.segments@.last()@),
        ),
{
    let name = path_last_ident(path);
    let alias = meta_alias_name_of(name.as_str());
    replace_last_segment(path, alias.as_str())
}

/// A metadata alias path as usable from the metadata macro chain: a bare
/// identifier and a `crate::` path are resolved through `$crate`, a path
/// into another crate is kept as it is.
pub open spec fn chain_path(segs: Seq<Seq<char>>) -> Seq<Seq<char>> {
    if segs.len() == 1 {
        seq!["$crate"@] + segs
    } else if segs[0] == "crate"@ {
        seq!["$crate"@] + segs.drop_first()
    } else {
        segs
    }
}

/// Converts a metadata alias path to one usable from the metadata macros.
pub fn to_chain_path(path: &SimplePath) -> (r: SimplePath)
    requires
        path.segments@.len() > 0,
    ensures
        strings_view(r.segments@) == chain_path(strings_view(path.segments@)),
{
    let ghost pv = strings_view(path.segments@);
    let n = path.segments.len();
    let mut segs: Vec<String> = Vec::new();
    let skip: usize = if n == 1 {
        segs.push(owned("$crate"));
        0
    } else if str_eq(path.segments[0].as_str(), "crate") {
        segs.push(owned("$crate"));
        1
    } else {
        0
    };
    let ghost head = strings_view(segs@);
    let mut i: usize = skip;
    while i < n
        invariant
            n == path.segments@.len(),
            skip <= i <= n,
            pv == strings_view(path.segments@),
            strings_view(segs@) == head + pv.subrange(skip as int, i as int),
        decreases n - i,
    {
        let ghost before = strings_view(segs@);
        let seg = path.segments[i].clone();
        assert(seg@ == pv[i as int]);
        segs.push(seg);
        assert(strings_view(segs@) =~= before.push(seg@));
        i = i + 1;
        assert(strings_view(segs@) =~= head + pv.subrange(skip as int, i as int));
    }
    assert(strings_view(segs@) =~= chain_path(pv));
    SimplePath { segments: segs }
}

/// A `use` tree.
pub enum UseTree {
    /// `ident::tree`.
    Path { ident: String, tree: Box<UseTree> },
    /// A name.
    Name(String),
    /// `name as rename`.
    Rename { ident: String, rename: String },
    /// `*`.
    Glob,
    /// `{a, b, ..}`.
    Group(Vec<UseTree>),
}

/// The metadata alias paths to re-export next to the names a `use` tree
/// imports, each under the path prefix that leads to it.  Renamed and glob
/// imports give none.
pub open spec fn reexport_paths(tree: UseTree, prefix: Seq<Seq<char>>) -> Seq<Seq<Seq<char>>>
    decreases tree,
{
    match tree {
        UseTree::Path { ident, tree: sub } => reexport_paths(*sub, prefix.push(ident@)),
        UseTree::Name(name) => seq![prefix.push(meta_alias_name(name@))],
        UseTree::Group(items) => {
            proof {
                assert(decreases_to!(tree => items));
                assert(decreases_to!(items => items@));
            }
            group_reexport_paths(items@, prefix)
        },
        UseTree::Rename { .. } => Seq::empty(),
        UseTree::Glob => Seq::empty(),
    }
}

/// The metadata alias paths of the items of a group, in order.
pub open spec fn group_reexport_paths(items: Seq<UseTree>, prefix: Seq<Seq<char>>) -> Seq<Seq<Seq<char>>>
    decreases items,
{
    if items.len() == 0 {
        Seq::empty()
    } else {
        group_reexport_paths(items.drop_last(), prefix) + reexport_paths(items.last(), prefix)
    }
}

/// The views of a list of paths.
pub open spec fn paths_view(ps: Seq<Vec<String>>) -> Seq<Seq<Seq<char>>> {
    ps.map_values(|p: Vec<String>| strings_view(p@))
}

/// Walks a `use` tree and appends the metadata alias path of every name it
/// imports.
#[verifier::loop_isolation(false)]
pub fn collect_reexport_paths(tree: &UseTree, prefix: &mut Vec<String>, out: &mut Vec<Vec<String>>)
    ensures
        strings_view(final(prefix)@) == strings_view(old(prefix)@),
        paths_view(final(out)@) == paths_view(old(out)@) + reexport_paths(*tree, strings_view(old(prefix)@)),
    decreases tree,
{
    let ghost p0 = strings_view(prefix@);
    let ghost o0 = paths_view(out@);
    match tree {
        UseTree::Path { ident, tree: sub } => {
            prefix.push(ident.clone());
            assert(strings_view(prefix@) =~= p0.push(ident@));
            collect_reexport_paths(&**sub, prefix, out);
            let ghost mid = prefix@;
            prefix.pop();
            assert(strings_view(prefix@) =~= strings_view(mid).drop_last());
            assert(strings_view(prefix@) =~= p0);
        },
        UseTree::Name(name) => {
            let mut path: Vec<String> = prefix.clone();
            assert(path@ == prefix@);
            path.push(meta_alias_name_of(name.as_str()));
            assert(strings_view(path@) =~= p0.push(meta_alias_name(name@)));
            out.push(path);
            assert(paths_view(out@) =~= o0 + reexport_paths(*tree, p0));
        },
        UseTree::Group(items) => {
            let mut i: usize = 0;
            assert(group_reexport_paths(items@.take(0), p0) =~= Seq::<Seq<Seq<char>>>::empty());
            assert(paths_view(out@) =~= o0 + group_reexport_paths(items@.take(0), p0));
            while i < items.len()
                invariant
                    i <= items@.len(),
                    strings_view(prefix@) == p0,
                    paths_view(out@) == o0 + group_reexport_paths(items@.take(i as int), p0),
                decreases items@.len() - i,
            {
                proof {
                    assert(decreases_to!(*tree => *items));
                    assert(decreases_to!(*items => items@));
                    assert(decreases_to!(items@ => items@[i as int]));
                }
                collect_reexport_paths(&items[i], prefix, out);
                i = i + 1;
                assert(items@.take(i as int).drop_last() =~= items@.take(i - 1));
                assert(paths_view(out@) =~= o0 + group_reexport_paths(items@.take(i as int), p0));
            }
            assert(items@.take(items@.len() as int) =~= items@);
        },
        UseTree::Rename { .. } => {
            assert(paths_view(out@) =~= o0 + reexport_paths(*tree, p0));
        },
        UseTree::Glob => {
            assert(paths_view(out@) =~= o0 + reexport_paths(*tree, p0));
        },
    }
}

} // verus!
