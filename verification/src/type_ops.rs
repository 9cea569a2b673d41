//! Operations on whole Rust types: their token-level identity, the
//! replacement of `Self` by a concrete type, and the test for a return of
//! `Self`.

use vstd::prelude::*;
use crate::syntax::{
    is_str_slice_spec, is_unit_type_spec, result_args, type_ident_name_spec, GenericArgument, PathArguments, PathSegment, TypeBound,
    TypeExpr, TypePath, TypeReference,
};
use crate::text::str_eq;

verus! {

// ---------------------------------------------------------------------------
// The plain-value form of a type
// ---------------------------------------------------------------------------

/// A type as plain values: two types are the same tokens exactly when
/// their views are equal.
pub enum TypeView {
    Path(Seq<SegmentView>),
    Reference { lifetime: Option<Seq<char>>, mutable: bool, elem: Box<TypeView> },
    Slice(Box<TypeView>),
    Tuple(Seq<TypeView>),
    ImplTrait(Seq<BoundView>),
    Other(Seq<char>),
}

/// A path segment as plain values.
pub struct SegmentView {
    pub ident: Seq<char>,
    pub arguments: ArgsView,
}

/// Path arguments as plain values.
pub enum ArgsView {
    Bare,
    Angle(Seq<ArgView>),
    Paren(Seq<char>),
}

/// A generic argument as plain values.
pub enum ArgView {
    Lifetime(Seq<char>),
    Type(TypeView),
    Other(Seq<char>),
}

/// A bound as plain values.
pub enum BoundView {
    Trait(Seq<SegmentView>),
    Other(Seq<char>),
}

/// The view of a type.
pub open spec fn type_view(t: TypeExpr) -> TypeView
    decreases t,
{
    match t {
        TypeExpr::Path(p) => TypeView::Path(segments_view(p.segments@)),
        TypeExpr::Reference(r) => TypeView::Reference {
            lifetime: match r.lifetime {
                Some(l) => Some(l@),
                None => None,
            },
            mutable: r.mutable,
            elem: Box::new(type_view(*r.elem)),
        },
        TypeExpr::Slice(e) => TypeView::Slice(Box::new(type_view(*e))),
        TypeExpr::Tuple(es) => {
            proof {
                assert(decreases_to!(t => es));
                assert(decreases_to!(es => es@));
            }
            TypeView::Tuple(types_view(es@))
        },
        TypeExpr::ImplTrait(bs) => {
            proof {
                assert(decreases_to!(t => bs));
                assert(decreases_to!(bs => bs@));
            }
            TypeView::ImplTrait(bounds_view(bs@))
        },
        TypeExpr::Other(s) => TypeView::Other(s@),
    }
}

/// The views of types, in order.
pub open spec fn types_view(ts: Seq<TypeExpr>) -> Seq<TypeView>
    decreases ts,
{
    if ts.len() == 0 {
        Seq::empty()
    } else {
        proof {
            assert(decreases_to!(ts => ts.subrange(0, ts.len() - 1)));
        }
        types_view(ts.subrange(0, ts.len() - 1)).push(type_view(ts[ts.len() - 1]))
    }
}

/// The views of path segments, in order.
pub open spec fn segments_view(ss: Seq<PathSegment>) -> Seq<SegmentView>
    decreases ss,
{
    if ss.len() == 0 {
        Seq::empty()
    } else {
        proof {
            assert(decreases_to!(ss => ss.subrange(0, ss.len() - 1)));
        }
        segments_view(ss.subrange(0, ss.len() - 1)).push(segment_view(ss[ss.len() - 1]))
    }
}

/// The view of a path segment.
pub open spec fn segment_view(s: PathSegment) -> SegmentView
    decreases s,
{
    SegmentView {
        ident: s.ident@,
        arguments: match s.arguments {
            PathArguments::Bare => ArgsView::Bare,
            PathArguments::AngleBracketed(args) => {
                proof {
                    assert(decreases_to!(s => s.arguments));
                    assert(decreases_to!(s.arguments => args));
                    assert(decreases_to!(args => args@));
                }
                ArgsView::Angle(args_view(args@))
            },
            PathArguments::Parenthesized(t) => ArgsView::Paren(t@),
        },
    }
}

/// The views of generic arguments, in order.
pub open spec fn args_view(as_: Seq<GenericArgument>) -> Seq<ArgView>
    decreases as_,
{
    if as_.len() == 0 {
        Seq::empty()
    } else {
        proof {
            assert(decreases_to!(as_ => as_.subrange(0, as_.len() - 1)));
        }
        args_view(as_.subrange(0, as_.len() - 1)).push(arg_view(as_[as_.len() - 1]))
    }
}

/// The view of a generic argument.
pub open spec fn arg_view(a: GenericArgument) -> ArgView
    decreases a,
{
    match a {
        GenericArgument::Lifetime(l) => ArgView::Lifetime(l@),
        GenericArgument::Type(t) => ArgView::Type(type_view(t)),
        GenericArgument::Other(o) => ArgView::Other(o@),
    }
}

/// The views of bounds, in order.
pub open spec fn bounds_view(bs: Seq<TypeBound>) -> Seq<BoundView>
    decreases bs,
{
    if bs.len() == 0 {
        Seq::empty()
    } else {
        proof {
            assert(decreases_to!(bs => bs.subrange(0, bs.len() - 1)));
        }
        bounds_view(bs.subrange(0, bs.len() - 1)).push(bound_view(bs[bs.len() - 1]))
    }
}

/// The view of a bound.
pub open spec fn bound_view(b: TypeBound) -> BoundView
    decreases b,
{
    match b {
        TypeBound::Trait(p) => {
            proof {
                assert(decreases_to!(b => p));
                assert(decreases_to!(p => p.segments));
                assert(decreases_to!(p.segments => p.segments@));
            }
            BoundView::Trait(segments_view(p.segments@))
        },
        TypeBound::Other(o) => BoundView::Other(o@),
    }
}

proof fn lemma_types_view(ts: Seq<TypeExpr>)
    ensures
        types_view(ts).len() == ts.len(),
        forall|i: int| 0 <= i < ts.len() ==> #[trigger] types_view(ts)[i] == type_view(ts[i]),
    decreases ts.len(),
{
    if ts.len() > 0 {
        lemma_types_view(ts.subrange(0, ts.len() - 1));
    }
}

proof fn lemma_segments_view(ss: Seq<PathSegment>)
    ensures
        segments_view(ss).len() == ss.len(),
        forall|i: int| 0 <= i < ss.len() ==> #[trigger] segments_view(ss)[i] == segment_view(ss[i]),
    decreases ss.len(),
{
    if ss.len() > 0 {
        lemma_segments_view(ss.subrange(0, ss.len() - 1));
    }
}

proof fn lemma_args_view(as_: Seq<GenericArgument>)
    ensures
        args_view(as_).len() == as_.len(),
        forall|i: int| 0 <= i < as_.len() ==> #[trigger] args_view(as_)[i] == arg_view(as_[i]),
    decreases as_.len(),
{
    if as_.len() > 0 {
        lemma_args_view(as_.subrange(0, as_.len() - 1));
    }
}

proof fn lemma_bounds_view(bs: Seq<TypeBound>)
    ensures
        bounds_view(bs).len() == bs.len(),
        forall|i: int| 0 <= i < bs.len() ==> #[trigger] bounds_view(bs)[i] == bound_view(bs[i]),
    decreases bs.len(),
{
    if bs.len() > 0 {
        lemma_bounds_view(bs.subrange(0, bs.len() - 1));
    }
}

// ---------------------------------------------------------------------------
// Identity
// ---------------------------------------------------------------------------

fn opt_str_eq(a: &Option<String>, b: &Option<String>) -> (r: bool)
    ensures
        r == (match a {
            Some(x) => Some(x@),
            None => None::<Seq<char>>,
        } == match b {
            Some(x) => Some(x@),
            None => None::<Seq<char>>,
        }),
{
    match (a, b) {
        (Some(x), Some(y)) => str_eq(x.as_str(), y.as_str()),
        (None, None) => true,
        _ => false,
    }
}

/// Whether two types are the same tokens.
pub fn type_eq(a: &TypeExpr, b: &TypeExpr) -> (r: bool)
    ensures
        r == (type_view(*a) == type_view(*b)),
    decreases *a,
{
    match (a, b) {
        (TypeExpr::Path(p), TypeExpr::Path(q)) => {
            proof {
                assert(decreases_to!(*a => *p));
                assert(decreases_to!(*p => p.segments));
                assert(decreases_to!(p.segments => p.segments@));
            }
            segments_eq(&p.segments, &q.segments)
        },
        (TypeExpr::Reference(r), TypeExpr::Reference(t)) => {
            opt_str_eq(&r.lifetime, &t.lifetime) && r.mutable == t.mutable && type_eq(&*r.elem, &*t.elem)
        },
        (TypeExpr::Slice(x), TypeExpr::Slice(y)) => type_eq(&**x, &**y),
        (TypeExpr::Tuple(xs), TypeExpr::Tuple(ys)) => {
            proof {
                assert(decreases_to!(*a => *xs));
                assert(decreases_to!(*xs => xs@));
            }
            types_eq(xs, ys)
        },
        (TypeExpr::ImplTrait(xs), TypeExpr::ImplTrait(ys)) => {
            proof {
                assert(decreases_to!(*a => *xs));
                assert(decreases_to!(*xs => xs@));
            }
            bounds_eq(xs, ys)
        },
        (TypeExpr::Other(x), TypeExpr::Other(y)) => str_eq(x.as_str(), y.as_str()),
        _ => false,
    }
}

#[verifier::loop_isolation(false)]
fn types_eq(xs: &Vec<TypeExpr>, ys: &Vec<TypeExpr>) -> (r: bool)
    ensures
        r == (types_view(xs@) == types_view(ys@)),
    decreases xs@,
{
    proof {
        lemma_types_view(xs@);
        lemma_types_view(ys@);
    }
    if xs.len() != ys.len() {
        return false;
    }
    let mut i: usize = 0;
    while i < xs.len()
        invariant
            i <= xs@.len(),
            xs@.len() == ys@.len(),
            forall|k: int| 0 <= k < i ==> type_view(#[trigger] xs@[k]) == type_view(ys@[k]),
        decreases xs@.len() - i,
    {
        proof {
            assert(decreases_to!(xs@ => xs@[i as int]));
        }
        if !type_eq(&xs[i], &ys[i]) {
            assert(types_view(xs@)[i as int] != types_view(ys@)[i as int]);
            return false;
        }
        i = i + 1;
    }
    assert(types_view(xs@) =~= types_view(ys@));
    true
}

#[verifier::loop_isolation(false)]
fn segments_eq(xs: &Vec<PathSegment>, ys: &Vec<PathSegment>) -> (r: bool)
    ensures
        r == (segments_view(xs@) == segments_view(ys@)),
    decreases xs@,
{
    proof {
        lemma_segments_view(xs@);
        lemma_segments_view(ys@);
    }
    if xs.len() != ys.len() {
        return false;
    }
    let mut i: usize = 0;
    while i < xs.len()
        invariant
            i <= xs@.len(),
            xs@.len() == ys@.len(),
            forall|k: int| 0 <= k < i ==> segment_view(#[trigger] xs@[k]) == segment_view(ys@[k]),
        decreases xs@.len() - i,
    {
        proof {
            assert(decreases_to!(xs@ => xs@[i as int]));
        }
        if !segment_eq(&xs[i], &ys[i]) {
            assert(segments_view(xs@)[i as int] != segments_view(ys@)[i as int]);
            return false;
        }
        i = i + 1;
    }
    assert(segments_view(xs@) =~= segments_view(ys@));
    true
}

fn segment_eq(x: &PathSegment, y: &PathSegment) -> (r: bool)
    ensures
        r == (segment_view(*x) == segment_view(*y)),
    decreases *x,
{
    if !str_eq(x.ident.as_str(), y.ident.as_str()) {
        return false;
    }
    match (&x.arguments, &y.arguments) {
        (PathArguments::Bare, PathArguments::Bare) => true,
        (PathArguments::AngleBracketed(a), PathArguments::AngleBracketed(b)) => {
            proof {
                assert(decreases_to!(*x => x.arguments));
                assert(decreases_to!(x.arguments => *a));
                assert(decreases_to!(*a => a@));
            }
            args_eq(a, b)
        },
        (PathArguments::Parenthesized(a), PathArguments::Parenthesized(b)) => str_eq(a.as_str(), b.as_str()),
        _ => false,
    }
}

#[verifier::loop_isolation(false)]
fn args_eq(xs: &Vec<GenericArgument>, ys: &Vec<GenericArgument>) -> (r: bool)
    ensures
        r == (args_view(xs@) == args_view(ys@)),
    decreases xs@,
{
    proof {
        lemma_args_view(xs@);
        lemma_args_view(ys@);
    }
    if xs.len() != ys.len() {
        return false;
    }
    let mut i: usize = 0;
    while i < xs.len()
        invariant
            i <= xs@.len(),
            xs@.len() == ys@.len(),
            forall|k: int| 0 <= k < i ==> arg_view(#[trigger] xs@[k]) == arg_view(ys@[k]),
        decreases xs@.len() - i,
    {
        proof {
            assert(decreases_to!(xs@ => xs@[i as int]));
        }
        if !arg_eq(&xs[i], &ys[i]) {
            assert(args_view(xs@)[i as int] != args_view(ys@)[i as int]);
            return false;
        }
        i = i + 1;
    }
    assert(args_view(xs@) =~= args_view(ys@));
    true
}

fn arg_eq(x: &GenericArgument, y: &GenericArgument) -> (r: bool)
    ensures
        r == (arg_view(*x) == arg_view(*y)),
    decreases *x,
{
    match (x, y) {
        (GenericArgument::Lifetime(a), GenericArgument::Lifetime(b)) => str_eq(a.as_str(), b.as_str()),
        (GenericArgument::Type(a), GenericArgument::Type(b)) => type_eq(a, b),
        (GenericArgument::Other(a), GenericArgument::Other(b)) => str_eq(a.as_str(), b.as_str()),
        _ => false,
    }
}

#[verifier::loop_isolation(false)]
fn bounds_eq(xs: &Vec<TypeBound>, ys: &Vec<TypeBound>) -> (r: bool)
    ensures
        r == (bounds_view(xs@) == bounds_view(ys@)),
    decreases xs@,
{
    proof {
        lemma_bounds_view(xs@);
        lemma_bounds_view(ys@);
    }
    if xs.len() != ys.len() {
        return false;
    }
    let mut i: usize = 0;
    while i < xs.len()
        invariant
            i <= xs@.len(),
            xs@.len() == ys@.len(),
            forall|k: int| 0 <= k < i ==> bound_view(#[trigger] xs@[k]) == bound_view(ys@[k]),
        decreases xs@.len() - i,
    {
        proof {
            assert(decreases_to!(xs@ => xs@[i as int]));
        }
        if !bound_eq(&xs[i], &ys[i]) {
            assert(bounds_view(xs@)[i as int] != bounds_view(ys@)[i as int]);
            return false;
        }
        i = i + 1;
    }
    assert(bounds_view(xs@) =~= bounds_view(ys@));
    true
}

fn bound_eq(x: &TypeBound, y: &TypeBound) -> (r: bool)
    ensures
        r == (bound_view(*x) == bound_view(*y)),
    decreases *x,
{
    match (x, y) {
        (TypeBound::Trait(p), TypeBound::Trait(q)) => {
            proof {
                assert(decreases_to!(*x => *p));
                assert(decreases_to!(*p => p.segments));
                assert(decreases_to!(p.segments => p.segments@));
            }
            segments_eq(&p.segments, &q.segments)
        },
        (TypeBound::Other(a), TypeBound::Other(b)) => str_eq(a.as_str(), b.as_str()),
        _ => false,
    }
}

// ---------------------------------------------------------------------------
// Copies
// ---------------------------------------------------------------------------

fn copy_opt_string(o: &Option<String>) -> (r: Option<String>)
    ensures
        match r {
            Some(x) => Some(x@),
            None => None::<Seq<char>>,
        } == match o {
            Some(x) => Some(x@),
            None => None::<Seq<char>>,
        },
{
    match o {
        Some(x) => Some(x.clone()),
        None => None,
    }
}

/// A copy of a type.
pub fn copy_type(t: &TypeExpr) -> (out: TypeExpr)
    ensures
        type_view(out) == type_view(*t),
    decreases *t,
{
    match t {
        TypeExpr::Path(p) => {
            proof {
                assert(decreases_to!(*t => *p));
                assert(decreases_to!(*p => p.segments));
                assert(decreases_to!(p.segments => p.segments@));
            }
            TypeExpr::Path(TypePath { segments: copy_segments(&p.segments) })
        },
        TypeExpr::Reference(r) => TypeExpr::Reference(
            TypeReference { lifetime: copy_opt_string(&r.lifetime), mutable: r.mutable, elem: Box::new(copy_type(&*r.elem)) },
        ),
        TypeExpr::Slice(e) => TypeExpr::Slice(Box::new(copy_type(&**e))),
        TypeExpr::Tuple(xs) => {
            proof {
                assert(decreases_to!(*t => *xs));
                assert(decreases_to!(*xs => xs@));
            }
            TypeExpr::Tuple(copy_types(xs))
        },
        TypeExpr::ImplTrait(bs) => {
            proof {
                assert(decreases_to!(*t => *bs));
                assert(decreases_to!(*bs => bs@));
            }
            TypeExpr::ImplTrait(copy_bounds(bs))
        },
        TypeExpr::Other(o) => TypeExpr::Other(o.clone()),
    }
}

#[verifier::loop_isolation(false)]
fn copy_types(xs: &Vec<TypeExpr>) -> (out: Vec<TypeExpr>)
    ensures
        types_view(out@) == types_view(xs@),
    decreases xs@,
{
    let mut out: Vec<TypeExpr> = Vec::new();
    let mut i: usize = 0;
    while i < xs.len()
        invariant
            i <= xs@.len(),
            out@.len() == i,
            forall|k: int| 0 <= k < i ==> type_view(#[trigger] out@[k]) == type_view(xs@[k]),
        decreases xs@.len() - i,
    {
        proof {
            assert(decreases_to!(xs@ => xs@[i as int]));
        }
        let c = copy_type(&xs[i]);
        out.push(c);
        i = i + 1;
    }
    proof {
        lemma_types_view(xs@);
        lemma_types_view(out@);
    }
    assert(types_view(out@) =~= types_view(xs@));
    out
}

#[verifier::loop_isolation(false)]
fn copy_segments(xs: &Vec<PathSegment>) -> (out: Vec<PathSegment>)
    ensures
        segments_view(out@) == segments_view(xs@),
    decreases xs@,
{
    let mut out: Vec<PathSegment> = Vec::new();
    let mut i: usize = 0;
    while i < xs.len()
        invariant
            i <= xs@.len(),
            out@.len() == i,
            forall|k: int| 0 <= k < i ==> segment_view(#[trigger] out@[k]) == segment_view(xs@[k]),
        decreases xs@.len() - i,
    {
        proof {
            assert(decreases_to!(xs@ => xs@[i as int]));
        }
        let c = copy_segment(&xs[i]);
        out.push(c);
        i = i + 1;
    }
    proof {
        lemma_segments_view(xs@);
        lemma_segments_view(out@);
    }
    assert(segments_view(out@) =~= segments_view(xs@));
    out
}

fn copy_segment(x: &PathSegment) -> (out: PathSegment)
    ensures
        segment_view(out) == segment_view(*x),
    decreases *x,
{
    let arguments = match &x.arguments {
        PathArguments::Bare => PathArguments::Bare,
        PathArguments::AngleBracketed(a) => {
            proof {
                assert(decreases_to!(*x => x.arguments));
                assert(decreases_to!(x.arguments => *a));
                assert(decreases_to!(*a => a@));
            }
            PathArguments::AngleBracketed(copy_args(a))
        },
        PathArguments::Parenthesized(t) => PathArguments::Parenthesized(t.clone()),
    };
    PathSegment { ident: x.ident.clone(), arguments }
}

#[verifier::loop_isolation(false)]
fn copy_args(xs: &Vec<GenericArgument>) -> (out: Vec<GenericArgument>)
    ensures
        args_view(out@) == args_view(xs@),
    decreases xs@,
{
    let mut out: Vec<GenericArgument> = Vec::new();
    let mut i: usize = 0;
    while i < xs.len()
        invariant
            i <= xs@.len(),
            out@.len() == i,
            forall|k: int| 0 <= k < i ==> arg_view(#[trigger] out@[k]) == arg_view(xs@[k]),
        decreases xs@.len() - i,
    {
        proof {
            assert(decreases_to!(xs@ => xs@[i as int]));
        }
        let c = copy_arg(&xs[i]);
        out.push(c);
        i = i + 1;
    }
    proof {
        lemma_args_view(xs@);
        lemma_args_view(out@);
    }
    assert(args_view(out@) =~= args_view(xs@));
    out
}

fn copy_arg(x: &GenericArgument) -> (out: GenericArgument)
    ensures
        arg_view(out) == arg_view(*x),
    decreases *x,
{
    match x {
        GenericArgument::Lifetime(l) => GenericArgument::Lifetime(l.clone()),
        GenericArgument::Type(t) => GenericArgument::Type(copy_type(t)),
        GenericArgument::Other(o) => GenericArgument::Other(o.clone()),
    }
}

#[verifier::loop_isolation(false)]
fn copy_bounds(xs: &Vec<TypeBound>) -> (out: Vec<TypeBound>)
    ensures
        bounds_view(out@) == bounds_view(xs@),
    decreases xs@,
{
    let mut out: Vec<TypeBound> = Vec::new();
    let mut i: usize = 0;
    while i < xs.len()
        invariant
            i <= xs@.len(),
            out@.len() == i,
            forall|k: int| 0 <= k < i ==> bound_view(#[trigger] out@[k]) == bound_view(xs@[k]),
        decreases xs@.len() - i,
    {
        proof {
            assert(decreases_to!(xs@ => xs@[i as int]));
        }
        let c = copy_bound(&xs[i]);
        out.push(c);
        i = i + 1;
    }
    proof {
        lemma_bounds_view(xs@);
        lemma_bounds_view(out@);
    }
    assert(bounds_view(out@) =~= bounds_view(xs@));
    out
}

fn copy_bound(x: &TypeBound) -> (out: TypeBound)
    ensures
        bound_view(out) == bound_view(*x),
    decreases *x,
{
    match x {
        TypeBound::Trait(p) => {
            proof {
                assert(decreases_to!(*x => *p));
                assert(decreases_to!(*p => p.segments));
                assert(decreases_to!(p.segments => p.segments@));
            }
            TypeBound::Trait(TypePath { segments: copy_segments(&p.segments) })
        },
        TypeBound::Other(o) => TypeBound::Other(o.clone()),
    }
}

// ---------------------------------------------------------------------------
// Replacing `Self`
// ---------------------------------------------------------------------------

/// The path `Self`.
pub open spec fn is_self_path(segs: Seq<SegmentView>) -> bool {
    &&& segs.len() == 1
    &&& segs[0].ident == "Self"@
    &&& segs[0].arguments is Bare
}

/// A type with every `Self` in it (in references, slices, tuples and
/// generic arguments, at any depth) replaced by `rep`.
pub open spec fn replace_view(v: TypeView, rep: TypeView) -> TypeView
    decreases v,
{
    match v {
        TypeView::Path(segs) => if is_self_path(segs) {
            rep
        } else {
            TypeView::Path(replace_segments(segs, rep))
        },
        TypeView::Reference { lifetime, mutable, elem } => TypeView::Reference {
            lifetime,
            mutable,
            elem: Box::new(replace_view(*elem, rep)),
        },
        TypeView::Slice(e) => TypeView::Slice(Box::new(replace_view(*e, rep))),
        TypeView::Tuple(ts) => TypeView::Tuple(replace_types(ts, rep)),
        TypeView::ImplTrait(bs) => TypeView::ImplTrait(replace_bounds(bs, rep)),
        TypeView::Other(o) => TypeView::Other(o),
    }
}

/// Each type with `Self` replaced.
pub open spec fn replace_types(ts: Seq<TypeView>, rep: TypeView) -> Seq<TypeView>
    decreases ts,
{
    if ts.len() == 0 {
        Seq::empty()
    } else {
        proof {
            assert(decreases_to!(ts => ts.subrange(0, ts.len() - 1)));
        }
        replace_types(ts.subrange(0, ts.len() - 1), rep).push(replace_view(ts[ts.len() - 1], rep))
    }
}

/// Each segment with `Self` replaced in its generic arguments.
pub open spec fn replace_segments(ss: Seq<SegmentView>, rep: TypeView) -> Seq<SegmentView>
    decreases ss,
{
    if ss.len() == 0 {
        Seq::empty()
    } else {
        proof {
            assert(decreases_to!(ss => ss.subrange(0, ss.len() - 1)));
        }
        replace_segments(ss.subrange(0, ss.len() - 1), rep).push(replace_segment(ss[ss.len() - 1], rep))
    }
}

/// A segment with `Self` replaced in its generic arguments.
pub open spec fn replace_segment(s: SegmentView, rep: TypeView) -> SegmentView
    decreases s,
{
    SegmentView {
        ident: s.ident,
        arguments: match s.arguments {
            ArgsView::Angle(args) => {
                proof {
                    assert(decreases_to!(s => s.arguments));
                    assert(decreases_to!(s.arguments => args));
                }
                ArgsView::Angle(replace_args(args, rep))
            },
            other => other,
        },
    }
}

/// Each generic argument with `Self` replaced.
pub open spec fn replace_args(as_: Seq<ArgView>, rep: TypeView) -> Seq<ArgView>
    decreases as_,
{
    if as_.len() == 0 {
        Seq::empty()
    } else {
        proof {
            assert(decreases_to!(as_ => as_.subrange(0, as_.len() - 1)));
        }
        replace_args(as_.subrange(0, as_.len() - 1), rep).push(replace_arg(as_[as_.len() - 1], rep))
    }
}

/// A generic argument with `Self` replaced.
pub open spec fn replace_arg(a: ArgView, rep: TypeView) -> ArgView
    decreases a,
{
    match a {
        ArgView::Type(t) => ArgView::Type(replace_view(t, rep)),
        other => other,
    }
}

/// Each bound with `Self` replaced in its generic arguments.
pub open spec fn replace_bounds(bs: Seq<BoundView>, rep: TypeView) -> Seq<BoundView>
    decreases bs,
{
    if bs.len() == 0 {
        Seq::empty()
    } else {
        proof {
            assert(decreases_to!(bs => bs.subrange(0, bs.len() - 1)));
        }
        replace_bounds(bs.subrange(0, bs.len() - 1), rep).push(replace_bound(bs[bs.len() - 1], rep))
    }
}

/// A bound with `Self` replaced in its generic arguments.
pub open spec fn replace_bound(b: BoundView, rep: TypeView) -> BoundView
    decreases b,
{
    match b {
        BoundView::Trait(segs) => BoundView::Trait(replace_segments(segs, rep)),
        other => other,
    }
}

proof fn lemma_replace_types(xs: Seq<TypeView>, rep: TypeView)
    ensures
        replace_types(xs, rep).len() == xs.len(),
        forall|i: int| 0 <= i < xs.len() ==> #[trigger] replace_types(xs, rep)[i] == replace_view(xs[i], rep),
    decreases xs.len(),
{
    if xs.len() > 0 {
        lemma_replace_types(xs.subrange(0, xs.len() - 1), rep);
    }
}

proof fn lemma_replace_segments(xs: Seq<SegmentView>, rep: TypeView)
    ensures
        replace_segments(xs, rep).len() == xs.len(),
        forall|i: int| 0 <= i < xs.len() ==> #[trigger] replace_segments(xs, rep)[i] == replace_segment(xs[i], rep),
    decreases xs.len(),
{
    if xs.len() > 0 {
        lemma_replace_segments(xs.subrange(0, xs.len() - 1), rep);
    }
}

proof fn lemma_replace_args(xs: Seq<ArgView>, rep: TypeView)
    ensures
        replace_args(xs, rep).len() == xs.len(),
        forall|i: int| 0 <= i < xs.len() ==> #[trigger] replace_args(xs, rep)[i] == replace_arg(xs[i], rep),
    decreases xs.len(),
{
    if xs.len() > 0 {
        lemma_replace_args(xs.subrange(0, xs.len() - 1), rep);
    }
}

proof fn lemma_replace_bounds(xs: Seq<BoundView>, rep: TypeView)
    ensures
        replace_bounds(xs, rep).len() == xs.len(),
        forall|i: int| 0 <= i < xs.len() ==> #[trigger] replace_bounds(xs, rep)[i] == replace_bound(xs[i], rep),
    decreases xs.len(),
{
    if xs.len() > 0 {
        lemma_replace_bounds(xs.subrange(0, xs.len() - 1), rep);
    }
}

fn is_self_type_path(p: &TypePath) -> (r: bool)
    ensures
        r == is_self_path(segments_view(p.segments@)),
{
    proof {
        lemma_segments_view(p.segments@);
    }
    if p.segments.len() != 1 {
        return false;
    }
    match &p.segments[0].arguments {
        PathArguments::Bare => str_eq(p.segments[0].ident.as_str(), "Self"),
        _ => false,
    }
}

/// Replaces every `Self` in a type by a concrete type.
pub fn replace_self_type(t: &TypeExpr, rep: &TypeExpr) -> (out: TypeExpr)
    ensures
        type_view(out) == replace_view(type_view(*t), type_view(*rep)),
    decreases *t,
{
    match t {
        TypeExpr::Path(p) => {
            if is_self_type_path(p) {
                copy_type(rep)
            } else {
                proof {
                    assert(decreases_to!(*t => *p));
                    assert(decreases_to!(*p => p.segments));
                    assert(decreases_to!(p.segments => p.segments@));
                }
                TypeExpr::Path(TypePath { segments: replace_in_segments(&p.segments, rep) })
            }
        },
        TypeExpr::Reference(r) => TypeExpr::Reference(
            TypeReference {
                lifetime: copy_opt_string(&r.lifetime),
                mutable: r.mutable,
                elem: Box::new(replace_self_type(&*r.elem, rep)),
            },
        ),
        TypeExpr::Slice(e) => TypeExpr::Slice(Box::new(replace_self_type(&**e, rep))),
        TypeExpr::Tuple(xs) => {
            proof {
                assert(decreases_to!(*t => *xs));
                assert(decreases_to!(*xs => xs@));
            }
            TypeExpr::Tuple(replace_in_types(xs, rep))
        },
        TypeExpr::ImplTrait(bs) => {
            proof {
                assert(decreases_to!(*t => *bs));
                assert(decreases_to!(*bs => bs@));
            }
            TypeExpr::ImplTrait(replace_in_bounds(bs, rep))
        },
        TypeExpr::Other(o) => TypeExpr::Other(o.clone()),
    }
}

#[verifier::loop_isolation(false)]
fn replace_in_types(xs: &Vec<TypeExpr>, rep: &TypeExpr) -> (out: Vec<TypeExpr>)
    ensures
        types_view(out@) == replace_types(types_view(xs@), type_view(*rep)),
    decreases xs@,
{
    let mut out: Vec<TypeExpr> = Vec::new();
    let mut i: usize = 0;
    while i < xs.len()
        invariant
            i <= xs@.len(),
            out@.len() == i,
            forall|k: int| 0 <= k < i ==> type_view(#[trigger] out@[k]) == replace_view(type_view(xs@[k]), type_view(*rep)),
        decreases xs@.len() - i,
    {
        proof {
            assert(decreases_to!(xs@ => xs@[i as int]));
        }
        let c = replace_self_type(&xs[i], rep);
        out.push(c);
        i = i + 1;
    }
    proof {
        lemma_types_view(xs@);
        lemma_types_view(out@);
        lemma_replace_types(types_view(xs@), type_view(*rep));
    }
    assert(types_view(out@) =~= replace_types(types_view(xs@), type_view(*rep)));
    out
}

#[verifier::loop_isolation(false)]
fn replace_in_segments(xs: &Vec<PathSegment>, rep: &TypeExpr) -> (out: Vec<PathSegment>)
    ensures
        segments_view(out@) == replace_segments(segments_view(xs@), type_view(*rep)),
    decreases xs@,
{
    let mut out: Vec<PathSegment> = Vec::new();
    let mut i: usize = 0;
    while i < xs.len()
        invariant
            i <= xs@.len(),
            out@.len() == i,
            forall|k: int| 0 <= k < i ==> segment_view(#[trigger] out@[k]) == replace_segment(segment_view(xs@[k]), type_view(*rep)),
        decreases xs@.len() - i,
    {
        proof {
            assert(decreases_to!(xs@ => xs@[i as int]));
        }
        let c = replace_in_segment(&xs[i], rep);
        out.push(c);
        i = i + 1;
    }
    proof {
        lemma_segments_view(xs@);
        lemma_segments_view(out@);
        lemma_replace_segments(segments_view(xs@), type_view(*rep));
    }
    assert(segments_view(out@) =~= replace_segments(segments_view(xs@), type_view(*rep)));
    out
}

fn replace_in_segment(x: &PathSegment, rep: &TypeExpr) -> (out: PathSegment)
    ensures
        segment_view(out) == replace_segment(segment_view(*x), type_view(*rep)),
    decreases *x,
{
    let arguments = match &x.arguments {
        PathArguments::Bare => PathArguments::Bare,
        PathArguments::AngleBracketed(a) => {
            proof {
                assert(decreases_to!(*x => x.arguments));
                assert(decreases_to!(x.arguments => *a));
                assert(decreases_to!(*a => a@));
            }
            PathArguments::AngleBracketed(replace_in_args(a, rep))
        },
        PathArguments::Parenthesized(t) => PathArguments::Parenthesized(t.clone()),
    };
    PathSegment { ident: x.ident.clone(), arguments }
}

#[verifier::loop_isolation(false)]
fn replace_in_args(xs: &Vec<GenericArgument>, rep: &TypeExpr) -> (out: Vec<GenericArgument>)
    ensures
        args_view(out@) == replace_args(args_view(xs@), type_view(*rep)),
    decreases xs@,
{
    let mut out: Vec<GenericArgument> = Vec::new();
    let mut i: usize = 0;
    while i < xs.len()
        invariant
            i <= xs@.len(),
            out@.len() == i,
            forall|k: int| 0 <= k < i ==> arg_view(#[trigger] out@[k]) == replace_arg(arg_view(xs@[k]), type_view(*rep)),
        decreases xs@.len() - i,
    {
        proof {
            assert(decreases_to!(xs@ => xs@[i as int]));
        }
        let c = replace_in_arg(&xs[i], rep);
        out.push(c);
        i = i + 1;
    }
    proof {
        lemma_args_view(xs@);
        lemma_args_view(out@);
        lemma_replace_args(args_view(xs@), type_view(*rep));
    }
    assert(args_view(out@) =~= replace_args(args_view(xs@), type_view(*rep)));
    out
}

fn replace_in_arg(x: &GenericArgument, rep: &TypeExpr) -> (out: GenericArgument)
    ensures
        arg_view(out) == replace_arg(arg_view(*x), type_view(*rep)),
    decreases *x,
{
    match x {
        GenericArgument::Lifetime(l) => GenericArgument::Lifetime(l.clone()),
        GenericArgument::Type(t) => GenericArgument::Type(replace_self_type(t, rep)),
        GenericArgument::Other(o) => GenericArgument::Other(o.clone()),
    }
}

#[verifier::loop_isolation(false)]
fn replace_in_bounds(xs: &Vec<TypeBound>, rep: &TypeExpr) -> (out: Vec<TypeBound>)
    ensures
        bounds_view(out@) == replace_bounds(bounds_view(xs@), type_view(*rep)),
    decreases xs@,
{
    let mut out: Vec<TypeBound> = Vec::new();
    let mut i: usize = 0;
    while i < xs.len()
        invariant
            i <= xs@.len(),
            out@.len() == i,
            forall|k: int| 0 <= k < i ==> bound_view(#[trigger] out@[k]) == replace_bound(bound_view(xs@[k]), type_view(*rep)),
        decreases xs@.len() - i,
    {
        proof {
            assert(decreases_to!(xs@ => xs@[i as int]));
        }
        let c = replace_in_bound(&xs[i], rep);
        out.push(c);
        i = i + 1;
    }
    proof {
        lemma_bounds_view(xs@);
        lemma_bounds_view(out@);
        lemma_replace_bounds(bounds_view(xs@), type_view(*rep));
    }
    assert(bounds_view(out@) =~= replace_bounds(bounds_view(xs@), type_view(*rep)));
    out
}

fn replace_in_bound(x: &TypeBound, rep: &TypeExpr) -> (out: TypeBound)
    ensures
        bound_view(out) == replace_bound(bound_view(*x), type_view(*rep)),
    decreases *x,
{
    match x {
        TypeBound::Trait(p) => {
            proof {
                assert(decreases_to!(*x => *p));
                assert(decreases_to!(*p => p.segments));
                assert(decreases_to!(p.segments => p.segments@));
            }
            TypeBound::Trait(TypePath { segments: replace_in_segments(&p.segments, rep) })
        },
        TypeBound::Other(o) => TypeBound::Other(o.clone()),
    }
}

// ---------------------------------------------------------------------------
// Returns of `Self`
// ---------------------------------------------------------------------------

/// The type is `target` itself or a reference to it.
pub open spec fn is_self_return_spec(ty: TypeView, target: TypeView) -> bool {
    match ty {
        TypeView::Reference { elem, .. } => *elem == target,
        _ => ty == target,
    }
}

/// Whether a type is `target` or a reference to it.
pub fn is_self_return(ty: &TypeExpr, target: &TypeExpr) -> (r: bool)
    ensures
        r == is_self_return_spec(type_view(*ty), type_view(*target)),
{
    match ty {
        TypeExpr::Reference(r) => type_eq(&*r.elem, target),
        _ => type_eq(ty, target),
    }
}

// ---------------------------------------------------------------------------
// Questions on views
// ---------------------------------------------------------------------------

/// The type held by a generic argument view, if it is a type.
pub open spec fn arg_type_view(a: ArgView) -> Option<TypeView> {
    match a {
        ArgView::Type(t) => Some(t),
        _ => None,
    }
}

/// `Result<T, E, ..>`: `T` and `E`.
pub open spec fn result_view(v: TypeView) -> Option<(TypeView, TypeView)> {
    match v {
        TypeView::Path(segs) => if segs.len() == 0 || segs.last().ident != "Result"@ {
            None
        } else {
            match segs.last().arguments {
                ArgsView::Angle(args) => if args.len() >= 2 && arg_type_view(args[0]) is Some && arg_type_view(args[1]) is Some {
                    Some((arg_type_view(args[0])->0, arg_type_view(args[1])->0))
                } else {
                    None
                },
                _ => None,
            }
        },
        _ => None,
    }
}

/// `&[&str]`.
pub open spec fn is_str_slice_view(v: TypeView) -> bool {
    &&& v matches TypeView::Reference { elem, .. }
    &&& *elem matches TypeView::Slice(e)
    &&& *e matches TypeView::Reference { elem: inner, .. }
    &&& *inner matches TypeView::Path(segs)
    &&& segs.len() == 1 && segs[0].ident == "str"@ && segs[0].arguments is Bare
}

/// `()`.
pub open spec fn is_unit_view(v: TypeView) -> bool {
    v matches TypeView::Tuple(ts) && ts.len() == 0
}

/// The last identifier of a path type; `Error` otherwise.
pub open spec fn type_ident_view(v: TypeView) -> Seq<char> {
    match v {
        TypeView::Path(segs) => if segs.len() > 0 {
            segs.last().ident
        } else {
            "Error"@
        },
        _ => "Error"@,
    }
}

/// The questions that the syntax module answers on types have the same
/// answers on their views.
pub proof fn lemma_view_questions(t: TypeExpr)
    ensures
        match result_args(t) {
            Some((a, b)) => result_view(type_view(t)) == Some((type_view(a), type_view(b))),
            None => result_view(type_view(t)) is None,
        },
        is_str_slice_spec(t) == is_str_slice_view(type_view(t)),
        is_unit_type_spec(t) == is_unit_view(type_view(t)),
        type_ident_name_spec(t) == type_ident_view(type_view(t)),
{
    match t {
        TypeExpr::Path(p) => {
            lemma_segments_view(p.segments@);
            if p.segments@.len() > 0 {
                let last = p.segments@.last();
                match last.arguments {
                    PathArguments::AngleBracketed(args) => {
                        lemma_args_view(args@);
                    },
                    _ => {},
                }
            }
        },
        TypeExpr::Reference(r) => {
            reveal_with_fuel(type_view, 4);
            match *r.elem {
                TypeExpr::Slice(e) => {
                    match *e {
                        TypeExpr::Reference(r2) => {
                            match *r2.elem {
                                TypeExpr::Path(p) => {
                                    lemma_segments_view(p.segments@);
                                },
                                _ => {},
                            }
                        },
                        _ => {},
                    }
                },
                _ => {},
            }
        },
        TypeExpr::Tuple(ts) => {
            lemma_types_view(ts@);
        },
        _ => {},
    }
}

} // verus!
