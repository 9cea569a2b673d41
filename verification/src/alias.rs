//! The aliases under which the bridge names the types of a signature: the
//! annotation macros re-export each type that is not primitive from a
//! helper module as `_Type<n>`, once per type, so that code generated in
//! another crate can name it.

use vstd::prelude::*;
use crate::syntax::{is_ident, is_primitive, is_primitive_spec, path_is_ident, TypeExpr};
use crate::text::{decimal, owned, push_decimal, push_str};
use crate::type_ops::{copy_type, type_eq, type_view, TypeView};

verus! {

/// How the bridge writes a type.
pub enum BridgeTokens {
    /// `&'static T` or `&'static mut T`.
    Ref { mutable: bool, inner: Box<BridgeTokens> },
    /// `[T]`.
    Slice(Box<BridgeTokens>),
    /// `str`.
    Str,
    /// A primitive type, written as itself.
    Primitive(String),
    /// `$crate::<helper>::_Type<n>`: the `n`-th aliased type.
    Alias(usize),
}

/// How the bridge writes a type, as plain values.
pub enum BridgeTokensView {
    Ref { mutable: bool, inner: Box<BridgeTokensView> },
    Slice(Box<BridgeTokensView>),
    Str,
    Primitive(Seq<char>),
    Alias(usize),
}

/// The view of bridge tokens.
pub open spec fn tokens_view(b: BridgeTokens) -> BridgeTokensView
    decreases b,
{
    match b {
        BridgeTokens::Ref { mutable, inner } => BridgeTokensView::Ref { mutable, inner: Box::new(tokens_view(*inner)) },
        BridgeTokens::Slice(e) => BridgeTokensView::Slice(Box::new(tokens_view(*e))),
        BridgeTokens::Str => BridgeTokensView::Str,
        BridgeTokens::Primitive(n) => BridgeTokensView::Primitive(n@),
        BridgeTokens::Alias(i) => BridgeTokensView::Alias(i),
    }
}

/// The position of type `t` among the aliased types.
pub open spec fn alias_index(ts: Seq<TypeView>, t: TypeView) -> Option<int>
    decreases ts.len(),
{
    if ts.len() == 0 {
        None
    } else {
        match alias_index(ts.drop_last(), t) {
            Some(i) => Some(i),
            None => if ts.last() == t {
                Some(ts.len() - 1)
            } else {
                None
            },
        }
    }
}

/// The name of a primitive type (a path of one segment).
pub open spec fn primitive_name(t: TypeExpr) -> Seq<char> {
    match t {
        TypeExpr::Path(p) => p.segments@[0].ident@,
        _ => Seq::empty(),
    }
}

/// Naming a type through the aliases: a primitive is written as itself;
/// another type gets the alias it already has, or the next one.
pub open spec fn alias_step(ts: Seq<TypeView>, t: TypeExpr) -> (Seq<TypeView>, BridgeTokensView) {
    if is_primitive_spec(t) {
        (ts, BridgeTokensView::Primitive(primitive_name(t)))
    } else {
        match alias_index(ts, type_view(t)) {
            Some(i) => (ts, BridgeTokensView::Alias(i as usize)),
            None => (ts.push(type_view(t)), BridgeTokensView::Alias(ts.len() as usize)),
        }
    }
}

/// Writing a type for the bridge: references become `'static`, slices and
/// `str` are written out, and every other type is named through the
/// aliases.
pub open spec fn bridge_step(ts: Seq<TypeView>, t: TypeExpr) -> (Seq<TypeView>, BridgeTokensView)
    decreases t,
{
    match t {
        TypeExpr::Reference(r) => {
            let (ts2, inner) = bridge_step(ts, *r.elem);
            (ts2, BridgeTokensView::Ref { mutable: r.mutable, inner: Box::new(inner) })
        },
        TypeExpr::Slice(e) => {
            let (ts2, inner) = bridge_step(ts, *e);
            (ts2, BridgeTokensView::Slice(Box::new(inner)))
        },
        TypeExpr::Path(p) => if path_is_ident(p, "str"@) {
            (ts, BridgeTokensView::Str)
        } else {
            alias_step(ts, t)
        },
        _ => alias_step(ts, t),
    }
}

/// The text of bridge tokens, with `helper` the helper module.
pub open spec fn tokens_text(b: BridgeTokensView, helper: Seq<char>) -> Seq<char>
    decreases b,
{
    match b {
        BridgeTokensView::Ref { mutable, inner } => if mutable {
            "&'static mut "@ + tokens_text(*inner, helper)
        } else {
            "&'static "@ + tokens_text(*inner, helper)
        },
        BridgeTokensView::Slice(e) => "["@ + tokens_text(*e, helper) + "]"@,
        BridgeTokensView::Str => "str"@,
        BridgeTokensView::Primitive(n) => n,
        BridgeTokensView::Alias(i) => "$crate::"@ + helper + "::_Type"@ + decimal(i as nat),
    }
}

/// The name of the `n`-th alias.
pub open spec fn alias_name(n: nat) -> Seq<char> {
    "_Type"@ + decimal(n)
}

/// The types named through the aliases, each once, in the order they were
/// first named.
pub struct AliasContext {
    helper_mod: String,
    types: Vec<TypeExpr>,
}

/// The views of a list of types.
pub open spec fn types_view(ts: Seq<TypeExpr>) -> Seq<TypeView> {
    ts.map_values(|t: TypeExpr| type_view(t))
}

/// No type is aliased twice.
pub open spec fn distinct_types(ts: Seq<TypeView>) -> bool {
    forall|i: int, j: int| 0 <= i < j < ts.len() ==> ts[i] != ts[j]
}

proof fn lemma_alias_index(ts: Seq<TypeView>, t: TypeView)
    ensures
        alias_index(ts, t) matches Some(i) ==> 0 <= i < ts.len() && ts[i] == t,
        alias_index(ts, t) is None ==> forall|i: int| 0 <= i < ts.len() ==> ts[i] != t,
    decreases ts.len(),
{
    if ts.len() > 0 {
        let d = ts.drop_last();
        lemma_alias_index(d, t);
        if alias_index(ts, t) is None {
            assert forall|i: int| 0 <= i < ts.len() implies ts[i] != t by {
                if i < d.len() {
                    assert(d[i] == ts[i]);
                }
            }
        }
    }
}

proof fn lemma_alias_index_unique(ts: Seq<TypeView>, i: int)
    requires
        distinct_types(ts),
        0 <= i < ts.len(),
    ensures
        alias_index(ts, ts[i]) == Some(i),
    decreases ts.len(),
{
    if i < ts.len() - 1 {
        let d = ts.drop_last();
        assert(d[i] == ts[i]);
        assert(distinct_types(d)) by {
            assert forall|a: int, b: int| 0 <= a < b < d.len() implies d[a] != d[b] by {
                assert(d[a] == ts[a] && d[b] == ts[b]);
            }
        }
        lemma_alias_index_unique(d, i);
    } else {
        lemma_alias_index(ts.drop_last(), ts[i]);
        if alias_index(ts.drop_last(), ts[i]) is Some {
            let j = alias_index(ts.drop_last(), ts[i])->0;
            assert(ts.drop_last()[j] == ts[j]);
        }
    }
}

/// Naming a type keeps the aliased types distinct.
proof fn lemma_alias_step_distinct(ts: Seq<TypeView>, t: TypeExpr)
    requires
        distinct_types(ts),
    ensures
        distinct_types(alias_step(ts, t).0),
        ts.is_prefix_of(alias_step(ts, t).0),
{
    lemma_alias_index(ts, type_view(t));
    let ts2 = alias_step(ts, t).0;
    if ts2.len() > ts.len() {
        assert forall|a: int, b: int| 0 <= a < b < ts2.len() implies ts2[a] != ts2[b] by {
            if b < ts.len() {
                assert(ts2[a] == ts[a] && ts2[b] == ts[b]);
            } else {
                assert(ts2[a] == ts[a]);
            }
        }
    }
    assert(ts.is_prefix_of(ts2));
}

/// Writing a type keeps the aliased types distinct, and only adds types.
pub proof fn lemma_bridge_step_distinct(ts: Seq<TypeView>, t: TypeExpr)
    requires
        distinct_types(ts),
    ensures
        distinct_types(bridge_step(ts, t).0),
        ts.is_prefix_of(bridge_step(ts, t).0),
    decreases t,
{
    match t {
        TypeExpr::Reference(r) => {
            lemma_bridge_step_distinct(ts, *r.elem);
        },
        TypeExpr::Slice(e) => {
            lemma_bridge_step_distinct(ts, *e);
        },
        TypeExpr::Path(p) => {
            if !path_is_ident(p, "str"@) {
                lemma_alias_step_distinct(ts, t);
            }
        },
        _ => {
            lemma_alias_step_distinct(ts, t);
        },
    }
}

/// A type that is aliased keeps its alias: naming it again gives the same
/// alias and adds nothing.
pub proof fn lemma_alias_stable(ts: Seq<TypeView>, t: TypeExpr)
    requires
        distinct_types(ts),
    ensures
        alias_step(alias_step(ts, t).0, t) == alias_step(ts, t),
{
    lemma_alias_index(ts, type_view(t));
    if !is_primitive_spec(t) && alias_index(ts, type_view(t)) is None {
        let ts2 = ts.push(type_view(t));
        lemma_alias_step_distinct(ts, t);
        assert(ts2[ts.len() as int] == type_view(t));
        lemma_alias_index_unique(ts2, ts.len() as int);
    }
}

impl AliasContext {
    /// The aliased types, in order.
    pub closed spec fn types(&self) -> Seq<TypeView> {
        types_view(self.types@)
    }

    /// The helper module that re-exports the aliases.
    pub closed spec fn helper(&self) -> Seq<char> {
        self.helper_mod@
    }

    /// The helper module that re-exports the aliases.
    pub fn helper_mod(&self) -> (r: &str)
        ensures
            r@ == self.helper(),
    {
        self.helper_mod.as_str()
    }

    /// No type is aliased twice.
    pub open spec fn wf(&self) -> bool {
        distinct_types(self.types())
    }

    /// A context with no alias yet, for the helper module `helper_mod`.
    pub fn new(helper_mod: String) -> (r: AliasContext)
        ensures
            r.wf(),
            r.types() == Seq::<TypeView>::empty(),
            r.helper() == helper_mod@,
    {
        let r = AliasContext { helper_mod, types: Vec::new() };
        assert(r.types() =~= Seq::<TypeView>::empty());
        r
    }

    fn find(&self, ty: &TypeExpr) -> (r: Option<usize>)
        ensures
            match r {
                Some(i) => alias_index(self.types(), type_view(*ty)) == Some(i as int),
                None => alias_index(self.types(), type_view(*ty)) is None,
            },
    {
        let ghost tv = self.types();
        let mut i: usize = 0;
        assert(tv.take(0) =~= Seq::<TypeView>::empty());
        while i < self.types.len()
            invariant
                i <= self.types@.len(),
                tv == self.types(),
                alias_index(tv.take(i as int), type_view(*ty)) is None,
            decreases self.types@.len() - i,
        {
            assert(tv.take(i + 1).drop_last() =~= tv.take(i as int));
            assert(tv.take(i + 1).last() == type_view(self.types@[i as int]));
            if type_eq(&self.types[i], ty) {
                proof {
                    lemma_alias_index_stays(tv, i + 1, type_view(*ty));
                }
                return Some(i);
            }
            i = i + 1;
        }
        assert(tv.take(tv.len() as int) =~= tv);
        None
    }

    /// Names a type through the aliases: a primitive as itself, another
    /// type by its alias, which it gets when it has none yet.
    pub fn alias_tokens(&mut self, ty: &TypeExpr) -> (r: BridgeTokens)
        requires
            old(self).wf(),
        ensures
            final(self).wf(),
            final(self).helper() == old(self).helper(),
            (final(self).types(), tokens_view(r)) == alias_step(old(self).types(), *ty),
    {
        proof {
            lemma_alias_step_distinct(self.types(), *ty);
        }
        if is_primitive(ty) {
            let name = match ty {
                TypeExpr::Path(p) => p.segments[0].ident.clone(),
                _ => owned(""),
            };
            return BridgeTokens::Primitive(name);
        }
        match self.find(ty) {
            Some(i) => BridgeTokens::Alias(i),
            None => {
                let n = self.types.len();
                let ghost before = self.types();
                self.types.push(copy_type(ty));
                assert(self.types() =~= before.push(type_view(*ty)));
                BridgeTokens::Alias(n)
            },
        }
    }

    /// Writes a type for the bridge: references as `&'static`, slices and
    /// `str` as themselves, every other type through the aliases.
    pub fn bridge_tokens(&mut self, ty: &TypeExpr) -> (r: BridgeTokens)
        requires
            old(self).wf(),
        ensures
            final(self).wf(),
            final(self).helper() == old(self).helper(),
            (final(self).types(), tokens_view(r)) == bridge_step(old(self).types(), *ty),
        decreases *ty,
    {
        match ty {
            TypeExpr::Reference(r) => {
                let inner = self.bridge_tokens(&r.elem);
                BridgeTokens::Ref { mutable: r.mutable, inner: Box::new(inner) }
            },
            TypeExpr::Slice(e) => {
                let inner = self.bridge_tokens(e);
                BridgeTokens::Slice(Box::new(inner))
            },
            TypeExpr::Path(p) => {
                if is_ident(p, "str") {
                    BridgeTokens::Str
                } else {
                    self.alias_tokens(ty)
                }
            },
            _ => self.alias_tokens(ty),
        }
    }

    /// The items the helper module re-exports: each alias with its type, in
    /// order (the type as named; its lifetimes still to be erased).
    pub fn reexport_items_crate(&self) -> (r: Vec<(String, TypeExpr)>)
        ensures
            r@.len() == self.types().len(),
            forall|i: int| 0 <= i < r@.len() ==> (#[trigger] r@[i]).0@ == alias_name(i as nat) && type_view(r@[i].1) == self.types()[i],
    {
        let mut out: Vec<(String, TypeExpr)> = Vec::new();
        let mut i: usize = 0;
        while i < self.types.len()
            invariant
                i <= self.types@.len(),
                out@.len() == i,
                forall|k: int| 0 <= k < i ==> (#[trigger] out@[k]).0@ == alias_name(k as nat) && type_view(out@[k].1) == self.types()[k],
            decreases self.types@.len() - i,
        {
            let mut name = owned("_Type");
            push_decimal(&mut name, i as u64);
            out.push((name, copy_type(&self.types[i])));
            i = i + 1;
        }
        out
    }

    /// The text of bridge tokens.
    pub fn text(&self, b: &BridgeTokens) -> (r: String)
        ensures
            r@ == tokens_text(tokens_view(*b), self.helper()),
        decreases *b,
    {
        match b {
            BridgeTokens::Ref { mutable, inner } => {
                let mut s = if *mutable {
                    owned("&'static mut ")
                } else {
                    owned("&'static ")
                };
                let t = self.text(inner);
                push_str(&mut s, t.as_str());
                s
            },
            BridgeTokens::Slice(e) => {
                let mut s = owned("[");
                let t = self.text(e);
                push_str(&mut s, t.as_str());
                push_str(&mut s, "]");
                s
            },
            BridgeTokens::Str => owned("str"),
            BridgeTokens::Primitive(n) => n.clone(),
            BridgeTokens::Alias(i) => {
                let mut s = owned("$crate::");
                push_str(&mut s, self.helper_mod.as_str());
                push_str(&mut s, "::_Type");
                push_decimal(&mut s, *i as u64);
                s
            },
        }
    }
}

proof fn lemma_alias_index_stays(ts: Seq<TypeView>, n: int, t: TypeView)
    requires
        0 <= n <= ts.len(),
        alias_index(ts.take(n), t) is Some,
    ensures
        alias_index(ts, t) == alias_index(ts.take(n), t),
    decreases ts.len() - n,
{
    if n < ts.len() {
        assert(ts.take(n + 1).drop_last() =~= ts.take(n));
        lemma_alias_index_stays(ts, n + 1, t);
    } else {
        assert(ts.take(n) =~= ts);
    }
}

} // verus!
