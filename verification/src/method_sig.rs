//! What the annotation macros read from a method signature: its receiver,
//! the kind of each parameter, whether it is a builder step, and what it
//! returns, on the bridge side (with `Self` made the lifetime-free type)
//! and on the Rust side (with `Self` made the type as written).

use vstd::prelude::*;
use crate::convert::MetaReceiver;
use crate::syntax::{extract_impl_trait_info, extract_result_types, impl_trait_info, is_str_slice, is_unit_type, type_ident_name, TypeExpr};
use crate::text::{owned, strings_view};
use crate::type_ops::{
    copy_type, is_self_return, is_self_return_spec, is_str_slice_view, is_unit_view, lemma_view_questions, replace_self_type,
    replace_view, result_view, type_ident_view, type_view, TypeView,
};

verus! {

// ---------------------------------------------------------------------------
// Signatures
// ---------------------------------------------------------------------------

/// A method's `self` parameter.
#[derive(Clone, Copy, Debug, PartialEq, Eq, Structural)]
pub enum SigReceiver {
    /// `self`.
    SelfValue,
    /// `&self`.
    SelfRef,
    /// `&mut self`.
    SelfMut,
}

/// A typed parameter.
pub struct SigParam {
    /// The parameter's name when its pattern is a plain identifier.
    pub name: Option<String>,
    pub ty: TypeExpr,
    /// The dispatch mode given by the parameter's attribute, if any.
    pub dispatch: Option<String>,
}

/// A parameter of a signature.
pub enum SigInput {
    Receiver(SigReceiver),
    Typed(SigParam),
}

/// A method signature with the doc lines of its attributes.
pub struct MethodSig {
    pub name: String,
    pub inputs: Vec<SigInput>,
    /// The return type (none for `()` left out).
    pub output: Option<TypeExpr>,
    /// The method's lifetime parameters.
    pub lifetimes: Vec<String>,
    pub doc_lines: Vec<String>,
}

// ---------------------------------------------------------------------------
// What is read
// ---------------------------------------------------------------------------

/// Where the bridge side of a type comes from.
pub enum BridgeType {
    /// `*mut core::ffi::c_void`.
    VoidPtr,
    /// The type, named through the alias context.
    Alias(TypeExpr),
    /// The type with its lifetimes erased.
    Erased(TypeExpr),
}

/// The Rust side of a type.
pub enum RustType {
    /// `*mut core::ffi::c_void`.
    VoidPtr,
    Type(TypeExpr),
}

/// The bridge and Rust sides of a type.
pub struct TypePairInfo {
    pub bridge: BridgeType,
    pub rust: RustType,
}

/// The kind of a parameter.
pub enum ParamKindInfo {
    Regular,
    /// `&[&str]`, passed as two C parameters.
    StrSlice,
    /// `impl Trait`, with its dispatch mode and the trait's lifetime arguments.
    ImplTrait { trait_name: String, dispatch: String, trait_lifetime_args: Vec<String> },
}

/// A parameter as read.
pub struct ParamInfo {
    pub name: String,
    pub kind: ParamKindInfo,
    /// The types, for a regular or `impl Trait` parameter.
    pub types: Option<TypePairInfo>,
}

/// A return as read.
pub enum ReturnInfo {
    Void,
    Value(TypePairInfo),
    Result { ok: Option<TypePairInfo>, err_ident: String },
}

/// A method as read.
pub struct MethodInfo {
    pub name: String,
    pub receiver: MetaReceiver,
    pub params: Vec<ParamInfo>,
    pub ret: ReturnInfo,
    pub ffi_name: String,
    pub is_builder: bool,
    pub method_lifetimes: Vec<String>,
    pub doc_lines: Vec<String>,
    /// The return type for the client, with `Self` replaced.
    pub rust_ret: Option<TypeExpr>,
    pub has_default: bool,
    pub index: usize,
    pub raw_handle: bool,
}

impl ParamInfo {
    /// The parameter is an `impl Trait`.
    pub fn is_impl_trait(&self) -> (r: bool)
        ensures
            r == (self.kind is ImplTrait),
    {
        match self.kind {
            ParamKindInfo::ImplTrait { .. } => true,
            _ => false,
        }
    }

    /// The bridge side of the parameter's type (a `&[&str]` has none).
    pub fn bridge_type(&self) -> (r: &BridgeType)
        requires
            self.types is Some,
        ensures
            *r == self.types->0.bridge,
    {
        &self.types.as_ref().unwrap().bridge
    }

    /// The Rust side of the parameter's type (a `&[&str]` has none).
    pub fn rust_type(&self) -> (r: &RustType)
        requires
            self.types is Some,
        ensures
            *r == self.types->0.rust,
    {
        &self.types.as_ref().unwrap().rust
    }
}

impl MethodInfo {
    /// The bridge side of the returned value's type: none for a method that
    /// returns nothing or a `Result` without an ok value.
    pub fn ret_bridge_type(&self) -> (r: Option<&BridgeType>)
        ensures
            match self.ret {
                ReturnInfo::Void => r is None,
                ReturnInfo::Value(t) => r == Some(&t.bridge),
                ReturnInfo::Result { ok, .. } => match ok {
                    Some(t) => r == Some(&t.bridge),
                    None => r is None,
                },
            },
    {
        match &self.ret {
            ReturnInfo::Void => None,
            ReturnInfo::Value(t) => Some(&t.bridge),
            ReturnInfo::Result { ok, .. } => match ok {
                Some(t) => Some(&t.bridge),
                None => None,
            },
        }
    }
}

// ---------------------------------------------------------------------------
// Plain values
// ---------------------------------------------------------------------------

/// The bridge side as plain values.
pub enum BridgeView {
    VoidPtr,
    Alias(TypeView),
    Erased(TypeView),
}

/// The Rust side as plain values.
pub enum RustView {
    VoidPtr,
    Type(TypeView),
}

/// The kind of a parameter as plain values.
pub enum ParamKindView {
    Regular,
    StrSlice,
    ImplTrait { trait_name: Seq<char>, dispatch: Seq<char>, trait_lifetime_args: Seq<Seq<char>> },
}

/// A parameter as plain values.
pub struct ParamView {
    pub name: Seq<char>,
    pub kind: ParamKindView,
    pub types: Option<(BridgeView, RustView)>,
}

/// A return as plain values.
pub enum ReturnView {
    Void,
    Value((BridgeView, RustView)),
    Result { ok: Option<(BridgeView, RustView)>, err_ident: Seq<char> },
}

/// The view of a type pair.
pub open spec fn pair_view(p: TypePairInfo) -> (BridgeView, RustView) {
    (
        match p.bridge {
            BridgeType::VoidPtr => BridgeView::VoidPtr,
            BridgeType::Alias(t) => BridgeView::Alias(type_view(t)),
            BridgeType::Erased(t) => BridgeView::Erased(type_view(t)),
        },
        match p.rust {
            RustType::VoidPtr => RustView::VoidPtr,
            RustType::Type(t) => RustView::Type(type_view(t)),
        },
    )
}

/// The view of a parameter.
pub open spec fn param_view(p: ParamInfo) -> ParamView {
    ParamView {
        name: p.name@,
        kind: match p.kind {
            ParamKindInfo::Regular => ParamKindView::Regular,
            ParamKindInfo::StrSlice => ParamKindView::StrSlice,
            ParamKindInfo::ImplTrait { trait_name, dispatch, trait_lifetime_args } => ParamKindView::ImplTrait {
                trait_name: trait_name@,
                dispatch: dispatch@,
                trait_lifetime_args: strings_view(trait_lifetime_args@),
            },
        },
        types: match p.types {
            Some(t) => Some(pair_view(t)),
            None => None,
        },
    }
}

/// The views of parameters.
pub open spec fn params_view(ps: Seq<ParamInfo>) -> Seq<ParamView> {
    ps.map_values(|p: ParamInfo| param_view(p))
}

/// The view of a return.
pub open spec fn return_view(r: ReturnInfo) -> ReturnView {
    match r {
        ReturnInfo::Void => ReturnView::Void,
        ReturnInfo::Value(p) => ReturnView::Value(pair_view(p)),
        ReturnInfo::Result { ok, err_ident } => ReturnView::Result {
            ok: match ok {
                Some(p) => Some(pair_view(p)),
                None => None,
            },
            err_ident: err_ident@,
        },
    }
}

// ---------------------------------------------------------------------------
// The reading
// ---------------------------------------------------------------------------

/// The receiver: `None` for a trait method without one (it is skipped);
/// an associated function of an exported type has no receiver; a raw
/// handle method takes its handle as its first parameter.
pub open spec fn receiver_spec(inputs: Seq<SigInput>, has_self_ty: bool, raw_handle: bool) -> Option<MetaReceiver> {
    if raw_handle {
        Some(MetaReceiver::NoSelf)
    } else if inputs.len() > 0 && inputs[0] is Receiver {
        match inputs[0] {
            SigInput::Receiver(SigReceiver::SelfValue) => Some(MetaReceiver::Value),
            SigInput::Receiver(SigReceiver::SelfMut) => Some(MetaReceiver::Mut),
            _ => Some(MetaReceiver::Ref),
        }
    } else if has_self_ty {
        Some(MetaReceiver::NoSelf)
    } else {
        None
    }
}

/// The type with `Self` replaced when there is a `Self` type.
pub open spec fn with_self(t: TypeExpr, s: Option<TypeExpr>) -> TypeView {
    match s {
        Some(st) => replace_view(type_view(t), type_view(st)),
        None => type_view(t),
    }
}

/// A typed parameter as read: `impl Trait` (behind a reference or not)
/// keeps its trait; `&[&str]` (once `Self` is replaced) is a string slice;
/// anything else is regular, named through the alias context on the bridge
/// side.
pub open spec fn param_spec(p: SigParam, name: Seq<char>, self_ty: Option<TypeExpr>, self_static: Option<TypeExpr>) -> ParamView {
    let inner = match p.ty {
        TypeExpr::Reference(r) => *r.elem,
        t => t,
    };
    match impl_trait_info(inner) {
        Some((tn, lts)) => ParamView {
            name,
            kind: ParamKindView::ImplTrait {
                trait_name: tn,
                dispatch: match p.dispatch {
                    Some(d) => d@,
                    None => "auto"@,
                },
                trait_lifetime_args: lts,
            },
            types: Some((BridgeView::VoidPtr, RustView::VoidPtr)),
        },
        None => {
            let bv = with_self(p.ty, self_static);
            let rv = with_self(p.ty, self_ty);
            if is_str_slice_view(bv) {
                ParamView { name, kind: ParamKindView::StrSlice, types: None }
            } else {
                ParamView { name, kind: ParamKindView::Regular, types: Some((BridgeView::Alias(bv), RustView::Type(rv))) }
            }
        },
    }
}

/// The parameters read from the inputs: typed ones with a plain name.
pub open spec fn params_spec(inputs: Seq<SigInput>, self_ty: Option<TypeExpr>, self_static: Option<TypeExpr>) -> Seq<ParamView>
    decreases inputs.len(),
{
    if inputs.len() == 0 {
        Seq::empty()
    } else {
        params_spec(inputs.drop_last(), self_ty, self_static) + match inputs.last() {
            SigInput::Typed(p) => match p.name {
                Some(n) => seq![param_spec(p, n@, self_ty, self_static)],
                None => Seq::empty(),
            },
            SigInput::Receiver(_) => Seq::empty(),
        }
    }
}

/// A builder step: an exported type's method with a receiver that returns
/// `Self` (or a reference to it), or a `Result` of it.
pub open spec fn is_builder_spec(output: Option<TypeExpr>, receiver: MetaReceiver, self_static: Option<TypeExpr>) -> bool {
    &&& self_static is Some
    &&& receiver != MetaReceiver::NoSelf
    &&& output is Some
    &&& {
        let st = type_view(self_static->0);
        let tb = replace_view(type_view(output->0), st);
        ||| is_self_return_spec(tb, st)
        ||| (result_view(tb) matches Some((ok, _)) && is_self_return_spec(ok, st))
    }
}

/// The return as read: a builder's `Self` is void; a `Result` gives its ok
/// side (none for `()` or a builder's `Self`) and its error's name; a raw
/// handle method's types have their lifetimes erased rather than named
/// through the alias context.
pub open spec fn return_spec(
    output: Option<TypeExpr>,
    self_ty: Option<TypeExpr>,
    self_static: Option<TypeExpr>,
    is_builder: bool,
    raw_handle: bool,
) -> ReturnView {
    match output {
        None => ReturnView::Void,
        Some(ty) => {
            let tb = with_self(ty, self_static);
            let tr = with_self(ty, self_ty);
            if is_builder && result_view(tb) is None {
                ReturnView::Void
            } else {
                match result_view(tb) {
                    Some((okb, err)) => {
                        let ok_rust = match result_view(tr) {
                            Some((o, _)) => o,
                            None => okb,
                        };
                        ReturnView::Result {
                            ok: if is_unit_view(okb) || (is_builder && self_static is Some && is_self_return_spec(
                                okb,
                                type_view(self_static->0),
                            )) {
                                None
                            } else if raw_handle {
                                Some((BridgeView::Erased(okb), RustView::Type(ok_rust)))
                            } else {
                                Some((BridgeView::Alias(okb), RustView::Type(ok_rust)))
                            },
                            err_ident: type_ident_view(err),
                        }
                    },
                    None => if raw_handle {
                        ReturnView::Value((BridgeView::Erased(tb), RustView::Type(tr)))
                    } else {
                        ReturnView::Value((BridgeView::Alias(tb), RustView::Type(tr)))
                    },
                }
            }
        },
    }
}

/// The inputs after the first `n`.
pub open spec fn inputs_after(inputs: Seq<SigInput>, n: int) -> Seq<SigInput> {
    if n >= inputs.len() {
        Seq::empty()
    } else {
        inputs.subrange(n, inputs.len() as int)
    }
}

/// The value behind an optional reference.
pub open spec fn deref_opt(o: Option<&TypeExpr>) -> Option<TypeExpr> {
    match o {
        Some(t) => Some(*t),
        None => None,
    }
}

/// Every field of `m` but its C name is what the signature gives.
pub open spec fn method_fields_ok(
    sig: MethodSig,
    self_ty: Option<TypeExpr>,
    self_static: Option<TypeExpr>,
    has_default: bool,
    raw_handle: bool,
    index: usize,
    m: MethodInfo,
) -> bool {
    &&& receiver_spec(sig.inputs@, self_ty is Some, raw_handle) == Some(m.receiver)
    &&& m.name@ == sig.name@
    &&& params_view(m.params@) == params_spec(
        inputs_after(sig.inputs@, if m.receiver != MetaReceiver::NoSelf || raw_handle { 1 } else { 0 }),
        self_ty,
        self_static,
    )
    &&& m.is_builder == is_builder_spec(sig.output, m.receiver, self_static)
    &&& return_view(m.ret) == return_spec(sig.output, self_ty, self_static, m.is_builder, raw_handle)
    &&& strings_view(m.method_lifetimes@) == strings_view(sig.lifetimes@)
    &&& strings_view(m.doc_lines@) == strings_view(sig.doc_lines@)
    &&& match m.rust_ret {
        Some(t) => sig.output is Some && type_view(t) == with_self(sig.output->0, self_ty),
        None => sig.output is None,
    }
    &&& m.has_default == has_default
    &&& m.index == index
    &&& m.raw_handle == raw_handle
}

/// The method as read from a signature (with no C name yet), or none for a
/// trait method without a receiver.
pub open spec fn method_info_ok(
    sig: MethodSig,
    self_ty: Option<TypeExpr>,
    self_static: Option<TypeExpr>,
    has_default: bool,
    raw_handle: bool,
    index: usize,
    r: Option<MethodInfo>,
) -> bool {
    match r {
        None => receiver_spec(sig.inputs@, self_ty is Some, raw_handle) is None,
        Some(m) => method_fields_ok(sig, self_ty, self_static, has_default, raw_handle, index, m) && m.ffi_name@
            == Seq::<char>::empty(),
    }
}

fn with_self_type(t: &TypeExpr, s: Option<&TypeExpr>) -> (r: TypeExpr)
    ensures
        type_view(r) == with_self(*t, deref_opt(s)),
{
    match s {
        Some(st) => replace_self_type(t, st),
        None => copy_type(t),
    }
}

fn copy_strings(v: &Vec<String>) -> (r: Vec<String>)
    ensures
        strings_view(r@) == strings_view(v@),
{
    let mut out: Vec<String> = Vec::new();
    let mut i: usize = 0;
    while i < v.len()
        invariant
            i <= v@.len(),
            strings_view(out@) == strings_view(v@).take(i as int),
        decreases v@.len() - i,
    {
        let ghost before = strings_view(out@);
        let x = v[i].clone();
        let ghost xv = x@;
        out.push(x);
        assert(strings_view(out@) =~= before.push(xv));
        i = i + 1;
        assert(strings_view(out@) =~= strings_view(v@).take(i as int));
    }
    assert(strings_view(v@).take(v@.len() as int) =~= strings_view(v@));
    out
}

fn param_info(p: &SigParam, name: &String, self_ty: Option<&TypeExpr>, self_static: Option<&TypeExpr>) -> (r: ParamInfo)
    ensures
        param_view(r) == param_spec(*p, name@, deref_opt(self_ty), deref_opt(self_static)),
{
    let inner = match &p.ty {
        TypeExpr::Reference(r) => &*r.elem,
        t => t,
    };
    match extract_impl_trait_info(inner) {
        Some((trait_name, lts)) => {
            let dispatch = match &p.dispatch {
                Some(d) => d.clone(),
                None => owned("auto"),
            };
            ParamInfo {
                name: name.clone(),
                kind: ParamKindInfo::ImplTrait { trait_name, dispatch, trait_lifetime_args: lts },
                types: Some(TypePairInfo { bridge: BridgeType::VoidPtr, rust: RustType::VoidPtr }),
            }
        },
        None => {
            let bridge = with_self_type(&p.ty, self_static);
            let rust = with_self_type(&p.ty, self_ty);
            proof {
                lemma_view_questions(bridge);
            }
            if is_str_slice(&bridge) {
                ParamInfo { name: name.clone(), kind: ParamKindInfo::StrSlice, types: None }
            } else {
                ParamInfo {
                    name: name.clone(),
                    kind: ParamKindInfo::Regular,
                    types: Some(TypePairInfo { bridge: BridgeType::Alias(bridge), rust: RustType::Type(rust) }),
                }
            }
        },
    }
}

fn read_params(inputs: &Vec<SigInput>, skip: usize, self_ty: Option<&TypeExpr>, self_static: Option<&TypeExpr>) -> (r: Vec<ParamInfo>)
    ensures
        params_view(r@) == params_spec(inputs_after(inputs@, skip as int), deref_opt(self_ty), deref_opt(self_static)),
{
    let mut out: Vec<ParamInfo> = Vec::new();
    if skip >= inputs.len() {
        return out;
    }
    let ghost rest = inputs_after(inputs@, skip as int);
    let mut i: usize = skip;
    assert(rest.take(0) =~= Seq::<SigInput>::empty());
    assert(params_view(out@) =~= Seq::<ParamView>::empty());
    while i < inputs.len()
        invariant
            skip <= i <= inputs@.len(),
            skip < inputs@.len(),
            rest == inputs@.subrange(skip as int, inputs@.len() as int),
            params_view(out@) == params_spec(rest.take(i - skip), deref_opt(self_ty), deref_opt(self_static)),
        decreases inputs@.len() - i,
    {
        let ghost before = params_view(out@);
        match &inputs[i] {
            SigInput::Typed(p) => match &p.name {
                Some(n) => {
                    let pi = param_info(p, n, self_ty, self_static);
                    let ghost pv = param_view(pi);
                    out.push(pi);
                    assert(params_view(out@) =~= before + seq![pv]);
                },
                None => {
                    assert(params_view(out@) =~= before + Seq::<ParamView>::empty());
                },
            },
            SigInput::Receiver(_) => {
                assert(params_view(out@) =~= before + Seq::<ParamView>::empty());
            },
        }
        i = i + 1;
        assert(rest.take(i - skip).drop_last() =~= rest.take(i - 1 - skip));
        assert(rest.take(i - skip).last() == inputs@[i - 1]);
    }
    assert(rest.take(inputs@.len() - skip) =~= rest);
    out
}

fn builder_check(output: &Option<TypeExpr>, receiver: MetaReceiver, self_static: Option<&TypeExpr>) -> (r: bool)
    ensures
        r == is_builder_spec(*output, receiver, deref_opt(self_static)),
{
    match (self_static, output) {
        (Some(st), Some(ty)) => {
            if receiver == MetaReceiver::NoSelf {
                return false;
            }
            let tb = replace_self_type(ty, st);
            proof {
                lemma_view_questions(tb);
            }
            if is_self_return(&tb, st) {
                return true;
            }
            match extract_result_types(&tb) {
                Some((ok, _)) => is_self_return(ok, st),
                None => false,
            }
        },
        _ => false,
    }
}

fn read_return(
    output: &Option<TypeExpr>,
    self_ty: Option<&TypeExpr>,
    self_static: Option<&TypeExpr>,
    is_builder: bool,
    raw_handle: bool,
) -> (r: ReturnInfo)
    ensures
        return_view(r) == return_spec(*output, deref_opt(self_ty), deref_opt(self_static), is_builder, raw_handle),
{
    let ty = match output {
        None => return ReturnInfo::Void,
        Some(ty) => ty,
    };
    let tb = with_self_type(ty, self_static);
    let tr = with_self_type(ty, self_ty);
    proof {
        lemma_view_questions(tb);
        lemma_view_questions(tr);
    }
    let res = extract_result_types(&tb);
    if is_builder && res.is_none() {
        return ReturnInfo::Void;
    }
    match res {
        Some((okb, err)) => {
            proof {
                lemma_view_questions(*okb);
                lemma_view_questions(*err);
            }
            let err_ident = type_ident_name(err);
            let ok_rust = match extract_result_types(&tr) {
                Some((o, _)) => copy_type(o),
                None => copy_type(okb),
            };
            let builder_self = match self_static {
                Some(st) => is_builder && is_self_return(okb, st),
                None => false,
            };
            let ok = if is_unit_type(okb) || builder_self {
                None
            } else if raw_handle {
                Some(TypePairInfo { bridge: BridgeType::Erased(copy_type(okb)), rust: RustType::Type(ok_rust) })
            } else {
                Some(TypePairInfo { bridge: BridgeType::Alias(copy_type(okb)), rust: RustType::Type(ok_rust) })
            };
            ReturnInfo::Result { ok, err_ident }
        },
        None => if raw_handle {
            ReturnInfo::Value(TypePairInfo { bridge: BridgeType::Erased(tb), rust: RustType::Type(tr) })
        } else {
            ReturnInfo::Value(TypePairInfo { bridge: BridgeType::Alias(tb), rust: RustType::Type(tr) })
        },
    }
}

/// Reads a method from its signature; `self_ty` is the exported type (none
/// for a trait method) and `self_static` the same type with its lifetimes
/// erased.  `None` for a trait method without a receiver.
pub fn parse_method_sig(
    sig: &MethodSig,
    self_ty: Option<&TypeExpr>,
    self_static: Option<&TypeExpr>,
    has_default: bool,
    raw_handle: bool,
) -> (r: Option<MethodInfo>)
    ensures
        method_info_ok(*sig, deref_opt(self_ty), deref_opt(self_static), has_default, raw_handle, 0, r),
{
    let receiver = if raw_handle {
        MetaReceiver::NoSelf
    } else {
        let first = if sig.inputs.len() > 0 {
            match &sig.inputs[0] {
                SigInput::Receiver(r) => Some(*r),
                SigInput::Typed(_) => None,
            }
        } else {
            None
        };
        match first {
            Some(SigReceiver::SelfValue) => MetaReceiver::Value,
            Some(SigReceiver::SelfMut) => MetaReceiver::Mut,
            Some(SigReceiver::SelfRef) => MetaReceiver::Ref,
            None => if self_ty.is_some() {
                MetaReceiver::NoSelf
            } else {
                return None;
            },
        }
    };
    let skip: usize = if receiver != MetaReceiver::NoSelf || raw_handle {
        1
    } else {
        0
    };
    let params = read_params(&sig.inputs, skip, self_ty, self_static);
    let is_builder = builder_check(&sig.output, receiver, self_static);
    let ret = read_return(&sig.output, self_ty, self_static, is_builder, raw_handle);
    let rust_ret = match &sig.output {
        Some(ty) => Some(with_self_type(ty, self_ty)),
        None => None,
    };
    Some(
        MethodInfo {
            name: sig.name.clone(),
            receiver,
            params,
            ret,
            ffi_name: String::new(),
            is_builder,
            method_lifetimes: copy_strings(&sig.lifetimes),
            doc_lines: copy_strings(&sig.doc_lines),
            rust_ret,
            has_default,
            index: 0,
            raw_handle,
        },
    )
}

// ---------------------------------------------------------------------------
// Doc comments
// ---------------------------------------------------------------------------

/// An attribute of an item, as far as doc comments go.
pub enum DocAttr {
    /// `#[doc = "..."]` (a `///` line), with its text.
    Doc(String),
    /// Any other attribute, `#[doc(..)]` included.
    Other,
}

/// The text of a doc attribute.
pub open spec fn doc_text(a: DocAttr) -> Option<Seq<char>> {
    match a {
        DocAttr::Doc(t) => Some(t@),
        DocAttr::Other => None,
    }
}

/// The doc lines of a list of attributes, in order.
pub open spec fn doc_lines_spec(attrs: Seq<DocAttr>) -> Seq<Seq<char>>
    decreases attrs.len(),
{
    if attrs.len() == 0 {
        Seq::empty()
    } else {
        match doc_text(attrs.last()) {
            Some(t) => doc_lines_spec(attrs.drop_last()).push(t),
            None => doc_lines_spec(attrs.drop_last()),
        }
    }
}

/// The lines of an item's `///` doc comments.
pub fn extract_doc_comments(attrs: &[DocAttr]) -> (r: Vec<String>)
    ensures
        strings_view(r@) == doc_lines_spec(attrs@),
{
    let mut out: Vec<String> = Vec::new();
    let mut i: usize = 0;
    assert(attrs@.take(0) =~= Seq::<DocAttr>::empty());
    while i < attrs.len()
        invariant
            i <= attrs@.len(),
            strings_view(out@) == doc_lines_spec(attrs@.take(i as int)),
        decreases attrs@.len() - i,
    {
        assert(attrs@.take(i + 1).drop_last() =~= attrs@.take(i as int));
        assert(attrs@.take(i + 1).last() == attrs@[i as int]);
        match &attrs[i] {
            DocAttr::Doc(t) => {
                let ghost before = strings_view(out@);
                out.push(t.clone());
                assert(strings_view(out@) =~= before.push(t@));
            },
            DocAttr::Other => {},
        }
        i = i + 1;
    }
    assert(attrs@.take(attrs@.len() as int) =~= attrs@);
    out
}

} // verus!
