//! Conversion of the metadata of annotated items into their schema form:
//! C names for constants, error variants and traits, and type references
//! for parameters and returns.

use vstd::prelude::*;
use crate::bridge::{type_ref_spec, CTypeResolver, RefKind, TypeRef, TypeRefView};
use crate::header::{CNamedType, EnumType, EnumVariant, Receiver};
use crate::naming::{camel_to_snake, camel_to_snake_spec, camel_to_upper_snake, camel_to_upper_snake_spec, to_ascii_uppercase};
use crate::text::{ascii_upper, owned, push_str, strings_view};

verus! {

// ---------------------------------------------------------------------------
// Enums and bitflags
// ---------------------------------------------------------------------------

/// A variant of an annotated enum or bitflags type.
pub struct MetaVariant {
    pub name: String,
    pub value: i64,
}

/// An annotated C-style enum or bitflags type.
pub struct MetaEnum {
    pub name: String,
    pub variants: Vec<MetaVariant>,
}

/// The C constant of an enum variant: `FT_COLOR_DARK_RED` for
/// `Color::DarkRed`.
pub open spec fn enum_const_name(upper_pfx: Seq<char>, name: Seq<char>, variant: Seq<char>) -> Seq<char> {
    upper_pfx + camel_to_upper_snake_spec(name) + "_"@ + camel_to_upper_snake_spec(variant)
}

/// The C constant of a flag: `FT_PERMS_READ` for `Perms::READ` (flag names
/// are already in upper case and are used as they are).
pub open spec fn flag_const_name(upper_pfx: Seq<char>, name: Seq<char>, flag: Seq<char>) -> Seq<char> {
    upper_pfx + camel_to_upper_snake_spec(name) + "_"@ + flag
}

/// The schema variants of an enum (`flags`: of a bitflags type).
pub open spec fn converted_variant(upper_pfx: Seq<char>, name: Seq<char>, v: MetaVariant, flags: bool, c: EnumVariant) -> bool {
    &&& c.name@ == v.name@
    &&& c.value == v.value
    &&& c.c_name@ == if flags {
        flag_const_name(upper_pfx, name, v.name@)
    } else {
        enum_const_name(upper_pfx, name, v.name@)
    }
}

/// The variants converted one for one, in order.
pub open spec fn converted_enum(upper_pfx: Seq<char>, meta: MetaEnum, flags: bool, r: EnumType) -> bool {
    &&& r.name@ == meta.name@
    &&& r.variants@.len() == meta.variants@.len()
    &&& forall|i: int|
        0 <= i < meta.variants@.len() ==> converted_variant(
            upper_pfx,
            meta.name@,
            #[trigger] meta.variants@[i],
            flags,
            r.variants@[i],
        )
}

fn convert_variants(meta: &MetaEnum, r: &CTypeResolver, flags: bool) -> (out: EnumType)
    ensures
        converted_enum(r.upper_pfx@, *meta, flags, out),
{
    let name_upper = camel_to_upper_snake(meta.name.as_str());
    let mut variants: Vec<EnumVariant> = Vec::new();
    let mut i: usize = 0;
    while i < meta.variants.len()
        invariant
            i <= meta.variants@.len(),
            name_upper@ == camel_to_upper_snake_spec(meta.name@),
            variants@.len() == i,
            forall|j: int|
                0 <= j < i ==> converted_variant(
                    r.upper_pfx@,
                    meta.name@,
                    #[trigger] meta.variants@[j],
                    flags,
                    variants@[j],
                ),
        decreases meta.variants@.len() - i,
    {
        let v = &meta.variants[i];
        let mut c_name = r.upper_pfx.clone();
        push_str(&mut c_name, name_upper.as_str());
        push_str(&mut c_name, "_");
        if flags {
            push_str(&mut c_name, v.name.as_str());
        } else {
            let vu = camel_to_upper_snake(v.name.as_str());
            push_str(&mut c_name, vu.as_str());
        }
        variants.push(EnumVariant { name: v.name.clone(), c_name, value: v.value });
        i = i + 1;
    }
    EnumType { name: meta.name.clone(), variants }
}

/// The schema form of a C-style enum.
pub fn convert_enum(meta: &MetaEnum, r: &CTypeResolver) -> (out: EnumType)
    ensures
        converted_enum(r.upper_pfx@, *meta, false, out),
{
    convert_variants(meta, r, false)
}

/// The schema form of a bitflags type.
pub fn convert_bitflags(meta: &MetaEnum, r: &CTypeResolver) -> (out: EnumType)
    ensures
        converted_enum(r.upper_pfx@, *meta, true, out),
{
    convert_variants(meta, r, true)
}

// ---------------------------------------------------------------------------
// Errors
// ---------------------------------------------------------------------------

/// A variant of an annotated error type.
pub struct MetaErrorVariant {
    pub name: String,
    pub code: u32,
    pub message: Option<String>,
    /// The Rust types of the payload fields, as token text.
    pub field_types: Vec<String>,
}

/// An annotated error type.
pub struct MetaError {
    pub name: String,
    pub variants: Vec<MetaErrorVariant>,
}

/// A variant of an error type in the schema.
pub struct SchemaErrorVariant {
    pub name: String,
    pub c_name: String,
    pub code: u32,
    pub message: Option<String>,
    pub fields: Vec<TypeRef>,
}

/// An error type in the schema.
pub struct SchemaErrorType {
    pub name: String,
    pub variants: Vec<SchemaErrorVariant>,
}

/// The error constant of a variant (see `CTypeResolver::error_const_name`).
pub open spec fn error_const(upper_pfx: Seq<char>, error_name: Seq<char>, variant: Seq<char>) -> Seq<char> {
    upper_pfx + "ERROR_"@ + camel_to_upper_snake_spec(crate::bridge::strip_error_suffix(error_name)) + "_"@
        + camel_to_upper_snake_spec(variant)
}

/// A variant converted: same name, code and message, its constant, and a
/// type reference per field.
pub open spec fn converted_error_variant(upper_pfx: Seq<char>, error_name: Seq<char>, v: MetaErrorVariant, c: SchemaErrorVariant) -> bool {
    &&& c.name@ == v.name@
    &&& c.code == v.code
    &&& crate::schema::opt_string(c.message) == crate::schema::opt_string(v.message)
    &&& c.c_name@ == error_const(upper_pfx, error_name, v.name@)
    &&& c.fields@.len() == v.field_types@.len()
    &&& forall|k: int| 0 <= k < v.field_types@.len() ==> (#[trigger] c.fields@[k])@ == type_ref_spec(v.field_types@[k]@)
}

/// The schema form of an error type: its variants converted one for one.
pub fn convert_error(meta: &MetaError, r: &CTypeResolver) -> (out: SchemaErrorType)
    ensures
        out.name@ == meta.name@,
        out.variants@.len() == meta.variants@.len(),
        forall|i: int|
            0 <= i < meta.variants@.len() ==> converted_error_variant(
                r.upper_pfx@,
                meta.name@,
                #[trigger] meta.variants@[i],
                out.variants@[i],
            ),
{
    let mut variants: Vec<SchemaErrorVariant> = Vec::new();
    let mut i: usize = 0;
    while i < meta.variants.len()
        invariant
            i <= meta.variants@.len(),
            variants@.len() == i,
            forall|j: int|
                0 <= j < i ==> converted_error_variant(
                    r.upper_pfx@,
                    meta.name@,
                    #[trigger] meta.variants@[j],
                    variants@[j],
                ),
        decreases meta.variants@.len() - i,
    {
        let v = &meta.variants[i];
        let mut fields: Vec<TypeRef> = Vec::new();
        let mut k: usize = 0;
        while k < v.field_types.len()
            invariant
                k <= v.field_types@.len(),
                fields@.len() == k,
                forall|m: int| 0 <= m < k ==> (#[trigger] fields@[m])@ == type_ref_spec(v.field_types@[m]@),
            decreases v.field_types@.len() - k,
        {
            fields.push(r.to_type_ref(v.field_types[k].as_str()));
            k = k + 1;
        }
        let message = match &v.message {
            Some(m) => Some(m.clone()),
            None => None,
        };
        let c_name = r.error_const_name(meta.name.as_str(), v.name.as_str());
        variants.push(SchemaErrorVariant { name: v.name.clone(), c_name, code: v.code, message, fields });
        i = i + 1;
    }
    SchemaErrorType { name: meta.name.clone(), variants }
}

// ---------------------------------------------------------------------------
// Names of types and traits
// ---------------------------------------------------------------------------

/// The destroy function of an exported type: `{fn_pfx}{snake}_destroy`.
pub open spec fn destroy_fn_name(fn_pfx: Seq<char>, name: Seq<char>) -> Seq<char> {
    fn_pfx + camel_to_snake_spec(name) + "_destroy"@
}

/// The C destroy function of an exported type or trait.
pub fn destroy_ffi_name(r: &CTypeResolver, name: &str) -> (out: String)
    ensures
        out@ == destroy_fn_name(r.fn_pfx@, name@),
{
    let mut s = camel_to_snake(name);
    push_str(&mut s, "_destroy");
    r.ffi_fn_name(s.as_str())
}

/// The names a trait implementable from C gets in the schema.
pub struct TraitNames {
    pub destroy_ffi_name: String,
    /// The macro holding the trait's type tag: `{UPPER}{TRAIT}_TYPE_TAG`.
    pub type_tag_constant: String,
    /// The C vtable struct: `{Type}{Trait}Vtable`.
    pub vtable_struct_c_name: String,
    /// The C handle of a C-implemented object: `{Type}Vtable{Trait}`.
    pub wrapper_c_name: String,
    /// The Rust vtable struct: `{Trait}Vtable`.
    pub vtable_struct_name: String,
    /// The Rust wrapper of a C-implemented object: `Vtable{Trait}`.
    pub wrapper_name: String,
    /// The prefix of the trait's method functions: `{snake}_`.
    pub ffi_prefix: String,
}

/// The names of a trait implementable from C.
pub fn implementable_names(r: &CTypeResolver, name: &str) -> (out: TraitNames)
    ensures
        out.destroy_ffi_name@ == destroy_fn_name(r.fn_pfx@, name@),
        out.type_tag_constant@ == r.upper_pfx@ + ascii_upper(camel_to_snake_spec(name@)) + "_TYPE_TAG"@,
        out.vtable_struct_c_name@ == r.type_pfx@ + name@ + "Vtable"@,
        out.wrapper_c_name@ == r.type_pfx@ + "Vtable"@ + name@,
        out.vtable_struct_name@ == name@ + "Vtable"@,
        out.wrapper_name@ == "Vtable"@ + name@,
        out.ffi_prefix@ == camel_to_snake_spec(name@) + "_"@,
{
    let snake = camel_to_snake(name);
    let mut ffi_prefix = snake.clone();
    push_str(&mut ffi_prefix, "_");
    let upper = to_ascii_uppercase(snake.as_str());
    let mut type_tag_constant = r.upper_pfx.clone();
    push_str(&mut type_tag_constant, upper.as_str());
    push_str(&mut type_tag_constant, "_TYPE_TAG");
    let mut vtable_struct_c_name = r.type_pfx.clone();
    push_str(&mut vtable_struct_c_name, name);
    push_str(&mut vtable_struct_c_name, "Vtable");
    let mut wrapper_c_name = r.type_pfx.clone();
    push_str(&mut wrapper_c_name, "Vtable");
    push_str(&mut wrapper_c_name, name);
    let mut vtable_struct_name = owned(name);
    push_str(&mut vtable_struct_name, "Vtable");
    let mut wrapper_name = owned("Vtable");
    push_str(&mut wrapper_name, name);
    TraitNames {
        destroy_ffi_name: destroy_ffi_name(r, name),
        type_tag_constant,
        vtable_struct_c_name,
        wrapper_c_name,
        vtable_struct_name,
        wrapper_name,
        ffi_prefix,
    }
}

/// How a method takes its receiver, in the metadata.
#[derive(Clone, Copy, Debug, PartialEq, Eq, Structural)]
pub enum MetaReceiver {
    NoSelf,
    Ref,
    Mut,
    Value,
}

/// The facts about a method that decide whether its type is a builder.
pub struct MethodShape {
    /// The method returns `Self`.
    pub is_builder: bool,
    pub receiver: MetaReceiver,
}

/// A type is a builder type when one of its methods returns `Self` while
/// consuming `self` by value.
pub open spec fn builder_type_spec(ms: Seq<MethodShape>) -> bool {
    exists|i: int| 0 <= i < ms.len() && (#[trigger] ms[i]).is_builder && ms[i].receiver == MetaReceiver::Value
}

/// Whether an exported type is a builder type.
pub fn is_builder_type(methods: &[MethodShape]) -> (r: bool)
    ensures
        r == builder_type_spec(methods@),
{
    let mut i: usize = 0;
    while i < methods.len()
        invariant
            i <= methods@.len(),
            forall|j: int| 0 <= j < i ==> !((#[trigger] methods@[j]).is_builder && methods@[j].receiver == MetaReceiver::Value),
        decreases methods@.len() - i,
    {
        if methods[i].is_builder && methods[i].receiver == MetaReceiver::Value {
            return true;
        }
        i = i + 1;
    }
    false
}

/// The C function of a trait method: the function prefix, the trait's (or
/// implementing type's) snake-case prefix, and the method name.
pub fn trait_method_ffi_name(r: &CTypeResolver, parent_ffi_prefix: &str, method: &str) -> (out: String)
    ensures
        out@ == r.fn_pfx@ + parent_ffi_prefix@ + method@,
{
    let mut s = owned(parent_ffi_prefix);
    push_str(&mut s, method);
    let out = r.ffi_fn_name(s.as_str());
    out
}

// ---------------------------------------------------------------------------
// Parameters and returns
// ---------------------------------------------------------------------------

/// The kind of a parameter in the metadata.
pub enum MetaParamKind {
    /// A parameter of the given Rust type (token text).
    Regular(String),
    /// `&[&str]`.
    StrSlice,
    /// `impl Trait<'a, ..>`.
    ImplTrait { trait_name: String, trait_lifetime_args: Vec<String> },
}

/// A parameter in the metadata.
pub struct MetaParam {
    pub name: String,
    pub kind: MetaParamKind,
}

/// The type of a parameter in the schema.
pub enum ParamType {
    Regular(TypeRef),
    /// A slice of elements, passed as the given C parameters.
    Slice { element: TypeRef, c_params: Vec<CNamedType> },
    ImplTrait { trait_name: String, type_args: Vec<String> },
}

/// A parameter in the schema.
pub struct SchemaParam {
    pub name: String,
    pub param_type: ParamType,
}

/// `&str`, the element type of a string slice parameter.
pub open spec fn str_ref() -> TypeRefView {
    TypeRefView {
        name: "str"@,
        ref_kind: RefKind::Shared,
        ref_lifetime: None,
        type_args: Seq::empty(),
        optional: false,
        owned: false,
    }
}

/// A parameter converted: `Regular` gets its type reference; `&[&str]`
/// becomes a pointer to `{Type}Str` and a `size_t` length `{name}_len`;
/// `impl Trait` keeps the trait and its lifetime arguments.
pub open spec fn converted_param(type_pfx: Seq<char>, p: MetaParam, c: SchemaParam) -> bool {
    &&& c.name@ == p.name@
    &&& match p.kind {
        MetaParamKind::Regular(t) => c.param_type matches ParamType::Regular(tr) && tr@ == type_ref_spec(t@),
        MetaParamKind::StrSlice => c.param_type matches ParamType::Slice { element, c_params } && element@
            == str_ref() && c_params@.len() == 2 && c_params@[0].name@ == p.name@ && c_params@[0].c_type@ == "const "@
            + type_pfx + "Str*"@ && c_params@[1].name@ == p.name@ + "_len"@ && c_params@[1].c_type@ == "size_t"@,
        MetaParamKind::ImplTrait { trait_name, trait_lifetime_args } => c.param_type matches ParamType::ImplTrait {
            trait_name: tn,
            type_args,
        } && tn@ == trait_name@ && strings_view(type_args@) == strings_view(trait_lifetime_args@),
    }
}

fn copy_all(v: &Vec<String>) -> (r: Vec<String>)
    ensures
        strings_view(r@) == strings_view(v@),
{
    let mut out: Vec<String> = Vec::new();
    let mut i: usize = 0;
    while i < v.len()
        invariant
            i <= v@.len(),
            strings_view(out@) == strings_view(v@).take(i as int),
        decreases v@.len() - i,
    {
        let ghost before = strings_view(out@);
        let x = v[i].clone();
        out.push(x);
        assert(strings_view(out@) =~= before.push(x@));
        i = i + 1;
        assert(strings_view(out@) =~= strings_view(v@).take(i as int));
    }
    assert(strings_view(v@).take(v@.len() as int) =~= strings_view(v@));
    out
}

/// The schema form of a parameter.
pub fn convert_param(p: &MetaParam, r: &CTypeResolver) -> (out: SchemaParam)
    ensures
        converted_param(r.type_pfx@, *p, out),
{
    let param_type = match &p.kind {
        MetaParamKind::Regular(t) => ParamType::Regular(r.to_type_ref(t.as_str())),
        MetaParamKind::StrSlice => {
            let mut ptr_type = owned("const ");
            push_str(&mut ptr_type, r.type_pfx.as_str());
            push_str(&mut ptr_type, "Str*");
            let mut len_name = p.name.clone();
            push_str(&mut len_name, "_len");
            let mut c_params: Vec<CNamedType> = Vec::new();
            c_params.push(CNamedType { c_type: ptr_type, name: p.name.clone() });
            c_params.push(CNamedType { c_type: owned("size_t"), name: len_name });
            let element = TypeRef {
                name: owned("str"),
                ref_kind: RefKind::Shared,
                ref_lifetime: None,
                type_args: Vec::new(),
                optional: false,
                owned: false,
            };
            assert(element@.type_args =~= Seq::<Seq<char>>::empty());
            ParamType::Slice { element, c_params }
        },
        MetaParamKind::ImplTrait { trait_name, trait_lifetime_args } => ParamType::ImplTrait {
            trait_name: trait_name.clone(),
            type_args: copy_all(trait_lifetime_args),
        },
    };
    SchemaParam { name: p.name.clone(), param_type }
}

/// What a method returns, in the metadata.
pub enum MetaReturn {
    Void,
    /// A value of the given Rust type (token text).
    Value(String),
    /// A `Result` with the given ok type (none for `()` or a suppressed
    /// `Self`) and error type.
    Result { ok: Option<String>, err_ident: String },
}

/// What a method returns, in the schema.
pub enum SchemaReturn {
    Void,
    Value(TypeRef),
    Result { ok: Option<TypeRef>, err_type: String },
}

/// The type reference of `Self` (named `self_type` in the schema), by value.
pub open spec fn self_ref(self_type: Seq<char>) -> TypeRefView {
    TypeRefView {
        name: self_type,
        ref_kind: RefKind::ByValue,
        ref_lifetime: None,
        type_args: Seq::empty(),
        optional: false,
        owned: false,
    }
}

/// A return converted: a builder's `-> Self` (void in the metadata) and a
/// builder's suppressed `Result<Self, E>` ok type become `Self`; other types
/// get their type reference.
pub open spec fn converted_return(ret: MetaReturn, is_builder: bool, self_type: Seq<char>, c: SchemaReturn) -> bool {
    match ret {
        MetaReturn::Void => if is_builder {
            c matches SchemaReturn::Value(t) && t@ == self_ref(self_type)
        } else {
            c is Void
        },
        MetaReturn::Value(rt) => c matches SchemaReturn::Value(t) && t@ == type_ref_spec(rt@),
        MetaReturn::Result { ok, err_ident } => c matches SchemaReturn::Result { ok: cok, err_type } && err_type@
            == err_ident@ && match ok {
            Some(rt) => cok matches Some(t) && t@ == type_ref_spec(rt@),
            None => if is_builder {
                cok matches Some(t) && t@ == self_ref(self_type)
            } else {
                cok is None
            },
        },
    }
}

fn self_type_ref(self_type: &str) -> (r: TypeRef)
    ensures
        r@ == self_ref(self_type@),
{
    let r = TypeRef {
        name: owned(self_type),
        ref_kind: RefKind::ByValue,
        ref_lifetime: None,
        type_args: Vec::new(),
        optional: false,
        owned: false,
    };
    assert(r@.type_args =~= Seq::<Seq<char>>::empty());
    r
}

/// The schema form of a method's return.
pub fn convert_return(ret: &MetaReturn, r: &CTypeResolver, is_builder: bool, self_type: &str) -> (out: SchemaReturn)
    ensures
        converted_return(*ret, is_builder, self_type@, out),
{
    match ret {
        MetaReturn::Void => if is_builder {
            SchemaReturn::Value(self_type_ref(self_type))
        } else {
            SchemaReturn::Void
        },
        MetaReturn::Value(rt) => SchemaReturn::Value(r.to_type_ref(rt.as_str())),
        MetaReturn::Result { ok, err_ident } => {
            let ok_ref = match ok {
                Some(rt) => Some(r.to_type_ref(rt.as_str())),
                None => if is_builder {
                    Some(self_type_ref(self_type))
                } else {
                    None
                },
            };
            SchemaReturn::Result { ok: ok_ref, err_type: err_ident.clone() }
        },
    }
}

// ---------------------------------------------------------------------------
// Methods
// ---------------------------------------------------------------------------

/// Where a method comes from, in the metadata.
pub enum MetaMethodContext {
    /// A method of an exported type, with its function name.
    Exportable { ffi_name: String },
    /// A trait method, with its vtable slot.
    Trait { has_default: bool, index: usize },
}

/// A method in the metadata.
pub struct MetaMethod {
    pub name: String,
    pub doc: Vec<String>,
    pub receiver: MetaReceiver,
    pub method_lifetimes: Vec<String>,
    pub params: Vec<MetaParam>,
    pub ret: MetaReturn,
    /// The method returns `Self`.
    pub is_builder: bool,
    pub context: MetaMethodContext,
}

/// Where a method comes from, in the schema.
pub enum SchemaMethodContext {
    Exportable { ffi_name: String },
    Trait { ffi_name: String, index: usize, has_default: bool },
}

/// A method in the schema.
pub struct SchemaMethod {
    pub name: String,
    pub doc: Vec<String>,
    pub receiver: Receiver,
    pub method_lifetimes: Vec<String>,
    pub params: Vec<SchemaParam>,
    pub ret: SchemaReturn,
    pub context: SchemaMethodContext,
}

/// The schema's receiver for a metadata receiver.
pub open spec fn receiver_of(r: MetaReceiver) -> Receiver {
    match r {
        MetaReceiver::NoSelf => Receiver::NoSelf,
        MetaReceiver::Ref => Receiver::Ref,
        MetaReceiver::Mut => Receiver::Mut,
        MetaReceiver::Value => Receiver::Value,
    }
}

/// The schema's receiver for a metadata receiver.
pub fn convert_receiver(r: MetaReceiver) -> (out: Receiver)
    ensures
        out == receiver_of(r),
{
    match r {
        MetaReceiver::NoSelf => Receiver::NoSelf,
        MetaReceiver::Ref => Receiver::Ref,
        MetaReceiver::Mut => Receiver::Mut,
        MetaReceiver::Value => Receiver::Value,
    }
}

/// Each parameter converted, in order.
pub open spec fn converted_params(type_pfx: Seq<char>, ps: Seq<MetaParam>, cs: Seq<SchemaParam>) -> bool {
    &&& cs.len() == ps.len()
    &&& forall|i: int| 0 <= i < ps.len() ==> converted_param(type_pfx, #[trigger] ps[i], cs[i])
}

/// A method converted: the same name, doc, receiver, lifetimes and
/// parameters; its return converted (a builder's returns become `Self`);
/// an exported method's function gets the function prefix, a trait
/// method's function is the prefix, the parent's prefix and its name.
pub open spec fn converted_method(
    r: CTypeResolver,
    m: MetaMethod,
    parent_ffi_prefix: Option<Seq<char>>,
    self_type: Seq<char>,
    c: SchemaMethod,
) -> bool {
    &&& c.name@ == m.name@
    &&& strings_view(c.doc@) == strings_view(m.doc@)
    &&& c.receiver == receiver_of(m.receiver)
    &&& strings_view(c.method_lifetimes@) == strings_view(m.method_lifetimes@)
    &&& converted_params(r.type_pfx@, m.params@, c.params@)
    &&& converted_return(m.ret, m.is_builder, self_type, c.ret)
    &&& match m.context {
        MetaMethodContext::Exportable { ffi_name } => c.context matches SchemaMethodContext::Exportable { ffi_name: f } && f@
            == r.fn_pfx@ + ffi_name@,
        MetaMethodContext::Trait { has_default, index } => c.context matches SchemaMethodContext::Trait {
            ffi_name: f,
            index: ci,
            has_default: cd,
        } && f@ == r.fn_pfx@ + parent_ffi_prefix->0 + m.name@ && ci == index && cd == has_default,
    }
}

fn convert_params(ps: &Vec<MetaParam>, r: &CTypeResolver) -> (out: Vec<SchemaParam>)
    ensures
        converted_params(r.type_pfx@, ps@, out@),
{
    let mut out: Vec<SchemaParam> = Vec::new();
    let mut i: usize = 0;
    while i < ps.len()
        invariant
            i <= ps@.len(),
            out@.len() == i,
            forall|k: int| 0 <= k < i ==> converted_param(r.type_pfx@, #[trigger] ps@[k], out@[k]),
        decreases ps@.len() - i,
    {
        let c = convert_param(&ps[i], r);
        out.push(c);
        i = i + 1;
    }
    out
}

/// The schema form of a method; `parent_ffi_prefix` is the snake-case
/// prefix of the trait or implementing type, which trait methods need.
pub fn convert_method(m: &MetaMethod, r: &CTypeResolver, parent_ffi_prefix: Option<&str>, self_type: &str) -> (out: SchemaMethod)
    requires
        m.context is Trait ==> parent_ffi_prefix is Some,
    ensures
        converted_method(
            *r,
            *m,
            match parent_ffi_prefix {
                Some(p) => Some(p@),
                None => None,
            },
            self_type@,
            out,
        ),
{
    let context = match &m.context {
        MetaMethodContext::Exportable { ffi_name } => SchemaMethodContext::Exportable { ffi_name: r.ffi_fn_name(ffi_name.as_str()) },
        MetaMethodContext::Trait { has_default, index } => {
            let prefix = match parent_ffi_prefix {
                Some(p) => p,
                None => "",
            };
            SchemaMethodContext::Trait {
                ffi_name: trait_method_ffi_name(r, prefix, m.name.as_str()),
                index: *index,
                has_default: *has_default,
            }
        },
    };
    SchemaMethod {
        name: m.name.clone(),
        doc: copy_all(&m.doc),
        receiver: convert_receiver(m.receiver),
        method_lifetimes: copy_all(&m.method_lifetimes),
        params: convert_params(&m.params, r),
        ret: convert_return(&m.ret, r, m.is_builder, self_type),
        context,
    }
}

fn convert_methods(ms: &Vec<MetaMethod>, r: &CTypeResolver, parent_ffi_prefix: Option<&str>, self_type: &str) -> (out: Vec<SchemaMethod>)
    requires
        forall|i: int| 0 <= i < ms@.len() ==> ((#[trigger] ms@[i]).context is Trait ==> parent_ffi_prefix is Some),
    ensures
        out@.len() == ms@.len(),
        forall|i: int|
            0 <= i < ms@.len() ==> converted_method(
                *r,
                #[trigger] ms@[i],
                match parent_ffi_prefix {
                    Some(p) => Some(p@),
                    None => None,
                },
                self_type@,
                out@[i],
            ),
{
    let mut out: Vec<SchemaMethod> = Vec::new();
    let mut i: usize = 0;
    while i < ms.len()
        invariant
            i <= ms@.len(),
            out@.len() == i,
            forall|k: int| 0 <= k < ms@.len() ==> ((#[trigger] ms@[k]).context is Trait ==> parent_ffi_prefix is Some),
            forall|k: int|
                0 <= k < i ==> converted_method(
                    *r,
                    #[trigger] ms@[k],
                    match parent_ffi_prefix {
                        Some(p) => Some(p@),
                        None => None,
                    },
                    self_type@,
                    out@[k],
                ),
        decreases ms@.len() - i,
    {
        let c = convert_method(&ms[i], r, parent_ffi_prefix, self_type);
        out.push(c);
        i = i + 1;
    }
    out
}

// ---------------------------------------------------------------------------
// Exported types, traits, trait impls and free functions
// ---------------------------------------------------------------------------

/// An exported type in the metadata.
pub struct MetaExportable {
    pub struct_name: String,
    pub methods: Vec<MetaMethod>,
}

/// An exported type in the schema.
pub struct SchemaExportedType {
    pub name: String,
    pub destroy_ffi_name: String,
    pub is_builder_type: bool,
    pub methods: Vec<SchemaMethod>,
}

/// A type is a builder type when one of its methods returns `Self` while
/// consuming `self` by value.
pub open spec fn builder_methods(ms: Seq<MetaMethod>) -> bool {
    exists|i: int| 0 <= i < ms.len() && (#[trigger] ms[i]).is_builder && ms[i].receiver == MetaReceiver::Value
}

/// The schema form of an exported type; its methods all come from the type.
pub fn convert_exportable(meta: &MetaExportable, r: &CTypeResolver, self_type: &str) -> (out: SchemaExportedType)
    requires
        forall|i: int| 0 <= i < meta.methods@.len() ==> (#[trigger] meta.methods@[i]).context is Exportable,
    ensures
        out.name@ == meta.struct_name@,
        out.destroy_ffi_name@ == destroy_fn_name(r.fn_pfx@, meta.struct_name@),
        out.is_builder_type == builder_methods(meta.methods@),
        out.methods@.len() == meta.methods@.len(),
        forall|i: int|
            0 <= i < meta.methods@.len() ==> converted_method(*r, #[trigger] meta.methods@[i], None, self_type@, out.methods@[i]),
{
    let mut is_builder_type = false;
    let mut i: usize = 0;
    while i < meta.methods.len()
        invariant
            i <= meta.methods@.len(),
            is_builder_type == exists|k: int|
                0 <= k < i && (#[trigger] meta.methods@[k]).is_builder && meta.methods@[k].receiver == MetaReceiver::Value,
        decreases meta.methods@.len() - i,
    {
        if meta.methods[i].is_builder && meta.methods[i].receiver == MetaReceiver::Value {
            is_builder_type = true;
        }
        i = i + 1;
    }
    SchemaExportedType {
        name: meta.struct_name.clone(),
        destroy_ffi_name: destroy_ffi_name(r, meta.struct_name.as_str()),
        is_builder_type,
        methods: convert_methods(&meta.methods, r, None, self_type),
    }
}

/// A trait implementable from C, in the metadata.
pub struct MetaImplementable {
    pub trait_name: String,
    pub methods: Vec<MetaMethod>,
    pub own_method_count: usize,
    pub max_vtable_slot: usize,
}

/// A trait implementable from C, in the schema.
pub struct SchemaTrait {
    pub name: String,
    pub names: TraitNames,
    pub methods: Vec<SchemaMethod>,
    pub own_method_count: usize,
    pub max_vtable_slot: usize,
}

/// The schema form of a trait implementable from C; its methods' functions
/// are prefixed with the trait's snake-case name.
pub fn convert_implementable(meta: &MetaImplementable, r: &CTypeResolver, self_type: &str) -> (out: SchemaTrait)
    ensures
        out.name@ == meta.trait_name@,
        out.names.destroy_ffi_name@ == destroy_fn_name(r.fn_pfx@, meta.trait_name@),
        out.names.type_tag_constant@ == r.upper_pfx@ + ascii_upper(camel_to_snake_spec(meta.trait_name@)) + "_TYPE_TAG"@,
        out.names.vtable_struct_c_name@ == r.type_pfx@ + meta.trait_name@ + "Vtable"@,
        out.names.wrapper_c_name@ == r.type_pfx@ + "Vtable"@ + meta.trait_name@,
        out.names.vtable_struct_name@ == meta.trait_name@ + "Vtable"@,
        out.names.wrapper_name@ == "Vtable"@ + meta.trait_name@,
        out.own_method_count == meta.own_method_count,
        out.max_vtable_slot == meta.max_vtable_slot,
        out.methods@.len() == meta.methods@.len(),
        forall|i: int|
            0 <= i < meta.methods@.len() ==> converted_method(
                *r,
                #[trigger] meta.methods@[i],
                Some(camel_to_snake_spec(meta.trait_name@) + "_"@),
                self_type@,
                out.methods@[i],
            ),
{
    let names = implementable_names(r, meta.trait_name.as_str());
    let methods = convert_methods(&meta.methods, r, Some(names.ffi_prefix.as_str()), self_type);
    SchemaTrait {
        name: meta.trait_name.clone(),
        names,
        methods,
        own_method_count: meta.own_method_count,
        max_vtable_slot: meta.max_vtable_slot,
    }
}

/// An impl of a trait for an exported type, in the metadata and in the
/// schema alike except for its methods.
pub struct MetaTraitImpl {
    pub trait_name: String,
    pub struct_name: String,
    pub lifetimes: Vec<String>,
    pub trait_lifetime_args: Vec<String>,
    pub struct_lifetime_args: Vec<String>,
    pub methods: Vec<MetaMethod>,
}

/// A trait impl in the schema.
pub struct SchemaTraitImpl {
    pub trait_name: String,
    pub struct_name: String,
    pub lifetimes: Vec<String>,
    pub trait_lifetime_args: Vec<String>,
    pub struct_lifetime_args: Vec<String>,
    pub methods: Vec<SchemaMethod>,
}

/// The schema form of a trait impl; its methods' functions are prefixed
/// with the implementing type's snake-case name.
pub fn convert_trait_impl(meta: &MetaTraitImpl, r: &CTypeResolver, self_type: &str) -> (out: SchemaTraitImpl)
    ensures
        out.trait_name@ == meta.trait_name@,
        out.struct_name@ == meta.struct_name@,
        strings_view(out.lifetimes@) == strings_view(meta.lifetimes@),
        strings_view(out.trait_lifetime_args@) == strings_view(meta.trait_lifetime_args@),
        strings_view(out.struct_lifetime_args@) == strings_view(meta.struct_lifetime_args@),
        out.methods@.len() == meta.methods@.len(),
        forall|i: int|
            0 <= i < meta.methods@.len() ==> converted_method(
                *r,
                #[trigger] meta.methods@[i],
                Some(camel_to_snake_spec(meta.struct_name@) + "_"@),
                self_type@,
                out.methods@[i],
            ),
{
    let mut prefix = camel_to_snake(meta.struct_name.as_str());
    push_str(&mut prefix, "_");
    SchemaTraitImpl {
        trait_name: meta.trait_name.clone(),
        struct_name: meta.struct_name.clone(),
        lifetimes: copy_all(&meta.lifetimes),
        trait_lifetime_args: copy_all(&meta.trait_lifetime_args),
        struct_lifetime_args: copy_all(&meta.struct_lifetime_args),
        methods: convert_methods(&meta.methods, r, Some(prefix.as_str()), self_type),
    }
}

/// A free function in the metadata: its one method carries its parameters
/// and return.
pub struct MetaFreeFunction {
    pub name: String,
    pub ffi_name: String,
    pub doc: Vec<String>,
    pub methods: Vec<MetaMethod>,
}

/// A free function in the schema.
pub struct SchemaFreeFunction {
    pub name: String,
    pub ffi_name: String,
    pub doc: Vec<String>,
    pub params: Vec<SchemaParam>,
    pub ret: SchemaReturn,
}

/// The schema form of a free function.
pub fn convert_free_fn(meta: &MetaFreeFunction, r: &CTypeResolver, self_type: &str) -> (out: SchemaFreeFunction)
    requires
        meta.methods@.len() > 0,
    ensures
        out.name@ == meta.name@,
        out.ffi_name@ == r.fn_pfx@ + meta.ffi_name@,
        strings_view(out.doc@) == strings_view(meta.doc@),
        converted_params(r.type_pfx@, meta.methods@[0].params@, out.params@),
        converted_return(meta.methods@[0].ret, false, self_type@, out.ret),
{
    let m = &meta.methods[0];
    SchemaFreeFunction {
        name: meta.name.clone(),
        ffi_name: r.ffi_fn_name(meta.ffi_name.as_str()),
        doc: copy_all(&meta.doc),
        params: convert_params(&m.params, r),
        ret: convert_return(&m.ret, r, false, self_type),
    }
}

} // verus!
