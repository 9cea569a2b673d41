//! Error codes across the C boundary.
//!
//! A result is a 64-bit value: the type tag of the error type in the upper
//! 32 bits and the error code in the lower 32 bits (`tag << 32 | code`);
//! `0` means success.  Error enums export, per variant, a code, a static
//! message and an upper-snake-case constant name.

use vstd::prelude::*;
use crate::naming::{camel_to_snake, camel_to_snake_spec, camel_to_upper_snake, camel_to_upper_snake_spec, humanize, humanize_spec, underscores_to_spaces};
use crate::text::{owned, push_char, push_str};

verus! {

/// `2^32`.
pub open spec fn two_32() -> nat {
    4294967296
}

/// The 64-bit result value for an error `code` of the type with `type_tag`.
pub open spec fn result_value(type_tag: u32, code: u32) -> nat {
    (type_tag as nat) * two_32() + (code as nat)
}

/// The success result.
pub const RESULT_SUCCESS: u64 = 0;

/// Packs a type tag and an error code into one result value
/// (`(uint64_t)type_tag << 32 | code`).
pub fn ffier_result(type_tag: u32, code: u32) -> (r: u64)
    ensures
        r as nat == result_value(type_tag, code),
{
    assert((type_tag as nat) * two_32() + (code as nat) <= u64::MAX) by (nonlinear_arith)
        requires
            type_tag <= u32::MAX,
            code <= u32::MAX,
    ;
    (type_tag as u64) * 4294967296u64 + (code as u64)
}

/// The error code held in a result value (its lower 32 bits).
pub fn ffier_result_code(r: u64) -> (c: u32)
    ensures
        c as nat == (r as nat) % two_32(),
{
    (r % 4294967296u64) as u32
}

/// The type tag held in a result value (its upper 32 bits).
pub fn ffier_result_type_tag(r: u64) -> (t: u32)
    ensures
        t as nat == (r as nat) / two_32(),
{
    (r / 4294967296u64) as u32
}

/// Unpacking a packed result gives back the tag and the code, and the packed
/// value is the success value exactly when both are zero.
pub proof fn lemma_result_roundtrip(type_tag: u32, code: u32)
    ensures
        result_value(type_tag, code) % two_32() == code as nat,
        result_value(type_tag, code) / two_32() == type_tag as nat,
        (result_value(type_tag, code) == 0) <==> (type_tag == 0 && code == 0),
{
    assert(((type_tag as nat) * two_32() + (code as nat)) % two_32() == code as nat) by (nonlinear_arith)
        requires
            code < two_32(),
    ;
    assert(((type_tag as nat) * two_32() + (code as nat)) / two_32() == type_tag as nat) by (nonlinear_arith)
        requires
            code < two_32(),
    ;
}

/// Every result value splits into a tag and a code that pack back into it.
pub proof fn lemma_result_split(r: u64)
    ensures
        result_value(((r as nat) / two_32()) as u32, ((r as nat) % two_32()) as u32) == r as nat,
{
    assert((r as nat) / two_32() <= u32::MAX) by (nonlinear_arith)
        requires
            r <= u64::MAX,
    ;
    assert(((r as nat) / two_32()) * two_32() + (r as nat) % two_32() == r as nat) by (nonlinear_arith);
}

// ---------------------------------------------------------------------------
// Static messages and constant names of error variants
// ---------------------------------------------------------------------------

/// The shape of a variant's fields.
#[derive(Clone, Copy, PartialEq, Eq, Debug, Structural)]
pub enum VariantFields {
    Unit,
    Unnamed,
    Named,
}

/// One variant of an exported error enum: its name, its code, and the
/// message given with `message = "..."`, if any.
pub struct ErrorVariant {
    pub name: String,
    pub code: u32,
    pub message: Option<String>,
    pub fields: VariantFields,
}

/// The plain-value form of an [`ErrorVariant`].
pub struct ErrorVariantView {
    pub name: Seq<char>,
    pub code: u32,
    pub message: Option<Seq<char>>,
    pub fields: VariantFields,
}

impl View for ErrorVariant {
    type V = ErrorVariantView;

    open spec fn view(&self) -> ErrorVariantView {
        ErrorVariantView {
            name: self.name@,
            code: self.code,
            message: match self.message {
                Some(m) => Some(m@),
                None => None,
            },
            fields: self.fields,
        }
    }
}

/// The views of a list of variants.
pub open spec fn variants_view(vs: Seq<ErrorVariant>) -> Seq<ErrorVariantView> {
    vs.map_values(|v: ErrorVariant| v@)
}

/// The static message of a variant: the explicit message if given; else,
/// for a unit variant, the humanized variant name (`DivisionByZero` →
/// `division by zero`); for a variant with fields, the name followed by
/// `(...)` or `{..}`.
pub open spec fn variant_message(v: ErrorVariantView) -> Seq<char> {
    match v.message {
        Some(m) => m,
        None => match v.fields {
            VariantFields::Unit => humanize_spec(v.name),
            VariantFields::Unnamed => v.name + "(...)"@,
            VariantFields::Named => v.name + "{..}"@,
        },
    }
}

/// The message for a code that no variant has: `unknown <name> error`,
/// with the error type's name in snake case and `_` replaced by spaces.
pub open spec fn unknown_message(error_name: Seq<char>) -> Seq<char> {
    "unknown "@ + underscores_to_spaces(camel_to_snake_spec(error_name)) + " error"@
}

/// Index of the first variant with `code`, if any.
pub open spec fn first_with_code(vs: Seq<ErrorVariantView>, code: u32) -> Option<int>
    decreases vs.len(),
{
    if vs.len() == 0 {
        None
    } else if vs[0].code == code {
        Some(0)
    } else {
        match first_with_code(vs.drop_first(), code) {
            Some(i) => Some(i + 1),
            None => None,
        }
    }
}

/// The static message for `code`: the message of the first variant with that
/// code, or the unknown-code message.
pub open spec fn static_message_spec(error_name: Seq<char>, vs: Seq<ErrorVariantView>, code: u32) -> Seq<char> {
    match first_with_code(vs, code) {
        Some(i) => variant_message(vs[i]),
        None => unknown_message(error_name),
    }
}

proof fn lemma_first_with_code(vs: Seq<ErrorVariantView>, code: u32, k: int)
    requires
        0 <= k <= vs.len(),
        forall|j: int| 0 <= j < k ==> #[trigger] vs[j].code != code,
    ensures
        k < vs.len() && vs[k].code == code ==> first_with_code(vs, code) == Some(k),
        k == vs.len() ==> first_with_code(vs, code) is None,
    decreases k,
{
    if k > 0 {
        assert forall|j: int| 0 <= j < k - 1 implies #[trigger] vs.drop_first()[j].code != code by {
            assert(vs.drop_first()[j] == vs[j + 1]);
        }
        lemma_first_with_code(vs.drop_first(), code, k - 1);
        if k < vs.len() {
            assert(vs.drop_first()[k - 1] == vs[k]);
        }
    }
}

/// Computes the static message of one variant.
pub fn variant_message_of(v: &ErrorVariant) -> (r: String)
    ensures
        r@ == variant_message(v@),
{
    match &v.message {
        Some(m) => m.clone(),
        None => match v.fields {
            VariantFields::Unit => humanize(v.name.as_str()),
            VariantFields::Unnamed => {
                let mut s = v.name.clone();
                push_str(&mut s, "(...)");
                s
            },
            VariantFields::Named => {
                let mut s = v.name.clone();
                push_str(&mut s, "{..}");
                s
            },
        },
    }
}

/// The message for an unknown code of the error type `error_name`.
pub fn unknown_message_of(error_name: &str) -> (r: String)
    ensures
        r@ == unknown_message(error_name@),
{
    let snake = camel_to_snake(error_name);
    let mut out = owned("unknown ");
    let v = crate::text::chars_of(snake.as_str());
    let ghost out0 = out@;
    let mut i: usize = 0;
    while i < v.len()
        invariant
            v@ == camel_to_snake_spec(error_name@),
            i <= v@.len(),
            out@ == out0 + underscores_to_spaces(v@.take(i as int)),
        decreases v@.len() - i,
    {
        let c = v[i];
        push_char(&mut out, if c == '_' { ' ' } else { c });
        i = i + 1;
        assert(underscores_to_spaces(v@.take(i as int)) =~= underscores_to_spaces(v@.take(i - 1)).push(
            if c == '_' { ' ' } else { c },
        ));
    }
    assert(v@.take(v@.len() as int) =~= v@);
    push_str(&mut out, " error");
    out
}

/// The static message for `code` among `variants` of the error type
/// `error_name` (what `static_message` of a derived error returns).
pub fn static_message(error_name: &str, variants: &[ErrorVariant], code: u32) -> (r: String)
    ensures
        r@ == static_message_spec(error_name@, variants_view(variants@), code),
{
    let mut i: usize = 0;
    while i < variants.len()
        invariant
            i <= variants@.len(),
            forall|j: int| 0 <= j < i ==> #[trigger] variants_view(variants@)[j].code != code,
        decreases variants@.len() - i,
    {
        if variants[i].code == code {
            proof {
                lemma_first_with_code(variants_view(variants@), code, i as int);
            }
            return variant_message_of(&variants[i]);
        }
        i = i + 1;
    }
    proof {
        lemma_first_with_code(variants_view(variants@), code, i as int);
    }
    unknown_message_of(error_name)
}

/// The `(CONSTANT_NAME, code)` table of an error type: one entry per
/// variant, in declaration order, with the variant name in upper snake case.
pub fn codes_table(variants: &[ErrorVariant]) -> (r: Vec<(String, u32)>)
    ensures
        r@.len() == variants@.len(),
        forall|i: int|
            0 <= i < r@.len() ==> (#[trigger] r@[i]).0@ == camel_to_upper_snake_spec(variants@[i].name@)
                && r@[i].1 == variants@[i].code,
{
    let mut out: Vec<(String, u32)> = Vec::new();
    let mut i: usize = 0;
    while i < variants.len()
        invariant
            i <= variants@.len(),
            out@.len() == i,
            forall|j: int|
                0 <= j < i ==> (#[trigger] out@[j]).0@ == camel_to_upper_snake_spec(variants@[j].name@)
                    && out@[j].1 == variants@[j].code,
        decreases variants@.len() - i,
    {
        let name = camel_to_upper_snake(variants[i].name.as_str());
        out.push((name, variants[i].code));
        i = i + 1;
    }
    out
}

// ---------------------------------------------------------------------------
// Attributes of error variants
// ---------------------------------------------------------------------------

/// One key of a variant's `#[ffier(..)]` attribute.
pub enum VariantKey {
    /// `code = N`.
    Code(u32),
    /// `message = "..."`.
    Message(String),
    /// Any other key.
    Other(String),
}

/// An attribute of an error variant: `#[ffier(..)]` with its keys, or
/// another attribute.
pub enum VariantAttr {
    Ffier(Vec<VariantKey>),
    Other,
}

/// What a variant's attribute gives: its code and its message, if any.
pub struct VariantAttrs {
    pub code: u32,
    pub message: Option<String>,
}

/// The message for a key other than `code` and `message`.
pub open spec fn variant_key_message() -> Seq<char> {
    "expected `code` or `message`"@
}

/// The message for an attribute without `code`.
pub open spec fn missing_code_message() -> Seq<char> {
    "missing `code` in #[ffier(code = N)]"@
}

/// The message for a variant without an `#[ffier(..)]` attribute.
pub open spec fn missing_attr_message() -> Seq<char> {
    "missing #[ffier(code = N)] attribute on variant"@
}

/// The code and message that the keys give, in order (a later key wins), or
/// the message for the first other key.
pub open spec fn variant_keys_spec(keys: Seq<VariantKey>) -> Result<(Option<u32>, Option<Seq<char>>), Seq<char>>
    decreases keys.len(),
{
    if keys.len() == 0 {
        Ok((None, None))
    } else {
        match variant_keys_spec(keys.drop_last()) {
            Err(e) => Err(e),
            Ok((c, m)) => match keys.last() {
                VariantKey::Code(n) => Ok((Some(n), m)),
                VariantKey::Message(t) => Ok((c, Some(t@))),
                VariantKey::Other(_) => Err(variant_key_message()),
            },
        }
    }
}

/// The position of the first `#[ffier(..)]` attribute.
pub open spec fn first_ffier_attr(attrs: Seq<VariantAttr>) -> Option<int>
    decreases attrs.len(),
{
    if attrs.len() == 0 {
        None
    } else {
        match first_ffier_attr(attrs.drop_last()) {
            Some(i) => Some(i),
            None => if attrs.last() is Ffier {
                Some(attrs.len() - 1)
            } else {
                None
            },
        }
    }
}

/// What a variant's attributes give: the first `#[ffier(..)]` attribute
/// decides (later ones are not read), and it must give a code.
pub open spec fn variant_attrs_spec(attrs: Seq<VariantAttr>) -> Result<(u32, Option<Seq<char>>), Seq<char>> {
    match first_ffier_attr(attrs) {
        None => Err(missing_attr_message()),
        Some(i) => match attrs[i] {
            VariantAttr::Ffier(keys) => match variant_keys_spec(keys@) {
                Err(e) => Err(e),
                Ok((None, _)) => Err(missing_code_message()),
                Ok((Some(c), m)) => Ok((c, m)),
            },
            VariantAttr::Other => Err(missing_attr_message()),
        },
    }
}

proof fn lemma_keys_error_stays(keys: Seq<VariantKey>, n: int)
    requires
        0 <= n <= keys.len(),
        variant_keys_spec(keys.take(n)) is Err,
    ensures
        variant_keys_spec(keys) == variant_keys_spec(keys.take(n)),
    decreases keys.len() - n,
{
    if n < keys.len() {
        assert(keys.take(n + 1).drop_last() =~= keys.take(n));
        lemma_keys_error_stays(keys, n + 1);
    } else {
        assert(keys.take(n) =~= keys);
    }
}

proof fn lemma_first_ffier_found(attrs: Seq<VariantAttr>, n: int)
    requires
        0 <= n < attrs.len(),
        first_ffier_attr(attrs.take(n)) is None,
        attrs[n] is Ffier,
    ensures
        first_ffier_attr(attrs) == Some(n),
{
    assert(attrs.take(n + 1).drop_last() =~= attrs.take(n));
    assert(first_ffier_attr(attrs.take(n + 1)) == Some(n));
    lemma_first_ffier_stays(attrs, n + 1);
}

proof fn lemma_first_ffier_stays(attrs: Seq<VariantAttr>, n: int)
    requires
        0 <= n <= attrs.len(),
        first_ffier_attr(attrs.take(n)) is Some,
    ensures
        first_ffier_attr(attrs) == first_ffier_attr(attrs.take(n)),
    decreases attrs.len() - n,
{
    if n < attrs.len() {
        assert(attrs.take(n + 1).drop_last() =~= attrs.take(n));
        lemma_first_ffier_stays(attrs, n + 1);
    } else {
        assert(attrs.take(n) =~= attrs);
    }
}

fn parse_variant_keys(keys: &[VariantKey]) -> (r: Result<(Option<u32>, Option<String>), String>)
    ensures
        match r {
            Ok((c, m)) => variant_keys_spec(keys@) == Ok::<(Option<u32>, Option<Seq<char>>), Seq<char>>((
                c,
                match m {
                    Some(t) => Some(t@),
                    None => None,
                },
            )),
            Err(e) => variant_keys_spec(keys@) == Err::<(Option<u32>, Option<Seq<char>>), Seq<char>>(e@),
        },
{
    let mut code: Option<u32> = None;
    let mut message: Option<String> = None;
    let mut i: usize = 0;
    assert(keys@.take(0) =~= Seq::<VariantKey>::empty());
    while i < keys.len()
        invariant
            i <= keys@.len(),
            variant_keys_spec(keys@.take(i as int)) == Ok::<(Option<u32>, Option<Seq<char>>), Seq<char>>((
                code,
                match message {
                    Some(t) => Some(t@),
                    None => None,
                },
            )),
        decreases keys@.len() - i,
    {
        assert(keys@.take(i + 1).drop_last() =~= keys@.take(i as int));
        assert(keys@.take(i + 1).last() == keys@[i as int]);
        match &keys[i] {
            VariantKey::Code(n) => code = Some(*n),
            VariantKey::Message(t) => message = Some(t.clone()),
            VariantKey::Other(_) => {
                proof {
                    lemma_keys_error_stays(keys@, i + 1);
                }
                return Err(owned("expected `code` or `message`"));
            },
        }
        i = i + 1;
    }
    assert(keys@.take(keys@.len() as int) =~= keys@);
    Ok((code, message))
}

/// Reads an error variant's `#[ffier(code = N, message = "...")]`.
pub fn parse_ffier_variant_attrs(attrs: &[VariantAttr]) -> (r: Result<VariantAttrs, String>)
    ensures
        match r {
            Ok(a) => variant_attrs_spec(attrs@) == Ok::<(u32, Option<Seq<char>>), Seq<char>>((
                a.code,
                match a.message {
                    Some(t) => Some(t@),
                    None => None,
                },
            )),
            Err(e) => variant_attrs_spec(attrs@) == Err::<(u32, Option<Seq<char>>), Seq<char>>(e@),
        },
{
    let mut i: usize = 0;
    assert(attrs@.take(0) =~= Seq::<VariantAttr>::empty());
    while i < attrs.len()
        invariant
            i <= attrs@.len(),
            first_ffier_attr(attrs@.take(i as int)) is None,
        decreases attrs@.len() - i,
    {
        match &attrs[i] {
            VariantAttr::Ffier(keys) => {
                proof {
                    lemma_first_ffier_found(attrs@, i as int);
                }
                return match parse_variant_keys(keys.as_slice()) {
                    Err(e) => Err(e),
                    Ok((None, _)) => Err(owned("missing `code` in #[ffier(code = N)]")),
                    Ok((Some(code), message)) => Ok(VariantAttrs { code, message }),
                };
            },
            VariantAttr::Other => {},
        }
        assert(attrs@.take(i + 1).drop_last() =~= attrs@.take(i as int));
        i = i + 1;
    }
    assert(attrs@.take(attrs@.len() as int) =~= attrs@);
    Err(owned("missing #[ffier(code = N)] attribute on variant"))
}

} // verus!
