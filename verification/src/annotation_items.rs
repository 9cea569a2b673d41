//! Items the annotation macros emit beside the annotated item: the handle
//! impls of an exported type (`FfiHandle` and `FfiType`), and the impl of a
//! trait for its boxed trait object that forwards every method.

use vstd::prelude::*;
use crate::text::{join_spec, join_strings, owned, push_str, strings_view};

verus! {

/// The `FfiHandle` and `FfiType` impls of an exported type `ty`, whose C
/// handle is named `c_handle_name` and whose type tag is the constant
/// `tag_const`: the handle is found from the value by the value's offset
/// in the handle box, a value is moved into a new handle with its tag, and
/// taken back out of one.
pub open spec fn ffi_handle_impls_text(ty: Seq<char>, c_handle_name: Seq<char>, tag_const: Seq<char>) -> Seq<char> {
    "impl ffier::FfiHandle for "@ + ty + " {\n"@ + "    const C_HANDLE_NAME: &str = \""@ + c_handle_name + "\";\n"@
        + "    const TYPE_TAG: u32 = "@ + tag_const + ";\n"@ + "    unsafe fn as_handle(&self) -> *mut core::ffi::c_void {\n"@
        + "        let ptr = (self as *const Self as *const u8)\n"@ + "            .wrapping_sub(ffier::HANDLE_VALUE_OFFSET);\n"@
        + "        ptr as *mut core::ffi::c_void\n"@ + "    }\n"@ + "}\n\n"@ + "impl ffier::FfiType for "@ + ty + " {\n"@
        + "    type CRepr = *mut core::ffi::c_void;\n"@ + "    const C_TYPE_NAME: &str = \""@ + c_handle_name + "\";\n"@
        + "    const IS_HANDLE: bool = true;\n"@ + "    fn into_c(self) -> *mut core::ffi::c_void {\n"@
        + "        ffier::ffier_handle_new(<Self as ffier::FfiHandle>::TYPE_TAG, self)\n"@ + "    }\n"@
        + "    fn from_c(repr: *mut core::ffi::c_void) -> Self {\n"@ + "        unsafe { ffier::ffier_handle_consume::<Self>(repr) }\n"@
        + "    }\n"@ + "}\n"@
}

/// The handle impls of an exported type.
pub fn ffi_handle_impls(ty: &str, c_handle_name: &str, tag_const: &str) -> (r: String)
    ensures
        r@ == ffi_handle_impls_text(ty@, c_handle_name@, tag_const@),
{
    let mut s = owned("impl ffier::FfiHandle for ");
    push_str(&mut s, ty);
    push_str(&mut s, " {\n");
    push_str(&mut s, "    const C_HANDLE_NAME: &str = \"");
    push_str(&mut s, c_handle_name);
    push_str(&mut s, "\";\n");
    push_str(&mut s, "    const TYPE_TAG: u32 = ");
    push_str(&mut s, tag_const);
    push_str(&mut s, ";\n");
    push_str(&mut s, "    unsafe fn as_handle(&self) -> *mut core::ffi::c_void {\n");
    push_str(&mut s, "        let ptr = (self as *const Self as *const u8)\n");
    push_str(&mut s, "            .wrapping_sub(ffier::HANDLE_VALUE_OFFSET);\n");
    push_str(&mut s, "        ptr as *mut core::ffi::c_void\n");
    push_str(&mut s, "    }\n");
    push_str(&mut s, "}\n\n");
    push_str(&mut s, "impl ffier::FfiType for ");
    push_str(&mut s, ty);
    push_str(&mut s, " {\n");
    push_str(&mut s, "    type CRepr = *mut core::ffi::c_void;\n");
    push_str(&mut s, "    const C_TYPE_NAME: &str = \"");
    push_str(&mut s, c_handle_name);
    push_str(&mut s, "\";\n");
    push_str(&mut s, "    const IS_HANDLE: bool = true;\n");
    push_str(&mut s, "    fn into_c(self) -> *mut core::ffi::c_void {\n");
    push_str(&mut s, "        ffier::ffier_handle_new(<Self as ffier::FfiHandle>::TYPE_TAG, self)\n");
    push_str(&mut s, "    }\n");
    push_str(&mut s, "    fn from_c(repr: *mut core::ffi::c_void) -> Self {\n");
    push_str(&mut s, "        unsafe { ffier::ffier_handle_consume::<Self>(repr) }\n");
    push_str(&mut s, "    }\n");
    push_str(&mut s, "}\n");
    assert(s@ =~= ffi_handle_impls_text(ty@, c_handle_name@, tag_const@));
    s
}

/// A trait method as the forwarding impl sees it.
pub struct TraitFnSig {
    /// The signature, as text.
    pub sig: String,
    pub name: String,
    /// The first parameter is a receiver.
    pub has_receiver: bool,
    /// The names of the parameters after the receiver that are plain
    /// identifiers, in order.
    pub param_names: Vec<String>,
}

/// The forwarding of one method: `sig { self.0.name(params) }`.
pub open spec fn forward_text(m: TraitFnSig) -> Seq<char> {
    "    "@ + m.sig@ + " { self.0."@ + m.name@ + "("@ + join_spec(strings_view(m.param_names@), ", "@) + ") }\n"@
}

/// The forwarding of the methods with a receiver, in order; the others
/// are left out.
pub open spec fn forwards_text(ms: Seq<TraitFnSig>) -> Seq<char>
    decreases ms.len(),
{
    if ms.len() == 0 {
        Seq::empty()
    } else {
        forwards_text(ms.drop_last()) + if ms.last().has_receiver {
            forward_text(ms.last())
        } else {
            Seq::empty()
        }
    }
}

/// `impl Trait for ffier::FfierBoxDyn<dyn Trait>`, each method calling the
/// boxed object's.
pub open spec fn boxdyn_impl_text(trait_name: Seq<char>, ms: Seq<TraitFnSig>) -> Seq<char> {
    "impl "@ + trait_name + " for ffier::FfierBoxDyn<dyn "@ + trait_name + "> {\n"@ + forwards_text(ms) + "}\n"@
}

/// The impl of a trait for its boxed trait object, forwarding each method
/// that has a receiver.
pub fn boxdyn_impl(trait_name: &str, ms: &Vec<TraitFnSig>) -> (r: String)
    ensures
        r@ == boxdyn_impl_text(trait_name@, ms@),
{
    let mut s = owned("impl ");
    push_str(&mut s, trait_name);
    push_str(&mut s, " for ffier::FfierBoxDyn<dyn ");
    push_str(&mut s, trait_name);
    push_str(&mut s, "> {\n");
    let ghost s0 = s@;
    let mut i: usize = 0;
    assert(ms@.take(0) =~= Seq::<TraitFnSig>::empty());
    assert(s@ =~= s0 + forwards_text(ms@.take(0)));
    while i < ms.len()
        invariant
            i <= ms@.len(),
            s@ == s0 + forwards_text(ms@.take(i as int)),
        decreases ms@.len() - i,
    {
        let m = &ms[i];
        if m.has_receiver {
            push_str(&mut s, "    ");
            push_str(&mut s, m.sig.as_str());
            push_str(&mut s, " { self.0.");
            push_str(&mut s, m.name.as_str());
            push_str(&mut s, "(");
            push_str(&mut s, join_strings(m.param_names.as_slice(), ", ").as_str());
            push_str(&mut s, ") }\n");
        }
        assert(ms@.take(i + 1).drop_last() =~= ms@.take(i as int));
        assert(ms@.take(i + 1).last() == ms@[i as int]);
        i = i + 1;
        assert(s@ =~= s0 + forwards_text(ms@.take(i as int)));
    }
    assert(ms@.take(ms@.len() as int) =~= ms@);
    push_str(&mut s, "}\n");
    assert(s@ =~= boxdyn_impl_text(trait_name@, ms@));
    s
}

} // verus!
