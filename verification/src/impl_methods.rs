//! The methods that `#[exportable]` and `#[trait_impl]` read from an impl
//! block: those of an exported type, each with its C name, and those of a
//! trait impl, as their `#[ffier(..)]` attributes leave them.

use vstd::prelude::*;
use crate::method_sig::{method_fields_ok, method_info_ok, parse_method_sig, receiver_spec, MethodInfo, MethodSig};
use crate::naming::{camel_to_snake, camel_to_snake_spec};
use crate::syntax::TypeExpr;
use crate::text::{owned, push_str, strings_view};
use crate::vtable_methods::{attrs_spec, parse_ffier_method_attrs, FfierAttrItem};

verus! {

// ---------------------------------------------------------------------------
// Methods of an exported type
// ---------------------------------------------------------------------------

/// A method of an impl block of an exported type.
pub struct ExportItem {
    pub sig: MethodSig,
    /// The method is `pub`.
    pub public: bool,
}

/// The method is exported: every method of a trait impl, the public ones of
/// an inherent impl.
pub open spec fn is_exported(it: ExportItem, inherent: bool) -> bool {
    !inherent || it.public
}

/// The positions of the exported methods, in order.
pub open spec fn exported_positions(items: Seq<ExportItem>, inherent: bool) -> Seq<int>
    decreases items.len(),
{
    if items.len() == 0 {
        Seq::empty()
    } else if is_exported(items.last(), inherent) {
        exported_positions(items.drop_last(), inherent).push(items.len() - 1)
    } else {
        exported_positions(items.drop_last(), inherent)
    }
}

/// The warning for a method of an inherent impl that is left out.
pub open spec fn skip_warning(name: Seq<char>) -> Seq<char> {
    "ffier: skipping non-public method `"@ + name + "`; make it `pub` to export via FFI"@
}

/// The warnings for the methods left out, in order.
pub open spec fn skip_warnings(items: Seq<ExportItem>, inherent: bool) -> Seq<Seq<char>>
    decreases items.len(),
{
    if items.len() == 0 {
        Seq::empty()
    } else if is_exported(items.last(), inherent) {
        skip_warnings(items.drop_last(), inherent)
    } else {
        skip_warnings(items.drop_last(), inherent).push(skip_warning(items.last().sig.name@))
    }
}

/// The C name of a method of an exported type: `<type in snake case>_<method>`.
pub open spec fn export_ffi_name(struct_name: Seq<char>, method: Seq<char>) -> Seq<char> {
    camel_to_snake_spec(struct_name) + "_"@ + method
}

/// The methods read from an exported type's impl block: each exported
/// method as its signature gives it (with `Self` the type), named
/// `<type>_<method>` in C.
pub open spec fn exported_methods_ok(
    items: Seq<ExportItem>,
    inherent: bool,
    struct_name: Seq<char>,
    self_ty: TypeExpr,
    self_static: TypeExpr,
    ms: Seq<MethodInfo>,
) -> bool {
    let ps = exported_positions(items, inherent);
    &&& ms.len() == ps.len()
    &&& forall|k: int|
        0 <= k < ps.len() ==> method_fields_ok(items[ps[k]].sig, Some(self_ty), Some(self_static), false, false, 0, #[trigger] ms[k])
            && ms[k].ffi_name@ == export_ffi_name(struct_name, items[ps[k]].sig.name@)
}

proof fn lemma_exported_positions(items: Seq<ExportItem>, inherent: bool)
    ensures
        forall|k: int| 0 <= k < exported_positions(items, inherent).len() ==> 0 <= #[trigger] exported_positions(items, inherent)[k] < items.len(),
    decreases items.len(),
{
    if items.len() > 0 {
        let d = items.drop_last();
        lemma_exported_positions(d, inherent);
        let ps = exported_positions(d, inherent);
        assert forall|k: int| 0 <= k < exported_positions(items, inherent).len() implies 0 <= #[trigger] exported_positions(
            items,
            inherent,
        )[k] < items.len() by {
            if k < ps.len() {
                assert(exported_positions(items, inherent)[k] == ps[k]);
            }
        }
    }
}

/// Reads the methods of an exported type's impl block (`inherent` when it
/// is not a trait impl), with the warnings for the methods left out.
pub fn collect_exportable_methods(
    struct_name: &str,
    inherent: bool,
    items: &[ExportItem],
    self_ty: &TypeExpr,
    self_static: &TypeExpr,
) -> (r: (Vec<MethodInfo>, Vec<String>))
    ensures
        exported_methods_ok(items@, inherent, struct_name@, *self_ty, *self_static, r.0@),
        strings_view(r.1@) == skip_warnings(items@, inherent),
{
    let snake = camel_to_snake(struct_name);
    let mut ms: Vec<MethodInfo> = Vec::new();
    let mut warnings: Vec<String> = Vec::new();
    let mut i: usize = 0;
    assert(items@.take(0) =~= Seq::<ExportItem>::empty());
    while i < items.len()
        invariant
            i <= items@.len(),
            snake@ == camel_to_snake_spec(struct_name@),
            exported_methods_ok(items@.take(i as int), inherent, struct_name@, *self_ty, *self_static, ms@),
            strings_view(warnings@) == skip_warnings(items@.take(i as int), inherent),
        decreases items@.len() - i,
    {
        let ghost pre = items@.take(i as int);
        let ghost cur = items@.take(i + 1);
        assert(cur.drop_last() =~= pre);
        assert(cur.last() == items@[i as int]);
        proof {
            lemma_exported_positions(pre, inherent);
        }
        let it = &items[i];
        if inherent && !it.public {
            let mut w = owned("ffier: skipping non-public method `");
            push_str(&mut w, it.sig.name.as_str());
            push_str(&mut w, "`; make it `pub` to export via FFI");
            let ghost before = warnings@;
            warnings.push(w);
            assert(strings_view(warnings@) =~= strings_view(before).push(w@));
            proof {
                let ps = exported_positions(pre, inherent);
                assert(exported_positions(cur, inherent) == ps);
                assert forall|k: int| 0 <= k < ps.len() implies cur[ps[k]] == pre[ps[k]] by {}
            }
        } else {
            let parsed = parse_method_sig(&it.sig, Some(self_ty), Some(self_static), false, false);
            match parsed {
                Some(m) => {
                    let mut m = m;
                    let mut name = snake.clone();
                    push_str(&mut name, "_");
                    push_str(&mut name, it.sig.name.as_str());
                    m.ffi_name = name;
                    let ghost ms0 = ms@;
                    ms.push(m);
                    proof {
                        let ps = exported_positions(pre, inherent);
                        let ps1 = exported_positions(cur, inherent);
                        assert(ps1 == ps.push(i as int));
                        assert forall|k: int| 0 <= k < ps1.len() implies method_fields_ok(
                            cur[ps1[k]].sig,
                            Some(*self_ty),
                            Some(*self_static),
                            false,
                            false,
                            0,
                            #[trigger] ms@[k],
                        ) && ms@[k].ffi_name@ == export_ffi_name(struct_name@, cur[ps1[k]].sig.name@) by {
                            if k < ps.len() {
                                assert(ms@[k] == ms0[k]);
                                assert(cur[ps[k]] == pre[ps[k]]);
                            }
                        }
                    }
                },
                None => {
                    proof {
                        assert(receiver_spec(it.sig.inputs@, true, false) is Some);
                    }
                },
            }
        }
        i = i + 1;
    }
    assert(items@.take(items@.len() as int) =~= items@);
    (ms, warnings)
}

// ---------------------------------------------------------------------------
// Methods of a trait impl
// ---------------------------------------------------------------------------

/// A method of a trait impl block, with its `#[ffier(..)]` keys.
pub struct TraitImplItem {
    pub sig: MethodSig,
    pub attrs: Vec<FfierAttrItem>,
}

/// The first method whose attributes are refused.
pub open spec fn first_attr_error(items: Seq<TraitImplItem>) -> Option<int>
    decreases items.len(),
{
    if items.len() == 0 {
        None
    } else {
        match first_attr_error(items.drop_last()) {
            Some(i) => Some(i),
            None => if attrs_spec(items.last().attrs@) is Err {
                Some(items.len() - 1)
            } else {
                None
            },
        }
    }
}

/// The method is read: it is not skipped, and it has a receiver or is a
/// raw handle method.
pub open spec fn impl_method_kept(it: TraitImplItem) -> bool {
    attrs_spec(it.attrs@) matches Ok(a) && !a.skip && receiver_spec(it.sig.inputs@, false, a.raw_handle) is Some
}

/// The positions of the methods read, in order.
pub open spec fn kept_positions(items: Seq<TraitImplItem>) -> Seq<int>
    decreases items.len(),
{
    if items.len() == 0 {
        Seq::empty()
    } else if impl_method_kept(items.last()) {
        kept_positions(items.drop_last()).push(items.len() - 1)
    } else {
        kept_positions(items.drop_last())
    }
}

/// The methods read from a trait impl block: each method kept, as its
/// signature gives it (without a `Self` type), raw handle or not as its
/// attributes say.
pub open spec fn impl_methods_ok(items: Seq<TraitImplItem>, ms: Seq<MethodInfo>) -> bool {
    let ps = kept_positions(items);
    &&& ms.len() == ps.len()
    &&& forall|k: int|
        0 <= k < ps.len() ==> method_info_ok(
            items[ps[k]].sig,
            None,
            None,
            false,
            attrs_spec(items[ps[k]].attrs@)->Ok_0.raw_handle,
            0,
            Some(#[trigger] ms[k]),
        )
}

proof fn lemma_kept_positions(items: Seq<TraitImplItem>)
    ensures
        forall|k: int| 0 <= k < kept_positions(items).len() ==> 0 <= #[trigger] kept_positions(items)[k] < items.len(),
    decreases items.len(),
{
    if items.len() > 0 {
        let d = items.drop_last();
        lemma_kept_positions(d);
        let ps = kept_positions(d);
        assert forall|k: int| 0 <= k < kept_positions(items).len() implies 0 <= #[trigger] kept_positions(items)[k] < items.len() by {
            if k < ps.len() {
                assert(kept_positions(items)[k] == ps[k]);
            }
        }
    }
}

proof fn lemma_attr_error_stays(items: Seq<TraitImplItem>, n: int)
    requires
        0 <= n <= items.len(),
        first_attr_error(items.take(n)) is Some,
    ensures
        first_attr_error(items) == first_attr_error(items.take(n)),
    decreases items.len() - n,
{
    if n < items.len() {
        assert(items.take(n + 1).drop_last() =~= items.take(n));
        lemma_attr_error_stays(items, n + 1);
    } else {
        assert(items.take(n) =~= items);
    }
}

/// Reads the methods of a trait impl block: refused at the first method
/// whose attributes are, else every method that is not skipped and has a
/// receiver (or is a raw handle method).
pub fn collect_trait_impl_methods(items: &[TraitImplItem]) -> (r: Result<Vec<MethodInfo>, String>)
    ensures
        match first_attr_error(items@) {
            Some(i) => r matches Err(msg) && attrs_spec(items@[i].attrs@) == Err::<crate::vtable_methods::AttrsView, Seq<char>>(msg@),
            None => r matches Ok(ms) && impl_methods_ok(items@, ms@),
        },
{
    let mut ms: Vec<MethodInfo> = Vec::new();
    let mut i: usize = 0;
    assert(items@.take(0) =~= Seq::<TraitImplItem>::empty());
    while i < items.len()
        invariant
            i <= items@.len(),
            first_attr_error(items@.take(i as int)) is None,
            impl_methods_ok(items@.take(i as int), ms@),
        decreases items@.len() - i,
    {
        let ghost pre = items@.take(i as int);
        let ghost cur = items@.take(i + 1);
        assert(cur.drop_last() =~= pre);
        assert(cur.last() == items@[i as int]);
        proof {
            lemma_kept_positions(pre);
        }
        let it = &items[i];
        let a = match parse_ffier_method_attrs(it.attrs.as_slice()) {
            Ok(a) => a,
            Err(msg) => {
                proof {
                    lemma_attr_error_stays(items@, i + 1);
                }
                return Err(msg);
            },
        };
        if !a.skip {
            match parse_method_sig(&it.sig, None, None, false, a.raw_handle) {
                Some(m) => {
                    let ghost ms0 = ms@;
                    ms.push(m);
                    proof {
                        let ps = kept_positions(pre);
                        let ps1 = kept_positions(cur);
                        assert(ps1 == ps.push(i as int));
                        assert forall|k: int| 0 <= k < ps1.len() implies method_info_ok(
                            cur[ps1[k]].sig,
                            None,
                            None,
                            false,
                            attrs_spec(cur[ps1[k]].attrs@)->Ok_0.raw_handle,
                            0,
                            Some(#[trigger] ms@[k]),
                        ) by {
                            if k < ps.len() {
                                assert(ms@[k] == ms0[k]);
                                assert(cur[ps[k]] == pre[ps[k]]);
                            }
                        }
                    }
                },
                None => {
                    proof {
                        let ps = kept_positions(pre);
                        assert(kept_positions(cur) == ps);
                        assert forall|k: int| 0 <= k < ps.len() implies cur[ps[k]] == pre[ps[k]] by {}
                    }
                },
            }
        } else {
            proof {
                let ps = kept_positions(pre);
                assert(kept_positions(cur) == ps);
                assert forall|k: int| 0 <= k < ps.len() implies cur[ps[k]] == pre[ps[k]] by {}
            }
        }
        i = i + 1;
    }
    assert(items@.take(items@.len() as int) =~= items@);
    Ok(ms)
}

} // verus!
