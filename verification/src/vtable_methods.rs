//! The `#[ffier(..)]` attributes of methods and parameters; the vtable
//! methods of a trait implementable from C (its own methods, then those of
//! the supertraits it lists, each with a slot that no other method and no
//! retired slot takes); and the layout of the trait's vtable struct.

use vstd::prelude::*;
use crate::method_sig::{method_info_ok, parse_method_sig, receiver_spec, MethodInfo, MethodSig};
use crate::text::{decimal, owned, push_decimal, push_str};

verus! {

// ---------------------------------------------------------------------------
// Method attributes
// ---------------------------------------------------------------------------

/// One key of a method's `#[ffier(..)]` attributes.
pub enum FfierAttrItem {
    /// `index = N`.
    Index(usize),
    /// `raw_handle`.
    RawHandle,
    /// `dispatch = mode`.
    Dispatch(String),
    /// `skip`.
    Skip,
    /// Any other key, as its text.
    Unknown(String),
}

/// A method's `#[ffier(..)]` settings.
pub struct FfierMethodAttrs {
    pub index: Option<usize>,
    pub raw_handle: bool,
    pub dispatch: Option<String>,
    pub skip: bool,
}

/// The settings as plain values.
pub struct AttrsView {
    pub index: Option<usize>,
    pub raw_handle: bool,
    pub dispatch: Option<Seq<char>>,
    pub skip: bool,
}

/// The view of the settings.
pub open spec fn attrs_view(a: FfierMethodAttrs) -> AttrsView {
    AttrsView {
        index: a.index,
        raw_handle: a.raw_handle,
        dispatch: match a.dispatch {
            Some(d) => Some(d@),
            None => None,
        },
        skip: a.skip,
    }
}

/// The message of an unknown key.
pub open spec fn unknown_key_message(key: Seq<char>) -> Seq<char> {
    "unknown #[ffier] key `"@ + key + "`"@
}

/// The settings that the keys give, in order (a later key wins), or the
/// message of the first unknown key.
pub open spec fn attrs_spec(items: Seq<FfierAttrItem>) -> Result<AttrsView, Seq<char>>
    decreases items.len(),
{
    if items.len() == 0 {
        Ok(AttrsView { index: None, raw_handle: false, dispatch: None, skip: false })
    } else {
        match attrs_spec(items.drop_last()) {
            Err(e) => Err(e),
            Ok(a) => match items.last() {
                FfierAttrItem::Index(n) => Ok(AttrsView { index: Some(n), ..a }),
                FfierAttrItem::RawHandle => Ok(AttrsView { raw_handle: true, ..a }),
                FfierAttrItem::Dispatch(d) => Ok(AttrsView { dispatch: Some(d@), ..a }),
                FfierAttrItem::Skip => Ok(AttrsView { skip: true, ..a }),
                FfierAttrItem::Unknown(k) => Err(unknown_key_message(k@)),
            },
        }
    }
}

/// Reads a method's `#[ffier(..)]` settings.
pub fn parse_ffier_method_attrs(items: &[FfierAttrItem]) -> (r: Result<FfierMethodAttrs, String>)
    ensures
        match r {
            Ok(a) => attrs_spec(items@) == Ok::<AttrsView, Seq<char>>(attrs_view(a)),
            Err(e) => attrs_spec(items@) == Err::<AttrsView, Seq<char>>(e@),
        },
{
    let mut a = FfierMethodAttrs { index: None, raw_handle: false, dispatch: None, skip: false };
    let mut i: usize = 0;
    assert(items@.take(0) =~= Seq::<FfierAttrItem>::empty());
    while i < items.len()
        invariant
            i <= items@.len(),
            attrs_spec(items@.take(i as int)) == Ok::<AttrsView, Seq<char>>(attrs_view(a)),
        decreases items@.len() - i,
    {
        assert(items@.take(i + 1).drop_last() =~= items@.take(i as int));
        match &items[i] {
            FfierAttrItem::Index(n) => a.index = Some(*n),
            FfierAttrItem::RawHandle => a.raw_handle = true,
            FfierAttrItem::Dispatch(d) => a.dispatch = Some(d.clone()),
            FfierAttrItem::Skip => a.skip = true,
            FfierAttrItem::Unknown(k) => {
                let mut msg = owned("unknown #[ffier] key `");
                push_str(&mut msg, k.as_str());
                push_str(&mut msg, "`");
                proof {
                    lemma_attrs_error_stays(items@, i as int + 1);
                }
                return Err(msg);
            },
        }
        i = i + 1;
    }
    assert(items@.take(items@.len() as int) =~= items@);
    Ok(a)
}

proof fn lemma_attrs_error_stays(items: Seq<FfierAttrItem>, n: int)
    requires
        0 <= n <= items.len(),
        attrs_spec(items.take(n)) is Err,
    ensures
        attrs_spec(items) == attrs_spec(items.take(n)),
    decreases items.len() - n,
{
    if n < items.len() {
        assert(items.take(n + 1).drop_last() =~= items.take(n));
        lemma_attrs_error_stays(items, n + 1);
    } else {
        assert(items.take(n) =~= items);
    }
}

/// An attribute of a parameter: `#[ffier(..)]` with its keys, or another
/// attribute.
pub enum ParamAttr {
    Ffier(Vec<FfierAttrItem>),
    Other,
}

/// The dispatch mode that one `#[ffier(..)]` attribute of a parameter gives:
/// the last `dispatch` key before the first other key (reading stops there).
pub open spec fn keys_dispatch(keys: Seq<FfierAttrItem>) -> Option<Seq<char>>
    decreases keys.len(),
{
    if keys.len() == 0 {
        None
    } else {
        match keys[0] {
            FfierAttrItem::Dispatch(d) => match keys_dispatch(keys.drop_first()) {
                Some(x) => Some(x),
                None => Some(d@),
            },
            _ => None,
        }
    }
}

/// The dispatch mode that a parameter's attributes give (a later attribute
/// wins), if any.
pub open spec fn param_dispatch_spec(attrs: Seq<ParamAttr>) -> Option<Seq<char>>
    decreases attrs.len(),
{
    if attrs.len() == 0 {
        None
    } else {
        match attrs.last() {
            ParamAttr::Ffier(keys) => match keys_dispatch(keys@) {
                Some(d) => Some(d),
                None => param_dispatch_spec(attrs.drop_last()),
            },
            ParamAttr::Other => param_dispatch_spec(attrs.drop_last()),
        }
    }
}

fn dispatch_of_keys(keys: &[FfierAttrItem]) -> (r: Option<String>)
    ensures
        match r {
            Some(d) => keys_dispatch(keys@) == Some(d@),
            None => keys_dispatch(keys@) is None,
        },
{
    let mut found: Option<String> = None;
    let mut i: usize = 0;
    assert(keys@.subrange(0, keys@.len() as int) =~= keys@);
    while i < keys.len()
        invariant
            i <= keys@.len(),
            match found {
                Some(d) => keys_dispatch(keys@) == (match keys_dispatch(keys@.subrange(i as int, keys@.len() as int)) {
                    Some(x) => Some(x),
                    None => Some(d@),
                }),
                None => i == 0 && keys_dispatch(keys@) == keys_dispatch(keys@.subrange(i as int, keys@.len() as int)),
            },
        decreases keys@.len() - i,
    {
        let ghost rest = keys@.subrange(i as int, keys@.len() as int);
        assert(rest.drop_first() =~= keys@.subrange(i + 1, keys@.len() as int));
        assert(rest[0] == keys@[i as int]);
        match &keys[i] {
            FfierAttrItem::Dispatch(d) => {
                found = Some(d.clone());
            },
            _ => {
                return found;
            },
        }
        i = i + 1;
    }
    assert(keys@.subrange(i as int, keys@.len() as int) =~= Seq::<FfierAttrItem>::empty());
    found
}

/// Reads a parameter's `#[ffier(dispatch = ..)]`: for each `#[ffier(..)]`
/// attribute, its `dispatch` keys up to the first other key (an other key
/// ends the reading of that attribute without an error); the last mode read
/// wins.
pub fn parse_ffier_param_dispatch(attrs: &[ParamAttr]) -> (r: Option<String>)
    ensures
        match r {
            Some(d) => param_dispatch_spec(attrs@) == Some(d@),
            None => param_dispatch_spec(attrs@) is None,
        },
{
    let mut result: Option<String> = None;
    let mut i: usize = 0;
    assert(attrs@.take(0) =~= Seq::<ParamAttr>::empty());
    while i < attrs.len()
        invariant
            i <= attrs@.len(),
            match result {
                Some(d) => param_dispatch_spec(attrs@.take(i as int)) == Some(d@),
                None => param_dispatch_spec(attrs@.take(i as int)) is None,
            },
        decreases attrs@.len() - i,
    {
        assert(attrs@.take(i + 1).drop_last() =~= attrs@.take(i as int));
        assert(attrs@.take(i + 1).last() == attrs@[i as int]);
        match &attrs[i] {
            ParamAttr::Ffier(keys) => {
                match dispatch_of_keys(keys.as_slice()) {
                    Some(d) => result = Some(d),
                    None => {},
                }
            },
            ParamAttr::Other => {},
        }
        i = i + 1;
    }
    assert(attrs@.take(attrs@.len() as int) =~= attrs@);
    result
}

// ---------------------------------------------------------------------------
// Vtable methods
// ---------------------------------------------------------------------------

/// A method of a trait, or of a supertrait block, with its attributes.
pub struct VtableMethodItem {
    pub sig: MethodSig,
    pub has_default: bool,
    pub attrs: Vec<FfierAttrItem>,
}

/// Why a trait's vtable methods are refused.
pub enum VtableError {
    /// An attribute has an unknown key.
    Attr(String),
    /// A method (of a supertrait block or not) has no slot.
    MissingIndex { method: String, supertrait: bool },
    /// Two methods take the same slot.
    DuplicateIndex { index: usize, first: String, second: String },
    /// A method takes a retired slot.
    ReservedIndex { index: usize, method: String },
}

/// The refusal as plain values.
pub enum VtableErrorView {
    Attr(Seq<char>),
    MissingIndex { method: Seq<char>, supertrait: bool },
    DuplicateIndex { index: usize, first: Seq<char>, second: Seq<char> },
    ReservedIndex { index: usize, method: Seq<char> },
}

/// The view of a refusal.
pub open spec fn error_view(e: VtableError) -> VtableErrorView {
    match e {
        VtableError::Attr(m) => VtableErrorView::Attr(m@),
        VtableError::MissingIndex { method, supertrait } => VtableErrorView::MissingIndex { method: method@, supertrait },
        VtableError::DuplicateIndex { index, first, second } => VtableErrorView::DuplicateIndex {
            index,
            first: first@,
            second: second@,
        },
        VtableError::ReservedIndex { index, method } => VtableErrorView::ReservedIndex { index, method: method@ },
    }
}

impl VtableError {
    /// The message of the refusal.
    pub fn message(&self) -> (r: String)
        ensures
            r@ == match self {
                VtableError::Attr(m) => m@,
                VtableError::MissingIndex { method, supertrait } => if *supertrait {
                    "supertrait vtable method `"@ + method@ + "` is missing `#[ffier(index = N)]`"@
                } else {
                    "vtable method `"@ + method@ + "` is missing `#[ffier(index = N)]`"@
                },
                VtableError::DuplicateIndex { index, first, second } => "duplicate vtable index "@ + decimal(*index as nat)
                    + ": both `"@ + first@ + "` and `"@ + second@ + "` use index "@ + decimal(*index as nat),
                VtableError::ReservedIndex { index, method } => "vtable index "@ + decimal(*index as nat)
                    + " is reserved (retired slot) but used by method `"@ + method@ + "`"@,
            },
    {
        match self {
            VtableError::Attr(m) => m.clone(),
            VtableError::MissingIndex { method, supertrait } => {
                let mut s = if *supertrait {
                    owned("supertrait vtable method `")
                } else {
                    owned("vtable method `")
                };
                push_str(&mut s, method.as_str());
                push_str(&mut s, "` is missing `#[ffier(index = N)]`");
                s
            },
            VtableError::DuplicateIndex { index, first, second } => {
                let mut s = owned("duplicate vtable index ");
                push_decimal(&mut s, *index as u64);
                push_str(&mut s, ": both `");
                push_str(&mut s, first.as_str());
                push_str(&mut s, "` and `");
                push_str(&mut s, second.as_str());
                push_str(&mut s, "` use index ");
                push_decimal(&mut s, *index as u64);
                s
            },
            VtableError::ReservedIndex { index, method } => {
                let mut s = owned("vtable index ");
                push_decimal(&mut s, *index as u64);
                push_str(&mut s, " is reserved (retired slot) but used by method `");
                push_str(&mut s, method.as_str());
                push_str(&mut s, "`");
                s
            },
        }
    }
}

/// The trait's own methods, then each supertrait block's, each marked with
/// whether it comes from a supertrait block.
pub open spec fn entries_spec(items: Seq<VtableMethodItem>, supers: Seq<Vec<VtableMethodItem>>) -> Seq<(VtableMethodItem, bool)> {
    tag_entries(items, false) + super_entries(supers)
}

/// The methods of the supertrait blocks, in order.
pub open spec fn super_entries(bs: Seq<Vec<VtableMethodItem>>) -> Seq<(VtableMethodItem, bool)>
    decreases bs.len(),
{
    if bs.len() == 0 {
        Seq::empty()
    } else {
        super_entries(bs.drop_last()) + tag_entries(bs.last()@, true)
    }
}

/// What one method gives: an attribute error, nothing (a method without
/// receiver is not a vtable method), a missing slot, or its slot and
/// whether it takes a raw handle.
pub open spec fn entry_outcome(e: (VtableMethodItem, bool)) -> Result<Option<(usize, bool)>, VtableErrorView> {
    match attrs_spec(e.0.attrs@) {
        Err(msg) => Err(VtableErrorView::Attr(msg)),
        Ok(a) => if receiver_spec(e.0.sig.inputs@, false, a.raw_handle) is None {
            Ok(None)
        } else {
            match a.index {
                None => Err(VtableErrorView::MissingIndex { method: e.0.sig.name@, supertrait: e.1 }),
                Some(k) => Ok(Some((k, a.raw_handle))),
            }
        },
    }
}

/// The vtable methods in order (their position among the entries, slot and
/// raw handle flag), or the first error.
pub open spec fn collect_spec(es: Seq<(VtableMethodItem, bool)>) -> Result<Seq<(int, usize, bool)>, VtableErrorView>
    decreases es.len(),
{
    if es.len() == 0 {
        Ok(Seq::empty())
    } else {
        match collect_spec(es.drop_last()) {
            Err(e) => Err(e),
            Ok(ps) => match entry_outcome(es.last()) {
                Err(e) => Err(e),
                Ok(None) => Ok(ps),
                Ok(Some((k, raw))) => Ok(ps.push((es.len() - 1, k, raw))),
            },
        }
    }
}

/// No slot is taken twice among the first `n` methods.
pub open spec fn distinct_slots(ps: Seq<(int, usize, bool)>, n: int) -> bool {
    forall|i: int, j: int| 0 <= i < j < n ==> (#[trigger] ps[i]).1 != (#[trigger] ps[j]).1
}

/// The first method whose slot an earlier method takes, with that earlier
/// method.
pub open spec fn first_duplicate(ps: Seq<(int, usize, bool)>) -> Option<(int, int)>
    decreases ps.len(),
{
    if ps.len() == 0 {
        None
    } else {
        match first_duplicate(ps.drop_last()) {
            Some(d) => Some(d),
            None => if exists|i: int| 0 <= i < ps.len() - 1 && (#[trigger] ps[i]).1 == ps.last().1 {
                Some((choose|i: int| 0 <= i < ps.len() - 1 && (#[trigger] ps[i]).1 == ps.last().1, ps.len() - 1))
            } else {
                None
            },
        }
    }
}

/// The first method whose slot is retired.
pub open spec fn first_reserved(ps: Seq<(int, usize, bool)>, reserved: Seq<usize>) -> Option<int>
    decreases ps.len(),
{
    if ps.len() == 0 {
        None
    } else {
        match first_reserved(ps.drop_last(), reserved) {
            Some(k) => Some(k),
            None => if reserved.contains(ps.last().1) {
                Some(ps.len() - 1)
            } else {
                None
            },
        }
    }
}

/// The result of reading a trait's vtable methods: each method read from
/// its signature with its slot, unless an attribute is wrong, a method has
/// no slot, two methods share a slot, or a method takes a retired slot (the
/// first such problem, in that order of checks).
pub open spec fn vtable_methods_ok(
    items: Seq<VtableMethodItem>,
    supers: Seq<Vec<VtableMethodItem>>,
    reserved: Seq<usize>,
    r: Result<Seq<MethodInfo>, VtableErrorView>,
) -> bool {
    let es = entries_spec(items, supers);
    match collect_spec(es) {
        Err(e) => r == Err::<Seq<MethodInfo>, VtableErrorView>(e),
        Ok(ps) => match first_duplicate(ps) {
            Some((i, j)) => r == Err::<Seq<MethodInfo>, VtableErrorView>(
                VtableErrorView::DuplicateIndex { index: ps[j].1, first: es[ps[i].0].0.sig.name@, second: es[ps[j].0].0.sig.name@ },
            ),
            None => match first_reserved(ps, reserved) {
                Some(k) => r == Err::<Seq<MethodInfo>, VtableErrorView>(
                    VtableErrorView::ReservedIndex { index: ps[k].1, method: es[ps[k].0].0.sig.name@ },
                ),
                None => r matches Ok(ms) && ms.len() == ps.len() && forall|k: int|
                    0 <= k < ps.len() ==> method_info_ok(
                        #[trigger] es[ps[k].0].0.sig,
                        None,
                        None,
                        es[ps[k].0].0.has_default && !es[ps[k].0].1,
                        ps[k].2,
                        ps[k].1,
                        Some(ms[k]),
                    ),
            },
        },
    }
}

proof fn lemma_collect_err_stays(es: Seq<(VtableMethodItem, bool)>, n: int)
    requires
        0 <= n <= es.len(),
        collect_spec(es.take(n)) is Err,
    ensures
        collect_spec(es) == collect_spec(es.take(n)),
    decreases es.len() - n,
{
    if n < es.len() {
        assert(es.take(n + 1).drop_last() =~= es.take(n));
        lemma_collect_err_stays(es, n + 1);
    } else {
        assert(es.take(n) =~= es);
    }
}

proof fn lemma_dup_none(ps: Seq<(int, usize, bool)>, n: int)
    requires
        0 <= n <= ps.len(),
        distinct_slots(ps, n),
    ensures
        first_duplicate(ps.take(n)) is None,
    decreases n,
{
    if n > 0 {
        assert(ps.take(n).drop_last() =~= ps.take(n - 1));
        lemma_dup_none(ps, n - 1);
        let t = ps.take(n);
        assert(!exists|i: int| 0 <= i < t.len() - 1 && (#[trigger] t[i]).1 == t.last().1) by {
            if exists|i: int| 0 <= i < t.len() - 1 && (#[trigger] t[i]).1 == t.last().1 {
                let i = choose|i: int| 0 <= i < t.len() - 1 && (#[trigger] t[i]).1 == t.last().1;
                assert(ps[i].1 != ps[n - 1].1);
            }
        }
    }
}

proof fn lemma_dup_found(ps: Seq<(int, usize, bool)>, i: int, j: int)
    requires
        0 <= i < j < ps.len(),
        distinct_slots(ps, j),
        ps[i].1 == ps[j].1,
    ensures
        first_duplicate(ps) == Some((i, j)),
{
    lemma_dup_none(ps, j);
    let t = ps.take(j + 1);
    assert(t.drop_last() =~= ps.take(j));
    assert(t[i].1 == t.last().1);
    let c = choose|k: int| 0 <= k < t.len() - 1 && (#[trigger] t[k]).1 == t.last().1;
    if c != i {
        if c < i {
            assert(ps[c].1 != ps[i].1);
        } else {
            assert(ps[i].1 != ps[c].1);
        }
    }
    assert(first_duplicate(t) == Some((i, j)));
    lemma_dup_stays(ps, j + 1);
}

proof fn lemma_dup_stays(ps: Seq<(int, usize, bool)>, n: int)
    requires
        0 <= n <= ps.len(),
        first_duplicate(ps.take(n)) is Some,
    ensures
        first_duplicate(ps) == first_duplicate(ps.take(n)),
    decreases ps.len() - n,
{
    if n < ps.len() {
        assert(ps.take(n + 1).drop_last() =~= ps.take(n));
        lemma_dup_stays(ps, n + 1);
    } else {
        assert(ps.take(n) =~= ps);
    }
}

proof fn lemma_res_none(ps: Seq<(int, usize, bool)>, reserved: Seq<usize>, n: int)
    requires
        0 <= n <= ps.len(),
        forall|k: int| 0 <= k < n ==> !reserved.contains(#[trigger] ps[k].1),
    ensures
        first_reserved(ps.take(n), reserved) is None,
    decreases n,
{
    if n > 0 {
        assert(ps.take(n).drop_last() =~= ps.take(n - 1));
        lemma_res_none(ps, reserved, n - 1);
    }
}

proof fn lemma_res_stays(ps: Seq<(int, usize, bool)>, reserved: Seq<usize>, n: int)
    requires
        0 <= n <= ps.len(),
        first_reserved(ps.take(n), reserved) is Some,
    ensures
        first_reserved(ps, reserved) == first_reserved(ps.take(n), reserved),
    decreases ps.len() - n,
{
    if n < ps.len() {
        assert(ps.take(n + 1).drop_last() =~= ps.take(n));
        lemma_res_stays(ps, reserved, n + 1);
    } else {
        assert(ps.take(n) =~= ps);
    }
}

/// The methods of one block, each marked with whether the block is a
/// supertrait block.
pub open spec fn tag_entries(block: Seq<VtableMethodItem>, supertrait: bool) -> Seq<(VtableMethodItem, bool)> {
    block.map_values(|it: VtableMethodItem| (it, supertrait))
}

/// The methods read so far, `es`, give the vtable methods `ms` with their
/// slots `slots`.
pub open spec fn collected(es: Seq<(VtableMethodItem, bool)>, ms: Seq<MethodInfo>, slots: Seq<usize>) -> bool {
    collect_spec(es) matches Ok(ps) && ms.len() == ps.len() && slots.len() == ps.len() && (forall|k: int|
        0 <= k < ps.len() ==> 0 <= (#[trigger] ps[k]).0 < es.len() && slots[k] == ps[k].1) && (forall|k: int|
        0 <= k < ps.len() ==> method_info_ok(
            #[trigger] es[ps[k].0].0.sig,
            None,
            None,
            es[ps[k].0].0.has_default && !es[ps[k].0].1,
            ps[k].2,
            ps[k].1,
            Some(ms[k]),
        ))
}

proof fn lemma_collected_skip(es: Seq<(VtableMethodItem, bool)>, x: (VtableMethodItem, bool), ms: Seq<MethodInfo>, slots: Seq<usize>)
    requires
        collected(es, ms, slots),
        entry_outcome(x) == Ok::<Option<(usize, bool)>, VtableErrorView>(None),
    ensures
        collected(es.push(x), ms, slots),
{
    assert(es.push(x).drop_last() =~= es);
    let ps = collect_spec(es)->Ok_0;
    assert forall|k: int| 0 <= k < ps.len() implies es.push(x)[(#[trigger] ps[k]).0] == es[ps[k].0] by {}
}

proof fn lemma_collected_take(
    es: Seq<(VtableMethodItem, bool)>,
    x: (VtableMethodItem, bool),
    ms: Seq<MethodInfo>,
    slots: Seq<usize>,
    m: MethodInfo,
)
    requires
        collected(es, ms, slots),
        entry_outcome(x) == Ok::<Option<(usize, bool)>, VtableErrorView>(Some((m.index, m.raw_handle))),
        method_info_ok(x.0.sig, None, None, x.0.has_default && !x.1, m.raw_handle, m.index, Some(m)),
    ensures
        collected(es.push(x), ms.push(m), slots.push(m.index)),
{
    let e2 = es.push(x);
    assert(e2.drop_last() =~= es);
    let ps = collect_spec(es)->Ok_0;
    let ps2 = ps.push((es.len() as int, m.index, m.raw_handle));
    assert(collect_spec(e2) == Ok::<Seq<(int, usize, bool)>, VtableErrorView>(ps2));
    assert forall|k: int| 0 <= k < ps2.len() implies 0 <= (#[trigger] ps2[k]).0 < e2.len() && slots.push(m.index)[k] == ps2[k].1 by {
        if k < ps.len() {
            assert(ps2[k] == ps[k]);
        }
    }
    assert forall|k: int| 0 <= k < ps2.len() implies method_info_ok(
        #[trigger] e2[ps2[k].0].0.sig,
        None,
        None,
        e2[ps2[k].0].0.has_default && !e2[ps2[k].0].1,
        ps2[k].2,
        ps2[k].1,
        Some(ms.push(m)[k]),
    ) by {
        if k < ps.len() {
            assert(ps2[k] == ps[k]);
            assert(e2[ps[k].0] == es[ps[k].0]);
        }
    }
}

/// For `m <= n`, the methods of the first `m` supertrait blocks begin the
/// methods of the first `n`.
proof fn lemma_super_prefix(bs: Seq<Vec<VtableMethodItem>>, m: int, n: int)
    requires
        0 <= m <= n <= bs.len(),
    ensures
        super_entries(bs.take(n)).take(super_entries(bs.take(m)).len() as int) == super_entries(bs.take(m)),
        super_entries(bs.take(m)).len() <= super_entries(bs.take(n)).len(),
    decreases n - m,
{
    if m == n {
        assert(super_entries(bs.take(n)).take(super_entries(bs.take(n)).len() as int) =~= super_entries(bs.take(n)));
    } else {
        lemma_super_prefix(bs, m, n - 1);
        assert(bs.take(n).drop_last() =~= bs.take(n - 1));
        let a = super_entries(bs.take(m));
        let b = super_entries(bs.take(n - 1));
        let c = super_entries(bs.take(n));
        assert(c == b + tag_entries(bs.take(n).last()@, true));
        assert(c.take(a.len() as int) =~= b.take(a.len() as int));
    }
}

/// Reads the methods of one block after those of `prefix`, adding the
/// vtable methods to `ms` and their slots to `slots`.
fn collect_block(
    block: &Vec<VtableMethodItem>,
    supertrait: bool,
    ms: &mut Vec<MethodInfo>,
    slots: &mut Vec<usize>,
    Ghost(prefix): Ghost<Seq<(VtableMethodItem, bool)>>,
) -> (r: Result<(), VtableError>)
    requires
        collected(prefix, old(ms)@, old(slots)@),
    ensures
        match r {
            Ok(()) => collected(prefix + tag_entries(block@, supertrait), final(ms)@, final(slots)@),
            Err(e) => collect_spec(prefix + tag_entries(block@, supertrait)) == Err::<Seq<(int, usize, bool)>, VtableErrorView>(
                error_view(e),
            ),
        },
{
    let ghost all = prefix + tag_entries(block@, supertrait);
    let mut k: usize = 0;
    assert(prefix + tag_entries(block@, supertrait).take(0) =~= prefix);
    while k < block.len()
        invariant
            k <= block@.len(),
            all == prefix + tag_entries(block@, supertrait),
            collected(prefix + tag_entries(block@, supertrait).take(k as int), ms@, slots@),
        decreases block@.len() - k,
    {
        let ghost cur = prefix + tag_entries(block@, supertrait).take(k as int);
        let ghost x = (block@[k as int], supertrait);
        assert(cur.push(x) =~= prefix + tag_entries(block@, supertrait).take(k + 1));
        assert(all.take(prefix.len() + k + 1) =~= cur.push(x));
        assert(cur.push(x).drop_last() =~= cur);
        match process_entry(&block[k], supertrait) {
            Err(err) => {
                proof {
                    lemma_collect_err_stays(all, prefix.len() + k + 1);
                }
                return Err(err);
            },
            Ok(None) => {
                proof {
                    lemma_collected_skip(cur, x, ms@, slots@);
                }
            },
            Ok(Some(m)) => {
                proof {
                    lemma_collected_take(cur, x, ms@, slots@, m);
                }
                let idx = m.index;
                ms.push(m);
                slots.push(idx);
            },
        }
        k = k + 1;
    }
    assert(tag_entries(block@, supertrait).take(block@.len() as int) =~= tag_entries(block@, supertrait));
    Ok(())
}

/// Reads the trait's own methods, then those of each supertrait block.
fn collect_methods(items: &Vec<VtableMethodItem>, supers: &Vec<Vec<VtableMethodItem>>) -> (r: Result<(Vec<MethodInfo>, Vec<usize>), VtableError>)
    ensures
        match r {
            Err(e) => collect_spec(entries_spec(items@, supers@)) == Err::<Seq<(int, usize, bool)>, VtableErrorView>(error_view(e)),
            Ok((ms, slots)) => collected(entries_spec(items@, supers@), ms@, slots@),
        },
{
    let ghost own = tag_entries(items@, false);
    let ghost all = entries_spec(items@, supers@);
    let mut ms: Vec<MethodInfo> = Vec::new();
    let mut slots: Vec<usize> = Vec::new();
    assert(collect_spec(Seq::<(VtableMethodItem, bool)>::empty()) == Ok::<Seq<(int, usize, bool)>, VtableErrorView>(Seq::empty()));
    assert(Seq::<(VtableMethodItem, bool)>::empty() + own =~= own);
    match collect_block(items, false, &mut ms, &mut slots, Ghost(Seq::empty())) {
        Err(e) => {
            proof {
                lemma_super_prefix(supers@, 0, supers@.len() as int);
                assert(supers@.take(0) =~= Seq::<Vec<VtableMethodItem>>::empty());
                assert(supers@.take(supers@.len() as int) =~= supers@);
                assert(all.take(own.len() as int) =~= own);
                lemma_collect_err_stays(all, own.len() as int);
            }
            return Err(e);
        },
        Ok(()) => {},
    }
    let mut j: usize = 0;
    assert(supers@.take(0) =~= Seq::<Vec<VtableMethodItem>>::empty());
    assert(own + super_entries(supers@.take(0)) =~= own);
    while j < supers.len()
        invariant
            j <= supers@.len(),
            own == tag_entries(items@, false),
            all == entries_spec(items@, supers@),
            collected(own + super_entries(supers@.take(j as int)), ms@, slots@),
        decreases supers@.len() - j,
    {
        let ghost before = own + super_entries(supers@.take(j as int));
        let ghost after = before + tag_entries(supers@[j as int]@, true);
        assert(supers@.take(j + 1).drop_last() =~= supers@.take(j as int));
        assert(own + super_entries(supers@.take(j + 1)) =~= after);
        match collect_block(&supers[j], true, &mut ms, &mut slots, Ghost(before)) {
            Err(e) => {
                proof {
                    lemma_super_prefix(supers@, j + 1, supers@.len() as int);
                    assert(supers@.take(supers@.len() as int) =~= supers@);
                    assert(all.take(after.len() as int) =~= after);
                    lemma_collect_err_stays(all, after.len() as int);
                }
                return Err(e);
            },
            Ok(()) => {},
        }
        j = j + 1;
    }
    assert(supers@.take(supers@.len() as int) =~= supers@);
    Ok((ms, slots))
}

fn process_entry(e: &VtableMethodItem, supertrait: bool) -> (r: Result<Option<MethodInfo>, VtableError>)
    ensures
        match entry_outcome((*e, supertrait)) {
            Err(x) => r matches Err(err) && error_view(err) == x,
            Ok(None) => r matches Ok(None),
            Ok(Some((k, raw))) => r matches Ok(Some(m)) && method_info_ok(
                e.sig,
                None,
                None,
                e.has_default && !supertrait,
                raw,
                k,
                Some(m),
            ),
        },
{
    let a = match parse_ffier_method_attrs(e.attrs.as_slice()) {
        Ok(a) => a,
        Err(msg) => return Err(VtableError::Attr(msg)),
    };
    match parse_method_sig(&e.sig, None, None, e.has_default && !supertrait, a.raw_handle) {
        None => Ok(None),
        Some(m) => match a.index {
            None => Err(VtableError::MissingIndex { method: e.sig.name.clone(), supertrait }),
            Some(k) => {
                let mut m = m;
                m.index = k;
                Ok(Some(m))
            },
        },
    }
}

fn slot_reserved(reserved: &Vec<usize>, k: usize) -> (r: bool)
    ensures
        r == reserved@.contains(k),
{
    let mut i: usize = 0;
    while i < reserved.len()
        invariant
            i <= reserved@.len(),
            forall|j: int| 0 <= j < i ==> reserved@[j] != k,
        decreases reserved@.len() - i,
    {
        if reserved[i] == k {
            return true;
        }
        i = i + 1;
    }
    false
}

fn find_duplicate(slots: &Vec<usize>, Ghost(ps): Ghost<Seq<(int, usize, bool)>>) -> (r: Option<(usize, usize)>)
    requires
        slots@.len() == ps.len(),
        forall|k: int| 0 <= k < ps.len() ==> slots@[k] == (#[trigger] ps[k]).1,
    ensures
        match r {
            Some((i, j)) => first_duplicate(ps) == Some((i as int, j as int)) && i < j < slots@.len(),
            None => first_duplicate(ps) is None,
        },
{
    let mut j: usize = 0;
    while j < slots.len()
        invariant
            j <= slots@.len(),
            slots@.len() == ps.len(),
            forall|k: int| 0 <= k < ps.len() ==> slots@[k] == (#[trigger] ps[k]).1,
            distinct_slots(ps, j as int),
        decreases slots@.len() - j,
    {
        let mut i: usize = 0;
        while i < j
            invariant
                i <= j,
                j < slots@.len(),
                slots@.len() == ps.len(),
                forall|k: int| 0 <= k < ps.len() ==> slots@[k] == (#[trigger] ps[k]).1,
                distinct_slots(ps, j as int),
                forall|q: int| 0 <= q < i ==> slots@[q] != slots@[j as int],
            decreases j - i,
        {
            if slots[i] == slots[j] {
                proof {
                    lemma_dup_found(ps, i as int, j as int);
                }
                return Some((i, j));
            }
            i = i + 1;
        }
        assert forall|a: int, b: int| 0 <= a < b < j + 1 implies (#[trigger] ps[a]).1 != (#[trigger] ps[b]).1 by {
            if b == j {
                assert(slots@[a] != slots@[j as int]);
            }
        }
        j = j + 1;
    }
    proof {
        lemma_dup_none(ps, ps.len() as int);
        assert(ps.take(ps.len() as int) =~= ps);
    }
    None
}

fn find_reserved(slots: &Vec<usize>, reserved: &Vec<usize>, Ghost(ps): Ghost<Seq<(int, usize, bool)>>) -> (r: Option<usize>)
    requires
        slots@.len() == ps.len(),
        forall|k: int| 0 <= k < ps.len() ==> slots@[k] == (#[trigger] ps[k]).1,
    ensures
        match r {
            Some(k) => first_reserved(ps, reserved@) == Some(k as int) && k < slots@.len(),
            None => first_reserved(ps, reserved@) is None,
        },
{
    let mut k: usize = 0;
    while k < slots.len()
        invariant
            k <= slots@.len(),
            slots@.len() == ps.len(),
            forall|q: int| 0 <= q < ps.len() ==> slots@[q] == (#[trigger] ps[q]).1,
            forall|q: int| 0 <= q < k ==> !reserved@.contains(#[trigger] ps[q].1),
        decreases slots@.len() - k,
    {
        if slot_reserved(reserved, slots[k]) {
            proof {
                lemma_res_none(ps, reserved@, k as int);
                assert(ps.take(k + 1).drop_last() =~= ps.take(k as int));
                lemma_res_stays(ps, reserved@, k + 1);
            }
            return Some(k);
        }
        k = k + 1;
    }
    proof {
        lemma_res_none(ps, reserved@, ps.len() as int);
        assert(ps.take(ps.len() as int) =~= ps);
    }
    None
}

/// Reads the vtable methods of a trait implementable from C: its own
/// methods, then those of its supertrait blocks (which have no defaults).
/// Every vtable method needs a slot, none may share one, and none may take
/// a retired slot.
pub fn extract_vtable_methods(
    items: &Vec<VtableMethodItem>,
    supers: &Vec<Vec<VtableMethodItem>>,
    reserved: &Vec<usize>,
) -> (r: Result<Vec<MethodInfo>, VtableError>)
    ensures
        vtable_methods_ok(
            items@,
            supers@,
            reserved@,
            match r {
                Ok(ms) => Ok(ms@),
                Err(e) => Err(error_view(e)),
            },
        ),
{
    let (ms, slots) = match collect_methods(items, supers) {
        Err(e) => return Err(e),
        Ok(x) => x,
    };
    let ghost ps = collect_spec(entries_spec(items@, supers@))->Ok_0;
    match find_duplicate(&slots, Ghost(ps)) {
        Some((i, j)) => {
            return Err(VtableError::DuplicateIndex { index: slots[j], first: ms[i].name.clone(), second: ms[j].name.clone() });
        },
        None => {},
    }
    match find_reserved(&slots, reserved, Ghost(ps)) {
        Some(k) => {
            return Err(VtableError::ReservedIndex { index: slots[k], method: ms[k].name.clone() });
        },
        None => {},
    }
    Ok(ms)
}

// ---------------------------------------------------------------------------
// Vtable layout
// ---------------------------------------------------------------------------

/// A field of the vtable struct of a trait implementable from C, after its
/// `drop` field. The field at position `p` serves slot `p`.
#[derive(PartialEq, Eq, Debug, Structural)]
pub enum VtableField {
    /// The function pointer of the vtable method at this position of the
    /// methods.
    Method(usize),
    /// Padding that keeps the place of a slot that no method fills.
    Reserved(usize),
}

/// No two vtable methods have the same index.
pub open spec fn distinct_indices(ms: Seq<MethodInfo>) -> bool {
    forall|i: int, j: int| 0 <= i < j < ms.len() ==> (#[trigger] ms[i]).index != (#[trigger] ms[j]).index
}

/// No vtable method takes a retired slot.
pub open spec fn avoids_reserved(ms: Seq<MethodInfo>, reserved: Seq<usize>) -> bool {
    forall|i: int| 0 <= i < ms.len() ==> !reserved.contains(#[trigger] ms[i].index)
}

/// The position of the method whose function pointer fills slot `slot`: a
/// method that is not a raw handle method (those are dispatched without the
/// vtable) and has that index.
pub open spec fn slot_method(ms: Seq<MethodInfo>, slot: int) -> Option<int>
    decreases ms.len(),
{
    if ms.len() == 0 {
        None
    } else if !ms.last().raw_handle && ms.last().index == slot {
        Some(ms.len() - 1)
    } else {
        slot_method(ms.drop_last(), slot)
    }
}

/// One past the highest slot of a method with a function pointer (0 if
/// there is none).
pub open spec fn methods_end(ms: Seq<MethodInfo>) -> nat
    decreases ms.len(),
{
    if ms.len() == 0 {
        0
    } else if !ms.last().raw_handle && methods_end(ms.drop_last()) <= ms.last().index {
        (ms.last().index + 1) as nat
    } else {
        methods_end(ms.drop_last())
    }
}

/// One past the highest retired slot (0 if there is none).
pub open spec fn reserved_end(rs: Seq<usize>) -> nat
    decreases rs.len(),
{
    if rs.len() == 0 {
        0
    } else if reserved_end(rs.drop_last()) <= rs.last() {
        (rs.last() + 1) as nat
    } else {
        reserved_end(rs.drop_last())
    }
}

/// The number of slot fields: one for each slot up to the highest slot of
/// a method with a function pointer or of a retired slot.
pub open spec fn layout_len(ms: Seq<MethodInfo>, rs: Seq<usize>) -> nat {
    if methods_end(ms) <= reserved_end(rs) {
        reserved_end(rs)
    } else {
        methods_end(ms)
    }
}

/// The field of slot `p`: the method that fills it, or padding.
pub open spec fn layout_field(ms: Seq<MethodInfo>, p: int) -> VtableField {
    match slot_method(ms, p) {
        Some(i) => VtableField::Method(i as usize),
        None => VtableField::Reserved(p as usize),
    }
}

/// The highest index of any vtable method, raw handle methods included.
pub open spec fn max_method_index(ms: Seq<MethodInfo>) -> Option<usize>
    decreases ms.len(),
{
    if ms.len() == 0 {
        None
    } else {
        match max_method_index(ms.drop_last()) {
            Some(m) => if m < ms.last().index {
                Some(ms.last().index)
            } else {
                Some(m)
            },
            None => Some(ms.last().index),
        }
    }
}

/// The highest retired slot.
pub open spec fn max_reserved(rs: Seq<usize>) -> Option<usize>
    decreases rs.len(),
{
    if rs.len() == 0 {
        None
    } else {
        match max_reserved(rs.drop_last()) {
            Some(m) => if m < rs.last() {
                Some(rs.last())
            } else {
                Some(m)
            },
            None => Some(rs.last()),
        }
    }
}

/// The highest slot announced to the generators of the other side: the
/// larger of the highest method index and the highest retired slot, 0 if
/// there is neither.
pub open spec fn max_slot_spec(ms: Seq<MethodInfo>, rs: Seq<usize>) -> usize {
    match (max_method_index(ms), max_reserved(rs)) {
        (Some(a), Some(b)) => if a < b {
            b
        } else {
            a
        },
        (Some(a), None) => a,
        (None, Some(b)) => b,
        (None, None) => 0,
    }
}

/// The name of a field: the method's name, or `__reserved_<slot>`.
pub open spec fn field_name_spec(ms: Seq<MethodInfo>, f: VtableField) -> Seq<char> {
    match f {
        VtableField::Method(i) => ms[i as int].name@,
        VtableField::Reserved(p) => "__reserved_"@ + decimal(p as nat),
    }
}

proof fn lemma_slot_method_found(ms: Seq<MethodInfo>, slot: int)
    ensures
        slot_method(ms, slot) matches Some(i) ==> 0 <= i < ms.len() && !ms[i].raw_handle && ms[i].index == slot,
    decreases ms.len(),
{
    if ms.len() > 0 {
        lemma_slot_method_found(ms.drop_last(), slot);
    }
}

proof fn lemma_slot_method_unique(ms: Seq<MethodInfo>, i: int)
    requires
        distinct_indices(ms),
        0 <= i < ms.len(),
        !ms[i].raw_handle,
    ensures
        slot_method(ms, ms[i].index as int) == Some(i),
    decreases ms.len(),
{
    if i < ms.len() - 1 {
        assert(ms[i].index != ms[ms.len() - 1].index);
        let d = ms.drop_last();
        assert(d[i] == ms[i]);
        assert forall|a: int, b: int| 0 <= a < b < d.len() implies (#[trigger] d[a]).index != (#[trigger] d[b]).index by {
            assert(d[a] == ms[a] && d[b] == ms[b]);
        }
        lemma_slot_method_unique(d, i);
    }
}

proof fn lemma_methods_end(ms: Seq<MethodInfo>)
    ensures
        forall|i: int| 0 <= i < ms.len() && !ms[i].raw_handle ==> (#[trigger] ms[i]).index < methods_end(ms),
        methods_end(ms) == 0 || (max_method_index(ms) matches Some(m) && methods_end(ms) <= m + 1),
    decreases ms.len(),
{
    if ms.len() > 0 {
        let d = ms.drop_last();
        lemma_methods_end(d);
        assert forall|i: int| 0 <= i < ms.len() && !ms[i].raw_handle implies (#[trigger] ms[i]).index < methods_end(ms) by {
            if i < ms.len() - 1 {
                assert(d[i] == ms[i]);
            }
        }
    }
}

proof fn lemma_reserved_end(rs: Seq<usize>)
    ensures
        forall|k: int| 0 <= k < rs.len() ==> #[trigger] rs[k] < reserved_end(rs),
        reserved_end(rs) == 0 || (max_reserved(rs) matches Some(m) && reserved_end(rs) <= m + 1),
    decreases rs.len(),
{
    if rs.len() > 0 {
        let d = rs.drop_last();
        lemma_reserved_end(d);
        assert forall|k: int| 0 <= k < rs.len() implies #[trigger] rs[k] < reserved_end(rs) by {
            if k < rs.len() - 1 {
                assert(d[k] == rs[k]);
            }
        }
    }
}

proof fn lemma_methods_end_bound(ms: Seq<MethodInfo>)
    requires
        forall|i: int| 0 <= i < ms.len() ==> (#[trigger] ms[i]).index < usize::MAX,
    ensures
        methods_end(ms) <= usize::MAX,
    decreases ms.len(),
{
    if ms.len() > 0 {
        let d = ms.drop_last();
        assert forall|i: int| 0 <= i < d.len() implies (#[trigger] d[i]).index < usize::MAX by {
            assert(d[i] == ms[i]);
        }
        lemma_methods_end_bound(d);
        assert(ms[ms.len() - 1].index < usize::MAX);
    }
}

proof fn lemma_reserved_end_bound(rs: Seq<usize>)
    requires
        forall|k: int| 0 <= k < rs.len() ==> #[trigger] rs[k] < usize::MAX,
    ensures
        reserved_end(rs) <= usize::MAX,
    decreases rs.len(),
{
    if rs.len() > 0 {
        let d = rs.drop_last();
        assert forall|k: int| 0 <= k < d.len() implies #[trigger] d[k] < usize::MAX by {
            assert(d[k] == rs[k]);
        }
        lemma_reserved_end_bound(d);
        assert(rs[rs.len() - 1] < usize::MAX);
    }
}

fn find_slot_method(ms: &Vec<MethodInfo>, slot: usize) -> (r: Option<usize>)
    ensures
        match r {
            Some(i) => slot_method(ms@, slot as int) == Some(i as int),
            None => slot_method(ms@, slot as int) is None,
        },
{
    let mut found: Option<usize> = None;
    let mut i: usize = 0;
    assert(ms@.take(0) =~= Seq::<MethodInfo>::empty());
    while i < ms.len()
        invariant
            i <= ms@.len(),
            match found {
                Some(k) => slot_method(ms@.take(i as int), slot as int) == Some(k as int),
                None => slot_method(ms@.take(i as int), slot as int) is None,
            },
        decreases ms@.len() - i,
    {
        if !ms[i].raw_handle && ms[i].index == slot {
            found = Some(i);
        }
        i = i + 1;
        assert(ms@.take(i as int).drop_last() =~= ms@.take(i - 1));
        assert(ms@.take(i as int).last() == ms@[i - 1]);
    }
    assert(ms@.take(ms@.len() as int) =~= ms@);
    found
}

fn methods_end_of(ms: &Vec<MethodInfo>) -> (r: usize)
    requires
        forall|i: int| 0 <= i < ms@.len() ==> (#[trigger] ms@[i]).index < usize::MAX,
    ensures
        r == methods_end(ms@),
{
    let mut end: usize = 0;
    let mut i: usize = 0;
    assert(ms@.take(0) =~= Seq::<MethodInfo>::empty());
    while i < ms.len()
        invariant
            i <= ms@.len(),
            forall|k: int| 0 <= k < ms@.len() ==> (#[trigger] ms@[k]).index < usize::MAX,
            end == methods_end(ms@.take(i as int)),
        decreases ms@.len() - i,
    {
        assert(ms@.take(i + 1).drop_last() =~= ms@.take(i as int));
        assert(ms@.take(i + 1).last() == ms@[i as int]);
        if !ms[i].raw_handle && end <= ms[i].index {
            end = ms[i].index + 1;
        }
        i = i + 1;
    }
    assert(ms@.take(ms@.len() as int) =~= ms@);
    end
}

fn reserved_end_of(rs: &Vec<usize>) -> (r: usize)
    requires
        forall|k: int| 0 <= k < rs@.len() ==> #[trigger] rs@[k] < usize::MAX,
    ensures
        r == reserved_end(rs@),
{
    let mut end: usize = 0;
    let mut i: usize = 0;
    assert(rs@.take(0) =~= Seq::<usize>::empty());
    while i < rs.len()
        invariant
            i <= rs@.len(),
            forall|k: int| 0 <= k < rs@.len() ==> #[trigger] rs@[k] < usize::MAX,
            end == reserved_end(rs@.take(i as int)),
        decreases rs@.len() - i,
    {
        assert(rs@.take(i + 1).drop_last() =~= rs@.take(i as int));
        assert(rs@.take(i + 1).last() == rs@[i as int]);
        if end <= rs[i] {
            end = rs[i] + 1;
        }
        i = i + 1;
    }
    assert(rs@.take(rs@.len() as int) =~= rs@);
    end
}

/// The slot fields of the vtable struct of a trait implementable from C:
/// slot `p` holds the function pointer of the method with index `p` (raw
/// handle methods have none), or padding where no method has that index,
/// up to the highest slot of a method or of a retired index.
pub fn vtable_layout(methods: &Vec<MethodInfo>, reserved: &Vec<usize>) -> (r: Vec<VtableField>)
    requires
        forall|i: int| 0 <= i < methods@.len() ==> (#[trigger] methods@[i]).index < usize::MAX,
        forall|k: int| 0 <= k < reserved@.len() ==> #[trigger] reserved@[k] < usize::MAX,
    ensures
        r@.len() == layout_len(methods@, reserved@),
        forall|p: int| 0 <= p < r@.len() ==> #[trigger] r@[p] == layout_field(methods@, p),
{
    let me = methods_end_of(methods);
    let re = reserved_end_of(reserved);
    let len = if me <= re {
        re
    } else {
        me
    };
    let mut out: Vec<VtableField> = Vec::new();
    let mut p: usize = 0;
    while p < len
        invariant
            p <= len,
            len == layout_len(methods@, reserved@),
            out@.len() == p,
            forall|q: int| 0 <= q < p ==> #[trigger] out@[q] == layout_field(methods@, q),
        decreases len - p,
    {
        let f = match find_slot_method(methods, p) {
            Some(i) => VtableField::Method(i),
            None => VtableField::Reserved(p),
        };
        proof {
            lemma_slot_method_found(methods@, p as int);
        }
        out.push(f);
        p = p + 1;
    }
    out
}

fn max_method_index_of(ms: &Vec<MethodInfo>) -> (r: Option<usize>)
    ensures
        r == max_method_index(ms@),
{
    let mut best: Option<usize> = None;
    let mut i: usize = 0;
    assert(ms@.take(0) =~= Seq::<MethodInfo>::empty());
    while i < ms.len()
        invariant
            i <= ms@.len(),
            best == max_method_index(ms@.take(i as int)),
        decreases ms@.len() - i,
    {
        assert(ms@.take(i + 1).drop_last() =~= ms@.take(i as int));
        assert(ms@.take(i + 1).last() == ms@[i as int]);
        let k = ms[i].index;
        best = match best {
            Some(m) => if m < k {
                Some(k)
            } else {
                Some(m)
            },
            None => Some(k),
        };
        i = i + 1;
    }
    assert(ms@.take(ms@.len() as int) =~= ms@);
    best
}

fn max_reserved_of(rs: &Vec<usize>) -> (r: Option<usize>)
    ensures
        r == max_reserved(rs@),
{
    let mut best: Option<usize> = None;
    let mut i: usize = 0;
    assert(rs@.take(0) =~= Seq::<usize>::empty());
    while i < rs.len()
        invariant
            i <= rs@.len(),
            best == max_reserved(rs@.take(i as int)),
        decreases rs@.len() - i,
    {
        assert(rs@.take(i + 1).drop_last() =~= rs@.take(i as int));
        assert(rs@.take(i + 1).last() == rs@[i as int]);
        let k = rs[i];
        best = match best {
            Some(m) => if m < k {
                Some(k)
            } else {
                Some(m)
            },
            None => Some(k),
        };
        i = i + 1;
    }
    assert(rs@.take(rs@.len() as int) =~= rs@);
    best
}

/// The highest vtable slot of a trait, as its metadata announces it.
pub fn max_vtable_slot(methods: &Vec<MethodInfo>, reserved: &Vec<usize>) -> (r: usize)
    ensures
        r == max_slot_spec(methods@, reserved@),
{
    match (max_method_index_of(methods), max_reserved_of(reserved)) {
        (Some(a), Some(b)) => if a < b {
            b
        } else {
            a
        },
        (Some(a), None) => a,
        (None, Some(b)) => b,
        (None, None) => 0,
    }
}

/// The name of a slot field.
pub fn vtable_field_name(methods: &Vec<MethodInfo>, f: &VtableField) -> (r: String)
    requires
        f matches VtableField::Method(i) ==> i < methods@.len(),
    ensures
        r@ == field_name_spec(methods@, *f),
{
    match f {
        VtableField::Method(i) => methods[*i].name.clone(),
        VtableField::Reserved(p) => {
            let mut s = owned("__reserved_");
            push_decimal(&mut s, *p as u64);
            s
        },
    }
}

/// The vtable methods read from a trait each have a slot of their own, and
/// none of them takes a retired slot.
pub proof fn lemma_extracted_slots(
    items: Seq<VtableMethodItem>,
    supers: Seq<Vec<VtableMethodItem>>,
    reserved: Seq<usize>,
    ms: Seq<MethodInfo>,
)
    requires
        vtable_methods_ok(items, supers, reserved, Ok(ms)),
    ensures
        distinct_indices(ms),
        avoids_reserved(ms, reserved),
{
    let es = entries_spec(items, supers);
    let ps = collect_spec(es)->Ok_0;
    assert(forall|k: int| 0 <= k < ps.len() ==> (#[trigger] ms[k]).index == ps[k].1 && ms[k].raw_handle == ps[k].2) by {
        assert forall|k: int| 0 <= k < ps.len() implies (#[trigger] ms[k]).index == ps[k].1 && ms[k].raw_handle == ps[k].2 by {
            assert(method_info_ok(es[ps[k].0].0.sig, None, None, es[ps[k].0].0.has_default && !es[ps[k].0].1, ps[k].2, ps[k].1, Some(ms[k])));
        }
    }
    lemma_dup_none_distinct(ps);
    lemma_res_none_avoids(ps, reserved);
}

proof fn lemma_dup_none_distinct(ps: Seq<(int, usize, bool)>)
    requires
        first_duplicate(ps) is None,
    ensures
        distinct_slots(ps, ps.len() as int),
    decreases ps.len(),
{
    if ps.len() > 0 {
        let d = ps.drop_last();
        lemma_dup_none_distinct(d);
        assert forall|i: int, j: int| 0 <= i < j < ps.len() implies (#[trigger] ps[i]).1 != (#[trigger] ps[j]).1 by {
            if j < ps.len() - 1 {
                assert(d[i] == ps[i] && d[j] == ps[j]);
            } else {
                if ps[i].1 == ps.last().1 {
                    assert(0 <= i < ps.len() - 1 && ps[i].1 == ps.last().1);
                }
            }
        }
    }
}

proof fn lemma_res_none_avoids(ps: Seq<(int, usize, bool)>, reserved: Seq<usize>)
    requires
        first_reserved(ps, reserved) is None,
    ensures
        forall|k: int| 0 <= k < ps.len() ==> !reserved.contains(#[trigger] ps[k].1),
    decreases ps.len(),
{
    if ps.len() > 0 {
        let d = ps.drop_last();
        lemma_res_none_avoids(d, reserved);
        assert forall|k: int| 0 <= k < ps.len() implies !reserved.contains(#[trigger] ps[k].1) by {
            if k < ps.len() - 1 {
                assert(d[k] == ps[k]);
            }
        }
    }
}

/// In the vtable layout of methods that each have a slot of their own,
/// every method with a function pointer sits in the field of its slot,
/// every retired slot that no method takes is padding, and every field lies
/// within the slots that the metadata announces.
pub proof fn lemma_layout_slots(ms: Seq<MethodInfo>, reserved: Seq<usize>)
    requires
        distinct_indices(ms),
        avoids_reserved(ms, reserved),
    ensures
        forall|i: int|
            0 <= i < ms.len() && !ms[i].raw_handle ==> (#[trigger] ms[i]).index < layout_len(ms, reserved) && layout_field(
                ms,
                ms[i].index as int,
            ) == VtableField::Method(i as usize),
        forall|k: int|
            0 <= k < reserved.len() ==> #[trigger] reserved[k] < layout_len(ms, reserved) && layout_field(ms, reserved[k] as int)
                == VtableField::Reserved(reserved[k]),
        layout_len(ms, reserved) <= max_slot_spec(ms, reserved) + 1,
{
    lemma_methods_end(ms);
    lemma_reserved_end(reserved);
    assert forall|i: int| 0 <= i < ms.len() && !ms[i].raw_handle implies (#[trigger] ms[i]).index < layout_len(ms, reserved)
        && layout_field(ms, ms[i].index as int) == VtableField::Method(i as usize) by {
        lemma_slot_method_unique(ms, i);
    }
    assert forall|k: int| 0 <= k < reserved.len() implies #[trigger] reserved[k] < layout_len(ms, reserved) && layout_field(
        ms,
        reserved[k] as int,
    ) == VtableField::Reserved(reserved[k]) by {
        lemma_slot_method_found(ms, reserved[k] as int);
        if slot_method(ms, reserved[k] as int) is Some {
            let i = slot_method(ms, reserved[k] as int)->0;
            assert(reserved.contains(ms[i].index));
        }
    }
}

} // verus!
