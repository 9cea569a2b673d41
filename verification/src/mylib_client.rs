//! Client-side bindings of the small library, as seen from a program that
//! links it through its C ABI: errors are decoded from result values and
//! objects are opaque handles (held as their address).

use vstd::prelude::*;
use crate::ffi_error::{ffier_result_code, two_32};
use crate::text::owned;

verus! {

/// Types exported as opaque C handles.
pub trait FfiHandle {
    /// The C typedef name of the type's handles.
    spec fn handle_name_spec() -> Seq<char>;

    /// The type tag of the type's handles.
    spec fn type_tag_spec() -> u32;

    /// The address of a value's handle.
    spec fn handle_spec(&self) -> usize;

    /// The C typedef name of the handle.
    fn c_handle_name() -> (r: &'static str)
        ensures
            r@ == Self::handle_name_spec(),
    ;

    /// The type tag stored in every handle of this type.
    fn type_tag() -> (r: u32)
        ensures
            r == Self::type_tag_spec(),
    ;

    /// The handle's address.
    fn as_handle(&self) -> (r: usize)
        ensures
            r == self.handle_spec(),
    ;
}

/// Errors of the calculator, decoded from a result value.
#[derive(Clone, Copy, PartialEq, Eq, Debug, Structural)]
pub enum CalcError {
    DivisionByZero,
}

/// Errors of the text buffer, decoded from a result value.
#[derive(Clone, Copy, PartialEq, Eq, Debug, Structural)]
pub enum BufferError {
    WriteFailed,
}

impl CalcError {
    /// Decodes a failed result: code 1 is `DivisionByZero`.  Any other code
    /// is not an error this type knows (the caller must not pass one).
    pub fn from_ffi(r: u64) -> (e: CalcError)
        requires
            (r as nat) % two_32() == 1,
        ensures
            e == CalcError::DivisionByZero,
    {
        let code = ffier_result_code(r);
        assert(code == 1);
        CalcError::DivisionByZero
    }

    /// The displayed form of the error: the variant name.
    pub fn to_display_string(&self) -> (s: String)
        ensures
            s@ == "DivisionByZero"@,
    {
        owned("DivisionByZero")
    }
}

impl BufferError {
    /// Decodes a failed result: code 1 is `WriteFailed`.  Any other code is
    /// not an error this type knows (the caller must not pass one).
    pub fn from_ffi(r: u64) -> (e: BufferError)
        requires
            (r as nat) % two_32() == 1,
        ensures
            e == BufferError::WriteFailed,
    {
        let code = ffier_result_code(r);
        assert(code == 1);
        BufferError::WriteFailed
    }

    /// The displayed form of the error: the variant name.
    pub fn to_display_string(&self) -> (s: String)
        ensures
            s@ == "WriteFailed"@,
    {
        owned("WriteFailed")
    }
}

/// A calculator living on the other side of the C ABI.
pub struct Calculator {
    raw: usize,
}

impl View for Calculator {
    type V = usize;

    closed spec fn view(&self) -> usize {
        self.raw
    }
}

impl Calculator {
    /// Wraps a raw handle.
    pub fn __from_raw(ptr: usize) -> (r: Calculator)
        ensures
            r@ == ptr,
    {
        Calculator { raw: ptr }
    }

    /// Gives up ownership of the handle and returns it.
    pub fn __into_raw(self) -> (r: usize)
        ensures
            r == self@,
    {
        self.raw
    }
}

impl FfiHandle for Calculator {
    /// `Calculator`.
    open spec fn handle_name_spec() -> Seq<char> {
        "Calculator"@
    }

    /// The calculator's handles carry type tag 1.
    open spec fn type_tag_spec() -> u32 {
        1
    }

    /// The handle the calculator wraps.
    open spec fn handle_spec(&self) -> usize {
        self@
    }

    fn c_handle_name() -> &'static str {
        "Calculator"
    }

    fn type_tag() -> u32 {
        1
    }

    fn as_handle(&self) -> usize {
        self.raw
    }
}

} // verus!
