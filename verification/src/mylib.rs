//! A small library exported over FFI: a calculator returning results and
//! errors, a result accumulator, and a text buffer that writes to a file
//! descriptor.

use vstd::prelude::*;
use vstd::utf8::encode_utf8;
use crate::example::{div_toward_zero, trunc_div};
use crate::ffi_error::{codes_table, static_message, static_message_spec, variants_view, ErrorVariant, ErrorVariantView, VariantFields};
use crate::naming::camel_to_upper_snake_spec;
use crate::text::{owned, push_str, strs_view};

verus! {

/// Errors of [`Calculator`].
#[derive(Clone, Copy, PartialEq, Eq, Debug, Structural)]
pub enum CalcError {
    /// Code 1; message `division by zero`.
    DivisionByZero,
}

/// Errors of [`TextBuffer`].
#[derive(Clone, Copy, PartialEq, Eq, Debug, Structural)]
pub enum BufferError {
    /// Code 1; message `write failed`.
    WriteFailed,
}

/// The variant table of [`CalcError`].
pub open spec fn calc_error_table() -> Seq<ErrorVariantView> {
    seq![ErrorVariantView { name: "DivisionByZero"@, code: 1, message: None, fields: VariantFields::Unit }]
}

/// The variant table of [`BufferError`].
pub open spec fn buffer_error_table() -> Seq<ErrorVariantView> {
    seq![ErrorVariantView { name: "WriteFailed"@, code: 1, message: Some("write failed"@), fields: VariantFields::Unit }]
}

impl CalcError {
    /// The error code (1).
    pub fn code(&self) -> (c: u32)
        ensures
            c == 1,
    {
        1
    }

    /// The variants with their codes and explicit messages.
    pub fn variants() -> (r: Vec<ErrorVariant>)
        ensures
            variants_view(r@) == calc_error_table(),
    {
        let mut v: Vec<ErrorVariant> = Vec::new();
        v.push(ErrorVariant { name: owned("DivisionByZero"), code: 1, message: None, fields: VariantFields::Unit });
        assert(variants_view(v@) =~= calc_error_table());
        v
    }

    /// The static message for an error code.
    pub fn static_message(code: u32) -> (r: String)
        ensures
            r@ == static_message_spec("CalcError"@, calc_error_table(), code),
    {
        let vs = CalcError::variants();
        static_message("CalcError", vs.as_slice(), code)
    }

    /// The `(CONSTANT_NAME, code)` pairs of all variants.
    pub fn codes() -> (r: Vec<(String, u32)>)
        ensures
            r@.len() == 1,
            r@[0].0@ == camel_to_upper_snake_spec("DivisionByZero"@),
            r@[0].1 == 1,
    {
        let vs = CalcError::variants();
        let r = codes_table(vs.as_slice());
        assert(variants_view(vs@).len() == 1);
        assert(vs@.len() == 1);
        assert(variants_view(vs@)[0] == vs@[0]@);
        r
    }
}

impl BufferError {
    /// The error code (1).
    pub fn code(&self) -> (c: u32)
        ensures
            c == 1,
    {
        1
    }

    /// The variants with their codes and explicit messages.
    pub fn variants() -> (r: Vec<ErrorVariant>)
        ensures
            variants_view(r@) == buffer_error_table(),
    {
        let mut v: Vec<ErrorVariant> = Vec::new();
        v.push(ErrorVariant {
            name: owned("WriteFailed"),
            code: 1,
            message: Some(owned("write failed")),
            fields: VariantFields::Unit,
        });
        assert(variants_view(v@) =~= buffer_error_table());
        v
    }

    /// The static message for an error code.
    pub fn static_message(code: u32) -> (r: String)
        ensures
            r@ == static_message_spec("BufferError"@, buffer_error_table(), code),
    {
        let vs = BufferError::variants();
        static_message("BufferError", vs.as_slice(), code)
    }

    /// The `(CONSTANT_NAME, code)` pairs of all variants.
    pub fn codes() -> (r: Vec<(String, u32)>)
        ensures
            r@.len() == 1,
            r@[0].0@ == camel_to_upper_snake_spec("WriteFailed"@),
            r@[0].1 == 1,
    {
        let vs = BufferError::variants();
        let r = codes_table(vs.as_slice());
        assert(variants_view(vs@).len() == 1);
        assert(vs@.len() == 1);
        assert(variants_view(vs@)[0] == vs@[0]@);
        r
    }
}

/// A stateless calculator.
pub struct Calculator;

/// A result accumulator.
pub struct CalcResult(i32);

impl View for CalcResult {
    type V = i32;

    closed spec fn view(&self) -> i32 {
        self.0
    }
}

impl CalcResult {
    /// The accumulated value.
    pub fn get(&self) -> (r: i32)
        ensures
            r == self@,
    {
        self.0
    }
}

impl Calculator {
    pub fn new() -> (r: Calculator) {
        Calculator
    }

    /// Add two integers.
    pub fn add(&self, a: i32, b: i32) -> (r: i32)
        requires
            i32::MIN <= a + b <= i32::MAX,
        ensures
            r == a + b,
    {
        a + b
    }

    /// Check whether a value is strictly positive.
    pub fn is_positive(&self, value: i32) -> (r: bool)
        ensures
            r == (value > 0),
    {
        value > 0
    }

    /// Divide `a` by `b`, returning an error if `b` is zero.
    pub fn divide(&self, a: i32, b: i32) -> (r: Result<i32, CalcError>)
        requires
            !(a == i32::MIN && b == -1),
        ensures
            b == 0 ==> r == Err::<i32, CalcError>(CalcError::DivisionByZero),
            b != 0 ==> r == Ok::<i32, CalcError>(trunc_div(a as int, b as int) as i32),
    {
        if b == 0 {
            Err(CalcError::DivisionByZero)
        } else {
            Ok(div_toward_zero(a, b))
        }
    }

    /// Create a new result accumulator holding 0.
    pub fn create_result(&self) -> (r: CalcResult)
        ensures
            r@ == 0,
    {
        CalcResult(0)
    }

    /// Add a value into a result accumulator.
    pub fn accumulate(&self, res: &mut CalcResult, n: i32)
        requires
            i32::MIN <= old(res)@ + n <= i32::MAX,
        ensures
            final(res)@ == old(res)@ + n,
    {
        res.0 = res.0 + n;
    }

    /// Read the accumulated value.
    pub fn read_result(&self, res: &CalcResult) -> (r: i32)
        ensures
            r == res@,
    {
        res.0
    }

    /// Divide and store the result, or error if divisor is zero.
    pub fn try_divide_result(&self, a: i32, b: i32) -> (r: Result<CalcResult, CalcError>)
        requires
            !(a == i32::MIN && b == -1),
        ensures
            b == 0 ==> (r matches Err(CalcError::DivisionByZero)),
            b != 0 ==> (r matches Ok(c) && c@ == trunc_div(a as int, b as int)),
    {
        if b == 0 {
            Err(CalcError::DivisionByZero)
        } else {
            Ok(CalcResult(div_toward_zero(a, b)))
        }
    }
}

/// A text buffer whose contents are written out to a file descriptor.
/// The descriptor is held as its raw number; the buffer owns it.
pub struct TextBuffer {
    contents: String,
    output_fd: i32,
}

/// The state of a [`TextBuffer`].
pub struct TextBufferView {
    pub contents: Seq<char>,
    pub output_fd: i32,
}

impl View for TextBuffer {
    type V = TextBufferView;

    closed spec fn view(&self) -> TextBufferView {
        TextBufferView { contents: self.contents@, output_fd: self.output_fd }
    }
}

/// Concatenation of all parts.
pub open spec fn concat_spec(parts: Seq<Seq<char>>) -> Seq<char>
    decreases parts.len(),
{
    if parts.len() == 0 {
        Seq::empty()
    } else {
        concat_spec(parts.drop_last()) + parts.last()
    }
}

impl TextBuffer {
    /// Create an empty text buffer that writes to the given descriptor.
    pub fn new(output_fd: i32) -> (r: TextBuffer)
        ensures
            r@.contents == Seq::<char>::empty(),
            r@.output_fd == output_fd,
    {
        TextBuffer { contents: String::new(), output_fd }
    }

    /// The output file descriptor.
    pub fn fd(&self) -> (r: i32)
        ensures
            r == self@.output_fd,
    {
        self.output_fd
    }

    /// Append text to the buffer.
    pub fn write(&mut self, text: &str)
        ensures
            final(self)@.contents == old(self)@.contents + text@,
            final(self)@.output_fd == old(self)@.output_fd,
    {
        push_str(&mut self.contents, text);
    }

    /// Append multiple strings to the buffer.
    pub fn write_parts(&mut self, parts: &[&str])
        ensures
            final(self)@.contents == old(self)@.contents + concat_spec(strs_view(parts@)),
            final(self)@.output_fd == old(self)@.output_fd,
    {
        let ghost c0 = self.contents@;
        let ghost pv = strs_view(parts@);
        let mut i: usize = 0;
        while i < parts.len()
            invariant
                i <= parts@.len(),
                pv == strs_view(parts@),
                self.contents@ == c0 + concat_spec(pv.take(i as int)),
                self.output_fd == old(self).output_fd,
            decreases parts@.len() - i,
        {
            push_str(&mut self.contents, parts[i]);
            i = i + 1;
            assert(pv.take(i as int).drop_last() =~= pv.take(i - 1));
            assert(pv.take(i as int).last() == parts@[i - 1]@);
        }
        assert(pv.take(parts@.len() as int) =~= pv);
    }

    /// The buffer contents.
    pub fn contents(&self) -> (r: &str)
        ensures
            r@ == self@.contents,
    {
        self.contents.as_str()
    }

    /// The buffer contents as UTF-8 bytes.
    pub fn as_bytes(&self) -> (r: &[u8])
        ensures
            r@ == encode_utf8(self@.contents),
    {
        self.contents.as_str().as_bytes()
    }

    /// The outcome of flushing the buffer, given whether writing all of
    /// [`as_bytes`](Self::as_bytes) to the descriptor succeeded:
    /// `WriteFailed` if it did not.
    pub fn flush_outcome(&self, written: bool) -> (r: Result<(), BufferError>)
        ensures
            written ==> r == Ok::<(), BufferError>(()),
            !written ==> r == Err::<(), BufferError>(BufferError::WriteFailed),
    {
        if written {
            Ok(())
        } else {
            Err(BufferError::WriteFailed)
        }
    }

    /// Empty the buffer.
    pub fn clear(&mut self)
        ensures
            final(self)@.contents == Seq::<char>::empty(),
            final(self)@.output_fd == old(self)@.output_fd,
    {
        self.contents = String::new();
    }
}

} // verus!
