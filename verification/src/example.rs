//! The example library exported over FFI: a calculator with a label and a
//! precision, a result accumulator, and an error enum with codes.

use vstd::prelude::*;
use vstd::utf8::encode_utf8;
use crate::ffi_error::{codes_table, static_message, static_message_spec, variants_view, ErrorVariant, ErrorVariantView, VariantFields};
use crate::naming::camel_to_upper_snake_spec;
use crate::text::{join_spec, join_strs, owned, strs_view};

verus! {

/// Rust's integer division, which rounds toward zero.
pub open spec fn trunc_div(a: int, b: int) -> int {
    if a >= 0 {
        if b > 0 { a / b } else { -(a / (-b)) }
    } else {
        if b > 0 { -((-a) / b) } else { (-a) / (-b) }
    }
}

/// Integer division rounding toward zero (Rust's `/` on `i32`).
pub fn div_toward_zero(a: i32, b: i32) -> (q: i32)
    requires
        b != 0,
        !(a == i32::MIN && b == -1),
    ensures
        q == trunc_div(a as int, b as int),
{
    let x: i64 = a as i64;
    let y: i64 = b as i64;
    let ax: i64 = if x < 0 { -x } else { x };
    let ay: i64 = if y < 0 { -y } else { y };
    let m: i64 = ax / ay;
    assert(0 <= m <= ax) by (nonlinear_arith)
        requires
            m == ax / ay,
            ax >= 0,
            ay >= 1,
    ;
    if (x < 0) == (y < 0) {
        assert(m <= i32::MAX) by (nonlinear_arith)
            requires
                m == ax / ay,
                ax <= 2147483648,
                ay >= 1,
                ax == 2147483648 ==> ay >= 2,
        ;
        m as i32
    } else {
        (-m) as i32
    }
}

/// Errors of the calculator.
#[derive(Clone, Copy, PartialEq, Eq, Debug, Structural)]
pub enum CalcError {
    /// Code 1; message `division by zero`.
    DivisionByZero,
    /// Code 2; message `integer overflow`.
    Overflow,
}

/// The variant table of [`CalcError`]: names, codes and explicit messages.
pub open spec fn calc_error_table() -> Seq<ErrorVariantView> {
    seq![
        ErrorVariantView { name: "DivisionByZero"@, code: 1, message: None, fields: VariantFields::Unit },
        ErrorVariantView { name: "Overflow"@, code: 2, message: Some("integer overflow"@), fields: VariantFields::Unit },
    ]
}

/// The code of each error.
pub open spec fn calc_error_code(e: CalcError) -> u32 {
    match e {
        CalcError::DivisionByZero => 1,
        CalcError::Overflow => 2,
    }
}

impl CalcError {
    /// The error code of this error.
    pub fn code(&self) -> (c: u32)
        ensures
            c == calc_error_code(*self),
    {
        match self {
            CalcError::DivisionByZero => 1,
            CalcError::Overflow => 2,
        }
    }

    /// The variants with their codes and explicit messages.
    pub fn variants() -> (r: Vec<ErrorVariant>)
        ensures
            variants_view(r@) == calc_error_table(),
    {
        let mut v: Vec<ErrorVariant> = Vec::new();
        v.push(ErrorVariant { name: owned("DivisionByZero"), code: 1, message: None, fields: VariantFields::Unit });
        v.push(ErrorVariant {
            name: owned("Overflow"),
            code: 2,
            message: Some(owned("integer overflow")),
            fields: VariantFields::Unit,
        });
        assert(variants_view(v@) =~= calc_error_table());
        v
    }

    /// The static message for an error code.
    pub fn static_message(code: u32) -> (r: String)
        ensures
            r@ == static_message_spec("CalcError"@, calc_error_table(), code),
    {
        let vs = CalcError::variants();
        static_message("CalcError", vs.as_slice(), code)
    }

    /// The `(CONSTANT_NAME, code)` pairs of all variants.
    pub fn codes() -> (r: Vec<(String, u32)>)
        ensures
            r@.len() == calc_error_table().len(),
            forall|i: int|
                0 <= i < r@.len() ==> (#[trigger] r@[i]).0@ == camel_to_upper_snake_spec(calc_error_table()[i].name)
                    && r@[i].1 == calc_error_table()[i].code,
    {
        let vs = CalcError::variants();
        let r = codes_table(vs.as_slice());
        proof {
            assert forall|i: int| 0 <= i < r@.len() implies (#[trigger] r@[i]).0@ == camel_to_upper_snake_spec(
                calc_error_table()[i].name,
            ) && r@[i].1 == calc_error_table()[i].code by {
                assert(variants_view(vs@)[i] == vs@[i]@);
            }
        }
        r
    }
}

/// A calculator with a display label and a precision setting.
pub struct MyCalculator {
    precision: u8,
    label: String,
}

/// The state of a [`MyCalculator`].
pub struct MyCalculatorView {
    pub precision: u8,
    pub label: Seq<char>,
}

impl View for MyCalculator {
    type V = MyCalculatorView;

    closed spec fn view(&self) -> MyCalculatorView {
        MyCalculatorView { precision: self.precision, label: self.label@ }
    }
}

/// A result accumulator.
pub struct CalcResult {
    value: i32,
}

impl View for CalcResult {
    type V = i32;

    closed spec fn view(&self) -> i32 {
        self.value
    }
}

impl CalcResult {
    /// Get the accumulated value.
    pub fn get(&self) -> (r: i32)
        ensures
            r == self@,
    {
        self.value
    }
}

/// The description of an operation code, if the code is known.
pub open spec fn describe_spec(code: i32) -> Option<Seq<char>> {
    if code == 0 {
        Some("ok"@)
    } else if code == 1 {
        Some("addition"@)
    } else if code == 2 {
        Some("subtraction"@)
    } else {
        None
    }
}

impl MyCalculator {
    /// Create a new calculator (precision 0, empty label).
    pub fn new() -> (r: MyCalculator)
        ensures
            r@.precision == 0,
            r@.label == Seq::<char>::empty(),
    {
        MyCalculator { precision: 0, label: String::new() }
    }

    /// Add two integers.
    pub fn add(&self, a: i32, b: i32) -> (r: i32)
        requires
            i32::MIN <= a + b <= i32::MAX,
        ensures
            r == a + b,
    {
        a + b
    }

    /// Multiply two integers.
    pub fn multiply(&self, a: i32, b: i32) -> (r: i32)
        requires
            i32::MIN <= a * b <= i32::MAX,
        ensures
            r == a * b,
    {
        a * b
    }

    /// Negate a 64-bit integer.
    pub fn negate(&self, value: i64) -> (r: i64)
        requires
            value != i64::MIN,
        ensures
            r == -value,
    {
        -value
    }

    /// Check whether a value is strictly positive.
    pub fn is_positive(&self, value: i32) -> (r: bool)
        ensures
            r == (value > 0),
    {
        value > 0
    }

    /// Set the internal precision (number of bits).
    pub fn set_precision(&mut self, bits: u8)
        ensures
            final(self)@.precision == bits,
            final(self)@.label == old(self)@.label,
    {
        self.precision = bits;
    }

    /// Divide `a` by `b`; `DivisionByZero` if `b` is zero.
    pub fn divide(&self, a: i32, b: i32) -> (r: Result<i32, CalcError>)
        requires
            !(a == i32::MIN && b == -1),
        ensures
            b == 0 ==> r == Err::<i32, CalcError>(CalcError::DivisionByZero),
            b != 0 ==> r == Ok::<i32, CalcError>(trunc_div(a as int, b as int) as i32),
    {
        if b == 0 {
            Err(CalcError::DivisionByZero)
        } else {
            Ok(div_toward_zero(a, b))
        }
    }

    /// Add with overflow checking: `Overflow` when the sum does not fit.
    pub fn checked_add(&self, a: i32, b: i32) -> (r: Result<i32, CalcError>)
        ensures
            (i32::MIN <= a + b <= i32::MAX) ==> r == Ok::<i32, CalcError>((a + b) as i32),
            !(i32::MIN <= a + b <= i32::MAX) ==> r == Err::<i32, CalcError>(CalcError::Overflow),
    {
        match a.checked_add(b) {
            Some(v) => Ok(v),
            None => Err(CalcError::Overflow),
        }
    }

    /// Validate internal state (always valid).
    pub fn validate(&self) -> (r: Result<(), CalcError>)
        ensures
            r == Ok::<(), CalcError>(()),
    {
        Ok(())
    }

    /// The display name: the label, or `calculator` when the label is empty.
    pub fn name(&self) -> (r: &str)
        ensures
            r@ == (if self@.label.len() == 0 { "calculator"@ } else { self@.label }),
    {
        if self.label.as_str().is_empty() {
            "calculator"
        } else {
            self.label.as_str()
        }
    }

    /// The raw number of a borrowed file descriptor, handed in as the
    /// number the descriptor carries (its `as_raw_fd`).
    pub fn fd_number(&self, fd: i32) -> (r: i32)
        ensures
            r == fd,
    {
        fd
    }

    /// Echo back the given string.
    pub fn echo<'a>(&self, msg: &'a str) -> (r: &'a str)
        ensures
            r@ == msg@,
    {
        msg
    }

    /// The raw (UTF-8) bytes of the label.
    pub fn data(&self) -> (r: &[u8])
        ensures
            r@ == encode_utf8(self@.label),
    {
        self.label.as_str().as_bytes()
    }

    /// Description of an operation code (0 = ok, 1 = addition,
    /// 2 = subtraction); `Overflow` for other codes.
    pub fn describe(&self, code: i32) -> (r: Result<&'static str, CalcError>)
        ensures
            match describe_spec(code) {
                Some(d) => r is Ok && r->Ok_0@ == d,
                None => r == Err::<&'static str, CalcError>(CalcError::Overflow),
            },
    {
        if code == 0 {
            Ok("ok")
        } else if code == 1 {
            Ok("addition")
        } else if code == 2 {
            Ok("subtraction")
        } else {
            Err(CalcError::Overflow)
        }
    }

    /// Set the label to the parts joined by `-`.
    pub fn set_label(&mut self, parts: &[&str])
        ensures
            final(self)@.label == join_spec(strs_view(parts@), "-"@),
            final(self)@.precision == old(self)@.precision,
    {
        self.label = join_strs(parts, "-");
    }

    /// Create a new result accumulator holding 0.
    pub fn create_result(&self) -> (r: CalcResult)
        ensures
            r@ == 0,
    {
        CalcResult { value: 0 }
    }

    /// Add `n` into a result accumulator.
    pub fn accumulate(&self, res: &mut CalcResult, n: i32)
        requires
            i32::MIN <= old(res)@ + n <= i32::MAX,
        ensures
            final(res)@ == old(res)@ + n,
    {
        res.value = res.value + n;
    }

    /// Read the value from a result accumulator.
    pub fn read_result(&self, res: &CalcResult) -> (r: i32)
        ensures
            r == res@,
    {
        res.value
    }

    /// A result accumulator initialized with `a / b`; `DivisionByZero` if
    /// `b` is zero.
    pub fn try_create_result(&self, a: i32, b: i32) -> (r: Result<CalcResult, CalcError>)
        requires
            !(a == i32::MIN && b == -1),
        ensures
            b == 0 ==> (r matches Err(CalcError::DivisionByZero)),
            b != 0 ==> (r matches Ok(c) && c@ == trunc_div(a as int, b as int)),
    {
        if b == 0 {
            Err(CalcError::DivisionByZero)
        } else {
            Ok(CalcResult { value: div_toward_zero(a, b) })
        }
    }
}

} // verus!
