use ffier::example::{CalcError as ExampleError, MyCalculator};
use ffier::mylib::{BufferError, CalcError, Calculator, TextBuffer};

#[test]
fn my_calculator_arithmetic() {
    let c = MyCalculator::new();
    assert_eq!(c.add(2, 3), 5);
    assert_eq!(c.multiply(-4, 6), -24);
    assert_eq!(c.negate(7), -7);
    assert!(c.is_positive(1));
    assert!(!c.is_positive(0));
    assert_eq!(c.divide(7, 2), Ok(3));
    assert_eq!(c.divide(-7, 2), Ok(-3));
    assert_eq!(c.divide(1, 0), Err(ExampleError::DivisionByZero));
    assert_eq!(c.checked_add(i32::MAX, 1), Err(ExampleError::Overflow));
    assert_eq!(c.checked_add(40, 2), Ok(42));
    assert_eq!(c.validate(), Ok(()));
}

#[test]
fn my_calculator_label_and_name() {
    let mut c = MyCalculator::new();
    assert_eq!(c.name(), "calculator");
    assert_eq!(c.data(), b"");
    c.set_label(&["a", "b", "c"]);
    assert_eq!(c.name(), "a-b-c");
    assert_eq!(c.data(), b"a-b-c");
    assert_eq!(c.echo("zero-copy"), "zero-copy");
    c.set_precision(16);
}

#[test]
fn my_calculator_describe_codes() {
    let c = MyCalculator::new();
    assert_eq!(c.describe(0), Ok("ok"));
    assert_eq!(c.describe(1), Ok("addition"));
    assert_eq!(c.describe(2), Ok("subtraction"));
    assert_eq!(c.describe(3), Err(ExampleError::Overflow));
}

#[test]
fn my_calculator_accumulates_results() {
    let c = MyCalculator::new();
    let mut r = c.create_result();
    assert_eq!(c.read_result(&r), 0);
    c.accumulate(&mut r, 5);
    c.accumulate(&mut r, -2);
    assert_eq!(c.read_result(&r), 3);
    assert_eq!(r.get(), 3);
    assert_eq!(c.try_create_result(9, 4).map(|r| r.get()), Ok(2));
    assert!(matches!(c.try_create_result(9, 0), Err(ExampleError::DivisionByZero)));
}

#[test]
fn calculator_divide_and_results() {
    let c = Calculator::new();
    assert_eq!(c.add(1, 2), 3);
    assert!(c.is_positive(3));
    assert_eq!(c.divide(10, 3), Ok(3));
    assert_eq!(c.divide(10, 0), Err(CalcError::DivisionByZero));
    let mut r = c.create_result();
    c.accumulate(&mut r, 4);
    assert_eq!(c.read_result(&r), 4);
    assert_eq!(c.try_divide_result(-9, 2).map(|r| r.get()), Ok(-4));
    assert!(matches!(c.try_divide_result(1, 0), Err(CalcError::DivisionByZero)));
}

#[test]
fn text_buffer_collects_writes() {
    let mut b = TextBuffer::new(1);
    assert_eq!(b.fd(), 1);
    b.write("hello");
    b.write_parts(&[", ", "world", "!"]);
    assert_eq!(b.contents(), "hello, world!");
    assert_eq!(b.as_bytes(), b"hello, world!");
    assert_eq!(b.flush_outcome(true), Ok(()));
    assert_eq!(b.flush_outcome(false), Err(BufferError::WriteFailed));
    b.clear();
    assert_eq!(b.contents(), "");
    assert_eq!(b.fd(), 1);
}

#[test]
fn buffer_error_message() {
    assert_eq!(BufferError::static_message(1), "write failed");
    assert_eq!(BufferError::WriteFailed.code(), 1);
}

#[test]
fn fd_number_is_the_raw_descriptor() {
    let c = MyCalculator::new();
    assert_eq!(c.fd_number(0), 0);
    assert_eq!(c.fd_number(7), 7);
}
