//! Identifier case conversions used to derive C names from Rust names.
//!
//! - `MyCalculator` → `my_calculator` (snake case, used for C function names)
//! - `MyCalculator` → `MY_CALCULATOR` (upper snake case, used for constants)
//! - `mylib` → `Mylib` (Pascal case, used for C type name prefixes)

use vstd::prelude::*;
use crate::text::{ascii_lower_char, ascii_upper, ascii_upper_char, chars_of, is_ascii_upper, push_char, to_ascii_lower_char, to_ascii_upper_char};

verus! {

/// The characters that one input character contributes to the snake-case
/// form: an ASCII uppercase letter becomes its lowercase, preceded by `_`
/// unless it is the first character.
pub open spec fn snake_piece(c: char, first: bool) -> Seq<char> {
    if is_ascii_upper(c) {
        if first {
            seq![ascii_lower_char(c)]
        } else {
            seq!['_', ascii_lower_char(c)]
        }
    } else {
        seq![c]
    }
}

/// `CamelCase` → `camel_case`.
pub open spec fn camel_to_snake_spec(s: Seq<char>) -> Seq<char>
    decreases s.len(),
{
    if s.len() == 0 {
        Seq::empty()
    } else {
        camel_to_snake_spec(s.drop_last()) + snake_piece(s.last(), s.len() == 1)
    }
}

/// `CamelCase` → `CAMEL_CASE`.
pub open spec fn camel_to_upper_snake_spec(s: Seq<char>) -> Seq<char> {
    ascii_upper(camel_to_snake_spec(s))
}

/// `snake_case` → `SnakeCase`: underscores are dropped and the first
/// character of every underscore-separated word is uppercased.
pub open spec fn snake_to_pascal_spec(s: Seq<char>) -> Seq<char>
    decreases s.len(),
{
    if s.len() == 0 {
        Seq::empty()
    } else if s.last() == '_' {
        snake_to_pascal_spec(s.drop_last())
    } else if s.len() == 1 || s[s.len() - 2] == '_' {
        snake_to_pascal_spec(s.drop_last()).push(ascii_upper_char(s.last()))
    } else {
        snake_to_pascal_spec(s.drop_last()).push(s.last())
    }
}

/// Every `_` replaced by a space.
pub open spec fn underscores_to_spaces(s: Seq<char>) -> Seq<char> {
    s.map_values(|c: char| if c == '_' { ' ' } else { c })
}

/// `CamelCase` → `camel case` (the human-readable form of an identifier).
pub open spec fn humanize_spec(s: Seq<char>) -> Seq<char> {
    underscores_to_spaces(camel_to_snake_spec(s))
}

/// The snake-case form holds no ASCII uppercase letter.
pub proof fn lemma_snake_is_lowercase(s: Seq<char>)
    ensures
        forall|i: int| 0 <= i < camel_to_snake_spec(s).len() ==> !is_ascii_upper(#[trigger] camel_to_snake_spec(s)[i]),
    decreases s.len(),
{
    if s.len() > 0 {
        lemma_snake_is_lowercase(s.drop_last());
        let prev = camel_to_snake_spec(s.drop_last());
        let piece = snake_piece(s.last(), s.len() == 1);
        assert forall|i: int| 0 <= i < piece.len() implies !is_ascii_upper(#[trigger] piece[i]) by {
            let c = s.last();
            if is_ascii_upper(c) {
                assert(('a' as u32) <= (c as u32) + 32 <= ('z' as u32));
            }
        }
        assert forall|i: int| 0 <= i < camel_to_snake_spec(s).len() implies !is_ascii_upper(
            #[trigger] camel_to_snake_spec(s)[i],
        ) by {
            if i < prev.len() {
                assert(camel_to_snake_spec(s)[i] == prev[i]);
            } else {
                assert(camel_to_snake_spec(s)[i] == piece[i - prev.len()]);
            }
        }
    }
}

/// Converts `CamelCase` to `snake_case`.
pub fn camel_to_snake(s: &str) -> (r: String)
    ensures
        r@ == camel_to_snake_spec(s@),
{
    let v = chars_of(s);
    let mut out = String::new();
    let mut i: usize = 0;
    while i < v.len()
        invariant
            v@ == s@,
            i <= v@.len(),
            out@ == camel_to_snake_spec(v@.take(i as int)),
        decreases v@.len() - i,
    {
        let c = v[i];
        if 'A' <= c && c <= 'Z' {
            if i > 0 {
                push_char(&mut out, '_');
            }
            push_char(&mut out, to_ascii_lower_char(c));
        } else {
            push_char(&mut out, c);
        }
        proof {
            assert(v@.take(i + 1).drop_last() =~= v@.take(i as int));
            assert(v@.take(i + 1).last() == c);
        }
        i = i + 1;
        assert(out@ =~= camel_to_snake_spec(v@.take(i as int)));
    }
    assert(v@.take(v@.len() as int) =~= v@);
    out
}

/// Converts `CamelCase` to `CAMEL_CASE`.
pub fn camel_to_upper_snake(s: &str) -> (r: String)
    ensures
        r@ == camel_to_upper_snake_spec(s@),
{
    let snake = camel_to_snake(s);
    to_ascii_uppercase(snake.as_str())
}

/// `str::to_ascii_uppercase`.
pub fn to_ascii_uppercase(s: &str) -> (r: String)
    ensures
        r@ == ascii_upper(s@),
{
    let v = chars_of(s);
    let mut out = String::new();
    let mut i: usize = 0;
    while i < v.len()
        invariant
            v@ == s@,
            i <= v@.len(),
            out@ == ascii_upper(v@.take(i as int)),
        decreases v@.len() - i,
    {
        push_char(&mut out, to_ascii_upper_char(v[i]));
        i = i + 1;
        assert(out@ =~= ascii_upper(v@.take(i as int)));
    }
    assert(v@.take(v@.len() as int) =~= v@);
    out
}

/// Converts `snake_case` to `PascalCase`.
pub fn snake_to_pascal(s: &str) -> (r: String)
    ensures
        r@ == snake_to_pascal_spec(s@),
{
    let v = chars_of(s);
    let mut out = String::new();
    let mut i: usize = 0;
    while i < v.len()
        invariant
            v@ == s@,
            i <= v@.len(),
            out@ == snake_to_pascal_spec(v@.take(i as int)),
        decreases v@.len() - i,
    {
        let c = v[i];
        let ghost t = v@.take(i + 1);
        proof {
            assert(t.drop_last() =~= v@.take(i as int));
            assert(t.last() == c);
            if i > 0 {
                assert(t[t.len() - 2] == v@[i - 1]);
            }
        }
        if c == '_' {
        } else if i == 0 || v[i - 1] == '_' {
            push_char(&mut out, to_ascii_upper_char(c));
        } else {
            push_char(&mut out, c);
        }
        i = i + 1;
    }
    assert(v@.take(v@.len() as int) =~= v@);
    out
}

/// Converts `CamelCase` to lowercase words separated by spaces
/// (`DivisionByZero` → `division by zero`).
pub fn humanize(s: &str) -> (r: String)
    ensures
        r@ == humanize_spec(s@),
{
    let snake = camel_to_snake(s);
    let v = chars_of(snake.as_str());
    let mut out = String::new();
    let mut i: usize = 0;
    while i < v.len()
        invariant
            v@ == camel_to_snake_spec(s@),
            i <= v@.len(),
            out@ == underscores_to_spaces(v@.take(i as int)),
        decreases v@.len() - i,
    {
        let c = v[i];
        if c == '_' {
            push_char(&mut out, ' ');
        } else {
            push_char(&mut out, c);
        }
        i = i + 1;
        assert(out@ =~= underscores_to_spaces(v@.take(i as int)));
    }
    assert(v@.take(v@.len() as int) =~= v@);
    out
}

} // verus!
