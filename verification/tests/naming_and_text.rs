use ffier::naming::{camel_to_snake, camel_to_upper_snake, humanize, snake_to_pascal, to_ascii_uppercase};
use ffier::text::{chars_of, join_strs, split_at_char, string_of, trim_str};

#[test]
fn camel_to_snake_splits_words() {
    assert_eq!(camel_to_snake("MyCalculator"), "my_calculator");
    assert_eq!(camel_to_snake("Widget"), "widget");
    assert_eq!(camel_to_snake("already_snake"), "already_snake");
    assert_eq!(camel_to_snake(""), "");
}

#[test]
fn camel_to_upper_snake_for_constants() {
    assert_eq!(camel_to_upper_snake("NotFound"), "NOT_FOUND");
    assert_eq!(camel_to_upper_snake("DivisionByZero"), "DIVISION_BY_ZERO");
}

#[test]
fn snake_to_pascal_for_type_prefixes() {
    assert_eq!(snake_to_pascal("mylib"), "Mylib");
    assert_eq!(snake_to_pascal("krun_init"), "KrunInit");
    assert_eq!(snake_to_pascal("ft"), "Ft");
}

#[test]
fn humanize_variant_names() {
    assert_eq!(humanize("DivisionByZero"), "division by zero");
    assert_eq!(humanize("Overflow"), "overflow");
}

#[test]
fn ascii_uppercase_leaves_other_characters() {
    assert_eq!(to_ascii_uppercase("ffier-ft_1"), "FFIER-FT_1");
}

#[test]
fn trim_removes_unicode_whitespace() {
    let t = trim_str("\u{3000} \tabc d\n ");
    assert_eq!(string_of(&t), "abc d");
    assert_eq!(string_of(&trim_str("   ")), "");
}

#[test]
fn join_and_split_are_inverse_on_commas() {
    assert_eq!(join_strs(&["a", "b", "c"], ", "), "a, b, c");
    assert_eq!(join_strs(&[], "-"), "");
    let chars = chars_of("'a, 'b,,");
    let parts: Vec<String> = split_at_char(&chars, ',').iter().map(|p| string_of(p)).collect();
    assert_eq!(parts, vec!["'a", " 'b", "", ""]);
    let none: Vec<String> = split_at_char(&chars_of(""), ',').iter().map(|p| string_of(p)).collect();
    assert_eq!(none, vec![""]);
}

#[test]
fn trim_agrees_with_std_on_every_character_class() {
    for u in 0u32..0x3100 {
        if let Some(c) = char::from_u32(u) {
            let s = format!("{c}a{c}");
            let ours: String = trim_str(&s).into_iter().collect();
            assert_eq!(ours, s.trim(), "character U+{u:04X}");
        }
    }
}
