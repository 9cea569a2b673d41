use ffier::doc::{build_doxygen_comment, heading_kind, parse_doc_sections, parse_param_entry, DocSection};

fn lines(v: &[&str]) -> Vec<String> {
    v.iter().map(|s| s.to_string()).collect()
}

#[test]
fn param_entries_with_separators() {
    assert_eq!(parse_param_entry("`a` - Left operand."), Some(("a".to_string(), "Left operand.".to_string())));
    assert_eq!(parse_param_entry("  `bits`: Precision in bits. "), Some(("bits".to_string(), "Precision in bits.".to_string())));
    assert_eq!(parse_param_entry("`x` \u{2014} dash"), Some(("x".to_string(), "dash".to_string())));
    assert_eq!(parse_param_entry("`y`"), Some(("y".to_string(), "".to_string())));
    assert_eq!(parse_param_entry("no backticks"), None);
    assert_eq!(parse_param_entry("`unterminated"), None);
}

#[test]
fn headings_are_case_insensitive() {
    assert_eq!(heading_kind("# arguments"), Some(DocSection::Arguments));
    assert_eq!(heading_kind("# parameters"), Some(DocSection::Arguments));
    assert_eq!(heading_kind("# returns"), Some(DocSection::Returns));
    assert_eq!(heading_kind("# safety"), None);
}

#[test]
fn sections_of_a_documented_method() {
    let doc = lines(&[
        " Add two integers.",
        "",
        " # Arguments",
        "",
        " * `a` - Left operand.",
        " * `b` - Right operand.",
        "",
        " # Returns",
        "",
        " The sum of `a` and `b`.",
    ]);
    let s = parse_doc_sections(&doc);
    assert_eq!(s.body, vec![" Add two integers.".to_string()]);
    assert_eq!(
        s.param_docs,
        vec![("a".to_string(), "Left operand.".to_string()), ("b".to_string(), "Right operand.".to_string())]
    );
    assert_eq!(s.returns_doc, Some("The sum of `a` and `b`.".to_string()));
}

#[test]
fn another_heading_closes_the_returns_section() {
    let doc = lines(&[" # Returns", " first", " second", " # Safety", " careful"]);
    let s = parse_doc_sections(&doc);
    assert_eq!(s.returns_doc, Some("first second".to_string()));
    assert_eq!(s.body, vec![" # Safety".to_string(), " careful".to_string()]);
}

#[test]
fn doxygen_for_a_documented_method() {
    let doc = lines(&[
        " Add two integers.",
        "",
        " # Arguments",
        "",
        " * `a` - Left operand.",
        " * `b` - Right operand.",
        "",
        " # Returns",
        "",
        " The sum of `a` and `b`.",
    ]);
    let names = lines(&["a", "b"]);
    let c = build_doxygen_comment(&doc, &names, false, None);
    assert_eq!(
        c,
        Some(
            "/**\n * Add two integers.\n *\n * @param a Left operand.\n * @param b Right operand.\n * @return The sum of `a` and `b`.\n */"
                .to_string()
        )
    );
}

#[test]
fn doxygen_for_fallible_method_with_out_param() {
    let doc = lines(&[" Divide.", " # Returns", " The quotient."]);
    let names = lines(&["a", "b"]);
    let c = build_doxygen_comment(&doc, &names, true, Some("ExError"));
    assert_eq!(
        c,
        Some(
            "/**\n * Divide.\n *\n * @param a\n * @param b\n * @param[out] result The quotient.\n * @return ExError with code 0 on success, error code on failure.\n */"
                .to_string()
        )
    );
}

#[test]
fn no_doxygen_without_docs() {
    assert_eq!(build_doxygen_comment(&[], &lines(&["a"]), false, None), None);
    assert_eq!(build_doxygen_comment(&lines(&["", "  "]), &[], false, None), None);
}
