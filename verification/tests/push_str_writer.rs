use ffier::builtins::{write_str, PushStr, WriteError};
use ffier::header::default_guard;

struct Capped {
    text: String,
    cap: usize,
    calls: Vec<String>,
}

impl PushStr for Capped {
    fn pushes(&self) -> vstd::seq::Seq<(vstd::seq::Seq<char>, bool)> {
        panic!("the record of pushes is only used in proofs")
    }

    fn push(&mut self, s: &str) -> bool {
        self.calls.push(s.to_string());
        if self.text.len() + s.len() > self.cap {
            return false;
        }
        self.text.push_str(s);
        true
    }
}

#[test]
fn write_str_pushes_the_text_once() {
    let mut w = Capped { text: String::new(), cap: 8, calls: vec![] };
    assert_eq!(write_str(&mut w, "hello"), Ok(()));
    assert_eq!(write_str(&mut w, " world"), Err(WriteError));
    assert_eq!(w.calls, vec!["hello".to_string(), " world".to_string()]);
    assert_eq!(w.text, "hello");
}

#[test]
fn default_guard_of_schema_file() {
    assert_eq!(default_guard("ffier-ft.json"), "FFIER_FT_H");
    assert_eq!(default_guard("mylib"), "MYLIB_H");
    assert_eq!(default_guard(".hidden"), ".HIDDEN_H");
    assert_eq!(default_guard("a.b.c"), "A.B_H");
    assert_eq!(default_guard(""), "FFIER_H");
}
