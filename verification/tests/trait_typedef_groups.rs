use ffier::typedefs::{emit_trait_typedefs, str_less, trait_typedefs, TraitImplementor};
use ffier::text::chars_of;

fn imp(t: &str, c: &str, i: &str) -> TraitImplementor {
    TraitImplementor { trait_name: t.to_string(), trait_c_name: c.to_string(), implementor_c: i.to_string() }
}

#[test]
fn names_sort_by_code_point() {
    assert!(str_less(&chars_of("Apple"), &chars_of("Banana")));
    assert!(str_less(&chars_of("Ab"), &chars_of("Abc")));
    assert!(!str_less(&chars_of("Abc"), &chars_of("Ab")));
    assert!(!str_less(&chars_of("same"), &chars_of("same")));
    assert!(str_less(&chars_of("Z"), &chars_of("a")));
}

#[test]
fn implementors_grouped_by_trait_in_order() {
    let es = vec![
        imp("Fruit", "FtFruit", "FtApple"),
        imp("Device", "FtDevice", "FtNetDevice"),
        imp("Fruit", "FtFruit", "FtPear"),
        imp("Device", "FtDevice", "FtBlockDevice"),
        imp("Fruit", "FtFruit", "FtVtableFruit"),
    ];
    let gs = trait_typedefs(&es);
    assert_eq!(gs.len(), 2);
    assert_eq!(gs[0].name, "Device");
    assert_eq!(gs[0].implementors, vec!["FtNetDevice".to_string(), "FtBlockDevice".to_string()]);
    assert_eq!(gs[1].name, "Fruit");
    assert_eq!(gs[1].c_name, "FtFruit");
    let mut out = String::new();
    emit_trait_typedefs(&mut out, &es);
    assert_eq!(
        out,
        "typedef void* FtDevice; /* FtNetDevice | FtBlockDevice */\ntypedef void* FtFruit; /* FtApple | FtPear | FtVtableFruit */\n"
    );
    let mut none = String::new();
    emit_trait_typedefs(&mut none, &[]);
    assert_eq!(none, "");
}
