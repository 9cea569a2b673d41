use ffier::bridge::CTypeResolver;
use ffier::convert::{
    convert_exportable, convert_free_fn, convert_implementable, convert_method, convert_receiver, convert_trait_impl, MetaExportable,
    MetaFreeFunction, MetaImplementable, MetaMethod, MetaMethodContext, MetaParam, MetaParamKind, MetaReceiver, MetaReturn,
    MetaTraitImpl, SchemaMethodContext, SchemaReturn,
};
use ffier::header::Receiver;

fn s(x: &str) -> String {
    x.to_string()
}

fn meta_method(name: &str, receiver: MetaReceiver, is_builder: bool, context: MetaMethodContext) -> MetaMethod {
    MetaMethod {
        name: s(name),
        doc: vec![s(" Does it.")],
        receiver,
        method_lifetimes: vec![s("a")],
        params: vec![MetaParam { name: s("x"), kind: MetaParamKind::Regular(s("i32")) }],
        ret: if is_builder { MetaReturn::Void } else { MetaReturn::Value(s("u8")) },
        is_builder,
        context,
    }
}

#[test]
fn receivers_map_one_to_one() {
    assert_eq!(convert_receiver(MetaReceiver::NoSelf), Receiver::NoSelf);
    assert_eq!(convert_receiver(MetaReceiver::Ref), Receiver::Ref);
    assert_eq!(convert_receiver(MetaReceiver::Mut), Receiver::Mut);
    assert_eq!(convert_receiver(MetaReceiver::Value), Receiver::Value);
}

#[test]
fn methods_get_their_function_names() {
    let r = CTypeResolver::new("ft");
    let m = convert_method(
        &meta_method("add", MetaReceiver::Ref, false, MetaMethodContext::Exportable { ffi_name: s("calc_add") }),
        &r,
        None,
        "Self",
    );
    assert_eq!(m.name, "add");
    assert_eq!(m.doc, vec![s(" Does it.")]);
    assert_eq!(m.method_lifetimes, vec![s("a")]);
    assert_eq!(m.receiver, Receiver::Ref);
    assert_eq!(m.params.len(), 1);
    assert!(matches!(m.context, SchemaMethodContext::Exportable { ref ffi_name } if ffi_name == "ft_calc_add"));
    let t = convert_method(
        &meta_method("area", MetaReceiver::Ref, false, MetaMethodContext::Trait { has_default: true, index: 3 }),
        &r,
        Some("shape_"),
        "Self",
    );
    match t.context {
        SchemaMethodContext::Trait { ffi_name, index, has_default } => {
            assert_eq!(ffi_name, "ft_shape_area");
            assert_eq!(index, 3);
            assert!(has_default);
        }
        _ => panic!("expected a trait method"),
    }
}

#[test]
fn exported_types_traits_and_impls() {
    let r = CTypeResolver::new("ft");
    let ty = convert_exportable(
        &MetaExportable {
            struct_name: s("NetDeviceBuilder"),
            methods: vec![
                meta_method("new", MetaReceiver::NoSelf, false, MetaMethodContext::Exportable { ffi_name: s("net_device_builder_new") }),
                meta_method("mtu", MetaReceiver::Value, true, MetaMethodContext::Exportable { ffi_name: s("net_device_builder_mtu") }),
            ],
        },
        &r,
        "Self",
    );
    assert_eq!(ty.name, "NetDeviceBuilder");
    assert_eq!(ty.destroy_ffi_name, "ft_net_device_builder_destroy");
    assert!(ty.is_builder_type);
    assert!(matches!(ty.methods[1].ret, SchemaReturn::Value(ref t) if t.name == "Self"));
    let tr = convert_implementable(
        &MetaImplementable {
            trait_name: s("EventHandler"),
            methods: vec![meta_method("on_event", MetaReceiver::Mut, false, MetaMethodContext::Trait { has_default: false, index: 0 })],
            own_method_count: 1,
            max_vtable_slot: 0,
        },
        &r,
        "Self",
    );
    assert_eq!(tr.names.vtable_struct_name, "EventHandlerVtable");
    assert_eq!(tr.names.type_tag_constant, "FT_EVENT_HANDLER_TYPE_TAG");
    assert!(matches!(tr.methods[0].context, SchemaMethodContext::Trait { ref ffi_name, .. } if ffi_name == "ft_event_handler_on_event"));
    let ti = convert_trait_impl(
        &MetaTraitImpl {
            trait_name: s("EventHandler"),
            struct_name: s("BlockDevice"),
            lifetimes: vec![],
            trait_lifetime_args: vec![s("static")],
            struct_lifetime_args: vec![],
            methods: vec![meta_method("on_event", MetaReceiver::Mut, false, MetaMethodContext::Trait { has_default: false, index: 0 })],
        },
        &r,
        "Self",
    );
    assert_eq!(ti.trait_lifetime_args, vec![s("static")]);
    assert!(matches!(ti.methods[0].context, SchemaMethodContext::Trait { ref ffi_name, .. } if ffi_name == "ft_block_device_on_event"));
}

#[test]
fn free_functions_take_their_one_method() {
    let r = CTypeResolver::new("ft");
    let f = convert_free_fn(
        &MetaFreeFunction {
            name: s("version"),
            ffi_name: s("version"),
            doc: vec![],
            methods: vec![meta_method("version", MetaReceiver::NoSelf, false, MetaMethodContext::Exportable { ffi_name: s("version") })],
        },
        &r,
        "Self",
    );
    assert_eq!(f.ffi_name, "ft_version");
    assert_eq!(f.params.len(), 1);
    assert!(matches!(f.ret, SchemaReturn::Value(ref t) if t.name == "u8"));
}
