use vstd::prelude::*;

pub mod text;
pub mod naming;
pub mod ffi_error;
pub mod example;
pub mod mylib;
pub mod mylib_client;
pub mod krun;
pub mod gen_c;
pub mod doc;
pub mod bridge;
pub mod header;
pub mod syntax;
pub mod library;
pub mod client;
pub mod builtins;
pub mod schema;
pub mod convert;
pub mod typedefs;
pub mod client_sig;
pub mod client_method;
pub mod client_types;
pub mod client_funcs;
pub mod client_traits;
pub mod client_lookup;
pub mod client_gen;
pub mod client_implementable;
pub mod client_exportable;
pub mod type_ops;
pub mod method_sig;
pub mod vtable_methods;
pub mod vtable_impl;
pub mod annotation_items;
pub mod dispatch;
pub mod batch;
pub mod impl_methods;
pub mod alias;
pub mod bridge_sig;
pub mod bridge_gen;
pub mod bridge_impls;
pub mod bridge_batch;

verus! {

} // verus!
