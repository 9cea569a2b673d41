# ffier

The decision logic of an FFI binding generator for Rust libraries, written
in Verus: what the annotation macros read from a library's types and traits,
what the bridge generator plans for each `extern "C"` function, and the text
of the generated C header and Rust client bindings. Every function in `src/`
carries a contract. Verus proves them all but those of five small wrappers
around std functions (`char::is_alphanumeric`, `char::is_uppercase`,
`str::to_lowercase`, `String::push`, `Path::file_stem`), whose contracts are
trusted.

## Layout

| Module | What it holds |
|---|---|
| `text`, `naming` | string helpers; `CamelCase` / `snake_case` conversions |
| `syntax`, `type_ops`, `alias` | the model of Rust types, the questions asked of them, and the aliases under which the bridge names them |
| `method_sig`, `impl_methods`, `vtable_methods`, `vtable_impl` | reading method signatures, impl blocks, `#[ffier(..)]` attributes and the vtable layout of traits implementable from C; the methods of the vtable wrapper type |
| `library`, `batch`, `dispatch`, `bridge_sig` | `library_definition!`, the batch of metadata items and its type tags, `impl Trait` dispatch, and the extern signatures of the bridge |
| `bridge_gen` | the `extern "C"` bridge of an exported type: handle type checks, parameter conversion, `impl Trait` dispatch by type or through the vtable, results, and the destroy function; the bridge of a free function |
| `bridge_impls` | the bridge of trait impls (methods called through the trait), the functions that dispatch an implementable trait's methods on the type a handle holds, the constructor of a handle around a C vtable, and an error type's message and free functions |
| `bridge_batch` | the library-wide parts of the bridge: the library crate's path at the head of the batch, type names by tag, the wrong-handle panic helper and the types each trait accepts, the debug function, the error payload and result-name functions, the string-freeing function, and the assembly of the header |
| `annotation_items` | the handle impls of an exported type, and the forwarding impl of a trait for its boxed trait object |
| `ffi_error`, `builtins` | packed error results, error messages and variant attributes; the `PushStr` writer that messages go through |
| `schema`, `convert`, `typedefs` | the type registry and the conversion of metadata into the schema |
| `gen_c`, `doc`, `header` | the C header |
| `client*` | the Rust client bindings (`client_implementable`: the client side of a trait implementable from C and of a trait impl; `client_exportable`: the client side of an exported type and of an error type from their metadata) |
| `example`, `mylib`, `mylib_client`, `krun` | the example libraries |

`tests/` exercises the library on concrete values; `app/` runs the example
libraries the way their consumers do, with the file descriptor I/O that the
library leaves to it.
