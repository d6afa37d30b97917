# jscore

Bindings to WebKit's JavaScriptCore (Bun's build), in two parts.

- `src/` is the verified library: the handles of engine objects (values,
  objects, strings, contexts, classes), the engine's type and comparison
  codes, the class and property attribute sets, the descriptions of scripts,
  classes and static properties and their builders, the UTF-16 encoding of
  Rust text for the engine, the reading of the UTF-8 C strings the engine
  writes, and the decisions that turn the engine's raw answers (null
  references, exception slots, result codes) into Rust results.
- `app/` makes the engine calls: it declares the C API, implements the
  engine-backed methods as extension traits on the library's types, keeps
  user callbacks behind `extern "C"` trampolines, provides the attribute
  sets with the `bitflags` API, and offers checked forms (`named`,
  `with_name`, `create`, `with_script`, `with_source_url`) of the library
  functions that have preconditions, which panic where the condition fails.
