# mirtal

The checked core of a model-agnostic Rust execution layer for Apple MLX and
Metal, written in Verus.

- `src/` is the verified library: shapes and dtypes, device and compile
  options, quantization and RoPE configuration checks, the Metal kernel
  contract (descriptor, template and dtype validation, launch planning),
  aliasing dispatches and prepared plans, and `dsl/`, the grammar of the
  `metal_kernel!`, `metal_library!` and `compiled` declarations: a lexer and
  recursive-descent parser proved equal to their specifications, the buffer
  contract check, and the Metal translation unit used to check kernel bodies.
- `app/` reads macro input and source files, runs Apple's Metal compiler on
  the translation unit, generates Rust tokens, carries the error type's
  display messages, and holds the checks on floating-point arguments.
- `tests/` exercises the library on concrete values.
