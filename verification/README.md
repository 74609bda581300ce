# fixlang

Parts of the compiler of the Fix programming language, verified with Verus.

- `src/expr.rs`: expressions, their nodes, and the computation of free variables.
- `src/types.rs`, `src/name.rs`: kinds, types, schemes, type definitions and names.
- `src/builtin.rs`, `src/builtin_fns.rs`, `src/builtin_traits.rs`: the built-in type
  constructors, values and operator traits of `Std`; each built-in value is a lambda around
  a literal whose operation (`src/inline_llvm.rs`) a code generator implements.
- `src/semantics.rs`: what each of those operations computes, over a model of run-time
  values, with laws such as reading an array element back after setting it.

The code generator, which emits LLVM for the operations, is not part of this crate: nothing
here produces machine code, and nothing checks a generator against `src/semantics.rs`.
- `src/configuration.rs`: the settings of a build and what follows from them.
- `src/compile_unit.rs`, `src/hash.rs`, `src/misc.rs`, `src/path.rs`: names of cached object
  files and temporary sources, error messages.
- `src/decimal.rs`, `src/lines.rs`: decimal numbers and lines of text.
- `app/`: the `fix` command line, and what reads or writes files or runs processes.
