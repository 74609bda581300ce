pub mod builtin;
pub mod builtin_fns;
pub mod builtin_traits;
pub mod compile_unit;
pub mod configuration;
pub mod constants;
pub mod decimal;
pub mod expr;
pub mod hash;
pub mod inline_llvm;
pub mod lines;
pub mod misc;
pub mod name;
pub mod path;
pub mod semantics;
pub mod types;
