//! Names of the standard library that the compiler knows, and where it keeps its files.

use vstd::prelude::*;

verus! {

pub const STD_NAME: &'static str = "Std";

pub const PTR_NAME: &'static str = "Ptr";

pub const U8_NAME: &'static str = "U8";

pub const I32_NAME: &'static str = "I32";

pub const U32_NAME: &'static str = "U32";

pub const I64_NAME: &'static str = "I64";

pub const U64_NAME: &'static str = "U64";

pub const BOOL_NAME: &'static str = "Bool";

pub const F32_NAME: &'static str = "F32";

pub const F64_NAME: &'static str = "F64";

pub const ARRAY_NAME: &'static str = "Array";

pub const STRING_NAME: &'static str = "String";

pub const IO_NAME: &'static str = "IO";

pub const FUNPTR_NAME: &'static str = "#FunPtr";

pub const DYNAMIC_OBJECT_NAME: &'static str = "#DynamicObject";

pub const DESTRUCTOR_OBJECT_NAME: &'static str = "Destructor";

/// The largest number of arguments of a function pointer, and of fields of a tuple.
pub const FUNPTR_ARGS_MAX: u32 = 100;

/// Whether tuples are unboxed.
pub const TUPLE_UNBOX: bool = true;

/// The symbol that starts the name of a field setter, as in `=price`.
pub const SETTER_SYMBOL: &'static str = "=";

/// The directory where the compiler keeps its intermediate files.
pub const INTERMEDIATE_PATH: &'static str = ".fixlang/intermediate";

/// The directory where the compiler keeps the object files of compilation units.
pub const COMPILATION_UNITS_PATH: &'static str = ".fixlang/intermediate/units";

} // verus!
