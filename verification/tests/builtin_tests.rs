use fixlang::builtin::{
    bulitin_tycons, get_tuple_n, is_array_tycon, is_destructor_object_tycon,
    is_dynamic_object_tycon, is_funptr_tycon, make_array_tycon, make_array_ty,
    make_destructor_object_name, make_dynamic_object_name, make_funptr_name, make_funptr_tycon,
    make_i64_ty, make_io_unit_ty, make_u64_ty, make_tuple_name, make_tuple_ty, make_u8_ty, make_unit_ty,
    std_name,
};
use fixlang::builtin_fns::{
    abort_function, fill_array, fix, force_unique_array, get_capacity_array, get_ptr_array,
    get_size_array, is_unique_function, loop_result_defn, make_empty, mod_array,
    number_to_string_function, read_array, shift_function, state_loop, struct_get, struct_mod,
    struct_set, tuple_defn, union_as, union_is, union_mod_function, union_new,
    unsafe_get_array, unsafe_set_array, unsafe_set_length_array, write_array, write_array_unique,
};
use fixlang::builtin_traits::{add_trait, eq_trait, less_than_trait, not_trait};
use fixlang::expr::Expr;
use fixlang::name::FullName;
use fixlang::types::{
    type_tyapp, type_tyvar_star, Field, Struct, TyCon, TypeDeclValue, TypeDefn, Union,
};
use std::sync::Arc;

fn scheme_type(p: &(Arc<fixlang::expr::ExprNode>, Arc<fixlang::types::Scheme>)) -> String {
    p.1.ty.to_string()
}

#[test]
fn array_builtins_have_their_documented_types() {
    assert_eq!(scheme_type(&fill_array()), "Std::I64 -> a -> Std::Array a");
    assert_eq!(scheme_type(&make_empty()), "Std::I64 -> Std::Array a");
    assert_eq!(scheme_type(&read_array()), "Std::I64 -> Std::Array a -> a");
    assert_eq!(scheme_type(&write_array()), "Std::I64 -> a -> Std::Array a -> Std::Array a");
    assert_eq!(
        scheme_type(&write_array_unique()),
        "Std::I64 -> a -> Std::Array a -> Std::Array a"
    );
    assert_eq!(
        scheme_type(&mod_array(false)),
        "Std::I64 -> (a -> a) -> Std::Array a -> Std::Array a"
    );
    assert_eq!(scheme_type(&force_unique_array(false)), "Std::Array a -> Std::Array a");
    assert_eq!(scheme_type(&get_size_array()), "Std::Array a -> Std::I64");
    assert_eq!(scheme_type(&get_capacity_array()), "Std::Array a -> Std::I64");
    assert_eq!(scheme_type(&get_ptr_array()), "Std::Array a -> Std::Ptr");
    assert_eq!(scheme_type(&unsafe_get_array()), "Std::I64 -> Std::Array a -> a");
    assert_eq!(
        scheme_type(&unsafe_set_array()),
        "Std::I64 -> a -> Std::Array a -> Std::Array a"
    );
    assert_eq!(
        scheme_type(&unsafe_set_length_array()),
        "Std::I64 -> Std::Array a -> Std::Array a"
    );
}

#[test]
fn control_builtins_have_their_documented_types() {
    assert_eq!(scheme_type(&fix()), "((a -> b) -> a -> b) -> a -> b");
    assert_eq!(scheme_type(&state_loop()), "s -> (s -> Std::LoopResult s b) -> b");
    assert_eq!(scheme_type(&abort_function()), "Std::Tuple0 -> a");
    assert_eq!(scheme_type(&is_unique_function()), "a -> Std::Tuple2 Std::Bool a");
}

#[test]
fn builtin_schemes_generalize_their_variables() {
    let f = fix();
    let vars: Vec<String> = f.1.gen_vars.iter().map(|v| v.name.clone()).collect();
    assert_eq!(vars, vec!["a".to_string(), "b".to_string()]);
    let l = state_loop();
    let vars: Vec<String> = l.1.gen_vars.iter().map(|v| v.name.clone()).collect();
    assert_eq!(vars, vec!["s".to_string(), "b".to_string()]);
}

#[test]
fn builtin_literals_read_their_arguments() {
    let (e, _) = fill_array();
    // \size -> \value -> literal
    match &*e.expr {
        Expr::Lam(x, body) => {
            assert_eq!(x.name, "size");
            match &*body.expr {
                Expr::Lam(y, lit) => {
                    assert_eq!(y.name, "value");
                    match &*lit.expr {
                        Expr::Lit(l) => {
                            assert_eq!(l.free_vars, vec!["size".to_string(), "value".to_string()]);
                        }
                        _ => panic!("expected a literal"),
                    }
                }
                _ => panic!("expected a lambda"),
            }
        }
        _ => panic!("expected a lambda"),
    }
}

#[test]
fn number_printing_and_shifts() {
    assert_eq!(scheme_type(&number_to_string_function(make_i64_ty())), "Std::I64 -> Std::String");
    assert_eq!(scheme_type(&number_to_string_function(make_u8_ty())), "Std::U8 -> Std::String");
    assert_eq!(scheme_type(&shift_function(make_i64_ty(), true)), "Std::I64 -> Std::I64 -> Std::I64");
}

#[test]
fn names_of_builtin_type_constructors() {
    assert_eq!(make_funptr_name(3), "#FunPtr3");
    assert_eq!(is_funptr_tycon(&make_funptr_tycon(3)), Some(3));
    assert_eq!(is_funptr_tycon(&make_array_tycon()), None);
    assert!(is_array_tycon(&make_array_tycon()));
    assert!(!is_array_tycon(&make_funptr_tycon(1)));
    assert!(is_dynamic_object_tycon(&TyCon::new(make_dynamic_object_name())));
    assert!(is_destructor_object_tycon(&TyCon::new(make_destructor_object_name())));
    assert!(!is_destructor_object_tycon(&make_array_tycon()));
    assert_eq!(make_tuple_name(2).to_string(), "Std::Tuple2");
    assert_eq!(get_tuple_n(&make_tuple_name(2)), Some(2));
    assert_eq!(get_tuple_n(&make_tuple_name(0)), Some(0));
    assert_eq!(get_tuple_n(&std_name("Tuple")), None);
    assert_eq!(get_tuple_n(&std_name("Array")), None);
    assert_eq!(get_tuple_n(&FullName::from_strs(&["Main"], "Tuple2")), None);
}

#[test]
fn builtin_type_constructors_are_distinct() {
    let tycons = bulitin_tycons();
    let names: Vec<String> = tycons.iter().map(|(tc, _)| tc.name.to_string()).collect();
    for i in 0..names.len() {
        for j in 0..i {
            assert_ne!(names[i], names[j]);
        }
    }
    assert!(names.contains(&"Std::Array".to_string()));
    assert!(names.contains(&"Std::#FunPtr1".to_string()));
    assert!(!names.contains(&"Std::#FunPtr0".to_string()));
    assert!(names.contains(&"Std::#FunPtr100".to_string()));
    assert!(names.contains(&"Std::#DynamicObject".to_string()));
}

#[test]
fn tuple_and_unit_types() {
    let t = make_tuple_ty(vec![make_i64_ty(), make_u8_ty()]);
    assert_eq!(t.to_string(), "Std::Tuple2 Std::I64 Std::U8");
    assert_eq!(make_unit_ty().to_string(), "Std::Tuple0");
    assert_eq!(make_io_unit_ty().to_string(), "Std::IO Std::Tuple0");
    assert_eq!(type_tyapp(make_array_ty(), type_tyvar_star("a")).to_string(), "Std::Array a");
    let d = tuple_defn(2);
    assert_eq!(d.ty().to_string(), "Std::Tuple2 t0 t1");
    let names: Vec<String> = d.fields().iter().map(|f| f.name.clone()).collect();
    assert_eq!(names, vec!["0".to_string(), "1".to_string()]);
}

#[test]
fn loop_result_definition() {
    let d = loop_result_defn();
    assert_eq!(d.ty().to_string(), "Std::LoopResult s b");
    let fields: Vec<(String, String)> =
        d.fields().iter().map(|f| (f.name.clone(), f.ty.to_string())).collect();
    assert_eq!(
        fields,
        vec![("continue".to_string(), "s".to_string()), ("break".to_string(), "b".to_string())]
    );
}

fn pair_struct() -> TypeDefn {
    TypeDefn {
        name: FullName::from_strs(&["Main"], "Pair"),
        tyvars: vec!["a".to_string()],
        value: TypeDeclValue::Struct(Struct {
            fields: vec![
                Field { name: "x".to_string(), ty: type_tyvar_star("a") },
                Field { name: "y".to_string(), ty: make_i64_ty() },
            ],
            is_unbox: false,
        }),
    }
}

fn option_union() -> TypeDefn {
    TypeDefn {
        name: FullName::from_strs(&["Main"], "Opt"),
        tyvars: vec!["a".to_string()],
        value: TypeDeclValue::Union(Union {
            fields: vec![
                Field { name: "none".to_string(), ty: make_unit_ty() },
                Field { name: "some".to_string(), ty: type_tyvar_star("a") },
            ],
            is_unbox: true,
        }),
    }
}

#[test]
fn struct_accessors() {
    let d = pair_struct();
    let name = d.name.copy();
    assert_eq!(d.get_field_by_name("y").map(|(i, _)| i), Some(1));
    assert!(d.get_field_by_name("z").is_none());
    let g = struct_get(&name, &d, "x").unwrap();
    assert_eq!(scheme_type(&g), "Main::Pair a -> a");
    let g = struct_get(&name, &d, "y").unwrap();
    assert_eq!(scheme_type(&g), "Main::Pair a -> Std::I64");
    let s = struct_set(&name, &d, "y", false).unwrap();
    assert_eq!(scheme_type(&s), "Std::I64 -> Main::Pair a -> Main::Pair a");
    let m = struct_mod(&name, &d, "x", true).unwrap();
    assert_eq!(scheme_type(&m), "(a -> a) -> Main::Pair a -> Main::Pair a");
}

#[test]
fn struct_accessors_of_missing_fields() {
    let d = pair_struct();
    let name = d.name.copy();
    assert_eq!(
        struct_get(&name, &d, "z").err(),
        Some("No field `z` found in the struct `Main::Pair`.".to_string())
    );
    assert_eq!(
        struct_set(&name, &d, "z", false).err(),
        Some("No field `z` found in the struct `Main::Pair`.".to_string())
    );
    assert_eq!(
        struct_mod(&name, &d, "z", false).err(),
        Some("error: no field `z` found in the struct `Main::Pair`.".to_string())
    );
}

#[test]
fn union_accessors() {
    let d = option_union();
    let name = d.name.copy();
    let some = "some".to_string();
    assert_eq!(scheme_type(&union_new(&name, &some, &d).unwrap()), "a -> Main::Opt a");
    assert_eq!(scheme_type(&union_as(&name, &some, &d).unwrap()), "Main::Opt a -> a");
    assert_eq!(scheme_type(&union_is(&name, &some, &d).unwrap()), "Main::Opt a -> Std::Bool");
    assert_eq!(
        scheme_type(&union_mod_function(&name, &some, &d).unwrap()),
        "(a -> a) -> Main::Opt a -> Main::Opt a"
    );
    let other = "other".to_string();
    let msg = Some("Unknown field `other` for union `Main::Opt`".to_string());
    assert_eq!(union_new(&name, &other, &d).err(), msg);
    assert_eq!(union_as(&name, &other, &d).err(), msg);
    assert_eq!(union_is(&name, &other, &d).err(), msg);
    assert_eq!(union_mod_function(&name, &other, &d).err(), msg);
}

#[test]
fn operator_traits_have_their_documented_methods() {
    let t = add_trait();
    assert_eq!(t.id.name.to_string(), "Std::Add");
    assert_eq!(t.methods.len(), 1);
    assert_eq!(t.methods[0].0, "add");
    assert_eq!(t.methods[0].1.ty.to_string(), "a -> a -> a");
    let t = eq_trait();
    assert_eq!(t.methods[0].0, "eq");
    assert_eq!(t.methods[0].1.ty.to_string(), "a -> a -> Std::Bool");
    let t = less_than_trait();
    assert_eq!(t.methods[0].0, "less_than");
    assert_eq!(t.methods[0].1.ty.to_string(), "a -> a -> Std::Bool");
    let t = not_trait();
    assert_eq!(t.methods[0].1.ty.to_string(), "a -> a");
}

fn free_vars_after_calculation(e: &Arc<fixlang::expr::ExprNode>) -> Vec<String> {
    let mut v = fixlang::expr::calculate_free_vars(e.clone()).free_vars().to_vec();
    v.sort();
    v
}

#[test]
fn builtin_functions_are_closed() {
    assert!(free_vars_after_calculation(&fill_array().0).is_empty());
    assert!(free_vars_after_calculation(&unsafe_set_array().0).is_empty());
    assert!(free_vars_after_calculation(&state_loop().0).is_empty());
    assert!(free_vars_after_calculation(&mod_array(true).0).is_empty());
    let d = pair_struct();
    let name = d.name.copy();
    assert!(free_vars_after_calculation(&struct_set(&name, &d, "x", false).unwrap().0).is_empty());
    assert_eq!(free_vars_after_calculation(&fix().0), vec!["%CAP%".to_string()]);
}

#[test]
fn tuple_sizes_are_decimal_digits_alone() {
    assert_eq!(get_tuple_n(&std_name("Tuple+2")), None);
    assert_eq!(get_tuple_n(&std_name("Tuple 2")), None);
    assert_eq!(get_tuple_n(&std_name("Tuple12")), Some(12));
    assert_eq!(get_tuple_n(&std_name("Tuple4294967296")), None);
}

#[test]
fn number_printing_buffers_fit_the_longest_text() {
    use_buffer(make_u64_ty(), 21);
    use_buffer(make_i64_ty(), 21);
    use_buffer(fixlang::builtin::make_u32_ty(), 11);
    use_buffer(fixlang::builtin::make_i32_ty(), 12);
    use_buffer(make_u8_ty(), 4);
    assert!(u64::MAX.to_string().len() + 1 <= 21);
    assert!(i64::MIN.to_string().len() + 1 <= 21);
}

fn use_buffer(ty: Arc<fixlang::types::TypeNode>, expected: u32) {
    let (e, _) = number_to_string_function(ty);
    let body = match &*e.expr {
        Expr::Lam(_, body) => body.clone(),
        _ => panic!("expected a lambda"),
    };
    match &*body.expr {
        Expr::Lit(l) => match &*l.generator {
            fixlang::inline_llvm::InlineLLVM::Op(
                fixlang::inline_llvm::BuiltinOp::NumberToString { buf_size, .. },
            ) => assert_eq!(*buf_size, expected),
            _ => panic!("expected the number printing operation"),
        },
        _ => panic!("expected a literal"),
    }
}
