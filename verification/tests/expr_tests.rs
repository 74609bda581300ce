use fixlang::expr::{
    calculate_free_vars, expr_abs, expr_app, expr_if, expr_let, expr_var, var_local,
    AppSourceCodeOrderType, ExprNode, Span, VarSet, SELF_NAME,
};
use std::sync::Arc;

fn sorted_free_vars(e: &Arc<ExprNode>) -> Vec<String> {
    let mut v = e.free_vars().to_vec();
    v.sort();
    v
}

fn strs(v: &[&str]) -> Vec<String> {
    v.iter().map(|s| s.to_string()).collect()
}

#[test]
fn free_vars_of_variable() {
    let e = calculate_free_vars(expr_var("x", None));
    assert_eq!(sorted_free_vars(&e), strs(&["x"]));
}

#[test]
fn free_vars_of_application() {
    let e = expr_app(expr_var("f", None), expr_var("x", None), None);
    let e = calculate_free_vars(e);
    assert_eq!(sorted_free_vars(&e), strs(&["f", "x"]));
}

#[test]
fn lambda_binds_its_argument_and_self() {
    // \x -> (%SELF% x) y
    let body = expr_app(
        expr_app(expr_var(SELF_NAME, None), expr_var("x", None), None),
        expr_var("y", None),
        None,
    );
    let e = calculate_free_vars(expr_abs(var_local("x", None, None), body, None));
    assert_eq!(sorted_free_vars(&e), strs(&["y"]));
}

#[test]
fn let_is_not_recursive() {
    // let x = f x in g x: x stays free, because the bound expression mentions it.
    let bound = expr_app(expr_var("f", None), expr_var("x", None), None);
    let value = expr_app(expr_var("g", None), expr_var("x", None), None);
    let e = calculate_free_vars(expr_let(var_local("x", None, None), bound, value, None));
    assert_eq!(sorted_free_vars(&e), strs(&["f", "g", "x"]));

    // let x = f y in g x: x is bound in the value only.
    let bound = expr_app(expr_var("f", None), expr_var("y", None), None);
    let value = expr_app(expr_var("g", None), expr_var("x", None), None);
    let e = calculate_free_vars(expr_let(var_local("x", None, None), bound, value, None));
    assert_eq!(sorted_free_vars(&e), strs(&["f", "g", "y"]));
}

#[test]
fn free_vars_of_if() {
    let e = expr_if(expr_var("c", None), expr_var("t", None), expr_var("c", None), None);
    let e = calculate_free_vars(e);
    assert_eq!(sorted_free_vars(&e), strs(&["c", "t"]));
}

#[test]
fn calculating_twice_changes_nothing() {
    let bound = expr_app(expr_var("f", None), expr_var("x", None), None);
    let e = expr_let(var_local("x", None, None), bound, expr_var("x", None), None);
    let once = calculate_free_vars(e);
    let twice = calculate_free_vars(once.clone());
    assert_eq!(sorted_free_vars(&once), sorted_free_vars(&twice));
    assert_eq!(once.expr.to_string(), twice.expr.to_string());
}

#[test]
fn sub_expressions_are_annotated() {
    let e = calculate_free_vars(expr_app(expr_var("f", None), expr_var("x", None), None));
    match &*e.expr {
        fixlang::expr::Expr::App(f, a) => {
            assert_eq!(sorted_free_vars(f), strs(&["f"]));
            assert_eq!(sorted_free_vars(a), strs(&["x"]));
        }
        _ => panic!("expected an application"),
    }
}

#[test]
fn expression_printing() {
    let e = expr_let(
        var_local("x", None, None),
        expr_var("y", None),
        expr_abs(var_local("z", None, None), expr_var("x", None), None),
        None,
    );
    assert_eq!(e.expr.to_string(), "let x=y in (\\z->(x))");
    let e = expr_if(expr_var("c", None), expr_var("t", None), expr_var("e", None), None);
    assert_eq!(e.expr.to_string(), "if c then t else (e)");
    let e = expr_app(expr_var("f", None), expr_var("x", None), None);
    assert_eq!(e.expr.to_string(), "(f) (x)");
}

#[test]
fn setters_replace_one_part() {
    let e = expr_app(expr_var("f", None), expr_var("x", None), None);
    let e2 = e.set_app_func(expr_var("g", None));
    assert_eq!(e2.expr.to_string(), "(g) (x)");
    let e3 = e2.set_app_arg(expr_var("y", None));
    assert_eq!(e3.expr.to_string(), "(g) (y)");
    let src = Span { start: 3, end: 9 };
    let e4 = e3.set_source(Some(src));
    assert_eq!(e4.source.unwrap().start, 3);
    let e5 = e4.set_app_order(AppSourceCodeOrderType::ArgumentIsFormer);
    assert!(matches!(e5.app_order, AppSourceCodeOrderType::ArgumentIsFormer));
    assert_eq!(e5.expr.to_string(), "(g) (y)");
}

#[test]
fn span_printing() {
    assert_eq!(Span { start: 3, end: 17 }.to_string(), "3..17");
}

#[test]
fn var_set_operations() {
    let mut s = VarSet::new();
    s.insert("a".to_string());
    s.insert("b".to_string());
    s.insert("a".to_string());
    assert_eq!(s.to_vec().len(), 2);
    assert!(s.contains(&"a".to_string()));
    s.remove(&"a".to_string());
    assert!(!s.contains(&"a".to_string()));
    let mut t = VarSet::from_vec(&strs(&["c", "b", "c"]));
    assert_eq!(t.to_vec().len(), 2);
    t.extend(&s);
    let mut v = t.to_vec();
    v.sort();
    assert_eq!(v, strs(&["b", "c"]));
}
