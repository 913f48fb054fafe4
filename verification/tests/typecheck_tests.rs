use dhall::syntax::{Builtin, Const, Expr, Label, Lst, V};
use dhall::value::Value;
use dhall::error::{TypeError, TypeMessage};
use dhall::eval::{eval, none_label, some_label, valfields_get};
use dhall::typecheck::{merge_maps, typecheck, typecheck_with, EVAL_FUEL};

fn lbl(n: u64) -> Label {
    Label { id: n }
}

fn var(n: u64) -> Expr {
    Expr::Var(V { name: lbl(n), idx: 0 })
}

fn b(e: Expr) -> Box<Expr> {
    Box::new(e)
}

fn natural() -> Expr {
    Expr::Builtin(Builtin::Natural)
}

fn natlit(n: u64) -> Expr {
    Expr::NaturalLit(n)
}

fn lam(x: u64, annot: Expr, body: Expr) -> Expr {
    Expr::Lam(lbl(x), b(annot), b(body))
}

fn pi(x: u64, annot: Expr, body: Expr) -> Expr {
    Expr::Pi(lbl(x), b(annot), b(body))
}

fn record_lit(fields: Vec<(u64, Expr)>) -> Expr {
    let mut l = Lst::Nil;
    for (k, v) in fields.into_iter().rev() {
        l = Lst::Cons((lbl(k), v), Box::new(l));
    }
    Expr::RecordLit(Box::new(l))
}

fn record_type(fields: Vec<(u64, Expr)>) -> Expr {
    let mut l = Lst::Nil;
    for (k, v) in fields.into_iter().rev() {
        l = Lst::Cons((lbl(k), v), Box::new(l));
    }
    Expr::RecordType(Box::new(l))
}

fn err_message(e: Result<dhall::typecheck::TyExpr, TypeError>) -> TypeMessage {
    match e {
        Err(te) => te.message,
        Ok(_) => panic!("expected a type error"),
    }
}

fn is_natural(v: &Value) -> bool {
    matches!(v, Value::AppliedBuiltin(Builtin::Natural, args) if matches!(**args, Lst::Nil))
}

#[test]
fn identity_on_naturals_has_pi_type_at_universe_type() {
    // typecheck(Lam(x, Natural, Var x)) : Pi(x, Natural, Natural)
    let e = lam(10, natural(), var(10));
    let te = typecheck(&e).unwrap();
    assert!(te.ty.is_some());
    // the synthesised type converts to the written-out Pi
    let expected = pi(10, natural(), natural());
    assert!(typecheck_with(&e, expected).is_ok());
    // and that Pi itself lives at universe Type
    let tp = typecheck(&pi(10, natural(), natural())).unwrap();
    assert!(matches!(tp.ty, Some(Value::Const(Const::Type))));
}

#[test]
fn pi_universes_follow_the_function_check() {
    // the codomain of Pi(x, Type, Var x) is a type variable, living in
    // universe Type, so the function check collapses the whole Pi to Type
    let e = pi(10, Expr::Const(Const::Type), var(10));
    let te = typecheck(&e).unwrap();
    assert!(matches!(te.ty, Some(Value::Const(Const::Type))));
    // with a codomain living in Kind the Pi lives in the max universe, Kind
    let e2 = pi(10, Expr::Const(Const::Type), Expr::Const(Const::Type));
    let t2 = typecheck(&e2).unwrap();
    assert!(matches!(t2.ty, Some(Value::Const(Const::Kind))));
}

#[test]
fn application_of_identity_has_type_natural() {
    // typecheck(App(Lam(x, Natural, Var x), NaturalLit 3)) : Natural
    let e = Expr::App(b(lam(10, natural(), var(10))), b(natlit(3)));
    let te = typecheck(&e).unwrap();
    assert!(is_natural(te.ty.as_ref().unwrap()));
}

#[test]
fn duplicate_record_literal_field_is_rejected() {
    let e = record_lit(vec![(5, natlit(1)), (5, natlit(2))]);
    assert!(matches!(err_message(typecheck(&e)), TypeMessage::RecordTypeDuplicateField));
}

#[test]
fn merge_on_optional_types_and_evaluates() {
    // merge { None = 0, Some = \(x: Natural) -> x } (Some 7) : Natural, and
    // normalises to 7
    let handlers = record_lit(vec![
        (none_label().id, natlit(0)),
        (some_label().id, lam(10, natural(), var(10))),
    ]);
    let scrut = Expr::SomeLit(b(natlit(7)));
    let e = Expr::Merge(b(handlers), b(scrut), None);
    let te = typecheck(&e).unwrap();
    assert!(is_natural(te.ty.as_ref().unwrap()));
    let v = eval(EVAL_FUEL, &Lst::Nil, &e).unwrap();
    assert!(matches!(v, Value::NaturalLit(7)));
}

#[test]
fn if_branches_of_different_types_are_rejected() {
    let e = Expr::BoolIf(b(Expr::BoolLit(true)), b(natlit(1)), b(Expr::BoolLit(false)));
    assert!(matches!(err_message(typecheck(&e)), TypeMessage::IfBranchMismatch));
}

#[test]
fn typecheck_is_deterministic() {
    let e = Expr::App(b(lam(10, natural(), var(10))), b(natlit(3)));
    let a = typecheck(&e).unwrap();
    let b2 = typecheck(&e).unwrap();
    assert!(is_natural(a.ty.as_ref().unwrap()));
    assert!(is_natural(b2.ty.as_ref().unwrap()));
}

#[test]
fn typecheck_with_synthesised_type_succeeds() {
    // typecheck(e) succeeds => typecheck_with(e, type_of(typecheck(e))) succeeds
    let e = lam(10, natural(), var(10));
    assert!(typecheck(&e).is_ok());
    assert!(typecheck_with(&e, pi(10, natural(), natural())).is_ok());
}

#[test]
fn annot_wrapped_typechecking_is_idempotent() {
    // a second annotation with the same type neither errors nor changes the type
    let once = Expr::Annot(b(natlit(3)), b(natural()));
    let twice = Expr::Annot(b(dhall::value::expr_clone(&once)), b(natural()));
    let t1 = typecheck(&once).unwrap();
    let t2 = typecheck(&twice).unwrap();
    assert!(is_natural(t1.ty.as_ref().unwrap()));
    assert!(is_natural(t2.ty.as_ref().unwrap()));
}

#[test]
fn sort_is_the_expression_without_a_type() {
    let te = typecheck(&Expr::Const(Const::Sort)).unwrap();
    assert!(te.ty.is_none());
    assert!(matches!(te.get_type(), Err(_)));
    let ty = typecheck(&Expr::Const(Const::Type)).unwrap();
    assert!(matches!(ty.ty, Some(Value::Const(Const::Kind))));
    let kind = typecheck(&Expr::Const(Const::Kind)).unwrap();
    assert!(matches!(kind.ty, Some(Value::Const(Const::Sort))));
}

#[test]
fn let_of_sort_inherits_no_type() {
    let e = Expr::Let(lbl(10), None, b(natlit(1)), b(Expr::Const(Const::Sort)));
    let te = typecheck(&e).unwrap();
    assert!(te.ty.is_none());
}

#[test]
fn record_type_universe_is_max_of_field_universes() {
    // { a : Natural } : Type, { a : Natural, b : Type } : Kind, {} : Type
    let t1 = typecheck(&record_type(vec![(5, natural())])).unwrap();
    assert!(matches!(t1.ty, Some(Value::Const(Const::Type))));
    let t2 = typecheck(&record_type(vec![(5, natural()), (6, Expr::Const(Const::Type))])).unwrap();
    assert!(matches!(t2.ty, Some(Value::Const(Const::Kind))));
    let t3 = typecheck(&record_type(vec![])).unwrap();
    assert!(matches!(t3.ty, Some(Value::Const(Const::Type))));
}

#[test]
fn merge_maps_right_bias_preserves_all_values() {
    // keys(a) = {1, 2}, keys(b) = {2, 3}; after the right-biased merge every
    // key of the union reads back the winning value
    let a = Lst::Cons(
        (lbl(1), Value::NaturalLit(1)),
        Box::new(Lst::Cons((lbl(2), Value::NaturalLit(2)), Box::new(Lst::Nil))),
    );
    let b2 = Lst::Cons(
        (lbl(2), Value::NaturalLit(5)),
        Box::new(Lst::Cons((lbl(3), Value::NaturalLit(6)), Box::new(Lst::Nil))),
    );
    let m = merge_maps(&a, &b2, true);
    assert!(matches!(valfields_get(&m, lbl(1)), Some(Value::NaturalLit(1))));
    assert!(matches!(valfields_get(&m, lbl(2)), Some(Value::NaturalLit(5))));
    assert!(matches!(valfields_get(&m, lbl(3)), Some(Value::NaturalLit(6))));
    let left = merge_maps(&a, &b2, false);
    assert!(matches!(valfields_get(&left, lbl(2)), Some(Value::NaturalLit(2))));
}

#[test]
fn unbound_variable_is_reported() {
    assert!(matches!(err_message(typecheck(&var(9))), TypeMessage::UnboundVariable(_)));
}

#[test]
fn literal_types_are_the_builtins() {
    let te = typecheck(&natlit(3)).unwrap();
    assert!(is_natural(te.ty.as_ref().unwrap()));
    let tb = typecheck(&Expr::BoolLit(true)).unwrap();
    assert!(matches!(
        tb.ty,
        Some(Value::AppliedBuiltin(Builtin::Bool, _))
    ));
    let ti = typecheck(&Expr::IntegerLit(-4)).unwrap();
    assert!(matches!(
        ti.ty,
        Some(Value::AppliedBuiltin(Builtin::Integer, _))
    ));
    let td = typecheck(&Expr::DoubleLit(0x3ff0000000000000)).unwrap();
    assert!(matches!(
        td.ty,
        Some(Value::AppliedBuiltin(Builtin::Double, _))
    ));
}
