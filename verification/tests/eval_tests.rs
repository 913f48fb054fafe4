use dhall::syntax::{BinOp, Builtin, Const, Expr, Label, Lst, V};
use dhall::value::Value;
use dhall::eval::{eval, valfields_get};
use dhall::typecheck::EVAL_FUEL;

fn lbl(n: u64) -> Label {
    Label { id: n }
}

fn b(e: Expr) -> Box<Expr> {
    Box::new(e)
}

fn natlit(n: u64) -> Expr {
    Expr::NaturalLit(n)
}

fn assoc(fields: Vec<(u64, Expr)>) -> Lst<(Label, Expr)> {
    let mut l = Lst::Nil;
    for (k, v) in fields.into_iter().rev() {
        l = Lst::Cons((lbl(k), v), Box::new(l));
    }
    l
}

fn run(e: &Expr) -> Value {
    eval(EVAL_FUEL, &Lst::Nil, e).unwrap()
}

#[test]
fn natural_arithmetic_reduces() {
    let plus = Expr::BinOp(BinOp::NaturalPlus, b(natlit(2)), b(natlit(3)));
    assert!(matches!(run(&plus), Value::NaturalLit(5)));
    let times = Expr::BinOp(BinOp::NaturalTimes, b(natlit(2)), b(natlit(3)));
    assert!(matches!(run(&times), Value::NaturalLit(6)));
    // overflow does not panic: the term stays unreduced
    let over = Expr::BinOp(BinOp::NaturalPlus, b(natlit(u64::MAX)), b(natlit(1)));
    assert!(matches!(run(&over), Value::Residual(_, _)));
}

#[test]
fn booleans_reduce() {
    let and = Expr::BinOp(BinOp::BoolAnd, b(Expr::BoolLit(true)), b(Expr::BoolLit(false)));
    assert!(matches!(run(&and), Value::BoolLit(false)));
    let ne = Expr::BinOp(BinOp::BoolNE, b(Expr::BoolLit(true)), b(Expr::BoolLit(false)));
    assert!(matches!(run(&ne), Value::BoolLit(true)));
    let pick = Expr::BoolIf(b(Expr::BoolLit(false)), b(natlit(1)), b(natlit(2)));
    assert!(matches!(run(&pick), Value::NaturalLit(2)));
}

#[test]
fn beta_reduction_applies_closures() {
    let e = Expr::App(
        b(Expr::Lam(lbl(10), b(Expr::Builtin(Builtin::Natural)), b(Expr::Var(V {
            name: lbl(10),
            idx: 0,
        })))),
        b(natlit(42)),
    );
    assert!(matches!(run(&e), Value::NaturalLit(42)));
}

#[test]
fn let_binds_values() {
    let e = Expr::Let(
        lbl(10),
        None,
        b(natlit(8)),
        b(Expr::BinOp(
            BinOp::NaturalPlus,
            b(Expr::Var(V { name: lbl(10), idx: 0 })),
            b(natlit(1)),
        )),
    );
    assert!(matches!(run(&e), Value::NaturalLit(9)));
}

#[test]
fn right_biased_record_merge_evaluates() {
    let l = Expr::RecordLit(Box::new(assoc(vec![(1, natlit(1)), (2, natlit(2))])));
    let r = Expr::RecordLit(Box::new(assoc(vec![(2, natlit(5)), (3, natlit(6))])));
    let e = Expr::BinOp(BinOp::RightBiasedRecordMerge, b(l), b(r));
    match run(&e) {
        Value::RecordLit(kvs) => {
            assert!(matches!(valfields_get(&kvs, lbl(1)), Some(Value::NaturalLit(1))));
            assert!(matches!(valfields_get(&kvs, lbl(2)), Some(Value::NaturalLit(5))));
            assert!(matches!(valfields_get(&kvs, lbl(3)), Some(Value::NaturalLit(6))));
        },
        _ => panic!("expected a record"),
    }
}

#[test]
fn field_selection_evaluates() {
    let rec = Expr::RecordLit(Box::new(assoc(vec![(1, natlit(7))])));
    let e = Expr::Field(b(rec), lbl(1));
    assert!(matches!(run(&e), Value::NaturalLit(7)));
}

#[test]
fn list_append_evaluates() {
    let l = Expr::NEListLit(Box::new(Lst::Cons(natlit(1), Box::new(Lst::Nil))));
    let r = Expr::NEListLit(Box::new(Lst::Cons(natlit(2), Box::new(Lst::Nil))));
    let e = Expr::BinOp(BinOp::ListAppend, b(l), b(r));
    match run(&e) {
        Value::NEListLit(xs) => match *xs {
            Lst::Cons(Value::NaturalLit(1), t) => {
                assert!(matches!(*t, Lst::Cons(Value::NaturalLit(2), _)));
            },
            _ => panic!("wrong head"),
        },
        _ => panic!("expected a list"),
    }
}

#[test]
fn equivalence_forms_a_value() {
    let e = Expr::BinOp(BinOp::Equivalence, b(natlit(1)), b(natlit(1)));
    assert!(matches!(run(&e), Value::Equivalence(_, _)));
}

#[test]
fn nonsense_stays_residual_rather_than_failing() {
    // an unbound variable evaluates to a residual term, not an error
    let e = Expr::Var(V { name: lbl(99), idx: 0 });
    assert!(matches!(run(&e), Value::Residual(_, _)));
    // a runaway self-application exhausts the budget instead of diverging
    let omega_half = Expr::Lam(
        lbl(10),
        b(Expr::Builtin(Builtin::Natural)),
        b(Expr::App(
            b(Expr::Var(V { name: lbl(10), idx: 0 })),
            b(Expr::Var(V { name: lbl(10), idx: 0 })),
        )),
    );
    let omega = Expr::App(b(dhall::value::expr_clone(&omega_half)), b(omega_half));
    assert!(eval(1000, &Lst::Nil, &omega).is_err());
}

#[test]
fn universe_order_is_strict() {
    // Type < Kind < Sort through the public ranks: each universe's type is
    // the next one up
    let t = dhall::typecheck::typecheck(&Expr::Const(Const::Type)).unwrap();
    assert!(matches!(t.ty, Some(Value::Const(Const::Kind))));
    let k = dhall::typecheck::typecheck(&Expr::Const(Const::Kind)).unwrap();
    assert!(matches!(k.ty, Some(Value::Const(Const::Sort))));
}
