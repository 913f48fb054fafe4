use dhall::syntax::{BinOp, Builtin, Const, Expr, InterpolatedTextContents, Label, Lst, V};
use dhall::value::Value;
use dhall::error::{TypeError, TypeMessage};
use dhall::typecheck::{typecheck, typecheck_with, TyExpr};

fn lbl(n: u64) -> Label {
    Label { id: n }
}

fn var(n: u64) -> Expr {
    Expr::Var(V { name: lbl(n), idx: 0 })
}

fn b(e: Expr) -> Box<Expr> {
    Box::new(e)
}

fn natural() -> Expr {
    Expr::Builtin(Builtin::Natural)
}

fn natlit(n: u64) -> Expr {
    Expr::NaturalLit(n)
}

fn lam(x: u64, annot: Expr, body: Expr) -> Expr {
    Expr::Lam(lbl(x), b(annot), b(body))
}

fn assoc<T>(fields: Vec<(u64, T)>) -> Lst<(Label, T)> {
    let mut l = Lst::Nil;
    for (k, v) in fields.into_iter().rev() {
        l = Lst::Cons((lbl(k), v), Box::new(l));
    }
    l
}

fn msg(e: Result<TyExpr, TypeError>) -> TypeMessage {
    match e {
        Err(te) => te.message,
        Ok(_) => panic!("expected a type error"),
    }
}

#[test]
fn empty_list_annotation_must_be_a_list_type() {
    let e = Expr::EmptyListLit(b(natlit(1)));
    assert!(matches!(msg(typecheck(&e)), TypeMessage::InvalidListType));
}

#[test]
fn list_elements_must_share_a_type() {
    let xs = Lst::Cons(natlit(1), Box::new(Lst::Cons(Expr::BoolLit(true), Box::new(Lst::Nil))));
    let e = Expr::NEListLit(Box::new(xs));
    assert!(matches!(msg(typecheck(&e)), TypeMessage::InvalidListElement));
}

#[test]
fn list_of_types_is_rejected() {
    let xs = Lst::Cons(natural(), Box::new(Lst::Nil));
    let e = Expr::NEListLit(Box::new(xs));
    assert!(matches!(msg(typecheck(&e)), TypeMessage::InvalidListType));
}

#[test]
fn optional_of_a_type_is_rejected() {
    let e = Expr::SomeLit(b(natural()));
    assert!(matches!(msg(typecheck(&e)), TypeMessage::InvalidOptionalType));
}

#[test]
fn text_interpolation_must_be_text() {
    let parts = Lst::Cons(
        InterpolatedTextContents::Expr(b(natlit(1))),
        Box::new(Lst::Nil),
    );
    let e = Expr::TextLit(Box::new(parts));
    assert!(matches!(msg(typecheck(&e)), TypeMessage::InvalidTextInterpolation));
}

#[test]
fn record_type_duplicate_and_invalid_fields() {
    let dup = Expr::RecordType(Box::new(assoc(vec![(5, natural()), (5, natural())])));
    assert!(matches!(msg(typecheck(&dup)), TypeMessage::RecordTypeDuplicateField));
    let bad = Expr::RecordType(Box::new(assoc(vec![(5, natlit(1))])));
    assert!(matches!(msg(typecheck(&bad)), TypeMessage::InvalidFieldType));
}

#[test]
fn union_type_duplicate_field() {
    let dup = Expr::UnionType(Box::new(assoc(vec![(5, Some(natural())), (5, None)])));
    assert!(matches!(msg(typecheck(&dup)), TypeMessage::UnionTypeDuplicateField));
}

#[test]
fn field_errors() {
    let missing = Expr::Field(b(Expr::RecordLit(Box::new(assoc(vec![(5, natlit(1))])))), lbl(6));
    assert!(matches!(msg(typecheck(&missing)), TypeMessage::MissingRecordField));
    let not_record = Expr::Field(b(natlit(1)), lbl(5));
    assert!(matches!(msg(typecheck(&not_record)), TypeMessage::NotARecord));
    let missing_alt = Expr::Field(
        b(Expr::UnionType(Box::new(assoc(vec![(5, Some(natural()))])))),
        lbl(6),
    );
    assert!(matches!(msg(typecheck(&missing_alt)), TypeMessage::MissingUnionField));
}

#[test]
fn union_constructor_has_function_type() {
    // < A : Natural >.A : Natural -> < A : Natural >
    let u = Expr::UnionType(Box::new(assoc(vec![(5, Some(natural()))])));
    let e = Expr::Field(b(u), lbl(5));
    let te = typecheck(&e).unwrap();
    assert!(matches!(te.ty, Some(Value::PiClosure(_, _, _))));
    // applying it to a Natural gives the union
    let app = Expr::App(
        b(Expr::Field(
            b(Expr::UnionType(Box::new(assoc(vec![(5, Some(natural()))])))),
            lbl(5),
        )),
        b(natlit(3)),
    );
    let ta = typecheck(&app).unwrap();
    assert!(matches!(ta.ty, Some(Value::UnionType(_))));
}

#[test]
fn annotation_mismatch_carries_both_types() {
    let e = Expr::Annot(b(natlit(1)), b(Expr::Builtin(Builtin::Bool)));
    match msg(typecheck(&e)) {
        TypeMessage::AnnotMismatch(actual, expected) => {
            assert!(matches!(actual, Value::AppliedBuiltin(Builtin::Natural, _)));
            assert!(matches!(expected, Value::AppliedBuiltin(Builtin::Bool, _)));
        },
        _ => panic!("expected an annotation mismatch"),
    }
    assert!(matches!(
        msg(typecheck_with(&natlit(1), Expr::Builtin(Builtin::Bool))),
        TypeMessage::AnnotMismatch(_, _)
    ));
}

#[test]
fn assert_errors_and_success() {
    let not_equiv = Expr::Assert(b(natural()));
    assert!(matches!(msg(typecheck(&not_equiv)), TypeMessage::AssertMustTakeEquivalence));
    let unequal = Expr::Assert(b(Expr::BinOp(BinOp::Equivalence, b(natlit(1)), b(natlit(2)))));
    assert!(matches!(msg(typecheck(&unequal)), TypeMessage::AssertMismatch));
    let ok = Expr::Assert(b(Expr::BinOp(BinOp::Equivalence, b(natlit(1)), b(natlit(1)))));
    let te = typecheck(&ok).unwrap();
    assert!(matches!(te.ty, Some(Value::Equivalence(_, _))));
}

#[test]
fn application_errors() {
    let not_pi = Expr::App(b(natlit(1)), b(natlit(2)));
    assert!(matches!(msg(typecheck(&not_pi)), TypeMessage::ApplyToNotPi));
    let wrong_arg = Expr::App(b(lam(10, natural(), var(10))), b(Expr::BoolLit(true)));
    assert!(matches!(msg(typecheck(&wrong_arg)), TypeMessage::FunctionAnnotMismatch(_, _)));
}

#[test]
fn bool_if_errors() {
    let pred = Expr::BoolIf(b(natlit(1)), b(natlit(1)), b(natlit(2)));
    assert!(matches!(msg(typecheck(&pred)), TypeMessage::InvalidPredicate));
    let term = Expr::BoolIf(
        b(Expr::BoolLit(true)),
        b(Expr::Const(Const::Type)),
        b(Expr::Const(Const::Type)),
    );
    assert!(matches!(msg(typecheck(&term)), TypeMessage::IfBranchMustBeTerm));
}

#[test]
fn binop_errors() {
    let plus = Expr::BinOp(BinOp::NaturalPlus, b(natlit(1)), b(Expr::BoolLit(true)));
    assert!(matches!(msg(typecheck(&plus)), TypeMessage::BinOpTypeMismatch));
    let combine = Expr::BinOp(BinOp::RightBiasedRecordMerge, b(natlit(1)), b(natlit(2)));
    assert!(matches!(msg(typecheck(&combine)), TypeMessage::MustCombineRecord));
    let rrtm = Expr::BinOp(BinOp::RecursiveRecordTypeMerge, b(natlit(1)), b(natlit(2)));
    assert!(matches!(msg(typecheck(&rrtm)), TypeMessage::RecordTypeMergeRequiresRecordType));
    let equiv_ty = Expr::BinOp(BinOp::Equivalence, b(natlit(1)), b(Expr::BoolLit(true)));
    assert!(matches!(msg(typecheck(&equiv_ty)), TypeMessage::EquivalenceTypeMismatch));
    let equiv_terms = Expr::BinOp(BinOp::Equivalence, b(natural()), b(natural()));
    assert!(matches!(msg(typecheck(&equiv_terms)), TypeMessage::EquivalenceArgumentsMustBeTerms));
}

#[test]
fn natural_operators_typecheck() {
    let e = Expr::BinOp(BinOp::NaturalPlus, b(natlit(1)), b(natlit(2)));
    let te = typecheck(&e).unwrap();
    assert!(matches!(te.ty, Some(Value::AppliedBuiltin(Builtin::Natural, _))));
}

#[test]
fn right_biased_merge_of_records_types() {
    // { a = 1 } // { b = True } : { a : Natural, b : Bool }
    let l = Expr::RecordLit(Box::new(assoc(vec![(1, natlit(1))])));
    let r = Expr::RecordLit(Box::new(assoc(vec![(2, Expr::BoolLit(true))])));
    let e = Expr::BinOp(BinOp::RightBiasedRecordMerge, b(l), b(r));
    let te = typecheck(&e).unwrap();
    match te.ty {
        Some(Value::RecordType(kts, _)) => {
            assert!(matches!(
                dhall::eval::valfields_get(&kts, lbl(1)),
                Some(Value::AppliedBuiltin(Builtin::Natural, _))
            ));
            assert!(matches!(
                dhall::eval::valfields_get(&kts, lbl(2)),
                Some(Value::AppliedBuiltin(Builtin::Bool, _))
            ));
        },
        _ => panic!("expected a record type"),
    }
}

#[test]
fn merge_errors() {
    let not_record = Expr::Merge(b(natlit(1)), b(Expr::SomeLit(b(natlit(7)))), None);
    assert!(matches!(msg(typecheck(&not_record)), TypeMessage::Merge1ArgMustBeRecord));
    let not_union = Expr::Merge(b(Expr::RecordLit(Box::new(Lst::Nil))), b(natlit(1)), None);
    assert!(matches!(msg(typecheck(&not_union)), TypeMessage::Merge2ArgMustBeUnionOrOptional));
    // a handler for no variant
    let extra = Expr::Merge(
        b(Expr::RecordLit(Box::new(assoc(vec![(7, natlit(0))])))),
        b(Expr::SomeLit(b(natlit(7)))),
        None,
    );
    assert!(matches!(msg(typecheck(&extra)), TypeMessage::MergeHandlerMissingVariant));
    // a variant with no handler: only None is handled
    let missing = Expr::Merge(
        b(Expr::RecordLit(Box::new(assoc(vec![(
            dhall::eval::none_label().id,
            natlit(0),
        )])))),
        b(Expr::SomeLit(b(natlit(7)))),
        None,
    );
    assert!(matches!(msg(typecheck(&missing)), TypeMessage::MergeVariantMissingHandler));
    // a handler for a variant with payload must be a function
    let not_fn = Expr::Merge(
        b(Expr::RecordLit(Box::new(assoc(vec![
            (dhall::eval::none_label().id, natlit(0)),
            (dhall::eval::some_label().id, natlit(1)),
        ])))),
        b(Expr::SomeLit(b(natlit(7)))),
        None,
    );
    assert!(matches!(msg(typecheck(&not_fn)), TypeMessage::NotAFunction));
    // a handler taking the wrong payload type
    let wrong = Expr::Merge(
        b(Expr::RecordLit(Box::new(assoc(vec![
            (dhall::eval::none_label().id, natlit(0)),
            (
                dhall::eval::some_label().id,
                lam(10, Expr::Builtin(Builtin::Bool), var(10)),
            ),
        ])))),
        b(Expr::SomeLit(b(natlit(7)))),
        None,
    );
    assert!(matches!(msg(typecheck(&wrong)), TypeMessage::MergeHandlerTypeMismatch));
    // an annotation disagreeing with the inferred type
    let annot = Expr::Merge(
        b(Expr::RecordLit(Box::new(assoc(vec![
            (dhall::eval::none_label().id, natlit(0)),
            (
                dhall::eval::some_label().id,
                lam(10, natural(), var(10)),
            ),
        ])))),
        b(Expr::SomeLit(b(natlit(7)))),
        Some(b(Expr::Builtin(Builtin::Bool))),
    );
    assert!(matches!(msg(typecheck(&annot)), TypeMessage::MergeAnnotMismatch));
}

#[test]
fn merge_of_empty_union_needs_annotation() {
    // \(s : <>) -> merge {=} s  needs an annotation; with one it types
    let empty_union = Expr::UnionType(Box::new(Lst::Nil));
    let body = Expr::Merge(b(Expr::RecordLit(Box::new(Lst::Nil))), b(var(20)), None);
    let e = Expr::Lam(lbl(20), b(empty_union), b(body));
    assert!(matches!(msg(typecheck(&e)), TypeMessage::MergeEmptyNeedsAnnotation));
    let empty_union2 = Expr::UnionType(Box::new(Lst::Nil));
    let body2 = Expr::Merge(
        b(Expr::RecordLit(Box::new(Lst::Nil))),
        b(var(20)),
        Some(b(natural())),
    );
    let e2 = Expr::Lam(lbl(20), b(empty_union2), b(body2));
    assert!(typecheck(&e2).is_ok());
}

#[test]
fn merge_dependent_return_type_is_rejected() {
    // the A-handler's return type mentions its binder
    let handler = Expr::Lam(
        lbl(10),
        b(Expr::Const(Const::Type)),
        b(Expr::EmptyListLit(b(Expr::App(
            b(Expr::Builtin(Builtin::List)),
            b(var(10)),
        )))),
    );
    let scrut_ty = Expr::UnionType(Box::new(assoc(vec![(5, Some(Expr::Const(Const::Type)))])));
    let body = Expr::Merge(
        b(Expr::RecordLit(Box::new(assoc(vec![(5, handler)])))),
        b(var(20)),
        None,
    );
    let e = Expr::Lam(lbl(20), b(scrut_ty), b(body));
    assert!(matches!(msg(typecheck(&e)), TypeMessage::MergeReturnTypeIsDependent));
}

#[test]
fn projection_errors_and_success() {
    let rec = || Expr::RecordLit(Box::new(assoc(vec![(1, natlit(1)), (2, Expr::BoolLit(true))])));
    let not_record = Expr::Projection(b(natlit(1)), Lst::Cons(lbl(1), Box::new(Lst::Nil)));
    assert!(matches!(msg(typecheck(&not_record)), TypeMessage::ProjectionMustBeRecord));
    let missing = Expr::Projection(b(rec()), Lst::Cons(lbl(3), Box::new(Lst::Nil)));
    assert!(matches!(msg(typecheck(&missing)), TypeMessage::ProjectionMissingEntry));
    let dup = Expr::Projection(
        b(rec()),
        Lst::Cons(lbl(1), Box::new(Lst::Cons(lbl(1), Box::new(Lst::Nil)))),
    );
    assert!(matches!(msg(typecheck(&dup)), TypeMessage::ProjectionDuplicateField));
    let ok = Expr::Projection(b(rec()), Lst::Cons(lbl(1), Box::new(Lst::Nil)));
    let te = typecheck(&ok).unwrap();
    match te.ty {
        Some(Value::RecordType(kts, _)) => {
            assert!(matches!(
                dhall::eval::valfields_get(&kts, lbl(1)),
                Some(Value::AppliedBuiltin(Builtin::Natural, _))
            ));
            assert!(dhall::eval::valfields_get(&kts, lbl(2)).is_none());
        },
        _ => panic!("expected a record type"),
    }
}

#[test]
fn lambda_annotation_universe_errors() {
    let bad_input = Expr::Lam(lbl(10), b(natlit(1)), b(natlit(2)));
    assert!(matches!(msg(typecheck(&bad_input)), TypeMessage::InvalidInputType(_)));
    let bad_output = Expr::Pi(lbl(10), b(Expr::Const(Const::Type)), b(natlit(1)));
    assert!(matches!(msg(typecheck(&bad_output)), TypeMessage::InvalidOutputType(_)));
}

#[test]
fn unimplemented_forms_are_rejected() {
    let tomap = Expr::ToMap(b(Expr::RecordLit(Box::new(Lst::Nil))), None);
    assert!(matches!(msg(typecheck(&tomap)), TypeMessage::Unimplemented));
    let proj = Expr::ProjectionByExpr(b(natlit(1)), b(natural()));
    assert!(matches!(msg(typecheck(&proj)), TypeMessage::Unimplemented));
    let comp = Expr::Completion(b(natlit(1)), b(natlit(2)));
    assert!(matches!(msg(typecheck(&comp)), TypeMessage::Unimplemented));
}

#[test]
fn let_annotation_is_checked() {
    let ok = Expr::Let(lbl(10), Some(b(natural())), b(natlit(1)), b(var(10)));
    let te = typecheck(&ok).unwrap();
    assert!(matches!(te.ty, Some(Value::AppliedBuiltin(Builtin::Natural, _))));
    let bad = Expr::Let(
        lbl(10),
        Some(b(Expr::Builtin(Builtin::Bool))),
        b(natlit(1)),
        b(var(10)),
    );
    assert!(matches!(msg(typecheck(&bad)), TypeMessage::AnnotMismatch(_, _)));
}

#[test]
fn recursive_record_merge_types_shared_fields() {
    // { a = { b = 1 } } /\ { a = { c = True } } : { a : { b : Natural, c : Bool } }
    let l = Expr::RecordLit(Box::new(assoc(vec![(
        1,
        Expr::RecordLit(Box::new(assoc(vec![(2, natlit(1))]))),
    )])));
    let r = Expr::RecordLit(Box::new(assoc(vec![(
        1,
        Expr::RecordLit(Box::new(assoc(vec![(3, Expr::BoolLit(true))]))),
    )])));
    let e = Expr::BinOp(BinOp::RecursiveRecordMerge, b(l), b(r));
    let te = typecheck(&e).unwrap();
    match te.ty {
        Some(Value::RecordType(kts, _)) => match dhall::eval::valfields_get(&kts, lbl(1)) {
            Some(Value::RecordType(inner, _)) => {
                assert!(dhall::eval::valfields_get(&inner, lbl(2)).is_some());
                assert!(dhall::eval::valfields_get(&inner, lbl(3)).is_some());
            },
            _ => panic!("expected a nested record type"),
        },
        _ => panic!("expected a record type"),
    }
    // conflicting non-record shared field
    let l2 = Expr::RecordLit(Box::new(assoc(vec![(1, natlit(1))])));
    let r2 = Expr::RecordLit(Box::new(assoc(vec![(1, natlit(2))])));
    let e2 = Expr::BinOp(BinOp::RecursiveRecordMerge, b(l2), b(r2));
    assert!(matches!(msg(typecheck(&e2)), TypeMessage::RecordTypeMergeRequiresRecordType));
}

#[test]
fn projection_keeps_the_source_universe() {
    // { a = 1, b = Type } lives in a record type at universe Kind; the
    // projection { a } keeps that universe, so wrapping it in Some is
    // rejected just as wrapping the whole record would be
    let rec = Expr::RecordLit(Box::new(assoc(vec![
        (1, natlit(1)),
        (2, Expr::Const(Const::Type)),
    ])));
    let proj = Expr::Projection(b(rec), Lst::Cons(lbl(1), Box::new(Lst::Nil)));
    assert!(typecheck(&proj).is_ok());
    let wrapped = Expr::SomeLit(b(Expr::Projection(
        b(Expr::RecordLit(Box::new(assoc(vec![
            (1, natlit(1)),
            (2, Expr::Const(Const::Type)),
        ])))),
        Lst::Cons(lbl(1), Box::new(Lst::Nil)),
    )));
    assert!(matches!(msg(typecheck(&wrapped)), TypeMessage::InvalidOptionalType));
    // projecting from a term-level record stays term-level
    let ok = Expr::SomeLit(b(Expr::Projection(
        b(Expr::RecordLit(Box::new(assoc(vec![(1, natlit(1))])))),
        Lst::Cons(lbl(1), Box::new(Lst::Nil)),
    )));
    assert!(typecheck(&ok).is_ok());
}

#[test]
fn subexpressions_are_typed_before_the_judgment() {
    // an ill-typed field error wins over a duplicate label, as traversal
    // precedes the judgment
    let e = Expr::RecordLit(Box::new(assoc(vec![
        (5, natlit(1)),
        (5, Expr::Field(b(natlit(1)), lbl(9))),
    ])));
    assert!(matches!(msg(typecheck(&e)), TypeMessage::NotARecord));
    // and an ill-typed argument error wins over apply-to-not-Pi
    let app = Expr::App(b(natlit(1)), b(Expr::Field(b(natlit(1)), lbl(9))));
    assert!(matches!(msg(typecheck(&app)), TypeMessage::NotARecord));
}
