//! The bidirectional typechecker: `type_with` walks a resolved expression,
//! extends the typing environment at each binder, and hands every other form
//! to `type_one_layer`, which applies one typing judgment to subexpressions
//! already typed.

use vstd::prelude::*;
use crate::syntax::{
    assoc_lookup, const_le, const_rank, contains_label, has_dup_labels, is_resolved,
    spec_const_max, BinOp, Builtin, Const, Expr, InterpolatedTextContents, Label, Lst, V,
};
use crate::error::{mkerr, TypeError, TypeMessage};
use crate::value::{expr_clone, value_clone, Closure, Value};
use crate::tyenv::{spec_insert_type, spec_insert_value, spec_nzenv, spec_tyenv_lookup, tyenv_wf, TyEnv, TyFrame};
use crate::eval::{
    apply_closure, conv, eval, none_label, remove_binder, some_label, valfields_contains,
    valfields_get, valunion_contains, valunion_get,
};

verus! {

/// The evaluation budget the typechecker grants each normalisation; one unit
/// is spent per closure application, so any expression of sane depth
/// normalises well within it.
pub const EVAL_FUEL: u64 = 1000000;

/// An expression annotated with its synthesised type: `None` exactly for
/// `Sort`, the one expression with no classifying universe.
#[derive(Debug)]
pub struct TyExpr {
    pub expr: Expr,
    pub ty: Option<Value>,
}

impl TyExpr {
    /// The synthesised type, or the error reserved for `Sort`.
    pub fn get_type(&self) -> (r: Result<Value, TypeError>)
        ensures
            r == spec_get_type(*self),
            match self.ty {
                Option::Some(t) => r == Result::<Value, TypeError>::Ok(t),
                Option::None => r == Result::<Value, TypeError>::Err(
                    TypeError { message: TypeMessage::Sort },
                ),
            },
    {
        match &self.ty {
            Option::Some(t) => Result::Ok(value_clone(t)),
            Option::None => mkerr(TypeMessage::Sort),
        }
    }
}

/// The expressions the typechecker leaves untyped: `Sort` itself, a `let`
/// whose body is such an expression, and an embedded payload that came
/// without a type.
pub open spec fn is_sort_like(e: Expr) -> bool
    decreases e,
{
    match e {
        Expr::Const(c) => c == Const::Sort,
        Expr::Let(_, _, _, b) => is_sort_like(*b),
        Expr::Embed(t) => t.ty is None,
        _ => false,
    }
}

/// The forms `type_one_layer` accepts: everything except the binder forms,
/// `Sort`, embedded payloads and imports, which `type_with` handles itself.
pub open spec fn is_layer_form(e: Expr) -> bool {
    match e {
        Expr::Var(_) => false,
        Expr::Lam(_, _, _) => false,
        Expr::Pi(_, _, _) => false,
        Expr::Let(_, _, _, _) => false,
        Expr::Const(c) => c != Const::Sort,
        Expr::Embed(_) => false,
        Expr::Import(_) => false,
        _ => true,
    }
}

/// The type of a ground literal of builtin type `b`.
pub open spec fn spec_lit_ty(b: Builtin) -> Value {
    Value::AppliedBuiltin(b, Box::new(Lst::Nil))
}

pub fn lit_ty(b: Builtin) -> (r: Value)
    ensures
        r == spec_lit_ty(b),
{
    Value::AppliedBuiltin(b, Box::new(Lst::Nil))
}

/// The pre-declared type of each builtin, as a normalised value: the ground
/// types live in `Type`, the two type constructors in `Type -> Type`, and
/// `None` in `forall(a: Type) -> Optional a`.
pub open spec fn spec_builtin_ty(b: Builtin) -> Value {
    match b {
        Builtin::Bool => Value::Const(Const::Type),
        Builtin::Natural => Value::Const(Const::Type),
        Builtin::Integer => Value::Const(Const::Type),
        Builtin::Double => Value::Const(Const::Type),
        Builtin::Text => Value::Const(Const::Type),
        Builtin::List => Value::PiClosure(
            Label { id: 0 },
            Box::new(Value::Const(Const::Type)),
            Closure::ConstClosure(Box::new(Value::Const(Const::Type))),
        ),
        Builtin::Optional => Value::PiClosure(
            Label { id: 0 },
            Box::new(Value::Const(Const::Type)),
            Closure::ConstClosure(Box::new(Value::Const(Const::Type))),
        ),
        Builtin::OptionalNone => Value::PiClosure(
            Label { id: 0 },
            Box::new(Value::Const(Const::Type)),
            Closure::ExprClosure(
                Box::new(Lst::Nil),
                Label { id: 0 },
                Box::new(
                    Expr::App(
                        Box::new(Expr::Builtin(Builtin::Optional)),
                        Box::new(Expr::Var(V { name: Label { id: 0 }, idx: 0 })),
                    ),
                ),
            ),
        ),
    }
}

pub fn builtin_type_value(b: Builtin) -> (r: Value)
    ensures
        r == spec_builtin_ty(b),
{
    match b {
        Builtin::Bool => Value::Const(Const::Type),
        Builtin::Natural => Value::Const(Const::Type),
        Builtin::Integer => Value::Const(Const::Type),
        Builtin::Double => Value::Const(Const::Type),
        Builtin::Text => Value::Const(Const::Type),
        Builtin::List => Value::PiClosure(
            Label { id: 0 },
            Box::new(Value::Const(Const::Type)),
            Closure::ConstClosure(Box::new(Value::Const(Const::Type))),
        ),
        Builtin::Optional => Value::PiClosure(
            Label { id: 0 },
            Box::new(Value::Const(Const::Type)),
            Closure::ConstClosure(Box::new(Value::Const(Const::Type))),
        ),
        Builtin::OptionalNone => Value::PiClosure(
            Label { id: 0 },
            Box::new(Value::Const(Const::Type)),
            Closure::ExprClosure(
                Box::new(Lst::Nil),
                Label { id: 0 },
                Box::new(
                    Expr::App(
                        Box::new(Expr::Builtin(Builtin::Optional)),
                        Box::new(Expr::Var(V { name: Label { id: 0 }, idx: 0 })),
                    ),
                ),
            ),
        ),
    }
}

/// Dhall's function-check rule: a function whose codomain is a term lives in
/// `Type`; otherwise the function lives in the larger of the two universes.
/// This prevents universe inflation through term-returning functions.
pub open spec fn spec_function_check(a: Const, b: Const) -> Const {
    if b == Const::Type {
        Const::Type
    } else if const_rank(a) >= const_rank(b) {
        a
    } else {
        b
    }
}

pub fn function_check(a: Const, b: Const) -> (r: Const)
    ensures
        r == spec_function_check(a, b),
{
    if b == Const::Type {
        Const::Type
    } else {
        crate::syntax::const_max(a, b)
    }
}

/// The universe of a function type whose argument and result universes are
/// `src` and `tgt`; each must be a `Const` or the function type is invalid.
pub fn type_of_function(src: &Value, tgt: &Value) -> (r: Result<Value, TypeError>)
    ensures
        r == spec_type_of_function(*src, *tgt),
        r == (match (*src, *tgt) {
            (Value::Const(ks), Value::Const(kt)) => Result::<Value, TypeError>::Ok(
                Value::Const(spec_function_check(ks, kt)),
            ),
            (Value::Const(_), t) => Result::<Value, TypeError>::Err(
                TypeError { message: TypeMessage::InvalidOutputType(t) },
            ),
            (s, _) => Result::<Value, TypeError>::Err(
                TypeError { message: TypeMessage::InvalidInputType(s) },
            ),
        }),
{
    let ks = match src.as_const() {
        Option::Some(k) => k,
        Option::None => {
            return mkerr(TypeMessage::InvalidInputType(value_clone(src)));
        },
    };
    let kt = match tgt.as_const() {
        Option::Some(k) => k,
        Option::None => {
            return mkerr(TypeMessage::InvalidOutputType(value_clone(tgt)));
        },
    };
    Result::Ok(Value::Const(function_check(ks, kt)))
}

/// The universe of a record type whose field types have the given types:
/// the maximum over the fields' universes, `Type` for the empty record; a
/// field whose type is no universe makes the record invalid.
pub open spec fn spec_max_univ(tys: Lst<Value>) -> Option<Const>
    decreases tys,
{
    match tys {
        Lst::Nil => Option::Some(Const::Type),
        Lst::Cons(t, rest) => match (t, spec_max_univ(*rest)) {
            (Value::Const(c), Option::Some(k)) => if const_rank(c) >= const_rank(k) {
                Option::Some(c)
            } else {
                Option::Some(k)
            },
            _ => Option::None,
        },
    }
}

/// The universe of a record type, computed from the types of its field
/// types: the max over the field universes (empty record: `Type`).
pub fn type_of_recordtype(tys: &Lst<Value>) -> (r: Result<Value, TypeError>)
    ensures
        r == (match spec_max_univ(*tys) {
            Option::Some(k) => Result::<Value, TypeError>::Ok(Value::Const(k)),
            Option::None => Result::<Value, TypeError>::Err(
                TypeError { message: TypeMessage::InvalidFieldType },
            ),
        }),
    decreases *tys,
{
    match tys {
        Lst::Nil => Result::Ok(Value::Const(Const::Type)),
        Lst::Cons(t, rest) => {
            let c = match t.as_const() {
                Option::Some(c) => c,
                Option::None => {
                    return mkerr(TypeMessage::InvalidFieldType);
                },
            };
            let k = match type_of_recordtype(rest)? {
                Value::Const(k) => k,
                _ => {
                    return mkerr(TypeMessage::InvalidFieldType);
                },
            };
            Result::Ok(Value::Const(crate::syntax::const_max(c, k)))
        },
    }
}

/// An element occurs in the list.
pub open spec fn lst_contains<T>(l: Lst<T>, x: T) -> bool
    decreases l,
{
    match l {
        Lst::Nil => false,
        Lst::Cons(h, t) => h == x || lst_contains(*t, x),
    }
}

/// The universe of a record type is the max over its field universes: it is
/// an upper bound on every field's universe, and is either `Type` (the empty
/// bound) or attained by some field.
pub proof fn lemma_record_universe_max(tys: Lst<Value>)
    requires
        spec_max_univ(tys) is Some,
    ensures
        forall|v: Value| #[trigger]
            lst_contains(tys, v) ==> (v matches Value::Const(c) && const_le(
                c,
                spec_max_univ(tys)->Some_0,
            )),
        spec_max_univ(tys)->Some_0 == Const::Type || lst_contains(
            tys,
            Value::Const(spec_max_univ(tys)->Some_0),
        ),
    decreases tys,
{
    match tys {
        Lst::Nil => {},
        Lst::Cons(t, rest) => {
            lemma_record_universe_max(*rest);
            let m = spec_max_univ(tys)->Some_0;
            let kr = spec_max_univ(*rest)->Some_0;
            assert forall|v: Value| #[trigger] lst_contains(tys, v) implies (v matches Value::Const(
                c,
            ) && const_le(c, m)) by {
                if v != t {
                    assert(lst_contains(*rest, v));
                }
            }
            if m != Const::Type && t != Value::Const(m) {
                assert(m == kr);
                assert(lst_contains(*rest, Value::Const(kr)));
            }
        },
    }
}

/// The type of the frame at de Bruijn level `l` (level 0 is the outermost
/// frame), when `frames` lists binders innermost first and `size` many are
/// in scope.
fn frame_ty_at_level(frames: &Lst<TyFrame>, size: usize, l: usize) -> (r: Option<Value>)
    ensures
        r == spec_frame_ty_at_level(*frames, size, l),
    decreases *frames,
{
    match frames {
        Lst::Nil => Option::None,
        Lst::Cons(f, t) => {
            if size == 0 {
                Option::None
            } else if l == size - 1 {
                Option::Some(value_clone(&f.ty))
            } else {
                frame_ty_at_level(t, size - 1, l)
            }
        },
    }
}

/// The universe classifying the type-value `v` under the given frames, when
/// there is one: `None` both for `Sort` (which has no classifying universe)
/// and for values that are not types at all.
pub fn univ_of(fuel: u64, frames: &Lst<TyFrame>, size: usize, v: &Value) -> (r: Result<
    Option<Const>,
    TypeError,
>)
    ensures
        *v matches Value::Const(c) ==> r == Result::<Option<Const>, TypeError>::Ok(
            match c {
                Const::Type => Option::Some(Const::Kind),
                Const::Kind => Option::Some(Const::Sort),
                Const::Sort => Option::<Const>::None,
            },
        ),
        *v matches Value::Equivalence(_, _) ==> r == Result::<Option<Const>, TypeError>::Ok(
            Option::Some(Const::Type),
        ),
        r == spec_univ_of(fuel, *frames, size, *v),
    decreases fuel, *v, 1int,
{
    match v {
        Value::Const(c) => Result::Ok(
            match c {
                Const::Type => Option::Some(Const::Kind),
                Const::Kind => Option::Some(Const::Sort),
                Const::Sort => Option::None,
            },
        ),
        Value::AppliedBuiltin(b, args) => {
            let ground = match b {
                Builtin::Bool => true,
                Builtin::Natural => true,
                Builtin::Integer => true,
                Builtin::Double => true,
                Builtin::Text => true,
                _ => false,
            };
            match &**args {
                Lst::Nil => {
                    if ground {
                        Result::Ok(Option::Some(Const::Type))
                    } else {
                        Result::Ok(Option::None)
                    }
                },
                Lst::Cons(_, rest) => match &**rest {
                    Lst::Nil => match b {
                        Builtin::List => Result::Ok(Option::Some(Const::Type)),
                        Builtin::Optional => Result::Ok(Option::Some(Const::Type)),
                        _ => Result::Ok(Option::None),
                    },
                    _ => Result::Ok(Option::None),
                },
            }
        },
        Value::NeutralVar(l) => {
            if *l < size {
                match frame_ty_at_level(frames, size, *l) {
                    Option::Some(ty) => Result::Ok(
                        match ty {
                            Value::Const(c) => Option::Some(c),
                            _ => Option::None,
                        },
                    ),
                    Option::None => Result::Ok(Option::None),
                }
            } else {
                Result::Ok(Option::None)
            }
        },
        Value::PiClosure(x, a, c) => {
            let ua = match univ_of(fuel, frames, size, a)? {
                Option::Some(u) => u,
                Option::None => {
                    return Result::Ok(Option::None);
                },
            };
            if fuel == 0 {
                return mkerr(TypeMessage::NormalizationDepthExceeded);
            }
            if size == usize::MAX {
                return Result::Ok(Option::None);
            }
            let body = apply_closure(fuel - 1, c, Value::NeutralVar(size))?;
            let frames2 = Lst::Cons(
                TyFrame { name: *x, ty: value_clone(a), val: Value::NeutralVar(size) },
                Box::new(crate::tyenv::frames_clone(frames)),
            );
            let ub = match univ_of(fuel - 1, &frames2, size + 1, &body)? {
                Option::Some(u) => u,
                Option::None => {
                    return Result::Ok(Option::None);
                },
            };
            Result::Ok(Option::Some(function_check(ua, ub)))
        },
        Value::RecordType(kts, u) => match u {
            Option::Some(k) => Result::Ok(Option::Some(*k)),
            Option::None => univ_of_fields(fuel, frames, size, kts),
        },
        Value::UnionType(kts) => {
            let u = univ_of_union(fuel, frames, size, kts)?;
            match u {
                Option::Some(Option::Some(k)) => Result::Ok(Option::Some(k)),
                Option::Some(Option::None) => Result::Ok(Option::Some(Const::Type)),
                Option::None => Result::Ok(Option::None),
            }
        },
        Value::Equivalence(_, _) => Result::Ok(Option::Some(Const::Type)),
        _ => Result::Ok(Option::None),
    }
}

/// The max universe over record fields, `Type` when empty; `None` when some
/// field is no type.
fn univ_of_fields(fuel: u64, frames: &Lst<TyFrame>, size: usize, kts: &Lst<(Label, Value)>) -> (r:
    Result<Option<Const>, TypeError>)
    ensures
        r == spec_univ_of_fields(fuel, *frames, size, *kts),
    decreases fuel, *kts, 0int,
{
    match kts {
        Lst::Nil => Result::Ok(Option::Some(Const::Type)),
        Lst::Cons(p, t) => {
            let c = match univ_of(fuel, frames, size, &p.1)? {
                Option::Some(c) => c,
                Option::None => {
                    return Result::Ok(Option::None);
                },
            };
            let k = match univ_of_fields(fuel, frames, size, t)? {
                Option::Some(k) => k,
                Option::None => {
                    return Result::Ok(Option::None);
                },
            };
            Result::Ok(Option::Some(crate::syntax::const_max(c, k)))
        },
    }
}

/// The shared universe of the union's present alternatives. The outer
/// `Option` is `None` when the union is invalid (an alternative's type is no
/// universe, or two alternatives disagree); the inner one is `None` when no
/// alternative carries a type.
fn univ_of_union(fuel: u64, frames: &Lst<TyFrame>, size: usize, kts: &Lst<
    (Label, Option<Value>),
>) -> (r: Result<Option<Option<Const>>, TypeError>)
    ensures
        r == spec_univ_of_union(fuel, *frames, size, *kts),
    decreases fuel, *kts, 0int,
{
    match kts {
        Lst::Nil => Result::Ok(Option::Some(Option::None)),
        Lst::Cons(p, t) => {
            let here = match &p.1 {
                Option::Some(v) => match univ_of(fuel, frames, size, v)? {
                    Option::Some(c) => Option::Some(c),
                    Option::None => {
                        return Result::Ok(Option::None);
                    },
                },
                Option::None => Option::None,
            };
            let rest = match univ_of_union(fuel, frames, size, t)? {
                Option::Some(rest) => rest,
                Option::None => {
                    return Result::Ok(Option::None);
                },
            };
            match (here, rest) {
                (Option::Some(a), Option::Some(b)) => {
                    if a == b {
                        Result::Ok(Option::Some(Option::Some(a)))
                    } else {
                        Result::Ok(Option::None)
                    }
                },
                (Option::Some(a), Option::None) => Result::Ok(Option::Some(Option::Some(a))),
                (Option::None, other) => Result::Ok(Option::Some(other)),
            }
        },
    }
}

/// Some label of an association list equals `x`.
pub fn assoc_contains<T>(l: &Lst<(Label, T)>, x: Label) -> (r: bool)
    ensures
        r == contains_label(*l, x),
    decreases *l,
{
    match l {
        Lst::Nil => false,
        Lst::Cons(p, t) => {
            if p.0 == x {
                true
            } else {
                assoc_contains(t, x)
            }
        },
    }
}

/// Two entries of an association list share a label.
pub fn assoc_has_dup<T>(l: &Lst<(Label, T)>) -> (r: bool)
    ensures
        r == has_dup_labels(*l),
    decreases *l,
{
    match l {
        Lst::Nil => false,
        Lst::Cons(p, t) => assoc_contains(t, p.0) || assoc_has_dup(t),
    }
}

/// Key-wise union of two maps of record fields. A key of both takes the
/// right value when `right_wins` and the left one otherwise; a key of one
/// map keeps its value. Left keys keep their order, right-only keys follow.
pub open spec fn spec_merge_maps(a: Lst<(Label, Value)>, b: Lst<(Label, Value)>, right_wins: bool)
    -> Lst<(Label, Value)> {
    spec_merge_go(a, b, right_wins, a)
}

pub open spec fn spec_merge_go(
    rest: Lst<(Label, Value)>,
    b: Lst<(Label, Value)>,
    right_wins: bool,
    whole_a: Lst<(Label, Value)>,
) -> Lst<(Label, Value)>
    decreases rest,
{
    match rest {
        Lst::Nil => spec_fields_not_in(b, whole_a),
        Lst::Cons(p, t) => {
            let v = match assoc_lookup(b, p.0) {
                Option::Some(vb) => if right_wins {
                    vb
                } else {
                    p.1
                },
                Option::None => p.1,
            };
            Lst::Cons((p.0, v), Box::new(spec_merge_go(*t, b, right_wins, whole_a)))
        },
    }
}

/// The entries of `b` whose labels are not in `skip`.
pub open spec fn spec_fields_not_in(b: Lst<(Label, Value)>, skip: Lst<(Label, Value)>) -> Lst<
    (Label, Value),
>
    decreases b,
{
    match b {
        Lst::Nil => Lst::Nil,
        Lst::Cons(p, t) => if contains_label(skip, p.0) {
            spec_fields_not_in(*t, skip)
        } else {
            Lst::Cons(p, Box::new(spec_fields_not_in(*t, skip)))
        },
    }
}

fn exec_fields_not_in(b: &Lst<(Label, Value)>, skip: &Lst<(Label, Value)>) -> (r: Lst<
    (Label, Value),
>)
    ensures
        r == spec_fields_not_in(*b, *skip),
    decreases *b,
{
    match b {
        Lst::Nil => Lst::Nil,
        Lst::Cons(p, t) => {
            if assoc_contains(skip, p.0) {
                exec_fields_not_in(t, skip)
            } else {
                Lst::Cons((p.0, value_clone(&p.1)), Box::new(exec_fields_not_in(t, skip)))
            }
        },
    }
}

fn merge_go(
    rest: &Lst<(Label, Value)>,
    b: &Lst<(Label, Value)>,
    right_wins: bool,
    whole_a: &Lst<(Label, Value)>,
) -> (r: Lst<(Label, Value)>)
    ensures
        r == spec_merge_go(*rest, *b, right_wins, *whole_a),
    decreases *rest,
{
    match rest {
        Lst::Nil => exec_fields_not_in(b, whole_a),
        Lst::Cons(p, t) => {
            let v = match valfields_get(b, p.0) {
                Option::Some(vb) => if right_wins {
                    vb
                } else {
                    value_clone(&p.1)
                },
                Option::None => value_clone(&p.1),
            };
            Lst::Cons((p.0, v), Box::new(merge_go(t, b, right_wins, whole_a)))
        },
    }
}

/// Key-wise union with a right-or-left conflict rule; the workhorse behind
/// the record-merge judgments.
pub fn merge_maps(a: &Lst<(Label, Value)>, b: &Lst<(Label, Value)>, right_wins: bool) -> (r: Lst<
    (Label, Value),
>)
    ensures
        r == spec_merge_maps(*a, *b, right_wins),
{
    merge_go(a, b, right_wins, a)
}

/// A label is in an association list exactly when a lookup answers.
proof fn lemma_contains_lookup(l: Lst<(Label, Value)>, k: Label)
    ensures
        contains_label(l, k) <==> assoc_lookup(l, k) is Some,
    decreases l,
{
    match l {
        Lst::Nil => {},
        Lst::Cons(_, t) => {
            lemma_contains_lookup(*t, k);
        },
    }
}

proof fn lemma_fields_not_in_lookup(b: Lst<(Label, Value)>, skip: Lst<(Label, Value)>, k: Label)
    ensures
        assoc_lookup(spec_fields_not_in(b, skip), k) == (if contains_label(skip, k) {
            Option::<Value>::None
        } else {
            assoc_lookup(b, k)
        }),
    decreases b,
{
    match b {
        Lst::Nil => {},
        Lst::Cons(_, t) => {
            lemma_fields_not_in_lookup(*t, skip, k);
        },
    }
}

proof fn lemma_merge_go_lookup(
    rest: Lst<(Label, Value)>,
    b: Lst<(Label, Value)>,
    right_wins: bool,
    whole_a: Lst<(Label, Value)>,
    k: Label,
)
    ensures
        assoc_lookup(spec_merge_go(rest, b, right_wins, whole_a), k) == (match assoc_lookup(
            rest,
            k,
        ) {
            Option::Some(va) => Option::Some(
                match assoc_lookup(b, k) {
                    Option::Some(vb) => if right_wins {
                        vb
                    } else {
                        va
                    },
                    Option::None => va,
                },
            ),
            Option::None => if contains_label(whole_a, k) {
                Option::<Value>::None
            } else {
                assoc_lookup(b, k)
            },
        }),
    decreases rest,
{
    match rest {
        Lst::Nil => {
            lemma_fields_not_in_lookup(b, whole_a, k);
        },
        Lst::Cons(_, t) => {
            lemma_merge_go_lookup(*t, b, right_wins, whole_a, k);
        },
    }
}

/// The value `merge_maps(a, b, right_wins)` holds at each key: the right
/// value on shared keys when `right_wins` (the left one otherwise), and the
/// only value present on one-sided keys. Projecting the merge by any key of
/// `a` or `b` therefore preserves the winning value.
pub proof fn lemma_merge_maps_lookup(
    a: Lst<(Label, Value)>,
    b: Lst<(Label, Value)>,
    right_wins: bool,
    k: Label,
)
    ensures
        assoc_lookup(spec_merge_maps(a, b, right_wins), k) == (match (assoc_lookup(a, k),
        assoc_lookup(b, k)) {
            (Option::Some(va), Option::Some(vb)) => Option::Some(
                if right_wins {
                    vb
                } else {
                    va
                },
            ),
            (Option::Some(va), Option::None) => Option::Some(va),
            (Option::None, Option::Some(vb)) => Option::Some(vb),
            (Option::None, Option::None) => Option::<Value>::None,
        }),
{
    lemma_merge_go_lookup(a, b, right_wins, a, k);
    lemma_contains_lookup(a, k);
}

/// The keys of a merge are exactly the union of the two key sets.
pub proof fn lemma_merge_maps_keys(
    a: Lst<(Label, Value)>,
    b: Lst<(Label, Value)>,
    right_wins: bool,
    k: Label,
)
    ensures
        contains_label(spec_merge_maps(a, b, right_wins), k) <==> (contains_label(a, k)
            || contains_label(b, k)),
{
    lemma_merge_maps_lookup(a, b, right_wins, k);
    lemma_contains_lookup(spec_merge_maps(a, b, right_wins), k);
    lemma_contains_lookup(a, k);
    lemma_contains_lookup(b, k);
}

/// Merging right-biased and then projecting by the union of the key sets
/// preserves every value: a key of `b` reads back `b`'s value, a key only in
/// `a` reads back `a`'s.
pub proof fn lemma_merge_then_project_preserves(
    a: Lst<(Label, Value)>,
    b: Lst<(Label, Value)>,
    k: Label,
)
    requires
        contains_label(a, k) || contains_label(b, k),
    ensures
        assoc_lookup(spec_merge_maps(a, b, true), k) == (if contains_label(b, k) {
            assoc_lookup(b, k)
        } else {
            assoc_lookup(a, k)
        }),
        assoc_lookup(spec_merge_maps(a, b, true), k) is Some,
{
    lemma_merge_maps_lookup(a, b, true, k);
    lemma_contains_lookup(a, k);
    lemma_contains_lookup(b, k);
}

fn opt_value_clone(v: &Option<Value>) -> (r: Option<Value>)
    ensures
        r == *v,
{
    match v {
        Option::Some(v) => Option::Some(value_clone(v)),
        Option::None => Option::None,
    }
}

/// The types of the embedded expressions of an interpolated text literal,
/// in order; plain text chunks contribute nothing.
fn text_part_types(env: &TyEnv, parts: &Lst<InterpolatedTextContents>) -> (r: Result<
    Lst<Value>,
    TypeError,
>)
    requires
        tyenv_wf(*env),
        crate::syntax::is_resolved_text(*parts),
    ensures
        r == spec_text_part_types(*env, *parts),
    decreases *parts, 1int,
{
    match parts {
        Lst::Nil => Result::Ok(Lst::Nil),
        Lst::Cons(p, t) => match p {
            InterpolatedTextContents::Text(_) => text_part_types(env, t),
            InterpolatedTextContents::Expr(x) => {
                let tx = type_with(env, x)?;
                let x_ty = tx.get_type()?;
                let rest = text_part_types(env, t)?;
                Result::Ok(Lst::Cons(x_ty, Box::new(rest)))
            },
        },
    }
}

/// Every collected interpolation type must convert to `Text`.
fn check_text_types(size: usize, tys: &Lst<Value>) -> (r: Result<(), TypeError>)
    ensures
        r == spec_check_text_types(size, *tys),
    decreases *tys,
{
    match tys {
        Lst::Nil => Result::Ok(()),
        Lst::Cons(ty, t) => {
            let text = lit_ty(Builtin::Text);
            let same = conv(EVAL_FUEL, size, ty, &text)?;
            if !same {
                return mkerr(TypeMessage::InvalidTextInterpolation);
            }
            check_text_types(size, t)
        },
    }
}

/// Type every field of a record form; the result maps each label to the
/// field's type.
fn type_fields(env: &TyEnv, kvs: &Lst<(Label, Expr)>) -> (r: Result<Lst<(Label, Value)>, TypeError>)
    requires
        tyenv_wf(*env),
        crate::syntax::is_resolved_fields(*kvs),
    ensures
        r == spec_type_fields(*env, *kvs),
    decreases *kvs, 1int,
{
    match kvs {
        Lst::Nil => Result::Ok(Lst::Nil),
        Lst::Cons(p, t) => {
            let tv = type_with(env, &p.1)?;
            let ty = tv.get_type()?;
            let rest = type_fields(env, t)?;
            Result::Ok(Lst::Cons((p.0, ty), Box::new(rest)))
        },
    }
}

/// Strip the labels off a typed field list.
fn fields_values(kts: &Lst<(Label, Value)>) -> (r: Lst<Value>)
    ensures
        r == spec_fields_values(*kts),
    decreases *kts,
{
    match kts {
        Lst::Nil => Lst::Nil,
        Lst::Cons(p, t) => Lst::Cons(value_clone(&p.1), Box::new(fields_values(t))),
    }
}

/// The types of a union's present alternatives, labels kept in order.
fn union_alt_types(env: &TyEnv, kts: &Lst<(Label, Option<Expr>)>) -> (r: Result<
    Lst<(Label, Option<Value>)>,
    TypeError,
>)
    requires
        tyenv_wf(*env),
        crate::syntax::is_resolved_union(*kts),
    ensures
        r == spec_union_alt_types(*env, *kts),
    decreases *kts, 1int,
{
    match kts {
        Lst::Nil => Result::Ok(Lst::Nil),
        Lst::Cons(p, t) => {
            let here = match &p.1 {
                Option::Some(x) => {
                    let tx = type_with(env, x)?;
                    Option::Some(tx.get_type()?)
                },
                Option::None => Option::None,
            };
            let rest = union_alt_types(env, t)?;
            Result::Ok(Lst::Cons((p.0, here), Box::new(rest)))
        },
    }
}

fn labels_list_contains(l: &Lst<Label>, x: Label) -> (r: bool)
    ensures
        r == lst_contains(*l, x),
    decreases *l,
{
    match l {
        Lst::Nil => false,
        Lst::Cons(h, t) => {
            if *h == x {
                true
            } else {
                labels_list_contains(t, x)
            }
        },
    }
}

/// Walk the typed alternatives as the judgment does: per entry, the
/// alternative's type must be a universe agreeing with the accumulated one,
/// and then its label must be new.
fn union_univ_walk(tys: &Lst<(Label, Option<Value>)>, k: Option<Const>, seen: Lst<Label>) -> (r:
    Result<Option<Const>, TypeError>)
    ensures
        r == spec_union_univ_walk(*tys, k, seen),
    decreases *tys,
{
    match tys {
        Lst::Nil => Result::Ok(k),
        Lst::Cons(p, t) => {
            let k2 = match &p.1 {
                Option::Some(ty) => match (k, ty.as_const()) {
                    (Option::None, Option::Some(c)) => Option::Some(c),
                    (Option::Some(k1), Option::Some(c)) => {
                        if k1 == c {
                            Option::Some(k1)
                        } else {
                            return mkerr(TypeMessage::InvalidFieldType);
                        }
                    },
                    _ => {
                        return mkerr(TypeMessage::InvalidFieldType);
                    },
                },
                Option::None => k,
            };
            if labels_list_contains(&seen, p.0) {
                return mkerr(TypeMessage::UnionTypeDuplicateField);
            }
            union_univ_walk(t, k2, Lst::Cons(p.0, Box::new(seen)))
        },
    }
}

/// The types of a list literal's elements, in order.
fn list_elem_types(env: &TyEnv, xs: &Lst<Expr>) -> (r: Result<Lst<Value>, TypeError>)
    requires
        tyenv_wf(*env),
        crate::syntax::is_resolved_list(*xs),
    ensures
        r == spec_list_elem_types(*env, *xs),
    decreases *xs, 1int,
{
    match xs {
        Lst::Nil => Result::Ok(Lst::Nil),
        Lst::Cons(x, t) => {
            let tx = type_with(env, x)?;
            let x_ty = tx.get_type()?;
            let rest = list_elem_types(env, t)?;
            Result::Ok(Lst::Cons(x_ty, Box::new(rest)))
        },
    }
}

/// All remaining element types must convert to the first element's.
fn check_elems_against(size: usize, rest: &Lst<Value>, ty0: &Value) -> (r: Result<(), TypeError>)
    ensures
        r == spec_check_elems_against(size, *rest, *ty0),
    decreases *rest,
{
    match rest {
        Lst::Nil => Result::Ok(()),
        Lst::Cons(ty, t) => {
            let same = conv(EVAL_FUEL, size, ty, ty0)?;
            if !same {
                return mkerr(TypeMessage::InvalidListElement);
            }
            check_elems_against(size, t, ty0)
        },
    }
}

/// The common return type of the handlers of a `merge`, checked against the
/// union's variants: a handler for a variant with a payload must be a
/// function taking exactly the payload type, and its return type must not
/// depend on its binder; every handler must match a variant; all return
/// types must agree.
fn merge_handlers(
    size: usize,
    handlers: &Lst<(Label, Value)>,
    variants: &Lst<(Label, Option<Value>)>,
) -> (r: Result<Option<Value>, TypeError>)
    ensures
        r == spec_merge_handlers(size, *handlers, *variants),
    decreases *handlers,
{
    match handlers {
        Lst::Nil => Result::Ok(Option::None),
        Lst::Cons(p, t) => {
            let ret = match valunion_get(variants, p.0) {
                Option::Some(Option::Some(variant_ty)) => match &p.1 {
                    Value::PiClosure(_, annot, closure) => {
                        let same = conv(EVAL_FUEL, size, &variant_ty, annot)?;
                        if !same {
                            return mkerr(TypeMessage::MergeHandlerTypeMismatch);
                        }
                        match remove_binder(EVAL_FUEL, closure)? {
                            Option::Some(rt) => rt,
                            Option::None => {
                                return mkerr(TypeMessage::MergeReturnTypeIsDependent);
                            },
                        }
                    },
                    _ => {
                        return mkerr(TypeMessage::NotAFunction);
                    },
                },
                Option::Some(Option::None) => value_clone(&p.1),
                Option::None => {
                    return mkerr(TypeMessage::MergeHandlerMissingVariant);
                },
            };
            let rest = merge_handlers(size, t, variants)?;
            match rest {
                Option::None => Result::Ok(Option::Some(ret)),
                Option::Some(other) => {
                    let same = conv(EVAL_FUEL, size, &ret, &other)?;
                    if same {
                        Result::Ok(Option::Some(ret))
                    } else {
                        mkerr(TypeMessage::MergeHandlerTypeMismatch)
                    }
                },
            }
        },
    }
}

/// Every variant of the union must have a handler.
fn variants_covered(variants: &Lst<(Label, Option<Value>)>, handlers: &Lst<(Label, Value)>) -> (r:
    Result<(), TypeError>)
    ensures
        r == spec_variants_covered(*variants, *handlers),
    decreases *variants,
{
    match variants {
        Lst::Nil => Result::Ok(()),
        Lst::Cons(p, t) => {
            if valfields_contains(handlers, p.0) {
                variants_covered(t, handlers)
            } else {
                mkerr(TypeMessage::MergeVariantMissingHandler)
            }
        },
    }
}

/// Both operands of a recursive record-type merge must normalise to record
/// types, recursively so on shared fields; the result is the larger of the
/// two operands' universes.
fn rrtm_check(fuel: u64, frames: &Lst<TyFrame>, size: usize, a: &Value, b: &Value) -> (r: Result<
    Const,
    TypeError,
>)
    ensures
        r == spec_rrtm_check(fuel, *frames, size, *a, *b),
    decreases *a, 0int,
{
    match (a, b) {
        (Value::RecordType(ka, _), Value::RecordType(kb, _)) => {
            rrtm_check_fields(fuel, frames, size, ka, kb)?;
            let ua = match univ_of(fuel, frames, size, a)? {
                Option::Some(u) => u,
                Option::None => {
                    return mkerr(TypeMessage::InvalidFieldType);
                },
            };
            let ub = match univ_of(fuel, frames, size, b)? {
                Option::Some(u) => u,
                Option::None => {
                    return mkerr(TypeMessage::InvalidFieldType);
                },
            };
            Result::Ok(crate::syntax::const_max(ua, ub))
        },
        _ => mkerr(TypeMessage::RecordTypeMergeRequiresRecordType),
    }
}

fn rrtm_check_fields(
    fuel: u64,
    frames: &Lst<TyFrame>,
    size: usize,
    ka: &Lst<(Label, Value)>,
    kb: &Lst<(Label, Value)>,
) -> (r: Result<(), TypeError>)
    ensures
        r == spec_rrtm_check_fields(fuel, *frames, size, *ka, *kb),
    decreases *ka, 1int,
{
    match ka {
        Lst::Nil => Result::Ok(()),
        Lst::Cons(p, t) => {
            match valfields_get(kb, p.0) {
                Option::Some(vb) => {
                    let _ = rrtm_check(fuel, frames, size, &p.1, &vb)?;
                },
                Option::None => {},
            }
            rrtm_check_fields(fuel, frames, size, t, kb)
        },
    }
}

/// The record type a projection selects: the requested labels, each present
/// in the scrutinee's record type and requested only once.
fn project_type(kts: &Lst<(Label, Value)>, labels: &Lst<Label>) -> (r: Result<
    Lst<(Label, Value)>,
    TypeError,
>)
    ensures
        r == spec_project_type(*kts, *labels),
    decreases *labels,
{
    match labels {
        Lst::Nil => Result::Ok(Lst::Nil),
        Lst::Cons(x, t) => match valfields_get(kts, *x) {
            Option::None => mkerr(TypeMessage::ProjectionMissingEntry),
            Option::Some(v) => {
                let rest = project_type(kts, t)?;
                if valfields_contains(&rest, *x) {
                    mkerr(TypeMessage::ProjectionDuplicateField)
                } else {
                    Result::Ok(Lst::Cons((*x, v), Box::new(rest)))
                }
            },
        },
    }
}

/// When all subexpressions have been typed, check the remaining toplevel
/// layer: one judgment per syntactic form, with the error taxonomy of each.
#[verifier::rlimit(100)]
fn type_one_layer(env: &TyEnv, e: &Expr) -> (r: Result<Value, TypeError>)
    requires
        tyenv_wf(*env),
        is_resolved(*e),
        is_layer_form(*e),
    ensures
        r == spec_type_one_layer(*env, *e),
    decreases *e, 2int,
{
    match e {
        Expr::Const(c) => match c {
            Const::Type => Result::Ok(Value::Const(Const::Kind)),
            Const::Kind => Result::Ok(Value::Const(Const::Sort)),
            Const::Sort => {
                proof {
                    assert(false);
                }
                mkerr(TypeMessage::Sort)
            },
        },
        Expr::Builtin(b) => Result::Ok(builtin_type_value(*b)),
        Expr::BoolLit(_) => Result::Ok(lit_ty(Builtin::Bool)),
        Expr::NaturalLit(_) => Result::Ok(lit_ty(Builtin::Natural)),
        Expr::IntegerLit(_) => Result::Ok(lit_ty(Builtin::Integer)),
        Expr::DoubleLit(_) => Result::Ok(lit_ty(Builtin::Double)),
        Expr::TextLit(parts) => {
            let tys = text_part_types(env, parts)?;
            check_text_types(env.size, &tys)?;
            Result::Ok(lit_ty(Builtin::Text))
        },
        Expr::EmptyListLit(t) => {
            let _tt = type_with(env, t)?;
            let nz = env.as_nzenv();
            let t_nf = eval(EVAL_FUEL, &nz, t)?;
            match &t_nf {
                Value::AppliedBuiltin(Builtin::List, args) => match &**args {
                    Lst::Cons(_, rest) => match &**rest {
                        Lst::Nil => Result::Ok(t_nf),
                        _ => mkerr(TypeMessage::InvalidListType),
                    },
                    _ => mkerr(TypeMessage::InvalidListType),
                },
                _ => mkerr(TypeMessage::InvalidListType),
            }
        },
        Expr::NEListLit(xs) => {
            let tys = list_elem_types(env, xs)?;
            match tys {
                Lst::Cons(ty0, rest) => {
                    check_elems_against(env.size, &rest, &ty0)?;
                    match univ_of(EVAL_FUEL, &env.frames, env.size, &ty0)? {
                        Option::Some(Const::Type) => {},
                        _ => {
                            return mkerr(TypeMessage::InvalidListType);
                        },
                    }
                    Result::Ok(
                        Value::AppliedBuiltin(
                            Builtin::List,
                            Box::new(Lst::Cons(ty0, Box::new(Lst::Nil))),
                        ),
                    )
                },
                Lst::Nil => {
                    proof {
                        assert(false);
                    }
                    mkerr(TypeMessage::InvalidListType)
                },
            }
        },
        Expr::SomeLit(x) => {
            let tx = type_with(env, x)?;
            let ty = tx.get_type()?;
            match univ_of(EVAL_FUEL, &env.frames, env.size, &ty)? {
                Option::Some(Const::Type) => {},
                _ => {
                    return mkerr(TypeMessage::InvalidOptionalType);
                },
            }
            Result::Ok(
                Value::AppliedBuiltin(Builtin::Optional, Box::new(Lst::Cons(ty, Box::new(Lst::Nil)))),
            )
        },
        Expr::RecordLit(kvs) => {
            let kts = type_fields(env, kvs)?;
            if assoc_has_dup(kvs) {
                return mkerr(TypeMessage::RecordTypeDuplicateField);
            }
            let u = match univ_of_fields(EVAL_FUEL, &env.frames, env.size, &kts)? {
                Option::Some(u) => u,
                Option::None => {
                    return mkerr(TypeMessage::InvalidFieldType);
                },
            };
            Result::Ok(Value::RecordType(Box::new(kts), Option::Some(u)))
        },
        Expr::RecordType(kts) => {
            let tys = type_fields(env, kts)?;
            if assoc_has_dup(kts) {
                return mkerr(TypeMessage::RecordTypeDuplicateField);
            }
            let vals = fields_values(&tys);
            type_of_recordtype(&vals)
        },
        Expr::UnionType(kts) => {
            let tys = union_alt_types(env, kts)?;
            let k = union_univ_walk(&tys, Option::None, Lst::Nil)?;
            Result::Ok(
                Value::Const(
                    match k {
                        Option::Some(k) => k,
                        Option::None => Const::Type,
                    },
                ),
            )
        },
        Expr::Field(_, _) => type_field(env, e),
        Expr::Annot(x, t) => {
            let tx = type_with(env, x)?;
            let _tt = type_with(env, t)?;
            let nz = env.as_nzenv();
            let t_nf = eval(EVAL_FUEL, &nz, t)?;
            let x_ty = tx.get_type()?;
            let same = conv(EVAL_FUEL, env.size, &x_ty, &t_nf)?;
            if !same {
                return mkerr(TypeMessage::AnnotMismatch(x_ty, t_nf));
            }
            Result::Ok(x_ty)
        },
        Expr::Assert(t) => {
            let _tt = type_with(env, t)?;
            let nz = env.as_nzenv();
            let t_nf = eval(EVAL_FUEL, &nz, t)?;
            match &t_nf {
                Value::Equivalence(a, b) => {
                    let same = conv(EVAL_FUEL, env.size, a, b)?;
                    if same {
                        Result::Ok(t_nf)
                    } else {
                        mkerr(TypeMessage::AssertMismatch)
                    }
                },
                _ => mkerr(TypeMessage::AssertMustTakeEquivalence),
            }
        },
        Expr::App(f, arg) => {
            let tf = type_with(env, f)?;
            let f_ty = tf.get_type()?;
            let targ = type_with(env, arg)?;
            let arg_ty = targ.get_type()?;
            match f_ty {
                Value::PiClosure(_, annot, closure) => {
                    let same = conv(EVAL_FUEL, env.size, &arg_ty, &annot)?;
                    if !same {
                        return mkerr(TypeMessage::FunctionAnnotMismatch(arg_ty, *annot));
                    }
                    let nz = env.as_nzenv();
                    let arg_nf = eval(EVAL_FUEL, &nz, arg)?;
                    apply_closure(EVAL_FUEL, &closure, arg_nf)
                },
                _ => mkerr(TypeMessage::ApplyToNotPi),
            }
        },
        Expr::BoolIf(_, _, _) => type_boolif(env, e),
        Expr::BinOp(_, _, _) => type_binop(env, e),
        Expr::Merge(_, _, _) => type_merge(env, e),
        Expr::Projection(_, _) => type_projection(env, e),
        Expr::ToMap(_, _) => mkerr(TypeMessage::Unimplemented),
        Expr::ProjectionByExpr(_, _) => mkerr(TypeMessage::Unimplemented),
        Expr::Completion(_, _) => mkerr(TypeMessage::Unimplemented),
        _ => {
            proof {
                assert(false);
            }
            mkerr(TypeMessage::Unimplemented)
        },
    }
}



/// The field-selection judgment.
fn type_field(env: &TyEnv, e: &Expr) -> (r: Result<Value, TypeError>)
    requires
        tyenv_wf(*env),
        is_resolved(*e),
    ensures
        r == spec_tol_field(*env, *e),
    decreases *e, 1int,
{
    match e {
        Expr::Field(scrut, x) => {
            let tscrut = type_with(env, scrut)?;
            let scrut_ty = tscrut.get_type()?;
            match scrut_ty {
                Value::RecordType(kts, _) => match valfields_get(&kts, *x) {
                    Option::Some(v) => Result::Ok(v),
                    Option::None => mkerr(TypeMessage::MissingRecordField),
                },
                scrut_ty => {
                    let nz = env.as_nzenv();
                    let scrut_nf = eval(EVAL_FUEL, &nz, scrut)?;
                    match &scrut_nf {
                        Value::UnionType(kts) => match valunion_get(kts, *x) {
                            Option::Some(Option::Some(ty)) => {
                                let ku = match univ_of(EVAL_FUEL, &env.frames, env.size, &ty)? {
                                    Option::Some(u) => u,
                                    Option::None => {
                                        return mkerr(TypeMessage::InvalidInputType(ty));
                                    },
                                };
                                let _ = type_of_function(&Value::Const(ku), &scrut_ty)?;
                                Result::Ok(
                                    Value::PiClosure(
                                        *x,
                                        Box::new(ty),
                                        Closure::ConstClosure(Box::new(value_clone(&scrut_nf))),
                                    ),
                                )
                            },
                            Option::Some(Option::None) => Result::Ok(value_clone(&scrut_nf)),
                            Option::None => mkerr(TypeMessage::MissingUnionField),
                        },
                        _ => mkerr(TypeMessage::NotARecord),
                    }
                },
            }
        },
        _ => mkerr(TypeMessage::Unimplemented),
    }
}

/// The conditional judgment.
fn type_boolif(env: &TyEnv, e: &Expr) -> (r: Result<Value, TypeError>)
    requires
        tyenv_wf(*env),
        is_resolved(*e),
    ensures
        r == spec_tol_boolif(*env, *e),
    decreases *e, 1int,
{
    match e {
        Expr::BoolIf(c, x, y) => {
            let tc = type_with(env, c)?;
            let c_ty = tc.get_type()?;
            let tx = type_with(env, x)?;
            let x_ty = tx.get_type()?;
            let ty2 = type_with(env, y)?;
            let y_ty = ty2.get_type()?;
            let bool_ty = lit_ty(Builtin::Bool);
            let is_bool = conv(EVAL_FUEL, env.size, &c_ty, &bool_ty)?;
            if !is_bool {
                return mkerr(TypeMessage::InvalidPredicate);
            }
            match univ_of(EVAL_FUEL, &env.frames, env.size, &x_ty)? {
                Option::Some(Const::Type) => {},
                _ => {
                    return mkerr(TypeMessage::IfBranchMustBeTerm);
                },
            }
            match univ_of(EVAL_FUEL, &env.frames, env.size, &y_ty)? {
                Option::Some(Const::Type) => {},
                _ => {
                    return mkerr(TypeMessage::IfBranchMustBeTerm);
                },
            }
            let same = conv(EVAL_FUEL, env.size, &x_ty, &y_ty)?;
            if !same {
                return mkerr(TypeMessage::IfBranchMismatch);
            }
            Result::Ok(x_ty)
        },
        _ => mkerr(TypeMessage::Unimplemented),
    }
}

/// The binary-operator judgments.
fn type_binop(env: &TyEnv, e: &Expr) -> (r: Result<Value, TypeError>)
    requires
        tyenv_wf(*env),
        is_resolved(*e),
    ensures
        r == spec_type_binop(*env, *e),
    decreases *e, 1int,
{
    match e {
        Expr::BinOp(o, l, r2) => match o {
            BinOp::RightBiasedRecordMerge => {
                let tl = type_with(env, l)?;
                let tr = type_with(env, r2)?;
                let l_ty = tl.get_type()?;
                let r_ty = tr.get_type()?;
                let kts_l = match l_ty {
                    Value::RecordType(kts, _) => kts,
                    _ => {
                        return mkerr(TypeMessage::MustCombineRecord);
                    },
                };
                let kts_r = match r_ty {
                    Value::RecordType(kts, _) => kts,
                    _ => {
                        return mkerr(TypeMessage::MustCombineRecord);
                    },
                };
                let kts = merge_maps(&kts_l, &kts_r, true);
                let u = match univ_of_fields(EVAL_FUEL, &env.frames, env.size, &kts)? {
                    Option::Some(u) => u,
                    Option::None => {
                        return mkerr(TypeMessage::InvalidFieldType);
                    },
                };
                Result::Ok(Value::RecordType(Box::new(kts), Option::Some(u)))
            },
            BinOp::RecursiveRecordMerge => {
                let tl = type_with(env, l)?;
                let tr = type_with(env, r2)?;
                let l_ty = tl.get_type()?;
                let r_ty = tr.get_type()?;
                let k = rrtm_check(EVAL_FUEL, &env.frames, env.size, &l_ty, &r_ty)?;
                let kts_l = match l_ty {
                    Value::RecordType(kts, _) => kts,
                    _ => {
                        return mkerr(TypeMessage::RecordTypeMergeRequiresRecordType);
                    },
                };
                let kts_r = match r_ty {
                    Value::RecordType(kts, _) => kts,
                    _ => {
                        return mkerr(TypeMessage::RecordTypeMergeRequiresRecordType);
                    },
                };
                Result::Ok(
                    Value::RecordType(
                        Box::new(crate::eval::rrtm_merge_fields(&kts_l, &kts_r)),
                        Option::Some(k),
                    ),
                )
            },
            BinOp::RecursiveRecordTypeMerge => {
                let tl = type_with(env, l)?;
                let tr = type_with(env, r2)?;
                let nz = env.as_nzenv();
                let l_nf = eval(EVAL_FUEL, &nz, l)?;
                let r_nf = eval(EVAL_FUEL, &nz, r2)?;
                let k = rrtm_check(EVAL_FUEL, &env.frames, env.size, &l_nf, &r_nf)?;
                Result::Ok(Value::Const(k))
            },
            BinOp::ListAppend => {
                let tl = type_with(env, l)?;
                let tr = type_with(env, r2)?;
                let l_ty = tl.get_type()?;
                let r_ty = tr.get_type()?;
                match &l_ty {
                    Value::AppliedBuiltin(Builtin::List, _) => {},
                    _ => {
                        return mkerr(TypeMessage::BinOpTypeMismatch);
                    },
                }
                let same = conv(EVAL_FUEL, env.size, &l_ty, &r_ty)?;
                if !same {
                    return mkerr(TypeMessage::BinOpTypeMismatch);
                }
                Result::Ok(l_ty)
            },
            BinOp::Equivalence => {
                let tl = type_with(env, l)?;
                let tr = type_with(env, r2)?;
                let l_ty = tl.get_type()?;
                let r_ty = tr.get_type()?;
                let same = conv(EVAL_FUEL, env.size, &l_ty, &r_ty)?;
                if !same {
                    return mkerr(TypeMessage::EquivalenceTypeMismatch);
                }
                match univ_of(EVAL_FUEL, &env.frames, env.size, &l_ty)? {
                    Option::Some(Const::Type) => {},
                    _ => {
                        return mkerr(TypeMessage::EquivalenceArgumentsMustBeTerms);
                    },
                }
                Result::Ok(Value::Const(Const::Type))
            },
            BinOp::ImportAlt => {
                proof {
                    assert(false);
                }
                mkerr(TypeMessage::Unimplemented)
            },
            _ => {
                let t = lit_ty(
                    match o {
                        BinOp::BoolAnd => Builtin::Bool,
                        BinOp::BoolOr => Builtin::Bool,
                        BinOp::BoolEQ => Builtin::Bool,
                        BinOp::BoolNE => Builtin::Bool,
                        BinOp::NaturalPlus => Builtin::Natural,
                        BinOp::NaturalTimes => Builtin::Natural,
                        _ => Builtin::Text,
                    },
                );
                let tl = type_with(env, l)?;
                let tr = type_with(env, r2)?;
                let l_ty = tl.get_type()?;
                let r_ty = tr.get_type()?;
                let same_l = conv(EVAL_FUEL, env.size, &l_ty, &t)?;
                if !same_l {
                    return mkerr(TypeMessage::BinOpTypeMismatch);
                }
                let same_r = conv(EVAL_FUEL, env.size, &r_ty, &t)?;
                if !same_r {
                    return mkerr(TypeMessage::BinOpTypeMismatch);
                }
                Result::Ok(t)
            },
        },
        _ => mkerr(TypeMessage::Unimplemented),
    }
}

/// The `merge` judgment.
fn type_merge(env: &TyEnv, e: &Expr) -> (r: Result<Value, TypeError>)
    requires
        tyenv_wf(*env),
        is_resolved(*e),
    ensures
        r == spec_tol_merge(*env, *e),
    decreases *e, 1int,
{
    match e {
        Expr::Merge(record, scrut, type_annot) => {
            let trec = type_with(env, record)?;
            let rec_ty = trec.get_type()?;
            let tscrut = type_with(env, scrut)?;
            let scrut_ty = tscrut.get_type()?;
            match type_annot {
                Option::Some(t) => {
                    let _tt = type_with(env, t)?;
                },
                Option::None => {},
            }
            let handlers = match rec_ty {
                Value::RecordType(kts, _) => kts,
                _ => {
                    return mkerr(TypeMessage::Merge1ArgMustBeRecord);
                },
            };
            let variants: Lst<(Label, Option<Value>)> = match scrut_ty {
                Value::UnionType(kts) => *kts,
                Value::AppliedBuiltin(Builtin::Optional, args) => match *args {
                    Lst::Cons(ty, rest) => match *rest {
                        Lst::Nil => Lst::Cons(
                            (none_label(), Option::None),
                            Box::new(
                                Lst::Cons((some_label(), Option::Some(ty)), Box::new(Lst::Nil)),
                            ),
                        ),
                        _ => {
                            return mkerr(TypeMessage::Merge2ArgMustBeUnionOrOptional);
                        },
                    },
                    _ => {
                        return mkerr(TypeMessage::Merge2ArgMustBeUnionOrOptional);
                    },
                },
                _ => {
                    return mkerr(TypeMessage::Merge2ArgMustBeUnionOrOptional);
                },
            };
            let inferred = merge_handlers(env.size, &handlers, &variants)?;
            variants_covered(&variants, &handlers)?;
            let annot_nf = match type_annot {
                Option::Some(t) => {
                    let nz = env.as_nzenv();
                    Option::Some(eval(EVAL_FUEL, &nz, t)?)
                },
                Option::None => Option::None,
            };
            match (inferred, annot_nf) {
                (Option::Some(t1), Option::Some(t2)) => {
                    let same = conv(EVAL_FUEL, env.size, &t1, &t2)?;
                    if !same {
                        return mkerr(TypeMessage::MergeAnnotMismatch);
                    }
                    Result::Ok(t1)
                },
                (Option::Some(t1), Option::None) => Result::Ok(t1),
                (Option::None, Option::Some(t2)) => Result::Ok(t2),
                (Option::None, Option::None) => mkerr(TypeMessage::MergeEmptyNeedsAnnotation),
            }
        },
        _ => mkerr(TypeMessage::Unimplemented),
    }
}

/// The projection judgment.
fn type_projection(env: &TyEnv, e: &Expr) -> (r: Result<Value, TypeError>)
    requires
        tyenv_wf(*env),
        is_resolved(*e),
    ensures
        r == spec_tol_projection(*env, *e),
    decreases *e, 1int,
{
    match e {
        Expr::Projection(record, labels) => {
            let trec = type_with(env, record)?;
            let rec_ty = trec.get_type()?;
            match rec_ty {
                Value::RecordType(kts, u) => {
                    let new_kts = project_type(&kts, labels)?;
                    // The projection keeps the source record type's universe,
                    // which can exceed the max over the selected fields.
                    let src_u = match u {
                        Option::Some(k) => Option::Some(k),
                        Option::None => univ_of_fields(EVAL_FUEL, &env.frames, env.size, &kts)?,
                    };
                    Result::Ok(Value::RecordType(Box::new(new_kts), src_u))
                },
                _ => mkerr(TypeMessage::ProjectionMustBeRecord),
            }
        },
        _ => mkerr(TypeMessage::Unimplemented),
    }
}

/// The lambda arm of `type_with`.
fn type_lam(env: &TyEnv, e: &Expr) -> (r: Result<TyExpr, TypeError>)
    requires
        tyenv_wf(*env),
        is_resolved(*e),
    ensures
        r == spec_tw_lam(*env, *e),
        r matches Ok(te) ==> te.expr == spec_recorded(*e) && (te.ty is None <==> is_sort_like(*e)),
    decreases *e, 2int,
{
    match e {
        Expr::Lam(x, a, b) => {
            let ta = type_with(env, a)?;
            let nz = env.as_nzenv();
            let a_nf = eval(EVAL_FUEL, &nz, a)?;
            let env2 = env.insert_type(x, value_clone(&a_nf))?;
            let tb = type_with(&env2, b)?;
            let b_ty = tb.get_type()?;
            let a_ty = ta.get_type()?;
            match a_ty.as_const() {
                Option::Some(_) => {},
                Option::None => {
                    return mkerr(TypeMessage::InvalidInputType(a_ty));
                },
            }
            match univ_of(EVAL_FUEL, &env2.frames, env2.size, &b_ty)? {
                Option::Some(_) => {},
                Option::None => {
                    return mkerr(TypeMessage::InvalidOutputType(b_ty));
                },
            }
            let pi = Value::PiClosure(
                *x,
                Box::new(a_nf),
                Closure::ValClosure(env.size, Box::new(b_ty)),
            );
            Result::Ok(TyExpr { expr: expr_clone(e), ty: Option::Some(pi) })
        },
        _ => mkerr(TypeMessage::Unimplemented),
    }
}

/// The Pi arm of `type_with`.
fn type_pi(env: &TyEnv, e: &Expr) -> (r: Result<TyExpr, TypeError>)
    requires
        tyenv_wf(*env),
        is_resolved(*e),
    ensures
        r == spec_tw_pi(*env, *e),
        r matches Ok(te) ==> te.expr == spec_recorded(*e) && (te.ty is None <==> is_sort_like(*e)),
    decreases *e, 2int,
{
    match e {
        Expr::Pi(x, a, b) => {
            let ta = type_with(env, a)?;
            let nz = env.as_nzenv();
            let a_nf = eval(EVAL_FUEL, &nz, a)?;
            let env2 = env.insert_type(x, a_nf)?;
            let tb = type_with(&env2, b)?;
            let a_ty = ta.get_type()?;
            let b_ty = tb.get_type()?;
            let ks = match a_ty.as_const() {
                Option::Some(k) => k,
                Option::None => {
                    return mkerr(TypeMessage::InvalidInputType(a_ty));
                },
            };
            let kt = match b_ty.as_const() {
                Option::Some(k) => k,
                Option::None => {
                    return mkerr(TypeMessage::InvalidOutputType(b_ty));
                },
            };
            let k = function_check(ks, kt);
            Result::Ok(TyExpr { expr: expr_clone(e), ty: Option::Some(Value::Const(k)) })
        },
        _ => mkerr(TypeMessage::Unimplemented),
    }
}

/// The `let` arm of `type_with`.
fn type_let(env: &TyEnv, e: &Expr) -> (r: Result<TyExpr, TypeError>)
    requires
        tyenv_wf(*env),
        is_resolved(*e),
    ensures
        r == spec_tw_let(*env, *e),
        r matches Ok(te) ==> te.expr == spec_recorded(*e) && (te.ty is None <==> is_sort_like(*e)),
    decreases *e, 2int,
{
    match e {
        Expr::Let(x, t, v, b) => {
            let tv = type_with(env, v)?;
            let v_ty = tv.get_type()?;
            match t {
                Option::Some(t) => {
                    let _tt = type_with(env, t)?;
                    let nz = env.as_nzenv();
                    let t_nf = eval(EVAL_FUEL, &nz, t)?;
                    let same = conv(EVAL_FUEL, env.size, &v_ty, &t_nf)?;
                    if !same {
                        return mkerr(TypeMessage::AnnotMismatch(v_ty, t_nf));
                    }
                },
                Option::None => {},
            }
            let nz = env.as_nzenv();
            let v_nf = eval(EVAL_FUEL, &nz, v)?;
            let env2 = env.insert_value(x, v_nf, v_ty)?;
            let tb = type_with(&env2, b)?;
            // The recorded node drops the annotation slot: it is redundant
            // once the bound value is typed.
            let recorded = Expr::Let(
                *x,
                Option::None,
                Box::new(expr_clone(v)),
                Box::new(expr_clone(b)),
            );
            Result::Ok(TyExpr { expr: recorded, ty: opt_value_clone(&tb.ty) })
        },
        _ => mkerr(TypeMessage::Unimplemented),
    }
}

/// Typecheck `expr` in the given environment, annotating it with its
/// synthesised type. The result carries the expression unchanged, and has no
/// type exactly when the expression is `Sort` or a `let`-chain ending in it.
#[verifier::rlimit(100)]
pub fn type_with(env: &TyEnv, e: &Expr) -> (r: Result<TyExpr, TypeError>)
    requires
        tyenv_wf(*env),
        is_resolved(*e),
    ensures
        r == spec_type_with(*env, *e),
        r matches Ok(te) ==> te.expr == spec_recorded(*e) && (te.ty is None <==> is_sort_like(*e)),
    decreases *e, 3int,
{
    match e {
        Expr::Var(v) => match env.lookup(v) {
            Option::Some(p) => Result::Ok(TyExpr { expr: expr_clone(e), ty: Option::Some(p.1) }),
            Option::None => mkerr(TypeMessage::UnboundVariable(*v)),
        },
        Expr::Lam(_, _, _) => type_lam(env, e),
        Expr::Pi(_, _, _) => type_pi(env, e),
        Expr::Let(_, _, _, _) => type_let(env, e),
        Expr::Const(Const::Sort) => Result::Ok(TyExpr { expr: expr_clone(e), ty: Option::None }),
        Expr::Embed(t) => Result::Ok(TyExpr { expr: expr_clone(e), ty: opt_value_clone(&t.ty) }),
        Expr::Import(_) => {
            proof {
                assert(false);
            }
            mkerr(TypeMessage::Unimplemented)
        },
        _ => {
            let ty = type_one_layer(env, e)?;
            Result::Ok(TyExpr { expr: expr_clone(e), ty: Option::Some(ty) })
        },
    }
}

/// Typecheck an expression in the empty environment and return it annotated
/// with types, or the first error.
pub fn typecheck(e: &Expr) -> (r: Result<TyExpr, TypeError>)
    requires
        is_resolved(*e),
    ensures
        r == spec_type_with((TyEnv { frames: Lst::<TyFrame>::Nil, size: 0 }), *e),
        r matches Ok(te) ==> te.expr == spec_recorded(*e) && (te.ty is None <==> is_sort_like(*e)),
{
    let env = TyEnv::new();
    type_with(&env, e)
}

/// Like `typecheck`, but additionally checks that the expression's type
/// matches the provided type, by typechecking the annotated expression.
pub fn typecheck_with(expr: &Expr, ty: Expr) -> (r: Result<TyExpr, TypeError>)
    requires
        is_resolved(*expr),
        is_resolved(ty),
    ensures
        r == spec_type_with(
            (TyEnv { frames: Lst::<TyFrame>::Nil, size: 0 }),
            Expr::Annot(Box::new(*expr), Box::new(ty)),
        ),
        r matches Ok(te) ==> te.expr == Expr::Annot(Box::new(*expr), Box::new(ty)) && te.ty is Some,
{
    let e2 = Expr::Annot(Box::new(expr_clone(expr)), Box::new(ty));
    let env = TyEnv::new();
    type_with(&env, &e2)
}

// ---------------------------------------------------------------------------
// Specification-level mirror of the typechecker. `spec_type_with` is the
// typing judgment as a function: every executable entry point below is proved
// to return exactly what it says, so each rule of the judgment table is
// pinned for every input.
// ---------------------------------------------------------------------------

/// Mirror of `TyExpr::get_type`.
pub open spec fn spec_get_type(te: TyExpr) -> Result<Value, TypeError> {
    match te.ty {
        Option::Some(t) => Result::Ok(t),
        Option::None => Result::Err(TypeError { message: TypeMessage::Sort }),
    }
}

/// Mirror of `type_of_function`.
pub open spec fn spec_type_of_function(src: Value, tgt: Value) -> Result<Value, TypeError> {
    match (src, tgt) {
        (Value::Const(ks), Value::Const(kt)) => Result::Ok(
            Value::Const(spec_function_check(ks, kt)),
        ),
        (Value::Const(ks), t) => Result::Err(
            TypeError { message: TypeMessage::InvalidOutputType(t) },
        ),
        (s, t) => Result::Err(TypeError { message: TypeMessage::InvalidInputType(s) }),
    }
}

/// Mirror of `frame_ty_at_level`.
pub open spec fn spec_frame_ty_at_level(frames: Lst<TyFrame>, size: usize, l: usize) -> Option<
    Value,
>
    decreases frames,
{
    match frames {
        Lst::Nil => Option::None,
        Lst::Cons(f, t) => if size == 0 {
            Option::None
        } else if l == size - 1 {
            Option::Some(f.ty)
        } else {
            spec_frame_ty_at_level(*t, (size - 1) as usize, l)
        },
    }
}

/// Mirror of `univ_of`.
pub open spec fn spec_univ_of(fuel: u64, frames: Lst<TyFrame>, size: usize, v: Value) -> Result<
    Option<Const>,
    TypeError,
>
    decreases fuel, v, 1int,
{
    match v {
        Value::Const(c) => Result::Ok(
            match c {
                Const::Type => Option::Some(Const::Kind),
                Const::Kind => Option::Some(Const::Sort),
                Const::Sort => Option::None,
            },
        ),
        Value::AppliedBuiltin(b, args) => {
            let ground = match b {
                Builtin::Bool => true,
                Builtin::Natural => true,
                Builtin::Integer => true,
                Builtin::Double => true,
                Builtin::Text => true,
                _ => false,
            };
            match *args {
                Lst::Nil => if ground {
                    Result::Ok(Option::Some(Const::Type))
                } else {
                    Result::Ok(Option::None)
                },
                Lst::Cons(h, rest) => match *rest {
                    Lst::Nil => match b {
                        Builtin::List => Result::Ok(Option::Some(Const::Type)),
                        Builtin::Optional => Result::Ok(Option::Some(Const::Type)),
                        _ => Result::Ok(Option::None),
                    },
                    _ => Result::Ok(Option::None),
                },
            }
        },
        Value::NeutralVar(l) => if l < size {
            match spec_frame_ty_at_level(frames, size, l) {
                Option::Some(ty) => Result::Ok(
                    match ty {
                        Value::Const(c) => Option::Some(c),
                        _ => Option::None,
                    },
                ),
                Option::None => Result::Ok(Option::None),
            }
        } else {
            Result::Ok(Option::None)
        },
        Value::PiClosure(x, a, c) => match spec_univ_of(fuel, frames, size, *a) {
            Result::Ok(Option::Some(ua)) => if fuel == 0 {
                Result::Err(TypeError { message: TypeMessage::NormalizationDepthExceeded })
            } else if size == usize::MAX {
                Result::Ok(Option::None)
            } else {
                match crate::eval::spec_apply_closure((fuel - 1) as u64, c, Value::NeutralVar(size)) {
                    Result::Ok(body) => {
                        let frames2 = Lst::Cons(
                            TyFrame { name: x, ty: *a, val: Value::NeutralVar(size) },
                            Box::new(frames),
                        );
                        match spec_univ_of((fuel - 1) as u64, frames2, (size + 1) as usize, body) {
                            Result::Ok(Option::Some(ub)) => Result::Ok(
                                Option::Some(spec_function_check(ua, ub)),
                            ),
                            Result::Ok(Option::None) => Result::Ok(Option::None),
                            Result::Err(err) => Result::Err(err),
                        }
                    },
                    Result::Err(err) => Result::Err(err),
                }
            },
            Result::Ok(Option::None) => Result::Ok(Option::None),
            Result::Err(err) => Result::Err(err),
        },
        Value::RecordType(kts, u) => match u {
            Option::Some(k) => Result::Ok(Option::Some(k)),
            Option::None => spec_univ_of_fields(fuel, frames, size, *kts),
        },
        Value::UnionType(kts) => match spec_univ_of_union(fuel, frames, size, *kts) {
            Result::Ok(Option::Some(Option::Some(k))) => Result::Ok(Option::Some(k)),
            Result::Ok(Option::Some(Option::None)) => Result::Ok(Option::Some(Const::Type)),
            Result::Ok(Option::None) => Result::Ok(Option::None),
            Result::Err(err) => Result::Err(err),
        },
        Value::Equivalence(a, b) => Result::Ok(Option::Some(Const::Type)),
        _ => Result::Ok(Option::None),
    }
}

/// Mirror of `univ_of_fields`.
pub open spec fn spec_univ_of_fields(
    fuel: u64,
    frames: Lst<TyFrame>,
    size: usize,
    kts: Lst<(Label, Value)>,
) -> Result<Option<Const>, TypeError>
    decreases fuel, kts, 0int,
{
    match kts {
        Lst::Nil => Result::Ok(Option::Some(Const::Type)),
        Lst::Cons(p, t) => match spec_univ_of(fuel, frames, size, p.1) {
            Result::Ok(Option::Some(c)) => match spec_univ_of_fields(fuel, frames, size, *t) {
                Result::Ok(Option::Some(k)) => Result::Ok(Option::Some(spec_const_max(c, k))),
                Result::Ok(Option::None) => Result::Ok(Option::None),
                Result::Err(err) => Result::Err(err),
            },
            Result::Ok(Option::None) => Result::Ok(Option::None),
            Result::Err(err) => Result::Err(err),
        },
    }
}

/// Mirror of `univ_of_union`.
pub open spec fn spec_univ_of_union(
    fuel: u64,
    frames: Lst<TyFrame>,
    size: usize,
    kts: Lst<(Label, Option<Value>)>,
) -> Result<Option<Option<Const>>, TypeError>
    decreases fuel, kts, 0int,
{
    match kts {
        Lst::Nil => Result::Ok(Option::Some(Option::None)),
        Lst::Cons(p, t) => match p.1 {
            Option::Some(v) => match spec_univ_of(fuel, frames, size, v) {
                Result::Ok(Option::Some(c)) => spec_univ_union_join(
                    fuel,
                    frames,
                    size,
                    Option::Some(c),
                    *t,
                ),
                Result::Ok(Option::None) => Result::Ok(Option::None),
                Result::Err(err) => Result::Err(err),
            },
            Option::None => spec_univ_union_join(fuel, frames, size, Option::None, *t),
        },
    }
}

/// Joining one alternative's universe with the rest of the union's.
pub open spec fn spec_univ_union_join(
    fuel: u64,
    frames: Lst<TyFrame>,
    size: usize,
    here: Option<Const>,
    t: Lst<(Label, Option<Value>)>,
) -> Result<Option<Option<Const>>, TypeError>
    decreases fuel, t, 2int,
{
    match spec_univ_of_union(fuel, frames, size, t) {
        Result::Ok(Option::Some(rest)) => match (here, rest) {
            (Option::Some(a), Option::Some(b)) => if a == b {
                Result::Ok(Option::Some(Option::Some(a)))
            } else {
                Result::Ok(Option::None)
            },
            (Option::Some(a), Option::None) => Result::Ok(Option::Some(Option::Some(a))),
            (Option::None, other) => Result::Ok(Option::Some(other)),
        },
        Result::Ok(Option::None) => Result::Ok(Option::None),
        Result::Err(err) => Result::Err(err),
    }
}

/// Mirror of `text_part_types`.
pub open spec fn spec_text_part_types(env: TyEnv, parts: Lst<InterpolatedTextContents>) -> Result<
    Lst<Value>,
    TypeError,
>
    decreases parts, 1int,
{
    match parts {
        Lst::Nil => Result::Ok(Lst::Nil),
        Lst::Cons(p, t) => match p {
            InterpolatedTextContents::Text(s) => spec_text_part_types(env, *t),
            InterpolatedTextContents::Expr(x) => match spec_type_with(env, *x) {
                Result::Ok(tx) => match spec_get_type(tx) {
                    Result::Ok(x_ty) => match spec_text_part_types(env, *t) {
                        Result::Ok(rest) => Result::Ok(Lst::Cons(x_ty, Box::new(rest))),
                        Result::Err(err) => Result::Err(err),
                    },
                    Result::Err(err) => Result::Err(err),
                },
                Result::Err(err) => Result::Err(err),
            },
        },
    }
}

/// Mirror of `check_text_types`.
pub open spec fn spec_check_text_types(size: usize, tys: Lst<Value>) -> Result<(), TypeError>
    decreases tys,
{
    match tys {
        Lst::Nil => Result::Ok(()),
        Lst::Cons(ty, t) => match crate::eval::spec_conv(
            EVAL_FUEL,
            size,
            ty,
            spec_lit_ty(Builtin::Text),
        ) {
            Result::Ok(same) => if !same {
                Result::Err(TypeError { message: TypeMessage::InvalidTextInterpolation })
            } else {
                spec_check_text_types(size, *t)
            },
            Result::Err(err) => Result::Err(err),
        },
    }
}

/// Mirror of `type_fields`.
pub open spec fn spec_type_fields(env: TyEnv, kvs: Lst<(Label, Expr)>) -> Result<
    Lst<(Label, Value)>,
    TypeError,
>
    decreases kvs, 1int,
{
    match kvs {
        Lst::Nil => Result::Ok(Lst::Nil),
        Lst::Cons(p, t) => match spec_type_with(env, p.1) {
            Result::Ok(tv) => match spec_get_type(tv) {
                Result::Ok(ty) => match spec_type_fields(env, *t) {
                    Result::Ok(rest) => Result::Ok(Lst::Cons((p.0, ty), Box::new(rest))),
                    Result::Err(err) => Result::Err(err),
                },
                Result::Err(err) => Result::Err(err),
            },
            Result::Err(err) => Result::Err(err),
        },
    }
}

/// Mirror of `fields_values`.
pub open spec fn spec_fields_values(kts: Lst<(Label, Value)>) -> Lst<Value>
    decreases kts,
{
    match kts {
        Lst::Nil => Lst::Nil,
        Lst::Cons(p, t) => Lst::Cons(p.1, Box::new(spec_fields_values(*t))),
    }
}

/// Mirror of `union_alt_types`.
pub open spec fn spec_union_alt_types(env: TyEnv, kts: Lst<(Label, Option<Expr>)>) -> Result<
    Lst<(Label, Option<Value>)>,
    TypeError,
>
    decreases kts, 1int,
{
    match kts {
        Lst::Nil => Result::Ok(Lst::Nil),
        Lst::Cons(p, t) => match p.1 {
            Option::Some(x) => match spec_type_with(env, x) {
                Result::Ok(tx) => match spec_get_type(tx) {
                    Result::Ok(x_ty) => match spec_union_alt_types(env, *t) {
                        Result::Ok(rest) => Result::Ok(
                            Lst::Cons((p.0, Option::Some(x_ty)), Box::new(rest)),
                        ),
                        Result::Err(err) => Result::Err(err),
                    },
                    Result::Err(err) => Result::Err(err),
                },
                Result::Err(err) => Result::Err(err),
            },
            Option::None => match spec_union_alt_types(env, *t) {
                Result::Ok(rest) => Result::Ok(Lst::Cons((p.0, Option::None), Box::new(rest))),
                Result::Err(err) => Result::Err(err),
            },
        },
    }
}

/// Mirror of `union_univ_walk`.
pub open spec fn spec_union_univ_walk(
    tys: Lst<(Label, Option<Value>)>,
    k: Option<Const>,
    seen: Lst<Label>,
) -> Result<Option<Const>, TypeError>
    decreases tys,
{
    match tys {
        Lst::Nil => Result::Ok(k),
        Lst::Cons(p, t) => {
            let k2r = match p.1 {
                Option::Some(ty) => match (k, ty) {
                    (Option::None, Value::Const(c)) => Result::Ok(Option::Some(c)),
                    (Option::Some(k1), Value::Const(c)) => if k1 == c {
                        Result::Ok(Option::Some(k1))
                    } else {
                        Result::Err(TypeError { message: TypeMessage::InvalidFieldType })
                    },
                    _ => Result::Err(TypeError { message: TypeMessage::InvalidFieldType }),
                },
                Option::None => Result::Ok(k),
            };
            match k2r {
                Result::Ok(k2) => if lst_contains(seen, p.0) {
                    Result::Err(TypeError { message: TypeMessage::UnionTypeDuplicateField })
                } else {
                    spec_union_univ_walk(*t, k2, Lst::Cons(p.0, Box::new(seen)))
                },
                Result::Err(err) => Result::Err(err),
            }
        },
    }
}

/// Mirror of `list_elem_types`.
pub open spec fn spec_list_elem_types(env: TyEnv, xs: Lst<Expr>) -> Result<Lst<Value>, TypeError>
    decreases xs, 1int,
{
    match xs {
        Lst::Nil => Result::Ok(Lst::Nil),
        Lst::Cons(x, t) => match spec_type_with(env, x) {
            Result::Ok(tx) => match spec_get_type(tx) {
                Result::Ok(x_ty) => match spec_list_elem_types(env, *t) {
                    Result::Ok(rest) => Result::Ok(Lst::Cons(x_ty, Box::new(rest))),
                    Result::Err(err) => Result::Err(err),
                },
                Result::Err(err) => Result::Err(err),
            },
            Result::Err(err) => Result::Err(err),
        },
    }
}

/// Mirror of `check_elems_against`.
pub open spec fn spec_check_elems_against(size: usize, rest: Lst<Value>, ty0: Value) -> Result<
    (),
    TypeError,
>
    decreases rest,
{
    match rest {
        Lst::Nil => Result::Ok(()),
        Lst::Cons(ty, t) => match crate::eval::spec_conv(EVAL_FUEL, size, ty, ty0) {
            Result::Ok(same) => if !same {
                Result::Err(TypeError { message: TypeMessage::InvalidListElement })
            } else {
                spec_check_elems_against(size, *t, ty0)
            },
            Result::Err(err) => Result::Err(err),
        },
    }
}

/// Mirror of `merge_handlers`.
pub open spec fn spec_merge_handlers(
    size: usize,
    handlers: Lst<(Label, Value)>,
    variants: Lst<(Label, Option<Value>)>,
) -> Result<Option<Value>, TypeError>
    decreases handlers, 1int,
{
    match handlers {
        Lst::Nil => Result::Ok(Option::None),
        Lst::Cons(p, t) => match assoc_lookup(variants, p.0) {
            Option::Some(Option::Some(variant_ty)) => match p.1 {
                Value::PiClosure(x, annot, closure) => match crate::eval::spec_conv(
                    EVAL_FUEL,
                    size,
                    variant_ty,
                    *annot,
                ) {
                    Result::Ok(same) => if !same {
                        Result::Err(TypeError { message: TypeMessage::MergeHandlerTypeMismatch })
                    } else {
                        match crate::eval::spec_remove_binder(EVAL_FUEL, closure) {
                            Result::Ok(Option::Some(rt)) => spec_merge_handlers_join(
                                size,
                                rt,
                                *t,
                                variants,
                            ),
                            Result::Ok(Option::None) => Result::Err(
                                TypeError { message: TypeMessage::MergeReturnTypeIsDependent },
                            ),
                            Result::Err(err) => Result::Err(err),
                        }
                    },
                    Result::Err(err) => Result::Err(err),
                },
                _ => Result::Err(TypeError { message: TypeMessage::NotAFunction }),
            },
            Option::Some(Option::None) => spec_merge_handlers_join(size, p.1, *t, variants),
            Option::None => Result::Err(
                TypeError { message: TypeMessage::MergeHandlerMissingVariant },
            ),
        },
    }
}

pub open spec fn spec_merge_handlers_join(
    size: usize,
    ret: Value,
    t: Lst<(Label, Value)>,
    variants: Lst<(Label, Option<Value>)>,
) -> Result<Option<Value>, TypeError>
    decreases t, 2int,
{
    match spec_merge_handlers(size, t, variants) {
        Result::Ok(Option::None) => Result::Ok(Option::Some(ret)),
        Result::Ok(Option::Some(other)) => match crate::eval::spec_conv(EVAL_FUEL, size, ret, other) {
            Result::Ok(same) => if same {
                Result::Ok(Option::Some(ret))
            } else {
                Result::Err(TypeError { message: TypeMessage::MergeHandlerTypeMismatch })
            },
            Result::Err(err) => Result::Err(err),
        },
        Result::Err(err) => Result::Err(err),
    }
}

/// Mirror of `variants_covered`.
pub open spec fn spec_variants_covered(
    variants: Lst<(Label, Option<Value>)>,
    handlers: Lst<(Label, Value)>,
) -> Result<(), TypeError>
    decreases variants,
{
    match variants {
        Lst::Nil => Result::Ok(()),
        Lst::Cons(p, t) => if contains_label(handlers, p.0) {
            spec_variants_covered(*t, handlers)
        } else {
            Result::Err(TypeError { message: TypeMessage::MergeVariantMissingHandler })
        },
    }
}

/// Mirror of `rrtm_check`.
pub open spec fn spec_rrtm_check(
    fuel: u64,
    frames: Lst<TyFrame>,
    size: usize,
    a: Value,
    b: Value,
) -> Result<Const, TypeError>
    decreases a, 0int,
{
    match (a, b) {
        (Value::RecordType(ka, u1), Value::RecordType(kb, u2)) => match spec_rrtm_check_fields(
            fuel,
            frames,
            size,
            *ka,
            *kb,
        ) {
            Result::Ok(u) => match spec_univ_of(fuel, frames, size, a) {
                Result::Ok(Option::Some(ua)) => match spec_univ_of(fuel, frames, size, b) {
                    Result::Ok(Option::Some(ub)) => Result::Ok(spec_const_max(ua, ub)),
                    Result::Ok(Option::None) => Result::Err(
                        TypeError { message: TypeMessage::InvalidFieldType },
                    ),
                    Result::Err(err) => Result::Err(err),
                },
                Result::Ok(Option::None) => Result::Err(
                    TypeError { message: TypeMessage::InvalidFieldType },
                ),
                Result::Err(err) => Result::Err(err),
            },
            Result::Err(err) => Result::Err(err),
        },
        _ => Result::Err(TypeError { message: TypeMessage::RecordTypeMergeRequiresRecordType }),
    }
}

pub open spec fn spec_rrtm_check_fields(
    fuel: u64,
    frames: Lst<TyFrame>,
    size: usize,
    ka: Lst<(Label, Value)>,
    kb: Lst<(Label, Value)>,
) -> Result<(), TypeError>
    decreases ka, 1int,
{
    match ka {
        Lst::Nil => Result::Ok(()),
        Lst::Cons(p, t) => match assoc_lookup(kb, p.0) {
            Option::Some(vb) => match spec_rrtm_check(fuel, frames, size, p.1, vb) {
                Result::Ok(k) => spec_rrtm_check_fields(fuel, frames, size, *t, kb),
                Result::Err(err) => Result::Err(err),
            },
            Option::None => spec_rrtm_check_fields(fuel, frames, size, *t, kb),
        },
    }
}

/// Mirror of `project_type`.
pub open spec fn spec_project_type(kts: Lst<(Label, Value)>, labels: Lst<Label>) -> Result<
    Lst<(Label, Value)>,
    TypeError,
>
    decreases labels,
{
    match labels {
        Lst::Nil => Result::Ok(Lst::Nil),
        Lst::Cons(x, t) => match assoc_lookup(kts, x) {
            Option::None => Result::Err(TypeError { message: TypeMessage::ProjectionMissingEntry }),
            Option::Some(v) => match spec_project_type(kts, *t) {
                Result::Ok(rest) => if contains_label(rest, x) {
                    Result::Err(TypeError { message: TypeMessage::ProjectionDuplicateField })
                } else {
                    Result::Ok(Lst::Cons((x, v), Box::new(rest)))
                },
                Result::Err(err) => Result::Err(err),
            },
        },
    }
}

/// The typing judgment for the non-binder forms, as a function: the exact
/// result `type_one_layer` must produce, one rule per syntactic form, on
/// subexpressions typed by `spec_type_with`.
pub open spec fn spec_type_one_layer(env: TyEnv, e: Expr) -> Result<Value, TypeError>
    decreases e, 2int,
{
    match e {
        Expr::Const(c) => match c {
            Const::Type => Result::Ok(Value::Const(Const::Kind)),
            Const::Kind => Result::Ok(Value::Const(Const::Sort)),
            Const::Sort => Result::Err(TypeError { message: TypeMessage::Sort }),
        },
        Expr::Builtin(b) => Result::Ok(spec_builtin_ty(b)),
        Expr::BoolLit(x) => Result::Ok(spec_lit_ty(Builtin::Bool)),
        Expr::NaturalLit(x) => Result::Ok(spec_lit_ty(Builtin::Natural)),
        Expr::IntegerLit(x) => Result::Ok(spec_lit_ty(Builtin::Integer)),
        Expr::DoubleLit(x) => Result::Ok(spec_lit_ty(Builtin::Double)),
        Expr::TextLit(parts) => spec_tol_text(env, e),
        Expr::EmptyListLit(t) => spec_tol_empty_list(env, e),
        Expr::NEListLit(xs) => spec_tol_ne_list(env, e),
        Expr::SomeLit(x) => spec_tol_some(env, e),
        Expr::RecordLit(kvs) => spec_tol_record_lit(env, e),
        Expr::RecordType(kts) => spec_tol_record_type(env, e),
        Expr::UnionType(kts) => spec_tol_union_type(env, e),
        Expr::Field(scrut, x) => spec_tol_field(env, e),
        Expr::Annot(x, t) => spec_tol_annot(env, e),
        Expr::Assert(t) => spec_tol_assert(env, e),
        Expr::App(f, arg) => spec_tol_app(env, e),
        Expr::BoolIf(c, x, y) => spec_tol_boolif(env, e),
        Expr::BinOp(o, l, r2) => spec_type_binop(env, e),
        Expr::Merge(record, scrut, type_annot) => spec_tol_merge(env, e),
        Expr::Projection(record, labels) => spec_tol_projection(env, e),
        Expr::ToMap(x, t) => Result::Err(TypeError { message: TypeMessage::Unimplemented }),
        Expr::ProjectionByExpr(x, t) => Result::Err(
            TypeError { message: TypeMessage::Unimplemented },
        ),
        Expr::Completion(x, t) => Result::Err(TypeError { message: TypeMessage::Unimplemented }),
        _ => Result::Err(TypeError { message: TypeMessage::Unimplemented }),
    }
}

/// The text-literal rule: every interpolated expression must have type Text.
pub open spec fn spec_tol_text(env: TyEnv, e: Expr) -> Result<Value, TypeError>
    decreases e, 1int,
{
    match e {
        Expr::TextLit(parts) => match spec_text_part_types(env, *parts) {
            Result::Ok(tys) => match spec_check_text_types(env.size, tys) {
                Result::Ok(u) => Result::Ok(spec_lit_ty(Builtin::Text)),
                Result::Err(err) => Result::Err(err),
            },
            Result::Err(err) => Result::Err(err),
        },
        _ => Result::Err(TypeError { message: TypeMessage::Unimplemented }),
    }
}

/// The empty-list rule: the annotation must normalise to `List T`.
pub open spec fn spec_tol_empty_list(env: TyEnv, e: Expr) -> Result<Value, TypeError>
    decreases e, 1int,
{
    match e {
        Expr::EmptyListLit(t) => match spec_type_with(env, *t) {
            Result::Ok(tt) => match crate::eval::spec_eval(EVAL_FUEL, spec_nzenv(env.frames), *t) {
                Result::Ok(t_nf) => match t_nf {
                    Value::AppliedBuiltin(Builtin::List, args) => match *args {
                        Lst::Cons(h, rest) => match *rest {
                            Lst::Nil => Result::Ok(Value::AppliedBuiltin(Builtin::List, args)),
                            _ => Result::Err(TypeError { message: TypeMessage::InvalidListType }),
                        },
                        _ => Result::Err(TypeError { message: TypeMessage::InvalidListType }),
                    },
                    _ => Result::Err(TypeError { message: TypeMessage::InvalidListType }),
                },
                Result::Err(err) => Result::Err(err),
            },
            Result::Err(err) => Result::Err(err),
        },
        _ => Result::Err(TypeError { message: TypeMessage::Unimplemented }),
    }
}

/// The non-empty-list rule: all elements share the first element's type,
/// which must live at universe Type; the result is `List` of it.
pub open spec fn spec_tol_ne_list(env: TyEnv, e: Expr) -> Result<Value, TypeError>
    decreases e, 1int,
{
    match e {
        Expr::NEListLit(xs) => match spec_list_elem_types(env, *xs) {
            Result::Ok(tys) => match tys {
                Lst::Cons(ty0, rest) => match spec_check_elems_against(env.size, *rest, ty0) {
                    Result::Ok(u) => match spec_univ_of(EVAL_FUEL, env.frames, env.size, ty0) {
                        Result::Ok(Option::Some(Const::Type)) => Result::Ok(
                            Value::AppliedBuiltin(
                                Builtin::List,
                                Box::new(Lst::Cons(ty0, Box::new(Lst::Nil))),
                            ),
                        ),
                        Result::Ok(u2) => Result::Err(
                            TypeError { message: TypeMessage::InvalidListType },
                        ),
                        Result::Err(err) => Result::Err(err),
                    },
                    Result::Err(err) => Result::Err(err),
                },
                Lst::Nil => Result::Err(TypeError { message: TypeMessage::InvalidListType }),
            },
            Result::Err(err) => Result::Err(err),
        },
        _ => Result::Err(TypeError { message: TypeMessage::Unimplemented }),
    }
}

/// The `Some` rule: the payload's type must live at universe Type; the
/// result is `Optional` of it.
pub open spec fn spec_tol_some(env: TyEnv, e: Expr) -> Result<Value, TypeError>
    decreases e, 1int,
{
    match e {
        Expr::SomeLit(x) => match spec_type_with(env, *x) {
            Result::Ok(tx) => match spec_get_type(tx) {
                Result::Ok(ty) => match spec_univ_of(EVAL_FUEL, env.frames, env.size, ty) {
                    Result::Ok(Option::Some(Const::Type)) => Result::Ok(
                        Value::AppliedBuiltin(
                            Builtin::Optional,
                            Box::new(Lst::Cons(ty, Box::new(Lst::Nil))),
                        ),
                    ),
                    Result::Ok(u) => Result::Err(
                        TypeError { message: TypeMessage::InvalidOptionalType },
                    ),
                    Result::Err(err) => Result::Err(err),
                },
                Result::Err(err) => Result::Err(err),
            },
            Result::Err(err) => Result::Err(err),
        },
        _ => Result::Err(TypeError { message: TypeMessage::Unimplemented }),
    }
}

/// The record-literal rule: labels distinct, field types valid; the type is
/// the record type of the fields' types.
pub open spec fn spec_tol_record_lit(env: TyEnv, e: Expr) -> Result<Value, TypeError>
    decreases e, 1int,
{
    match e {
        Expr::RecordLit(kvs) => match spec_type_fields(env, *kvs) {
            Result::Ok(kts) => if has_dup_labels(*kvs) {
                Result::Err(TypeError { message: TypeMessage::RecordTypeDuplicateField })
            } else {
                match spec_univ_of_fields(EVAL_FUEL, env.frames, env.size, kts) {
                    Result::Ok(Option::Some(u)) => Result::Ok(
                        Value::RecordType(Box::new(kts), Option::Some(u)),
                    ),
                    Result::Ok(Option::None) => Result::Err(
                        TypeError { message: TypeMessage::InvalidFieldType },
                    ),
                    Result::Err(err) => Result::Err(err),
                }
            },
            Result::Err(err) => Result::Err(err),
        },
        _ => Result::Err(TypeError { message: TypeMessage::Unimplemented }),
    }
}

/// The record-type rule: labels distinct; the universe is the max over the
/// field universes.
pub open spec fn spec_tol_record_type(env: TyEnv, e: Expr) -> Result<Value, TypeError>
    decreases e, 1int,
{
    match e {
        Expr::RecordType(kts) => match spec_type_fields(env, *kts) {
            Result::Ok(tys) => if has_dup_labels(*kts) {
                Result::Err(TypeError { message: TypeMessage::RecordTypeDuplicateField })
            } else {
                match spec_max_univ(spec_fields_values(tys)) {
                    Option::Some(k) => Result::Ok(Value::Const(k)),
                    Option::None => Result::Err(
                        TypeError { message: TypeMessage::InvalidFieldType },
                    ),
                }
            },
            Result::Err(err) => Result::Err(err),
        },
        _ => Result::Err(TypeError { message: TypeMessage::Unimplemented }),
    }
}

/// The union-type rule: labels distinct; all present alternatives share one
/// universe, which classifies the union (`Type` when none carries a type).
pub open spec fn spec_tol_union_type(env: TyEnv, e: Expr) -> Result<Value, TypeError>
    decreases e, 1int,
{
    match e {
        Expr::UnionType(kts) => match spec_union_alt_types(env, *kts) {
            Result::Ok(tys) => match spec_union_univ_walk(tys, Option::None, Lst::Nil) {
                Result::Ok(k) => Result::Ok(
                    Value::Const(
                        match k {
                            Option::Some(k) => k,
                            Option::None => Const::Type,
                        },
                    ),
                ),
                Result::Err(err) => Result::Err(err),
            },
            Result::Err(err) => Result::Err(err),
        },
        _ => Result::Err(TypeError { message: TypeMessage::Unimplemented }),
    }
}

/// The field-selection rule: a record type yields the field's type; a union
/// type yields the alternative or its constructor function; anything else is
/// no record.
pub open spec fn spec_tol_field(env: TyEnv, e: Expr) -> Result<Value, TypeError>
    decreases e, 1int,
{
    match e {
        Expr::Field(scrut, x) => match spec_type_with(env, *scrut) {
            Result::Ok(tscrut) => match spec_get_type(tscrut) {
                Result::Ok(scrut_ty) => match scrut_ty {
                    Value::RecordType(kts, u) => match assoc_lookup(*kts, x) {
                        Option::Some(v) => Result::Ok(v),
                        Option::None => Result::Err(
                            TypeError { message: TypeMessage::MissingRecordField },
                        ),
                    },
                    _ => match crate::eval::spec_eval(EVAL_FUEL, spec_nzenv(env.frames), *scrut) {
                        Result::Ok(scrut_nf) => match scrut_nf {
                            Value::UnionType(kts) => match assoc_lookup(*kts, x) {
                                Option::Some(Option::Some(ty)) => match spec_univ_of(
                                    EVAL_FUEL,
                                    env.frames,
                                    env.size,
                                    ty,
                                ) {
                                    Result::Ok(Option::Some(ku)) => match spec_type_of_function(
                                        Value::Const(ku),
                                        scrut_ty,
                                    ) {
                                        Result::Ok(u) => Result::Ok(
                                            Value::PiClosure(
                                                x,
                                                Box::new(ty),
                                                Closure::ConstClosure(
                                                    Box::new(Value::UnionType(kts)),
                                                ),
                                            ),
                                        ),
                                        Result::Err(err) => Result::Err(err),
                                    },
                                    Result::Ok(Option::None) => Result::Err(
                                        TypeError { message: TypeMessage::InvalidInputType(ty) },
                                    ),
                                    Result::Err(err) => Result::Err(err),
                                },
                                Option::Some(Option::None) => Result::Ok(Value::UnionType(kts)),
                                Option::None => Result::Err(
                                    TypeError { message: TypeMessage::MissingUnionField },
                                ),
                            },
                            _ => Result::Err(TypeError { message: TypeMessage::NotARecord }),
                        },
                        Result::Err(err) => Result::Err(err),
                    },
                },
                Result::Err(err) => Result::Err(err),
            },
            Result::Err(err) => Result::Err(err),
        },
        _ => Result::Err(TypeError { message: TypeMessage::Unimplemented }),
    }
}

/// The annotation rule: the subject's type must convert to the normalised
/// annotation; a mismatch carries both.
pub open spec fn spec_tol_annot(env: TyEnv, e: Expr) -> Result<Value, TypeError>
    decreases e, 1int,
{
    match e {
        Expr::Annot(x, t) => match spec_type_with(env, *x) {
            Result::Ok(tx) => match spec_type_with(env, *t) {
                Result::Ok(tt) => match crate::eval::spec_eval(
                    EVAL_FUEL,
                    spec_nzenv(env.frames),
                    *t,
                ) {
                    Result::Ok(t_nf) => match spec_get_type(tx) {
                        Result::Ok(x_ty) => match crate::eval::spec_conv(
                            EVAL_FUEL,
                            env.size,
                            x_ty,
                            t_nf,
                        ) {
                            Result::Ok(same) => if !same {
                                Result::Err(
                                    TypeError { message: TypeMessage::AnnotMismatch(x_ty, t_nf) },
                                )
                            } else {
                                Result::Ok(x_ty)
                            },
                            Result::Err(err) => Result::Err(err),
                        },
                        Result::Err(err) => Result::Err(err),
                    },
                    Result::Err(err) => Result::Err(err),
                },
                Result::Err(err) => Result::Err(err),
            },
            Result::Err(err) => Result::Err(err),
        },
        _ => Result::Err(TypeError { message: TypeMessage::Unimplemented }),
    }
}

/// The assertion rule: the annotation must normalise to an equivalence of
/// convertible sides, which is then the assertion's type.
pub open spec fn spec_tol_assert(env: TyEnv, e: Expr) -> Result<Value, TypeError>
    decreases e, 1int,
{
    match e {
        Expr::Assert(t) => match spec_type_with(env, *t) {
            Result::Ok(tt) => match crate::eval::spec_eval(EVAL_FUEL, spec_nzenv(env.frames), *t) {
                Result::Ok(t_nf) => match t_nf {
                    Value::Equivalence(a, b) => match crate::eval::spec_conv(
                        EVAL_FUEL,
                        env.size,
                        *a,
                        *b,
                    ) {
                        Result::Ok(same) => if same {
                            Result::Ok(Value::Equivalence(a, b))
                        } else {
                            Result::Err(TypeError { message: TypeMessage::AssertMismatch })
                        },
                        Result::Err(err) => Result::Err(err),
                    },
                    _ => Result::Err(
                        TypeError { message: TypeMessage::AssertMustTakeEquivalence },
                    ),
                },
                Result::Err(err) => Result::Err(err),
            },
            Result::Err(err) => Result::Err(err),
        },
        _ => Result::Err(TypeError { message: TypeMessage::Unimplemented }),
    }
}

/// The application rule: both sides are typed; the function's type must be
/// a Pi, the argument's type must convert to its domain, and the result is
/// the Pi's body closure applied to the normalised argument.
pub open spec fn spec_tol_app(env: TyEnv, e: Expr) -> Result<Value, TypeError>
    decreases e, 1int,
{
    match e {
        Expr::App(f, arg) => match spec_type_with(env, *f) {
            Result::Ok(tf) => match spec_get_type(tf) {
                Result::Ok(f_ty) => match spec_type_with(env, *arg) {
                    Result::Ok(targ) => match spec_get_type(targ) {
                        Result::Ok(arg_ty) => match f_ty {
                            Value::PiClosure(px, annot, closure) => match crate::eval::spec_conv(
                                EVAL_FUEL,
                                env.size,
                                arg_ty,
                                *annot,
                            ) {
                                Result::Ok(same) => if !same {
                                    Result::Err(
                                        TypeError {
                                            message: TypeMessage::FunctionAnnotMismatch(
                                                arg_ty,
                                                *annot,
                                            ),
                                        },
                                    )
                                } else {
                                    match crate::eval::spec_eval(
                                        EVAL_FUEL,
                                        spec_nzenv(env.frames),
                                        *arg,
                                    ) {
                                        Result::Ok(arg_nf) => crate::eval::spec_apply_closure(
                                            EVAL_FUEL,
                                            closure,
                                            arg_nf,
                                        ),
                                        Result::Err(err) => Result::Err(err),
                                    }
                                },
                                Result::Err(err) => Result::Err(err),
                            },
                            _ => Result::Err(TypeError { message: TypeMessage::ApplyToNotPi }),
                        },
                        Result::Err(err) => Result::Err(err),
                    },
                    Result::Err(err) => Result::Err(err),
                },
                Result::Err(err) => Result::Err(err),
            },
            Result::Err(err) => Result::Err(err),
        },
        _ => Result::Err(TypeError { message: TypeMessage::Unimplemented }),
    }
}

/// The conditional rule: all three subexpressions are typed; then the
/// predicate must be Bool and the two branches term-level and convertible,
/// each failing check with its own error.
pub open spec fn spec_tol_boolif(env: TyEnv, e: Expr) -> Result<Value, TypeError>
    decreases e, 1int,
{
    match e {
        Expr::BoolIf(c, x, y) => match spec_type_with(env, *c) {
            Result::Ok(tc) => match spec_get_type(tc) {
                Result::Ok(c_ty) => match spec_type_with(env, *x) {
                    Result::Ok(tx) => match spec_get_type(tx) {
                        Result::Ok(x_ty) => match spec_type_with(env, *y) {
                            Result::Ok(ty2) => match spec_get_type(ty2) {
                                Result::Ok(y_ty) => spec_boolif_judge(env, c_ty, x_ty, y_ty),
                                Result::Err(err) => Result::Err(err),
                            },
                            Result::Err(err) => Result::Err(err),
                        },
                        Result::Err(err) => Result::Err(err),
                    },
                    Result::Err(err) => Result::Err(err),
                },
                Result::Err(err) => Result::Err(err),
            },
            Result::Err(err) => Result::Err(err),
        },
        _ => Result::Err(TypeError { message: TypeMessage::Unimplemented }),
    }
}

/// The checks of the conditional rule, on the three types.
pub open spec fn spec_boolif_judge(env: TyEnv, c_ty: Value, x_ty: Value, y_ty: Value) -> Result<
    Value,
    TypeError,
> {
    match crate::eval::spec_conv(EVAL_FUEL, env.size, c_ty, spec_lit_ty(Builtin::Bool)) {
        Result::Ok(is_bool) => if !is_bool {
            Result::Err(TypeError { message: TypeMessage::InvalidPredicate })
        } else {
            match spec_univ_of(EVAL_FUEL, env.frames, env.size, x_ty) {
                Result::Ok(Option::Some(Const::Type)) => match spec_univ_of(
                    EVAL_FUEL,
                    env.frames,
                    env.size,
                    y_ty,
                ) {
                    Result::Ok(Option::Some(Const::Type)) => match crate::eval::spec_conv(
                        EVAL_FUEL,
                        env.size,
                        x_ty,
                        y_ty,
                    ) {
                        Result::Ok(same) => if !same {
                            Result::Err(TypeError { message: TypeMessage::IfBranchMismatch })
                        } else {
                            Result::Ok(x_ty)
                        },
                        Result::Err(err) => Result::Err(err),
                    },
                    Result::Ok(u) => Result::Err(
                        TypeError { message: TypeMessage::IfBranchMustBeTerm },
                    ),
                    Result::Err(err) => Result::Err(err),
                },
                Result::Ok(u) => Result::Err(TypeError { message: TypeMessage::IfBranchMustBeTerm }),
                Result::Err(err) => Result::Err(err),
            }
        },
        Result::Err(err) => Result::Err(err),
    }
}

/// The `merge` rule: the record, the scrutinee and the annotation (when
/// present) are all typed first; then the handlers must come from a record
/// type and the variants from a union or `Optional`, each handler matching
/// its variant, all return types agreeing, reconciled with the annotation.
pub open spec fn spec_tol_merge(env: TyEnv, e: Expr) -> Result<Value, TypeError>
    decreases e, 1int,
{
    match e {
        Expr::Merge(record, scrut, type_annot) => match spec_type_with(env, *record) {
            Result::Ok(trec) => match spec_get_type(trec) {
                Result::Ok(rec_ty) => match spec_type_with(env, *scrut) {
                    Result::Ok(tscrut) => match spec_get_type(tscrut) {
                        Result::Ok(scrut_ty) => spec_merge_typed_annot(
                            env,
                            rec_ty,
                            scrut_ty,
                            type_annot,
                        ),
                        Result::Err(err) => Result::Err(err),
                    },
                    Result::Err(err) => Result::Err(err),
                },
                Result::Err(err) => Result::Err(err),
            },
            Result::Err(err) => Result::Err(err),
        },
        _ => Result::Err(TypeError { message: TypeMessage::Unimplemented }),
    }
}

/// Type the `merge` annotation when present, then judge.
pub open spec fn spec_merge_typed_annot(
    env: TyEnv,
    rec_ty: Value,
    scrut_ty: Value,
    type_annot: Option<Box<Expr>>,
) -> Result<Value, TypeError>
    decreases type_annot, 1int,
{
    match type_annot {
        Option::Some(t) => match spec_type_with(env, *t) {
            Result::Ok(tt) => spec_merge_judge(env, rec_ty, scrut_ty, type_annot),
            Result::Err(err) => Result::Err(err),
        },
        Option::None => spec_merge_judge(env, rec_ty, scrut_ty, type_annot),
    }
}

/// The `merge` judgment on the already-typed pieces.
pub open spec fn spec_merge_judge(
    env: TyEnv,
    rec_ty: Value,
    scrut_ty: Value,
    type_annot: Option<Box<Expr>>,
) -> Result<Value, TypeError>
    decreases type_annot, 0int,
{
    match rec_ty {
        Value::RecordType(handlers, u) => match spec_merge_variants(scrut_ty) {
            Result::Ok(variants) => match spec_merge_handlers(env.size, *handlers, variants) {
                Result::Ok(inferred) => match spec_variants_covered(variants, *handlers) {
                    Result::Ok(u) => match type_annot {
                        Option::Some(t) => match crate::eval::spec_eval(
                            EVAL_FUEL,
                            spec_nzenv(env.frames),
                            *t,
                        ) {
                            Result::Ok(t_nf) => match inferred {
                                Option::Some(t1) => match crate::eval::spec_conv(
                                    EVAL_FUEL,
                                    env.size,
                                    t1,
                                    t_nf,
                                ) {
                                    Result::Ok(same) => if !same {
                                        Result::Err(
                                            TypeError {
                                                message: TypeMessage::MergeAnnotMismatch,
                                            },
                                        )
                                    } else {
                                        Result::Ok(t1)
                                    },
                                    Result::Err(err) => Result::Err(err),
                                },
                                Option::None => Result::Ok(t_nf),
                            },
                            Result::Err(err) => Result::Err(err),
                        },
                        Option::None => match inferred {
                            Option::Some(t1) => Result::Ok(t1),
                            Option::None => Result::Err(
                                TypeError { message: TypeMessage::MergeEmptyNeedsAnnotation },
                            ),
                        },
                    },
                    Result::Err(err) => Result::Err(err),
                },
                Result::Err(err) => Result::Err(err),
            },
            Result::Err(err) => Result::Err(err),
        },
        _ => Result::Err(TypeError { message: TypeMessage::Merge1ArgMustBeRecord }),
    }
}

/// The projection rule: the scrutinee's type is a record type holding every
/// requested label, each requested once.
pub open spec fn spec_tol_projection(env: TyEnv, e: Expr) -> Result<Value, TypeError>
    decreases e, 1int,
{
    match e {
        Expr::Projection(record, labels) => match spec_type_with(env, *record) {
            Result::Ok(trec) => match spec_get_type(trec) {
                Result::Ok(rec_ty) => match rec_ty {
                    Value::RecordType(kts, u) => match spec_project_type(*kts, labels) {
                        Result::Ok(new_kts) => match u {
                            Option::Some(k) => Result::Ok(
                                Value::RecordType(Box::new(new_kts), Option::Some(k)),
                            ),
                            Option::None => match spec_univ_of_fields(
                                EVAL_FUEL,
                                env.frames,
                                env.size,
                                *kts,
                            ) {
                                Result::Ok(src_u) => Result::Ok(
                                    Value::RecordType(Box::new(new_kts), src_u),
                                ),
                                Result::Err(err) => Result::Err(err),
                            },
                        },
                        Result::Err(err) => Result::Err(err),
                    },
                    _ => Result::Err(TypeError { message: TypeMessage::ProjectionMustBeRecord }),
                },
                Result::Err(err) => Result::Err(err),
            },
            Result::Err(err) => Result::Err(err),
        },
        _ => Result::Err(TypeError { message: TypeMessage::Unimplemented }),
    }
}

/// The union variants a `merge` scrutinee offers: a union type's own, or
/// `< None | Some : T >` for `Optional T`.
pub open spec fn spec_merge_variants(scrut_ty: Value) -> Result<
    Lst<(Label, Option<Value>)>,
    TypeError,
> {
    match scrut_ty {
        Value::UnionType(kts) => Result::Ok(*kts),
        Value::AppliedBuiltin(Builtin::Optional, args) => match *args {
            Lst::Cons(ty, rest) => match *rest {
                Lst::Nil => Result::Ok(
                    Lst::Cons(
                        (Label { id: 0 }, Option::None),
                        Box::new(
                            Lst::Cons((Label { id: 1 }, Option::Some(ty)), Box::new(Lst::Nil)),
                        ),
                    ),
                ),
                _ => Result::Err(
                    TypeError { message: TypeMessage::Merge2ArgMustBeUnionOrOptional },
                ),
            },
            _ => Result::Err(TypeError { message: TypeMessage::Merge2ArgMustBeUnionOrOptional }),
        },
        _ => Result::Err(TypeError { message: TypeMessage::Merge2ArgMustBeUnionOrOptional }),
    }
}

/// Mirror of the binary-operator judgments, one rule per operator.
pub open spec fn spec_type_binop(env: TyEnv, e: Expr) -> Result<Value, TypeError>
    decreases e, 1int,
{
    match e {
        Expr::BinOp(o, l, r2) => match o {
            BinOp::RightBiasedRecordMerge => spec_tol_rb_merge(env, e),
            BinOp::RecursiveRecordMerge => spec_tol_rr_merge(env, e),
            BinOp::RecursiveRecordTypeMerge => spec_tol_rrtm(env, e),
            BinOp::ListAppend => spec_tol_list_append(env, e),
            BinOp::Equivalence => spec_tol_equivalence(env, e),
            BinOp::ImportAlt => Result::Err(TypeError { message: TypeMessage::Unimplemented }),
            _ => spec_tol_simple_binop(env, e),
        },
        _ => Result::Err(TypeError { message: TypeMessage::Unimplemented }),
    }
}

/// The right-biased record merge rule: both record types; the result merges
/// them with the right fields winning, at a valid universe.
pub open spec fn spec_tol_rb_merge(env: TyEnv, e: Expr) -> Result<Value, TypeError>
    decreases e, 0int,
{
    match e {
        Expr::BinOp(o, l, r2) => match spec_type_with(env, *l) {
            Result::Ok(tl) => match spec_type_with(env, *r2) {
                Result::Ok(tr) => match spec_get_type(tl) {
                    Result::Ok(l_ty) => match spec_get_type(tr) {
                        Result::Ok(r_ty) => match (l_ty, r_ty) {
                            (Value::RecordType(kts_l, u1), Value::RecordType(kts_r, u2)) => {
                                let kts = spec_merge_maps(*kts_l, *kts_r, true);
                                match spec_univ_of_fields(EVAL_FUEL, env.frames, env.size, kts) {
                                    Result::Ok(Option::Some(u)) => Result::Ok(
                                        Value::RecordType(Box::new(kts), Option::Some(u)),
                                    ),
                                    Result::Ok(Option::None) => Result::Err(
                                        TypeError { message: TypeMessage::InvalidFieldType },
                                    ),
                                    Result::Err(err) => Result::Err(err),
                                }
                            },
                            _ => Result::Err(TypeError { message: TypeMessage::MustCombineRecord }),
                        },
                        Result::Err(err) => Result::Err(err),
                    },
                    Result::Err(err) => Result::Err(err),
                },
                Result::Err(err) => Result::Err(err),
            },
            Result::Err(err) => Result::Err(err),
        },
        _ => Result::Err(TypeError { message: TypeMessage::Unimplemented }),
    }
}

/// The recursive record merge rule: the operands' record types must merge
/// recursively; the result is their recursive union.
pub open spec fn spec_tol_rr_merge(env: TyEnv, e: Expr) -> Result<Value, TypeError>
    decreases e, 0int,
{
    match e {
        Expr::BinOp(o, l, r2) => match spec_type_with(env, *l) {
            Result::Ok(tl) => match spec_type_with(env, *r2) {
                Result::Ok(tr) => match spec_get_type(tl) {
                    Result::Ok(l_ty) => match spec_get_type(tr) {
                        Result::Ok(r_ty) => match spec_rrtm_check(
                            EVAL_FUEL,
                            env.frames,
                            env.size,
                            l_ty,
                            r_ty,
                        ) {
                            Result::Ok(k) => match (l_ty, r_ty) {
                                (Value::RecordType(kts_l, u1), Value::RecordType(kts_r, u2)) => Result::Ok(
                                    Value::RecordType(
                                        Box::new(
                                            crate::eval::spec_rrtm_merge(*kts_l, *kts_r, *kts_l),
                                        ),
                                        Option::Some(k),
                                    ),
                                ),
                                _ => Result::Err(
                                    TypeError {
                                        message: TypeMessage::RecordTypeMergeRequiresRecordType,
                                    },
                                ),
                            },
                            Result::Err(err) => Result::Err(err),
                        },
                        Result::Err(err) => Result::Err(err),
                    },
                    Result::Err(err) => Result::Err(err),
                },
                Result::Err(err) => Result::Err(err),
            },
            Result::Err(err) => Result::Err(err),
        },
        _ => Result::Err(TypeError { message: TypeMessage::Unimplemented }),
    }
}

/// The recursive record-type merge rule: both operands normalise to record
/// types, recursively mergeable; the result is their joint universe.
pub open spec fn spec_tol_rrtm(env: TyEnv, e: Expr) -> Result<Value, TypeError>
    decreases e, 0int,
{
    match e {
        Expr::BinOp(o, l, r2) => match spec_type_with(env, *l) {
            Result::Ok(tl) => match spec_type_with(env, *r2) {
                Result::Ok(tr) => match crate::eval::spec_eval(
                    EVAL_FUEL,
                    spec_nzenv(env.frames),
                    *l,
                ) {
                    Result::Ok(l_nf) => match crate::eval::spec_eval(
                        EVAL_FUEL,
                        spec_nzenv(env.frames),
                        *r2,
                    ) {
                        Result::Ok(r_nf) => match spec_rrtm_check(
                            EVAL_FUEL,
                            env.frames,
                            env.size,
                            l_nf,
                            r_nf,
                        ) {
                            Result::Ok(k) => Result::Ok(Value::Const(k)),
                            Result::Err(err) => Result::Err(err),
                        },
                        Result::Err(err) => Result::Err(err),
                    },
                    Result::Err(err) => Result::Err(err),
                },
                Result::Err(err) => Result::Err(err),
            },
            Result::Err(err) => Result::Err(err),
        },
        _ => Result::Err(TypeError { message: TypeMessage::Unimplemented }),
    }
}

/// The list-append rule: both sides share one `List` type.
pub open spec fn spec_tol_list_append(env: TyEnv, e: Expr) -> Result<Value, TypeError>
    decreases e, 0int,
{
    match e {
        Expr::BinOp(o, l, r2) => match spec_type_with(env, *l) {
            Result::Ok(tl) => match spec_type_with(env, *r2) {
                Result::Ok(tr) => match spec_get_type(tl) {
                    Result::Ok(l_ty) => match spec_get_type(tr) {
                        Result::Ok(r_ty) => match l_ty {
                            Value::AppliedBuiltin(Builtin::List, args) => match crate::eval::spec_conv(
                                EVAL_FUEL,
                                env.size,
                                Value::AppliedBuiltin(Builtin::List, args),
                                r_ty,
                            ) {
                                Result::Ok(same) => if !same {
                                    Result::Err(
                                        TypeError { message: TypeMessage::BinOpTypeMismatch },
                                    )
                                } else {
                                    Result::Ok(Value::AppliedBuiltin(Builtin::List, args))
                                },
                                Result::Err(err) => Result::Err(err),
                            },
                            _ => Result::Err(TypeError { message: TypeMessage::BinOpTypeMismatch }),
                        },
                        Result::Err(err) => Result::Err(err),
                    },
                    Result::Err(err) => Result::Err(err),
                },
                Result::Err(err) => Result::Err(err),
            },
            Result::Err(err) => Result::Err(err),
        },
        _ => Result::Err(TypeError { message: TypeMessage::Unimplemented }),
    }
}

/// The equivalence rule: both sides share one term-level type; the
/// equivalence lives in `Type`.
pub open spec fn spec_tol_equivalence(env: TyEnv, e: Expr) -> Result<Value, TypeError>
    decreases e, 0int,
{
    match e {
        Expr::BinOp(o, l, r2) => match spec_type_with(env, *l) {
            Result::Ok(tl) => match spec_type_with(env, *r2) {
                Result::Ok(tr) => match spec_get_type(tl) {
                    Result::Ok(l_ty) => match spec_get_type(tr) {
                        Result::Ok(r_ty) => match crate::eval::spec_conv(
                            EVAL_FUEL,
                            env.size,
                            l_ty,
                            r_ty,
                        ) {
                            Result::Ok(same) => if !same {
                                Result::Err(
                                    TypeError { message: TypeMessage::EquivalenceTypeMismatch },
                                )
                            } else {
                                match spec_univ_of(EVAL_FUEL, env.frames, env.size, l_ty) {
                                    Result::Ok(Option::Some(Const::Type)) => Result::Ok(
                                        Value::Const(Const::Type),
                                    ),
                                    Result::Ok(u) => Result::Err(
                                        TypeError {
                                            message: TypeMessage::EquivalenceArgumentsMustBeTerms,
                                        },
                                    ),
                                    Result::Err(err) => Result::Err(err),
                                }
                            },
                            Result::Err(err) => Result::Err(err),
                        },
                        Result::Err(err) => Result::Err(err),
                    },
                    Result::Err(err) => Result::Err(err),
                },
                Result::Err(err) => Result::Err(err),
            },
            Result::Err(err) => Result::Err(err),
        },
        _ => Result::Err(TypeError { message: TypeMessage::Unimplemented }),
    }
}

/// The rule for the boolean, arithmetic and text operators: both operands at
/// the operator's builtin type, which is also the result.
pub open spec fn spec_tol_simple_binop(env: TyEnv, e: Expr) -> Result<Value, TypeError>
    decreases e, 0int,
{
    match e {
        Expr::BinOp(o, l, r2) => {
            let t = spec_lit_ty(
                match o {
                    BinOp::BoolAnd => Builtin::Bool,
                    BinOp::BoolOr => Builtin::Bool,
                    BinOp::BoolEQ => Builtin::Bool,
                    BinOp::BoolNE => Builtin::Bool,
                    BinOp::NaturalPlus => Builtin::Natural,
                    BinOp::NaturalTimes => Builtin::Natural,
                    _ => Builtin::Text,
                },
            );
            match spec_type_with(env, *l) {
                Result::Ok(tl) => match spec_type_with(env, *r2) {
                    Result::Ok(tr) => match spec_get_type(tl) {
                        Result::Ok(l_ty) => match spec_get_type(tr) {
                            Result::Ok(r_ty) => match crate::eval::spec_conv(
                                EVAL_FUEL,
                                env.size,
                                l_ty,
                                t,
                            ) {
                                Result::Ok(same_l) => if !same_l {
                                    Result::Err(
                                        TypeError { message: TypeMessage::BinOpTypeMismatch },
                                    )
                                } else {
                                    match crate::eval::spec_conv(EVAL_FUEL, env.size, r_ty, t) {
                                        Result::Ok(same_r) => if !same_r {
                                            Result::Err(
                                                TypeError {
                                                    message: TypeMessage::BinOpTypeMismatch,
                                                },
                                            )
                                        } else {
                                            Result::Ok(t)
                                        },
                                        Result::Err(err) => Result::Err(err),
                                    }
                                },
                                Result::Err(err) => Result::Err(err),
                            },
                            Result::Err(err) => Result::Err(err),
                        },
                        Result::Err(err) => Result::Err(err),
                    },
                    Result::Err(err) => Result::Err(err),
                },
                Result::Err(err) => Result::Err(err),
            }
        },
        _ => Result::Err(TypeError { message: TypeMessage::Unimplemented }),
    }
}

/// The typing judgment as a function: the exact annotated result `type_with`
/// must produce for every resolved expression.
pub open spec fn spec_type_with(env: TyEnv, e: Expr) -> Result<TyExpr, TypeError>
    decreases e, 4int,
{
    match e {
        Expr::Var(v) => match spec_tyenv_lookup(env.frames, v.name, v.idx as nat) {
            Option::Some(p) => Result::Ok(TyExpr { expr: e, ty: Option::Some(p.1) }),
            Option::None => Result::Err(TypeError { message: TypeMessage::UnboundVariable(v) }),
        },
        Expr::Lam(x, a, b) => spec_tw_lam(env, e),
        Expr::Pi(x, a, b) => spec_tw_pi(env, e),
        Expr::Let(x, t, v, b) => spec_tw_let(env, e),
        Expr::Const(c) => if c == Const::Sort {
            Result::Ok(TyExpr { expr: e, ty: Option::None })
        } else {
            match spec_type_one_layer(env, e) {
                Result::Ok(ty) => Result::Ok(TyExpr { expr: e, ty: Option::Some(ty) }),
                Result::Err(err) => Result::Err(err),
            }
        },
        Expr::Embed(t) => Result::Ok(TyExpr { expr: e, ty: t.ty }),
        Expr::Import(i) => Result::Err(TypeError { message: TypeMessage::Unimplemented }),
        _ => match spec_type_one_layer(env, e) {
            Result::Ok(ty) => Result::Ok(TyExpr { expr: e, ty: Option::Some(ty) }),
            Result::Err(err) => Result::Err(err),
        },
    }
}

/// The lambda rule: the annotation is a type at some universe, the body is
/// typed under the extended environment, and the result is the Pi of the
/// normalised annotation and the body's type, abstracted at this level.
pub open spec fn spec_tw_lam(env: TyEnv, e: Expr) -> Result<TyExpr, TypeError>
    decreases e, 3int,
{
    match e {
        Expr::Lam(x, a, b) => match spec_type_with(env, *a) {
            Result::Ok(ta) => match crate::eval::spec_eval(EVAL_FUEL, spec_nzenv(env.frames), *a) {
                Result::Ok(a_nf) => match spec_insert_type(env, x, a_nf) {
                    Result::Ok(env2) => match spec_type_with(env2, *b) {
                        Result::Ok(tb) => match spec_get_type(tb) {
                            Result::Ok(b_ty) => match spec_get_type(ta) {
                                Result::Ok(a_ty) => match a_ty {
                                    Value::Const(ks) => match spec_univ_of(
                                        EVAL_FUEL,
                                        env2.frames,
                                        env2.size,
                                        b_ty,
                                    ) {
                                        Result::Ok(Option::Some(kt)) => Result::Ok(
                                            TyExpr {
                                                expr: e,
                                                ty: Option::Some(
                                                    Value::PiClosure(
                                                        x,
                                                        Box::new(a_nf),
                                                        Closure::ValClosure(
                                                            env.size,
                                                            Box::new(b_ty),
                                                        ),
                                                    ),
                                                ),
                                            },
                                        ),
                                        Result::Ok(Option::None) => Result::Err(
                                            TypeError {
                                                message: TypeMessage::InvalidOutputType(b_ty),
                                            },
                                        ),
                                        Result::Err(err) => Result::Err(err),
                                    },
                                    _ => Result::Err(
                                        TypeError { message: TypeMessage::InvalidInputType(a_ty) },
                                    ),
                                },
                                Result::Err(err) => Result::Err(err),
                            },
                            Result::Err(err) => Result::Err(err),
                        },
                        Result::Err(err) => Result::Err(err),
                    },
                    Result::Err(err) => Result::Err(err),
                },
                Result::Err(err) => Result::Err(err),
            },
            Result::Err(err) => Result::Err(err),
        },
        _ => Result::Err(TypeError { message: TypeMessage::Unimplemented }),
    }
}

/// The Pi rule: both the domain's and the codomain's types are universes;
/// the Pi lives at their function-check.
pub open spec fn spec_tw_pi(env: TyEnv, e: Expr) -> Result<TyExpr, TypeError>
    decreases e, 3int,
{
    match e {
        Expr::Pi(x, a, b) => match spec_type_with(env, *a) {
            Result::Ok(ta) => match crate::eval::spec_eval(EVAL_FUEL, spec_nzenv(env.frames), *a) {
                Result::Ok(a_nf) => match spec_insert_type(env, x, a_nf) {
                    Result::Ok(env2) => match spec_type_with(env2, *b) {
                        Result::Ok(tb) => match spec_get_type(ta) {
                            Result::Ok(a_ty) => match spec_get_type(tb) {
                                Result::Ok(b_ty) => match a_ty {
                                    Value::Const(ks) => match b_ty {
                                        Value::Const(kt) => Result::Ok(
                                            TyExpr {
                                                expr: e,
                                                ty: Option::Some(
                                                    Value::Const(spec_function_check(ks, kt)),
                                                ),
                                            },
                                        ),
                                        _ => Result::Err(
                                            TypeError {
                                                message: TypeMessage::InvalidOutputType(b_ty),
                                            },
                                        ),
                                    },
                                    _ => Result::Err(
                                        TypeError { message: TypeMessage::InvalidInputType(a_ty) },
                                    ),
                                },
                                Result::Err(err) => Result::Err(err),
                            },
                            Result::Err(err) => Result::Err(err),
                        },
                        Result::Err(err) => Result::Err(err),
                    },
                    Result::Err(err) => Result::Err(err),
                },
                Result::Err(err) => Result::Err(err),
            },
            Result::Err(err) => Result::Err(err),
        },
        _ => Result::Err(TypeError { message: TypeMessage::Unimplemented }),
    }
}

/// The node shape the typechecker records for each expression: a `let`
/// loses its annotation slot, which is redundant once the bound value is
/// typed; every other node is recorded as written.
pub open spec fn spec_recorded(e: Expr) -> Expr {
    match e {
        Expr::Let(x, t, v, b) => Expr::Let(x, Option::None, v, b),
        _ => e,
    }
}

/// The `let` rule: the bound value is typed (checked against its annotation
/// when present), the body is typed with the normalised value in scope, and
/// the whole inherits the body's (possibly absent) type.
pub open spec fn spec_tw_let(env: TyEnv, e: Expr) -> Result<TyExpr, TypeError>
    decreases e, 3int,
{
    match e {
        Expr::Let(x, t, v, b) => match spec_type_with(env, *v) {
            Result::Ok(tv) => match spec_get_type(tv) {
                Result::Ok(v_ty) => match spec_let_annot(env, v_ty, t) {
                    Result::Ok(u) => match crate::eval::spec_eval(
                        EVAL_FUEL,
                        spec_nzenv(env.frames),
                        *v,
                    ) {
                        Result::Ok(v_nf) => match spec_insert_value(env, x, v_nf, v_ty) {
                            Result::Ok(env2) => match spec_type_with(env2, *b) {
                                Result::Ok(tb) => Result::Ok(
                                    TyExpr {
                                        expr: Expr::Let(x, Option::None, v, b),
                                        ty: tb.ty,
                                    },
                                ),
                                Result::Err(err) => Result::Err(err),
                            },
                            Result::Err(err) => Result::Err(err),
                        },
                        Result::Err(err) => Result::Err(err),
                    },
                    Result::Err(err) => Result::Err(err),
                },
                Result::Err(err) => Result::Err(err),
            },
            Result::Err(err) => Result::Err(err),
        },
        _ => Result::Err(TypeError { message: TypeMessage::Unimplemented }),
    }
}

/// Checking an expression against its own synthesised type succeeds and is
/// idempotent, stated at the judgment: when the synthesised type is a
/// first-order value and the annotation expression evaluates back to exactly
/// that type, annotating changes nothing — the annotated expression
/// typechecks, with the same type and no new error. (The data model carries
/// no value-to-expression rendering, so "the type, written as an
/// expression" is any annotation that evaluates to the synthesised type.)
pub proof fn lemma_annot_idempotent(env: TyEnv, x: Expr, t: Expr, ty: Value)
    requires
        spec_type_with(env, x) matches Result::Ok(tx) && tx.ty == Option::Some(ty),
        spec_type_with(env, t) is Ok,
        crate::eval::spec_eval(EVAL_FUEL, spec_nzenv(env.frames), t) == Result::<
            Value,
            TypeError,
        >::Ok(ty),
        crate::eval::first_order(ty),
    ensures
        spec_type_with(env, Expr::Annot(Box::new(x), Box::new(t))) == Result::<
            TyExpr,
            TypeError,
        >::Ok(TyExpr { expr: Expr::Annot(Box::new(x), Box::new(t)), ty: Option::Some(ty) }),
{
    crate::eval::lemma_conv_refl(EVAL_FUEL, env.size, ty);
    let e = Expr::Annot(Box::new(x), Box::new(t));
    assert(spec_type_with(env, e) == (match spec_type_one_layer(env, e) {
        Result::Ok(ty2) => Result::<TyExpr, TypeError>::Ok(
            TyExpr { expr: e, ty: Option::Some(ty2) },
        ),
        Result::Err(err) => Result::<TyExpr, TypeError>::Err(err),
    }));
    assert(spec_type_one_layer(env, e) == spec_tol_annot(env, e));
}

/// The annotation check of a `let`: when an annotation is present, its
/// normal form must convert to the bound value's type.
pub open spec fn spec_let_annot(env: TyEnv, v_ty: Value, t: Option<Box<Expr>>) -> Result<
    (),
    TypeError,
>
    decreases t, 0int,
{
    match t {
        Option::Some(t) => match spec_type_with(env, *t) {
            Result::Ok(tt) => match crate::eval::spec_eval(EVAL_FUEL, spec_nzenv(env.frames), *t) {
                Result::Ok(t_nf) => match crate::eval::spec_conv(EVAL_FUEL, env.size, v_ty, t_nf) {
                    Result::Ok(same) => if !same {
                        Result::Err(TypeError { message: TypeMessage::AnnotMismatch(v_ty, t_nf) })
                    } else {
                        Result::Ok(())
                    },
                    Result::Err(err) => Result::Err(err),
                },
                Result::Err(err) => Result::Err(err),
            },
            Result::Err(err) => Result::Err(err),
        },
        Option::None => Result::Ok(()),
    }
}
} // verus!
