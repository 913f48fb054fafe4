//! Evaluation to weak-head normal form, closure application, and conversion
//! checking (judgmental equality of values).
//!
//! Dhall terms reaching the evaluator are not yet known well-typed, so
//! reduction carries a fuel budget: each closure application spends one unit,
//! and an exhausted budget surfaces as `NormalizationDepthExceeded`. Whatever
//! evaluation cannot reduce is left as a neutral application or a residual
//! term rather than an error.

use vstd::prelude::*;
use crate::syntax::{
    assoc_lookup, contains_label, has_dup_labels, lst_len, BinOp, Builtin, Const, Expr,
    InterpolatedTextContents, Label, Lst,
};
use crate::error::{mkerr, TypeError, TypeMessage};
use crate::value::{
    env_clone, expr_clone, value_clone, value_list_clone, Closure, EnvItem, TextValPart, Value,
};

verus! {

/// The interned label the parser reserves for `None`.
pub fn none_label() -> (r: Label)
    ensures
        r == (Label { id: 0 }),
{
    Label { id: 0 }
}

/// The interned label the parser reserves for `Some`.
pub fn some_label() -> (r: Label)
    ensures
        r == (Label { id: 1 }),
{
    Label { id: 1 }
}

/// The value an evaluation environment binds a variable to.
pub open spec fn spec_env_lookup(env: Lst<EnvItem>, name: Label, idx: nat) -> Option<Value>
    decreases env,
{
    match env {
        Lst::Nil => Option::None,
        Lst::Cons(item, t) => if item.name == name {
            if idx == 0 {
                Option::Some(item.val)
            } else {
                spec_env_lookup(*t, name, (idx - 1) as nat)
            }
        } else {
            spec_env_lookup(*t, name, idx)
        },
    }
}

fn env_lookup(env: &Lst<EnvItem>, name: Label, idx: usize) -> (r: Option<Value>)
    ensures
        r == spec_env_lookup(*env, name, idx as nat),
    decreases *env,
{
    match env {
        Lst::Nil => Option::None,
        Lst::Cons(item, t) => {
            if item.name == name {
                if idx == 0 {
                    Option::Some(value_clone(&item.val))
                } else {
                    env_lookup(t, name, idx - 1)
                }
            } else {
                env_lookup(t, name, idx)
            }
        },
    }
}

/// `l` with `v` appended at the end.
pub open spec fn lst_snoc<T>(l: Lst<T>, v: T) -> Lst<T>
    decreases l,
{
    match l {
        Lst::Nil => Lst::Cons(v, Box::new(Lst::Nil)),
        Lst::Cons(h, t) => Lst::Cons(h, Box::new(lst_snoc(*t, v))),
    }
}

fn values_snoc(l: &Lst<Value>, v: Value) -> (r: Lst<Value>)
    ensures
        r == lst_snoc(*l, v),
    decreases *l,
{
    match l {
        Lst::Nil => Lst::Cons(v, Box::new(Lst::Nil)),
        Lst::Cons(h, t) => Lst::Cons(value_clone(h), Box::new(values_snoc(t, v))),
    }
}

fn values_append(a: &Lst<Value>, b: &Lst<Value>) -> (r: Lst<Value>)
    ensures
        r == spec_values_append(*a, *b),
    decreases *a,
{
    match a {
        Lst::Nil => value_list_clone(b),
        Lst::Cons(h, t) => Lst::Cons(value_clone(h), Box::new(values_append(t, b))),
    }
}

fn textval_append(a: &Lst<TextValPart>, b: &Lst<TextValPart>) -> (r: Lst<TextValPart>)
    ensures
        r == spec_textval_append(*a, *b),
    decreases *a,
{
    match a {
        Lst::Nil => crate::value::text_val_clone(b),
        Lst::Cons(h, t) => Lst::Cons(
            match h {
                TextValPart::Chunk(s) => TextValPart::Chunk(*s),
                TextValPart::Embedded(v) => TextValPart::Embedded(value_clone(v)),
            },
            Box::new(textval_append(t, b)),
        ),
    }
}

/// The value a record-of-values associates with `x`, if any.
pub fn valfields_get(l: &Lst<(Label, Value)>, x: Label) -> (r: Option<Value>)
    ensures
        r == assoc_lookup(*l, x),
    decreases *l,
{
    match l {
        Lst::Nil => Option::None,
        Lst::Cons(p, t) => {
            if p.0 == x {
                Option::Some(value_clone(&p.1))
            } else {
                valfields_get(t, x)
            }
        },
    }
}

pub fn valfields_contains(l: &Lst<(Label, Value)>, x: Label) -> (r: bool)
    ensures
        r == contains_label(*l, x),
    decreases *l,
{
    match l {
        Lst::Nil => false,
        Lst::Cons(p, t) => {
            if p.0 == x {
                true
            } else {
                valfields_contains(t, x)
            }
        },
    }
}

/// The (possibly absent) type a union-of-values associates with alternative
/// `x`: `None` when the alternative is missing, `Some(t)` when present.
pub fn valunion_get(l: &Lst<(Label, Option<Value>)>, x: Label) -> (r: Option<Option<Value>>)
    ensures
        r == assoc_lookup(*l, x),
    decreases *l,
{
    match l {
        Lst::Nil => Option::None,
        Lst::Cons(p, t) => {
            if p.0 == x {
                Option::Some(
                    match &p.1 {
                        Option::Some(v) => Option::Some(value_clone(v)),
                        Option::None => Option::None,
                    },
                )
            } else {
                valunion_get(t, x)
            }
        },
    }
}

pub fn valunion_contains(l: &Lst<(Label, Option<Value>)>, x: Label) -> (r: bool)
    ensures
        r == contains_label(*l, x),
    decreases *l,
{
    match l {
        Lst::Nil => false,
        Lst::Cons(p, t) => {
            if p.0 == x {
                true
            } else {
                valunion_contains(t, x)
            }
        },
    }
}

/// Replace the neutral variable at level `l` by `repl` everywhere in `v`.
/// Levels are absolute, so no renumbering is needed.
pub fn subst_value(l: usize, repl: &Value, v: &Value) -> (r: Value)
    ensures
        r == spec_subst_value(l, *repl, *v),
    decreases *v,
{
    match v {
        Value::Const(c) => Value::Const(*c),
        Value::AppliedBuiltin(b, args) => Value::AppliedBuiltin(
            *b,
            Box::new(subst_values(l, repl, args)),
        ),
        Value::NeutralVar(l2) => {
            if *l2 == l {
                value_clone(repl)
            } else {
                Value::NeutralVar(*l2)
            }
        },
        Value::NeutralApp(f, a) => Value::NeutralApp(
            Box::new(subst_value(l, repl, f)),
            Box::new(subst_value(l, repl, a)),
        ),
        Value::Lam(x, a, c) => Value::Lam(
            *x,
            Box::new(subst_value(l, repl, a)),
            subst_closure(l, repl, c),
        ),
        Value::PiClosure(x, a, c) => Value::PiClosure(
            *x,
            Box::new(subst_value(l, repl, a)),
            subst_closure(l, repl, c),
        ),
        Value::BoolLit(b) => Value::BoolLit(*b),
        Value::NaturalLit(n) => Value::NaturalLit(*n),
        Value::IntegerLit(n) => Value::IntegerLit(*n),
        Value::DoubleLit(n) => Value::DoubleLit(*n),
        Value::TextLit(parts) => Value::TextLit(Box::new(subst_text(l, repl, parts))),
        Value::EmptyListLit(t) => Value::EmptyListLit(Box::new(subst_value(l, repl, t))),
        Value::NEListLit(xs) => Value::NEListLit(Box::new(subst_values(l, repl, xs))),
        Value::SomeLit(x) => Value::SomeLit(Box::new(subst_value(l, repl, x))),
        Value::RecordLit(kvs) => Value::RecordLit(Box::new(subst_fields(l, repl, kvs))),
        Value::RecordType(kts, u) => Value::RecordType(Box::new(subst_fields(l, repl, kts)), *u),
        Value::UnionType(kts) => Value::UnionType(Box::new(subst_union(l, repl, kts))),
        Value::Equivalence(a, b) => Value::Equivalence(
            Box::new(subst_value(l, repl, a)),
            Box::new(subst_value(l, repl, b)),
        ),
        Value::Residual(env, e) => Value::Residual(
            Box::new(subst_env(l, repl, env)),
            Box::new(expr_clone(e)),
        ),
    }
}

fn subst_values(l: usize, repl: &Value, vs: &Lst<Value>) -> (r: Lst<Value>)
    ensures
        r == spec_subst_values(l, *repl, *vs),
    decreases *vs,
{
    match vs {
        Lst::Nil => Lst::Nil,
        Lst::Cons(h, t) => Lst::Cons(subst_value(l, repl, h), Box::new(subst_values(l, repl, t))),
    }
}

fn subst_fields(l: usize, repl: &Value, fs: &Lst<(Label, Value)>) -> (r: Lst<(Label, Value)>)
    ensures
        r == spec_subst_fields(l, *repl, *fs),
    decreases *fs,
{
    match fs {
        Lst::Nil => Lst::Nil,
        Lst::Cons(p, t) => Lst::Cons(
            (p.0, subst_value(l, repl, &p.1)),
            Box::new(subst_fields(l, repl, t)),
        ),
    }
}

fn subst_union(l: usize, repl: &Value, fs: &Lst<(Label, Option<Value>)>) -> (r: Lst<
    (Label, Option<Value>),
>)
    ensures
        r == spec_subst_union(l, *repl, *fs),
    decreases *fs,
{
    match fs {
        Lst::Nil => Lst::Nil,
        Lst::Cons(p, t) => Lst::Cons(
            (
                p.0,
                match &p.1 {
                    Option::Some(v) => Option::Some(subst_value(l, repl, v)),
                    Option::None => Option::None,
                },
            ),
            Box::new(subst_union(l, repl, t)),
        ),
    }
}

fn subst_text(l: usize, repl: &Value, ps: &Lst<TextValPart>) -> (r: Lst<TextValPart>)
    ensures
        r == spec_subst_text(l, *repl, *ps),
    decreases *ps,
{
    match ps {
        Lst::Nil => Lst::Nil,
        Lst::Cons(p, t) => Lst::Cons(
            match p {
                TextValPart::Chunk(s) => TextValPart::Chunk(*s),
                TextValPart::Embedded(v) => TextValPart::Embedded(subst_value(l, repl, v)),
            },
            Box::new(subst_text(l, repl, t)),
        ),
    }
}

fn subst_env(l: usize, repl: &Value, env: &Lst<EnvItem>) -> (r: Lst<EnvItem>)
    ensures
        r == spec_subst_env(l, *repl, *env),
    decreases *env,
{
    match env {
        Lst::Nil => Lst::Nil,
        Lst::Cons(item, t) => Lst::Cons(
            EnvItem { name: item.name, val: subst_value(l, repl, &item.val) },
            Box::new(subst_env(l, repl, t)),
        ),
    }
}

fn subst_closure(l: usize, repl: &Value, c: &Closure) -> (r: Closure)
    ensures
        r == spec_subst_closure(l, *repl, *c),
    decreases *c,
{
    match c {
        Closure::ExprClosure(env, x, b) => Closure::ExprClosure(
            Box::new(subst_env(l, repl, env)),
            *x,
            Box::new(expr_clone(b)),
        ),
        Closure::ValClosure(l2, b) => Closure::ValClosure(*l2, Box::new(subst_value(l, repl, b))),
        Closure::ConstClosure(b) => Closure::ConstClosure(Box::new(subst_value(l, repl, b))),
    }
}

/// The neutral variable at level `l` occurs somewhere in the value.
pub open spec fn spec_occurs_value(l: usize, v: Value) -> bool
    decreases v,
{
    match v {
        Value::Const(_) => false,
        Value::AppliedBuiltin(_, args) => spec_occurs_values(l, *args),
        Value::NeutralVar(l2) => l2 == l,
        Value::NeutralApp(f, a) => spec_occurs_value(l, *f) || spec_occurs_value(l, *a),
        Value::Lam(_, a, c) => spec_occurs_value(l, *a) || spec_occurs_closure(l, c),
        Value::PiClosure(_, a, c) => spec_occurs_value(l, *a) || spec_occurs_closure(l, c),
        Value::BoolLit(_) => false,
        Value::NaturalLit(_) => false,
        Value::IntegerLit(_) => false,
        Value::DoubleLit(_) => false,
        Value::TextLit(parts) => spec_occurs_text(l, *parts),
        Value::EmptyListLit(t) => spec_occurs_value(l, *t),
        Value::NEListLit(xs) => spec_occurs_values(l, *xs),
        Value::SomeLit(x) => spec_occurs_value(l, *x),
        Value::RecordLit(kvs) => spec_occurs_fields(l, *kvs),
        Value::RecordType(kts, u) => spec_occurs_fields(l, *kts),
        Value::UnionType(kts) => spec_occurs_union(l, *kts),
        Value::Equivalence(a, b) => spec_occurs_value(l, *a) || spec_occurs_value(l, *b),
        Value::Residual(env, _) => spec_occurs_env(l, *env),
    }
}

pub open spec fn spec_occurs_values(l: usize, vs: Lst<Value>) -> bool
    decreases vs,
{
    match vs {
        Lst::Nil => false,
        Lst::Cons(h, t) => spec_occurs_value(l, h) || spec_occurs_values(l, *t),
    }
}

pub open spec fn spec_occurs_fields(l: usize, fs: Lst<(Label, Value)>) -> bool
    decreases fs,
{
    match fs {
        Lst::Nil => false,
        Lst::Cons(p, t) => spec_occurs_value(l, p.1) || spec_occurs_fields(l, *t),
    }
}

pub open spec fn spec_occurs_union(l: usize, fs: Lst<(Label, Option<Value>)>) -> bool
    decreases fs,
{
    match fs {
        Lst::Nil => false,
        Lst::Cons(p, t) => (match p.1 {
            Option::Some(v) => spec_occurs_value(l, v),
            Option::None => false,
        }) || spec_occurs_union(l, *t),
    }
}

pub open spec fn spec_occurs_text(l: usize, ps: Lst<TextValPart>) -> bool
    decreases ps,
{
    match ps {
        Lst::Nil => false,
        Lst::Cons(p, t) => (match p {
            TextValPart::Chunk(_) => false,
            TextValPart::Embedded(v) => spec_occurs_value(l, v),
        }) || spec_occurs_text(l, *t),
    }
}

pub open spec fn spec_occurs_closure(l: usize, c: Closure) -> bool
    decreases c,
{
    match c {
        Closure::ExprClosure(env, _, _) => spec_occurs_env(l, *env),
        Closure::ValClosure(_, b) => spec_occurs_value(l, *b),
        Closure::ConstClosure(b) => spec_occurs_value(l, *b),
    }
}

pub open spec fn spec_occurs_env(l: usize, env: Lst<EnvItem>) -> bool
    decreases env,
{
    match env {
        Lst::Nil => false,
        Lst::Cons(item, t) => spec_occurs_value(l, item.val) || spec_occurs_env(l, *t),
    }
}

/// Decide `spec_occurs_value`.
pub fn occurs_value(l: usize, v: &Value) -> (r: bool)
    ensures
        r == spec_occurs_value(l, *v),
    decreases *v,
{
    match v {
        Value::Const(_) => false,
        Value::AppliedBuiltin(_, args) => occurs_values(l, args),
        Value::NeutralVar(l2) => *l2 == l,
        Value::NeutralApp(f, a) => occurs_value(l, f) || occurs_value(l, a),
        Value::Lam(_, a, c) => occurs_value(l, a) || occurs_closure(l, c),
        Value::PiClosure(_, a, c) => occurs_value(l, a) || occurs_closure(l, c),
        Value::BoolLit(_) => false,
        Value::NaturalLit(_) => false,
        Value::IntegerLit(_) => false,
        Value::DoubleLit(_) => false,
        Value::TextLit(parts) => occurs_text(l, parts),
        Value::EmptyListLit(t) => occurs_value(l, t),
        Value::NEListLit(xs) => occurs_values(l, xs),
        Value::SomeLit(x) => occurs_value(l, x),
        Value::RecordLit(kvs) => occurs_fields(l, kvs),
        Value::RecordType(kts, _) => occurs_fields(l, kts),
        Value::UnionType(kts) => occurs_union(l, kts),
        Value::Equivalence(a, b) => occurs_value(l, a) || occurs_value(l, b),
        Value::Residual(env, _) => occurs_env(l, env),
    }
}

fn occurs_values(l: usize, vs: &Lst<Value>) -> (r: bool)
    ensures
        r == spec_occurs_values(l, *vs),
    decreases *vs,
{
    match vs {
        Lst::Nil => false,
        Lst::Cons(h, t) => occurs_value(l, h) || occurs_values(l, t),
    }
}

fn occurs_fields(l: usize, fs: &Lst<(Label, Value)>) -> (r: bool)
    ensures
        r == spec_occurs_fields(l, *fs),
    decreases *fs,
{
    match fs {
        Lst::Nil => false,
        Lst::Cons(p, t) => occurs_value(l, &p.1) || occurs_fields(l, t),
    }
}

fn occurs_union(l: usize, fs: &Lst<(Label, Option<Value>)>) -> (r: bool)
    ensures
        r == spec_occurs_union(l, *fs),
    decreases *fs,
{
    match fs {
        Lst::Nil => false,
        Lst::Cons(p, t) => (match &p.1 {
            Option::Some(v) => occurs_value(l, v),
            Option::None => false,
        }) || occurs_union(l, t),
    }
}

fn occurs_text(l: usize, ps: &Lst<TextValPart>) -> (r: bool)
    ensures
        r == spec_occurs_text(l, *ps),
    decreases *ps,
{
    match ps {
        Lst::Nil => false,
        Lst::Cons(p, t) => (match p {
            TextValPart::Chunk(_) => false,
            TextValPart::Embedded(v) => occurs_value(l, v),
        }) || occurs_text(l, t),
    }
}

fn occurs_closure(l: usize, c: &Closure) -> (r: bool)
    ensures
        r == spec_occurs_closure(l, *c),
    decreases *c,
{
    match c {
        Closure::ExprClosure(env, _, _) => occurs_env(l, env),
        Closure::ValClosure(_, b) => occurs_value(l, b),
        Closure::ConstClosure(b) => occurs_value(l, b),
    }
}

fn occurs_env(l: usize, env: &Lst<EnvItem>) -> (r: bool)
    ensures
        r == spec_occurs_env(l, *env),
    decreases *env,
{
    match env {
        Lst::Nil => false,
        Lst::Cons(item, t) => occurs_value(l, &item.val) || occurs_env(l, t),
    }
}

/// The variable `V(name, idx)` occurs free in the expression, with the
/// shadowing index raised under binders that reuse the name (saturating: at
/// the index limit the variable is conservatively called used).
pub open spec fn spec_free_in(name: Label, idx: u64, e: Expr) -> bool
    decreases e, 0int,
{
    match e {
        Expr::Var(v) => v.name == name && (v.idx as u64) == idx,
        Expr::Lam(x, a, b) => spec_free_in(name, idx, *a) || spec_free_in_under(name, idx, x, *b),
        Expr::Pi(x, a, b) => spec_free_in(name, idx, *a) || spec_free_in_under(name, idx, x, *b),
        Expr::Let(x, t, v, b) => (match t {
            Option::Some(t) => spec_free_in(name, idx, *t),
            Option::None => false,
        }) || spec_free_in(name, idx, *v) || spec_free_in_under(name, idx, x, *b),
        Expr::App(f, a) => spec_free_in(name, idx, *f) || spec_free_in(name, idx, *a),
        Expr::Annot(x, t) => spec_free_in(name, idx, *x) || spec_free_in(name, idx, *t),
        Expr::Const(_) => false,
        Expr::Builtin(_) => false,
        Expr::BoolLit(_) => false,
        Expr::NaturalLit(_) => false,
        Expr::IntegerLit(_) => false,
        Expr::DoubleLit(_) => false,
        Expr::TextLit(parts) => spec_free_in_text(name, idx, *parts),
        Expr::EmptyListLit(t) => spec_free_in(name, idx, *t),
        Expr::NEListLit(xs) => spec_free_in_list(name, idx, *xs),
        Expr::SomeLit(x) => spec_free_in(name, idx, *x),
        Expr::RecordLit(kvs) => spec_free_in_fields(name, idx, *kvs),
        Expr::RecordType(kts) => spec_free_in_fields(name, idx, *kts),
        Expr::UnionType(kts) => spec_free_in_union(name, idx, *kts),
        Expr::Field(r, _) => spec_free_in(name, idx, *r),
        Expr::Projection(r, _) => spec_free_in(name, idx, *r),
        Expr::Merge(r, u, t) => spec_free_in(name, idx, *r) || spec_free_in(name, idx, *u)
            || (match t {
            Option::Some(t) => spec_free_in(name, idx, *t),
            Option::None => false,
        }),
        Expr::Assert(t) => spec_free_in(name, idx, *t),
        Expr::BoolIf(c, x, y) => spec_free_in(name, idx, *c) || spec_free_in(name, idx, *x)
            || spec_free_in(name, idx, *y),
        Expr::BinOp(_, l, r) => spec_free_in(name, idx, *l) || spec_free_in(name, idx, *r),
        Expr::ToMap(x, t) => spec_free_in(name, idx, *x) || (match t {
            Option::Some(t) => spec_free_in(name, idx, *t),
            Option::None => false,
        }),
        Expr::ProjectionByExpr(x, t) => spec_free_in(name, idx, *x) || spec_free_in(name, idx, *t),
        Expr::Completion(x, t) => spec_free_in(name, idx, *x) || spec_free_in(name, idx, *t),
        Expr::Embed(_) => false,
        Expr::Import(_) => false,
    }
}

/// Free occurrence under one more binder labelled `x`.
pub open spec fn spec_free_in_under(name: Label, idx: u64, x: Label, b: Expr) -> bool
    decreases b, 1int,
{
    if x == name {
        idx < u64::MAX && spec_free_in(name, (idx + 1) as u64, b)
    } else {
        spec_free_in(name, idx, b)
    }
}

pub open spec fn spec_free_in_list(name: Label, idx: u64, xs: Lst<Expr>) -> bool
    decreases xs, 0int,
{
    match xs {
        Lst::Nil => false,
        Lst::Cons(h, t) => spec_free_in(name, idx, h) || spec_free_in_list(name, idx, *t),
    }
}

pub open spec fn spec_free_in_fields(name: Label, idx: u64, fs: Lst<(Label, Expr)>) -> bool
    decreases fs, 0int,
{
    match fs {
        Lst::Nil => false,
        Lst::Cons(p, t) => spec_free_in(name, idx, p.1) || spec_free_in_fields(name, idx, *t),
    }
}

pub open spec fn spec_free_in_union(name: Label, idx: u64, fs: Lst<(Label, Option<Expr>)>) -> bool
    decreases fs, 0int,
{
    match fs {
        Lst::Nil => false,
        Lst::Cons(p, t) => (match p.1 {
            Option::Some(e) => spec_free_in(name, idx, e),
            Option::None => false,
        }) || spec_free_in_union(name, idx, *t),
    }
}

pub open spec fn spec_free_in_text(name: Label, idx: u64, ps: Lst<InterpolatedTextContents>) -> bool
    decreases ps, 0int,
{
    match ps {
        Lst::Nil => false,
        Lst::Cons(p, t) => (match p {
            InterpolatedTextContents::Text(_) => false,
            InterpolatedTextContents::Expr(e) => spec_free_in(name, idx, *e),
        }) || spec_free_in_text(name, idx, *t),
    }
}

/// A suspended source body mentions its own binder.
pub open spec fn spec_closure_body_uses_binder(c: Closure) -> bool {
    match c {
        Closure::ExprClosure(_, x, body) => spec_free_in(x, 0, *body),
        Closure::ValClosure(l, b) => spec_occurs_value(l, *b),
        Closure::ConstClosure(_) => false,
    }
}

/// Decide `spec_free_in`.
pub fn free_in_expr(name: Label, idx: u64, e: &Expr) -> (r: bool)
    ensures
        r == spec_free_in(name, idx, *e),
    decreases *e, 0int,
{
    match e {
        Expr::Var(v) => v.name == name && (v.idx as u64) == idx,
        Expr::Lam(x, a, b) => {
            free_in_expr(name, idx, a) || free_in_under(name, idx, *x, b)
        },
        Expr::Pi(x, a, b) => {
            free_in_expr(name, idx, a) || free_in_under(name, idx, *x, b)
        },
        Expr::Let(x, t, v, b) => {
            (match t {
                Option::Some(t) => free_in_expr(name, idx, t),
                Option::None => false,
            }) || free_in_expr(name, idx, v) || free_in_under(name, idx, *x, b)
        },
        Expr::App(f, a) => free_in_expr(name, idx, f) || free_in_expr(name, idx, a),
        Expr::Annot(x, t) => free_in_expr(name, idx, x) || free_in_expr(name, idx, t),
        Expr::Const(_) => false,
        Expr::Builtin(_) => false,
        Expr::BoolLit(_) => false,
        Expr::NaturalLit(_) => false,
        Expr::IntegerLit(_) => false,
        Expr::DoubleLit(_) => false,
        Expr::TextLit(parts) => free_in_text(name, idx, parts),
        Expr::EmptyListLit(t) => free_in_expr(name, idx, t),
        Expr::NEListLit(xs) => free_in_list(name, idx, xs),
        Expr::SomeLit(x) => free_in_expr(name, idx, x),
        Expr::RecordLit(kvs) => free_in_fields(name, idx, kvs),
        Expr::RecordType(kts) => free_in_fields(name, idx, kts),
        Expr::UnionType(kts) => free_in_union(name, idx, kts),
        Expr::Field(r2, _) => free_in_expr(name, idx, r2),
        Expr::Projection(r2, _) => free_in_expr(name, idx, r2),
        Expr::Merge(r2, u, t) => {
            free_in_expr(name, idx, r2) || free_in_expr(name, idx, u) || (match t {
                Option::Some(t) => free_in_expr(name, idx, t),
                Option::None => false,
            })
        },
        Expr::Assert(t) => free_in_expr(name, idx, t),
        Expr::BoolIf(c, x, y) => free_in_expr(name, idx, c) || free_in_expr(name, idx, x)
            || free_in_expr(name, idx, y),
        Expr::BinOp(_, l, r2) => free_in_expr(name, idx, l) || free_in_expr(name, idx, r2),
        Expr::ToMap(x, t) => free_in_expr(name, idx, x) || (match t {
            Option::Some(t) => free_in_expr(name, idx, t),
            Option::None => false,
        }),
        Expr::ProjectionByExpr(x, t) => free_in_expr(name, idx, x) || free_in_expr(name, idx, t),
        Expr::Completion(x, t) => free_in_expr(name, idx, x) || free_in_expr(name, idx, t),
        Expr::Embed(_) => false,
        Expr::Import(_) => false,
    }
}

fn free_in_under(name: Label, idx: u64, x: Label, b: &Expr) -> (r: bool)
    ensures
        r == spec_free_in_under(name, idx, x, *b),
    decreases *b, 1int,
{
    if x == name {
        if idx < u64::MAX {
            free_in_expr(name, idx + 1, b)
        } else {
            false
        }
    } else {
        free_in_expr(name, idx, b)
    }
}

fn free_in_list(name: Label, idx: u64, xs: &Lst<Expr>) -> (r: bool)
    ensures
        r == spec_free_in_list(name, idx, *xs),
    decreases *xs,
{
    match xs {
        Lst::Nil => false,
        Lst::Cons(h, t) => free_in_expr(name, idx, h) || free_in_list(name, idx, t),
    }
}

fn free_in_fields(name: Label, idx: u64, fs: &Lst<(Label, Expr)>) -> (r: bool)
    ensures
        r == spec_free_in_fields(name, idx, *fs),
    decreases *fs,
{
    match fs {
        Lst::Nil => false,
        Lst::Cons(p, t) => free_in_expr(name, idx, &p.1) || free_in_fields(name, idx, t),
    }
}

fn free_in_union(name: Label, idx: u64, fs: &Lst<(Label, Option<Expr>)>) -> (r: bool)
    ensures
        r == spec_free_in_union(name, idx, *fs),
    decreases *fs,
{
    match fs {
        Lst::Nil => false,
        Lst::Cons(p, t) => (match &p.1 {
            Option::Some(e) => free_in_expr(name, idx, e),
            Option::None => false,
        }) || free_in_union(name, idx, t),
    }
}

fn free_in_text(name: Label, idx: u64, ps: &Lst<InterpolatedTextContents>) -> (r: bool)
    ensures
        r == spec_free_in_text(name, idx, *ps),
    decreases *ps,
{
    match ps {
        Lst::Nil => false,
        Lst::Cons(p, t) => (match p {
            InterpolatedTextContents::Text(_) => false,
            InterpolatedTextContents::Expr(e) => free_in_expr(name, idx, e),
        }) || free_in_text(name, idx, t),
    }
}

/// The unreduced term `e` under `env`, kept as a value.
fn stuck(env: &Lst<EnvItem>, e: &Expr) -> (r: Value)
    ensures
        r == Value::Residual(Box::new(*env), Box::new(*e)),
{
    Value::Residual(Box::new(env_clone(env)), Box::new(expr_clone(e)))
}

/// Apply a closure to an argument.
pub fn apply_closure(fuel: u64, c: &Closure, arg: Value) -> (r: Result<Value, TypeError>)
    ensures
        r == spec_apply_closure(fuel, *c, arg),
        *c matches Closure::ConstClosure(b) ==> r == Result::<Value, TypeError>::Ok(*b),
    decreases fuel, *c,
{
    match c {
        Closure::ExprClosure(env, x, body) => {
            if fuel == 0 {
                mkerr(TypeMessage::NormalizationDepthExceeded)
            } else {
                let env2 = Lst::Cons(
                    EnvItem { name: *x, val: arg },
                    Box::new(env_clone(env)),
                );
                eval(fuel - 1, &env2, body)
            }
        },
        Closure::ValClosure(l, body) => Result::Ok(subst_value(*l, &arg, body)),
        Closure::ConstClosure(body) => Result::Ok(value_clone(body)),
    }
}

/// Whether this closure's body depends on its binder; when it does not,
/// return the body as a value of the enclosing scope. The answer is `None`
/// exactly when the body does depend on it (a depth-budget error aside).
pub fn remove_binder(fuel: u64, c: &Closure) -> (r: Result<Option<Value>, TypeError>)
    ensures
        r == spec_remove_binder(fuel, *c),
        *c matches Closure::ConstClosure(b) ==> r == Result::<Option<Value>, TypeError>::Ok(
            Option::Some(*b),
        ),
        *c matches Closure::ValClosure(l, b) ==> r == Result::<Option<Value>, TypeError>::Ok(
            if spec_occurs_value(l, *b) {
                Option::<Value>::None
            } else {
                Option::Some(*b)
            },
        ),
        *c matches Closure::ExprClosure(_, _, _) ==> (match r {
            Result::Ok(o) => o is None <==> spec_closure_body_uses_binder(*c),
            Result::Err(_) => true,
        }),
{
    match c {
        Closure::ExprClosure(env, x, body) => {
            if free_in_expr(*x, 0, body) {
                Result::Ok(Option::None)
            } else if fuel == 0 {
                mkerr(TypeMessage::NormalizationDepthExceeded)
            } else {
                // The binder is unused, so any inert placeholder will do.
                let env2 = Lst::Cons(
                    EnvItem { name: *x, val: Value::Const(Const::Sort) },
                    Box::new(env_clone(env)),
                );
                match eval(fuel - 1, &env2, body) {
                    Result::Ok(v) => Result::Ok(Option::Some(v)),
                    Result::Err(err) => Result::Err(err),
                }
            }
        },
        Closure::ValClosure(l, body) => {
            if occurs_value(*l, body) {
                Result::Ok(Option::None)
            } else {
                Result::Ok(Option::Some(value_clone(body)))
            }
        },
        Closure::ConstClosure(body) => Result::Ok(Option::Some(value_clone(body))),
    }
}

/// How many arguments a builtin takes before it is saturated.
fn builtin_arity(b: Builtin) -> (r: u64)
    ensures
        r == spec_builtin_arity(b),
{
    match b {
        Builtin::Bool => 0,
        Builtin::Natural => 0,
        Builtin::Integer => 0,
        Builtin::Double => 0,
        Builtin::Text => 0,
        Builtin::List => 1,
        Builtin::Optional => 1,
        Builtin::OptionalNone => 1,
    }
}

fn values_len_below(l: &Lst<Value>, bound: u64) -> (r: bool)
    ensures
        r <==> lst_len(*l) < bound,
    decreases *l,
{
    match l {
        Lst::Nil => 0 < bound,
        Lst::Cons(_, t) => {
            if bound == 0 {
                false
            } else {
                values_len_below(t, bound - 1)
            }
        },
    }
}

/// Apply one value to another: beta-reduce a lambda, feed an unsaturated
/// builtin, and otherwise keep the application neutral.
pub fn apply_val(fuel: u64, f: &Value, arg: Value) -> (r: Result<Value, TypeError>)
    ensures
        r == spec_apply_val(fuel, *f, arg),
    decreases fuel, *f,
{
    match f {
        Value::Lam(_, _, c) => apply_closure(fuel, c, arg),
        Value::AppliedBuiltin(b, args) => {
            if values_len_below(args, builtin_arity(*b)) {
                Result::Ok(Value::AppliedBuiltin(*b, Box::new(values_snoc(args, arg))))
            } else {
                Result::Ok(Value::NeutralApp(Box::new(value_clone(f)), Box::new(arg)))
            }
        },
        _ => Result::Ok(Value::NeutralApp(Box::new(value_clone(f)), Box::new(arg))),
    }
}

/// Right-biased union of two record values: on a shared key the right one
/// wins; left-only keys keep their order, then right-only keys follow.
fn rb_merge(a: &Lst<(Label, Value)>, b: &Lst<(Label, Value)>) -> (r: Lst<(Label, Value)>)
    ensures
        r == spec_rb_merge(*a, *b, *a),
    decreases *a,
{
    match a {
        Lst::Nil => fields_not_in(b, a),
        Lst::Cons(p, t) => {
            let here = match valfields_get(b, p.0) {
                Option::Some(vb) => (p.0, vb),
                Option::None => (p.0, value_clone(&p.1)),
            };
            Lst::Cons(here, Box::new(rb_merge_rest(t, b, a)))
        },
    }
}

/// The entries of `b` whose labels do not occur in `skip`.
fn fields_not_in(b: &Lst<(Label, Value)>, skip: &Lst<(Label, Value)>) -> (r: Lst<(Label, Value)>)
    ensures
        r == spec_fields_not_in(*b, *skip),
    decreases *b,
{
    match b {
        Lst::Nil => Lst::Nil,
        Lst::Cons(p, t) => {
            if valfields_contains(skip, p.0) {
                fields_not_in(t, skip)
            } else {
                Lst::Cons((p.0, value_clone(&p.1)), Box::new(fields_not_in(t, skip)))
            }
        },
    }
}

fn rb_merge_rest(a: &Lst<(Label, Value)>, b: &Lst<(Label, Value)>, whole_a: &Lst<(Label, Value)>)
    -> (r: Lst<(Label, Value)>)
    ensures
        r == spec_rb_merge(*a, *b, *whole_a),
    decreases *a,
{
    match a {
        Lst::Nil => fields_not_in(b, whole_a),
        Lst::Cons(p, t) => {
            let here = match valfields_get(b, p.0) {
                Option::Some(vb) => (p.0, vb),
                Option::None => (p.0, value_clone(&p.1)),
            };
            Lst::Cons(here, Box::new(rb_merge_rest(t, b, whole_a)))
        },
    }
}

/// Recursive union of two record values: shared record-valued fields merge
/// recursively, any other shared field takes the right value.
fn rr_merge(a: &Lst<(Label, Value)>, b: &Lst<(Label, Value)>, whole_a: &Lst<(Label, Value)>) -> (r:
    Lst<(Label, Value)>)
    ensures
        r == spec_rr_merge(*a, *b, *whole_a),
    decreases *a,
{
    match a {
        Lst::Nil => fields_not_in(b, whole_a),
        Lst::Cons(p, t) => {
            let here = match valfields_get(b, p.0) {
                Option::Some(vb) => match (&p.1, vb) {
                    (Value::RecordLit(ka), Value::RecordLit(kb)) => (
                        p.0,
                        Value::RecordLit(Box::new(rr_merge(ka, &kb, ka))),
                    ),
                    (_, vb2) => (p.0, vb2),
                },
                Option::None => (p.0, value_clone(&p.1)),
            };
            Lst::Cons(here, Box::new(rr_merge(t, b, whole_a)))
        },
    }
}

/// Recursive union of two record-type values, the reduction behind the
/// recursive record-type merge operator.
fn rrtm_merge(a: &Lst<(Label, Value)>, b: &Lst<(Label, Value)>, whole_a: &Lst<(Label, Value)>) -> (
    r: Lst<(Label, Value)>)
    ensures
        r == spec_rrtm_merge(*a, *b, *whole_a),
    decreases *a,
{
    match a {
        Lst::Nil => fields_not_in(b, whole_a),
        Lst::Cons(p, t) => {
            let here = match valfields_get(b, p.0) {
                Option::Some(vb) => match (&p.1, vb) {
                    (Value::RecordType(ka, _), Value::RecordType(kb, _)) => (
                        p.0,
                        Value::RecordType(Box::new(rrtm_merge(ka, &kb, ka)), Option::None),
                    ),
                    (_, vb2) => (p.0, vb2),
                },
                Option::None => (p.0, value_clone(&p.1)),
            };
            Lst::Cons(here, Box::new(rrtm_merge(t, b, whole_a)))
        },
    }
}

/// The recursive union of two record types' fields, as the recursive
/// record-type merge operator computes it.
pub fn rrtm_merge_fields(a: &Lst<(Label, Value)>, b: &Lst<(Label, Value)>) -> (r: Lst<
    (Label, Value),
>)
    ensures
        r == spec_rrtm_merge(*a, *b, *a),
{
    rrtm_merge(a, b, a)
}

/// Select `labels` out of a record value, in the order requested; `None`
/// when one is missing.
fn project_fields(kvs: &Lst<(Label, Value)>, labels: &Lst<Label>) -> (r: Option<
    Lst<(Label, Value)>,
>)
    ensures
        r == spec_project_fields(*kvs, *labels),
    decreases *labels,
{
    match labels {
        Lst::Nil => Option::Some(Lst::Nil),
        Lst::Cons(x, t) => match valfields_get(kvs, *x) {
            Option::Some(v) => match project_fields(kvs, t) {
                Option::Some(rest) => Option::Some(Lst::Cons((*x, v), Box::new(rest))),
                Option::None => Option::None,
            },
            Option::None => Option::None,
        },
    }
}

/// Evaluate `e` under `env`. Literal forms are pinned exactly; every form
/// the budget or the shape of the term leaves unreduced comes back as a
/// residual value, never as an error other than budget exhaustion.
pub fn eval(fuel: u64, env: &Lst<EnvItem>, e: &Expr) -> (r: Result<Value, TypeError>)
    ensures
        *e matches Expr::Const(c) ==> r == Result::<Value, TypeError>::Ok(Value::Const(c)),
        *e matches Expr::Builtin(b) ==> r == Result::<Value, TypeError>::Ok(
            Value::AppliedBuiltin(b, Box::new(Lst::Nil)),
        ),
        *e matches Expr::BoolLit(x) ==> r == Result::<Value, TypeError>::Ok(Value::BoolLit(x)),
        *e matches Expr::NaturalLit(x) ==> r == Result::<Value, TypeError>::Ok(
            Value::NaturalLit(x),
        ),
        *e matches Expr::IntegerLit(x) ==> r == Result::<Value, TypeError>::Ok(
            Value::IntegerLit(x),
        ),
        *e matches Expr::DoubleLit(x) ==> r == Result::<Value, TypeError>::Ok(Value::DoubleLit(x)),
        r == spec_eval(fuel, *env, *e),
    decreases fuel, *e,
{
    match e {
        Expr::Var(v) => match env_lookup(env, v.name, v.idx) {
            Option::Some(val) => Result::Ok(val),
            Option::None => Result::Ok(stuck(env, e)),
        },
        Expr::Lam(x, a, b) => {
            let av = eval(fuel, env, a)?;
            Result::Ok(
                Value::Lam(
                    *x,
                    Box::new(av),
                    Closure::ExprClosure(Box::new(env_clone(env)), *x, Box::new(expr_clone(b))),
                ),
            )
        },
        Expr::Pi(x, a, b) => {
            let av = eval(fuel, env, a)?;
            Result::Ok(
                Value::PiClosure(
                    *x,
                    Box::new(av),
                    Closure::ExprClosure(Box::new(env_clone(env)), *x, Box::new(expr_clone(b))),
                ),
            )
        },
        Expr::Let(x, _t, v, b) => {
            let vv = eval(fuel, env, v)?;
            let env2 = Lst::Cons(EnvItem { name: *x, val: vv }, Box::new(env_clone(env)));
            eval(fuel, &env2, b)
        },
        Expr::App(f, a) => {
            let fv = eval(fuel, env, f)?;
            let av = eval(fuel, env, a)?;
            if fuel == 0 {
                mkerr(TypeMessage::NormalizationDepthExceeded)
            } else {
                apply_val(fuel - 1, &fv, av)
            }
        },
        Expr::Annot(x, _t) => eval(fuel, env, x),
        Expr::Const(c) => Result::Ok(Value::Const(*c)),
        Expr::Builtin(b) => Result::Ok(Value::AppliedBuiltin(*b, Box::new(Lst::Nil))),
        Expr::BoolLit(x) => Result::Ok(Value::BoolLit(*x)),
        Expr::NaturalLit(x) => Result::Ok(Value::NaturalLit(*x)),
        Expr::IntegerLit(x) => Result::Ok(Value::IntegerLit(*x)),
        Expr::DoubleLit(x) => Result::Ok(Value::DoubleLit(*x)),
        Expr::TextLit(parts) => {
            let ps = eval_text(fuel, env, parts)?;
            Result::Ok(Value::TextLit(Box::new(ps)))
        },
        Expr::EmptyListLit(t) => {
            let tv = eval(fuel, env, t)?;
            Result::Ok(Value::EmptyListLit(Box::new(tv)))
        },
        Expr::NEListLit(xs) => {
            let vs = eval_list(fuel, env, xs)?;
            Result::Ok(Value::NEListLit(Box::new(vs)))
        },
        Expr::SomeLit(x) => {
            let xv = eval(fuel, env, x)?;
            Result::Ok(Value::SomeLit(Box::new(xv)))
        },
        Expr::RecordLit(kvs) => {
            let vs = eval_fields(fuel, env, kvs)?;
            Result::Ok(Value::RecordLit(Box::new(vs)))
        },
        Expr::RecordType(kts) => {
            let vs = eval_fields(fuel, env, kts)?;
            Result::Ok(Value::RecordType(Box::new(vs), Option::None))
        },
        Expr::UnionType(kts) => {
            let vs = eval_union(fuel, env, kts)?;
            Result::Ok(Value::UnionType(Box::new(vs)))
        },
        Expr::Field(rec, x) => {
            let rv = eval(fuel, env, rec)?;
            match rv {
                Value::RecordLit(kvs) => match valfields_get(&kvs, *x) {
                    Option::Some(v) => Result::Ok(v),
                    Option::None => Result::Ok(stuck(env, e)),
                },
                _ => Result::Ok(stuck(env, e)),
            }
        },
        Expr::Projection(rec, ls) => {
            let rv = eval(fuel, env, rec)?;
            match rv {
                Value::RecordLit(kvs) => match project_fields(&kvs, ls) {
                    Option::Some(sub) => Result::Ok(Value::RecordLit(Box::new(sub))),
                    Option::None => Result::Ok(stuck(env, e)),
                },
                _ => Result::Ok(stuck(env, e)),
            }
        },
        Expr::Merge(rec, scrut, _t) => {
            let rv = eval(fuel, env, rec)?;
            let sv = eval(fuel, env, scrut)?;
            match rv {
                Value::RecordLit(handlers) => match sv {
                    Value::SomeLit(x) => match valfields_get(&handlers, some_label()) {
                        Option::Some(h) => {
                            if fuel == 0 {
                                mkerr(TypeMessage::NormalizationDepthExceeded)
                            } else {
                                apply_val(fuel - 1, &h, *x)
                            }
                        },
                        Option::None => Result::Ok(stuck(env, e)),
                    },
                    Value::AppliedBuiltin(Builtin::OptionalNone, _) => match valfields_get(
                        &handlers,
                        none_label(),
                    ) {
                        Option::Some(h) => Result::Ok(h),
                        Option::None => Result::Ok(stuck(env, e)),
                    },
                    _ => Result::Ok(stuck(env, e)),
                },
                _ => Result::Ok(stuck(env, e)),
            }
        },
        Expr::Assert(_) => Result::Ok(stuck(env, e)),
        Expr::BoolIf(c, x, y) => {
            let cv = eval(fuel, env, c)?;
            match cv {
                Value::BoolLit(true) => eval(fuel, env, x),
                Value::BoolLit(false) => eval(fuel, env, y),
                _ => Result::Ok(stuck(env, e)),
            }
        },
        Expr::BinOp(o, l, r2) => {
            let lv = eval(fuel, env, l)?;
            let rv = eval(fuel, env, r2)?;
            match o {
                BinOp::BoolAnd => match (&lv, &rv) {
                    (Value::BoolLit(a), Value::BoolLit(b)) => Result::Ok(Value::BoolLit(*a && *b)),
                    _ => Result::Ok(stuck(env, e)),
                },
                BinOp::BoolOr => match (&lv, &rv) {
                    (Value::BoolLit(a), Value::BoolLit(b)) => Result::Ok(Value::BoolLit(*a || *b)),
                    _ => Result::Ok(stuck(env, e)),
                },
                BinOp::BoolEQ => match (&lv, &rv) {
                    (Value::BoolLit(a), Value::BoolLit(b)) => Result::Ok(Value::BoolLit(a == b)),
                    _ => Result::Ok(stuck(env, e)),
                },
                BinOp::BoolNE => match (&lv, &rv) {
                    (Value::BoolLit(a), Value::BoolLit(b)) => Result::Ok(Value::BoolLit(a != b)),
                    _ => Result::Ok(stuck(env, e)),
                },
                BinOp::NaturalPlus => match (&lv, &rv) {
                    (Value::NaturalLit(a), Value::NaturalLit(b)) => match a.checked_add(*b) {
                        Option::Some(s) => Result::Ok(Value::NaturalLit(s)),
                        Option::None => Result::Ok(stuck(env, e)),
                    },
                    _ => Result::Ok(stuck(env, e)),
                },
                BinOp::NaturalTimes => match (&lv, &rv) {
                    (Value::NaturalLit(a), Value::NaturalLit(b)) => match a.checked_mul(*b) {
                        Option::Some(s) => Result::Ok(Value::NaturalLit(s)),
                        Option::None => Result::Ok(stuck(env, e)),
                    },
                    _ => Result::Ok(stuck(env, e)),
                },
                BinOp::TextAppend => match (&lv, &rv) {
                    (Value::TextLit(a), Value::TextLit(b)) => Result::Ok(
                        Value::TextLit(Box::new(textval_append(a, b))),
                    ),
                    _ => Result::Ok(stuck(env, e)),
                },
                BinOp::ListAppend => match (lv, rv) {
                    (Value::EmptyListLit(_), other) => Result::Ok(other),
                    (other, Value::EmptyListLit(_)) => Result::Ok(other),
                    (Value::NEListLit(a), Value::NEListLit(b)) => Result::Ok(
                        Value::NEListLit(Box::new(values_append(&a, &b))),
                    ),
                    _ => Result::Ok(stuck(env, e)),
                },
                BinOp::RightBiasedRecordMerge => match (&lv, &rv) {
                    (Value::RecordLit(a), Value::RecordLit(b)) => Result::Ok(
                        Value::RecordLit(Box::new(rb_merge(a, b))),
                    ),
                    _ => Result::Ok(stuck(env, e)),
                },
                BinOp::RecursiveRecordMerge => match (&lv, &rv) {
                    (Value::RecordLit(a), Value::RecordLit(b)) => Result::Ok(
                        Value::RecordLit(Box::new(rr_merge(a, b, a))),
                    ),
                    _ => Result::Ok(stuck(env, e)),
                },
                BinOp::RecursiveRecordTypeMerge => match (&lv, &rv) {
                    (Value::RecordType(a, _), Value::RecordType(b, _)) => Result::Ok(
                        Value::RecordType(Box::new(rrtm_merge(a, b, a)), Option::None),
                    ),
                    _ => Result::Ok(stuck(env, e)),
                },
                BinOp::Equivalence => Result::Ok(
                    Value::Equivalence(Box::new(lv), Box::new(rv)),
                ),
                BinOp::ImportAlt => Result::Ok(stuck(env, e)),
            }
        },
        Expr::ToMap(_, _) => Result::Ok(stuck(env, e)),
        Expr::ProjectionByExpr(_, _) => Result::Ok(stuck(env, e)),
        Expr::Completion(_, _) => Result::Ok(stuck(env, e)),
        Expr::Embed(t) => Result::Ok(value_clone(&t.val)),
        Expr::Import(_) => Result::Ok(stuck(env, e)),
    }
}

fn eval_list(fuel: u64, env: &Lst<EnvItem>, xs: &Lst<Expr>) -> (r: Result<Lst<Value>, TypeError>)
    ensures
        r == spec_eval_list(fuel, *env, *xs),
    decreases fuel, *xs,
{
    match xs {
        Lst::Nil => Result::Ok(Lst::Nil),
        Lst::Cons(h, t) => {
            let hv = eval(fuel, env, h)?;
            let tv = eval_list(fuel, env, t)?;
            Result::Ok(Lst::Cons(hv, Box::new(tv)))
        },
    }
}

fn eval_fields(fuel: u64, env: &Lst<EnvItem>, fs: &Lst<(Label, Expr)>) -> (r: Result<
    Lst<(Label, Value)>,
    TypeError,
>)
    ensures
        r == spec_eval_fields(fuel, *env, *fs),
    decreases fuel, *fs,
{
    match fs {
        Lst::Nil => Result::Ok(Lst::Nil),
        Lst::Cons(p, t) => {
            let hv = eval(fuel, env, &p.1)?;
            let tv = eval_fields(fuel, env, t)?;
            Result::Ok(Lst::Cons((p.0, hv), Box::new(tv)))
        },
    }
}

fn eval_union(fuel: u64, env: &Lst<EnvItem>, fs: &Lst<(Label, Option<Expr>)>) -> (r: Result<
    Lst<(Label, Option<Value>)>,
    TypeError,
>)
    ensures
        r == spec_eval_union(fuel, *env, *fs),
    decreases fuel, *fs,
{
    match fs {
        Lst::Nil => Result::Ok(Lst::Nil),
        Lst::Cons(p, t) => {
            let hv = match &p.1 {
                Option::Some(x) => Option::Some(eval(fuel, env, x)?),
                Option::None => Option::None,
            };
            let tv = eval_union(fuel, env, t)?;
            Result::Ok(Lst::Cons((p.0, hv), Box::new(tv)))
        },
    }
}

fn eval_text(fuel: u64, env: &Lst<EnvItem>, ps: &Lst<InterpolatedTextContents>) -> (r: Result<
    Lst<TextValPart>,
    TypeError,
>)
    ensures
        r == spec_eval_text(fuel, *env, *ps),
    decreases fuel, *ps,
{
    match ps {
        Lst::Nil => Result::Ok(Lst::Nil),
        Lst::Cons(p, t) => {
            let hv = match p {
                InterpolatedTextContents::Text(s) => TextValPart::Chunk(*s),
                InterpolatedTextContents::Expr(x) => TextValPart::Embedded(eval(fuel, env, x)?),
            };
            let tv = eval_text(fuel, env, t)?;
            Result::Ok(Lst::Cons(hv, Box::new(tv)))
        },
    }
}

/// Judgmental equality of two values at binder depth `size`: weak-head
/// constructors must match, record and union fields are compared without
/// regard to order, and closures are compared by applying both to a fresh
/// neutral variable. Residual (stuck) terms are conservatively unequal.
pub fn conv(fuel: u64, size: usize, a: &Value, b: &Value) -> (r: Result<bool, TypeError>)
    ensures
        (match (*a, *b) {
            (Value::Const(c1), Value::Const(c2)) => r == Result::<bool, TypeError>::Ok(c1 == c2),
            (Value::NaturalLit(x), Value::NaturalLit(y)) => r == Result::<bool, TypeError>::Ok(
                x == y,
            ),
            (Value::BoolLit(x), Value::BoolLit(y)) => r == Result::<bool, TypeError>::Ok(x == y),
            (Value::NeutralVar(x), Value::NeutralVar(y)) => r == Result::<bool, TypeError>::Ok(
                x == y,
            ),
            (Value::AppliedBuiltin(b1, a1), Value::AppliedBuiltin(b2, a2)) => (*a1
                == Lst::<Value>::Nil && *a2 == Lst::<Value>::Nil) ==> r == Result::<
                bool,
                TypeError,
            >::Ok(b1 == b2),
            _ => true,
        }),
        r == spec_conv(fuel, size, *a, *b),
    decreases fuel, *a, 0int,
{
    match (a, b) {
        (Value::Const(c1), Value::Const(c2)) => Result::Ok(c1 == c2),
        (Value::AppliedBuiltin(b1, a1), Value::AppliedBuiltin(b2, a2)) => {
            if b1 == b2 {
                conv_list(fuel, size, a1, a2)
            } else {
                Result::Ok(false)
            }
        },
        (Value::NeutralVar(l1), Value::NeutralVar(l2)) => Result::Ok(l1 == l2),
        (Value::NeutralApp(f1, x1), Value::NeutralApp(f2, x2)) => {
            let fe = conv(fuel, size, f1, f2)?;
            if fe {
                conv(fuel, size, x1, x2)
            } else {
                Result::Ok(false)
            }
        },
        (Value::Lam(_, a1, c1), Value::Lam(_, a2, c2)) => conv_under_binder(
            fuel,
            size,
            a1,
            a2,
            c1,
            c2,
        ),
        (Value::PiClosure(_, a1, c1), Value::PiClosure(_, a2, c2)) => conv_under_binder(
            fuel,
            size,
            a1,
            a2,
            c1,
            c2,
        ),
        (Value::BoolLit(x), Value::BoolLit(y)) => Result::Ok(x == y),
        (Value::NaturalLit(x), Value::NaturalLit(y)) => Result::Ok(x == y),
        (Value::IntegerLit(x), Value::IntegerLit(y)) => Result::Ok(x == y),
        (Value::DoubleLit(x), Value::DoubleLit(y)) => Result::Ok(x == y),
        (Value::TextLit(x), Value::TextLit(y)) => conv_text(fuel, size, x, y),
        (Value::EmptyListLit(x), Value::EmptyListLit(y)) => conv(fuel, size, x, y),
        (Value::NEListLit(x), Value::NEListLit(y)) => conv_list(fuel, size, x, y),
        (Value::SomeLit(x), Value::SomeLit(y)) => conv(fuel, size, x, y),
        (Value::RecordLit(x), Value::RecordLit(y)) => conv_fields(fuel, size, x, y),
        (Value::RecordType(x, _), Value::RecordType(y, _)) => conv_fields(fuel, size, x, y),
        (Value::UnionType(x), Value::UnionType(y)) => conv_union(fuel, size, x, y),
        (Value::Equivalence(x1, y1), Value::Equivalence(x2, y2)) => {
            let xe = conv(fuel, size, x1, x2)?;
            if xe {
                conv(fuel, size, y1, y2)
            } else {
                Result::Ok(false)
            }
        },
        _ => Result::Ok(false),
    }
}

fn conv_under_binder(
    fuel: u64,
    size: usize,
    a1: &Value,
    a2: &Value,
    c1: &Closure,
    c2: &Closure,
) -> (r: Result<bool, TypeError>)
    ensures
        r == spec_conv_under_binder(fuel, size, *a1, *a2, *c1, *c2),
    decreases fuel, *a1, 1int,
{
    let ae = conv(fuel, size, a1, a2)?;
    if !ae {
        return Result::Ok(false);
    }
    if size == usize::MAX || fuel == 0 {
        return Result::Ok(false);
    }
    let b1 = apply_closure(fuel - 1, c1, Value::NeutralVar(size))?;
    let b2 = apply_closure(fuel - 1, c2, Value::NeutralVar(size))?;
    conv(fuel - 1, size + 1, &b1, &b2)
}

fn conv_list(fuel: u64, size: usize, a: &Lst<Value>, b: &Lst<Value>) -> (r: Result<bool, TypeError>)
    ensures
        r == spec_conv_list(fuel, size, *a, *b),
        (*a == Lst::<Value>::Nil && *b == Lst::<Value>::Nil) ==> r == Result::<
            bool,
            TypeError,
        >::Ok(true),
    decreases fuel, *a, 1int,
{
    match (a, b) {
        (Lst::Nil, Lst::Nil) => Result::Ok(true),
        (Lst::Cons(x, xt), Lst::Cons(y, yt)) => {
            let he = conv(fuel, size, x, y)?;
            if he {
                conv_list(fuel, size, xt, yt)
            } else {
                Result::Ok(false)
            }
        },
        _ => Result::Ok(false),
    }
}

/// Order-insensitive comparison of record fields: every left field has a
/// convertible right field, and every right label occurs on the left.
fn conv_fields(fuel: u64, size: usize, a: &Lst<(Label, Value)>, b: &Lst<(Label, Value)>) -> (r:
    Result<bool, TypeError>)
    ensures
        r == spec_conv_fields(fuel, size, *a, *b),
    decreases fuel, *a, 2int,
{
    let fwd = conv_fields_fwd(fuel, size, a, b)?;
    Result::Ok(fwd && fields_labels_covered(b, a))
}

fn conv_fields_fwd(fuel: u64, size: usize, a: &Lst<(Label, Value)>, b: &Lst<(Label, Value)>) -> (r:
    Result<bool, TypeError>)
    ensures
        r == spec_conv_fields_fwd(fuel, size, *a, *b),
    decreases fuel, *a, 1int,
{
    match a {
        Lst::Nil => Result::Ok(true),
        Lst::Cons(p, t) => match valfields_get(b, p.0) {
            Option::Some(vb) => {
                let he = conv(fuel, size, &p.1, &vb)?;
                if he {
                    conv_fields_fwd(fuel, size, t, b)
                } else {
                    Result::Ok(false)
                }
            },
            Option::None => Result::Ok(false),
        },
    }
}

fn fields_labels_covered(b: &Lst<(Label, Value)>, a: &Lst<(Label, Value)>) -> (r: bool)
    ensures
        r == spec_labels_covered(*b, *a),
    decreases *b,
{
    match b {
        Lst::Nil => true,
        Lst::Cons(p, t) => valfields_contains(a, p.0) && fields_labels_covered(t, a),
    }
}

fn conv_union(fuel: u64, size: usize, a: &Lst<(Label, Option<Value>)>, b: &Lst<
    (Label, Option<Value>),
>) -> (r: Result<bool, TypeError>)
    ensures
        r == spec_conv_union(fuel, size, *a, *b),
    decreases fuel, *a, 2int,
{
    let fwd = conv_union_fwd(fuel, size, a, b)?;
    Result::Ok(fwd && union_labels_covered(b, a))
}

fn conv_union_fwd(fuel: u64, size: usize, a: &Lst<(Label, Option<Value>)>, b: &Lst<
    (Label, Option<Value>),
>) -> (r: Result<bool, TypeError>)
    ensures
        r == spec_conv_union_fwd(fuel, size, *a, *b),
    decreases fuel, *a, 1int,
{
    match a {
        Lst::Nil => Result::Ok(true),
        Lst::Cons(p, t) => match valunion_get(b, p.0) {
            Option::Some(vb) => {
                let he = match (&p.1, &vb) {
                    (Option::None, Option::None) => true,
                    (Option::Some(x), Option::Some(y)) => conv(fuel, size, x, y)?,
                    _ => false,
                };
                if he {
                    conv_union_fwd(fuel, size, t, b)
                } else {
                    Result::Ok(false)
                }
            },
            Option::None => Result::Ok(false),
        },
    }
}

fn union_labels_covered(b: &Lst<(Label, Option<Value>)>, a: &Lst<(Label, Option<Value>)>) -> (r:
    bool)
    ensures
        r == spec_labels_covered(*b, *a),
    decreases *b,
{
    match b {
        Lst::Nil => true,
        Lst::Cons(p, t) => valunion_contains(a, p.0) && union_labels_covered(t, a),
    }
}

fn conv_text(fuel: u64, size: usize, a: &Lst<TextValPart>, b: &Lst<TextValPart>) -> (r: Result<
    bool,
    TypeError,
>)
    ensures
        r == spec_conv_text(fuel, size, *a, *b),
    decreases fuel, *a, 1int,
{
    match (a, b) {
        (Lst::Nil, Lst::Nil) => Result::Ok(true),
        (Lst::Cons(x, xt), Lst::Cons(y, yt)) => {
            let he = match (x, y) {
                (TextValPart::Chunk(s1), TextValPart::Chunk(s2)) => s1 == s2,
                (TextValPart::Embedded(v1), TextValPart::Embedded(v2)) => conv(fuel, size, v1, v2)?,
                _ => false,
            };
            if he {
                conv_text(fuel, size, xt, yt)
            } else {
                Result::Ok(false)
            }
        },
        _ => Result::Ok(false),
    }
}

// ---------------------------------------------------------------------------
// Specification-level mirrors of evaluation. Every executable function below
// is proved equal to its mirror, so the typechecker's own specification can
// speak about normalisation results directly.
// ---------------------------------------------------------------------------

/// Mirror of `subst_value`.
pub open spec fn spec_subst_value(l: usize, repl: Value, v: Value) -> Value
    decreases v,
{
    match v {
        Value::Const(c) => Value::Const(c),
        Value::AppliedBuiltin(b, args) => Value::AppliedBuiltin(
            b,
            Box::new(spec_subst_values(l, repl, *args)),
        ),
        Value::NeutralVar(l2) => if l2 == l {
            repl
        } else {
            Value::NeutralVar(l2)
        },
        Value::NeutralApp(f, a) => Value::NeutralApp(
            Box::new(spec_subst_value(l, repl, *f)),
            Box::new(spec_subst_value(l, repl, *a)),
        ),
        Value::Lam(x, a, c) => Value::Lam(
            x,
            Box::new(spec_subst_value(l, repl, *a)),
            spec_subst_closure(l, repl, c),
        ),
        Value::PiClosure(x, a, c) => Value::PiClosure(
            x,
            Box::new(spec_subst_value(l, repl, *a)),
            spec_subst_closure(l, repl, c),
        ),
        Value::BoolLit(b) => Value::BoolLit(b),
        Value::NaturalLit(n) => Value::NaturalLit(n),
        Value::IntegerLit(n) => Value::IntegerLit(n),
        Value::DoubleLit(n) => Value::DoubleLit(n),
        Value::TextLit(parts) => Value::TextLit(Box::new(spec_subst_text(l, repl, *parts))),
        Value::EmptyListLit(t) => Value::EmptyListLit(Box::new(spec_subst_value(l, repl, *t))),
        Value::NEListLit(xs) => Value::NEListLit(Box::new(spec_subst_values(l, repl, *xs))),
        Value::SomeLit(x) => Value::SomeLit(Box::new(spec_subst_value(l, repl, *x))),
        Value::RecordLit(kvs) => Value::RecordLit(Box::new(spec_subst_fields(l, repl, *kvs))),
        Value::RecordType(kts, u) => Value::RecordType(Box::new(spec_subst_fields(l, repl, *kts)), u),
        Value::UnionType(kts) => Value::UnionType(Box::new(spec_subst_union(l, repl, *kts))),
        Value::Equivalence(a, b) => Value::Equivalence(
            Box::new(spec_subst_value(l, repl, *a)),
            Box::new(spec_subst_value(l, repl, *b)),
        ),
        Value::Residual(env, e) => Value::Residual(
            Box::new(spec_subst_env(l, repl, *env)),
            e,
        ),
    }
}

pub open spec fn spec_subst_values(l: usize, repl: Value, vs: Lst<Value>) -> Lst<Value>
    decreases vs,
{
    match vs {
        Lst::Nil => Lst::Nil,
        Lst::Cons(h, t) => Lst::Cons(
            spec_subst_value(l, repl, h),
            Box::new(spec_subst_values(l, repl, *t)),
        ),
    }
}

pub open spec fn spec_subst_fields(l: usize, repl: Value, fs: Lst<(Label, Value)>) -> Lst<
    (Label, Value),
>
    decreases fs,
{
    match fs {
        Lst::Nil => Lst::Nil,
        Lst::Cons(p, t) => Lst::Cons(
            (p.0, spec_subst_value(l, repl, p.1)),
            Box::new(spec_subst_fields(l, repl, *t)),
        ),
    }
}

pub open spec fn spec_subst_union(l: usize, repl: Value, fs: Lst<(Label, Option<Value>)>) -> Lst<
    (Label, Option<Value>),
>
    decreases fs,
{
    match fs {
        Lst::Nil => Lst::Nil,
        Lst::Cons(p, t) => Lst::Cons(
            (
                p.0,
                match p.1 {
                    Option::Some(v) => Option::Some(spec_subst_value(l, repl, v)),
                    Option::None => Option::None,
                },
            ),
            Box::new(spec_subst_union(l, repl, *t)),
        ),
    }
}

pub open spec fn spec_subst_text(l: usize, repl: Value, ps: Lst<TextValPart>) -> Lst<TextValPart>
    decreases ps,
{
    match ps {
        Lst::Nil => Lst::Nil,
        Lst::Cons(p, t) => Lst::Cons(
            match p {
                TextValPart::Chunk(s) => TextValPart::Chunk(s),
                TextValPart::Embedded(v) => TextValPart::Embedded(spec_subst_value(l, repl, v)),
            },
            Box::new(spec_subst_text(l, repl, *t)),
        ),
    }
}

pub open spec fn spec_subst_env(l: usize, repl: Value, env: Lst<EnvItem>) -> Lst<EnvItem>
    decreases env,
{
    match env {
        Lst::Nil => Lst::Nil,
        Lst::Cons(item, t) => Lst::Cons(
            EnvItem { name: item.name, val: spec_subst_value(l, repl, item.val) },
            Box::new(spec_subst_env(l, repl, *t)),
        ),
    }
}

pub open spec fn spec_subst_closure(l: usize, repl: Value, c: Closure) -> Closure
    decreases c,
{
    match c {
        Closure::ExprClosure(env, x, b) => Closure::ExprClosure(
            Box::new(spec_subst_env(l, repl, *env)),
            x,
            b,
        ),
        Closure::ValClosure(l2, b) => Closure::ValClosure(
            l2,
            Box::new(spec_subst_value(l, repl, *b)),
        ),
        Closure::ConstClosure(b) => Closure::ConstClosure(Box::new(spec_subst_value(l, repl, *b))),
    }
}

/// Mirror of `stuck`: the unreduced term kept as a value.
pub open spec fn spec_stuck(env: Lst<EnvItem>, e: Expr) -> Value {
    Value::Residual(Box::new(env), Box::new(e))
}

/// Mirror of `builtin_arity`.
pub open spec fn spec_builtin_arity(b: Builtin) -> u64 {
    match b {
        Builtin::Bool => 0,
        Builtin::Natural => 0,
        Builtin::Integer => 0,
        Builtin::Double => 0,
        Builtin::Text => 0,
        Builtin::List => 1,
        Builtin::Optional => 1,
        Builtin::OptionalNone => 1,
    }
}

/// The budget-exhaustion error.
pub open spec fn spec_depth_err<T>() -> Result<T, TypeError> {
    Result::Err(TypeError { message: TypeMessage::NormalizationDepthExceeded })
}

/// Mirror of `apply_closure`.
pub open spec fn spec_apply_closure(fuel: u64, c: Closure, arg: Value) -> Result<Value, TypeError>
    decreases fuel, c,
{
    match c {
        Closure::ExprClosure(env, x, body) => if fuel == 0 {
            spec_depth_err()
        } else {
            spec_eval(
                (fuel - 1) as u64,
                Lst::Cons(EnvItem { name: x, val: arg }, Box::new(*env)),
                *body,
            )
        },
        Closure::ValClosure(l, body) => Result::Ok(spec_subst_value(l, arg, *body)),
        Closure::ConstClosure(body) => Result::Ok(*body),
    }
}

/// Mirror of `apply_val`.
pub open spec fn spec_apply_val(fuel: u64, f: Value, arg: Value) -> Result<Value, TypeError>
    decreases fuel, f,
{
    match f {
        Value::Lam(x, a, c) => spec_apply_closure(fuel, c, arg),
        Value::AppliedBuiltin(b, args) => if lst_len(*args) < spec_builtin_arity(b) {
            Result::Ok(Value::AppliedBuiltin(b, Box::new(lst_snoc(*args, arg))))
        } else {
            Result::Ok(
                Value::NeutralApp(Box::new(Value::AppliedBuiltin(b, args)), Box::new(arg)),
            )
        },
        _ => Result::Ok(Value::NeutralApp(Box::new(f), Box::new(arg))),
    }
}

/// Mirror of `values_append`.
pub open spec fn spec_values_append(a: Lst<Value>, b: Lst<Value>) -> Lst<Value>
    decreases a,
{
    match a {
        Lst::Nil => b,
        Lst::Cons(h, t) => Lst::Cons(h, Box::new(spec_values_append(*t, b))),
    }
}

/// Mirror of `textval_append`.
pub open spec fn spec_textval_append(a: Lst<TextValPart>, b: Lst<TextValPart>) -> Lst<TextValPart>
    decreases a,
{
    match a {
        Lst::Nil => b,
        Lst::Cons(h, t) => Lst::Cons(h, Box::new(spec_textval_append(*t, b))),
    }
}

/// The entries of `b` whose labels are not in `skip`.
pub open spec fn spec_fields_not_in(b: Lst<(Label, Value)>, skip: Lst<(Label, Value)>) -> Lst<
    (Label, Value),
>
    decreases b,
{
    match b {
        Lst::Nil => Lst::Nil,
        Lst::Cons(p, t) => if contains_label(skip, p.0) {
            spec_fields_not_in(*t, skip)
        } else {
            Lst::Cons(p, Box::new(spec_fields_not_in(*t, skip)))
        },
    }
}

/// Mirror of the right-biased record-value merge (`rest` walks the left
/// record, `whole_a` masks the right one's extras).
pub open spec fn spec_rb_merge(
    rest: Lst<(Label, Value)>,
    b: Lst<(Label, Value)>,
    whole_a: Lst<(Label, Value)>,
) -> Lst<(Label, Value)>
    decreases rest,
{
    match rest {
        Lst::Nil => spec_fields_not_in(b, whole_a),
        Lst::Cons(p, t) => {
            let here = match assoc_lookup(b, p.0) {
                Option::Some(vb) => (p.0, vb),
                Option::None => (p.0, p.1),
            };
            Lst::Cons(here, Box::new(spec_rb_merge(*t, b, whole_a)))
        },
    }
}

/// Mirror of the recursive record-value merge.
pub open spec fn spec_rr_merge(
    rest: Lst<(Label, Value)>,
    b: Lst<(Label, Value)>,
    whole_a: Lst<(Label, Value)>,
) -> Lst<(Label, Value)>
    decreases rest,
{
    match rest {
        Lst::Nil => spec_fields_not_in(b, whole_a),
        Lst::Cons(p, t) => {
            let here = match assoc_lookup(b, p.0) {
                Option::Some(vb) => match (p.1, vb) {
                    (Value::RecordLit(ka), Value::RecordLit(kb)) => (
                        p.0,
                        Value::RecordLit(Box::new(spec_rr_merge(*ka, *kb, *ka))),
                    ),
                    (x, vb2) => (p.0, vb2),
                },
                Option::None => (p.0, p.1),
            };
            Lst::Cons(here, Box::new(spec_rr_merge(*t, b, whole_a)))
        },
    }
}

/// Mirror of the recursive record-type merge.
pub open spec fn spec_rrtm_merge(
    rest: Lst<(Label, Value)>,
    b: Lst<(Label, Value)>,
    whole_a: Lst<(Label, Value)>,
) -> Lst<(Label, Value)>
    decreases rest,
{
    match rest {
        Lst::Nil => spec_fields_not_in(b, whole_a),
        Lst::Cons(p, t) => {
            let here = match assoc_lookup(b, p.0) {
                Option::Some(vb) => match (p.1, vb) {
                    (Value::RecordType(ka, u1), Value::RecordType(kb, u2)) => (
                        p.0,
                        Value::RecordType(Box::new(spec_rrtm_merge(*ka, *kb, *ka)), Option::None),
                    ),
                    (x, vb2) => (p.0, vb2),
                },
                Option::None => (p.0, p.1),
            };
            Lst::Cons(here, Box::new(spec_rrtm_merge(*t, b, whole_a)))
        },
    }
}

/// Mirror of `project_fields`.
pub open spec fn spec_project_fields(kvs: Lst<(Label, Value)>, labels: Lst<Label>) -> Option<
    Lst<(Label, Value)>,
>
    decreases labels,
{
    match labels {
        Lst::Nil => Option::Some(Lst::Nil),
        Lst::Cons(x, t) => match assoc_lookup(kvs, x) {
            Option::Some(v) => match spec_project_fields(kvs, *t) {
                Option::Some(rest) => Option::Some(Lst::Cons((x, v), Box::new(rest))),
                Option::None => Option::None,
            },
            Option::None => Option::None,
        },
    }
}

/// Mirror of `eval`: the value of `e` under `env` with the given budget.
pub open spec fn spec_eval(fuel: u64, env: Lst<EnvItem>, e: Expr) -> Result<Value, TypeError>
    decreases fuel, e,
{
    match e {
        Expr::Var(v) => match spec_env_lookup(env, v.name, v.idx as nat) {
            Option::Some(val) => Result::Ok(val),
            Option::None => Result::Ok(spec_stuck(env, e)),
        },
        Expr::Lam(x, a, b) => match spec_eval(fuel, env, *a) {
            Result::Ok(av) => Result::Ok(
                Value::Lam(x, Box::new(av), Closure::ExprClosure(Box::new(env), x, b)),
            ),
            Result::Err(err) => Result::Err(err),
        },
        Expr::Pi(x, a, b) => match spec_eval(fuel, env, *a) {
            Result::Ok(av) => Result::Ok(
                Value::PiClosure(x, Box::new(av), Closure::ExprClosure(Box::new(env), x, b)),
            ),
            Result::Err(err) => Result::Err(err),
        },
        Expr::Let(x, t, v, b) => match spec_eval(fuel, env, *v) {
            Result::Ok(vv) => spec_eval(
                fuel,
                Lst::Cons(EnvItem { name: x, val: vv }, Box::new(env)),
                *b,
            ),
            Result::Err(err) => Result::Err(err),
        },
        Expr::App(f, a) => match spec_eval(fuel, env, *f) {
            Result::Ok(fv) => match spec_eval(fuel, env, *a) {
                Result::Ok(av) => if fuel == 0 {
                    spec_depth_err()
                } else {
                    spec_apply_val((fuel - 1) as u64, fv, av)
                },
                Result::Err(err) => Result::Err(err),
            },
            Result::Err(err) => Result::Err(err),
        },
        Expr::Annot(x, t) => spec_eval(fuel, env, *x),
        Expr::Const(c) => Result::Ok(Value::Const(c)),
        Expr::Builtin(b) => Result::Ok(Value::AppliedBuiltin(b, Box::new(Lst::Nil))),
        Expr::BoolLit(x) => Result::Ok(Value::BoolLit(x)),
        Expr::NaturalLit(x) => Result::Ok(Value::NaturalLit(x)),
        Expr::IntegerLit(x) => Result::Ok(Value::IntegerLit(x)),
        Expr::DoubleLit(x) => Result::Ok(Value::DoubleLit(x)),
        Expr::TextLit(parts) => match spec_eval_text(fuel, env, *parts) {
            Result::Ok(ps) => Result::Ok(Value::TextLit(Box::new(ps))),
            Result::Err(err) => Result::Err(err),
        },
        Expr::EmptyListLit(t) => match spec_eval(fuel, env, *t) {
            Result::Ok(tv) => Result::Ok(Value::EmptyListLit(Box::new(tv))),
            Result::Err(err) => Result::Err(err),
        },
        Expr::NEListLit(xs) => match spec_eval_list(fuel, env, *xs) {
            Result::Ok(vs) => Result::Ok(Value::NEListLit(Box::new(vs))),
            Result::Err(err) => Result::Err(err),
        },
        Expr::SomeLit(x) => match spec_eval(fuel, env, *x) {
            Result::Ok(xv) => Result::Ok(Value::SomeLit(Box::new(xv))),
            Result::Err(err) => Result::Err(err),
        },
        Expr::RecordLit(kvs) => match spec_eval_fields(fuel, env, *kvs) {
            Result::Ok(vs) => Result::Ok(Value::RecordLit(Box::new(vs))),
            Result::Err(err) => Result::Err(err),
        },
        Expr::RecordType(kts) => match spec_eval_fields(fuel, env, *kts) {
            Result::Ok(vs) => Result::Ok(Value::RecordType(Box::new(vs), Option::None)),
            Result::Err(err) => Result::Err(err),
        },
        Expr::UnionType(kts) => match spec_eval_union(fuel, env, *kts) {
            Result::Ok(vs) => Result::Ok(Value::UnionType(Box::new(vs))),
            Result::Err(err) => Result::Err(err),
        },
        Expr::Field(rec, x) => match spec_eval(fuel, env, *rec) {
            Result::Ok(rv) => match rv {
                Value::RecordLit(kvs) => match assoc_lookup(*kvs, x) {
                    Option::Some(v) => Result::Ok(v),
                    Option::None => Result::Ok(spec_stuck(env, e)),
                },
                _ => Result::Ok(spec_stuck(env, e)),
            },
            Result::Err(err) => Result::Err(err),
        },
        Expr::Projection(rec, ls) => match spec_eval(fuel, env, *rec) {
            Result::Ok(rv) => match rv {
                Value::RecordLit(kvs) => match spec_project_fields(*kvs, ls) {
                    Option::Some(sub) => Result::Ok(Value::RecordLit(Box::new(sub))),
                    Option::None => Result::Ok(spec_stuck(env, e)),
                },
                _ => Result::Ok(spec_stuck(env, e)),
            },
            Result::Err(err) => Result::Err(err),
        },
        Expr::Merge(rec, scrut, t) => match spec_eval(fuel, env, *rec) {
            Result::Ok(rv) => match spec_eval(fuel, env, *scrut) {
                Result::Ok(sv) => match rv {
                    Value::RecordLit(handlers) => match sv {
                        Value::SomeLit(x) => match assoc_lookup(*handlers, Label { id: 1 }) {
                            Option::Some(h) => if fuel == 0 {
                                spec_depth_err()
                            } else {
                                spec_apply_val((fuel - 1) as u64, h, *x)
                            },
                            Option::None => Result::Ok(spec_stuck(env, e)),
                        },
                        Value::AppliedBuiltin(Builtin::OptionalNone, args) => match assoc_lookup(
                            *handlers,
                            Label { id: 0 },
                        ) {
                            Option::Some(h) => Result::Ok(h),
                            Option::None => Result::Ok(spec_stuck(env, e)),
                        },
                        _ => Result::Ok(spec_stuck(env, e)),
                    },
                    _ => Result::Ok(spec_stuck(env, e)),
                },
                Result::Err(err) => Result::Err(err),
            },
            Result::Err(err) => Result::Err(err),
        },
        Expr::Assert(t) => Result::Ok(spec_stuck(env, e)),
        Expr::BoolIf(c, x, y) => match spec_eval(fuel, env, *c) {
            Result::Ok(cv) => match cv {
                Value::BoolLit(true) => spec_eval(fuel, env, *x),
                Value::BoolLit(false) => spec_eval(fuel, env, *y),
                _ => Result::Ok(spec_stuck(env, e)),
            },
            Result::Err(err) => Result::Err(err),
        },
        Expr::BinOp(o, l, r2) => match spec_eval(fuel, env, *l) {
            Result::Ok(lv) => match spec_eval(fuel, env, *r2) {
                Result::Ok(rv) => spec_eval_binop(env, e, o, lv, rv),
                Result::Err(err) => Result::Err(err),
            },
            Result::Err(err) => Result::Err(err),
        },
        Expr::ToMap(x, t) => Result::Ok(spec_stuck(env, e)),
        Expr::ProjectionByExpr(x, t) => Result::Ok(spec_stuck(env, e)),
        Expr::Completion(x, t) => Result::Ok(spec_stuck(env, e)),
        Expr::Embed(t) => Result::Ok(t.val),
        Expr::Import(i) => Result::Ok(spec_stuck(env, e)),
    }
}

/// Mirror of the binary-operator step of `eval`, on already-evaluated
/// operands; `e` is the whole operator expression, kept for residuals.
pub open spec fn spec_eval_binop(env: Lst<EnvItem>, e: Expr, o: BinOp, lv: Value, rv: Value)
    -> Result<Value, TypeError> {
    match o {
        BinOp::BoolAnd => match (lv, rv) {
            (Value::BoolLit(a), Value::BoolLit(b)) => Result::Ok(Value::BoolLit(a && b)),
            _ => Result::Ok(spec_stuck(env, e)),
        },
        BinOp::BoolOr => match (lv, rv) {
            (Value::BoolLit(a), Value::BoolLit(b)) => Result::Ok(Value::BoolLit(a || b)),
            _ => Result::Ok(spec_stuck(env, e)),
        },
        BinOp::BoolEQ => match (lv, rv) {
            (Value::BoolLit(a), Value::BoolLit(b)) => Result::Ok(Value::BoolLit(a == b)),
            _ => Result::Ok(spec_stuck(env, e)),
        },
        BinOp::BoolNE => match (lv, rv) {
            (Value::BoolLit(a), Value::BoolLit(b)) => Result::Ok(Value::BoolLit(a != b)),
            _ => Result::Ok(spec_stuck(env, e)),
        },
        BinOp::NaturalPlus => match (lv, rv) {
            (Value::NaturalLit(a), Value::NaturalLit(b)) => if a + b <= u64::MAX {
                Result::Ok(Value::NaturalLit((a + b) as u64))
            } else {
                Result::Ok(spec_stuck(env, e))
            },
            _ => Result::Ok(spec_stuck(env, e)),
        },
        BinOp::NaturalTimes => match (lv, rv) {
            (Value::NaturalLit(a), Value::NaturalLit(b)) => if a * b <= u64::MAX {
                Result::Ok(Value::NaturalLit((a * b) as u64))
            } else {
                Result::Ok(spec_stuck(env, e))
            },
            _ => Result::Ok(spec_stuck(env, e)),
        },
        BinOp::TextAppend => match (lv, rv) {
            (Value::TextLit(a), Value::TextLit(b)) => Result::Ok(
                Value::TextLit(Box::new(spec_textval_append(*a, *b))),
            ),
            _ => Result::Ok(spec_stuck(env, e)),
        },
        BinOp::ListAppend => match (lv, rv) {
            (Value::EmptyListLit(t), other) => Result::Ok(other),
            (other, Value::EmptyListLit(t)) => Result::Ok(other),
            (Value::NEListLit(a), Value::NEListLit(b)) => Result::Ok(
                Value::NEListLit(Box::new(spec_values_append(*a, *b))),
            ),
            _ => Result::Ok(spec_stuck(env, e)),
        },
        BinOp::RightBiasedRecordMerge => match (lv, rv) {
            (Value::RecordLit(a), Value::RecordLit(b)) => Result::Ok(
                Value::RecordLit(Box::new(spec_rb_merge(*a, *b, *a))),
            ),
            _ => Result::Ok(spec_stuck(env, e)),
        },
        BinOp::RecursiveRecordMerge => match (lv, rv) {
            (Value::RecordLit(a), Value::RecordLit(b)) => Result::Ok(
                Value::RecordLit(Box::new(spec_rr_merge(*a, *b, *a))),
            ),
            _ => Result::Ok(spec_stuck(env, e)),
        },
        BinOp::RecursiveRecordTypeMerge => match (lv, rv) {
            (Value::RecordType(a, u1), Value::RecordType(b, u2)) => Result::Ok(
                Value::RecordType(Box::new(spec_rrtm_merge(*a, *b, *a)), Option::None),
            ),
            _ => Result::Ok(spec_stuck(env, e)),
        },
        BinOp::Equivalence => Result::Ok(Value::Equivalence(Box::new(lv), Box::new(rv))),
        BinOp::ImportAlt => Result::Ok(spec_stuck(env, e)),
    }
}

pub open spec fn spec_eval_list(fuel: u64, env: Lst<EnvItem>, xs: Lst<Expr>) -> Result<
    Lst<Value>,
    TypeError,
>
    decreases fuel, xs,
{
    match xs {
        Lst::Nil => Result::Ok(Lst::Nil),
        Lst::Cons(h, t) => match spec_eval(fuel, env, h) {
            Result::Ok(hv) => match spec_eval_list(fuel, env, *t) {
                Result::Ok(tv) => Result::Ok(Lst::Cons(hv, Box::new(tv))),
                Result::Err(err) => Result::Err(err),
            },
            Result::Err(err) => Result::Err(err),
        },
    }
}

pub open spec fn spec_eval_fields(fuel: u64, env: Lst<EnvItem>, fs: Lst<(Label, Expr)>) -> Result<
    Lst<(Label, Value)>,
    TypeError,
>
    decreases fuel, fs,
{
    match fs {
        Lst::Nil => Result::Ok(Lst::Nil),
        Lst::Cons(p, t) => match spec_eval(fuel, env, p.1) {
            Result::Ok(hv) => match spec_eval_fields(fuel, env, *t) {
                Result::Ok(tv) => Result::Ok(Lst::Cons((p.0, hv), Box::new(tv))),
                Result::Err(err) => Result::Err(err),
            },
            Result::Err(err) => Result::Err(err),
        },
    }
}

pub open spec fn spec_eval_union(fuel: u64, env: Lst<EnvItem>, fs: Lst<(Label, Option<Expr>)>)
    -> Result<Lst<(Label, Option<Value>)>, TypeError>
    decreases fuel, fs,
{
    match fs {
        Lst::Nil => Result::Ok(Lst::Nil),
        Lst::Cons(p, t) => match p.1 {
            Option::Some(x) => match spec_eval(fuel, env, x) {
                Result::Ok(hv) => match spec_eval_union(fuel, env, *t) {
                    Result::Ok(tv) => Result::Ok(
                        Lst::Cons((p.0, Option::Some(hv)), Box::new(tv)),
                    ),
                    Result::Err(err) => Result::Err(err),
                },
                Result::Err(err) => Result::Err(err),
            },
            Option::None => match spec_eval_union(fuel, env, *t) {
                Result::Ok(tv) => Result::Ok(Lst::Cons((p.0, Option::None), Box::new(tv))),
                Result::Err(err) => Result::Err(err),
            },
        },
    }
}

pub open spec fn spec_eval_text(fuel: u64, env: Lst<EnvItem>, ps: Lst<InterpolatedTextContents>)
    -> Result<Lst<TextValPart>, TypeError>
    decreases fuel, ps,
{
    match ps {
        Lst::Nil => Result::Ok(Lst::Nil),
        Lst::Cons(p, t) => match p {
            InterpolatedTextContents::Text(s) => match spec_eval_text(fuel, env, *t) {
                Result::Ok(tv) => Result::Ok(Lst::Cons(TextValPart::Chunk(s), Box::new(tv))),
                Result::Err(err) => Result::Err(err),
            },
            InterpolatedTextContents::Expr(x) => match spec_eval(fuel, env, *x) {
                Result::Ok(hv) => match spec_eval_text(fuel, env, *t) {
                    Result::Ok(tv) => Result::Ok(
                        Lst::Cons(TextValPart::Embedded(hv), Box::new(tv)),
                    ),
                    Result::Err(err) => Result::Err(err),
                },
                Result::Err(err) => Result::Err(err),
            },
        },
    }
}

/// Mirror of `remove_binder`.
pub open spec fn spec_remove_binder(fuel: u64, c: Closure) -> Result<Option<Value>, TypeError> {
    match c {
        Closure::ExprClosure(env, x, body) => if spec_free_in(x, 0, *body) {
            Result::Ok(Option::None)
        } else if fuel == 0 {
            spec_depth_err()
        } else {
            match spec_eval(
                (fuel - 1) as u64,
                Lst::Cons(EnvItem { name: x, val: Value::Const(Const::Sort) }, Box::new(*env)),
                *body,
            ) {
                Result::Ok(v) => Result::Ok(Option::Some(v)),
                Result::Err(err) => Result::Err(err),
            }
        },
        Closure::ValClosure(l, body) => if spec_occurs_value(l, *body) {
            Result::Ok(Option::None)
        } else {
            Result::Ok(Option::Some(*body))
        },
        Closure::ConstClosure(body) => Result::Ok(Option::Some(*body)),
    }
}

/// Mirror of `conv`.
pub open spec fn spec_conv(fuel: u64, size: usize, a: Value, b: Value) -> Result<bool, TypeError>
    decreases fuel, a, 0int,
{
    match (a, b) {
        (Value::Const(c1), Value::Const(c2)) => Result::Ok(c1 == c2),
        (Value::AppliedBuiltin(b1, a1), Value::AppliedBuiltin(b2, a2)) => if b1 == b2 {
            spec_conv_list(fuel, size, *a1, *a2)
        } else {
            Result::Ok(false)
        },
        (Value::NeutralVar(l1), Value::NeutralVar(l2)) => Result::Ok(l1 == l2),
        (Value::NeutralApp(f1, x1), Value::NeutralApp(f2, x2)) => match spec_conv(
            fuel,
            size,
            *f1,
            *f2,
        ) {
            Result::Ok(fe) => if fe {
                spec_conv(fuel, size, *x1, *x2)
            } else {
                Result::Ok(false)
            },
            Result::Err(err) => Result::Err(err),
        },
        (Value::Lam(x1, a1, c1), Value::Lam(x2, a2, c2)) => spec_conv_under_binder(
            fuel,
            size,
            *a1,
            *a2,
            c1,
            c2,
        ),
        (Value::PiClosure(x1, a1, c1), Value::PiClosure(x2, a2, c2)) => spec_conv_under_binder(
            fuel,
            size,
            *a1,
            *a2,
            c1,
            c2,
        ),
        (Value::BoolLit(x), Value::BoolLit(y)) => Result::Ok(x == y),
        (Value::NaturalLit(x), Value::NaturalLit(y)) => Result::Ok(x == y),
        (Value::IntegerLit(x), Value::IntegerLit(y)) => Result::Ok(x == y),
        (Value::DoubleLit(x), Value::DoubleLit(y)) => Result::Ok(x == y),
        (Value::TextLit(x), Value::TextLit(y)) => spec_conv_text(fuel, size, *x, *y),
        (Value::EmptyListLit(x), Value::EmptyListLit(y)) => spec_conv(fuel, size, *x, *y),
        (Value::NEListLit(x), Value::NEListLit(y)) => spec_conv_list(fuel, size, *x, *y),
        (Value::SomeLit(x), Value::SomeLit(y)) => spec_conv(fuel, size, *x, *y),
        (Value::RecordLit(x), Value::RecordLit(y)) => spec_conv_fields(fuel, size, *x, *y),
        (Value::RecordType(x, u1), Value::RecordType(y, u2)) => spec_conv_fields(fuel, size, *x, *y),
        (Value::UnionType(x), Value::UnionType(y)) => spec_conv_union(fuel, size, *x, *y),
        (Value::Equivalence(x1, y1), Value::Equivalence(x2, y2)) => match spec_conv(
            fuel,
            size,
            *x1,
            *x2,
        ) {
            Result::Ok(xe) => if xe {
                spec_conv(fuel, size, *y1, *y2)
            } else {
                Result::Ok(false)
            },
            Result::Err(err) => Result::Err(err),
        },
        _ => Result::Ok(false),
    }
}

pub open spec fn spec_conv_under_binder(
    fuel: u64,
    size: usize,
    a1: Value,
    a2: Value,
    c1: Closure,
    c2: Closure,
) -> Result<bool, TypeError>
    decreases fuel, a1, 1int,
{
    match spec_conv(fuel, size, a1, a2) {
        Result::Ok(ae) => if !ae {
            Result::Ok(false)
        } else if size == usize::MAX || fuel == 0 {
            Result::Ok(false)
        } else {
            match spec_apply_closure((fuel - 1) as u64, c1, Value::NeutralVar(size)) {
                Result::Ok(b1) => match spec_apply_closure(
                    (fuel - 1) as u64,
                    c2,
                    Value::NeutralVar(size),
                ) {
                    Result::Ok(b2) => spec_conv((fuel - 1) as u64, (size + 1) as usize, b1, b2),
                    Result::Err(err) => Result::Err(err),
                },
                Result::Err(err) => Result::Err(err),
            }
        },
        Result::Err(err) => Result::Err(err),
    }
}

pub open spec fn spec_conv_list(fuel: u64, size: usize, a: Lst<Value>, b: Lst<Value>) -> Result<
    bool,
    TypeError,
>
    decreases fuel, a, 1int,
{
    match (a, b) {
        (Lst::Nil, Lst::Nil) => Result::Ok(true),
        (Lst::Cons(x, xt), Lst::Cons(y, yt)) => match spec_conv(fuel, size, x, y) {
            Result::Ok(he) => if he {
                spec_conv_list(fuel, size, *xt, *yt)
            } else {
                Result::Ok(false)
            },
            Result::Err(err) => Result::Err(err),
        },
        _ => Result::Ok(false),
    }
}

pub open spec fn spec_conv_fields(
    fuel: u64,
    size: usize,
    a: Lst<(Label, Value)>,
    b: Lst<(Label, Value)>,
) -> Result<bool, TypeError>
    decreases fuel, a, 2int,
{
    match spec_conv_fields_fwd(fuel, size, a, b) {
        Result::Ok(fwd) => Result::Ok(fwd && spec_labels_covered(b, a)),
        Result::Err(err) => Result::Err(err),
    }
}

pub open spec fn spec_conv_fields_fwd(
    fuel: u64,
    size: usize,
    a: Lst<(Label, Value)>,
    b: Lst<(Label, Value)>,
) -> Result<bool, TypeError>
    decreases fuel, a, 1int,
{
    match a {
        Lst::Nil => Result::Ok(true),
        Lst::Cons(p, t) => match assoc_lookup(b, p.0) {
            Option::Some(vb) => match spec_conv(fuel, size, p.1, vb) {
                Result::Ok(he) => if he {
                    spec_conv_fields_fwd(fuel, size, *t, b)
                } else {
                    Result::Ok(false)
                },
                Result::Err(err) => Result::Err(err),
            },
            Option::None => Result::Ok(false),
        },
    }
}

/// Every label of `b` occurs in `a`.
pub open spec fn spec_labels_covered<T, U>(b: Lst<(Label, T)>, a: Lst<(Label, U)>) -> bool
    decreases b,
{
    match b {
        Lst::Nil => true,
        Lst::Cons(p, t) => contains_label(a, p.0) && spec_labels_covered(*t, a),
    }
}

pub open spec fn spec_conv_union(
    fuel: u64,
    size: usize,
    a: Lst<(Label, Option<Value>)>,
    b: Lst<(Label, Option<Value>)>,
) -> Result<bool, TypeError>
    decreases fuel, a, 2int,
{
    match spec_conv_union_fwd(fuel, size, a, b) {
        Result::Ok(fwd) => Result::Ok(fwd && spec_labels_covered(b, a)),
        Result::Err(err) => Result::Err(err),
    }
}

pub open spec fn spec_conv_union_fwd(
    fuel: u64,
    size: usize,
    a: Lst<(Label, Option<Value>)>,
    b: Lst<(Label, Option<Value>)>,
) -> Result<bool, TypeError>
    decreases fuel, a, 1int,
{
    match a {
        Lst::Nil => Result::Ok(true),
        Lst::Cons(p, t) => match assoc_lookup(b, p.0) {
            Option::Some(vb) => match (p.1, vb) {
                (Option::None, Option::None) => spec_conv_union_fwd(fuel, size, *t, b),
                (Option::Some(x), Option::Some(y)) => match spec_conv(fuel, size, x, y) {
                    Result::Ok(he) => if he {
                        spec_conv_union_fwd(fuel, size, *t, b)
                    } else {
                        Result::Ok(false)
                    },
                    Result::Err(err) => Result::Err(err),
                },
                _ => Result::Ok(false),
            },
            Option::None => Result::Ok(false),
        },
    }
}

pub open spec fn spec_conv_text(fuel: u64, size: usize, a: Lst<TextValPart>, b: Lst<TextValPart>)
    -> Result<bool, TypeError>
    decreases fuel, a, 1int,
{
    match (a, b) {
        (Lst::Nil, Lst::Nil) => Result::Ok(true),
        (Lst::Cons(x, xt), Lst::Cons(y, yt)) => match (x, y) {
            (TextValPart::Chunk(s1), TextValPart::Chunk(s2)) => if s1 == s2 {
                spec_conv_text(fuel, size, *xt, *yt)
            } else {
                Result::Ok(false)
            },
            (TextValPart::Embedded(v1), TextValPart::Embedded(v2)) => match spec_conv(
                fuel,
                size,
                v1,
                v2,
            ) {
                Result::Ok(he) => if he {
                    spec_conv_text(fuel, size, *xt, *yt)
                } else {
                    Result::Ok(false)
                },
                Result::Err(err) => Result::Err(err),
            },
            _ => Result::Ok(false),
        },
        _ => Result::Ok(false),
    }
}

// ---------------------------------------------------------------------------
// Reflexivity of conversion on first-order values. This is the kernel of the
// idempotence of annotation: the annotation judgment accepts exactly when
// the synthesised type converts to the evaluated annotation, so whenever the
// annotation evaluates back to the synthesised type itself — a first-order
// value — the check passes and returns the same type.
// ---------------------------------------------------------------------------

/// A first-order value: no suspended closure and no residual term anywhere,
/// and every record or union inside has pairwise-distinct labels. Ground
/// types, and every type built from them without binders, are first-order.
pub open spec fn first_order(v: Value) -> bool
    decreases v,
{
    match v {
        Value::Const(_) => true,
        Value::AppliedBuiltin(_, args) => first_order_list(*args),
        Value::NeutralVar(_) => true,
        Value::NeutralApp(f, a) => first_order(*f) && first_order(*a),
        Value::Lam(_, _, _) => false,
        Value::PiClosure(_, _, _) => false,
        Value::BoolLit(_) => true,
        Value::NaturalLit(_) => true,
        Value::IntegerLit(_) => true,
        Value::DoubleLit(_) => true,
        Value::TextLit(parts) => first_order_text(*parts),
        Value::EmptyListLit(t) => first_order(*t),
        Value::NEListLit(xs) => first_order_list(*xs),
        Value::SomeLit(x) => first_order(*x),
        Value::RecordLit(kvs) => !has_dup_labels(*kvs) && first_order_fields(*kvs),
        Value::RecordType(kts, u) => !has_dup_labels(*kts) && first_order_fields(*kts),
        Value::UnionType(kts) => !has_dup_labels(*kts) && first_order_union(*kts),
        Value::Equivalence(a, b) => first_order(*a) && first_order(*b),
        Value::Residual(_, _) => false,
    }
}

pub open spec fn first_order_list(l: Lst<Value>) -> bool
    decreases l,
{
    match l {
        Lst::Nil => true,
        Lst::Cons(h, t) => first_order(h) && first_order_list(*t),
    }
}

pub open spec fn first_order_fields(l: Lst<(Label, Value)>) -> bool
    decreases l,
{
    match l {
        Lst::Nil => true,
        Lst::Cons(p, t) => first_order(p.1) && first_order_fields(*t),
    }
}

pub open spec fn first_order_union(l: Lst<(Label, Option<Value>)>) -> bool
    decreases l,
{
    match l {
        Lst::Nil => true,
        Lst::Cons(p, t) => (match p.1 {
            Option::Some(v) => first_order(v),
            Option::None => true,
        }) && first_order_union(*t),
    }
}

pub open spec fn first_order_text(l: Lst<TextValPart>) -> bool
    decreases l,
{
    match l {
        Lst::Nil => true,
        Lst::Cons(p, t) => (match p {
            TextValPart::Chunk(_) => true,
            TextValPart::Embedded(v) => first_order(v),
        }) && first_order_text(*t),
    }
}

/// `t` is a suffix of `whole`.
pub open spec fn is_suffix<T>(t: Lst<T>, whole: Lst<T>) -> bool
    decreases whole,
{
    t == whole || (match whole {
        Lst::Nil => false,
        Lst::Cons(h, w) => is_suffix(t, *w),
    })
}

/// A label heading a suffix occurs in the whole list.
proof fn lemma_suffix_contains<T>(p: (Label, T), t: Lst<(Label, T)>, whole: Lst<(Label, T)>)
    requires
        is_suffix(Lst::Cons(p, Box::new(t)), whole),
    ensures
        contains_label(whole, p.0),
    decreases whole,
{
    match whole {
        Lst::Nil => {},
        Lst::Cons(h, w) => {
            if Lst::Cons(p, Box::new(t)) != whole {
                lemma_suffix_contains(p, t, *w);
            }
        },
    }
}

/// In a duplicate-free list, an entry heading a suffix is what its label
/// looks up to.
proof fn lemma_suffix_lookup<T>(p: (Label, T), t: Lst<(Label, T)>, whole: Lst<(Label, T)>)
    requires
        is_suffix(Lst::Cons(p, Box::new(t)), whole),
        !has_dup_labels(whole),
    ensures
        assoc_lookup(whole, p.0) == Option::Some(p.1),
    decreases whole,
{
    match whole {
        Lst::Nil => {},
        Lst::Cons(h, w) => {
            if Lst::Cons(p, Box::new(t)) == whole {
            } else {
                lemma_suffix_contains(p, t, *w);
                lemma_suffix_lookup(p, t, *w);
            }
        },
    }
}

/// The tail of a suffix is a suffix.
proof fn lemma_suffix_tail<T>(h: T, t: Lst<T>, whole: Lst<T>)
    requires
        is_suffix(Lst::Cons(h, Box::new(t)), whole),
    ensures
        is_suffix(t, whole),
    decreases whole,
{
    match whole {
        Lst::Nil => {},
        Lst::Cons(w0, w) => {
            if Lst::Cons(h, Box::new(t)) == whole {
                assert(t == *w);
                assert(is_suffix(t, t));
            } else {
                lemma_suffix_tail(h, t, *w);
            }
        },
    }
}

/// Every label of a suffix occurs in the whole list.
proof fn lemma_suffix_covered<T>(t: Lst<(Label, T)>, whole: Lst<(Label, T)>)
    requires
        is_suffix(t, whole),
    ensures
        spec_labels_covered(t, whole),
    decreases t,
{
    match t {
        Lst::Nil => {},
        Lst::Cons(p, r) => {
            lemma_suffix_contains(p, *r, whole);
            lemma_suffix_tail(p, *r, whole);
            lemma_suffix_covered(*r, whole);
        },
    }
}

/// Conversion is reflexive on first-order values, whatever the budget and
/// binder depth: a synthesised first-order type always converts to itself.
pub proof fn lemma_conv_refl(fuel: u64, size: usize, a: Value)
    requires
        first_order(a),
    ensures
        spec_conv(fuel, size, a, a) == Result::<bool, TypeError>::Ok(true),
    decreases a, 1int,
{
    match a {
        Value::AppliedBuiltin(b, args) => {
            lemma_conv_list_refl(fuel, size, *args);
        },
        Value::NeutralApp(f, x) => {
            lemma_conv_refl(fuel, size, *f);
            lemma_conv_refl(fuel, size, *x);
        },
        Value::TextLit(parts) => {
            lemma_conv_text_refl(fuel, size, *parts);
        },
        Value::EmptyListLit(t) => {
            lemma_conv_refl(fuel, size, *t);
        },
        Value::NEListLit(xs) => {
            lemma_conv_list_refl(fuel, size, *xs);
        },
        Value::SomeLit(x) => {
            lemma_conv_refl(fuel, size, *x);
        },
        Value::RecordLit(kvs) => {
            lemma_conv_fields_refl(fuel, size, *kvs);
        },
        Value::RecordType(kts, u) => {
            lemma_conv_fields_refl(fuel, size, *kts);
        },
        Value::UnionType(kts) => {
            lemma_conv_union_refl(fuel, size, *kts);
        },
        Value::Equivalence(x, y) => {
            lemma_conv_refl(fuel, size, *x);
            lemma_conv_refl(fuel, size, *y);
        },
        _ => {},
    }
}

proof fn lemma_conv_list_refl(fuel: u64, size: usize, l: Lst<Value>)
    requires
        first_order_list(l),
    ensures
        spec_conv_list(fuel, size, l, l) == Result::<bool, TypeError>::Ok(true),
    decreases l, 1int,
{
    match l {
        Lst::Nil => {},
        Lst::Cons(x, t) => {
            lemma_conv_refl(fuel, size, x);
            lemma_conv_list_refl(fuel, size, *t);
        },
    }
}

proof fn lemma_conv_fields_refl(fuel: u64, size: usize, l: Lst<(Label, Value)>)
    requires
        !has_dup_labels(l),
        first_order_fields(l),
    ensures
        spec_conv_fields(fuel, size, l, l) == Result::<bool, TypeError>::Ok(true),
    decreases l, 1int,
{
    lemma_conv_fields_fwd_refl(fuel, size, l, l);
    lemma_suffix_covered(l, l);
}

proof fn lemma_conv_fields_fwd_refl(
    fuel: u64,
    size: usize,
    t: Lst<(Label, Value)>,
    whole: Lst<(Label, Value)>,
)
    requires
        is_suffix(t, whole),
        !has_dup_labels(whole),
        first_order_fields(t),
    ensures
        spec_conv_fields_fwd(fuel, size, t, whole) == Result::<bool, TypeError>::Ok(true),
    decreases t, 0int,
{
    match t {
        Lst::Nil => {},
        Lst::Cons(p, r) => {
            lemma_suffix_lookup(p, *r, whole);
            lemma_conv_refl(fuel, size, p.1);
            lemma_suffix_tail(p, *r, whole);
            lemma_conv_fields_fwd_refl(fuel, size, *r, whole);
        },
    }
}

proof fn lemma_conv_union_refl(fuel: u64, size: usize, l: Lst<(Label, Option<Value>)>)
    requires
        !has_dup_labels(l),
        first_order_union(l),
    ensures
        spec_conv_union(fuel, size, l, l) == Result::<bool, TypeError>::Ok(true),
    decreases l, 1int,
{
    lemma_conv_union_fwd_refl(fuel, size, l, l);
    lemma_suffix_covered(l, l);
}

proof fn lemma_conv_union_fwd_refl(
    fuel: u64,
    size: usize,
    t: Lst<(Label, Option<Value>)>,
    whole: Lst<(Label, Option<Value>)>,
)
    requires
        is_suffix(t, whole),
        !has_dup_labels(whole),
        first_order_union(t),
    ensures
        spec_conv_union_fwd(fuel, size, t, whole) == Result::<bool, TypeError>::Ok(true),
    decreases t, 0int,
{
    match t {
        Lst::Nil => {},
        Lst::Cons(p, r) => {
            lemma_suffix_lookup(p, *r, whole);
            match p.1 {
                Option::Some(v) => {
                    lemma_conv_refl(fuel, size, v);
                },
                Option::None => {},
            }
            lemma_suffix_tail(p, *r, whole);
            lemma_conv_union_fwd_refl(fuel, size, *r, whole);
        },
    }
}

proof fn lemma_conv_text_refl(fuel: u64, size: usize, l: Lst<TextValPart>)
    requires
        first_order_text(l),
    ensures
        spec_conv_text(fuel, size, l, l) == Result::<bool, TypeError>::Ok(true),
    decreases l, 1int,
{
    match l {
        Lst::Nil => {},
        Lst::Cons(p, t) => {
            match p {
                TextValPart::Embedded(v) => {
                    lemma_conv_refl(fuel, size, v);
                },
                TextValPart::Chunk(s) => {},
            }
            lemma_conv_text_refl(fuel, size, *t);
        },
    }
}

} // verus!
