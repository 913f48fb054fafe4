//! Normalised (semantic) values, the closures suspended under binders, and
//! deep-copy helpers for both the value and the expression trees.
//!
//! Bound variables inside values are de Bruijn *levels* (`NeutralVar(l)`:
//! `l` counts binders from the outside in), so weakening a value to a larger
//! scope never renumbers it.

use vstd::prelude::*;
use crate::syntax::{Builtin, Const, Expr, InterpolatedTextContents, Label, Lst};

verus! {

/// One frame of an evaluation environment: the binder's label and the value
/// the variable stands for (a `NeutralVar` for an opaque binder, a concrete
/// value for a `let`-bound one).
#[derive(Debug)]
pub struct EnvItem {
    pub name: Label,
    pub val: Value,
}

/// A suspended function body: how it produces a value from an argument.
#[derive(Debug)]
pub enum Closure {
    /// A source body with its captured environment; applying evaluates the
    /// body with the binder bound to the argument.
    ExprClosure(Box<Lst<EnvItem>>, Label, Box<Expr>),
    /// A value abstracted over the neutral variable at the given level;
    /// applying substitutes the argument for that level.
    ValClosure(usize, Box<Value>),
    /// A closure that ignores its argument.
    ConstClosure(Box<Value>),
}

/// One piece of a normalised interpolated text value.
#[derive(Debug)]
pub enum TextValPart {
    Chunk(u64),
    Embedded(Value),
}

/// The weak-head-normal form of an expression. Constructors the typechecker
/// inspects are explicit; anything evaluation cannot reduce stays as a
/// neutral application or a residual term.
#[derive(Debug)]
pub enum Value {
    Const(Const),
    /// A builtin applied to zero or more arguments, e.g. `List Natural`.
    AppliedBuiltin(Builtin, Box<Lst<Value>>),
    /// A variable bound by an enclosing binder, as a de Bruijn level.
    NeutralVar(usize),
    /// An application whose head does not reduce.
    NeutralApp(Box<Value>, Box<Value>),
    Lam(Label, Box<Value>, Closure),
    PiClosure(Label, Box<Value>, Closure),
    BoolLit(bool),
    NaturalLit(u64),
    IntegerLit(i64),
    DoubleLit(u64),
    TextLit(Box<Lst<TextValPart>>),
    EmptyListLit(Box<Value>),
    NEListLit(Box<Lst<Value>>),
    SomeLit(Box<Value>),
    RecordLit(Box<Lst<(Label, Value)>>),
    /// A record type's fields, together with the universe the typechecker
    /// recorded for it when it built the value (`None` for record types that
    /// arose syntactically, whose universe is the max over the fields).
    /// Conversion ignores the tag: two record types are equal by fields.
    RecordType(Box<Lst<(Label, Value)>>, Option<Const>),
    UnionType(Box<Lst<(Label, Option<Value>)>>),
    Equivalence(Box<Value>, Box<Value>),
    /// A term evaluation left unreduced, with its environment.
    Residual(Box<Lst<EnvItem>>, Box<Expr>),
}

/// A resolved, typechecked expression: its value and its type (`None` for
/// `Sort`, the one expression with no classifying universe).
#[derive(Debug)]
pub struct Typed {
    pub val: Value,
    pub ty: Option<Value>,
}

impl Value {
    /// The universe tag when this value is a `Const`, else `None`.
    pub fn as_const(&self) -> (r: Option<Const>)
        ensures
            r == (match *self {
                Value::Const(c) => Option::Some(c),
                _ => Option::<Const>::None,
            }),
    {
        match self {
            Value::Const(c) => Option::Some(*c),
            _ => Option::None,
        }
    }
}

pub fn expr_clone(e: &Expr) -> (r: Expr)
    ensures
        r == *e,
    decreases *e,
{
    match e {
        Expr::Var(v) => Expr::Var(*v),
        Expr::Lam(x, a, b) => Expr::Lam(*x, Box::new(expr_clone(a)), Box::new(expr_clone(b))),
        Expr::Pi(x, a, b) => Expr::Pi(*x, Box::new(expr_clone(a)), Box::new(expr_clone(b))),
        Expr::Let(x, t, v, b) => Expr::Let(
            *x,
            match t {
                Option::Some(t) => Option::Some(Box::new(expr_clone(t))),
                Option::None => Option::None,
            },
            Box::new(expr_clone(v)),
            Box::new(expr_clone(b)),
        ),
        Expr::App(f, a) => Expr::App(Box::new(expr_clone(f)), Box::new(expr_clone(a))),
        Expr::Annot(x, t) => Expr::Annot(Box::new(expr_clone(x)), Box::new(expr_clone(t))),
        Expr::Const(c) => Expr::Const(*c),
        Expr::Builtin(b) => Expr::Builtin(*b),
        Expr::BoolLit(b) => Expr::BoolLit(*b),
        Expr::NaturalLit(n) => Expr::NaturalLit(*n),
        Expr::IntegerLit(n) => Expr::IntegerLit(*n),
        Expr::DoubleLit(n) => Expr::DoubleLit(*n),
        Expr::TextLit(parts) => Expr::TextLit(Box::new(text_contents_clone(parts))),
        Expr::EmptyListLit(t) => Expr::EmptyListLit(Box::new(expr_clone(t))),
        Expr::NEListLit(xs) => Expr::NEListLit(Box::new(expr_list_clone(xs))),
        Expr::SomeLit(x) => Expr::SomeLit(Box::new(expr_clone(x))),
        Expr::RecordLit(kvs) => Expr::RecordLit(Box::new(expr_fields_clone(kvs))),
        Expr::RecordType(kts) => Expr::RecordType(Box::new(expr_fields_clone(kts))),
        Expr::UnionType(kts) => Expr::UnionType(Box::new(expr_union_clone(kts))),
        Expr::Field(r, x) => Expr::Field(Box::new(expr_clone(r)), *x),
        Expr::Projection(r, ls) => Expr::Projection(Box::new(expr_clone(r)), label_list_clone(ls)),
        Expr::Merge(r, u, t) => Expr::Merge(
            Box::new(expr_clone(r)),
            Box::new(expr_clone(u)),
            match t {
                Option::Some(t) => Option::Some(Box::new(expr_clone(t))),
                Option::None => Option::None,
            },
        ),
        Expr::Assert(t) => Expr::Assert(Box::new(expr_clone(t))),
        Expr::BoolIf(c, x, y) => Expr::BoolIf(
            Box::new(expr_clone(c)),
            Box::new(expr_clone(x)),
            Box::new(expr_clone(y)),
        ),
        Expr::BinOp(o, l, r2) => Expr::BinOp(*o, Box::new(expr_clone(l)), Box::new(expr_clone(r2))),
        Expr::ToMap(x, t) => Expr::ToMap(
            Box::new(expr_clone(x)),
            match t {
                Option::Some(t) => Option::Some(Box::new(expr_clone(t))),
                Option::None => Option::None,
            },
        ),
        Expr::ProjectionByExpr(x, t) => Expr::ProjectionByExpr(
            Box::new(expr_clone(x)),
            Box::new(expr_clone(t)),
        ),
        Expr::Completion(x, t) => Expr::Completion(
            Box::new(expr_clone(x)),
            Box::new(expr_clone(t)),
        ),
        Expr::Embed(t) => Expr::Embed(Box::new(typed_clone(t))),
        Expr::Import(i) => Expr::Import(*i),
    }
}

pub fn text_contents_clone(l: &Lst<InterpolatedTextContents>) -> (r: Lst<InterpolatedTextContents>)
    ensures
        r == *l,
    decreases *l,
{
    match l {
        Lst::Nil => Lst::Nil,
        Lst::Cons(p, t) => Lst::Cons(
            match p {
                InterpolatedTextContents::Text(s) => InterpolatedTextContents::Text(*s),
                InterpolatedTextContents::Expr(e) => InterpolatedTextContents::Expr(
                    Box::new(expr_clone(e)),
                ),
            },
            Box::new(text_contents_clone(t)),
        ),
    }
}

pub fn expr_list_clone(l: &Lst<Expr>) -> (r: Lst<Expr>)
    ensures
        r == *l,
    decreases *l,
{
    match l {
        Lst::Nil => Lst::Nil,
        Lst::Cons(e, t) => Lst::Cons(expr_clone(e), Box::new(expr_list_clone(t))),
    }
}

pub fn expr_fields_clone(l: &Lst<(Label, Expr)>) -> (r: Lst<(Label, Expr)>)
    ensures
        r == *l,
    decreases *l,
{
    match l {
        Lst::Nil => Lst::Nil,
        Lst::Cons(p, t) => Lst::Cons((p.0, expr_clone(&p.1)), Box::new(expr_fields_clone(t))),
    }
}

pub fn expr_union_clone(l: &Lst<(Label, Option<Expr>)>) -> (r: Lst<(Label, Option<Expr>)>)
    ensures
        r == *l,
    decreases *l,
{
    match l {
        Lst::Nil => Lst::Nil,
        Lst::Cons(p, t) => Lst::Cons(
            (
                p.0,
                match &p.1 {
                    Option::Some(e) => Option::Some(expr_clone(e)),
                    Option::None => Option::None,
                },
            ),
            Box::new(expr_union_clone(t)),
        ),
    }
}

pub fn label_list_clone(l: &Lst<Label>) -> (r: Lst<Label>)
    ensures
        r == *l,
    decreases *l,
{
    match l {
        Lst::Nil => Lst::Nil,
        Lst::Cons(x, t) => Lst::Cons(*x, Box::new(label_list_clone(t))),
    }
}

pub fn typed_clone(t: &Typed) -> (r: Typed)
    ensures
        r == *t,
    decreases *t,
{
    Typed {
        val: value_clone(&t.val),
        ty: match &t.ty {
            Option::Some(v) => Option::Some(value_clone(v)),
            Option::None => Option::None,
        },
    }
}

pub fn value_clone(v: &Value) -> (r: Value)
    ensures
        r == *v,
    decreases *v,
{
    match v {
        Value::Const(c) => Value::Const(*c),
        Value::AppliedBuiltin(b, args) => Value::AppliedBuiltin(*b, Box::new(value_list_clone(args))),
        Value::NeutralVar(l) => Value::NeutralVar(*l),
        Value::NeutralApp(f, a) => Value::NeutralApp(
            Box::new(value_clone(f)),
            Box::new(value_clone(a)),
        ),
        Value::Lam(x, a, c) => Value::Lam(*x, Box::new(value_clone(a)), closure_clone(c)),
        Value::PiClosure(x, a, c) => Value::PiClosure(
            *x,
            Box::new(value_clone(a)),
            closure_clone(c),
        ),
        Value::BoolLit(b) => Value::BoolLit(*b),
        Value::NaturalLit(n) => Value::NaturalLit(*n),
        Value::IntegerLit(n) => Value::IntegerLit(*n),
        Value::DoubleLit(n) => Value::DoubleLit(*n),
        Value::TextLit(parts) => Value::TextLit(Box::new(text_val_clone(parts))),
        Value::EmptyListLit(t) => Value::EmptyListLit(Box::new(value_clone(t))),
        Value::NEListLit(xs) => Value::NEListLit(Box::new(value_list_clone(xs))),
        Value::SomeLit(x) => Value::SomeLit(Box::new(value_clone(x))),
        Value::RecordLit(kvs) => Value::RecordLit(Box::new(value_fields_clone(kvs))),
        Value::RecordType(kts, u) => Value::RecordType(Box::new(value_fields_clone(kts)), *u),
        Value::UnionType(kts) => Value::UnionType(Box::new(value_union_clone(kts))),
        Value::Equivalence(a, b) => Value::Equivalence(
            Box::new(value_clone(a)),
            Box::new(value_clone(b)),
        ),
        Value::Residual(env, e) => Value::Residual(Box::new(env_clone(env)), Box::new(expr_clone(e))),
    }
}

pub fn value_list_clone(l: &Lst<Value>) -> (r: Lst<Value>)
    ensures
        r == *l,
    decreases *l,
{
    match l {
        Lst::Nil => Lst::Nil,
        Lst::Cons(v, t) => Lst::Cons(value_clone(v), Box::new(value_list_clone(t))),
    }
}

pub fn value_fields_clone(l: &Lst<(Label, Value)>) -> (r: Lst<(Label, Value)>)
    ensures
        r == *l,
    decreases *l,
{
    match l {
        Lst::Nil => Lst::Nil,
        Lst::Cons(p, t) => Lst::Cons((p.0, value_clone(&p.1)), Box::new(value_fields_clone(t))),
    }
}

pub fn value_union_clone(l: &Lst<(Label, Option<Value>)>) -> (r: Lst<(Label, Option<Value>)>)
    ensures
        r == *l,
    decreases *l,
{
    match l {
        Lst::Nil => Lst::Nil,
        Lst::Cons(p, t) => Lst::Cons(
            (
                p.0,
                match &p.1 {
                    Option::Some(v) => Option::Some(value_clone(v)),
                    Option::None => Option::None,
                },
            ),
            Box::new(value_union_clone(t)),
        ),
    }
}

pub fn text_val_clone(l: &Lst<TextValPart>) -> (r: Lst<TextValPart>)
    ensures
        r == *l,
    decreases *l,
{
    match l {
        Lst::Nil => Lst::Nil,
        Lst::Cons(p, t) => Lst::Cons(
            match p {
                TextValPart::Chunk(s) => TextValPart::Chunk(*s),
                TextValPart::Embedded(v) => TextValPart::Embedded(value_clone(v)),
            },
            Box::new(text_val_clone(t)),
        ),
    }
}

pub fn closure_clone(c: &Closure) -> (r: Closure)
    ensures
        r == *c,
    decreases *c,
{
    match c {
        Closure::ExprClosure(env, x, b) => Closure::ExprClosure(
            Box::new(env_clone(env)),
            *x,
            Box::new(expr_clone(b)),
        ),
        Closure::ValClosure(l, b) => Closure::ValClosure(*l, Box::new(value_clone(b))),
        Closure::ConstClosure(b) => Closure::ConstClosure(Box::new(value_clone(b))),
    }
}

pub fn env_clone(l: &Lst<EnvItem>) -> (r: Lst<EnvItem>)
    ensures
        r == *l,
    decreases *l,
{
    match l {
        Lst::Nil => Lst::Nil,
        Lst::Cons(item, t) => Lst::Cons(
            EnvItem { name: item.name, val: value_clone(&item.val) },
            Box::new(env_clone(t)),
        ),
    }
}

} // verus!
