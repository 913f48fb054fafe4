//! The syntactic building blocks of Dhall expressions: labels, variables,
//! universe tags, builtins, operators, and the expression tree itself.

use vstd::prelude::*;

verus! {

/// An interned identifier (a variable or field name). The interner is
/// maintained by the surface parser, which guarantees that two labels carry
/// the same id exactly when their text is equal, so label equality is
/// textual equality. Two ids are reserved and load-bearing: the interner
/// must map the text `None` to id 0 and `Some` to id 1, because the `merge`
/// judgment and the evaluator treat an `Optional` scrutinee as the union
/// over exactly those two labels.
#[derive(Clone, Copy, PartialEq, Eq, Structural, Debug)]
pub struct Label {
    pub id: u64,
}

/// A source-level variable reference: a name plus a shadowing index
/// (0 = nearest enclosing binder of that name).
#[derive(Clone, Copy, PartialEq, Eq, Structural, Debug)]
pub struct V {
    pub name: Label,
    pub idx: usize,
}

/// A de Bruijn index: 0 = innermost binder regardless of name.
#[derive(Clone, Copy, PartialEq, Eq, Structural, Debug)]
pub struct AlphaVar {
    pub idx: usize,
}

impl AlphaVar {
    pub fn new(idx: usize) -> (r: AlphaVar)
        ensures
            r.idx == idx,
    {
        AlphaVar { idx }
    }
}

/// A universe tag, totally ordered: `Type < Kind < Sort`.
#[derive(Clone, Copy, PartialEq, Eq, Structural, Debug)]
pub enum Const {
    Type,
    Kind,
    Sort,
}

/// The position of a universe in the order `Type < Kind < Sort`.
pub open spec fn const_rank(c: Const) -> int {
    match c {
        Const::Type => 0,
        Const::Kind => 1,
        Const::Sort => 2,
    }
}

/// `a` is at or below `b` in the universe order.
pub open spec fn const_le(a: Const, b: Const) -> bool {
    const_rank(a) <= const_rank(b)
}

/// The larger of two universes.
pub open spec fn spec_const_max(a: Const, b: Const) -> Const {
    if const_rank(a) >= const_rank(b) {
        a
    } else {
        b
    }
}

pub fn const_max(a: Const, b: Const) -> (r: Const)
    ensures
        r == spec_const_max(a, b),
        r == a || r == b,
        const_le(a, r),
        const_le(b, r),
{
    let ra: u8 = match a {
        Const::Type => 0,
        Const::Kind => 1,
        Const::Sort => 2,
    };
    let rb: u8 = match b {
        Const::Type => 0,
        Const::Kind => 1,
        Const::Sort => 2,
    };
    if ra >= rb {
        a
    } else {
        b
    }
}

/// The universes respect the order `Type < Kind < Sort`: the order is total,
/// and the three tags are ranked strictly.
pub proof fn lemma_universe_order()
    ensures
        const_rank(Const::Type) < const_rank(Const::Kind),
        const_rank(Const::Kind) < const_rank(Const::Sort),
        forall|a: Const, b: Const| const_le(a, b) || const_le(b, a),
        forall|a: Const, b: Const| const_le(a, b) && const_le(b, a) ==> a == b,
{
}

/// A homogeneous cons list. The expression and value trees use it instead of
/// a vector so that equality of two trees is structural all the way down.
#[derive(Debug)]
pub enum Lst<T> {
    Nil,
    Cons(T, Box<Lst<T>>),
}

/// The number of entries in a list.
pub open spec fn lst_len<T>(l: Lst<T>) -> nat
    decreases l,
{
    match l {
        Lst::Nil => 0,
        Lst::Cons(_, t) => 1 + lst_len(*t),
    }
}

/// Some entry of an association list bears the label `x`.
pub open spec fn contains_label<T>(l: Lst<(Label, T)>, x: Label) -> bool
    decreases l,
{
    match l {
        Lst::Nil => false,
        Lst::Cons(p, t) => p.0 == x || contains_label(*t, x),
    }
}

/// The first value associated with the label `x`, if any.
pub open spec fn assoc_lookup<T>(l: Lst<(Label, T)>, x: Label) -> Option<T>
    decreases l,
{
    match l {
        Lst::Nil => Option::None,
        Lst::Cons(p, t) => if p.0 == x {
            Option::Some(p.1)
        } else {
            assoc_lookup(*t, x)
        },
    }
}

/// Two entries of an association list share a label.
pub open spec fn has_dup_labels<T>(l: Lst<(Label, T)>) -> bool
    decreases l,
{
    match l {
        Lst::Nil => false,
        Lst::Cons(p, t) => contains_label(*t, p.0) || has_dup_labels(*t),
    }
}

/// The builtins the typechecker knows: the ground types, the two type
/// constructors, and the `None` constructor of `Optional`. The full language
/// has a wider builtin vocabulary (folds, conversions and the like); their
/// typing tables live with the out-of-scope normaliser, and this core keeps
/// only the builtins its own judgments mention.
#[derive(Clone, Copy, PartialEq, Eq, Structural, Debug)]
pub enum Builtin {
    Bool,
    Natural,
    Integer,
    Double,
    Text,
    List,
    Optional,
    OptionalNone,
}

/// Binary operators.
#[derive(Clone, Copy, PartialEq, Eq, Structural, Debug)]
pub enum BinOp {
    BoolAnd,
    BoolOr,
    BoolEQ,
    BoolNE,
    NaturalPlus,
    NaturalTimes,
    TextAppend,
    ListAppend,
    RightBiasedRecordMerge,
    RecursiveRecordMerge,
    RecursiveRecordTypeMerge,
    Equivalence,
    ImportAlt,
}

/// One piece of an interpolated text literal: an interned text chunk, or an
/// embedded expression to splice in.
#[derive(Debug)]
pub enum InterpolatedTextContents {
    Text(u64),
    Expr(Box<Expr>),
}

/// The shape of a Dhall expression, after parsing and import resolution.
#[derive(Debug)]
pub enum Expr {
    Var(V),
    Lam(Label, Box<Expr>, Box<Expr>),
    Pi(Label, Box<Expr>, Box<Expr>),
    Let(Label, Option<Box<Expr>>, Box<Expr>, Box<Expr>),
    App(Box<Expr>, Box<Expr>),
    Annot(Box<Expr>, Box<Expr>),
    Const(Const),
    Builtin(Builtin),
    BoolLit(bool),
    NaturalLit(u64),
    IntegerLit(i64),
    /// A double literal, carried as its bit pattern; the typechecker never
    /// reads the value.
    DoubleLit(u64),
    TextLit(Box<Lst<InterpolatedTextContents>>),
    EmptyListLit(Box<Expr>),
    NEListLit(Box<Lst<Expr>>),
    SomeLit(Box<Expr>),
    RecordLit(Box<Lst<(Label, Expr)>>),
    RecordType(Box<Lst<(Label, Expr)>>),
    UnionType(Box<Lst<(Label, Option<Expr>)>>),
    Field(Box<Expr>, Label),
    Projection(Box<Expr>, Lst<Label>),
    Merge(Box<Expr>, Box<Expr>, Option<Box<Expr>>),
    Assert(Box<Expr>),
    BoolIf(Box<Expr>, Box<Expr>, Box<Expr>),
    BinOp(BinOp, Box<Expr>, Box<Expr>),
    /// Unimplemented: rejected by the typechecker with `Unimplemented`.
    ToMap(Box<Expr>, Option<Box<Expr>>),
    /// Unimplemented: rejected by the typechecker with `Unimplemented`.
    ProjectionByExpr(Box<Expr>, Box<Expr>),
    /// Unimplemented: rejected by the typechecker with `Unimplemented`.
    Completion(Box<Expr>, Box<Expr>),
    /// A payload resolved and typechecked by the import phase.
    Embed(Box<crate::value::Typed>),
    /// An unresolved import, identified by an opaque token. Resolution
    /// precedes typechecking, so the typechecker requires these gone.
    Import(u64),
}

/// No `Import` node and no `ImportAlt` operator remains anywhere in the
/// expression, and every non-empty list literal indeed has an element: the
/// shape the parser and the import-resolution phase hand the typechecker.
pub open spec fn is_resolved(e: Expr) -> bool
    decreases e,
{
    match e {
        Expr::Var(_) => true,
        Expr::Lam(_, a, b) => is_resolved(*a) && is_resolved(*b),
        Expr::Pi(_, a, b) => is_resolved(*a) && is_resolved(*b),
        Expr::Let(_, t, v, b) => (match t {
            Option::Some(t) => is_resolved(*t),
            Option::None => true,
        }) && is_resolved(*v) && is_resolved(*b),
        Expr::App(f, a) => is_resolved(*f) && is_resolved(*a),
        Expr::Annot(x, t) => is_resolved(*x) && is_resolved(*t),
        Expr::Const(_) => true,
        Expr::Builtin(_) => true,
        Expr::BoolLit(_) => true,
        Expr::NaturalLit(_) => true,
        Expr::IntegerLit(_) => true,
        Expr::DoubleLit(_) => true,
        Expr::TextLit(parts) => is_resolved_text(*parts),
        Expr::EmptyListLit(t) => is_resolved(*t),
        Expr::NEListLit(xs) => (*xs matches Lst::Cons(_, _)) && is_resolved_list(*xs),
        Expr::SomeLit(x) => is_resolved(*x),
        Expr::RecordLit(kvs) => is_resolved_fields(*kvs),
        Expr::RecordType(kts) => is_resolved_fields(*kts),
        Expr::UnionType(kts) => is_resolved_union(*kts),
        Expr::Field(r, _) => is_resolved(*r),
        Expr::Projection(r, _) => is_resolved(*r),
        Expr::Merge(r, u, t) => is_resolved(*r) && is_resolved(*u) && (match t {
            Option::Some(t) => is_resolved(*t),
            Option::None => true,
        }),
        Expr::Assert(t) => is_resolved(*t),
        Expr::BoolIf(c, x, y) => is_resolved(*c) && is_resolved(*x) && is_resolved(*y),
        Expr::BinOp(o, l, r) => o != BinOp::ImportAlt && is_resolved(*l) && is_resolved(*r),
        Expr::ToMap(x, t) => is_resolved(*x) && (match t {
            Option::Some(t) => is_resolved(*t),
            Option::None => true,
        }),
        Expr::ProjectionByExpr(x, t) => is_resolved(*x) && is_resolved(*t),
        Expr::Completion(x, t) => is_resolved(*x) && is_resolved(*t),
        Expr::Embed(_) => true,
        Expr::Import(_) => false,
    }
}

pub open spec fn is_resolved_text(l: Lst<InterpolatedTextContents>) -> bool
    decreases l,
{
    match l {
        Lst::Nil => true,
        Lst::Cons(p, t) => (match p {
            InterpolatedTextContents::Text(_) => true,
            InterpolatedTextContents::Expr(e) => is_resolved(*e),
        }) && is_resolved_text(*t),
    }
}

pub open spec fn is_resolved_list(l: Lst<Expr>) -> bool
    decreases l,
{
    match l {
        Lst::Nil => true,
        Lst::Cons(e, t) => is_resolved(e) && is_resolved_list(*t),
    }
}

pub open spec fn is_resolved_fields(l: Lst<(Label, Expr)>) -> bool
    decreases l,
{
    match l {
        Lst::Nil => true,
        Lst::Cons(p, t) => is_resolved(p.1) && is_resolved_fields(*t),
    }
}

pub open spec fn is_resolved_union(l: Lst<(Label, Option<Expr>)>) -> bool
    decreases l,
{
    match l {
        Lst::Nil => true,
        Lst::Cons(p, t) => (match p.1 {
            Option::Some(e) => is_resolved(e),
            Option::None => true,
        }) && is_resolved_union(*t),
    }
}

/// Decide `is_resolved`, so that a caller outside the proof world can test
/// an expression before handing it to the typechecker.
pub fn expr_is_resolved(e: &Expr) -> (r: bool)
    ensures
        r == is_resolved(*e),
    decreases *e,
{
    match e {
        Expr::Var(_) => true,
        Expr::Lam(_, a, b) => expr_is_resolved(a) && expr_is_resolved(b),
        Expr::Pi(_, a, b) => expr_is_resolved(a) && expr_is_resolved(b),
        Expr::Let(_, t, v, b) => (match t {
            Option::Some(t) => expr_is_resolved(t),
            Option::None => true,
        }) && expr_is_resolved(v) && expr_is_resolved(b),
        Expr::App(f, a) => expr_is_resolved(f) && expr_is_resolved(a),
        Expr::Annot(x, t) => expr_is_resolved(x) && expr_is_resolved(t),
        Expr::Const(_) => true,
        Expr::Builtin(_) => true,
        Expr::BoolLit(_) => true,
        Expr::NaturalLit(_) => true,
        Expr::IntegerLit(_) => true,
        Expr::DoubleLit(_) => true,
        Expr::TextLit(parts) => text_is_resolved(parts),
        Expr::EmptyListLit(t) => expr_is_resolved(t),
        Expr::NEListLit(xs) => (match &**xs {
            Lst::Cons(_, _) => true,
            Lst::Nil => false,
        }) && list_is_resolved(xs),
        Expr::SomeLit(x) => expr_is_resolved(x),
        Expr::RecordLit(kvs) => fields_are_resolved(kvs),
        Expr::RecordType(kts) => fields_are_resolved(kts),
        Expr::UnionType(kts) => union_is_resolved(kts),
        Expr::Field(r2, _) => expr_is_resolved(r2),
        Expr::Projection(r2, _) => expr_is_resolved(r2),
        Expr::Merge(r2, u, t) => expr_is_resolved(r2) && expr_is_resolved(u) && (match t {
            Option::Some(t) => expr_is_resolved(t),
            Option::None => true,
        }),
        Expr::Assert(t) => expr_is_resolved(t),
        Expr::BoolIf(c, x, y) => expr_is_resolved(c) && expr_is_resolved(x) && expr_is_resolved(y),
        Expr::BinOp(o, l, r2) => *o != BinOp::ImportAlt && expr_is_resolved(l) && expr_is_resolved(
            r2,
        ),
        Expr::ToMap(x, t) => expr_is_resolved(x) && (match t {
            Option::Some(t) => expr_is_resolved(t),
            Option::None => true,
        }),
        Expr::ProjectionByExpr(x, t) => expr_is_resolved(x) && expr_is_resolved(t),
        Expr::Completion(x, t) => expr_is_resolved(x) && expr_is_resolved(t),
        Expr::Embed(_) => true,
        Expr::Import(_) => false,
    }
}

fn text_is_resolved(l: &Lst<InterpolatedTextContents>) -> (r: bool)
    ensures
        r == is_resolved_text(*l),
    decreases *l,
{
    match l {
        Lst::Nil => true,
        Lst::Cons(p, t) => (match p {
            InterpolatedTextContents::Text(_) => true,
            InterpolatedTextContents::Expr(e) => expr_is_resolved(e),
        }) && text_is_resolved(t),
    }
}

fn list_is_resolved(l: &Lst<Expr>) -> (r: bool)
    ensures
        r == is_resolved_list(*l),
    decreases *l,
{
    match l {
        Lst::Nil => true,
        Lst::Cons(e, t) => expr_is_resolved(e) && list_is_resolved(t),
    }
}

fn fields_are_resolved(l: &Lst<(Label, Expr)>) -> (r: bool)
    ensures
        r == is_resolved_fields(*l),
    decreases *l,
{
    match l {
        Lst::Nil => true,
        Lst::Cons(p, t) => expr_is_resolved(&p.1) && fields_are_resolved(t),
    }
}

fn union_is_resolved(l: &Lst<(Label, Option<Expr>)>) -> (r: bool)
    ensures
        r == is_resolved_union(*l),
    decreases *l,
{
    match l {
        Lst::Nil => true,
        Lst::Cons(p, t) => (match &p.1 {
            Option::Some(e) => expr_is_resolved(e),
            Option::None => true,
        }) && union_is_resolved(t),
    }
}

} // verus!
