//! The typing environment: a stack of frames, one per binder in scope, each
//! carrying the binder's label, its type (a value in weak-head normal form)
//! and the value the variable stands for (a neutral variable for `Lam`/`Pi`
//! binders, the bound value for `let`).

use vstd::prelude::*;
use crate::syntax::{AlphaVar, Label, Lst, V, lst_len};
use crate::env::VarEnv;
use crate::error::{TypeError, TypeMessage};
use crate::value::{EnvItem, Value, value_clone};

verus! {

/// One frame of the typing environment.
pub struct TyFrame {
    pub name: Label,
    pub ty: Value,
    pub val: Value,
}

/// The typing environment; `frames` lists binders innermost first, and
/// `size` caches the frame count (the current binder depth).
pub struct TyEnv {
    pub frames: Lst<TyFrame>,
    pub size: usize,
}

/// The cached size is the real frame count.
pub open spec fn tyenv_wf(env: TyEnv) -> bool {
    env.size == lst_len(env.frames)
}

/// Resolve `V(name, idx)` against the frames: the de Bruijn index of the
/// `(idx + 1)`-th innermost frame labelled `name`, with that frame's type.
pub open spec fn spec_tyenv_lookup(frames: Lst<TyFrame>, name: Label, idx: nat) -> Option<
    (nat, Value),
>
    decreases frames,
{
    match frames {
        Lst::Nil => Option::None,
        Lst::Cons(f, t) => if f.name == name {
            if idx == 0 {
                Option::Some((0nat, f.ty))
            } else {
                match spec_tyenv_lookup(*t, name, (idx - 1) as nat) {
                    Option::Some(p) => Option::Some((p.0 + 1, p.1)),
                    Option::None => Option::None,
                }
            }
        } else {
            match spec_tyenv_lookup(*t, name, idx) {
                Option::Some(p) => Option::Some((p.0 + 1, p.1)),
                Option::None => Option::None,
            }
        },
    }
}

/// Mirror of `TyEnv::insert_type`: the environment extended with an opaque
/// binder whose variable is the neutral at the new level.
pub open spec fn spec_insert_type(env: TyEnv, x: Label, ty: Value) -> Result<TyEnv, TypeError> {
    if env.size == usize::MAX {
        Result::Err(TypeError { message: TypeMessage::NormalizationDepthExceeded })
    } else {
        Result::Ok(
            TyEnv {
                frames: Lst::Cons(
                    TyFrame { name: x, ty: ty, val: Value::NeutralVar(env.size) },
                    Box::new(env.frames),
                ),
                size: (env.size + 1) as usize,
            },
        )
    }
}

/// Mirror of `TyEnv::insert_value`: the environment extended with a `let`
/// binder carrying a concrete value.
pub open spec fn spec_insert_value(env: TyEnv, x: Label, val: Value, ty: Value) -> Result<
    TyEnv,
    TypeError,
> {
    if env.size == usize::MAX {
        Result::Err(TypeError { message: TypeMessage::NormalizationDepthExceeded })
    } else {
        Result::Ok(
            TyEnv {
                frames: Lst::Cons(TyFrame { name: x, ty: ty, val: val }, Box::new(env.frames)),
                size: (env.size + 1) as usize,
            },
        )
    }
}

/// The evaluation environment a typing environment induces: each frame's
/// label and value, in the same order.
pub open spec fn spec_nzenv(frames: Lst<TyFrame>) -> Lst<EnvItem>
    decreases frames,
{
    match frames {
        Lst::Nil => Lst::Nil,
        Lst::Cons(f, t) => Lst::Cons(
            EnvItem { name: f.name, val: f.val },
            Box::new(spec_nzenv(*t)),
        ),
    }
}

fn lookup_frames(frames: &Lst<TyFrame>, name: Label, idx: usize) -> (r: Option<(usize, Value)>)
    requires
        lst_len(*frames) <= usize::MAX,
    ensures
        r is Some <==> spec_tyenv_lookup(*frames, name, idx as nat) is Some,
        r matches Some(p) ==> spec_tyenv_lookup(*frames, name, idx as nat) == Option::Some(
            (p.0 as nat, p.1),
        ) && p.0 < lst_len(*frames),
    decreases *frames,
{
    match frames {
        Lst::Nil => Option::None,
        Lst::Cons(f, t) => {
            if f.name == name {
                if idx == 0 {
                    Option::Some((0, value_clone(&f.ty)))
                } else {
                    match lookup_frames(t, name, idx - 1) {
                        Option::Some(p) => Option::Some((p.0 + 1, p.1)),
                        Option::None => Option::None,
                    }
                }
            } else {
                match lookup_frames(t, name, idx) {
                    Option::Some(p) => Option::Some((p.0 + 1, p.1)),
                    Option::None => Option::None,
                }
            }
        },
    }
}

pub(crate) fn frames_clone(l: &Lst<TyFrame>) -> (r: Lst<TyFrame>)
    ensures
        r == *l,
    decreases *l,
{
    match l {
        Lst::Nil => Lst::Nil,
        Lst::Cons(f, t) => Lst::Cons(
            TyFrame { name: f.name, ty: value_clone(&f.ty), val: value_clone(&f.val) },
            Box::new(frames_clone(t)),
        ),
    }
}

fn nzenv_of_frames(l: &Lst<TyFrame>) -> (r: Lst<EnvItem>)
    ensures
        r == spec_nzenv(*l),
    decreases *l,
{
    match l {
        Lst::Nil => Lst::Nil,
        Lst::Cons(f, t) => Lst::Cons(
            EnvItem { name: f.name, val: value_clone(&f.val) },
            Box::new(nzenv_of_frames(t)),
        ),
    }
}

impl TyEnv {
    pub fn new() -> (r: TyEnv)
        ensures
            r.frames == Lst::<TyFrame>::Nil,
            r.size == 0,
            tyenv_wf(r),
    {
        TyEnv { frames: Lst::Nil, size: 0 }
    }

    pub fn as_varenv(&self) -> (r: VarEnv)
        ensures
            r.size == self.size,
    {
        VarEnv::from_size(self.size)
    }

    /// Project to the environment the normalizer evaluates under.
    pub fn as_nzenv(&self) -> (r: Lst<EnvItem>)
        ensures
            r == spec_nzenv(self.frames),
    {
        nzenv_of_frames(&self.frames)
    }

    /// Push a frame for an opaque binder: the variable's value is the
    /// neutral variable at the new level. Persistent: the receiver is
    /// unchanged. Fails only when the binder depth no longer fits a `usize`.
    pub fn insert_type(&self, x: &Label, ty: Value) -> (r: Result<TyEnv, TypeError>)
        requires
            tyenv_wf(*self),
        ensures
            r == spec_insert_type(*self, *x, ty),
            self.size < usize::MAX ==> (r matches Ok(e) && e.frames == Lst::Cons(
                TyFrame { name: *x, ty: ty, val: Value::NeutralVar(self.size) },
                Box::new(self.frames),
            ) && e.size == self.size + 1 && tyenv_wf(e)),
            self.size == usize::MAX ==> r is Err,
    {
        if self.size == usize::MAX {
            Result::Err(TypeError::new(TypeMessage::NormalizationDepthExceeded))
        } else {
            Result::Ok(
                TyEnv {
                    frames: Lst::Cons(
                        TyFrame { name: *x, ty, val: Value::NeutralVar(self.size) },
                        Box::new(frames_clone(&self.frames)),
                    ),
                    size: self.size + 1,
                },
            )
        }
    }

    /// Push a frame for a `let` binder: the variable stands for a concrete
    /// value whose type is `ty`.
    pub fn insert_value(&self, x: &Label, val: Value, ty: Value) -> (r: Result<TyEnv, TypeError>)
        requires
            tyenv_wf(*self),
        ensures
            r == spec_insert_value(*self, *x, val, ty),
            self.size < usize::MAX ==> (r matches Ok(e) && e.frames == Lst::Cons(
                TyFrame { name: *x, ty: ty, val: val },
                Box::new(self.frames),
            ) && e.size == self.size + 1 && tyenv_wf(e)),
            self.size == usize::MAX ==> r is Err,
    {
        if self.size == usize::MAX {
            Result::Err(TypeError::new(TypeMessage::NormalizationDepthExceeded))
        } else {
            Result::Ok(
                TyEnv {
                    frames: Lst::Cons(
                        TyFrame { name: *x, ty, val },
                        Box::new(frames_clone(&self.frames)),
                    ),
                    size: self.size + 1,
                },
            )
        }
    }

    /// Resolve a labelled variable: its de Bruijn index and the type
    /// recorded for it, or `None` when it is unbound.
    pub fn lookup(&self, var: &V) -> (r: Option<(AlphaVar, Value)>)
        requires
            tyenv_wf(*self),
        ensures
            r is Some <==> spec_tyenv_lookup(self.frames, var.name, var.idx as nat) is Some,
            r matches Some(p) ==> spec_tyenv_lookup(self.frames, var.name, var.idx as nat)
                == Option::Some((p.0.idx as nat, p.1)),
    {
        match lookup_frames(&self.frames, var.name, var.idx) {
            Option::Some(p) => Option::Some((AlphaVar::new(p.0), p.1)),
            Option::None => Option::None,
        }
    }
}

} // verus!
