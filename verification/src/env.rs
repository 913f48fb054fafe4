//! The name environment: an ordered stack of labels, one per binder in
//! scope, mediating the bijection between labelled variables `V(name, idx)`
//! and de Bruijn indices `AlphaVar(idx)`.

use vstd::prelude::*;
use crate::syntax::{AlphaVar, Label, V};

verus! {

/// An opaque environment parameterised only by its size (the number of
/// binders in scope). Derivable from a `NameEnv` by discarding names.
#[derive(Clone, Copy, PartialEq, Eq, Structural)]
pub struct VarEnv {
    pub size: usize,
}

impl VarEnv {
    pub fn from_size(size: usize) -> (r: VarEnv)
        ensures
            r.size == size,
    {
        VarEnv { size }
    }

    pub fn size(&self) -> (r: usize)
        ensures
            r == self.size,
    {
        self.size
    }
}

/// Environment for resolving names.
#[derive(Debug)]
pub struct NameEnv {
    pub names: Vec<Label>,
}

/// The de Bruijn index (0 = innermost binder) of the `(idx + 1)`-th
/// innermost binder labelled `name`, or `None` when no such binder is in
/// scope.
pub open spec fn spec_unlabel(names: Seq<Label>, name: Label, idx: nat) -> Option<nat>
    decreases names.len(),
{
    if names.len() == 0 {
        Option::None
    } else if names.last() == name {
        if idx == 0 {
            Option::Some(0nat)
        } else {
            match spec_unlabel(names.drop_last(), name, (idx - 1) as nat) {
                Option::Some(i) => Option::Some(i + 1),
                Option::None => Option::None,
            }
        }
    } else {
        match spec_unlabel(names.drop_last(), name, idx) {
            Option::Some(i) => Option::Some(i + 1),
            Option::None => Option::None,
        }
    }
}

/// How many entries of `names` equal `name`.
pub open spec fn spec_count_name(names: Seq<Label>, name: Label) -> nat
    decreases names.len(),
{
    if names.len() == 0 {
        0
    } else {
        spec_count_name(names.drop_last(), name) + if names.last() == name {
            1nat
        } else {
            0nat
        }
    }
}

/// The labelled variable standing for the binder at de Bruijn index `d`:
/// its label, and the count of binders strictly inner to it that share the
/// label (the shadowing index).
pub open spec fn spec_label(names: Seq<Label>, d: nat) -> V
    recommends
        d < names.len(),
{
    let name = names[names.len() - 1 - d];
    let idx = spec_count_name(names.subrange(names.len() - d, names.len() as int), name);
    V { name, idx: idx as usize }
}

/// Counting over a suffix grows by the last entry when the suffix is
/// extended by one.
proof fn lemma_count_suffix_step(names: Seq<Label>, a: int, name: Label)
    requires
        0 <= a <= names.len() - 1,
    ensures
        spec_count_name(names.subrange(a, names.len() as int), name) == spec_count_name(
            names.drop_last().subrange(a, names.len() - 1),
            name,
        ) + if names.last() == name {
            1nat
        } else {
            0nat
        },
{
    let n = names.len() as int;
    let s = names.subrange(a, n);
    assert(s.len() > 0);
    assert(s.drop_last() =~= names.drop_last().subrange(a, n - 1));
    assert(s.last() == names.last());
}

/// The de Bruijn index found for `V(name, idx)` points at a frame labelled
/// `name`, and exactly `idx` frames inner to it share that label.
proof fn lemma_unlabel_props(names: Seq<Label>, name: Label, idx: nat)
    requires
        spec_unlabel(names, name, idx) is Some,
    ensures
        spec_unlabel(names, name, idx)->Some_0 < names.len(),
        names[names.len() - 1 - spec_unlabel(names, name, idx)->Some_0] == name,
        spec_count_name(
            names.subrange(
                names.len() - spec_unlabel(names, name, idx)->Some_0,
                names.len() as int,
            ),
            name,
        ) == idx,
    decreases names.len(),
{
    let n = names.len() as int;
    let d = spec_unlabel(names, name, idx)->Some_0;
    if names.last() == name && idx == 0 {
        assert(d == 0);
        assert(names.subrange(n - 0, n) =~= Seq::<Label>::empty());
        assert(spec_count_name(Seq::<Label>::empty(), name) == 0);
    } else if names.last() == name {
        let i = spec_unlabel(names.drop_last(), name, (idx - 1) as nat)->Some_0;
        lemma_unlabel_props(names.drop_last(), name, (idx - 1) as nat);
        assert(d == i + 1);
        assert(names[n - 1 - d] == names.drop_last()[n - 2 - i]);
        lemma_count_suffix_step(names, n - d, name);
    } else {
        let i = spec_unlabel(names.drop_last(), name, idx)->Some_0;
        lemma_unlabel_props(names.drop_last(), name, idx);
        assert(d == i + 1);
        assert(names[n - 1 - d] == names.drop_last()[n - 2 - i]);
        lemma_count_suffix_step(names, n - d, name);
    }
}

proof fn lemma_count_le_len(names: Seq<Label>, name: Label)
    ensures
        spec_count_name(names, name) <= names.len(),
    decreases names.len(),
{
    if names.len() > 0 {
        lemma_count_le_len(names.drop_last(), name);
    }
}

/// Naming the binder at depth `d` and resolving that name again finds depth
/// `d`, stated over the raw frame sequence.
proof fn lemma_label_props(names: Seq<Label>, d: nat)
    requires
        d < names.len(),
    ensures
        spec_unlabel(
            names,
            names[names.len() - 1 - d],
            spec_count_name(names.subrange(names.len() - d, names.len() as int), names[names.len()
                - 1 - d]),
        ) == Option::Some(d),
    decreases names.len(),
{
    let n = names.len() as int;
    let name = names[n - 1 - d];
    let idx = spec_count_name(names.subrange(n - d, n), name);
    if names.last() == name {
        if d == 0 {
            assert(names.subrange(n - 0, n) =~= Seq::<Label>::empty());
        } else {
            lemma_count_suffix_step(names, n - d, name);
            assert(idx >= 1);
            let dl = names.drop_last();
            assert(dl[n - 1 - d] == name);
            lemma_label_props(dl, (d - 1) as nat);
            assert(dl.subrange(n - d, n - 1) =~= names.drop_last().subrange(n - d, n - 1));
        }
    } else {
        assert(d >= 1);
        lemma_count_suffix_step(names, n - d, name);
        let dl = names.drop_last();
        assert(dl[n - 1 - d] == name);
        lemma_label_props(dl, (d - 1) as nat);
        assert(dl.subrange(n - d, n - 1) =~= names.drop_last().subrange(n - d, n - 1));
    }
}

/// Round-trip law, second direction: naming the binder at any in-scope de
/// Bruijn index and resolving the name again yields the same index.
pub proof fn lemma_unlabel_label_roundtrip(env: NameEnv, a: AlphaVar)
    requires
        a.idx < env.names@.len(),
    ensures
        spec_unlabel(
            env.names@,
            spec_label(env.names@, a.idx as nat).name,
            spec_label(env.names@, a.idx as nat).idx as nat,
        ) == Option::Some(a.idx as nat),
{
    let names = env.names@;
    let n = names.len() as int;
    let d = a.idx as nat;
    lemma_count_le_len(names.subrange(n - d, n), names[n - 1 - d]);
    lemma_label_props(names, d);
}

/// Round-trip law: for every environment and every variable `v` that
/// resolves in it, translating `v` to a de Bruijn index and back yields `v`
/// again.
pub proof fn lemma_label_unlabel_roundtrip(env: NameEnv, v: V)
    requires
        spec_unlabel(env.names@, v.name, v.idx as nat) is Some,
    ensures
        spec_unlabel(env.names@, v.name, v.idx as nat)->Some_0 < env.names@.len(),
        spec_label(env.names@, spec_unlabel(env.names@, v.name, v.idx as nat)->Some_0) == v,
{
    lemma_unlabel_props(env.names@, v.name, v.idx as nat);
}

impl NameEnv {
    pub fn new() -> (r: Self)
        ensures
            r.names@ =~= Seq::<Label>::empty(),
    {
        NameEnv { names: Vec::new() }
    }

    pub fn as_varenv(&self) -> (r: VarEnv)
        ensures
            r.size == self.names@.len(),
    {
        VarEnv::from_size(self.names.len())
    }

    /// The number of frames (binders in scope).
    pub fn size(&self) -> (r: usize)
        ensures
            r == self.names@.len(),
    {
        self.names.len()
    }

    /// A new environment with `x` as the innermost binder; the receiver is
    /// left unchanged (persistent semantics).
    pub fn insert(&self, x: &Label) -> (r: Self)
        ensures
            r.names@ == self.names@.push(*x),
    {
        let mut names: Vec<Label> = Vec::new();
        let mut i: usize = 0;
        while i < self.names.len()
            invariant
                i <= self.names@.len(),
                names@ =~= self.names@.subrange(0, i as int),
            decreases self.names@.len() - i,
        {
            names.push(self.names[i]);
            i = i + 1;
        }
        assert(names@ =~= self.names@);
        names.push(*x);
        NameEnv { names }
    }

    pub fn insert_mut(&mut self, x: &Label)
        ensures
            final(self).names@ == old(self).names@.push(*x),
    {
        self.names.push(*x);
    }

    /// Drop the innermost binder; on an empty environment, do nothing.
    pub fn remove_mut(&mut self)
        ensures
            old(self).names@.len() > 0 ==> final(self).names@ == old(self).names@.drop_last(),
            old(self).names@.len() == 0 ==> final(self).names@ == old(self).names@,
    {
        let _ = self.names.pop();
        proof {
            if old(self).names@.len() > 0 {
                assert(final(self).names@ =~= old(self).names@.drop_last());
            }
        }
    }

    /// Find the `(idx + 1)`-th innermost frame labelled with the variable's
    /// name and return its de Bruijn index; `None` when no such frame
    /// exists.
    pub fn unlabel_var(&self, var: &V) -> (r: Option<AlphaVar>)
        ensures
            r is Some <==> spec_unlabel(self.names@, var.name, var.idx as nat) is Some,
            r matches Some(a) ==> spec_unlabel(self.names@, var.name, var.idx as nat) == Option::Some(
                a.idx as nat,
            ),
    {
        let len = self.names.len();
        let ghost full = self.names@;
        let mut i: usize = len;
        let mut remaining: usize = var.idx;
        proof {
            assert(full.subrange(0, len as int) =~= full);
        }
        while i > 0
            invariant
                i <= len,
                len == full.len(),
                full == self.names@,
                spec_unlabel(full, var.name, var.idx as nat) == (match spec_unlabel(
                    full.subrange(0, i as int),
                    var.name,
                    remaining as nat,
                ) {
                    Option::Some(j) => Option::Some((j + len - i) as nat),
                    Option::None => Option::None::<nat>,
                }),
            decreases i,
        {
            let ghost pre = full.subrange(0, i as int);
            proof {
                assert(pre.len() == i);
                assert(pre.last() == full[i - 1]);
                assert(pre.drop_last() =~= full.subrange(0, i - 1));
            }
            if self.names[i - 1] == var.name {
                if remaining == 0 {
                    proof {
                        assert(spec_unlabel(pre, var.name, 0nat) == Option::Some(0nat));
                    }
                    return Option::Some(AlphaVar::new(len - i));
                }
                remaining = remaining - 1;
            }
            i = i - 1;
        }
        proof {
            assert(full.subrange(0, 0) =~= Seq::<Label>::empty());
        }
        Option::None
    }

    /// The labelled variable naming the binder at de Bruijn index `var`:
    /// the inverse of `unlabel_var` on in-scope variables.
    pub fn label_var(&self, var: AlphaVar) -> (r: V)
        requires
            var.idx < self.names@.len(),
        ensures
            r == spec_label(self.names@, var.idx as nat),
    {
        let len = self.names.len();
        let name = self.names[len - 1 - var.idx];
        let ghost full = self.names@;
        let start = len - var.idx;
        let mut count: usize = 0;
        let mut j: usize = start;
        while j < len
            invariant
                start <= j <= len,
                len == full.len(),
                full == self.names@,
                start == len - var.idx,
                count == spec_count_name(full.subrange(start as int, j as int), name),
                count <= j - start,
            decreases len - j,
        {
            let ghost pre = full.subrange(start as int, j + 1);
            proof {
                assert(pre.last() == full[j as int]);
                assert(pre.drop_last() =~= full.subrange(start as int, j as int));
            }
            if self.names[j] == name {
                count = count + 1;
            }
            j = j + 1;
        }
        V { name, idx: count }
    }
}

} // verus!
