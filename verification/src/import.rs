//! Environment for resolving imports: an in-memory cache keyed by import
//! location, a content-addressed cache keyed by hash, and the stack of
//! imports in flight that guards against cycles.

use vstd::prelude::*;
use crate::error::{Error, ImportError};
use crate::value::{Typed, typed_clone};

verus! {

/// A canonicalised identifier for an imported expression (a URL, a path, or
/// an environment reference), carried as its canonical text.
#[derive(Debug)]
pub struct ImportLocation {
    pub name: Vec<u8>,
}

/// A cryptographic digest of a normalised, typed expression, used as a
/// content-addressed cache key.
#[derive(Debug)]
pub struct Hash {
    pub digest: Vec<u8>,
}

/// Environment for resolving imports.
#[derive(Debug)]
pub struct ImportEnv {
    /// Model of the persistent content-addressed cache: hash-keyed entries
    /// are immutable by construction, so later entries never contradict
    /// earlier ones.
    pub file_cache: Option<Vec<(Hash, Typed)>>,
    pub mem_cache: Vec<(ImportLocation, Typed)>,
    pub stack: Vec<ImportLocation>,
}

/// The entry a location-keyed cache holds for `loc` (the latest one wins).
pub open spec fn spec_mem_lookup(s: Seq<(ImportLocation, Typed)>, loc: Seq<u8>) -> Option<Typed>
    decreases s.len(),
{
    if s.len() == 0 {
        Option::None
    } else if s.last().0.name@ == loc {
        Option::Some(s.last().1)
    } else {
        spec_mem_lookup(s.drop_last(), loc)
    }
}

/// The entry a hash-keyed cache holds for `h` (the latest one wins).
pub open spec fn spec_hash_lookup(s: Seq<(Hash, Typed)>, h: Seq<u8>) -> Option<Typed>
    decreases s.len(),
{
    if s.len() == 0 {
        Option::None
    } else if s.last().0.digest@ == h {
        Option::Some(s.last().1)
    } else {
        spec_hash_lookup(s.drop_last(), h)
    }
}

/// What `get_from_cache` answers: the in-memory cache first; on a miss, the
/// persistent cache, and only when a hash was supplied and a persistent
/// cache is present.
pub open spec fn spec_cache_get(env: ImportEnv, loc: Seq<u8>, hash: Option<Seq<u8>>) -> Option<
    Typed,
> {
    match spec_mem_lookup(env.mem_cache@, loc) {
        Option::Some(t) => Option::Some(t),
        Option::None => match hash {
            Option::None => Option::None,
            Option::Some(h) => match env.file_cache {
                Option::None => Option::None,
                Option::Some(fc) => spec_hash_lookup(fc@, h),
            },
        },
    }
}

/// Some entry of the stack is the location `loc`.
pub open spec fn spec_stack_contains(s: Seq<ImportLocation>, loc: Seq<u8>) -> bool {
    exists|i: int| 0 <= i < s.len() && s[i].name@ == loc
}

/// Element-wise equality of two stacks of locations.
pub open spec fn spec_stack_eq(a: Seq<ImportLocation>, b: Seq<ImportLocation>) -> bool {
    a.len() == b.len() && forall|i: int| 0 <= i < a.len() ==> a[i].name@ == b[i].name@
}

fn bytes_eq(a: &Vec<u8>, b: &Vec<u8>) -> (r: bool)
    ensures
        r <==> a@ == b@,
{
    if a.len() != b.len() {
        proof {
            assert(a@ != b@);
        }
        return false;
    }
    let mut i: usize = 0;
    while i < a.len()
        invariant
            i <= a@.len(),
            a@.len() == b@.len(),
            forall|j: int| 0 <= j < i ==> a@[j] == b@[j],
        decreases a@.len() - i,
    {
        if a[i] != b[i] {
            return false;
        }
        i = i + 1;
    }
    proof {
        assert(a@ =~= b@);
    }
    true
}

fn loc_clone(l: &ImportLocation) -> (r: ImportLocation)
    ensures
        r.name@ == l.name@,
{
    let mut name: Vec<u8> = Vec::new();
    let mut i: usize = 0;
    while i < l.name.len()
        invariant
            i <= l.name@.len(),
            name@ =~= l.name@.subrange(0, i as int),
        decreases l.name@.len() - i,
    {
        name.push(l.name[i]);
        i = i + 1;
    }
    proof {
        assert(name@ =~= l.name@);
    }
    ImportLocation { name }
}

fn stack_clone(s: &Vec<ImportLocation>) -> (r: Vec<ImportLocation>)
    ensures
        spec_stack_eq(r@, s@),
{
    let mut out: Vec<ImportLocation> = Vec::new();
    let mut i: usize = 0;
    while i < s.len()
        invariant
            i <= s@.len(),
            out@.len() == i,
            forall|j: int| 0 <= j < i ==> out@[j].name@ == s@[j].name@,
        decreases s@.len() - i,
    {
        out.push(loc_clone(&s[i]));
        i = i + 1;
    }
    out
}

fn stack_contains(s: &Vec<ImportLocation>, loc: &ImportLocation) -> (r: bool)
    ensures
        r <==> spec_stack_contains(s@, loc.name@),
{
    let mut i: usize = 0;
    while i < s.len()
        invariant
            i <= s@.len(),
            forall|j: int| 0 <= j < i ==> s@[j].name@ != loc.name@,
        decreases s@.len() - i,
    {
        if bytes_eq(&s[i].name, &loc.name) {
            return true;
        }
        i = i + 1;
    }
    false
}

fn mem_lookup(cache: &Vec<(ImportLocation, Typed)>, location: &ImportLocation) -> (r: Option<
    Typed,
>)
    ensures
        r == spec_mem_lookup(cache@, location.name@),
{
    let mut i: usize = cache.len();
    proof {
        assert(cache@.subrange(0, cache@.len() as int) =~= cache@);
    }
    while i > 0
        invariant
            i <= cache@.len(),
            spec_mem_lookup(cache@, location.name@) == spec_mem_lookup(
                cache@.subrange(0, i as int),
                location.name@,
            ),
        decreases i,
    {
        let ghost pre = cache@.subrange(0, i as int);
        proof {
            assert(pre.last() == cache@[i - 1]);
            assert(pre.drop_last() =~= cache@.subrange(0, i - 1));
        }
        if bytes_eq(&cache[i - 1].0.name, &location.name) {
            return Option::Some(typed_clone(&cache[i - 1].1));
        }
        i = i - 1;
    }
    proof {
        assert(cache@.subrange(0, 0) =~= Seq::<(ImportLocation, Typed)>::empty());
    }
    Option::None
}

fn hash_lookup(cache: &Vec<(Hash, Typed)>, h: &Hash) -> (r: Option<Typed>)
    ensures
        r == spec_hash_lookup(cache@, h.digest@),
{
    let mut i: usize = cache.len();
    proof {
        assert(cache@.subrange(0, cache@.len() as int) =~= cache@);
    }
    while i > 0
        invariant
            i <= cache@.len(),
            spec_hash_lookup(cache@, h.digest@) == spec_hash_lookup(
                cache@.subrange(0, i as int),
                h.digest@,
            ),
        decreases i,
    {
        let ghost pre = cache@.subrange(0, i as int);
        proof {
            assert(pre.last() == cache@[i - 1]);
            assert(pre.drop_last() =~= cache@.subrange(0, i - 1));
        }
        if bytes_eq(&cache[i - 1].0.digest, &h.digest) {
            return Option::Some(typed_clone(&cache[i - 1].1));
        }
        i = i - 1;
    }
    proof {
        assert(cache@.subrange(0, 0) =~= Seq::<(Hash, Typed)>::empty());
    }
    Option::None
}

impl ImportEnv {
    pub fn new() -> (r: ImportEnv)
        ensures
            r.mem_cache@ =~= Seq::<(ImportLocation, Typed)>::empty(),
            r.stack@ =~= Seq::<ImportLocation>::empty(),
            r.file_cache matches Some(fc) && fc@ =~= Seq::<(Hash, Typed)>::empty(),
    {
        ImportEnv { file_cache: Option::Some(Vec::new()), mem_cache: Vec::new(), stack: Vec::new() }
    }

    /// Look a resolved import up: the in-memory cache first, keyed by
    /// location; on a miss, the persistent cache, keyed by hash, when a hash
    /// was supplied. `None` is a miss.
    pub fn get_from_cache(&mut self, location: &ImportLocation, hash: Option<&Hash>) -> (r: Option<
        Typed,
    >)
        ensures
            *final(self) == *old(self),
            r == spec_cache_get(
                *old(self),
                location.name@,
                match hash {
                    Option::Some(h) => Option::Some(h.digest@),
                    Option::None => Option::<Seq<u8>>::None,
                },
            ),
    {
        match mem_lookup(&self.mem_cache, location) {
            Option::Some(t) => Option::Some(t),
            Option::None => {
                let h = match hash {
                    Option::Some(h) => h,
                    Option::None => {
                        return Option::None;
                    },
                };
                match &self.file_cache {
                    Option::Some(fc) => hash_lookup(fc, h),
                    Option::None => Option::None,
                }
            },
        }
    }

    /// Install a resolved import: always into the in-memory cache; into the
    /// persistent cache too when it is present and a hash was supplied.
    pub fn set_cache(&mut self, location: ImportLocation, hash: Option<&Hash>, expr: Typed)
        ensures
            final(self).stack@ == old(self).stack@,
            final(self).mem_cache@ == old(self).mem_cache@.push((location, expr)),
            spec_mem_lookup(final(self).mem_cache@, location.name@) == Option::Some(expr),
            match (old(self).file_cache, hash) {
                (Option::Some(fc), Option::Some(h)) => final(self).file_cache matches Some(fc2)
                    && fc2@.len() == fc@.len() + 1 && fc2@.subrange(0, fc@.len() as int) == fc@
                    && fc2@.last().0.digest@ == h.digest@ && fc2@.last().1 == expr
                    && spec_hash_lookup(fc2@, h.digest@) == Option::Some(expr),
                _ => final(self).file_cache == old(self).file_cache,
            },
    {
        if let Option::Some(h) = hash {
            match &mut self.file_cache {
                Option::Some(fc) => {
                    let mut digest: Vec<u8> = Vec::new();
                    let mut i: usize = 0;
                    while i < h.digest.len()
                        invariant
                            i <= h.digest@.len(),
                            digest@ =~= h.digest@.subrange(0, i as int),
                        decreases h.digest@.len() - i,
                    {
                        digest.push(h.digest[i]);
                        i = i + 1;
                    }
                    proof {
                        assert(digest@ =~= h.digest@);
                    }
                    fc.push((Hash { digest }, typed_clone(&expr)));
                    proof {
                        assert(fc@.subrange(0, fc@.len() - 1) =~= fc@.drop_last());
                    }
                },
                Option::None => {},
            };
        }
        self.mem_cache.push((location, expr));
    }

    /// Run `do_resolve` with `location` marked as in flight. When `location`
    /// is already on the stack, fail with the cycle error instead and leave
    /// the environment untouched. Whatever `do_resolve` returns, the stack
    /// on exit equals the stack on entry.
    pub fn with_cycle_detection<F: FnOnce(ImportEnv) -> (ImportEnv, Result<Typed, Error>)>(
        self,
        location: ImportLocation,
        do_resolve: F,
    ) -> (r: (ImportEnv, Result<Typed, Error>))
        requires
            forall|e: ImportEnv| #[trigger] call_requires(do_resolve, (e,)),
            forall|e: ImportEnv, rr: (ImportEnv, Result<Typed, Error>)|
                #[trigger] call_ensures(do_resolve, (e,), rr) ==> rr.0.stack@ == e.stack@,
        ensures
            r.0.stack@ == self.stack@,
            spec_stack_contains(self.stack@, location.name@) ==> r.0 == self && (match r.1 {
                Result::Err(Error::Import(ImportError::Cycle(st, l))) => spec_stack_eq(
                    st@,
                    self.stack@,
                ) && l.name@ == location.name@,
                _ => false,
            }),
            !spec_stack_contains(self.stack@, location.name@) ==> exists|
                pushed: ImportEnv,
                mid: ImportEnv,
            |
                #[trigger] call_ensures(do_resolve, (pushed,), (mid, r.1))
                    && pushed.file_cache == self.file_cache && pushed.mem_cache == self.mem_cache
                    && pushed.stack@ == self.stack@.push(location) && r.0.mem_cache
                    == mid.mem_cache && r.0.file_cache == mid.file_cache,
    {
        if stack_contains(&self.stack, &location) {
            let st = stack_clone(&self.stack);
            return (self, Result::Err(Error::Import(ImportError::Cycle(st, location))));
        }
        let mut env = self;
        let ghost entry_stack = env.stack@;
        env.stack.push(location);
        let ghost pushed = env;
        let (mut env2, result) = do_resolve(env);
        let ghost mid = env2;
        proof {
            assert(env2.stack@ == pushed.stack@);
            assert(env2.stack@.len() > 0);
        }
        let _ = env2.stack.pop();
        proof {
            assert(env2.stack@ =~= entry_stack);
        }
        (env2, result)
    }
}

} // verus!
