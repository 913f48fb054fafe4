use dhall::import::{ImportEnv, ImportLocation};
use dhall::error::{Error, ImportError};
use dhall::value::{Typed, Value};

fn loc(name: &str) -> ImportLocation {
    ImportLocation { name: name.as_bytes().to_vec() }
}

fn hash(digest: &[u8]) -> dhall::import::Hash {
    dhall::import::Hash { digest: digest.to_vec() }
}

fn typed(n: u64) -> Typed {
    Typed { val: Value::NaturalLit(n), ty: Some(Value::AppliedBuiltin(dhall::syntax::Builtin::Natural, Box::new(dhall::syntax::Lst::Nil))) }
}

#[test]
fn memory_cache_round_trip() {
    let mut env = ImportEnv::new();
    assert!(env.get_from_cache(&loc("a"), None).is_none());
    env.set_cache(loc("a"), None, typed(1));
    let got = env.get_from_cache(&loc("a"), None).unwrap();
    assert!(matches!(got.val, Value::NaturalLit(1)));
    // a later insert for the same location wins
    env.set_cache(loc("a"), None, typed(2));
    let got2 = env.get_from_cache(&loc("a"), None).unwrap();
    assert!(matches!(got2.val, Value::NaturalLit(2)));
    assert!(env.get_from_cache(&loc("b"), None).is_none());
}

#[test]
fn persistent_cache_answers_by_hash_on_memory_miss() {
    let mut env = ImportEnv::new();
    let h = hash(&[1, 2, 3]);
    env.set_cache(loc("a"), Some(&h), typed(7));
    // a different location, same hash: the persistent cache answers
    let got = env.get_from_cache(&loc("b"), Some(&h)).unwrap();
    assert!(matches!(got.val, Value::NaturalLit(7)));
    // no hash supplied: miss
    assert!(env.get_from_cache(&loc("b"), None).is_none());
    // unknown hash: miss
    assert!(env.get_from_cache(&loc("b"), Some(&hash(&[9]))).is_none());
}

#[test]
fn cycle_detection_runs_the_resolver_once() {
    let env = ImportEnv::new();
    let (env2, r) = env.with_cycle_detection(loc("a"), |e| (e, Ok(typed(3))));
    assert_eq!(env2.stack.len(), 0);
    assert!(matches!(r, Ok(t) if matches!(t.val, Value::NaturalLit(3))));
}

#[test]
fn stack_depth_is_restored_on_failure_too() {
    let env = ImportEnv::new();
    let (env2, r) = env.with_cycle_detection(loc("a"), |e| {
        assert_eq!(e.stack.len(), 1);
        (e, Err(Error::Typecheck(dhall::error::TypeError::new(
            dhall::error::TypeMessage::Unimplemented,
        ))))
    });
    assert_eq!(env2.stack.len(), 0);
    assert!(r.is_err());
}

#[test]
fn nested_resolution_of_the_same_location_is_a_cycle() {
    // with_cycle_detection(L, \e -> with_cycle_detection(L, f)) fails with
    // ImportCycle([L], L)
    let env = ImportEnv::new();
    let (env2, r) = env.with_cycle_detection(loc("l"), |e| {
        e.with_cycle_detection(loc("l"), |e2| (e2, Ok(typed(1))))
    });
    assert_eq!(env2.stack.len(), 0);
    match r {
        Err(Error::Import(ImportError::Cycle(stack, offender))) => {
            assert_eq!(stack.len(), 1);
            assert_eq!(stack[0].name, b"l".to_vec());
            assert_eq!(offender.name, b"l".to_vec());
        },
        _ => panic!("expected an import cycle"),
    }
}

#[test]
fn distinct_locations_do_not_cycle() {
    let env = ImportEnv::new();
    let (env2, r) = env.with_cycle_detection(loc("a"), |e| {
        let (e2, r2) = e.with_cycle_detection(loc("b"), |inner| (inner, Ok(typed(5))));
        (e2, r2)
    });
    assert_eq!(env2.stack.len(), 0);
    assert!(r.is_ok());
}

#[test]
fn resolver_cache_writes_survive_the_call() {
    let env = ImportEnv::new();
    let (mut env2, _) = env.with_cycle_detection(loc("a"), |mut e| {
        e.set_cache(loc("a"), None, typed(9));
        let r = Ok(typed(9));
        (e, r)
    });
    let got = env2.get_from_cache(&loc("a"), None).unwrap();
    assert!(matches!(got.val, Value::NaturalLit(9)));
}
