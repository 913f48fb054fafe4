use dhall::env::NameEnv;
use dhall::syntax::{AlphaVar, Label, V};

fn lbl(n: u64) -> Label {
    Label { id: n }
}

#[test]
fn new_env_is_empty() {
    let env = NameEnv::new();
    assert_eq!(env.size(), 0);
    assert_eq!(env.as_varenv().size(), 0);
}

#[test]
fn insert_is_persistent_and_insert_mut_is_not() {
    let env = NameEnv::new();
    let env2 = env.insert(&lbl(1));
    assert_eq!(env.size(), 0);
    assert_eq!(env2.size(), 1);
    let mut env3 = env2.insert(&lbl(2));
    env3.insert_mut(&lbl(3));
    assert_eq!(env3.size(), 3);
    env3.remove_mut();
    assert_eq!(env3.size(), 2);
    // removing from an empty environment does nothing
    let mut empty = NameEnv::new();
    empty.remove_mut();
    assert_eq!(empty.size(), 0);
}

#[test]
fn unlabel_var_skips_shadowed_binders() {
    // stack (outermost first): x, y, x
    let mut env = NameEnv::new();
    env.insert_mut(&lbl(1));
    env.insert_mut(&lbl(2));
    env.insert_mut(&lbl(1));
    // x@0 is the innermost x
    let a0 = env.unlabel_var(&V { name: lbl(1), idx: 0 }).unwrap();
    assert_eq!(a0.idx, 0);
    // x@1 skips one shadowing occurrence
    let a1 = env.unlabel_var(&V { name: lbl(1), idx: 1 }).unwrap();
    assert_eq!(a1.idx, 2);
    // y@0 sits between them
    let ay = env.unlabel_var(&V { name: lbl(2), idx: 0 }).unwrap();
    assert_eq!(ay.idx, 1);
    // no third x
    assert!(env.unlabel_var(&V { name: lbl(1), idx: 2 }).is_none());
    assert!(env.unlabel_var(&V { name: lbl(9), idx: 0 }).is_none());
}

#[test]
fn label_var_inverts_unlabel_var() {
    let mut env = NameEnv::new();
    env.insert_mut(&lbl(1));
    env.insert_mut(&lbl(2));
    env.insert_mut(&lbl(1));
    for (name, idx) in [(1u64, 0usize), (1, 1), (2, 0)] {
        let v = V { name: lbl(name), idx };
        let a = env.unlabel_var(&v).unwrap();
        let back = env.label_var(a);
        assert_eq!(back.name.id, name);
        assert_eq!(back.idx, idx);
    }
}

#[test]
fn label_var_names_each_depth() {
    let mut env = NameEnv::new();
    env.insert_mut(&lbl(1));
    env.insert_mut(&lbl(2));
    env.insert_mut(&lbl(1));
    let v0 = env.label_var(AlphaVar::new(0));
    assert_eq!((v0.name.id, v0.idx), (1, 0));
    let v1 = env.label_var(AlphaVar::new(1));
    assert_eq!((v1.name.id, v1.idx), (2, 0));
    let v2 = env.label_var(AlphaVar::new(2));
    assert_eq!((v2.name.id, v2.idx), (1, 1));
}
