use neural_galaga::session::{ForkError, ForkInfo, ForkRegistry};

#[test]
fn forks_get_increasing_ids_from_one() {
    let mut r: ForkRegistry<&str> = ForkRegistry::new();
    assert_eq!(r.fork(10, "a"), 1);
    assert_eq!(r.fork(20, "b"), 2);
    assert_eq!(r.fork(30, "c"), 3);
    assert_eq!(
        r.list_forks(),
        vec![
            ForkInfo { fork_id: 1, step: 10 },
            ForkInfo { fork_id: 2, step: 20 },
            ForkInfo { fork_id: 3, step: 30 }
        ]
    );
}

#[test]
fn get_reads_back_and_keeps_the_fork() {
    let mut r: ForkRegistry<String> = ForkRegistry::new();
    let id = r.fork(5, "snapshot".to_string());
    assert_eq!(r.get(id), Some(&"snapshot".to_string()));
    assert_eq!(r.get(id), Some(&"snapshot".to_string()));
    assert_eq!(r.get(id + 1), None);
}

#[test]
fn kill_fork_removes_only_that_fork() {
    let mut r: ForkRegistry<u32> = ForkRegistry::new();
    r.fork(1, 100);
    r.fork(2, 200);
    r.fork(3, 300);
    assert_eq!(r.kill_fork(2), Ok(()));
    assert_eq!(r.get(2), None);
    assert_eq!(r.get(1), Some(&100));
    assert_eq!(r.get(3), Some(&300));
    assert_eq!(r.kill_fork(2), Err(ForkError::UnknownFork(2)));
    assert_eq!(r.kill_fork(99), Err(ForkError::UnknownFork(99)));
    assert_eq!(
        r.list_forks(),
        vec![ForkInfo { fork_id: 1, step: 1 }, ForkInfo { fork_id: 3, step: 3 }]
    );
    // Ids are never reused.
    assert_eq!(r.fork(4, 400), 4);
}

#[test]
fn empty_registry() {
    let r: ForkRegistry<()> = ForkRegistry::new();
    assert!(r.list_forks().is_empty());
    assert_eq!(r.get(1), None);
}

#[test]
fn ids_are_never_reused() {
    let mut r: ForkRegistry<u8> = ForkRegistry::new();
    assert_eq!(r.next_fork_id(), 1);
    let a = r.fork(1, 0);
    let b = r.fork(2, 0);
    assert_eq!(r.next_fork_id(), 3);
    assert_eq!(r.kill_fork(b), Ok(()));
    assert_eq!(r.next_fork_id(), 3);
    assert_eq!(r.fork(3, 0), 3);
    assert_eq!(r.kill_fork(b), Err(ForkError::UnknownFork(b)));
    assert_eq!(r.get(a), Some(&0));
}
