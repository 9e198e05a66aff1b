use solvote::{ErrorCode, NullifierRegistry};

#[test]
fn registry_starts_empty() {
    let registry = NullifierRegistry::new(5);
    assert_eq!(registry.proposal(), 5);
    assert_eq!(registry.len(), 0);
    assert!(!registry.contains(&[0; 32]));
    assert!(registry.find(&[0; 32]).is_none());
    assert!(registry.ballot(0).is_none());
}

#[test]
fn register_creates_if_absent() {
    let mut registry = NullifierRegistry::new(5);
    assert_eq!(registry.register([1; 32], vec![10, 11], [2; 32], 3), Ok(()));
    assert_eq!(registry.register([4; 32], Vec::new(), [5; 32], u128::MAX), Ok(()));
    assert_eq!(registry.len(), 2);
    assert!(registry.contains(&[1; 32]));
    assert!(registry.contains(&[4; 32]));
    assert!(!registry.contains(&[2; 32]));
    let first = registry.find(&[1; 32]).unwrap();
    assert_eq!(first.proposal, 5);
    assert_eq!(first.ciphertext, vec![10, 11]);
    assert_eq!(first.pubkey, [2; 32]);
    assert_eq!(first.nonce, 3);
    let second = registry.ballot(1).unwrap();
    assert_eq!(second.nullifier, [4; 32]);
    assert_eq!(second.nonce, u128::MAX);
}

#[test]
fn register_never_overwrites() {
    let mut registry = NullifierRegistry::new(5);
    assert_eq!(registry.register([1; 32], vec![10, 11], [2; 32], 3), Ok(()));
    assert_eq!(
        registry.register([1; 32], vec![99], [9; 32], 9),
        Err(ErrorCode::DuplicateVote)
    );
    assert_eq!(registry.len(), 1);
    let kept = registry.find(&[1; 32]).unwrap();
    assert_eq!(kept.ciphertext, vec![10, 11]);
    assert_eq!(kept.pubkey, [2; 32]);
    assert_eq!(kept.nonce, 3);
}

#[test]
fn nullifiers_that_differ_in_one_byte_are_different() {
    let mut a = [0u8; 32];
    let mut b = [0u8; 32];
    a[31] = 1;
    b[30] = 1;
    let mut registry = NullifierRegistry::new(1);
    assert_eq!(registry.register(a, vec![1], [0; 32], 0), Ok(()));
    assert_eq!(registry.register(b, vec![2], [0; 32], 0), Ok(()));
    assert_eq!(registry.register(a, vec![3], [0; 32], 0), Err(ErrorCode::DuplicateVote));
    assert_eq!(registry.len(), 2);
}
