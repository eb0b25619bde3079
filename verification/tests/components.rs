use witnet_oracle::allocator::RequestIdAllocator;
use witnet_oracle::pallet::Error;
use witnet_oracle::registry::OperatorRegistry;
use witnet_oracle::store::RequestEntry;
use witnet_oracle::store::RequestStore;

#[test]
fn allocator_counts_from_zero() {
    let mut allocator = RequestIdAllocator::new();
    assert_eq!(allocator.allocate(), 0);
    assert_eq!(allocator.allocate(), 1);
    assert_eq!(allocator.allocate(), 2);
}

#[test]
fn registry_membership_and_self_rules() {
    let mut registry = OperatorRegistry::new();
    assert!(!registry.is_member(5));
    registry.seed_member(5);
    assert!(registry.is_member(5));
    registry.seed_member(5);
    assert!(registry.is_member(5));

    assert_eq!(registry.add(9, 7), Err(Error::UnauthorizedOperator));
    assert_eq!(registry.add(5, 5), Err(Error::OperatorSelfAddition));
    assert_eq!(registry.add(5, 7), Ok(()));
    assert!(registry.is_member(7));

    assert_eq!(registry.remove(9, 7), Err(Error::UnauthorizedOperator));
    assert_eq!(registry.remove(7, 7), Err(Error::OperatorSelfRemoval));
    assert_eq!(registry.remove(5, 11), Err(Error::UnknownOperator));
    assert_eq!(registry.remove(5, 7), Ok(()));
    assert!(!registry.is_member(7));
    assert!(registry.is_member(5));
}

#[test]
fn store_transition_is_three_way() {
    let mut store = RequestStore::new();
    assert!(store.get(0).is_none());

    // Absent id: unknown.
    let outcome = store.transition(0, 999, [0; 32], vec![1]);
    assert_eq!(outcome, Err(Error::UnknownRequest));

    store.insert(
        0,
        RequestEntry::Open {
            bytes: vec![1, 2, 3],
            reward: 55,
            requester: 7,
        },
    );
    match store.get(0) {
        Some(RequestEntry::Open {
            bytes,
            reward,
            requester,
        }) => {
            assert_eq!(bytes, &vec![1, 2, 3]);
            assert_eq!(*reward, 55);
            assert_eq!(*requester, 7);
        }
        _ => panic!("expected an open entry"),
    }

    // Open id: committed transition yielding the reward and the requester.
    let outcome = store.transition(0, 999, [8; 32], vec![4, 5]);
    assert_eq!(outcome, Ok((55, 7)));
    match store.get(0) {
        Some(RequestEntry::Fulfilled {
            timestamp,
            dr_tx_hash,
            result_bytes,
        }) => {
            assert_eq!(*timestamp, 999);
            assert_eq!(dr_tx_hash, &[8; 32]);
            assert_eq!(result_bytes, &vec![4, 5]);
        }
        _ => panic!("expected a fulfilled entry"),
    }

    // Fulfilled id: already reported, and the entry is untouched.
    let outcome = store.transition(0, 1000, [1; 32], vec![6]);
    assert_eq!(outcome, Err(Error::AlreadyReported));
    match store.get(0) {
        Some(RequestEntry::Fulfilled { timestamp, .. }) => {
            assert_eq!(*timestamp, 999);
        }
        _ => panic!("expected a fulfilled entry"),
    }
}
