use witnet_oracle::clock::FixedClock;
use witnet_oracle::ledger::InMemoryLedger;
use witnet_oracle::pallet::Config;
use witnet_oracle::pallet::Error;
use witnet_oracle::pallet::Event;
use witnet_oracle::pallet::GenesisConfig;
use witnet_oracle::pallet::Pallet;

const MAX_WITNET_BYTE_SIZE: u16 = 2048;

/// Account #5 is pre-approved as an operator; accounts 0..10 are funded with
/// a balance of 1_000; the clock starts at 0.
fn new_oracle() -> (Pallet, InMemoryLedger, FixedClock) {
    let config = Config {
        max_byte_size: 2048,
    };
    let genesis = GenesisConfig::from_operators(vec![5]);
    let mut ledger = InMemoryLedger::new();
    let mut account: u64 = 0;
    while account < 10 {
        ledger.deposit(account, 1_000);
        account += 1;
    }
    (Pallet::new(config, &genesis), ledger, FixedClock::new(0))
}

fn post_dummy_request(
    witnet: &mut Pallet,
    ledger: &mut InMemoryLedger,
    caller: u64,
    reward: Option<u64>,
) -> Result<u64, Error> {
    let reward = reward.unwrap_or_default();
    witnet.post_request(ledger, caller, reward, vec![])
}

#[test]
fn test_post_request() {
    let (mut witnet, mut ledger, _clock) = new_oracle();
    let reward = 123;
    let requester_id = 7;
    let max_byte_size = usize::from(MAX_WITNET_BYTE_SIZE);

    let initial_requester_free_balance = ledger.free_balance(requester_id);
    let initial_requester_reserved_balance = ledger.reserved_balance(requester_id);

    // This should fail because we are providing too many bytes
    let post = witnet.post_request(&mut ledger, requester_id, 0, vec![0; max_byte_size + 1]);
    assert_eq!(post, Err(Error::OversizedRequest));

    // This should work!
    let post = post_dummy_request(&mut witnet, &mut ledger, requester_id, Some(reward));
    assert!(post.is_ok());
    assert_eq!(
        witnet.last_event(),
        Some(Event::PostedRequest {
            request_id: 0,
            requester: 7,
        })
    );

    let after_post_requester_free_balance = ledger.free_balance(requester_id);
    let after_post_requester_reserved_balance = ledger.reserved_balance(requester_id);

    // Check balance changes
    assert_eq!(
        initial_requester_free_balance - after_post_requester_free_balance,
        reward
    );
    assert_eq!(
        after_post_requester_reserved_balance - initial_requester_reserved_balance,
        reward
    );

    // A second request should get a different ID
    let post = post_dummy_request(&mut witnet, &mut ledger, requester_id, None);
    assert!(post.is_ok());
    assert_eq!(
        witnet.last_event(),
        Some(Event::PostedRequest {
            request_id: 1,
            requester: 7,
        })
    );
}

#[test]
fn test_report_result() {
    let (mut witnet, mut ledger, mut clock) = new_oracle();
    let reward = 123;
    let reporter_id = 5;
    let requester_id = 7;
    let max_byte_size = usize::from(MAX_WITNET_BYTE_SIZE);

    clock.set_timestamp(1000);

    let initial_requester_free_balance = ledger.free_balance(requester_id);
    let initial_requester_reserved_balance = ledger.reserved_balance(requester_id);
    let initial_reporter_free_balance = ledger.free_balance(reporter_id);
    let initial_reporter_reserved_balance = ledger.reserved_balance(reporter_id);

    post_dummy_request(&mut witnet, &mut ledger, requester_id, Some(reward)).ok();

    // This should fail because account #7 is not allowed to report
    let report = witnet.report_result(
        &mut ledger,
        &clock,
        requester_id,
        0,
        999,
        [0; 32],
        vec![0; max_byte_size],
    );
    assert_eq!(report, Err(Error::UnauthorizedOperator));

    // This should fail because we are reporting a result from the future
    let report = witnet.report_result(
        &mut ledger,
        &clock,
        reporter_id,
        0,
        1000,
        [0; 32],
        vec![0; max_byte_size],
    );
    assert_eq!(report, Err(Error::ResultFromFuture));

    // This should fail because the result cannot be empty
    let report = witnet.report_result(&mut ledger, &clock, reporter_id, 0, 999, [0; 32], vec![]);
    assert_eq!(report, Err(Error::EmptyResult));

    // This should fail because the result is oversized
    let report = witnet.report_result(
        &mut ledger,
        &clock,
        reporter_id,
        0,
        999,
        [0; 32],
        vec![0; max_byte_size + 1],
    );
    assert_eq!(report, Err(Error::OversizedResult));

    // This should fail because the request is unknown
    let report = witnet.report_result(
        &mut ledger,
        &clock,
        reporter_id,
        1,
        999,
        [0; 32],
        vec![0; max_byte_size],
    );
    assert_eq!(report, Err(Error::UnknownRequest));

    // This should work!
    let report = witnet.report_result(
        &mut ledger,
        &clock,
        reporter_id,
        0,
        999,
        [0; 32],
        vec![0; max_byte_size],
    );
    assert!(report.is_ok());
    assert_eq!(
        witnet.last_event(),
        Some(Event::PostedResult {
            request_id: 0,
            reporter: 5,
        })
    );

    let final_requester_free_balance = ledger.free_balance(requester_id);
    let final_requester_reserved_balance = ledger.reserved_balance(requester_id);
    let final_reporter_free_balance = ledger.free_balance(reporter_id);
    let final_reporter_reserved_balance = ledger.reserved_balance(reporter_id);

    // Check balance changes
    assert_eq!(
        initial_requester_free_balance - final_requester_free_balance,
        final_reporter_free_balance - initial_reporter_free_balance
    );
    assert_eq!(
        initial_requester_free_balance - final_requester_free_balance,
        reward
    );
    assert_eq!(
        final_reporter_free_balance - initial_reporter_free_balance,
        reward
    );
    assert_eq!(
        final_requester_reserved_balance,
        initial_requester_reserved_balance
    );
    assert_eq!(
        final_reporter_reserved_balance,
        initial_reporter_reserved_balance
    );

    // This should fail because it is a duplicated report
    let report = witnet.report_result(
        &mut ledger,
        &clock,
        reporter_id,
        0,
        999,
        [0; 32],
        vec![0; max_byte_size],
    );
    assert_eq!(report, Err(Error::AlreadyReported));
    assert_eq!(
        witnet.last_event(),
        Some(Event::PostedResult {
            request_id: 0,
            reporter: 5,
        })
    );
}

#[test]
fn test_operators() {
    let (mut witnet, mut ledger, mut clock) = new_oracle();
    let genesis_operator = 5;
    let account_seven = 7;
    let account_nine = 9;
    let max_byte_size = usize::from(MAX_WITNET_BYTE_SIZE);

    clock.set_timestamp(1000);

    post_dummy_request(&mut witnet, &mut ledger, account_seven, None).ok();
    post_dummy_request(&mut witnet, &mut ledger, account_seven, None).ok();
    post_dummy_request(&mut witnet, &mut ledger, account_seven, None).ok();

    // This should fail because account #7 is not allowed to report yet
    let report = witnet.report_result(
        &mut ledger,
        &clock,
        account_seven,
        0,
        999,
        [0; 32],
        vec![0; max_byte_size],
    );
    assert_eq!(report, Err(Error::UnauthorizedOperator));

    // This should fail because only operators can add more operators
    let add = witnet.add_operator(account_nine, 7);
    assert_eq!(add, Err(Error::UnauthorizedOperator));

    // This should fail because operators cannot add themselves as operators
    // to avoid duplicates
    let add = witnet.add_operator(genesis_operator, 5);
    assert_eq!(add, Err(Error::OperatorSelfAddition));

    // This should work!
    let add = witnet.add_operator(genesis_operator, 7);
    assert!(add.is_ok());
    assert_eq!(
        witnet.last_event(),
        Some(Event::AddedOperator {
            added_operator: 7,
            added_by: 5,
        })
    );

    // The recently added operator should now be able to report
    let report = witnet.report_result(
        &mut ledger,
        &clock,
        account_seven,
        0,
        999,
        [0; 32],
        vec![0; max_byte_size],
    );
    assert!(report.is_ok());
    assert_eq!(
        witnet.last_event(),
        Some(Event::PostedResult {
            request_id: 0,
            reporter: 7,
        })
    );

    // The recently added operator should now be able to add another operator
    let add = witnet.add_operator(account_seven, 9);
    assert!(add.is_ok());
    assert_eq!(
        witnet.last_event(),
        Some(Event::AddedOperator {
            added_operator: 9,
            added_by: 7,
        })
    );

    // This second new operator should also be able to report
    let report = witnet.report_result(
        &mut ledger,
        &clock,
        account_nine,
        1,
        999,
        [0; 32],
        vec![0; max_byte_size],
    );
    assert!(report.is_ok());
    assert_eq!(
        witnet.last_event(),
        Some(Event::PostedResult {
            request_id: 1,
            reporter: 9,
        })
    );

    // An operator should not be able to remove itself
    let remove = witnet.remove_operator(account_seven, 7);
    assert_eq!(remove, Err(Error::OperatorSelfRemoval));

    // However, one operator should be able to remove a different operator
    let remove = witnet.remove_operator(genesis_operator, 7);
    assert!(remove.is_ok());
    assert_eq!(
        witnet.last_event(),
        Some(Event::RemovedOperator {
            removed_operator: 7,
            removed_by: 5,
        })
    );

    // The recently removed operator should no longer be able to report
    let report = witnet.report_result(
        &mut ledger,
        &clock,
        account_seven,
        2,
        999,
        [0; 32],
        vec![0; max_byte_size],
    );
    assert_eq!(report, Err(Error::UnauthorizedOperator));

    // But the third operator (account #9) should still be able to report
    let report = witnet.report_result(
        &mut ledger,
        &clock,
        account_nine,
        2,
        999,
        [0; 32],
        vec![0; max_byte_size],
    );
    assert!(report.is_ok());
    assert_eq!(
        witnet.last_event(),
        Some(Event::PostedResult {
            request_id: 2,
            reporter: 9,
        })
    );

    // You should not be able to remove an operator that never existed
    let remove = witnet.remove_operator(genesis_operator, 11);
    assert_eq!(remove, Err(Error::UnknownOperator));
}
