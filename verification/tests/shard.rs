use ft_ledger::ids::{ActorId, TxId};
use ft_ledger::model::HandleResult;
use ft_ledger::storage::FTStorage;
use ft_ledger::wire::{FTStorageAction, FTStorageEvent, FTStorageState, FTStorageStateReply};

fn owner() -> ActorId {
    ActorId::new(0, 1)
}

fn account_a() -> ActorId {
    ActorId::new(0, 10)
}

fn account_b() -> ActorId {
    ActorId::new(0, 11)
}

fn tx(n: u128) -> TxId {
    TxId::new(0, n)
}

fn event_of(r: &HandleResult) -> Option<FTStorageEvent> {
    match r {
        HandleResult::Reply { event, .. } => Some(*event),
        _ => None,
    }
}

fn schedule_of(r: &HandleResult) -> Option<TxId> {
    match r {
        HandleResult::Reply { schedule_clear, .. } => *schedule_clear,
        _ => None,
    }
}

#[test]
fn increase_credits_account() {
    let mut shard = FTStorage::new(owner());
    let r = shard.increase_balance(&owner(), tx(1), &account_a(), 100);
    assert_eq!(event_of(&r), Some(FTStorageEvent::Success));
    assert_eq!(schedule_of(&r), Some(tx(1)));
    assert_eq!(shard.get_balance(&account_a()), 100);
    assert_eq!(shard.recorded_status(&tx(1)), Some(true));
}

#[test]
fn repeated_increase_is_replayed() {
    let mut shard = FTStorage::new(owner());
    shard.increase_balance(&owner(), tx(1), &account_a(), 100);
    let r = shard.increase_balance(&owner(), tx(1), &account_a(), 100);
    assert_eq!(event_of(&r), Some(FTStorageEvent::Success));
    // The replay schedules no second cleanup and credits nothing.
    assert_eq!(schedule_of(&r), None);
    assert_eq!(shard.get_balance(&account_a()), 100);
}

#[test]
fn insufficient_decrease_records_failure() {
    let mut shard = FTStorage::new(owner());
    shard.increase_balance(&owner(), tx(1), &account_a(), 100);
    let r = shard.decrease_balance(&owner(), tx(2), &account_a(), &account_a(), 150);
    assert_eq!(event_of(&r), Some(FTStorageEvent::Failure));
    assert_eq!(shard.get_balance(&account_a()), 100);
    assert_eq!(shard.recorded_status(&tx(2)), Some(false));
}

#[test]
fn failed_decrease_replays_without_funds_check() {
    let mut shard = FTStorage::new(owner());
    shard.increase_balance(&owner(), tx(1), &account_a(), 100);
    shard.decrease_balance(&owner(), tx(2), &account_a(), &account_a(), 150);
    // Funds become sufficient, but the recorded failure must stand.
    shard.increase_balance(&owner(), tx(3), &account_a(), 200);
    assert_eq!(shard.get_balance(&account_a()), 300);
    let r = shard.decrease_balance(&owner(), tx(2), &account_a(), &account_a(), 150);
    assert_eq!(event_of(&r), Some(FTStorageEvent::Failure));
    assert_eq!(schedule_of(&r), None);
    assert_eq!(shard.get_balance(&account_a()), 300);
}

#[test]
fn approve_sets_allowance() {
    let mut shard = FTStorage::new(owner());
    let r = shard.approve(&owner(), tx(3), &account_a(), &account_b(), 50);
    assert_eq!(event_of(&r), Some(FTStorageEvent::Success));
    assert_eq!(shard.get_allowance(&account_a(), &account_b()), 50);
}

#[test]
fn delegated_decrease_consumes_allowance() {
    let mut shard = FTStorage::new(owner());
    shard.increase_balance(&owner(), tx(1), &account_a(), 100);
    shard.approve(&owner(), tx(3), &account_a(), &account_b(), 50);
    let r = shard.decrease_balance(&owner(), tx(4), &account_b(), &account_a(), 30);
    assert_eq!(event_of(&r), Some(FTStorageEvent::Success));
    assert_eq!(shard.get_balance(&account_a()), 70);
    assert_eq!(shard.get_allowance(&account_a(), &account_b()), 20);
}

#[test]
fn delegated_decrease_insufficient_allowance_changes_nothing() {
    let mut shard = FTStorage::new(owner());
    shard.increase_balance(&owner(), tx(1), &account_a(), 100);
    shard.approve(&owner(), tx(3), &account_a(), &account_b(), 20);
    let r = shard.decrease_balance(&owner(), tx(4), &account_b(), &account_a(), 30);
    assert_eq!(event_of(&r), Some(FTStorageEvent::Failure));
    assert_eq!(shard.get_balance(&account_a()), 100);
    assert_eq!(shard.get_allowance(&account_a(), &account_b()), 20);
    assert_eq!(shard.recorded_status(&tx(4)), Some(false));
}

#[test]
fn absent_allowance_rejects_delegated_decrease() {
    let mut shard = FTStorage::new(owner());
    shard.increase_balance(&owner(), tx(1), &account_a(), 100);
    let r = shard.decrease_balance(&owner(), tx(4), &account_b(), &account_a(), 30);
    assert_eq!(event_of(&r), Some(FTStorageEvent::Failure));
    assert_eq!(shard.get_balance(&account_a()), 100);
}

#[test]
fn direct_decrease_of_whole_balance() {
    let mut shard = FTStorage::new(owner());
    shard.increase_balance(&owner(), tx(1), &account_a(), 100);
    let r = shard.decrease_balance(&owner(), tx(2), &account_a(), &account_a(), 100);
    assert_eq!(event_of(&r), Some(FTStorageEvent::Success));
    assert_eq!(shard.get_balance(&account_a()), 0);
    assert_eq!(shard.recorded_status(&tx(2)), Some(true));
}

#[test]
fn unauthorized_mutation_is_fatal_and_changes_nothing() {
    let mut shard = FTStorage::new(owner());
    shard.increase_balance(&owner(), tx(1), &account_a(), 100);
    let intruder = ActorId::new(9, 9);
    let r = shard.increase_balance(&intruder, tx(2), &account_a(), 50);
    assert!(matches!(r, HandleResult::Fatal));
    let r = shard.decrease_balance(&intruder, tx(2), &account_a(), &account_a(), 50);
    assert!(matches!(r, HandleResult::Fatal));
    let r = shard.approve(&intruder, tx(2), &account_a(), &account_b(), 50);
    assert!(matches!(r, HandleResult::Fatal));
    assert_eq!(shard.get_balance(&account_a()), 100);
    assert_eq!(shard.get_allowance(&account_a(), &account_b()), 0);
    assert_eq!(shard.recorded_status(&tx(2)), None);
}

#[test]
fn queries_are_open_to_anyone() {
    let mut shard = FTStorage::new(owner());
    shard.increase_balance(&owner(), tx(1), &account_a(), 100);
    // get_balance takes no requester identity at all: reads are unrestricted.
    assert_eq!(shard.get_balance(&account_a()), 100);
    assert_eq!(shard.get_balance(&account_b()), 0);
}

#[test]
fn clear_reopens_the_idempotency_window() {
    let mut shard = FTStorage::new(owner());
    shard.increase_balance(&owner(), tx(1), &account_a(), 100);
    shard.clear(tx(1));
    assert_eq!(shard.recorded_status(&tx(1)), None);
    let r = shard.increase_balance(&owner(), tx(1), &account_a(), 100);
    assert_eq!(event_of(&r), Some(FTStorageEvent::Success));
    assert_eq!(schedule_of(&r), Some(tx(1)));
    assert_eq!(shard.get_balance(&account_a()), 200);
}

#[test]
fn increase_saturates_at_the_maximum() {
    let mut shard = FTStorage::new(owner());
    shard.increase_balance(&owner(), tx(1), &account_a(), u128::MAX);
    assert_eq!(shard.get_balance(&account_a()), u128::MAX);
    let r = shard.increase_balance(&owner(), tx(2), &account_a(), 1);
    assert_eq!(event_of(&r), Some(FTStorageEvent::Success));
    assert_eq!(shard.get_balance(&account_a()), u128::MAX);
}

#[test]
fn approve_saturates_at_the_maximum() {
    let mut shard = FTStorage::new(owner());
    shard.approve(&owner(), tx(1), &account_a(), &account_b(), u128::MAX);
    shard.approve(&owner(), tx(2), &account_a(), &account_b(), 5);
    assert_eq!(shard.get_allowance(&account_a(), &account_b()), u128::MAX);
}

#[test]
fn duplicate_approve_under_fresh_id_applies_again() {
    // The approve path checks the log but records no outcome, so the same
    // identifier, never recorded elsewhere, raises the allowance twice.
    let mut shard = FTStorage::new(owner());
    shard.approve(&owner(), tx(3), &account_a(), &account_b(), 50);
    shard.approve(&owner(), tx(3), &account_a(), &account_b(), 50);
    assert_eq!(shard.get_allowance(&account_a(), &account_b()), 100);
}

#[test]
fn handle_dispatches_requests() {
    let mut shard = FTStorage::new(owner());
    let r = shard.handle(
        &owner(),
        FTStorageAction::IncreaseBalance {
            transaction_hash: tx(1),
            account: account_a(),
            amount: 100,
        },
    );
    assert_eq!(event_of(&r), Some(FTStorageEvent::Success));
    let r = shard.handle(&ActorId::new(5, 5), FTStorageAction::GetBalance(account_a()));
    assert_eq!(event_of(&r), Some(FTStorageEvent::Balance(100)));
    assert_eq!(schedule_of(&r), None);
    let r = shard.handle(&owner(), FTStorageAction::Clear(tx(1)));
    assert!(matches!(r, HandleResult::Silent));
    assert_eq!(shard.recorded_status(&tx(1)), None);
}

#[test]
fn handle_rejects_unauthorized_mutation() {
    let mut shard = FTStorage::new(owner());
    let r = shard.handle(
        &ActorId::new(9, 9),
        FTStorageAction::Approve {
            transaction_hash: tx(1),
            msg_source: account_a(),
            account: account_b(),
            amount: 50,
        },
    );
    assert!(matches!(r, HandleResult::Fatal));
    assert_eq!(shard.get_allowance(&account_a(), &account_b()), 0);
}

#[test]
fn meta_state_answers_balance_query() {
    let mut shard = FTStorage::new(owner());
    shard.increase_balance(&owner(), tx(1), &account_a(), 42);
    let FTStorageStateReply::Balance(amount) =
        shard.meta_state(&FTStorageState::Balance(account_a()));
    assert_eq!(amount, 42);
    let FTStorageStateReply::Balance(amount) =
        shard.meta_state(&FTStorageState::Balance(account_b()));
    assert_eq!(amount, 0);
}
