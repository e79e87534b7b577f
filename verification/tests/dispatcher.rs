use ft_ledger::ids::{ActorId, TxId};
use ft_ledger::logic::{
    approve_request, balance_result, decrease_balance_request, get_balance_request,
    increase_balance_request, mutation_result,
};
use ft_ledger::model::HandleResult;
use ft_ledger::storage::FTStorage;
use ft_ledger::wire::{FTStorageAction, FTStorageEvent};

fn owner() -> ActorId {
    ActorId::new(0, 1)
}

fn account_a() -> ActorId {
    ActorId::new(0, 10)
}

fn account_b() -> ActorId {
    ActorId::new(0, 11)
}

fn tx(n: u128) -> TxId {
    TxId::new(0, n)
}

#[test]
fn builders_carry_the_parameters() {
    assert_eq!(
        increase_balance_request(tx(1), account_a(), 100),
        FTStorageAction::IncreaseBalance {
            transaction_hash: tx(1),
            account: account_a(),
            amount: 100,
        }
    );
    assert_eq!(
        decrease_balance_request(tx(2), account_b(), account_a(), 30),
        FTStorageAction::DecreaseBalance {
            transaction_hash: tx(2),
            msg_source: account_b(),
            account: account_a(),
            amount: 30,
        }
    );
    assert_eq!(
        approve_request(tx(3), account_a(), account_b(), 50),
        FTStorageAction::Approve {
            transaction_hash: tx(3),
            msg_source: account_a(),
            account: account_b(),
            amount: 50,
        }
    );
    assert_eq!(
        get_balance_request(account_a()),
        FTStorageAction::GetBalance(account_a())
    );
}

#[test]
fn mutation_result_succeeds_only_on_a_success_reply() {
    assert_eq!(mutation_result(Some(FTStorageEvent::Success)), Ok(()));
    assert_eq!(mutation_result(Some(FTStorageEvent::Failure)), Err(()));
    assert_eq!(mutation_result(Some(FTStorageEvent::Balance(7))), Err(()));
    assert_eq!(mutation_result(None), Err(()));
}

#[test]
fn balance_result_degrades_to_zero() {
    assert_eq!(balance_result(Some(FTStorageEvent::Balance(42))), 42);
    assert_eq!(balance_result(Some(FTStorageEvent::Success)), 0);
    assert_eq!(balance_result(Some(FTStorageEvent::Failure)), 0);
    assert_eq!(balance_result(None), 0);
}

#[test]
fn one_request_one_reply_end_to_end() {
    let mut shard = FTStorage::new(owner());
    let request = increase_balance_request(tx(1), account_a(), 100);
    let reply = match shard.handle(&owner(), request) {
        HandleResult::Reply { event, .. } => Some(event),
        _ => None,
    };
    assert_eq!(mutation_result(reply), Ok(()));

    let request = decrease_balance_request(tx(2), account_a(), account_a(), 150);
    let reply = match shard.handle(&owner(), request) {
        HandleResult::Reply { event, .. } => Some(event),
        _ => None,
    };
    assert_eq!(mutation_result(reply), Err(()));

    let request = get_balance_request(account_a());
    let reply = match shard.handle(&account_b(), request) {
        HandleResult::Reply { event, .. } => Some(event),
        _ => None,
    };
    assert_eq!(balance_result(reply), 100);

    // A failed exchange never reaches the shard: the caller sees failure,
    // and a query degrades to zero.
    assert_eq!(mutation_result(None), Err(()));
    assert_eq!(balance_result(None), 0);
}
