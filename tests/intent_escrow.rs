use fusion_swap::intent_escrow::{Error, IntentEscrow, IntentEvent, OrderStatus, SubmitIntentParams};
use fusion_swap::primitives::{AccountId, CallContext};

const ALICE: AccountId = [0x01; 32];
const BOB: AccountId = [0x02; 32];
const CHARLIE: AccountId = [0x03; 32];
const DJANGO: AccountId = [0x04; 32];

fn call(caller: AccountId, now: u64, transferred: u128) -> CallContext {
    CallContext { caller, now, transferred }
}

fn blake2(secret: &[u8; 32]) -> [u8; 32] {
    let mut out = [0u8; 32];
    ink::env::hash_bytes::<ink::env::hash::Blake2x256>(secret, &mut out);
    out
}

fn create_default_params() -> SubmitIntentParams {
    SubmitIntentParams {
        from_token: [0x1; 32],
        to_token: [0x2; 32],
        from_amount: 1_000_000,
        min_to_amount: 950_000,
        deadline: 86400000,
        ethereum_escrow_src: Some([0x42; 20]),
        max_resolver_fee: 5000,
    }
}

fn new_contract() -> IntentEscrow {
    IntentEscrow::new(ALICE, 50, 1000)
}

fn submitted(contract: &mut IntentEscrow) -> u64 {
    contract.submit_fusion_intent(&call(ALICE, 0, 1_000_000), create_default_params()).unwrap()
}

#[test]
fn test_new_contract() {
    let contract = new_contract();
    assert_eq!(contract.protocol_fee_bps(), 50);
    assert_eq!(contract.min_resolver_stake(), 1000);
    assert!(!contract.is_paused());
    assert_eq!(contract.current_nonce(), 0);
    assert_eq!(contract.owner(), ALICE);
}

#[test]
fn test_submit_fusion_intent_success() {
    let mut contract = new_contract();
    let result = contract.submit_fusion_intent(&call(ALICE, 0, 1_000_000), create_default_params());
    assert!(result.is_ok());
    assert_eq!(result.unwrap(), 0);
    assert_eq!(contract.current_nonce(), 1);
    let order = contract.get_order(0).unwrap();
    assert_eq!(order.maker, ALICE);
    assert_eq!(order.from_amount, 1_000_000);
    assert_eq!(order.status, OrderStatus::Pending);
    assert_eq!(order.filled_amount, 0);
}

#[test]
fn test_submit_fusion_intent_insufficient_funds() {
    let mut contract = new_contract();
    let result = contract.submit_fusion_intent(&call(ALICE, 0, 500_000), create_default_params());
    assert_eq!(result, Err(Error::InsufficientFunds));
}

#[test]
fn test_submit_fusion_intent_expired_deadline() {
    let mut contract = new_contract();
    let mut params = create_default_params();
    params.deadline = 0;
    let result = contract.submit_fusion_intent(&call(ALICE, 0, 1_000_000), params);
    assert_eq!(result, Err(Error::DeadlineExpired));
}

#[test]
fn test_submit_fusion_intent_when_paused() {
    let mut contract = new_contract();
    let _ = contract.set_paused(&call(ALICE, 0, 0), true);
    let result = contract.submit_fusion_intent(&call(ALICE, 0, 1_000_000), create_default_params());
    assert_eq!(result, Err(Error::ContractPaused));
}

#[test]
fn test_assign_resolver_success() {
    let mut contract = new_contract();
    let order_id = submitted(&mut contract);
    let hashlock = [0x99; 32];
    let resolver_fee = 2000;
    let result = contract.assign_resolver(&call(BOB, 0, 1000), order_id, CHARLIE, hashlock, resolver_fee);
    assert!(result.is_ok());
    let order = contract.get_order(order_id).unwrap();
    assert_eq!(order.assigned_resolver, Some(CHARLIE));
    assert_eq!(order.hashlock, hashlock);
    assert_eq!(order.resolver_fee, resolver_fee);
    assert_eq!(order.status, OrderStatus::Locked);
}

#[test]
fn test_assign_resolver_insufficient_stake() {
    let mut contract = new_contract();
    let order_id = submitted(&mut contract);
    let result = contract.assign_resolver(&call(BOB, 0, 500), order_id, CHARLIE, [0x99; 32], 2000);
    assert_eq!(result, Err(Error::InsufficientStake));
}

#[test]
fn test_assign_resolver_order_not_found() {
    let mut contract = new_contract();
    let result = contract.assign_resolver(&call(BOB, 0, 1000), 999, CHARLIE, [0x99; 32], 2000);
    assert_eq!(result, Err(Error::OrderNotFound));
}

fn locked_with_secret(contract: &mut IntentEscrow, secret: [u8; 32]) -> u64 {
    let order_id = submitted(contract);
    let hashlock = blake2(&secret);
    let _ = contract.assign_resolver(&call(BOB, 0, 1000), order_id, CHARLIE, hashlock, 2000);
    order_id
}

#[test]
fn test_execute_swap_success() {
    let mut contract = new_contract();
    let secret = [0x11; 32];
    let order_id = locked_with_secret(&mut contract, secret);
    let result = contract.execute_swap(&call(CHARLIE, 0, 0), order_id, secret, 1_000_000);
    assert!(result.is_ok());
    let order = contract.get_order(order_id).unwrap();
    assert_eq!(order.status, OrderStatus::Executed);
    assert_eq!(order.filled_amount, 1_000_000);
}

#[test]
fn test_execute_swap_partial_fill() {
    let mut contract = new_contract();
    let secret = [0x11; 32];
    let order_id = locked_with_secret(&mut contract, secret);
    let result = contract.execute_swap(&call(CHARLIE, 0, 0), order_id, secret, 500_000);
    assert!(result.is_ok());
    let order = contract.get_order(order_id).unwrap();
    assert_eq!(order.status, OrderStatus::PartiallyFilled);
    assert_eq!(order.filled_amount, 500_000);
}

#[test]
fn test_execute_swap_invalid_secret() {
    let mut contract = new_contract();
    let order_id = locked_with_secret(&mut contract, [0x11; 32]);
    let result = contract.execute_swap(&call(CHARLIE, 0, 0), order_id, [0x22; 32], 1_000_000);
    assert_eq!(result, Err(Error::InvalidSecret));
}

fn locked_with_hashlock(contract: &mut IntentEscrow) -> u64 {
    let order_id = submitted(contract);
    let _ = contract.assign_resolver(&call(BOB, 0, 1000), order_id, CHARLIE, [0x99; 32], 2000);
    order_id
}

#[test]
fn test_refund_order_success() {
    let mut contract = new_contract();
    let order_id = locked_with_hashlock(&mut contract);
    let order = contract.get_order(order_id).unwrap();
    let result = contract.refund_order(&call(ALICE, order.timelock + 1, 0), order_id);
    assert!(result.is_ok());
    let updated_order = contract.get_order(order_id).unwrap();
    assert_eq!(updated_order.status, OrderStatus::Refunded);
}

#[test]
fn test_refund_order_timelock_not_expired() {
    let mut contract = new_contract();
    let order_id = locked_with_hashlock(&mut contract);
    let result = contract.refund_order(&call(ALICE, 0, 0), order_id);
    assert_eq!(result, Err(Error::TimelockNotExpired));
}

#[test]
fn test_refund_order_unauthorized() {
    let mut contract = new_contract();
    let order_id = locked_with_hashlock(&mut contract);
    let order = contract.get_order(order_id).unwrap();
    let result = contract.refund_order(&call(BOB, order.timelock + 1, 0), order_id);
    assert_eq!(result, Err(Error::Unauthorized));
}

#[test]
fn test_set_paused_unauthorized() {
    let mut contract = new_contract();
    let result = contract.set_paused(&call(BOB, 0, 0), true);
    assert_eq!(result, Err(Error::Unauthorized));
}

#[test]
fn test_set_relayer_coordinator() {
    let mut contract = new_contract();
    let result = contract.set_relayer_coordinator(&call(ALICE, 0, 0), BOB);
    assert!(result.is_ok());
    assert_eq!(contract.relayer_coordinator(), Some(BOB));
}

#[test]
fn test_set_relayer_coordinator_unauthorized() {
    let mut contract = new_contract();
    let result = contract.set_relayer_coordinator(&call(BOB, 0, 0), CHARLIE);
    assert_eq!(result, Err(Error::Unauthorized));
}

#[test]
fn test_get_order_by_hashlock() {
    let mut contract = new_contract();
    let order_id = locked_with_hashlock(&mut contract);
    assert_eq!(contract.get_order_by_hashlock([0x99; 32]), Some(order_id));
    assert_eq!(contract.get_order_by_hashlock([0x88; 32]), None);
}

#[test]
fn test_duplicate_hashlock() {
    let mut contract = new_contract();
    let order_id1 = submitted(&mut contract);
    let order_id2 = submitted(&mut contract);
    let hashlock = [0x99; 32];
    let _ = contract.assign_resolver(&call(BOB, 0, 1000), order_id1, CHARLIE, hashlock, 2000);
    let result = contract.assign_resolver(&call(BOB, 0, 1000), order_id2, DJANGO, hashlock, 2000);
    assert_eq!(result, Err(Error::OrderAlreadyExists));
}

#[test]
fn test_execute_swap_excess_amount() {
    let mut contract = new_contract();
    let secret = [0x11; 32];
    let order_id = locked_with_secret(&mut contract, secret);
    let result = contract.execute_swap(&call(CHARLIE, 0, 0), order_id, secret, 2_000_000);
    assert_eq!(result, Err(Error::InsufficientFunds));
}

#[test]
fn test_multiple_partial_fills() {
    let mut contract = new_contract();
    let secret = [0x11; 32];
    let order_id = locked_with_secret(&mut contract, secret);
    let charlie = call(CHARLIE, 0, 0);

    assert!(contract.execute_swap(&charlie, order_id, secret, 300_000).is_ok());
    let order = contract.get_order(order_id).unwrap();
    assert_eq!(order.status, OrderStatus::PartiallyFilled);
    assert_eq!(order.filled_amount, 300_000);

    assert!(contract.execute_swap(&charlie, order_id, secret, 200_000).is_ok());
    let order = contract.get_order(order_id).unwrap();
    assert_eq!(order.status, OrderStatus::PartiallyFilled);
    assert_eq!(order.filled_amount, 500_000);

    assert!(contract.execute_swap(&charlie, order_id, secret, 500_000).is_ok());
    let order = contract.get_order(order_id).unwrap();
    assert_eq!(order.status, OrderStatus::Executed);
    assert_eq!(order.filled_amount, 1_000_000);
}

#[test]
fn test_refund_partially_filled_order() {
    let mut contract = new_contract();
    let secret = [0x11; 32];
    let order_id = locked_with_secret(&mut contract, secret);
    let _ = contract.execute_swap(&call(CHARLIE, 0, 0), order_id, secret, 400_000);
    let order = contract.get_order(order_id).unwrap();
    let result = contract.refund_order(&call(ALICE, order.timelock + 1, 0), order_id);
    assert!(result.is_ok());
    let updated_order = contract.get_order(order_id).unwrap();
    assert_eq!(updated_order.status, OrderStatus::Refunded);
    let transfers = contract.take_transfers();
    assert_eq!(transfers.len(), 1);
    assert_eq!(transfers[0].to, ALICE);
    assert_eq!(transfers[0].amount, 600_000);
}

#[test]
fn test_invalid_order_status_transitions() {
    let mut contract = new_contract();
    let order_id = submitted(&mut contract);
    let result = contract.execute_swap(&call(CHARLIE, 0, 0), order_id, [0x11; 32], 1_000_000);
    assert_eq!(result, Err(Error::InvalidOrderStatus));
    let result = contract.refund_order(&call(ALICE, 0, 0), order_id);
    assert_eq!(result, Err(Error::InvalidOrderStatus));
}

#[test]
fn test_contract_pause_functionality() {
    let mut contract = new_contract();
    let alice = call(ALICE, 0, 1_000_000);
    let _ = contract.set_paused(&alice, true);
    assert!(contract.is_paused());
    let result = contract.submit_fusion_intent(&alice, create_default_params());
    assert_eq!(result, Err(Error::ContractPaused));
    let _ = contract.set_paused(&alice, false);
    assert!(!contract.is_paused());
    let result = contract.submit_fusion_intent(&alice, create_default_params());
    assert!(result.is_ok());
}

#[test]
fn intent_hash_is_blake2_of_canonical_encoding() {
    let params = create_default_params();
    let mut contract = new_contract();
    let order_id = contract.submit_fusion_intent(&call(ALICE, 7, 1_000_000), params).unwrap();
    let encoded = parity_scale_codec::Encode::encode(&(
        params.from_token,
        params.to_token,
        params.from_amount,
        params.min_to_amount,
        params.deadline,
        ALICE,
        7u64,
    ));
    let mut expected = [0u8; 32];
    ink::env::hash_bytes::<ink::env::hash::Blake2x256>(&encoded, &mut expected);
    let order = contract.get_order(order_id).unwrap();
    assert_eq!(order.intent_hash, expected);
    assert_eq!(order.timelock, 7 + 86_400_000);
}

#[test]
fn first_partial_fill_is_logged_once() {
    let mut contract = new_contract();
    let secret = [0x11; 32];
    let order_id = locked_with_secret(&mut contract, secret);
    let _ = contract.take_events();
    let charlie = call(CHARLIE, 0, 0);
    contract.execute_swap(&charlie, order_id, secret, 100_000).unwrap();
    contract.execute_swap(&charlie, order_id, secret, 100_000).unwrap();
    let events = contract.take_events();
    assert_eq!(events.len(), 3);
    assert!(matches!(events[0], IntentEvent::PartialFill(_)));
    assert!(matches!(events[1], IntentEvent::CrossChainSwapCompleted(_)));
    assert!(matches!(events[2], IntentEvent::CrossChainSwapCompleted(_)));
}
