use fusion_swap::fusion_escrow::{
    CancelReason, CreateOrderParams, Error, EscrowEvent, EscrowImmutables, FusionPolkadotEscrow,
    OrderStatus, ResolverParams, SwapDirection, TimeLocks,
};
use fusion_swap::primitives::{hash_secret, AccountId, CallContext, Hash32};
use fusion_swap::settlement::{split_amount, Transfer};

const OWNER: AccountId = [0x09; 32];
const MAKER: AccountId = [0x01; 32];
const RESOLVER: AccountId = [0x02; 32];
const STRANGER: AccountId = [0x03; 32];
const T: u64 = 1_700_000_000_000;
const HOUR: u64 = 3_600_000;

fn at(caller: AccountId, now: u64, transferred: u128) -> CallContext {
    CallContext { caller, now, transferred }
}

fn blake2(data: &[u8]) -> [u8; 32] {
    let mut out = [0u8; 32];
    ink::env::hash_bytes::<ink::env::hash::Blake2x256>(data, &mut out);
    out
}

fn engine() -> FusionPolkadotEscrow {
    FusionPolkadotEscrow::new(OWNER, 100, 1000, 1, [0xee; 20])
}

fn params(src_amount: u128, direction: SwapDirection) -> CreateOrderParams {
    CreateOrderParams {
        direction,
        src_token: [0x10; 32],
        dst_token: [0x20; 20],
        src_amount,
        min_dst_amount: src_amount,
        fill_deadline: T + HOUR,
        ethereum_recipient: [0x30; 20],
        max_resolver_fee: 10,
    }
}

fn lock_params(hash_lock: Hash32) -> ResolverParams {
    ResolverParams {
        resolver: RESOLVER,
        hash_lock,
        ethereum_escrow_address: [0x44; 20],
        resolver_fee: 10,
    }
}

fn create(e: &mut FusionPolkadotEscrow, src_amount: u128, direction: SwapDirection) -> Hash32 {
    e.create_order(&at(MAKER, T, src_amount), params(src_amount, direction)).unwrap()
}

fn create_and_lock(e: &mut FusionPolkadotEscrow, src_amount: u128, secret: [u8; 32]) -> Hash32 {
    let h = create(e, src_amount, SwapDirection::PolkadotToEthereum);
    e.deploy_escrow(&at(RESOLVER, T + 1, 1000), h, lock_params(blake2(&secret))).unwrap();
    h
}

fn total(transfers: &[Transfer]) -> u128 {
    transfers.iter().map(|t| t.amount).sum()
}

#[test]
fn happy_path_a_to_b() {
    let mut e = engine();
    let secret = [1u8; 32];
    let h = create_and_lock(&mut e, 1000, secret);
    let _ = e.take_transfers();
    e.execute_swap(&at(MAKER, T + 2, 0), h, secret).unwrap();
    let split = split_amount(1000, 100, 10).unwrap();
    assert_eq!(split.protocol_fee, 10);
    assert_eq!(split.resolver_fee, 10);
    let order = e.get_order(h).unwrap();
    assert_eq!(order.status, OrderStatus::Executed);
    assert_eq!(order.filled_amount, 1000);
    assert_eq!(order.hash_lock_info.secret, Some(secret));
    assert_eq!(e.get_total_volume(), 1000);
    let transfers = e.take_transfers();
    assert_eq!(
        transfers,
        vec![
            Transfer { to: RESOLVER, amount: 990 },
            Transfer { to: OWNER, amount: 10 },
            Transfer { to: RESOLVER, amount: 1000 },
        ]
    );
}

#[test]
fn insufficient_deposit_leaves_order_pending() {
    let mut e = engine();
    let h = create(&mut e, 1000, SwapDirection::PolkadotToEthereum);
    let r = e.deploy_escrow(&at(RESOLVER, T + 1, 500), h, lock_params(blake2(&[1u8; 32])));
    assert_eq!(r, Err(Error::InsufficientDeposit));
    assert_eq!(e.get_order(h).unwrap().status, OrderStatus::Pending);
}

#[test]
fn wrong_secret_is_refused() {
    let mut e = engine();
    let h = create_and_lock(&mut e, 1000, [1u8; 32]);
    let r = e.execute_swap(&at(MAKER, T + 2, 0), h, [2u8; 32]);
    assert_eq!(r, Err(Error::InvalidSecret));
    assert_eq!(e.get_order(h).unwrap().status, OrderStatus::Locked);
}

#[test]
fn deadline_elapsed_refund() {
    let mut e = engine();
    let h = create_and_lock(&mut e, 1000, [1u8; 32]);
    let _ = e.take_transfers();
    e.cancel_order(&at(STRANGER, T + HOUR + 1, 0), h).unwrap();
    assert_eq!(e.get_order(h).unwrap().status, OrderStatus::Cancelled);
    assert_eq!(
        e.take_transfers(),
        vec![Transfer { to: MAKER, amount: 1000 }, Transfer { to: RESOLVER, amount: 1000 }]
    );
    assert_eq!(e.get_order_by_hash_lock(blake2(&[1u8; 32])), None);
    let events = e.take_events();
    match events.last() {
        Some(EscrowEvent::OrderCancelled(c)) => {
            assert_eq!(c.reason, CancelReason::TimelockExpired);
            assert_eq!(c.refund_amount, 1000);
        },
        other => panic!("unexpected event {:?}", other),
    }
}

#[test]
fn partial_fills() {
    let mut e = engine();
    let secret = [1u8; 32];
    let h = e.create_order(&at(MAKER, T, 1_000_000), params(1_000_000, SwapDirection::PolkadotToEthereum)).unwrap();
    e.deploy_escrow(&at(RESOLVER, T + 1, 1000), h, lock_params(blake2(&secret))).unwrap();
    let resolver = at(RESOLVER, T + 2, 0);
    e.execute_partial_fill(&resolver, h, 300_000, secret).unwrap();
    let o = e.get_order(h).unwrap();
    assert_eq!((o.status, o.filled_amount), (OrderStatus::PartialFill, 300_000));
    e.execute_partial_fill(&resolver, h, 200_000, secret).unwrap();
    let o = e.get_order(h).unwrap();
    assert_eq!((o.status, o.filled_amount), (OrderStatus::PartialFill, 500_000));
    assert_eq!(e.get_order_by_hash_lock(blake2(&secret)), Some(h));
    e.execute_partial_fill(&resolver, h, 500_000, secret).unwrap();
    let o = e.get_order(h).unwrap();
    assert_eq!((o.status, o.filled_amount), (OrderStatus::Executed, 1_000_000));
    assert_eq!(e.get_order_by_hash_lock(blake2(&secret)), None);
    assert_eq!(e.get_total_volume(), 1_000_000);
}

#[test]
fn hash_lock_collision() {
    let mut e = engine();
    let o1 = create(&mut e, 1000, SwapDirection::PolkadotToEthereum);
    let o2 = create(&mut e, 1000, SwapDirection::PolkadotToEthereum);
    assert_ne!(o1, o2);
    let hl = blake2(&[7u8; 32]);
    e.deploy_escrow(&at(RESOLVER, T + 1, 1000), o1, lock_params(hl)).unwrap();
    let r = e.deploy_escrow(&at(RESOLVER, T + 1, 1000), o2, lock_params(hl));
    assert_eq!(r, Err(Error::HashLockAlreadyUsed));
    assert_eq!(e.get_order(o2).unwrap().status, OrderStatus::Pending);
}

#[test]
fn create_then_cancel_returns_everything_to_the_maker() {
    let mut e = engine();
    let h = e.create_order(&at(MAKER, T, 1500), params(1000, SwapDirection::EthereumToPolkadot)).unwrap();
    e.cancel_order(&at(MAKER, T + 10, 0), h).unwrap();
    let transfers = e.take_transfers();
    assert!(transfers.iter().all(|t| t.to == MAKER));
    assert_eq!(total(&transfers), 1500);
}

#[test]
fn create_lock_execute_accounts_for_the_whole_amount() {
    let mut e = engine();
    let secret = [5u8; 32];
    let h = create(&mut e, 1000, SwapDirection::EthereumToPolkadot);
    e.deploy_escrow(&at(RESOLVER, T + 1, 1000), h, lock_params(blake2(&secret))).unwrap();
    e.execute_swap(&at(RESOLVER, T + 2, 0), h, secret).unwrap();
    let transfers = e.take_transfers();
    assert_eq!(
        transfers,
        vec![
            Transfer { to: MAKER, amount: 980 },
            Transfer { to: RESOLVER, amount: 10 },
            Transfer { to: OWNER, amount: 10 },
            Transfer { to: RESOLVER, amount: 1000 },
        ]
    );
    let split = split_amount(1000, 100, 10).unwrap();
    assert_eq!(split.protocol_fee + split.resolver_fee + split.net, 1000);
    assert_eq!(total(&transfers[..3]), 1000);
}

#[test]
fn value_is_conserved_across_a_session() {
    let mut e = engine();
    let secret = [3u8; 32];
    let a = e.create_order(&at(MAKER, T, 2000), params(2000, SwapDirection::PolkadotToEthereum)).unwrap();
    let b = e.create_order(&at(MAKER, T, 700), params(500, SwapDirection::EthereumToPolkadot)).unwrap();
    e.deploy_escrow(&at(RESOLVER, T + 1, 1200), a, lock_params(blake2(&secret))).unwrap();
    e.execute_partial_fill(&at(RESOLVER, T + 2, 0), a, 600, secret).unwrap();
    let received: u128 = 2000 + 700 + 1200;
    let held_a = 2000 - 600 + 1200;
    let held_b = 500;
    assert_eq!(total(&e.take_transfers()) + held_a + held_b, received);
    e.cancel_order(&at(MAKER, T + 3, 0), b).unwrap();
    e.execute_swap(&at(RESOLVER, T + 4, 0), a, secret).unwrap();
    assert_eq!(total(&e.take_transfers()), held_a + held_b);
}

#[test]
fn execute_needs_a_live_order_before_its_deadline() {
    let mut e = engine();
    let secret = [1u8; 32];
    let pending = create(&mut e, 1000, SwapDirection::PolkadotToEthereum);
    assert_eq!(e.execute_swap(&at(MAKER, T, 0), pending, secret), Err(Error::InvalidOrderStatus));
    let h = create_and_lock(&mut e, 1000, secret);
    assert_eq!(e.execute_swap(&at(MAKER, T + HOUR + 1, 0), h, secret), Err(Error::DeadlineExpired));
    e.execute_partial_fill(&at(MAKER, T + 2, 0), h, 100, secret).unwrap();
    assert_eq!(e.execute_swap(&at(MAKER, T + HOUR, 0), h, secret), Ok(()));
    assert_eq!(e.execute_swap(&at(MAKER, T + HOUR, 0), h, secret), Err(Error::InvalidOrderStatus));
    assert_eq!(e.execute_swap(&at(MAKER, T, 0), [0xab; 32], secret), Err(Error::OrderNotFound));
}

#[test]
fn cancel_rights_follow_the_deadline() {
    let mut e = engine();
    let h = create_and_lock(&mut e, 1000, [1u8; 32]);
    assert_eq!(e.cancel_order(&at(STRANGER, T + HOUR, 0), h), Err(Error::Unauthorized));
    assert_eq!(e.cancel_order(&at(RESOLVER, T + HOUR, 0), h), Err(Error::Unauthorized));
    assert_eq!(e.cancel_order(&at(MAKER, T + HOUR, 0), h), Ok(()));
    assert_eq!(e.cancel_order(&at(MAKER, T + HOUR, 0), h), Err(Error::InvalidOrderStatus));

    let p = create(&mut e, 1000, SwapDirection::PolkadotToEthereum);
    assert_eq!(e.cancel_order(&at(STRANGER, T + 1, 0), p), Err(Error::Unauthorized));
    assert_eq!(e.cancel_order(&at(MAKER, T + 1_800_001, 0), p), Err(Error::Unauthorized));
    assert_eq!(e.cancel_order(&at(MAKER, T + 1_800_000, 0), p), Ok(()));
}

#[test]
fn active_orders_are_indexed_by_their_hash_lock() {
    let mut e = engine();
    let h1 = create_and_lock(&mut e, 1000, [1u8; 32]);
    let h2 = create_and_lock(&mut e, 1000, [2u8; 32]);
    assert_eq!(e.get_order_by_hash_lock(blake2(&[1u8; 32])), Some(h1));
    assert_eq!(e.get_order_by_hash_lock(blake2(&[2u8; 32])), Some(h2));
    assert_eq!(e.get_order_by_hash_lock([0u8; 32]), None);
}

#[test]
fn fills_never_exceed_the_amount() {
    let mut e = engine();
    let secret = [1u8; 32];
    let h = create_and_lock(&mut e, 1000, secret);
    let resolver = at(RESOLVER, T + 2, 0);
    assert_eq!(e.execute_partial_fill(&resolver, h, 1001, secret), Err(Error::InvalidAmount));
    assert_eq!(e.execute_partial_fill(&resolver, h, 0, secret), Err(Error::InvalidAmount));
    e.execute_partial_fill(&resolver, h, 999, secret).unwrap();
    assert_eq!(e.execute_partial_fill(&resolver, h, 2, secret), Err(Error::InvalidAmount));
    assert_eq!(e.get_order(h).unwrap().filled_amount, 999);
    assert_eq!(e.execute_partial_fill(&resolver, h, 1, [9u8; 32]), Err(Error::InvalidSecret));
}

#[test]
fn order_hash_is_blake2_of_the_canonical_tuple() {
    let mut e = engine();
    let p = params(1000, SwapDirection::PolkadotToEthereum);
    let h = e.create_order(&at(MAKER, T, 1000), p).unwrap();
    let encoded = parity_scale_codec::Encode::encode(&(
        MAKER,
        p.src_token,
        p.dst_token,
        p.src_amount,
        p.min_dst_amount,
        p.fill_deadline,
        0u64,
        T,
    ));
    assert_eq!(h, blake2(&encoded));
    assert_eq!(FusionPolkadotEscrow::order_hash(&MAKER, &p, 0, T), h);
    assert_ne!(FusionPolkadotEscrow::order_hash(&MAKER, &p, 1, T), h);
    assert_eq!(e.get_order_nonce(), 1);
}

#[test]
fn secret_hash_is_blake2() {
    let secret = [1u8; 32];
    assert_eq!(hash_secret(&secret), blake2(&secret));
    assert_ne!(hash_secret(&secret), secret);
}

#[test]
fn escrow_identity_binds_the_immutables() {
    let mut e = engine();
    let hl = blake2(&[1u8; 32]);
    let h = create(&mut e, 1000, SwapDirection::PolkadotToEthereum);
    e.deploy_escrow(&at(STRANGER, T + 5, 1000), h, lock_params(hl)).unwrap();
    let encoded = parity_scale_codec::Encode::encode(&(h, hl, MAKER, RESOLVER, 1000u128, T + 5));
    assert_eq!(e.get_escrow_address(h), Some(blake2(&encoded)));
    let order = e.get_order(h).unwrap();
    assert_eq!(order.taker, Some(STRANGER));
    assert_eq!(order.resolver, Some(RESOLVER));
    assert_eq!(order.safety_deposit, 1000);
    let im = e.get_escrow_immutables(h).unwrap();
    assert_eq!(im.taker, STRANGER);
    assert_eq!(im.deployed_at, Some(T));
}

#[test]
fn admin_messages_are_for_the_owner() {
    let mut e = engine();
    assert_eq!(e.set_paused(&at(MAKER, T, 0), true), Err(Error::Unauthorized));
    assert_eq!(e.approve_resolver(&at(MAKER, T, 0), RESOLVER), Err(Error::Unauthorized));
    assert_eq!(e.add_trusted_relayer(&at(MAKER, T, 0), RESOLVER), Err(Error::Unauthorized));
    e.approve_resolver(&at(OWNER, T, 0), RESOLVER).unwrap();
    assert!(e.is_resolver_approved(RESOLVER));
    assert!(!e.is_resolver_approved(STRANGER));
    e.add_trusted_relayer(&at(OWNER, T, 0), STRANGER).unwrap();
    e.set_paused(&at(OWNER, T, 0), true).unwrap();
    assert!(e.is_paused());
    assert_eq!(
        e.create_order(&at(MAKER, T, 1000), params(1000, SwapDirection::PolkadotToEthereum)),
        Err(Error::ContractPaused)
    );
    e.transfer_ownership(&at(OWNER, T, 0), MAKER).unwrap();
    assert_eq!(e.get_owner(), MAKER);
    assert_eq!(e.set_paused(&at(OWNER, T, 0), false), Err(Error::Unauthorized));
    assert_eq!(e.get_ethereum_resolver(), [0xee; 20]);
}

#[test]
fn create_order_validation() {
    let mut e = engine();
    let mut p = params(1000, SwapDirection::PolkadotToEthereum);
    assert_eq!(e.create_order(&at(MAKER, T, 999), p), Err(Error::InsufficientFunds));
    p.fill_deadline = T;
    assert_eq!(e.create_order(&at(MAKER, T, 1000), p), Err(Error::DeadlineExpired));
    p.fill_deadline = u64::MAX;
    assert_eq!(e.create_order(&at(MAKER, u64::MAX - 5, 1000), p), Err(Error::ArithmeticOverflow));
    assert_eq!(e.get_order_nonce(), 0);
    let h = e.create_order(&at(MAKER, T, 1000), params(1000, SwapDirection::PolkadotToEthereum)).unwrap();
    let o = e.get_order(h).unwrap();
    assert_eq!(o.time_locks, TimeLocks { fill_deadline: T + HOUR, private_cancellation: T + 1_800_000 });
    assert_eq!(o.status, OrderStatus::Pending);
    assert_eq!(e.take_transfers(), vec![]);
}

#[test]
fn protocol_fee_is_checked() {
    let e = engine();
    assert_eq!(e.calculate_protocol_fee(1000), Ok(10));
    assert_eq!(e.calculate_protocol_fee(12_345), Ok(123));
    assert_eq!(e.calculate_protocol_fee(u128::MAX), Err(Error::ArithmeticOverflow));
}

#[test]
fn resolver_interface_flow() {
    let mut e = engine();
    let secret = [4u8; 32];
    let hl = blake2(&secret);
    let h = create(&mut e, 1000, SwapDirection::EthereumToPolkadot);
    let im = EscrowImmutables {
        order_hash: h,
        hash_lock: hl,
        maker: MAKER,
        taker: RESOLVER,
        token: [0x10; 32],
        amount: 1000,
        safety_deposit: 0,
        timelocks: TimeLocks { fill_deadline: T + HOUR, private_cancellation: T },
        deployed_at: None,
    };
    assert_eq!(e.withdraw(&at(RESOLVER, T, 0), h, secret, im), Err(Error::EscrowNotFound));
    assert_eq!(
        e.deploy_src(&at(RESOLVER, T + 1, 10), im, h, [0u8; 65], 0, vec![]),
        Err(Error::InsufficientDeposit)
    );
    let address = e.deploy_src(&at(RESOLVER, T + 1, 1000), im, h, [0u8; 65], 0, vec![]).unwrap();
    let encoded = parity_scale_codec::Encode::encode(&(h, hl, MAKER, RESOLVER, 1000u128, T + 1));
    assert_eq!(address, blake2(&encoded));
    assert_eq!(e.get_total_escrows_created(), 1);
    assert_eq!(e.get_order(h).unwrap().status, OrderStatus::Locked);
    assert_eq!(e.withdraw(&at(RESOLVER, T + 2, 0), h, [0u8; 32], im), Err(Error::InvalidSecret));
    assert_eq!(e.withdraw(&at(RESOLVER, T + HOUR + 1, 0), h, secret, im), Err(Error::DeadlineExpired));
    e.withdraw(&at(RESOLVER, T + 2, 0), h, secret, im).unwrap();
    assert_eq!(e.get_order(h).unwrap().status, OrderStatus::Executed);
    let events = e.take_events();
    assert!(matches!(events[events.len() - 2], EscrowEvent::SwapExecuted(_)));
    assert!(matches!(events[events.len() - 1], EscrowEvent::EscrowWithdrawal(_)));
}

#[test]
fn counterparty_escrow_must_be_known_before_execution() {
    let mut e = engine();
    let secret = [6u8; 32];
    let hl = blake2(&secret);
    let h = create(&mut e, 1000, SwapDirection::PolkadotToEthereum);
    let im = EscrowImmutables {
        order_hash: h,
        hash_lock: hl,
        maker: MAKER,
        taker: RESOLVER,
        token: [0x10; 32],
        amount: 1000,
        safety_deposit: 0,
        timelocks: TimeLocks { fill_deadline: T + HOUR, private_cancellation: T },
        deployed_at: None,
    };
    e.deploy_src(&at(RESOLVER, T + 1, 1000), im, h, [0u8; 65], 0, vec![]).unwrap();
    assert_eq!(e.execute_swap(&at(RESOLVER, T + 2, 0), h, secret), Err(Error::EthereumEscrowNotSet));
    let dst = e.deploy_dst(&at(RESOLVER, T + 2, 5), im, T + 100).unwrap();
    assert_eq!(e.get_escrow_address(h), Some(dst));
    assert!(e.get_order(h).unwrap().ethereum_escrow.is_some());
    assert_eq!(e.take_transfers().last(), Some(&Transfer { to: RESOLVER, amount: 5 }));
    e.execute_swap(&at(RESOLVER, T + 3, 0), h, secret).unwrap();
}

#[test]
fn resolver_interface_cancellation_waits_for_its_window() {
    let mut e = engine();
    let h = create_and_lock(&mut e, 1000, [1u8; 32]);
    let im = e.get_escrow_immutables(h).unwrap();
    assert_eq!(e.cancel(&at(STRANGER, T + 10, 0), h, im), Err(Error::TimelockNotExpired));
    let _ = e.take_transfers();
    e.cancel(&at(STRANGER, T + 1_800_001, 0), h, im).unwrap();
    assert_eq!(e.get_order(h).unwrap().status, OrderStatus::Cancelled);
    assert_eq!(total(&e.take_transfers()), 2000);
    assert_eq!(e.cancel(&at(STRANGER, T + 1_800_002, 0), h, im), Err(Error::InvalidOrderStatus));
    assert_eq!(e.cancel(&at(STRANGER, T, 0), [0x77; 32], im), Err(Error::EscrowNotFound));
}

#[test]
fn arbitrary_calls_check_owner_and_lengths() {
    let mut e = engine();
    assert_eq!(e.arbitrary_calls(&at(MAKER, T, 0), vec![RESOLVER], vec![vec![1]]), Err(Error::Unauthorized));
    assert_eq!(e.arbitrary_calls(&at(OWNER, T, 0), vec![RESOLVER], vec![]), Err(Error::LengthMismatch));
    assert_eq!(e.arbitrary_calls(&at(OWNER, T, 0), vec![RESOLVER], vec![vec![1, 2]]), Ok(()));
}
