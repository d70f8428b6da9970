use fusion_swap::escrow_resolver::{
    self, may_cancel_private, may_cancel_public, may_withdraw_private, may_withdraw_public,
    EscrowImmutables, Order, ResolverEvent, TakerTraits, TimeLocks,
};
use fusion_swap::primitives::{AccountId, CallContext};
use fusion_swap::resolver_jobs::{self, EthereumEscrowProof, JobStatus, SwapDirection};
use fusion_swap::settlement::Transfer;

const OWNER: AccountId = [0x09; 32];
const MAKER: AccountId = [0x01; 32];
const TAKER: AccountId = [0x02; 32];
const RELAYER: AccountId = [0x05; 32];
const STRANGER: AccountId = [0x03; 32];

fn at(caller: AccountId, now: u64, transferred: u128) -> CallContext {
    CallContext { caller, now, transferred }
}

fn blake2(data: &[u8]) -> [u8; 32] {
    let mut out = [0u8; 32];
    ink::env::hash_bytes::<ink::env::hash::Blake2x256>(data, &mut out);
    out
}

fn ladder() -> TimeLocks {
    TimeLocks {
        src_withdrawal: 10,
        src_public_withdrawal: 20,
        src_cancellation: 30,
        src_public_cancellation: 40,
        dst_withdrawal: 5,
        dst_public_withdrawal: 15,
        dst_cancellation: 25,
    }
}

fn immutables(secret: &[u8; 32], deployed_at: Option<u64>) -> EscrowImmutables {
    EscrowImmutables {
        order_hash: [0x0a; 32],
        hash_lock: blake2(secret),
        maker: MAKER,
        taker: TAKER,
        token: [0x10; 32],
        amount: 5000,
        safety_deposit: 0,
        timelocks: ladder(),
        deployed_at,
    }
}

fn order() -> Order {
    Order {
        salt: 1,
        maker: MAKER,
        receiver: MAKER,
        maker_asset: [0x10; 32],
        taker_asset: [0x20; 20],
        making_amount: 5000,
        taking_amount: 4900,
        maker_traits: [0; 32],
    }
}

#[test]
fn timelock_ladder_windows() {
    let im = immutables(&[1; 32], Some(100));
    assert_eq!(may_withdraw_private(&im, 109, &TAKER), Ok(false));
    assert_eq!(may_withdraw_private(&im, 110, &TAKER), Ok(true));
    assert_eq!(may_withdraw_private(&im, 110, &STRANGER), Ok(false));
    assert_eq!(may_withdraw_private(&im, 130, &TAKER), Ok(false));
    assert_eq!(may_withdraw_public(&im, 119), Ok(false));
    assert_eq!(may_withdraw_public(&im, 120), Ok(true));
    assert_eq!(may_withdraw_public(&im, 130), Ok(false));
    assert_eq!(may_cancel_private(&im, 129, &MAKER), Ok(false));
    assert_eq!(may_cancel_private(&im, 130, &MAKER), Ok(true));
    assert_eq!(may_cancel_private(&im, 130, &TAKER), Ok(true));
    assert_eq!(may_cancel_private(&im, 130, &STRANGER), Ok(false));
    assert_eq!(may_cancel_public(&im, 139), Ok(false));
    assert_eq!(may_cancel_public(&im, 140), Ok(true));
    let late = immutables(&[1; 32], Some(u64::MAX - 15));
    assert_eq!(may_cancel_public(&late, u64::MAX), Err(escrow_resolver::Error::ArithmeticOverflow));
}

#[test]
fn escrow_deployment_withdrawal_and_cancellation() {
    let secret = [7u8; 32];
    let mut r = escrow_resolver::PolkadotResolver::new(OWNER, [0xfa; 32], [0xee; 20], 100);
    let im = immutables(&secret, None);
    assert_eq!(
        r.deploy_src(&at(STRANGER, 50, 100), im, order(), [0; 65], 0, TakerTraits { traits: [0; 32] }, vec![]),
        Err(escrow_resolver::Error::OnlyOwner)
    );
    assert_eq!(
        r.deploy_src(&at(OWNER, 50, 99), im, order(), [0; 65], 0, TakerTraits { traits: [0; 32] }, vec![]),
        Err(escrow_resolver::Error::InsufficientFunds)
    );
    let address = r
        .deploy_src(&at(OWNER, 50, 100), im, order(), [0; 65], 0, TakerTraits { traits: [0; 32] }, vec![])
        .unwrap();
    let encoded = parity_scale_codec::Encode::encode(&(im.order_hash, im.hash_lock, MAKER, TAKER, 5000u128, 50u64));
    assert_eq!(address, blake2(&encoded));
    assert_eq!(r.take_transfers(), vec![Transfer { to: address, amount: 100 }]);
    assert_eq!(r.get_total_escrows_created(), 1);
    let stored = r.get_escrow_immutables(im.order_hash).unwrap();
    assert_eq!(stored.deployed_at, Some(50));
    assert_eq!(stored.safety_deposit, 100);

    assert_eq!(
        r.withdraw(&at(TAKER, 59, 0), im.order_hash, secret, stored),
        Err(escrow_resolver::Error::TimelockNotExpired)
    );
    assert_eq!(
        r.withdraw(&at(TAKER, 60, 0), im.order_hash, [0; 32], stored),
        Err(escrow_resolver::Error::InvalidSecret)
    );
    assert_eq!(
        r.withdraw(&at(TAKER, 60, 0), [0x0b; 32], secret, stored),
        Err(escrow_resolver::Error::EscrowNotFound)
    );
    assert_eq!(r.withdraw(&at(TAKER, 60, 0), im.order_hash, secret, stored), Ok(()));
    assert_eq!(
        r.cancel(&at(TAKER, 79, 0), im.order_hash, stored),
        Err(escrow_resolver::Error::TimelockNotExpired)
    );
    assert_eq!(r.cancel(&at(TAKER, 80, 0), im.order_hash, stored), Ok(()));
    match r.take_events().last() {
        Some(ResolverEvent::EscrowCancellation(c)) => assert_eq!(c.refund_amount, 5000),
        other => panic!("unexpected event {:?}", other),
    }
}

#[test]
fn owner_calls_are_logged_with_argument_digests() {
    let mut r = escrow_resolver::PolkadotResolver::new(OWNER, [0xfa; 32], [0xee; 20], 100);
    assert_eq!(
        r.arbitrary_calls(&at(OWNER, 0, 0), vec![TAKER], vec![]),
        Err(escrow_resolver::Error::LengthMismatch)
    );
    r.arbitrary_calls(&at(OWNER, 0, 0), vec![TAKER, MAKER], vec![vec![1, 2, 3], vec![]]).unwrap();
    let events = r.take_events();
    assert_eq!(events.len(), 2);
    match events[0] {
        ResolverEvent::ArbitraryCallExecuted(c) => {
            assert_eq!(c.target, TAKER);
            assert!(c.success);
            assert_eq!(c.data_hash, blake2(&[1, 2, 3]));
        },
        other => panic!("unexpected event {:?}", other),
    }
    r.add_trusted_relayer(&at(OWNER, 0, 0), RELAYER).unwrap();
    assert!(r.is_trusted_relayer(RELAYER));
    r.remove_trusted_relayer(&at(OWNER, 0, 0), RELAYER).unwrap();
    assert!(!r.is_trusted_relayer(RELAYER));
    r.transfer_ownership(&at(OWNER, 0, 0), MAKER).unwrap();
    assert_eq!(r.get_owner(), MAKER);
    assert_eq!(r.get_ethereum_resolver(), [0xee; 20]);
    assert_eq!(r.verify_ethereum_message([0; 32], TAKER, [0; 32], [0; 20]), Ok(true));
}

fn good_proof() -> EthereumEscrowProof {
    EthereumEscrowProof {
        escrow_address: [0x33; 20],
        block_hash: [0x44; 32],
        block_number: 12,
        tx_hash: [0x55; 32],
        merkle_proof: vec![[0x66; 32]],
    }
}

#[test]
fn resolver_job_lifecycle() {
    let secret = [8u8; 32];
    let mut r = resolver_jobs::PolkadotResolver::new(OWNER, [0xfa; 32], 100, 600, 12);
    r.add_trusted_relayer(&at(OWNER, 0, 0), RELAYER).unwrap();
    assert_eq!(
        r.create_job(&at(TAKER, 10, 99), [1; 32], [2; 32], SwapDirection::PolkadotToEthereum, blake2(&secret), 1000),
        Err(resolver_jobs::Error::InsufficientStake)
    );
    let id = r
        .create_job(&at(TAKER, 10, 100), [1; 32], [2; 32], SwapDirection::PolkadotToEthereum, blake2(&secret), 1000)
        .unwrap();
    let encoded = parity_scale_codec::Encode::encode(&([1u8; 32], [2u8; 32], TAKER, 10u64, 0u64));
    assert_eq!(id, blake2(&encoded));

    let mut bad = good_proof();
    bad.block_number = 0;
    assert_eq!(r.submit_ethereum_proof(&at(STRANGER, 11, 0), id, good_proof()), Err(resolver_jobs::Error::RelayerNotTrusted));
    assert_eq!(r.submit_ethereum_proof(&at(RELAYER, 11, 0), id, bad), Err(resolver_jobs::Error::InvalidProof));
    let mut zero_address = good_proof();
    zero_address.escrow_address = [0; 20];
    assert_eq!(r.submit_ethereum_proof(&at(RELAYER, 11, 0), id, zero_address), Err(resolver_jobs::Error::InvalidProof));
    r.submit_ethereum_proof(&at(RELAYER, 11, 0), id, good_proof()).unwrap();
    assert_eq!(r.get_job(id).unwrap().status, JobStatus::EthereumDeployed);
    assert_eq!(r.get_job(id).unwrap().ethereum_escrow_proof, Some(good_proof()));

    assert_eq!(r.deploy_polkadot_escrow(&at(STRANGER, 12, 0), id), Err(resolver_jobs::Error::OnlyResolver));
    r.deploy_polkadot_escrow(&at(TAKER, 12, 0), id).unwrap();
    assert_eq!(r.execute_swap(&at(TAKER, 13, 0), id, [0; 32]), Err(resolver_jobs::Error::InvalidSecret));
    r.execute_swap(&at(TAKER, 13, 0), id, secret).unwrap();
    assert_eq!(r.get_job(id).unwrap().secret, Some(secret));
    r.complete_job(&at(RELAYER, 14, 0), id, true).unwrap();
    assert_eq!(r.get_job(id).unwrap().status, JobStatus::Completed);
    assert_eq!(r.take_transfers(), vec![Transfer { to: TAKER, amount: 100 }]);
    assert_eq!(r.cancel_job(&at(TAKER, 15, 0), id), Err(resolver_jobs::Error::InvalidJobStatus));
    assert_eq!(r.take_events().len(), 4);
}

#[test]
fn resolver_job_cancellation_keeps_stake_when_resolver_quits_early() {
    let mut r = resolver_jobs::PolkadotResolver::new(OWNER, [0xfa; 32], 100, 600, 12);
    let a = r.create_job(&at(TAKER, 10, 100), [1; 32], [2; 32], SwapDirection::EthereumToPolkadot, [3; 32], 1000).unwrap();
    let b = r.create_job(&at(TAKER, 10, 150), [1; 32], [2; 32], SwapDirection::EthereumToPolkadot, [3; 32], 1000).unwrap();
    assert_ne!(a, b);
    assert_eq!(r.cancel_job(&at(STRANGER, 500, 0), a), Err(resolver_jobs::Error::Unauthorized));
    r.cancel_job(&at(TAKER, 500, 0), a).unwrap();
    assert_eq!(r.take_transfers(), vec![]);
    r.cancel_job(&at(STRANGER, 1001, 0), b).unwrap();
    assert_eq!(r.take_transfers(), vec![Transfer { to: TAKER, amount: 150 }]);
    assert_eq!(r.get_job(b).unwrap().status, JobStatus::Cancelled);
    assert_eq!(r.complete_job(&at(OWNER, 1, 0), b, false), Err(resolver_jobs::Error::RelayerNotTrusted));
    assert!(r.get_job([0x99; 32]).is_none());
}
