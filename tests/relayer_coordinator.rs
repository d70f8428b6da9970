use fusion_swap::primitives::{AccountId, CallContext};
use fusion_swap::relayer_coordinator::{
    AssignmentRequest, AssignmentStrategy, Error, RegistryEvent, RelayerCoordinator,
};

const ALICE: AccountId = [0x01; 32];
const BOB: AccountId = [0x02; 32];
const CHARLIE: AccountId = [0x03; 32];

fn call(caller: AccountId, transferred: u128) -> CallContext {
    CallContext { caller, now: 0, transferred }
}

#[test]
fn test_new_coordinator() {
    let coordinator = RelayerCoordinator::new(ALICE, 1000, 10);
    assert_eq!(coordinator.min_stake(), 1000);
    assert_eq!(coordinator.max_relayers(), 10);
    assert_eq!(coordinator.get_active_relayer_count(), 0);
    assert!(!coordinator.is_paused());
}

#[test]
fn test_register_relayer_success() {
    let mut coordinator = RelayerCoordinator::new(ALICE, 1000, 10);
    let result = coordinator.register_relayer(&call(ALICE, 1000));
    assert!(result.is_ok());
    assert_eq!(coordinator.get_active_relayer_count(), 1);
    assert!(coordinator.is_relayer(ALICE));
    let relayer_info = coordinator.get_relayer_info(ALICE).unwrap();
    assert_eq!(relayer_info.stake, 1000);
    assert!(relayer_info.is_active);
    assert_eq!(relayer_info.reputation_score, 500);
}

#[test]
fn test_register_relayer_insufficient_stake() {
    let mut coordinator = RelayerCoordinator::new(ALICE, 1000, 10);
    let result = coordinator.register_relayer(&call(ALICE, 500));
    assert_eq!(result, Err(Error::InsufficientStake));
}

#[test]
fn test_deactivate_relayer() {
    let mut coordinator = RelayerCoordinator::new(ALICE, 1000, 10);
    let _ = coordinator.register_relayer(&call(ALICE, 1000));
    let result = coordinator.deactivate_relayer(&call(ALICE, 0));
    assert!(result.is_ok());
    assert!(!coordinator.is_relayer(ALICE));
    assert_eq!(coordinator.get_active_relayer_count(), 0);
}

#[test]
fn test_set_intent_escrow_unauthorized() {
    let mut coordinator = RelayerCoordinator::new(ALICE, 1000, 10);
    let result = coordinator.set_intent_escrow(&call(BOB, 0), CHARLIE);
    assert_eq!(result, Err(Error::Unauthorized));
}

#[test]
fn test_increase_stake() {
    let mut coordinator = RelayerCoordinator::new(ALICE, 1000, 10);
    let _ = coordinator.register_relayer(&call(ALICE, 1000));
    let _ = coordinator.register_relayer(&call(ALICE, 500));
    let relayer_info = coordinator.get_relayer_info(ALICE).unwrap();
    assert_eq!(relayer_info.stake, 1500);
}

#[test]
fn test_max_relayers_limit() {
    let mut coordinator = RelayerCoordinator::new(ALICE, 1000, 2);
    let _ = coordinator.register_relayer(&call(ALICE, 1000));
    let _ = coordinator.register_relayer(&call(BOB, 1000));
    let result = coordinator.register_relayer(&call(CHARLIE, 1000));
    assert_eq!(result, Err(Error::MaxRelayersReached));
}

#[test]
fn test_withdraw_stake() {
    let mut coordinator = RelayerCoordinator::new(ALICE, 1000, 10);
    let _ = coordinator.register_relayer(&call(ALICE, 1500));
    let _ = coordinator.deactivate_relayer(&call(ALICE, 0));
    let result = coordinator.withdraw_stake(&call(ALICE, 0), 500);
    assert!(result.is_ok());
    let relayer_info = coordinator.get_relayer_info(ALICE).unwrap();
    assert_eq!(relayer_info.stake, 1000);
}

#[test]
fn test_assignment_strategy() {
    let mut coordinator = RelayerCoordinator::new(ALICE, 1000, 10);
    let _ = coordinator.set_assignment_strategy(&call(ALICE, 0), AssignmentStrategy::HighestStake);
    assert_eq!(coordinator.get_assignment_strategy(), AssignmentStrategy::HighestStake);
}

#[test]
fn test_pause_functionality() {
    let mut coordinator = RelayerCoordinator::new(ALICE, 1000, 10);
    let _ = coordinator.set_paused(&call(ALICE, 0), true);
    assert!(coordinator.is_paused());
    let result = coordinator.register_relayer(&call(ALICE, 1000));
    assert_eq!(result, Err(Error::ContractPaused));
}

#[test]
fn withdrawing_all_stake_removes_the_relayer() {
    let mut coordinator = RelayerCoordinator::new(ALICE, 1000, 10);
    coordinator.register_relayer(&call(BOB, 1200)).unwrap();
    assert_eq!(coordinator.withdraw_stake(&call(BOB, 0), 100), Err(Error::RelayerNotActive));
    coordinator.deactivate_relayer(&call(BOB, 0)).unwrap();
    assert_eq!(coordinator.deactivate_relayer(&call(BOB, 0)), Err(Error::RelayerNotActive));
    assert_eq!(coordinator.withdraw_stake(&call(BOB, 0), 5000), Err(Error::InsufficientStake));
    coordinator.withdraw_stake(&call(BOB, 0), 1200).unwrap();
    assert_eq!(coordinator.get_relayer_info(BOB), None);
    assert_eq!(coordinator.get_total_stakes(), 0);
    let transfers = coordinator.take_transfers();
    assert_eq!(transfers.len(), 1);
    assert_eq!(transfers[0].to, BOB);
    assert_eq!(transfers[0].amount, 1200);
    assert_eq!(coordinator.withdraw_stake(&call(BOB, 0), 1), Err(Error::RelayerNotFound));
}

#[test]
fn reregistering_reactivates_with_added_stake() {
    let mut coordinator = RelayerCoordinator::new(ALICE, 1000, 10);
    coordinator.register_relayer(&call(BOB, 1000)).unwrap();
    coordinator.deactivate_relayer(&call(BOB, 0)).unwrap();
    coordinator.register_relayer(&call(BOB, 1000)).unwrap();
    let info = coordinator.get_relayer_info(BOB).unwrap();
    assert!(info.is_active);
    assert_eq!(info.stake, 2000);
    assert_eq!(coordinator.get_active_relayer_count(), 1);
    assert_eq!(coordinator.get_total_stakes(), 2000);
    let events = coordinator.take_events();
    assert!(matches!(events.last(), Some(RegistryEvent::RelayerReactivated(_))));
}

#[test]
fn owner_can_force_deactivation() {
    let mut coordinator = RelayerCoordinator::new(ALICE, 1000, 10);
    coordinator.register_relayer(&call(BOB, 1000)).unwrap();
    assert_eq!(coordinator.force_deactivate_relayer(&call(BOB, 0), BOB), Err(Error::Unauthorized));
    assert_eq!(coordinator.force_deactivate_relayer(&call(ALICE, 0), CHARLIE), Err(Error::RelayerNotFound));
    coordinator.force_deactivate_relayer(&call(ALICE, 0), BOB).unwrap();
    assert!(!coordinator.is_relayer(BOB));
    assert_eq!(coordinator.get_active_relayer_count(), 0);
}

#[test]
fn assignment_needs_the_intent_escrow_and_finds_no_relayer() {
    let mut coordinator = RelayerCoordinator::new(ALICE, 1000, 10);
    let request = AssignmentRequest {
        order_id: 1,
        required_stake: 1000,
        max_resolver_fee: 10,
        deadline: 100,
        priority: 5,
    };
    assert_eq!(coordinator.assign_relayer_to_order(&call(BOB, 0), request), Err(Error::Unauthorized));
    coordinator.set_intent_escrow(&call(ALICE, 0), BOB).unwrap();
    coordinator.register_relayer(&call(CHARLIE, 1000)).unwrap();
    assert_eq!(
        coordinator.assign_relayer_to_order(&call(BOB, 0), request),
        Err(Error::NoAvailableRelayers)
    );
    assert_eq!(coordinator.get_order_assignment(1), None);
    assert_eq!(coordinator.report_order_completion(&call(CHARLIE, 0), 1, true), Err(Error::Unauthorized));
    assert_eq!(coordinator.report_order_completion(&call(BOB, 0), 1, true), Ok(()));
    assert_eq!(coordinator.get_relayer_penalties(CHARLIE), 0);
    assert_eq!(coordinator.get_relayer_assignments(CHARLIE), 0);
}
