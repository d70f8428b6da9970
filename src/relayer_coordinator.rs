//! The relayer registry: relayers stake to register, build reputation from
//! reported outcomes, are deactivated after repeated failures, and withdraw
//! their stake once inactive.
use vstd::prelude::*;
use crate::keyed_store::KeyedStore;
use crate::primitives::{AccountId, Balance, CallContext, Timestamp, bytes32_eq};
use crate::settlement::Transfer;

verus! {

/// What the registry records of a relayer.
#[derive(Clone, Copy, Debug, PartialEq, Eq)]
pub struct RelayerInfo {
    pub stake: Balance,
    pub is_active: bool,
    pub registered_at: Timestamp,
    pub total_orders_resolved: u64,
    /// Between 0 and 1000.
    pub reputation_score: u32,
    pub last_activity: Timestamp,
}

/// How relayers are picked for orders.
#[derive(Clone, Copy, Debug, PartialEq, Eq)]
pub enum AssignmentStrategy {
    FirstAvailable,
    HighestStake,
    BestReputation,
    RoundRobin,
}

/// A request to assign a relayer to an order.
#[derive(Clone, Copy, Debug, PartialEq, Eq)]
pub struct AssignmentRequest {
    pub order_id: u64,
    pub required_stake: Balance,
    pub max_resolver_fee: Balance,
    pub deadline: Timestamp,
    /// Between 1 and 10.
    pub priority: u8,
}

/// Why a message was refused.
#[derive(Clone, Copy, Debug, PartialEq, Eq)]
pub enum Error {
    Unauthorized,
    InsufficientStake,
    RelayerNotFound,
    RelayerNotActive,
    MaxRelayersReached,
    ContractPaused,
    InvalidStrategy,
    NoAvailableRelayers,
    OrderAlreadyAssigned,
    InvalidReputationScore,
    PenaltyThresholdReached,
    ArithmeticOverflow,
}

/// A relayer registered.
#[derive(Clone, Copy, Debug, PartialEq, Eq)]
pub struct RelayerRegistered {
    pub relayer: AccountId,
    pub stake: Balance,
    pub timestamp: Timestamp,
}

/// A relayer withdrew all its stake and left.
#[derive(Clone, Copy, Debug, PartialEq, Eq)]
pub struct RelayerRemoved {
    pub relayer: AccountId,
    pub stake_returned: Balance,
}

/// An active relayer added stake.
#[derive(Clone, Copy, Debug, PartialEq, Eq)]
pub struct RelayerStakeIncreased {
    pub relayer: AccountId,
    pub old_stake: Balance,
    pub new_stake: Balance,
}

/// A relayer was assigned to an order.
#[derive(Clone, Copy, Debug, PartialEq, Eq)]
pub struct RelayerAssignedToOrder {
    pub order_id: u64,
    pub relayer: AccountId,
    pub assignment_strategy: AssignmentStrategy,
    pub resolver_fee: Balance,
}

/// A relayer was deactivated: 1 by itself, 2 for penalties, 3 by the owner.
#[derive(Clone, Copy, Debug, PartialEq, Eq)]
pub struct RelayerDeactivated {
    pub relayer: AccountId,
    pub reason: u8,
}

/// An inactive relayer registered again.
#[derive(Clone, Copy, Debug, PartialEq, Eq)]
pub struct RelayerReactivated {
    pub relayer: AccountId,
}

/// A relayer's reputation changed.
#[derive(Clone, Copy, Debug, PartialEq, Eq)]
pub struct ReputationUpdated {
    pub relayer: AccountId,
    pub old_score: u32,
    pub new_score: u32,
}

/// One entry of the registry's audit log.
#[derive(Clone, Copy, Debug, PartialEq, Eq)]
pub enum RegistryEvent {
    RelayerRegistered(RelayerRegistered),
    RelayerRemoved(RelayerRemoved),
    RelayerStakeIncreased(RelayerStakeIncreased),
    RelayerAssignedToOrder(RelayerAssignedToOrder),
    RelayerDeactivated(RelayerDeactivated),
    RelayerReactivated(RelayerReactivated),
    ReputationUpdated(ReputationUpdated),
}

/// The reputation a new relayer starts with.
pub const INITIAL_REPUTATION: u32 = 500;

/// The highest reputation.
pub const MAX_REPUTATION: u32 = 1000;

/// Reputation gained per successful order.
pub const REPUTATION_GAIN: u32 = 10;

/// Reputation lost per failed order.
pub const REPUTATION_LOSS: u32 = 20;

/// Failed orders after which a relayer is deactivated, unless changed.
pub const DEFAULT_PENALTY_THRESHOLD: u32 = 3;

/// The registry's state, as a mathematical value.
pub struct RegistryView {
    pub relayers: Map<AccountId, RelayerInfo>,
    pub owner: AccountId,
    pub intent_escrow: Option<AccountId>,
    pub min_stake: Balance,
    pub max_relayers: u32,
    pub assignment_strategy: AssignmentStrategy,
    pub round_robin_index: u32,
    pub active_relayer_count: u32,
    pub total_stakes: Balance,
    pub paused: bool,
    pub relayer_assignments: Map<AccountId, u64>,
    pub order_assignments: Map<u64, AccountId>,
    pub penalty_threshold: u32,
    pub relayer_penalties: Map<AccountId, u32>,
    pub transfers: Seq<Transfer>,
    pub events: Seq<RegistryEvent>,
}

/// The relayer registry.
pub struct RelayerCoordinator {
    relayers: KeyedStore<AccountId, RelayerInfo>,
    owner: AccountId,
    intent_escrow: Option<AccountId>,
    min_stake: Balance,
    max_relayers: u32,
    assignment_strategy: AssignmentStrategy,
    round_robin_index: u32,
    active_relayer_count: u32,
    total_stakes: Balance,
    paused: bool,
    relayer_assignments: KeyedStore<AccountId, u64>,
    order_assignments: KeyedStore<u64, AccountId>,
    penalty_threshold: u32,
    relayer_penalties: KeyedStore<AccountId, u32>,
    transfers: Vec<Transfer>,
    events: Vec<RegistryEvent>,
}

impl View for RelayerCoordinator {
    type V = RegistryView;

    closed spec fn view(&self) -> RegistryView {
        RegistryView {
            relayers: self.relayers@,
            owner: self.owner,
            intent_escrow: self.intent_escrow,
            min_stake: self.min_stake,
            max_relayers: self.max_relayers,
            assignment_strategy: self.assignment_strategy,
            round_robin_index: self.round_robin_index,
            active_relayer_count: self.active_relayer_count,
            total_stakes: self.total_stakes,
            paused: self.paused,
            relayer_assignments: self.relayer_assignments@,
            order_assignments: self.order_assignments@,
            penalty_threshold: self.penalty_threshold,
            relayer_penalties: self.relayer_penalties@,
            transfers: self.transfers@,
            events: self.events@,
        }
    }
}

/// Every relayer's reputation is at most 1000.
pub open spec fn reputations_bounded(v: RegistryView) -> bool {
    forall|who: AccountId| #[trigger]
        v.relayers.contains_key(who) ==> v.relayers[who].reputation_score <= MAX_REPUTATION
}

/// `n - 1`, or zero.
pub open spec fn dec_sat(n: u32) -> u32 {
    if n == 0 {
        0
    } else {
        (n - 1) as u32
    }
}

/// The stake the caller already has with the registry.
pub open spec fn stake_of(v: RegistryView, who: AccountId) -> int {
    if v.relayers.contains_key(who) {
        v.relayers[who].stake as int
    } else {
        0
    }
}

/// Why `register_relayer` refuses, if it does. The minimum stake applies to
/// what the relayer holds after the deposit.
pub open spec fn register_error(v: RegistryView, ctx: CallContext) -> Option<Error> {
    let existing = v.relayers.contains_key(ctx.caller);
    let info = v.relayers[ctx.caller];
    if v.paused {
        Some(Error::ContractPaused)
    } else if stake_of(v, ctx.caller) + ctx.transferred > u128::MAX {
        Some(Error::ArithmeticOverflow)
    } else if stake_of(v, ctx.caller) + ctx.transferred < v.min_stake {
        Some(Error::InsufficientStake)
    } else if v.active_relayer_count >= v.max_relayers {
        Some(Error::MaxRelayersReached)
    } else if !(existing && info.is_active) && v.active_relayer_count == u32::MAX {
        Some(Error::ArithmeticOverflow)
    } else if v.total_stakes + ctx.transferred > u128::MAX {
        Some(Error::ArithmeticOverflow)
    } else {
        None
    }
}

/// The state after a successful `register_relayer`: a new relayer is
/// recorded, an inactive one comes back with more stake, an active one just
/// adds stake.
pub open spec fn after_register(v: RegistryView, ctx: CallContext) -> RegistryView {
    let who = ctx.caller;
    let stake = ctx.transferred;
    let total = (v.total_stakes + stake) as u128;
    if v.relayers.contains_key(who) {
        let info = v.relayers[who];
        let new_stake = (info.stake + stake) as u128;
        if !info.is_active {
            RegistryView {
                relayers: v.relayers.insert(
                    who,
                    RelayerInfo { stake: new_stake, is_active: true, last_activity: ctx.now, ..info },
                ),
                active_relayer_count: (v.active_relayer_count + 1) as u32,
                total_stakes: total,
                events: v.events.push(
                    RegistryEvent::RelayerReactivated(RelayerReactivated { relayer: who }),
                ),
                ..v
            }
        } else {
            RegistryView {
                relayers: v.relayers.insert(who, RelayerInfo { stake: new_stake, ..info }),
                total_stakes: total,
                events: v.events.push(
                    RegistryEvent::RelayerStakeIncreased(
                        RelayerStakeIncreased { relayer: who, old_stake: info.stake, new_stake },
                    ),
                ),
                ..v
            }
        }
    } else {
        RegistryView {
            relayers: v.relayers.insert(
                who,
                RelayerInfo {
                    stake,
                    is_active: true,
                    registered_at: ctx.now,
                    total_orders_resolved: 0,
                    reputation_score: INITIAL_REPUTATION,
                    last_activity: ctx.now,
                },
            ),
            active_relayer_count: (v.active_relayer_count + 1) as u32,
            total_stakes: total,
            events: v.events.push(
                RegistryEvent::RelayerRegistered(
                    RelayerRegistered { relayer: who, stake, timestamp: ctx.now },
                ),
            ),
            ..v
        }
    }
}

/// Why `withdraw_stake` refuses, if it does.
pub open spec fn withdraw_error(v: RegistryView, ctx: CallContext, amount: Balance) -> Option<Error> {
    let info = v.relayers[ctx.caller];
    if !v.relayers.contains_key(ctx.caller) {
        Some(Error::RelayerNotFound)
    } else if info.is_active {
        Some(Error::RelayerNotActive)
    } else if amount > info.stake {
        Some(Error::InsufficientStake)
    } else if amount > v.total_stakes {
        Some(Error::ArithmeticOverflow)
    } else {
        None
    }
}

/// The state after a successful `withdraw_stake`: a relayer whose stake
/// reaches zero is removed.
pub open spec fn after_withdraw(v: RegistryView, ctx: CallContext, amount: Balance) -> RegistryView {
    let who = ctx.caller;
    let info = v.relayers[who];
    let remaining = (info.stake - amount) as u128;
    let v1 = RegistryView {
        total_stakes: (v.total_stakes - amount) as u128,
        transfers: v.transfers.push(Transfer { to: who, amount }),
        ..v
    };
    if remaining > 0 {
        RegistryView { relayers: v.relayers.insert(who, RelayerInfo { stake: remaining, ..info }), ..v1 }
    } else {
        RegistryView {
            relayers: v.relayers.remove(who),
            events: v.events.push(
                RegistryEvent::RelayerRemoved(RelayerRemoved { relayer: who, stake_returned: amount }),
            ),
            ..v1
        }
    }
}

/// The reputation after a success: ten more, at most 1000.
pub open spec fn raised(score: u32) -> u32 {
    if score + REPUTATION_GAIN > MAX_REPUTATION {
        MAX_REPUTATION
    } else {
        (score + REPUTATION_GAIN) as u32
    }
}

/// The reputation after a failure: twenty less, at least zero.
pub open spec fn lowered(score: u32) -> u32 {
    if score < REPUTATION_LOSS {
        0
    } else {
        (score - REPUTATION_LOSS) as u32
    }
}

/// The penalties `who` has.
pub open spec fn penalties_of(v: RegistryView, who: AccountId) -> u32 {
    if v.relayer_penalties.contains_key(who) {
        v.relayer_penalties[who]
    } else {
        0
    }
}

/// Why `report_order_completion` refuses, if it does.
pub open spec fn report_error(v: RegistryView, ctx: CallContext, order_id: u64, success: bool) -> Option<Error> {
    let assigned = v.order_assignments.contains_key(order_id);
    let who = v.order_assignments[order_id];
    let known = assigned && v.relayers.contains_key(who);
    let info = v.relayers[who];
    if v.intent_escrow != Some(ctx.caller) {
        Some(Error::Unauthorized)
    } else if known && success && info.total_orders_resolved == u64::MAX {
        Some(Error::ArithmeticOverflow)
    } else if known && !success && penalties_of(v, who) == u32::MAX {
        Some(Error::ArithmeticOverflow)
    } else {
        None
    }
}

/// The state after a successful `report_order_completion`: the assigned
/// relayer's reputation and penalties move with the outcome, and the
/// assignment is cleared.
pub open spec fn after_report(v: RegistryView, order_id: u64, success: bool) -> RegistryView {
    if !v.order_assignments.contains_key(order_id) {
        v
    } else {
        let who = v.order_assignments[order_id];
        let v1 = RegistryView { order_assignments: v.order_assignments.remove(order_id), ..v };
        if !v.relayers.contains_key(who) {
            v1
        } else {
            let info = v.relayers[who];
            if success {
                let new_info = RelayerInfo {
                    total_orders_resolved: (info.total_orders_resolved + 1) as u64,
                    reputation_score: raised(info.reputation_score),
                    ..info
                };
                RegistryView {
                    relayers: v.relayers.insert(who, new_info),
                    relayer_penalties: v.relayer_penalties.remove(who),
                    events: v.events.push(
                        RegistryEvent::ReputationUpdated(
                            ReputationUpdated {
                                relayer: who,
                                old_score: info.reputation_score,
                                new_score: new_info.reputation_score,
                            },
                        ),
                    ),
                    ..v1
                }
            } else {
                let penalties = (penalties_of(v, who) + 1) as u32;
                let reaches = penalties >= v.penalty_threshold;
                let new_info = RelayerInfo {
                    reputation_score: lowered(info.reputation_score),
                    is_active: if reaches {
                        false
                    } else {
                        info.is_active
                    },
                    ..info
                };
                let update = RegistryEvent::ReputationUpdated(
                    ReputationUpdated {
                        relayer: who,
                        old_score: info.reputation_score,
                        new_score: new_info.reputation_score,
                    },
                );
                RegistryView {
                    relayers: v.relayers.insert(who, new_info),
                    relayer_penalties: v.relayer_penalties.insert(who, penalties),
                    active_relayer_count: if reaches {
                        dec_sat(v.active_relayer_count)
                    } else {
                        v.active_relayer_count
                    },
                    events: if reaches {
                        v.events.push(
                            RegistryEvent::RelayerDeactivated(
                                RelayerDeactivated { relayer: who, reason: 2 },
                            ),
                        ).push(update)
                    } else {
                        v.events.push(update)
                    },
                    ..v1
                }
            }
        }
    }
}

impl RelayerCoordinator {
    /// The stores' invariants, and reputations within their scale.
    pub closed spec fn wf(&self) -> bool {
        &&& reputations_bounded(self@)
        &&& self.relayers.wf()
        &&& self.relayer_assignments.wf()
        &&& self.order_assignments.wf()
        &&& self.relayer_penalties.wf()
    }

    /// A registry owned by `owner`.
    pub fn new(owner: AccountId, min_stake: Balance, max_relayers: u32) -> (r: Self)
        ensures
            r.wf(),
            r@ == (RegistryView {
                relayers: Map::empty(),
                owner,
                intent_escrow: None,
                min_stake,
                max_relayers,
                assignment_strategy: AssignmentStrategy::FirstAvailable,
                round_robin_index: 0,
                active_relayer_count: 0,
                total_stakes: 0,
                paused: false,
                relayer_assignments: Map::empty(),
                order_assignments: Map::empty(),
                penalty_threshold: DEFAULT_PENALTY_THRESHOLD,
                relayer_penalties: Map::empty(),
                transfers: Seq::empty(),
                events: Seq::empty(),
            }),
    {
        RelayerCoordinator {
            relayers: KeyedStore::new(),
            owner,
            intent_escrow: None,
            min_stake,
            max_relayers,
            assignment_strategy: AssignmentStrategy::FirstAvailable,
            round_robin_index: 0,
            active_relayer_count: 0,
            total_stakes: 0,
            paused: false,
            relayer_assignments: KeyedStore::new(),
            order_assignments: KeyedStore::new(),
            penalty_threshold: DEFAULT_PENALTY_THRESHOLD,
            relayer_penalties: KeyedStore::new(),
            transfers: Vec::new(),
            events: Vec::new(),
        }
    }

    /// Names the intent escrow allowed to request assignments; owner only.
    pub fn set_intent_escrow(&mut self, ctx: &CallContext, escrow: AccountId) -> (r: Result<(), Error>)
        requires
            old(self).wf(),
        ensures
            final(self).wf(),
            ctx.caller == old(self)@.owner ==> r == Ok::<(), Error>(()) && final(self)@ == (
            RegistryView { intent_escrow: Some(escrow), ..old(self)@ }),
            ctx.caller != old(self)@.owner ==> r == Err::<(), Error>(Error::Unauthorized) && final(self)@
                == old(self)@,
    {
        if !bytes32_eq(&ctx.caller, &self.owner) {
            return Err(Error::Unauthorized);
        }
        self.intent_escrow = Some(escrow);
        Ok(())
    }

    /// Sets the assignment strategy; owner only.
    pub fn set_assignment_strategy(&mut self, ctx: &CallContext, strategy: AssignmentStrategy) -> (r:
        Result<(), Error>)
        requires
            old(self).wf(),
        ensures
            final(self).wf(),
            ctx.caller == old(self)@.owner ==> r == Ok::<(), Error>(()) && final(self)@ == (
            RegistryView { assignment_strategy: strategy, ..old(self)@ }),
            ctx.caller != old(self)@.owner ==> r == Err::<(), Error>(Error::Unauthorized) && final(self)@
                == old(self)@,
    {
        if !bytes32_eq(&ctx.caller, &self.owner) {
            return Err(Error::Unauthorized);
        }
        self.assignment_strategy = strategy;
        Ok(())
    }

    /// Pauses or resumes registration and assignment; owner only.
    pub fn set_paused(&mut self, ctx: &CallContext, paused: bool) -> (r: Result<(), Error>)
        requires
            old(self).wf(),
        ensures
            final(self).wf(),
            ctx.caller == old(self)@.owner ==> r == Ok::<(), Error>(()) && final(self)@ == (
            RegistryView { paused, ..old(self)@ }),
            ctx.caller != old(self)@.owner ==> r == Err::<(), Error>(Error::Unauthorized) && final(self)@
                == old(self)@,
    {
        if !bytes32_eq(&ctx.caller, &self.owner) {
            return Err(Error::Unauthorized);
        }
        self.paused = paused;
        Ok(())
    }

    /// Sets how many failures deactivate a relayer; owner only.
    pub fn set_penalty_threshold(&mut self, ctx: &CallContext, threshold: u32) -> (r: Result<(), Error>)
        requires
            old(self).wf(),
        ensures
            final(self).wf(),
            ctx.caller == old(self)@.owner ==> r == Ok::<(), Error>(()) && final(self)@ == (
            RegistryView { penalty_threshold: threshold, ..old(self)@ }),
            ctx.caller != old(self)@.owner ==> r == Err::<(), Error>(Error::Unauthorized) && final(self)@
                == old(self)@,
    {
        if !bytes32_eq(&ctx.caller, &self.owner) {
            return Err(Error::Unauthorized);
        }
        self.penalty_threshold = threshold;
        Ok(())
    }

    /// Deactivates a relayer; owner only. An inactive relayer stays as it is.
    pub fn force_deactivate_relayer(&mut self, ctx: &CallContext, relayer: AccountId) -> (r: Result<
        (),
        Error,
    >)
        requires
            old(self).wf(),
        ensures
            final(self).wf(),
            ctx.caller != old(self)@.owner ==> r == Err::<(), Error>(Error::Unauthorized) && final(self)@
                == old(self)@,
            ctx.caller == old(self)@.owner && !old(self)@.relayers.contains_key(relayer) ==> r == Err::<
                (),
                Error,
            >(Error::RelayerNotFound) && final(self)@ == old(self)@,
            ctx.caller == old(self)@.owner && old(self)@.relayers.contains_key(relayer) ==> r == Ok::<
                (),
                Error,
            >(()) && final(self)@ == (if old(self)@.relayers[relayer].is_active {
                RegistryView {
                    relayers: old(self)@.relayers.insert(
                        relayer,
                        RelayerInfo { is_active: false, ..old(self)@.relayers[relayer] },
                    ),
                    active_relayer_count: dec_sat(old(self)@.active_relayer_count),
                    events: old(self)@.events.push(
                        RegistryEvent::RelayerDeactivated(RelayerDeactivated { relayer, reason: 3 }),
                    ),
                    ..old(self)@
                }
            } else {
                old(self)@
            }),
    {
        if !bytes32_eq(&ctx.caller, &self.owner) {
            return Err(Error::Unauthorized);
        }
        let info = match self.relayers.get(&relayer) {
            Some(i) => i,
            None => return Err(Error::RelayerNotFound),
        };
        if info.is_active {
            self.relayers.insert(relayer, RelayerInfo { is_active: false, ..info });
            self.active_relayer_count = self.active_relayer_count.saturating_sub(1);
            self.events.push(RegistryEvent::RelayerDeactivated(RelayerDeactivated { relayer, reason: 3 }));
        }
        Ok(())
    }

    /// Registers the caller with the value sent as stake, or adds the value
    /// to its stake (reactivating it if it was inactive). The stake held
    /// afterwards must reach the minimum.
    pub fn register_relayer(&mut self, ctx: &CallContext) -> (r: Result<(), Error>)
        requires
            old(self).wf(),
        ensures
            final(self).wf(),
            match register_error(old(self)@, *ctx) {
                Some(e) => r == Err::<(), Error>(e) && final(self)@ == old(self)@,
                None => r == Ok::<(), Error>(()) && final(self)@ == after_register(old(self)@, *ctx),
            },
    {
        if self.paused {
            return Err(Error::ContractPaused);
        }
        let caller = ctx.caller;
        let stake = ctx.transferred;
        let current_time = ctx.now;
        let existing = self.relayers.get(&caller);
        let new_stake = match existing {
            Some(info) => match info.stake.checked_add(stake) {
                Some(s) => s,
                None => return Err(Error::ArithmeticOverflow),
            },
            None => stake,
        };
        if new_stake < self.min_stake {
            return Err(Error::InsufficientStake);
        }
        if self.active_relayer_count >= self.max_relayers {
            return Err(Error::MaxRelayersReached);
        }
        let becomes_active = match existing {
            Some(info) => !info.is_active,
            None => true,
        };
        let new_count = if becomes_active {
            match self.active_relayer_count.checked_add(1) {
                Some(c) => c,
                None => return Err(Error::ArithmeticOverflow),
            }
        } else {
            self.active_relayer_count
        };
        let new_total = match self.total_stakes.checked_add(stake) {
            Some(t) => t,
            None => return Err(Error::ArithmeticOverflow),
        };
        match existing {
            Some(info) => {
                if !info.is_active {
                    self.relayers.insert(
                        caller,
                        RelayerInfo {
                            stake: new_stake,
                            is_active: true,
                            last_activity: current_time,
                            ..info
                        },
                    );
                    self.active_relayer_count = new_count;
                    self.events.push(
                        RegistryEvent::RelayerReactivated(RelayerReactivated { relayer: caller }),
                    );
                } else {
                    self.relayers.insert(caller, RelayerInfo { stake: new_stake, ..info });
                    self.events.push(
                        RegistryEvent::RelayerStakeIncreased(
                            RelayerStakeIncreased { relayer: caller, old_stake: info.stake, new_stake },
                        ),
                    );
                }
            },
            None => {
                self.relayers.insert(
                    caller,
                    RelayerInfo {
                        stake,
                        is_active: true,
                        registered_at: current_time,
                        total_orders_resolved: 0,
                        reputation_score: INITIAL_REPUTATION,
                        last_activity: current_time,
                    },
                );
                self.active_relayer_count = new_count;
                self.events.push(
                    RegistryEvent::RelayerRegistered(
                        RelayerRegistered { relayer: caller, stake, timestamp: current_time },
                    ),
                );
            },
        }
        self.total_stakes = new_total;
        Ok(())
    }

    /// The caller deactivates itself.
    pub fn deactivate_relayer(&mut self, ctx: &CallContext) -> (r: Result<(), Error>)
        requires
            old(self).wf(),
        ensures
            final(self).wf(),
            !old(self)@.relayers.contains_key(ctx.caller) ==> r == Err::<(), Error>(Error::RelayerNotFound)
                && final(self)@ == old(self)@,
            old(self)@.relayers.contains_key(ctx.caller) && !old(self)@.relayers[ctx.caller].is_active
                ==> r == Err::<(), Error>(Error::RelayerNotActive) && final(self)@ == old(self)@,
            old(self)@.relayers.contains_key(ctx.caller) && old(self)@.relayers[ctx.caller].is_active
                ==> r == Ok::<(), Error>(()) && final(self)@ == (RegistryView {
                relayers: old(self)@.relayers.insert(
                    ctx.caller,
                    RelayerInfo { is_active: false, ..old(self)@.relayers[ctx.caller] },
                ),
                active_relayer_count: dec_sat(old(self)@.active_relayer_count),
                events: old(self)@.events.push(
                    RegistryEvent::RelayerDeactivated(
                        RelayerDeactivated { relayer: ctx.caller, reason: 1 },
                    ),
                ),
                ..old(self)@
            }),
    {
        let caller = ctx.caller;
        let info = match self.relayers.get(&caller) {
            Some(i) => i,
            None => return Err(Error::RelayerNotFound),
        };
        if !info.is_active {
            return Err(Error::RelayerNotActive);
        }
        self.relayers.insert(caller, RelayerInfo { is_active: false, ..info });
        self.active_relayer_count = self.active_relayer_count.saturating_sub(1);
        self.events.push(
            RegistryEvent::RelayerDeactivated(RelayerDeactivated { relayer: caller, reason: 1 }),
        );
        Ok(())
    }

    /// An inactive relayer takes back `amount` of its stake.
    pub fn withdraw_stake(&mut self, ctx: &CallContext, amount: Balance) -> (r: Result<(), Error>)
        requires
            old(self).wf(),
        ensures
            final(self).wf(),
            match withdraw_error(old(self)@, *ctx, amount) {
                Some(e) => r == Err::<(), Error>(e) && final(self)@ == old(self)@,
                None => r == Ok::<(), Error>(()) && final(self)@ == after_withdraw(
                    old(self)@,
                    *ctx,
                    amount,
                ),
            },
    {
        let caller = ctx.caller;
        let info = match self.relayers.get(&caller) {
            Some(i) => i,
            None => return Err(Error::RelayerNotFound),
        };
        if info.is_active {
            return Err(Error::RelayerNotActive);
        }
        if amount > info.stake {
            return Err(Error::InsufficientStake);
        }
        let new_total = match self.total_stakes.checked_sub(amount) {
            Some(t) => t,
            None => return Err(Error::ArithmeticOverflow),
        };
        let remaining_stake = info.stake - amount;
        if remaining_stake > 0 {
            self.relayers.insert(caller, RelayerInfo { stake: remaining_stake, ..info });
        } else {
            self.relayers.remove(&caller);
            self.events.push(
                RegistryEvent::RelayerRemoved(RelayerRemoved { relayer: caller, stake_returned: amount }),
            );
        }
        self.total_stakes = new_total;
        self.transfers.push(Transfer { to: caller, amount });
        Ok(())
    }

    /// Picks the first available relayer. The registry keeps no list of
    /// relayers to walk, so none is available.
    fn assign_first_available(&self, _request: &AssignmentRequest) -> (r: Result<AccountId, Error>)
        ensures
            r == Err::<AccountId, Error>(Error::NoAvailableRelayers),
    {
        Err(Error::NoAvailableRelayers)
    }

    /// Picks the relayer with the highest stake; as above, none is available.
    fn assign_highest_stake(&self, _request: &AssignmentRequest) -> (r: Result<AccountId, Error>)
        ensures
            r == Err::<AccountId, Error>(Error::NoAvailableRelayers),
    {
        Err(Error::NoAvailableRelayers)
    }

    /// Picks the relayer with the best reputation; as above, none is
    /// available.
    fn assign_best_reputation(&self, _request: &AssignmentRequest) -> (r: Result<AccountId, Error>)
        ensures
            r == Err::<AccountId, Error>(Error::NoAvailableRelayers),
    {
        Err(Error::NoAvailableRelayers)
    }

    /// Picks the next relayer in turn; as above, none is available, and a
    /// refused message leaves the turn where it was.
    fn assign_round_robin(&self, _request: &AssignmentRequest) -> (r: Result<AccountId, Error>)
        ensures
            r == (if self@.round_robin_index == u32::MAX {
                Err::<AccountId, Error>(Error::ArithmeticOverflow)
            } else {
                Err::<AccountId, Error>(Error::NoAvailableRelayers)
            }),
    {
        let _next_index = match self.round_robin_index.checked_add(1) {
            Some(n) => n,
            None => return Err(Error::ArithmeticOverflow),
        };
        Err(Error::NoAvailableRelayers)
    }

    /// Assigns a relayer to an order on the intent escrow's request.
    pub fn assign_relayer_to_order(&mut self, ctx: &CallContext, request: AssignmentRequest) -> (r: Result<
        AccountId,
        Error,
    >)
        requires
            old(self).wf(),
        ensures
            final(self).wf(),
            final(self)@ == old(self)@,
            r == (if old(self)@.paused {
                Err::<AccountId, Error>(Error::ContractPaused)
            } else if old(self)@.intent_escrow != Some(ctx.caller) {
                Err(Error::Unauthorized)
            } else if old(self)@.order_assignments.contains_key(request.order_id) {
                Err(Error::OrderAlreadyAssigned)
            } else if old(self)@.assignment_strategy is RoundRobin && old(self)@.round_robin_index
                == u32::MAX {
                Err(Error::ArithmeticOverflow)
            } else {
                Err(Error::NoAvailableRelayers)
            }),
    {
        if self.paused {
            return Err(Error::ContractPaused);
        }
        let is_escrow = match self.intent_escrow {
            Some(e) => bytes32_eq(&ctx.caller, &e),
            None => false,
        };
        if !is_escrow {
            return Err(Error::Unauthorized);
        }
        if self.order_assignments.contains(&request.order_id) {
            return Err(Error::OrderAlreadyAssigned);
        }
        let assigned_relayer = match self.assignment_strategy {
            AssignmentStrategy::FirstAvailable => self.assign_first_available(&request)?,
            AssignmentStrategy::HighestStake => self.assign_highest_stake(&request)?,
            AssignmentStrategy::BestReputation => self.assign_best_reputation(&request)?,
            AssignmentStrategy::RoundRobin => self.assign_round_robin(&request)?,
        };
        Ok(assigned_relayer)
    }

    /// The intent escrow reports how an assigned order ended: success raises
    /// the relayer's reputation and clears its penalties; failure lowers its
    /// reputation, adds a penalty and, at the threshold, deactivates it.
    pub fn report_order_completion(&mut self, ctx: &CallContext, order_id: u64, success: bool) -> (r:
        Result<(), Error>)
        requires
            old(self).wf(),
        ensures
            final(self).wf(),
            match report_error(old(self)@, *ctx, order_id, success) {
                Some(e) => r == Err::<(), Error>(e) && final(self)@ == old(self)@,
                None => r == Ok::<(), Error>(()) && final(self)@ == after_report(
                    old(self)@,
                    order_id,
                    success,
                ),
            },
    {
        let is_escrow = match self.intent_escrow {
            Some(e) => bytes32_eq(&ctx.caller, &e),
            None => false,
        };
        if !is_escrow {
            return Err(Error::Unauthorized);
        }
        let relayer = match self.order_assignments.get(&order_id) {
            Some(a) => a,
            None => return Ok(()),
        };
        let info = match self.relayers.get(&relayer) {
            Some(i) => i,
            None => {
                self.order_assignments.remove(&order_id);
                return Ok(());
            },
        };
        let old_score = info.reputation_score;
        if success {
            let resolved = match info.total_orders_resolved.checked_add(1) {
                Some(n) => n,
                None => return Err(Error::ArithmeticOverflow),
            };
            let new_score = if old_score + REPUTATION_GAIN > MAX_REPUTATION {
                MAX_REPUTATION
            } else {
                old_score + REPUTATION_GAIN
            };
            self.relayers.insert(
                relayer,
                RelayerInfo { total_orders_resolved: resolved, reputation_score: new_score, ..info },
            );
            self.events.push(
                RegistryEvent::ReputationUpdated(ReputationUpdated { relayer, old_score, new_score }),
            );
            self.relayer_penalties.remove(&relayer);
        } else {
            let previous = match self.relayer_penalties.get(&relayer) {
                Some(p) => p,
                None => 0,
            };
            let penalties = match previous.checked_add(1) {
                Some(p) => p,
                None => return Err(Error::ArithmeticOverflow),
            };
            let new_score = old_score.saturating_sub(REPUTATION_LOSS);
            let reaches = penalties >= self.penalty_threshold;
            let new_info = RelayerInfo {
                reputation_score: new_score,
                is_active: if reaches {
                    false
                } else {
                    info.is_active
                },
                ..info
            };
            self.relayers.insert(relayer, new_info);
            self.relayer_penalties.insert(relayer, penalties);
            if reaches {
                self.active_relayer_count = self.active_relayer_count.saturating_sub(1);
                self.events.push(
                    RegistryEvent::RelayerDeactivated(RelayerDeactivated { relayer, reason: 2 }),
                );
            }
            self.events.push(
                RegistryEvent::ReputationUpdated(ReputationUpdated { relayer, old_score, new_score }),
            );
        }
        self.order_assignments.remove(&order_id);
        Ok(())
    }

    /// Whether `account` is an active relayer.
    pub fn is_relayer(&self, account: AccountId) -> (r: bool)
        requires
            self.wf(),
        ensures
            r == (self@.relayers.contains_key(account) && self@.relayers[account].is_active),
    {
        match self.relayers.get(&account) {
            Some(info) => info.is_active,
            None => false,
        }
    }

    /// What the registry records of `account`.
    pub fn get_relayer_info(&self, account: AccountId) -> (r: Option<RelayerInfo>)
        requires
            self.wf(),
        ensures
            r == (if self@.relayers.contains_key(account) {
                Some(self@.relayers[account])
            } else {
                None
            }),
    {
        self.relayers.get(&account)
    }

    /// The assignment strategy.
    pub fn get_assignment_strategy(&self) -> (r: AssignmentStrategy)
        ensures
            r == self@.assignment_strategy,
    {
        self.assignment_strategy
    }

    /// How many relayers are active.
    pub fn get_active_relayer_count(&self) -> (r: u32)
        ensures
            r == self@.active_relayer_count,
    {
        self.active_relayer_count
    }

    /// The stake held across all relayers.
    pub fn get_total_stakes(&self) -> (r: Balance)
        ensures
            r == self@.total_stakes,
    {
        self.total_stakes
    }

    /// How many orders `relayer` was assigned.
    pub fn get_relayer_assignments(&self, relayer: AccountId) -> (r: u64)
        requires
            self.wf(),
        ensures
            r == (if self@.relayer_assignments.contains_key(relayer) {
                self@.relayer_assignments[relayer]
            } else {
                0
            }),
    {
        match self.relayer_assignments.get(&relayer) {
            Some(n) => n,
            None => 0,
        }
    }

    /// The relayer assigned to `order_id`.
    pub fn get_order_assignment(&self, order_id: u64) -> (r: Option<AccountId>)
        requires
            self.wf(),
        ensures
            r == (if self@.order_assignments.contains_key(order_id) {
                Some(self@.order_assignments[order_id])
            } else {
                None
            }),
    {
        self.order_assignments.get(&order_id)
    }

    /// Whether the registry is paused.
    pub fn is_paused(&self) -> (r: bool)
        ensures
            r == self@.paused,
    {
        self.paused
    }

    /// The owner.
    pub fn owner(&self) -> (r: AccountId)
        ensures
            r == self@.owner,
    {
        self.owner
    }

    /// The least stake a relayer registers with.
    pub fn min_stake(&self) -> (r: Balance)
        ensures
            r == self@.min_stake,
    {
        self.min_stake
    }

    /// The most relayers that may be active at once.
    pub fn max_relayers(&self) -> (r: u32)
        ensures
            r == self@.max_relayers,
    {
        self.max_relayers
    }

    /// The penalties `relayer` has.
    pub fn get_relayer_penalties(&self, relayer: AccountId) -> (r: u32)
        requires
            self.wf(),
        ensures
            r == penalties_of(self@, relayer),
    {
        match self.relayer_penalties.get(&relayer) {
            Some(n) => n,
            None => 0,
        }
    }

    /// Hands over the payouts decided so far, oldest first, and forgets them.
    pub fn take_transfers(&mut self) -> (r: Vec<Transfer>)
        requires
            old(self).wf(),
        ensures
            final(self).wf(),
            r@ == old(self)@.transfers,
            final(self)@ == (RegistryView { transfers: Seq::empty(), ..old(self)@ }),
    {
        let mut taken = Vec::new();
        std::mem::swap(&mut taken, &mut self.transfers);
        taken
    }

    /// Hands over the events logged so far, oldest first, and forgets them.
    pub fn take_events(&mut self) -> (r: Vec<RegistryEvent>)
        requires
            old(self).wf(),
        ensures
            final(self).wf(),
            r@ == old(self)@.events,
            final(self)@ == (RegistryView { events: Seq::empty(), ..old(self)@ }),
    {
        let mut taken = Vec::new();
        std::mem::swap(&mut taken, &mut self.events);
        taken
    }
}

} // verus!
