//! Intent escrow: makers submit swap intents funded on this ledger, a
//! resolver locks each one behind a hash lock, and the secret releases it
//! in one or more fills; after its timelock an unfinished intent is refunded.
use vstd::prelude::*;
use crate::keyed_store::KeyedStore;
use crate::primitives::{
    AccountId, Balance, CallContext, Hash32, Timestamp, append_bytes, append_u128, append_u64,
    blake2x256, blake2x256_of, bytes32_eq, hash_of_secret, hash_secret, le_u128, le_u64, zero32,
    zeros32,
};
use crate::settlement::Transfer;

verus! {

/// Where an intent stands.
#[derive(Clone, Copy, Debug, PartialEq, Eq)]
pub enum OrderStatus {
    Pending,
    Locked,
    PartiallyFilled,
    Executed,
    Refunded,
    Disputed,
}

/// A swap intent and what the escrow records of it.
#[derive(Clone, Copy, Debug, PartialEq, Eq)]
pub struct FusionOrder {
    pub maker: AccountId,
    pub from_token: AccountId,
    pub to_token: AccountId,
    pub from_amount: Balance,
    pub min_to_amount: Balance,
    pub hashlock: [u8; 32],
    pub timelock: Timestamp,
    pub intent_hash: [u8; 32],
    pub assigned_resolver: Option<AccountId>,
    pub ethereum_escrow_src: Option<[u8; 20]>,
    pub status: OrderStatus,
    pub created_at: Timestamp,
    pub resolver_fee: Balance,
    pub filled_amount: Balance,
}

/// What a maker submits.
#[derive(Clone, Copy, Debug, PartialEq, Eq)]
pub struct SubmitIntentParams {
    pub from_token: AccountId,
    pub to_token: AccountId,
    pub from_amount: Balance,
    pub min_to_amount: Balance,
    pub deadline: Timestamp,
    pub ethereum_escrow_src: Option<[u8; 20]>,
    pub max_resolver_fee: Balance,
}

/// Why a message was refused.
#[derive(Clone, Copy, Debug, PartialEq, Eq)]
pub enum Error {
    ContractPaused,
    OrderNotFound,
    InvalidOrderStatus,
    DeadlineExpired,
    Unauthorized,
    InvalidHashlock,
    InsufficientFunds,
    RelayerNotRegistered,
    InvalidSecret,
    TimelockNotExpired,
    InsufficientStake,
    OrderAlreadyExists,
    ArithmeticOverflow,
}

/// An intent was submitted.
#[derive(Clone, Copy, Debug, PartialEq, Eq)]
pub struct FusionOrderCreated {
    pub order_id: u64,
    pub maker: AccountId,
    pub intent_hash: [u8; 32],
    pub ethereum_escrow_src: Option<[u8; 20]>,
    pub from_amount: Balance,
    pub min_to_amount: Balance,
    pub timelock: Timestamp,
}

/// A resolver locked an intent.
#[derive(Clone, Copy, Debug, PartialEq, Eq)]
pub struct ResolverAssigned {
    pub order_id: u64,
    pub resolver: AccountId,
    pub hashlock: [u8; 32],
    pub resolver_fee: Balance,
}

/// A fill was executed with the secret.
#[derive(Clone, Copy, Debug, PartialEq, Eq)]
pub struct CrossChainSwapCompleted {
    pub order_id: u64,
    pub resolver: AccountId,
    pub secret: [u8; 32],
    pub final_amount: Balance,
}

/// An intent was refunded.
#[derive(Clone, Copy, Debug, PartialEq, Eq)]
pub struct OrderRefunded {
    pub order_id: u64,
    pub maker: AccountId,
    pub refunded_amount: Balance,
}

/// An intent was first filled in part.
#[derive(Clone, Copy, Debug, PartialEq, Eq)]
pub struct PartialFill {
    pub order_id: u64,
    pub filled_amount: Balance,
    pub remaining_amount: Balance,
}

/// One entry of the intent escrow's audit log.
#[derive(Clone, Copy, Debug, PartialEq, Eq)]
pub enum IntentEvent {
    FusionOrderCreated(FusionOrderCreated),
    ResolverAssigned(ResolverAssigned),
    CrossChainSwapCompleted(CrossChainSwapCompleted),
    OrderRefunded(OrderRefunded),
    PartialFill(PartialFill),
}

/// How long a locked intent may be filled: one day, in milliseconds.
pub const ONE_DAY_MS: u64 = 86_400_000;

/// The intent escrow's state, as a mathematical value.
pub struct IntentView {
    pub orders: Map<u64, FusionOrder>,
    pub order_nonce: u64,
    pub relayer_coordinator: Option<AccountId>,
    pub protocol_fee_bps: u32,
    pub owner: AccountId,
    pub paused: bool,
    pub active_htlcs: Map<Hash32, u64>,
    pub min_resolver_stake: Balance,
    pub transfers: Seq<Transfer>,
    pub events: Seq<IntentEvent>,
}

/// The intent escrow.
pub struct IntentEscrow {
    orders: KeyedStore<u64, FusionOrder>,
    order_nonce: u64,
    relayer_coordinator: Option<AccountId>,
    protocol_fee_bps: u32,
    owner: AccountId,
    paused: bool,
    active_htlcs: KeyedStore<Hash32, u64>,
    min_resolver_stake: Balance,
    transfers: Vec<Transfer>,
    events: Vec<IntentEvent>,
}

impl View for IntentEscrow {
    type V = IntentView;

    closed spec fn view(&self) -> IntentView {
        IntentView {
            orders: self.orders@,
            order_nonce: self.order_nonce,
            relayer_coordinator: self.relayer_coordinator,
            protocol_fee_bps: self.protocol_fee_bps,
            owner: self.owner,
            paused: self.paused,
            active_htlcs: self.active_htlcs@,
            min_resolver_stake: self.min_resolver_stake,
            transfers: self.transfers@,
            events: self.events@,
        }
    }
}

/// No intent has filled more than its amount.
pub open spec fn fills_bounded(v: IntentView) -> bool {
    forall|id: u64| #[trigger]
        v.orders.contains_key(id) ==> v.orders[id].filled_amount <= v.orders[id].from_amount
}

/// The bytes an intent hash is computed from.
pub open spec fn intent_seed(p: SubmitIntentParams, maker: AccountId, now: Timestamp) -> Seq<u8> {
    p.from_token@ + p.to_token@ + le_u128(p.from_amount) + le_u128(p.min_to_amount) + le_u64(
        p.deadline,
    ) + maker@ + le_u64(now)
}

/// Why `submit_fusion_intent` refuses, if it does.
pub open spec fn submit_error(v: IntentView, ctx: CallContext, p: SubmitIntentParams) -> Option<Error> {
    if v.paused {
        Some(Error::ContractPaused)
    } else if p.deadline <= ctx.now {
        Some(Error::DeadlineExpired)
    } else if ctx.transferred < p.from_amount {
        Some(Error::InsufficientFunds)
    } else if ctx.now + ONE_DAY_MS > u64::MAX {
        Some(Error::ArithmeticOverflow)
    } else if v.order_nonce == u64::MAX {
        Some(Error::ArithmeticOverflow)
    } else {
        None
    }
}

/// The intent that `submit_fusion_intent` records.
pub open spec fn submitted_order(ctx: CallContext, p: SubmitIntentParams) -> FusionOrder {
    FusionOrder {
        maker: ctx.caller,
        from_token: p.from_token,
        to_token: p.to_token,
        from_amount: p.from_amount,
        min_to_amount: p.min_to_amount,
        hashlock: zero32(),
        timelock: (ctx.now + ONE_DAY_MS) as u64,
        intent_hash: blake2x256_of(intent_seed(p, ctx.caller, ctx.now)),
        assigned_resolver: None,
        ethereum_escrow_src: p.ethereum_escrow_src,
        status: OrderStatus::Pending,
        created_at: ctx.now,
        resolver_fee: p.max_resolver_fee,
        filled_amount: 0,
    }
}

/// The state after a successful `submit_fusion_intent`.
pub open spec fn after_submit(v: IntentView, ctx: CallContext, p: SubmitIntentParams) -> IntentView {
    let o = submitted_order(ctx, p);
    IntentView {
        orders: v.orders.insert(v.order_nonce, o),
        order_nonce: (v.order_nonce + 1) as u64,
        events: v.events.push(
            IntentEvent::FusionOrderCreated(
                FusionOrderCreated {
                    order_id: v.order_nonce,
                    maker: ctx.caller,
                    intent_hash: o.intent_hash,
                    ethereum_escrow_src: p.ethereum_escrow_src,
                    from_amount: p.from_amount,
                    min_to_amount: p.min_to_amount,
                    timelock: o.timelock,
                },
            ),
        ),
        ..v
    }
}

/// Why `assign_resolver` refuses, if it does.
pub open spec fn assign_error(v: IntentView, ctx: CallContext, order_id: u64, hashlock: Hash32) -> Option<Error> {
    if v.paused {
        Some(Error::ContractPaused)
    } else if ctx.transferred < v.min_resolver_stake {
        Some(Error::InsufficientStake)
    } else if !v.orders.contains_key(order_id) {
        Some(Error::OrderNotFound)
    } else if !(v.orders[order_id].status is Pending) {
        Some(Error::InvalidOrderStatus)
    } else if v.active_htlcs.contains_key(hashlock) {
        Some(Error::OrderAlreadyExists)
    } else {
        None
    }
}

/// The state after a successful `assign_resolver`.
pub open spec fn after_assign(
    v: IntentView,
    order_id: u64,
    resolver: AccountId,
    hashlock: Hash32,
    resolver_fee: Balance,
) -> IntentView {
    let o = v.orders[order_id];
    IntentView {
        orders: v.orders.insert(
            order_id,
            FusionOrder {
                assigned_resolver: Some(resolver),
                hashlock,
                resolver_fee,
                status: OrderStatus::Locked,
                ..o
            },
        ),
        active_htlcs: v.active_htlcs.insert(hashlock, order_id),
        events: v.events.push(
            IntentEvent::ResolverAssigned(ResolverAssigned { order_id, resolver, hashlock, resolver_fee }),
        ),
        ..v
    }
}

/// Whether an intent is locked or partly filled.
pub open spec fn is_live(s: OrderStatus) -> bool {
    s is Locked || s is PartiallyFilled
}

/// Why `execute_swap` refuses, if it does.
pub open spec fn execute_error(v: IntentView, ctx: CallContext, order_id: u64, secret: [u8; 32], amount: Balance) -> Option<Error> {
    let o = v.orders[order_id];
    if v.paused {
        Some(Error::ContractPaused)
    } else if !v.orders.contains_key(order_id) {
        Some(Error::OrderNotFound)
    } else if !is_live(o.status) {
        Some(Error::InvalidOrderStatus)
    } else if ctx.now > o.timelock {
        Some(Error::DeadlineExpired)
    } else if hash_of_secret(secret) != o.hashlock {
        Some(Error::InvalidSecret)
    } else if amount > o.from_amount - o.filled_amount {
        Some(Error::InsufficientFunds)
    } else {
        None
    }
}

/// The state after a successful `execute_swap`: a fill that reaches the
/// amount executes the intent and releases its hash lock.
pub open spec fn after_execute(v: IntentView, ctx: CallContext, order_id: u64, secret: [u8; 32], amount: Balance) -> IntentView {
    let o = v.orders[order_id];
    let filled = (o.filled_amount + amount) as u128;
    let done = IntentEvent::CrossChainSwapCompleted(
        CrossChainSwapCompleted { order_id, resolver: ctx.caller, secret, final_amount: amount },
    );
    if filled >= o.from_amount {
        IntentView {
            orders: v.orders.insert(
                order_id,
                FusionOrder { filled_amount: filled, status: OrderStatus::Executed, ..o },
            ),
            active_htlcs: v.active_htlcs.remove(o.hashlock),
            events: v.events.push(done),
            ..v
        }
    } else {
        IntentView {
            orders: v.orders.insert(
                order_id,
                FusionOrder { filled_amount: filled, status: OrderStatus::PartiallyFilled, ..o },
            ),
            events: if o.status is PartiallyFilled {
                v.events.push(done)
            } else {
                v.events.push(
                    IntentEvent::PartialFill(
                        PartialFill {
                            order_id,
                            filled_amount: filled,
                            remaining_amount: (o.from_amount - filled) as u128,
                        },
                    ),
                ).push(done)
            },
            ..v
        }
    }
}

/// Why `refund_order` refuses, if it does.
pub open spec fn refund_error(v: IntentView, ctx: CallContext, order_id: u64) -> Option<Error> {
    let o = v.orders[order_id];
    if v.paused {
        Some(Error::ContractPaused)
    } else if !v.orders.contains_key(order_id) {
        Some(Error::OrderNotFound)
    } else if !is_live(o.status) {
        Some(Error::InvalidOrderStatus)
    } else if ctx.now <= o.timelock {
        Some(Error::TimelockNotExpired)
    } else if ctx.caller != o.maker {
        Some(Error::Unauthorized)
    } else {
        None
    }
}

/// The state after a successful `refund_order`: what is unfilled goes back
/// to the maker.
pub open spec fn after_refund(v: IntentView, order_id: u64) -> IntentView {
    let o = v.orders[order_id];
    let refund = (o.from_amount - o.filled_amount) as u128;
    IntentView {
        orders: v.orders.insert(order_id, FusionOrder { status: OrderStatus::Refunded, ..o }),
        active_htlcs: v.active_htlcs.remove(o.hashlock),
        transfers: if refund > 0 {
            v.transfers.push(Transfer { to: o.maker, amount: refund })
        } else {
            v.transfers
        },
        events: v.events.push(
            IntentEvent::OrderRefunded(OrderRefunded { order_id, maker: o.maker, refunded_amount: refund }),
        ),
        ..v
    }
}

impl IntentEscrow {
    /// The stores' invariants, and fills within amounts.
    pub closed spec fn wf(&self) -> bool {
        &&& self.orders.wf()
        &&& self.active_htlcs.wf()
        &&& fills_bounded(self@)
    }

    /// A fresh intent escrow owned by `owner`.
    pub fn new(owner: AccountId, protocol_fee_bps: u32, min_resolver_stake: Balance) -> (r: Self)
        ensures
            r.wf(),
            r@ == (IntentView {
                orders: Map::empty(),
                order_nonce: 0,
                relayer_coordinator: None,
                protocol_fee_bps,
                owner,
                paused: false,
                active_htlcs: Map::empty(),
                min_resolver_stake,
                transfers: Seq::empty(),
                events: Seq::empty(),
            }),
    {
        IntentEscrow {
            orders: KeyedStore::new(),
            order_nonce: 0,
            relayer_coordinator: None,
            protocol_fee_bps,
            owner,
            paused: false,
            active_htlcs: KeyedStore::new(),
            min_resolver_stake,
            transfers: Vec::new(),
            events: Vec::new(),
        }
    }

    /// Names the relayer coordinator; owner only.
    pub fn set_relayer_coordinator(&mut self, ctx: &CallContext, coordinator: AccountId) -> (r: Result<
        (),
        Error,
    >)
        requires
            old(self).wf(),
        ensures
            final(self).wf(),
            ctx.caller == old(self)@.owner ==> r == Ok::<(), Error>(()) && final(self)@ == (
            IntentView { relayer_coordinator: Some(coordinator), ..old(self)@ }),
            ctx.caller != old(self)@.owner ==> r == Err::<(), Error>(Error::Unauthorized) && final(self)@
                == old(self)@,
    {
        if !bytes32_eq(&ctx.caller, &self.owner) {
            return Err(Error::Unauthorized);
        }
        self.relayer_coordinator = Some(coordinator);
        Ok(())
    }

    /// Pauses or resumes the escrow; owner only.
    pub fn set_paused(&mut self, ctx: &CallContext, paused: bool) -> (r: Result<(), Error>)
        requires
            old(self).wf(),
        ensures
            final(self).wf(),
            ctx.caller == old(self)@.owner ==> r == Ok::<(), Error>(()) && final(self)@ == (
            IntentView { paused, ..old(self)@ }),
            ctx.caller != old(self)@.owner ==> r == Err::<(), Error>(Error::Unauthorized) && final(self)@
                == old(self)@,
    {
        if !bytes32_eq(&ctx.caller, &self.owner) {
            return Err(Error::Unauthorized);
        }
        self.paused = paused;
        Ok(())
    }

    /// Computes the hash of an intent.
    pub fn intent_hash(p: &SubmitIntentParams, maker: &AccountId, now: Timestamp) -> (r: Hash32)
        ensures
            r == blake2x256_of(intent_seed(*p, *maker, now)),
    {
        let mut seed: Vec<u8> = Vec::new();
        append_bytes(&mut seed, p.from_token.as_slice());
        append_bytes(&mut seed, p.to_token.as_slice());
        append_u128(&mut seed, p.from_amount);
        append_u128(&mut seed, p.min_to_amount);
        append_u64(&mut seed, p.deadline);
        append_bytes(&mut seed, maker.as_slice());
        append_u64(&mut seed, now);
        assert(seed@ =~= intent_seed(*p, *maker, now));
        blake2x256(seed.as_slice())
    }

    /// Records a new intent funded with the value sent, and returns its id.
    pub fn submit_fusion_intent(&mut self, ctx: &CallContext, params: SubmitIntentParams) -> (r: Result<
        u64,
        Error,
    >)
        requires
            old(self).wf(),
        ensures
            final(self).wf(),
            match submit_error(old(self)@, *ctx, params) {
                Some(e) => r == Err::<u64, Error>(e) && final(self)@ == old(self)@,
                None => r == Ok::<u64, Error>(old(self)@.order_nonce) && final(self)@ == after_submit(
                    old(self)@,
                    *ctx,
                    params,
                ),
            },
    {
        if self.paused {
            return Err(Error::ContractPaused);
        }
        let caller = ctx.caller;
        let current_time = ctx.now;
        if params.deadline <= current_time {
            return Err(Error::DeadlineExpired);
        }
        if ctx.transferred < params.from_amount {
            return Err(Error::InsufficientFunds);
        }
        let timelock = match current_time.checked_add(ONE_DAY_MS) {
            Some(t) => t,
            None => return Err(Error::ArithmeticOverflow),
        };
        let next_nonce = match self.order_nonce.checked_add(1) {
            Some(n) => n,
            None => return Err(Error::ArithmeticOverflow),
        };
        let intent_hash = Self::intent_hash(&params, &caller, current_time);
        let order_id = self.order_nonce;
        let order = FusionOrder {
            maker: caller,
            from_token: params.from_token,
            to_token: params.to_token,
            from_amount: params.from_amount,
            min_to_amount: params.min_to_amount,
            hashlock: zeros32(),
            timelock,
            intent_hash,
            assigned_resolver: None,
            ethereum_escrow_src: params.ethereum_escrow_src,
            status: OrderStatus::Pending,
            created_at: current_time,
            resolver_fee: params.max_resolver_fee,
            filled_amount: 0,
        };
        self.orders.insert(order_id, order);
        self.order_nonce = next_nonce;
        self.events.push(
            IntentEvent::FusionOrderCreated(
                FusionOrderCreated {
                    order_id,
                    maker: caller,
                    intent_hash,
                    ethereum_escrow_src: params.ethereum_escrow_src,
                    from_amount: params.from_amount,
                    min_to_amount: params.min_to_amount,
                    timelock,
                },
            ),
        );
        Ok(order_id)
    }

    /// Locks a pending intent behind `hashlock` for `resolver`; the value
    /// sent must cover the minimum stake.
    pub fn assign_resolver(
        &mut self,
        ctx: &CallContext,
        order_id: u64,
        resolver: AccountId,
        hashlock: [u8; 32],
        resolver_fee: Balance,
    ) -> (r: Result<(), Error>)
        requires
            old(self).wf(),
        ensures
            final(self).wf(),
            match assign_error(old(self)@, *ctx, order_id, hashlock) {
                Some(e) => r == Err::<(), Error>(e) && final(self)@ == old(self)@,
                None => r == Ok::<(), Error>(()) && final(self)@ == after_assign(
                    old(self)@,
                    order_id,
                    resolver,
                    hashlock,
                    resolver_fee,
                ),
            },
    {
        if self.paused {
            return Err(Error::ContractPaused);
        }
        if ctx.transferred < self.min_resolver_stake {
            return Err(Error::InsufficientStake);
        }
        let order = match self.orders.get(&order_id) {
            Some(o) => o,
            None => return Err(Error::OrderNotFound),
        };
        if !matches!(order.status, OrderStatus::Pending) {
            return Err(Error::InvalidOrderStatus);
        }
        if self.active_htlcs.contains(&hashlock) {
            return Err(Error::OrderAlreadyExists);
        }
        let updated = FusionOrder {
            assigned_resolver: Some(resolver),
            hashlock,
            resolver_fee,
            status: OrderStatus::Locked,
            ..order
        };
        self.active_htlcs.insert(hashlock, order_id);
        self.orders.insert(order_id, updated);
        self.events.push(
            IntentEvent::ResolverAssigned(ResolverAssigned { order_id, resolver, hashlock, resolver_fee }),
        );
        Ok(())
    }

    /// Fills `amount` of a locked or partly filled intent with its secret.
    pub fn execute_swap(&mut self, ctx: &CallContext, order_id: u64, secret: [u8; 32], amount: Balance) -> (r:
        Result<(), Error>)
        requires
            old(self).wf(),
        ensures
            final(self).wf(),
            match execute_error(old(self)@, *ctx, order_id, secret, amount) {
                Some(e) => r == Err::<(), Error>(e) && final(self)@ == old(self)@,
                None => r == Ok::<(), Error>(()) && final(self)@ == after_execute(
                    old(self)@,
                    *ctx,
                    order_id,
                    secret,
                    amount,
                ),
            },
    {
        if self.paused {
            return Err(Error::ContractPaused);
        }
        let order = match self.orders.get(&order_id) {
            Some(o) => o,
            None => return Err(Error::OrderNotFound),
        };
        if !matches!(order.status, OrderStatus::Locked | OrderStatus::PartiallyFilled) {
            return Err(Error::InvalidOrderStatus);
        }
        if ctx.now > order.timelock {
            return Err(Error::DeadlineExpired);
        }
        let computed_hash = hash_secret(&secret);
        if !bytes32_eq(&computed_hash, &order.hashlock) {
            return Err(Error::InvalidSecret);
        }
        let remaining_amount = order.from_amount - order.filled_amount;
        if amount > remaining_amount {
            return Err(Error::InsufficientFunds);
        }
        let filled = order.filled_amount + amount;
        let was_partial = matches!(order.status, OrderStatus::PartiallyFilled);
        if filled >= order.from_amount {
            let updated = FusionOrder { filled_amount: filled, status: OrderStatus::Executed, ..order };
            self.active_htlcs.remove(&order.hashlock);
            self.orders.insert(order_id, updated);
        } else {
            let updated = FusionOrder {
                filled_amount: filled,
                status: OrderStatus::PartiallyFilled,
                ..order
            };
            if !was_partial {
                self.events.push(
                    IntentEvent::PartialFill(
                        PartialFill {
                            order_id,
                            filled_amount: filled,
                            remaining_amount: order.from_amount - filled,
                        },
                    ),
                );
            }
            self.orders.insert(order_id, updated);
        }
        self.events.push(
            IntentEvent::CrossChainSwapCompleted(
                CrossChainSwapCompleted { order_id, resolver: ctx.caller, secret, final_amount: amount },
            ),
        );
        Ok(())
    }

    /// Refunds the unfilled part of a live intent to its maker once the
    /// timelock has passed.
    pub fn refund_order(&mut self, ctx: &CallContext, order_id: u64) -> (r: Result<(), Error>)
        requires
            old(self).wf(),
        ensures
            final(self).wf(),
            match refund_error(old(self)@, *ctx, order_id) {
                Some(e) => r == Err::<(), Error>(e) && final(self)@ == old(self)@,
                None => r == Ok::<(), Error>(()) && final(self)@ == after_refund(old(self)@, order_id),
            },
    {
        if self.paused {
            return Err(Error::ContractPaused);
        }
        let order = match self.orders.get(&order_id) {
            Some(o) => o,
            None => return Err(Error::OrderNotFound),
        };
        if !matches!(order.status, OrderStatus::Locked | OrderStatus::PartiallyFilled) {
            return Err(Error::InvalidOrderStatus);
        }
        if ctx.now <= order.timelock {
            return Err(Error::TimelockNotExpired);
        }
        if !bytes32_eq(&ctx.caller, &order.maker) {
            return Err(Error::Unauthorized);
        }
        let refund_amount = order.from_amount - order.filled_amount;
        let updated = FusionOrder { status: OrderStatus::Refunded, ..order };
        self.orders.insert(order_id, updated);
        self.active_htlcs.remove(&order.hashlock);
        if refund_amount > 0 {
            self.transfers.push(Transfer { to: order.maker, amount: refund_amount });
        }
        self.events.push(
            IntentEvent::OrderRefunded(
                OrderRefunded { order_id, maker: order.maker, refunded_amount: refund_amount },
            ),
        );
        Ok(())
    }

    /// The intent with id `order_id`.
    pub fn get_order(&self, order_id: u64) -> (r: Option<FusionOrder>)
        requires
            self.wf(),
        ensures
            r == (if self@.orders.contains_key(order_id) {
                Some(self@.orders[order_id])
            } else {
                None
            }),
    {
        self.orders.get(&order_id)
    }

    /// The live intent locked behind `hashlock`.
    pub fn get_order_by_hashlock(&self, hashlock: [u8; 32]) -> (r: Option<u64>)
        requires
            self.wf(),
        ensures
            r == (if self@.active_htlcs.contains_key(hashlock) {
                Some(self@.active_htlcs[hashlock])
            } else {
                None
            }),
    {
        self.active_htlcs.get(&hashlock)
    }

    /// Whether the escrow is paused.
    pub fn is_paused(&self) -> (r: bool)
        ensures
            r == self@.paused,
    {
        self.paused
    }

    /// The owner.
    pub fn owner(&self) -> (r: AccountId)
        ensures
            r == self@.owner,
    {
        self.owner
    }

    /// The id the next intent will get.
    pub fn current_nonce(&self) -> (r: u64)
        ensures
            r == self@.order_nonce,
    {
        self.order_nonce
    }

    /// The relayer coordinator, once named.
    pub fn relayer_coordinator(&self) -> (r: Option<AccountId>)
        ensures
            r == self@.relayer_coordinator,
    {
        self.relayer_coordinator
    }

    /// The protocol fee, in basis points.
    pub fn protocol_fee_bps(&self) -> (r: u32)
        ensures
            r == self@.protocol_fee_bps,
    {
        self.protocol_fee_bps
    }

    /// The stake a resolver must send to lock an intent.
    pub fn min_resolver_stake(&self) -> (r: Balance)
        ensures
            r == self@.min_resolver_stake,
    {
        self.min_resolver_stake
    }

    /// Hands over the payouts decided so far, oldest first, and forgets them.
    pub fn take_transfers(&mut self) -> (r: Vec<Transfer>)
        requires
            old(self).wf(),
        ensures
            final(self).wf(),
            r@ == old(self)@.transfers,
            final(self)@ == (IntentView { transfers: Seq::empty(), ..old(self)@ }),
    {
        let mut taken = Vec::new();
        std::mem::swap(&mut taken, &mut self.transfers);
        taken
    }

    /// Hands over the events logged so far, oldest first, and forgets them.
    pub fn take_events(&mut self) -> (r: Vec<IntentEvent>)
        requires
            old(self).wf(),
        ensures
            final(self).wf(),
            r@ == old(self)@.events,
            final(self)@ == (IntentView { events: Seq::empty(), ..old(self)@ }),
    {
        let mut taken = Vec::new();
        std::mem::swap(&mut taken, &mut self.events);
        taken
    }
}

} // verus!
