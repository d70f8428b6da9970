//! The swap engine: an order book keyed by order hash, the hashed
//! time-lock state machine over each order, the index of active hash locks,
//! settlement payouts and the audit log of events.
use vstd::prelude::*;
use crate::keyed_store::KeyedStore;
use crate::primitives::{
    AccountId, Balance, CallContext, Hash32, Timestamp, append_bytes, append_u128, append_u64,
    blake2x256, blake2x256_of, bytes32_eq, derive_escrow_address, escrow_seed_of, hash_of_secret,
    hash_secret, le_u128, le_u64, zero20, zero32, zeros20, zeros32,
};
use crate::settlement::{FeeSplit, Transfer, split_amount, split_of, splittable};

verus! {

/// Which ledger the maker funds and which one they are paid on.
#[derive(Clone, Copy, Debug, PartialEq, Eq)]
pub enum SwapDirection {
    /// The maker is paid on this ledger from the resolver's liquidity.
    EthereumToPolkadot,
    /// The maker deposits on this ledger and is paid on the other one.
    PolkadotToEthereum,
}

/// Where an order stands in its life.
#[derive(Clone, Copy, Debug, PartialEq, Eq)]
pub enum OrderStatus {
    Pending,
    Locked,
    PartialFill,
    Executed,
    Cancelled,
    Refunded,
}

/// The order's two absolute deadlines.
#[derive(Clone, Copy, Debug, PartialEq, Eq)]
pub struct TimeLocks {
    /// Last moment at which the order can be executed.
    pub fill_deadline: Timestamp,
    /// End of the maker's early cancellation window.
    pub private_cancellation: Timestamp,
}

/// The hash lock of an order and, once revealed, its secret.
#[derive(Clone, Copy, Debug, PartialEq, Eq)]
pub struct HashLockInfo {
    pub hash_lock: [u8; 32],
    pub secret: Option<[u8; 32]>,
}

/// The mirror escrow on the other ledger.
#[derive(Clone, Copy, Debug, PartialEq, Eq)]
pub struct EthereumEscrowInfo {
    pub escrow_address: [u8; 20],
    pub tx_hash: Option<[u8; 32]>,
    pub block_number: Option<u64>,
}

/// An order and all that the engine records of it.
#[derive(Clone, Copy, Debug, PartialEq, Eq)]
pub struct FusionOrder {
    pub order_hash: [u8; 32],
    pub maker: AccountId,
    pub taker: Option<AccountId>,
    pub src_token: AccountId,
    pub dst_token: [u8; 20],
    pub src_amount: Balance,
    pub dst_amount: Balance,
    pub direction: SwapDirection,
    pub ethereum_escrow: Option<EthereumEscrowInfo>,
    pub hash_lock_info: HashLockInfo,
    pub time_locks: TimeLocks,
    pub status: OrderStatus,
    pub filled_amount: Balance,
    pub safety_deposit: Balance,
    pub resolver: Option<AccountId>,
    pub resolver_fee: Balance,
    pub created_at: Timestamp,
}

/// What a maker asks for when creating an order.
#[derive(Clone, Copy, Debug, PartialEq, Eq)]
pub struct CreateOrderParams {
    pub direction: SwapDirection,
    pub src_token: AccountId,
    pub dst_token: [u8; 20],
    pub src_amount: Balance,
    pub min_dst_amount: Balance,
    pub fill_deadline: Timestamp,
    pub ethereum_recipient: [u8; 20],
    pub max_resolver_fee: Balance,
}

/// What a resolver supplies when locking an order.
#[derive(Clone, Copy, Debug, PartialEq, Eq)]
pub struct ResolverParams {
    pub resolver: AccountId,
    pub hash_lock: [u8; 32],
    pub ethereum_escrow_address: [u8; 20],
    pub resolver_fee: Balance,
}

/// The immutable parameters that an escrow identity is derived from.
#[derive(Clone, Copy, Debug, PartialEq, Eq)]
pub struct EscrowImmutables {
    pub order_hash: [u8; 32],
    pub hash_lock: [u8; 32],
    pub maker: AccountId,
    pub taker: AccountId,
    pub token: AccountId,
    pub amount: Balance,
    pub safety_deposit: Balance,
    pub timelocks: TimeLocks,
    pub deployed_at: Option<Timestamp>,
}

/// An order was created.
#[derive(Clone, Copy, Debug, PartialEq, Eq)]
pub struct OrderCreated {
    pub order_hash: [u8; 32],
    pub maker: AccountId,
    pub direction: SwapDirection,
    pub src_amount: Balance,
    pub dst_amount: Balance,
    pub fill_deadline: Timestamp,
}

/// A resolver locked an order.
#[derive(Clone, Copy, Debug, PartialEq, Eq)]
pub struct EscrowDeployed {
    pub order_hash: [u8; 32],
    pub resolver: AccountId,
    pub hash_lock: [u8; 32],
    pub ethereum_escrow: [u8; 20],
    pub safety_deposit: Balance,
}

/// An order was executed in full.
#[derive(Clone, Copy, Debug, PartialEq, Eq)]
pub struct SwapExecuted {
    pub order_hash: [u8; 32],
    pub resolver: AccountId,
    pub secret: [u8; 32],
    pub amount_filled: Balance,
}

/// An order was cancelled.
#[derive(Clone, Copy, Debug, PartialEq, Eq)]
pub struct OrderCancelled {
    pub order_hash: [u8; 32],
    pub refund_amount: Balance,
    pub reason: CancelReason,
}

/// Part of an order was filled.
#[derive(Clone, Copy, Debug, PartialEq, Eq)]
pub struct PartialFillExecuted {
    pub order_hash: [u8; 32],
    pub filled_amount: Balance,
    pub remaining_amount: Balance,
}

/// A source escrow was deployed through the resolver interface.
#[derive(Clone, Copy, Debug, PartialEq, Eq)]
pub struct SrcEscrowDeployed {
    pub order_hash: [u8; 32],
    pub escrow_address: AccountId,
    pub immutables: EscrowImmutables,
    pub safety_deposit: Balance,
}

/// A destination escrow was recorded through the resolver interface.
#[derive(Clone, Copy, Debug, PartialEq, Eq)]
pub struct DstEscrowDeployed {
    pub order_hash: [u8; 32],
    pub escrow_address: AccountId,
    pub immutables: EscrowImmutables,
    pub src_cancellation_timestamp: Timestamp,
}

/// An escrow was withdrawn from with the secret.
#[derive(Clone, Copy, Debug, PartialEq, Eq)]
pub struct EscrowWithdrawal {
    pub order_hash: [u8; 32],
    pub escrow_address: AccountId,
    pub secret: [u8; 32],
    pub amount: Balance,
}

/// An escrow was cancelled through the resolver interface.
#[derive(Clone, Copy, Debug, PartialEq, Eq)]
pub struct EscrowCancellation {
    pub order_hash: [u8; 32],
    pub escrow_address: AccountId,
    pub refund_amount: Balance,
}

/// Why an order was cancelled.
#[derive(Clone, Copy, Debug, PartialEq, Eq)]
pub enum CancelReason {
    MakerCancellation,
    TimelockExpired,
    ResolverTimeout,
    EmergencyStop,
}

/// One entry of the audit log.
#[derive(Clone, Copy, Debug, PartialEq, Eq)]
pub enum EscrowEvent {
    OrderCreated(OrderCreated),
    EscrowDeployed(EscrowDeployed),
    SwapExecuted(SwapExecuted),
    OrderCancelled(OrderCancelled),
    PartialFillExecuted(PartialFillExecuted),
    SrcEscrowDeployed(SrcEscrowDeployed),
    DstEscrowDeployed(DstEscrowDeployed),
    EscrowWithdrawal(EscrowWithdrawal),
    EscrowCancellation(EscrowCancellation),
}

/// Why a message was refused.
#[derive(Clone, Copy, Debug, PartialEq, Eq)]
pub enum Error {
    OrderNotFound,
    OrderAlreadyExists,
    InvalidOrderStatus,
    InvalidOrderHash,
    Unauthorized,
    OnlyMaker,
    OnlyResolver,
    OnlyOwner,
    DeadlineExpired,
    TimelockNotExpired,
    PrivateCancellationExpired,
    InvalidSecret,
    InvalidHashLock,
    HashLockAlreadyUsed,
    InvalidImmutables,
    InsufficientFunds,
    InsufficientDeposit,
    InvalidAmount,
    ContractPaused,
    ArithmeticOverflow,
    TransferFailed,
    NativeTokenSendingFailure,
    EthereumEscrowNotSet,
    InvalidEthereumAddress,
    UnsupportedDirection,
    EscrowNotFound,
    LengthMismatch,
    InvalidLength,
}

/// The maker's early cancellation window: thirty minutes, in milliseconds.
pub const PRIVATE_CANCELLATION_PERIOD: u64 = 1_800_000;

/// The engine's whole state, as a mathematical value.
pub struct EscrowView {
    pub orders: Map<Hash32, FusionOrder>,
    /// Hash lock to order hash, for orders that are locked or partly filled.
    pub hash_locks: Map<Hash32, Hash32>,
    /// Order hash to derived escrow identity.
    pub escrow_addresses: Map<Hash32, AccountId>,
    pub owner: AccountId,
    pub paused: bool,
    pub protocol_fee_bps: u32,
    pub min_safety_deposit: Balance,
    pub approved_resolvers: Map<AccountId, bool>,
    pub resolver_stakes: Map<AccountId, Balance>,
    pub ethereum_resolver: [u8; 20],
    pub trusted_relayers: Map<AccountId, bool>,
    pub ethereum_chain_id: u32,
    pub order_nonce: u64,
    pub total_volume: Balance,
    pub total_escrows_created: u64,
    /// Payouts owed, in the order they were decided.
    pub transfers: Seq<Transfer>,
    /// The audit log.
    pub events: Seq<EscrowEvent>,
    /// All value the engine has accepted with messages.
    pub received: int,
    /// All value handed over for payout through `take_transfers`.
    pub released: int,
}

/// The swap engine.
pub struct FusionPolkadotEscrow {
    orders: KeyedStore<Hash32, FusionOrder>,
    active_hash_locks: KeyedStore<Hash32, Hash32>,
    escrow_addresses: KeyedStore<Hash32, AccountId>,
    owner: AccountId,
    paused: bool,
    protocol_fee_bps: u32,
    min_safety_deposit: Balance,
    approved_resolvers: KeyedStore<AccountId, bool>,
    resolver_stakes: KeyedStore<AccountId, Balance>,
    ethereum_resolver: [u8; 20],
    trusted_relayers: KeyedStore<AccountId, bool>,
    ethereum_chain_id: u32,
    order_nonce: u64,
    total_volume: Balance,
    total_escrows_created: u64,
    transfers: Vec<Transfer>,
    events: Vec<EscrowEvent>,
    received: Ghost<int>,
    released: Ghost<int>,
}

impl View for FusionPolkadotEscrow {
    type V = EscrowView;

    closed spec fn view(&self) -> EscrowView {
        EscrowView {
            orders: self.orders@,
            hash_locks: self.active_hash_locks@,
            escrow_addresses: self.escrow_addresses@,
            owner: self.owner,
            paused: self.paused,
            protocol_fee_bps: self.protocol_fee_bps,
            min_safety_deposit: self.min_safety_deposit,
            approved_resolvers: self.approved_resolvers@,
            resolver_stakes: self.resolver_stakes@,
            ethereum_resolver: self.ethereum_resolver,
            trusted_relayers: self.trusted_relayers@,
            ethereum_chain_id: self.ethereum_chain_id,
            order_nonce: self.order_nonce,
            total_volume: self.total_volume,
            total_escrows_created: self.total_escrows_created,
            transfers: self.transfers@,
            events: self.events@,
            received: self.received@,
            released: self.released@,
        }
    }
}

// ---- The model ----

/// An order that holds a hash lock: locked or partly filled.
pub open spec fn is_active(s: OrderStatus) -> bool {
    s is Locked || s is PartialFill
}

/// An order that no message can change any more.
pub open spec fn is_terminal(s: OrderStatus) -> bool {
    s is Executed || s is Cancelled || s is Refunded
}

/// The bytes an order hash is computed from: maker, source asset, destination
/// asset, amounts, deadline, nonce and creation time, in that order.
pub open spec fn order_seed(
    maker: AccountId,
    src_token: AccountId,
    dst_token: [u8; 20],
    src_amount: u128,
    dst_amount: u128,
    deadline: u64,
    nonce: u64,
    created_at: u64,
) -> Seq<u8> {
    maker@ + src_token@ + dst_token@ + le_u128(src_amount) + le_u128(dst_amount) + le_u64(
        deadline,
    ) + le_u64(nonce) + le_u64(created_at)
}

/// The hash of an order created by `maker` from `p` with `nonce` at `now`.
pub open spec fn order_hash_of(maker: AccountId, p: CreateOrderParams, nonce: u64, now: u64) -> Hash32 {
    blake2x256_of(
        order_seed(
            maker,
            p.src_token,
            p.dst_token,
            p.src_amount,
            p.min_dst_amount,
            p.fill_deadline,
            nonce,
            now,
        ),
    )
}

/// The bytes an escrow identity is derived from.
pub open spec fn escrow_seed(im: EscrowImmutables) -> Seq<u8> {
    escrow_seed_of(im.order_hash, im.hash_lock, im.maker, im.taker, im.amount, im.deployed_at)
}

/// The escrow identity derived from `im`.
pub open spec fn escrow_address_of(im: EscrowImmutables) -> AccountId {
    blake2x256_of(escrow_seed(im))
}

// ---- Invariants ----

/// Every order is stored under its own hash.
pub open spec fn orders_keyed_by_hash(v: EscrowView) -> bool {
    forall|h: Hash32| #[trigger] v.orders.contains_key(h) ==> v.orders[h].order_hash == h
}

/// No order has filled more than its source amount.
pub open spec fn fills_bounded(v: EscrowView) -> bool {
    forall|h: Hash32| #[trigger]
        v.orders.contains_key(h) ==> v.orders[h].filled_amount <= v.orders[h].src_amount
}

/// Every locked or partly filled order is found through its hash lock, and
/// has a resolver.
pub open spec fn active_orders_indexed(v: EscrowView) -> bool {
    forall|h: Hash32| #[trigger]
        v.orders.contains_key(h) && is_active(v.orders[h].status) ==> {
            &&& v.hash_locks.contains_key(v.orders[h].hash_lock_info.hash_lock)
            &&& v.hash_locks[v.orders[h].hash_lock_info.hash_lock] == h
            &&& v.orders[h].resolver is Some
        }
}

/// Every hash-lock entry leads to a locked or partly filled order with that
/// hash lock.
pub open spec fn index_points_to_active(v: EscrowView) -> bool {
    forall|hl: Hash32| #[trigger]
        v.hash_locks.contains_key(hl) ==> {
            &&& v.orders.contains_key(v.hash_locks[hl])
            &&& is_active(v.orders[v.hash_locks[hl]].status)
            &&& v.orders[v.hash_locks[hl]].hash_lock_info.hash_lock == hl
        }
}

/// A safety deposit is only ever held for a known resolver.
pub open spec fn deposits_have_resolver(v: EscrowView) -> bool {
    forall|h: Hash32| #[trigger]
        v.orders.contains_key(h) && v.orders[h].safety_deposit > 0 ==> v.orders[h].resolver is Some
}

/// A recorded secret always opens its order's hash lock.
pub open spec fn secrets_match(v: EscrowView) -> bool {
    forall|h: Hash32| #[trigger]
        v.orders.contains_key(h) && v.orders[h].hash_lock_info.secret is Some ==> hash_of_secret(
            v.orders[h].hash_lock_info.secret->0,
        ) == v.orders[h].hash_lock_info.hash_lock
}

/// A pending order holds no deposit, no fill and no secret yet.
pub open spec fn pending_orders_untouched(v: EscrowView) -> bool {
    forall|h: Hash32| #[trigger]
        v.orders.contains_key(h) && v.orders[h].status is Pending ==> {
            &&& v.orders[h].safety_deposit == 0
            &&& v.orders[h].filled_amount == 0
            &&& v.orders[h].hash_lock_info.secret is None
        }
}

/// The invariants the engine keeps across every message.
pub open spec fn engine_invariant(v: EscrowView) -> bool {
    &&& pending_orders_untouched(v)
    &&& orders_keyed_by_hash(v)
    &&& fills_bounded(v)
    &&& active_orders_indexed(v)
    &&& index_points_to_active(v)
    &&& deposits_have_resolver(v)
    &&& secrets_match(v)
}

/// `v` with one more payout owed.
pub open spec fn with_transfer(v: EscrowView, to: AccountId, amount: Balance) -> EscrowView {
    EscrowView { transfers: v.transfers.push(Transfer { to, amount }), ..v }
}

// ---- Creating orders ----

/// Why `create_order` refuses, if it does.
pub open spec fn create_order_error(v: EscrowView, ctx: CallContext, p: CreateOrderParams) -> Option<
    Error,
> {
    if v.paused {
        Some(Error::ContractPaused)
    } else if p.fill_deadline <= ctx.now {
        Some(Error::DeadlineExpired)
    } else if ctx.transferred < p.src_amount {
        Some(Error::InsufficientFunds)
    } else if ctx.now + PRIVATE_CANCELLATION_PERIOD > u64::MAX {
        Some(Error::ArithmeticOverflow)
    } else if v.orders.contains_key(order_hash_of(ctx.caller, p, v.order_nonce, ctx.now)) {
        Some(Error::OrderAlreadyExists)
    } else if v.order_nonce == u64::MAX {
        Some(Error::ArithmeticOverflow)
    } else {
        None
    }
}

/// The order that `create_order` records.
pub open spec fn created_order(key: Hash32, ctx: CallContext, p: CreateOrderParams) -> FusionOrder {
    FusionOrder {
        order_hash: key,
        maker: ctx.caller,
        taker: None,
        src_token: p.src_token,
        dst_token: p.dst_token,
        src_amount: p.src_amount,
        dst_amount: p.min_dst_amount,
        direction: p.direction,
        ethereum_escrow: None,
        hash_lock_info: HashLockInfo { hash_lock: zero32(), secret: None },
        time_locks: TimeLocks {
            fill_deadline: p.fill_deadline,
            private_cancellation: (ctx.now + PRIVATE_CANCELLATION_PERIOD) as u64,
        },
        status: OrderStatus::Pending,
        filled_amount: 0,
        safety_deposit: 0,
        resolver: None,
        resolver_fee: p.max_resolver_fee,
        created_at: ctx.now,
    }
}

/// The state after a successful `create_order`: the order is recorded, the
/// nonce advances, and value sent beyond the source amount goes back.
pub open spec fn after_create(v: EscrowView, ctx: CallContext, p: CreateOrderParams) -> EscrowView {
    let key = order_hash_of(ctx.caller, p, v.order_nonce, ctx.now);
    let v1 = EscrowView {
        orders: v.orders.insert(key, created_order(key, ctx, p)),
        order_nonce: (v.order_nonce + 1) as u64,
        received: v.received + ctx.transferred,
        events: v.events.push(
            EscrowEvent::OrderCreated(
                OrderCreated {
                    order_hash: key,
                    maker: ctx.caller,
                    direction: p.direction,
                    src_amount: p.src_amount,
                    dst_amount: p.min_dst_amount,
                    fill_deadline: p.fill_deadline,
                },
            ),
        ),
        ..v
    };
    if ctx.transferred > p.src_amount {
        with_transfer(v1, ctx.caller, (ctx.transferred - p.src_amount) as u128)
    } else {
        v1
    }
}

// ---- Locking orders ----

/// Why a resolver's lock of `order_hash` is refused, if it is: the checks
/// shared by both locking messages.
pub open spec fn lock_error(v: EscrowView, ctx: CallContext, order_hash: Hash32, hash_lock: Hash32) -> Option<
    Error,
> {
    if v.paused {
        Some(Error::ContractPaused)
    } else if ctx.transferred < v.min_safety_deposit {
        Some(Error::InsufficientDeposit)
    } else if !v.orders.contains_key(order_hash) {
        Some(Error::OrderNotFound)
    } else if !(v.orders[order_hash].status is Pending) {
        Some(Error::InvalidOrderStatus)
    } else if v.hash_locks.contains_key(hash_lock) {
        Some(Error::HashLockAlreadyUsed)
    } else {
        None
    }
}

/// The immutables that `deploy_escrow` derives the escrow identity from.
pub open spec fn lock_immutables(
    order: FusionOrder,
    order_hash: Hash32,
    ctx: CallContext,
    params: ResolverParams,
) -> EscrowImmutables {
    EscrowImmutables {
        order_hash,
        hash_lock: params.hash_lock,
        maker: order.maker,
        taker: params.resolver,
        token: order.src_token,
        amount: order.src_amount,
        safety_deposit: ctx.transferred,
        timelocks: order.time_locks,
        deployed_at: Some(ctx.now),
    }
}

/// The order after `deploy_escrow` locked it.
pub open spec fn locked_order(order: FusionOrder, ctx: CallContext, params: ResolverParams) -> FusionOrder {
    FusionOrder {
        resolver: Some(params.resolver),
        hash_lock_info: HashLockInfo { hash_lock: params.hash_lock, ..order.hash_lock_info },
        safety_deposit: ctx.transferred,
        resolver_fee: params.resolver_fee,
        status: OrderStatus::Locked,
        taker: Some(ctx.caller),
        ethereum_escrow: Some(
            EthereumEscrowInfo {
                escrow_address: params.ethereum_escrow_address,
                tx_hash: None,
                block_number: None,
            },
        ),
        ..order
    }
}

/// The state after a successful `deploy_escrow`.
pub open spec fn after_lock(v: EscrowView, ctx: CallContext, order_hash: Hash32, params: ResolverParams) -> EscrowView {
    let order = v.orders[order_hash];
    EscrowView {
        orders: v.orders.insert(order_hash, locked_order(order, ctx, params)),
        escrow_addresses: v.escrow_addresses.insert(
            order_hash,
            escrow_address_of(lock_immutables(order, order_hash, ctx, params)),
        ),
        hash_locks: v.hash_locks.insert(params.hash_lock, order_hash),
        resolver_stakes: v.resolver_stakes.insert(params.resolver, ctx.transferred),
        received: v.received + ctx.transferred,
        events: v.events.push(
            EscrowEvent::EscrowDeployed(
                EscrowDeployed {
                    order_hash,
                    resolver: params.resolver,
                    hash_lock: params.hash_lock,
                    ethereum_escrow: params.ethereum_escrow_address,
                    safety_deposit: ctx.transferred,
                },
            ),
        ),
        ..v
    }
}

/// `immutables` as `deploy_src` stamps them: deployed now, with the value
/// sent as safety deposit.
pub open spec fn stamped_immutables(immutables: EscrowImmutables, ctx: CallContext) -> EscrowImmutables {
    EscrowImmutables { deployed_at: Some(ctx.now), safety_deposit: ctx.transferred, ..immutables }
}

/// The order after `deploy_src` locked it for `immutables.taker`.
pub open spec fn src_locked_order(order: FusionOrder, ctx: CallContext, immutables: EscrowImmutables) -> FusionOrder {
    FusionOrder {
        status: OrderStatus::Locked,
        safety_deposit: ctx.transferred,
        hash_lock_info: HashLockInfo { hash_lock: immutables.hash_lock, ..order.hash_lock_info },
        resolver: Some(immutables.taker),
        ..order
    }
}

/// The state after a successful `deploy_src`.
pub open spec fn after_deploy_src(
    v: EscrowView,
    ctx: CallContext,
    immutables: EscrowImmutables,
    order_hash: Hash32,
) -> EscrowView {
    let order = v.orders[order_hash];
    let im = stamped_immutables(immutables, ctx);
    EscrowView {
        orders: v.orders.insert(order_hash, src_locked_order(order, ctx, immutables)),
        escrow_addresses: v.escrow_addresses.insert(order_hash, escrow_address_of(im)),
        hash_locks: v.hash_locks.insert(immutables.hash_lock, order_hash),
        received: v.received + ctx.transferred,
        total_escrows_created: if v.total_escrows_created == u64::MAX {
            u64::MAX
        } else {
            (v.total_escrows_created + 1) as u64
        },
        events: v.events.push(
            EscrowEvent::SrcEscrowDeployed(
                SrcEscrowDeployed {
                    order_hash: im.order_hash,
                    escrow_address: escrow_address_of(im),
                    immutables: im,
                    safety_deposit: ctx.transferred,
                },
            ),
        ),
        ..v
    }
}

/// Why `deploy_dst` refuses, if it does.
pub open spec fn deploy_dst_error(v: EscrowView, dst: EscrowImmutables) -> Option<Error> {
    if v.paused {
        Some(Error::ContractPaused)
    } else if !v.orders.contains_key(dst.order_hash) {
        Some(Error::OrderNotFound)
    } else {
        None
    }
}

/// The placeholder record of a counterparty escrow whose address is not yet
/// known.
pub open spec fn placeholder_escrow() -> EthereumEscrowInfo {
    EthereumEscrowInfo { escrow_address: zero20(), tx_hash: None, block_number: None }
}

/// The state after a successful `deploy_dst`: the counterparty record is set
/// once and then kept, and any value sent goes back to the sender.
pub open spec fn after_deploy_dst(v: EscrowView, ctx: CallContext, dst: EscrowImmutables, src_cancellation_timestamp: Timestamp) -> EscrowView {
    let order = v.orders[dst.order_hash];
    let order2 = if order.ethereum_escrow is None {
        FusionOrder { ethereum_escrow: Some(placeholder_escrow()), ..order }
    } else {
        order
    };
    let v1 = EscrowView {
        orders: v.orders.insert(dst.order_hash, order2),
        escrow_addresses: v.escrow_addresses.insert(dst.order_hash, escrow_address_of(dst)),
        received: v.received + ctx.transferred,
        events: v.events.push(
            EscrowEvent::DstEscrowDeployed(
                DstEscrowDeployed {
                    order_hash: dst.order_hash,
                    escrow_address: escrow_address_of(dst),
                    immutables: dst,
                    src_cancellation_timestamp,
                },
            ),
        ),
        ..v
    };
    if ctx.transferred > 0 {
        with_transfer(v1, ctx.caller, ctx.transferred)
    } else {
        v1
    }
}

// ---- Settling and cancelling ----

/// The payouts that settle `amount` of `order`, split by `split`, routed by
/// the order's direction.
pub open spec fn settlement_payouts(order: FusionOrder, owner: AccountId, split: FeeSplit) -> Seq<Transfer> {
    let resolver = order.resolver->0;
    let protocol = if split.protocol_fee > 0 {
        seq![Transfer { to: owner, amount: split.protocol_fee }]
    } else {
        Seq::empty()
    };
    match order.direction {
        SwapDirection::PolkadotToEthereum => seq![
            Transfer { to: resolver, amount: (split.net + split.resolver_fee) as u128 },
        ] + protocol,
        SwapDirection::EthereumToPolkadot => seq![Transfer { to: order.maker, amount: split.net }] + (
        if split.resolver_fee > 0 {
            seq![Transfer { to: resolver, amount: split.resolver_fee }]
        } else {
            Seq::empty()
        }) + protocol,
    }
}

/// The safety deposit going back to the resolver, if one is held.
pub open spec fn deposit_release(order: FusionOrder) -> Seq<Transfer> {
    if order.safety_deposit > 0 && order.resolver is Some {
        seq![Transfer { to: order.resolver->0, amount: order.safety_deposit }]
    } else {
        Seq::empty()
    }
}

/// What is left to fill of an order.
pub open spec fn remaining_of(order: FusionOrder) -> int {
    order.src_amount - order.filled_amount
}

/// Why `execute_swap` refuses, if it does.
pub open spec fn execute_error(v: EscrowView, ctx: CallContext, order_hash: Hash32, secret: [u8; 32]) -> Option<
    Error,
> {
    let order = v.orders[order_hash];
    if v.paused {
        Some(Error::ContractPaused)
    } else if !v.orders.contains_key(order_hash) {
        Some(Error::OrderNotFound)
    } else if !is_active(order.status) {
        Some(Error::InvalidOrderStatus)
    } else if ctx.now > order.time_locks.fill_deadline {
        Some(Error::DeadlineExpired)
    } else if hash_of_secret(secret) != order.hash_lock_info.hash_lock {
        Some(Error::InvalidSecret)
    } else if order.direction is PolkadotToEthereum && order.ethereum_escrow is None {
        Some(Error::EthereumEscrowNotSet)
    } else if !splittable(remaining_of(order) as u128, v.protocol_fee_bps) {
        Some(Error::ArithmeticOverflow)
    } else if v.total_volume + order.src_amount > u128::MAX {
        Some(Error::ArithmeticOverflow)
    } else {
        None
    }
}

/// The state after a successful `execute_swap`: what remained is paid out,
/// the deposit goes back to the resolver, and the hash lock is released.
pub open spec fn after_execute(v: EscrowView, ctx: CallContext, order_hash: Hash32, secret: [u8; 32]) -> EscrowView {
    let order = v.orders[order_hash];
    let split = split_of(remaining_of(order) as u128, v.protocol_fee_bps, order.resolver_fee);
    EscrowView {
        orders: v.orders.insert(
            order_hash,
            FusionOrder {
                status: OrderStatus::Executed,
                filled_amount: order.src_amount,
                hash_lock_info: HashLockInfo { secret: Some(secret), ..order.hash_lock_info },
                ..order
            },
        ),
        hash_locks: v.hash_locks.remove(order.hash_lock_info.hash_lock),
        total_volume: (v.total_volume + order.src_amount) as u128,
        transfers: v.transfers + settlement_payouts(order, v.owner, split) + deposit_release(order),
        events: v.events.push(
            EscrowEvent::SwapExecuted(
                SwapExecuted {
                    order_hash,
                    resolver: ctx.caller,
                    secret,
                    amount_filled: order.src_amount,
                },
            ),
        ),
        ..v
    }
}

/// Why `withdraw` refuses, if it does.
pub open spec fn withdraw_error(v: EscrowView, ctx: CallContext, order_hash: Hash32, secret: [u8; 32]) -> Option<
    Error,
> {
    let order = v.orders[order_hash];
    if !v.escrow_addresses.contains_key(order_hash) {
        Some(Error::EscrowNotFound)
    } else if !v.orders.contains_key(order_hash) {
        Some(Error::OrderNotFound)
    } else if hash_of_secret(secret) != order.hash_lock_info.hash_lock {
        Some(Error::InvalidSecret)
    } else if ctx.now > order.time_locks.fill_deadline {
        Some(Error::DeadlineExpired)
    } else {
        execute_error(v, ctx, order_hash, secret)
    }
}

/// The state after a successful `withdraw`.
pub open spec fn after_withdraw(v: EscrowView, ctx: CallContext, order_hash: Hash32, secret: [u8; 32]) -> EscrowView {
    let v1 = after_execute(v, ctx, order_hash, secret);
    EscrowView {
        events: v1.events.push(
            EscrowEvent::EscrowWithdrawal(
                EscrowWithdrawal {
                    order_hash,
                    escrow_address: v.escrow_addresses[order_hash],
                    secret,
                    amount: v.orders[order_hash].src_amount,
                },
            ),
        ),
        ..v1
    }
}

/// Why `execute_partial_fill` refuses, if it does.
pub open spec fn partial_fill_error(
    v: EscrowView,
    ctx: CallContext,
    order_hash: Hash32,
    fill_amount: Balance,
    secret: [u8; 32],
) -> Option<Error> {
    let order = v.orders[order_hash];
    if v.paused {
        Some(Error::ContractPaused)
    } else if !v.orders.contains_key(order_hash) {
        Some(Error::OrderNotFound)
    } else if !is_active(order.status) {
        Some(Error::InvalidOrderStatus)
    } else if ctx.now > order.time_locks.fill_deadline {
        Some(Error::DeadlineExpired)
    } else if hash_of_secret(secret) != order.hash_lock_info.hash_lock {
        Some(Error::InvalidSecret)
    } else if fill_amount == 0 || fill_amount > remaining_of(order) {
        Some(Error::InvalidAmount)
    } else if order.direction is PolkadotToEthereum && order.ethereum_escrow is None {
        Some(Error::EthereumEscrowNotSet)
    } else if !splittable(fill_amount, v.protocol_fee_bps) {
        Some(Error::ArithmeticOverflow)
    } else if fill_amount == remaining_of(order) && v.total_volume + order.src_amount > u128::MAX {
        Some(Error::ArithmeticOverflow)
    } else {
        None
    }
}

/// The state after a successful `execute_partial_fill`: the fill is paid
/// out; a fill that completes the order executes it.
pub open spec fn after_partial_fill(
    v: EscrowView,
    order_hash: Hash32,
    fill_amount: Balance,
    secret: [u8; 32],
) -> EscrowView {
    let order = v.orders[order_hash];
    let filled = (order.filled_amount + fill_amount) as u128;
    let split = split_of(fill_amount, v.protocol_fee_bps, order.resolver_fee);
    let completes = filled == order.src_amount;
    let event = EscrowEvent::PartialFillExecuted(
        PartialFillExecuted {
            order_hash,
            filled_amount: filled,
            remaining_amount: (order.src_amount - filled) as u128,
        },
    );
    if completes {
        EscrowView {
            orders: v.orders.insert(
                order_hash,
                FusionOrder {
                    status: OrderStatus::Executed,
                    filled_amount: filled,
                    hash_lock_info: HashLockInfo { secret: Some(secret), ..order.hash_lock_info },
                    ..order
                },
            ),
            hash_locks: v.hash_locks.remove(order.hash_lock_info.hash_lock),
            total_volume: (v.total_volume + order.src_amount) as u128,
            transfers: v.transfers + settlement_payouts(order, v.owner, split) + deposit_release(
                order,
            ),
            events: v.events.push(event),
            ..v
        }
    } else {
        EscrowView {
            orders: v.orders.insert(
                order_hash,
                FusionOrder { status: OrderStatus::PartialFill, filled_amount: filled, ..order },
            ),
            transfers: v.transfers + settlement_payouts(order, v.owner, split),
            events: v.events.push(event),
            ..v
        }
    }
}

/// Whether `cancel_order` lets `ctx.caller` cancel `order` now, and why.
pub open spec fn cancel_decision(order: FusionOrder, ctx: CallContext) -> Option<CancelReason> {
    match order.status {
        OrderStatus::Pending => if ctx.caller == order.maker && ctx.now
            <= order.time_locks.private_cancellation {
            Some(CancelReason::MakerCancellation)
        } else {
            None
        },
        OrderStatus::Locked | OrderStatus::PartialFill => if ctx.now
            > order.time_locks.fill_deadline {
            Some(CancelReason::TimelockExpired)
        } else if ctx.caller == order.maker {
            Some(CancelReason::MakerCancellation)
        } else {
            None
        },
        _ => None,
    }
}

/// Why `cancel_order` refuses, if it does.
pub open spec fn cancel_order_error(v: EscrowView, ctx: CallContext, order_hash: Hash32) -> Option<Error> {
    let order = v.orders[order_hash];
    if v.paused {
        Some(Error::ContractPaused)
    } else if !v.orders.contains_key(order_hash) {
        Some(Error::OrderNotFound)
    } else if is_terminal(order.status) {
        Some(Error::InvalidOrderStatus)
    } else if cancel_decision(order, ctx) is None {
        Some(Error::Unauthorized)
    } else {
        None
    }
}

/// The refund of what is unfilled, to the maker, then the deposit release.
pub open spec fn cancel_payouts(order: FusionOrder) -> Seq<Transfer> {
    (if remaining_of(order) > 0 {
        seq![Transfer { to: order.maker, amount: remaining_of(order) as u128 }]
    } else {
        Seq::empty()
    }) + deposit_release(order)
}

/// `v` with the order cancelled and its funds returned, before the event.
pub open spec fn cancelled(v: EscrowView, order_hash: Hash32) -> EscrowView {
    let order = v.orders[order_hash];
    EscrowView {
        orders: v.orders.insert(order_hash, FusionOrder { status: OrderStatus::Cancelled, ..order }),
        hash_locks: if is_active(order.status) {
            v.hash_locks.remove(order.hash_lock_info.hash_lock)
        } else {
            v.hash_locks
        },
        transfers: v.transfers + cancel_payouts(order),
        ..v
    }
}

/// The state after a successful `cancel_order`.
pub open spec fn after_cancel_order(v: EscrowView, ctx: CallContext, order_hash: Hash32) -> EscrowView {
    let order = v.orders[order_hash];
    let v1 = cancelled(v, order_hash);
    EscrowView {
        events: v1.events.push(
            EscrowEvent::OrderCancelled(
                OrderCancelled {
                    order_hash,
                    refund_amount: remaining_of(order) as u128,
                    reason: cancel_decision(order, ctx)->0,
                },
            ),
        ),
        ..v1
    }
}

/// Whether the resolver interface's cancellation window is open: after the
/// maker's private window or after the deadline.
pub open spec fn cancellation_open(order: FusionOrder, now: Timestamp) -> bool {
    now > order.time_locks.private_cancellation || now > order.time_locks.fill_deadline
}

/// Why `cancel` refuses, if it does.
pub open spec fn cancel_error(v: EscrowView, ctx: CallContext, order_hash: Hash32) -> Option<Error> {
    let order = v.orders[order_hash];
    if !v.escrow_addresses.contains_key(order_hash) {
        Some(Error::EscrowNotFound)
    } else if !v.orders.contains_key(order_hash) {
        Some(Error::OrderNotFound)
    } else if is_terminal(order.status) {
        Some(Error::InvalidOrderStatus)
    } else if !cancellation_open(order, ctx.now) {
        Some(Error::TimelockNotExpired)
    } else {
        None
    }
}

/// The state after a successful `cancel`.
pub open spec fn after_cancel(v: EscrowView, order_hash: Hash32) -> EscrowView {
    let order = v.orders[order_hash];
    let v1 = cancelled(v, order_hash);
    EscrowView {
        events: v1.events.push(
            EscrowEvent::EscrowCancellation(
                EscrowCancellation {
                    order_hash,
                    escrow_address: v.escrow_addresses[order_hash],
                    refund_amount: remaining_of(order) as u128,
                },
            ),
        ),
        ..v1
    }
}

impl FusionPolkadotEscrow {
    /// The engine's invariants, and those of its stores.
    pub closed spec fn wf(&self) -> bool {
        &&& self.orders.wf()
        &&& self.active_hash_locks.wf()
        &&& self.escrow_addresses.wf()
        &&& self.approved_resolvers.wf()
        &&& self.resolver_stakes.wf()
        &&& self.trusted_relayers.wf()
        &&& engine_invariant(self@)
        &&& self@.received == self@.released + total_paid(self@.transfers) + self.value_custodied()
    }

    /// The value held for live orders: for each, what is unfilled plus its
    /// safety deposit.
    pub closed spec fn value_custodied(&self) -> int {
        self.orders.sum_of(custody_fn())
    }

    /// A fresh engine owned by `owner`.
    pub fn new(
        owner: AccountId,
        protocol_fee_bps: u32,
        min_safety_deposit: Balance,
        ethereum_chain_id: u32,
        ethereum_resolver: [u8; 20],
    ) -> (r: Self)
        ensures
            r.wf(),
            r@ == (EscrowView {
                orders: Map::empty(),
                hash_locks: Map::empty(),
                escrow_addresses: Map::empty(),
                owner,
                paused: false,
                protocol_fee_bps,
                min_safety_deposit,
                approved_resolvers: Map::empty(),
                resolver_stakes: Map::empty(),
                ethereum_resolver,
                trusted_relayers: Map::empty(),
                ethereum_chain_id,
                order_nonce: 0,
                total_volume: 0,
                total_escrows_created: 0,
                transfers: Seq::empty(),
                events: Seq::empty(),
                received: 0,
                released: 0,
            }),
            r.value_custodied() == 0,
    {
        FusionPolkadotEscrow {
            orders: KeyedStore::new(),
            active_hash_locks: KeyedStore::new(),
            escrow_addresses: KeyedStore::new(),
            owner,
            paused: false,
            protocol_fee_bps,
            min_safety_deposit,
            approved_resolvers: KeyedStore::new(),
            resolver_stakes: KeyedStore::new(),
            ethereum_resolver,
            trusted_relayers: KeyedStore::new(),
            ethereum_chain_id,
            order_nonce: 0,
            total_volume: 0,
            total_escrows_created: 0,
            transfers: Vec::new(),
            events: Vec::new(),
            received: Ghost(0),
            released: Ghost(0),
        }
    }

    fn ensure_owner(&self, ctx: &CallContext) -> (r: Result<(), Error>)
        ensures
            r == (if ctx.caller == self@.owner {
                Ok(())
            } else {
                Err(Error::Unauthorized)
            }),
    {
        if !bytes32_eq(&ctx.caller, &self.owner) {
            return Err(Error::Unauthorized);
        }
        Ok(())
    }

    fn ensure_not_paused(&self) -> (r: Result<(), Error>)
        ensures
            r == (if self@.paused {
                Err(Error::ContractPaused)
            } else {
                Ok(())
            }),
    {
        if self.paused {
            return Err(Error::ContractPaused);
        }
        Ok(())
    }

    /// Pauses or resumes the engine; owner only.
    pub fn set_paused(&mut self, ctx: &CallContext, paused: bool) -> (r: Result<(), Error>)
        requires
            old(self).wf(),
        ensures
            final(self).wf(),
            ctx.caller == old(self)@.owner ==> r == Ok::<(), Error>(()) && final(self)@ == (
            EscrowView { paused, ..old(self)@ }),
            ctx.caller != old(self)@.owner ==> r == Err::<(), Error>(Error::Unauthorized) && final(self)@ == old(self)@,
    {
        self.ensure_owner(ctx)?;
        self.paused = paused;
        Ok(())
    }

    /// Marks `resolver` as approved; owner only.
    pub fn approve_resolver(&mut self, ctx: &CallContext, resolver: AccountId) -> (r: Result<
        (),
        Error,
    >)
        requires
            old(self).wf(),
        ensures
            final(self).wf(),
            ctx.caller == old(self)@.owner ==> r == Ok::<(), Error>(()) && final(self)@ == (
            EscrowView {
                approved_resolvers: old(self)@.approved_resolvers.insert(resolver, true),
                ..old(self)@
            }),
            ctx.caller != old(self)@.owner ==> r == Err::<(), Error>(Error::Unauthorized) && final(self)@ == old(self)@,
    {
        self.ensure_owner(ctx)?;
        self.approved_resolvers.insert(resolver, true);
        Ok(())
    }

    /// Marks `relayer` as trusted; owner only.
    pub fn add_trusted_relayer(&mut self, ctx: &CallContext, relayer: AccountId) -> (r: Result<
        (),
        Error,
    >)
        requires
            old(self).wf(),
        ensures
            final(self).wf(),
            ctx.caller == old(self)@.owner ==> r == Ok::<(), Error>(()) && final(self)@ == (
            EscrowView {
                trusted_relayers: old(self)@.trusted_relayers.insert(relayer, true),
                ..old(self)@
            }),
            ctx.caller != old(self)@.owner ==> r == Err::<(), Error>(Error::Unauthorized) && final(self)@ == old(self)@,
    {
        self.ensure_owner(ctx)?;
        self.trusted_relayers.insert(relayer, true);
        Ok(())
    }

    /// Hands ownership to `new_owner`; owner only.
    pub fn transfer_ownership(&mut self, ctx: &CallContext, new_owner: AccountId) -> (r: Result<
        (),
        Error,
    >)
        requires
            old(self).wf(),
        ensures
            final(self).wf(),
            ctx.caller == old(self)@.owner ==> r == Ok::<(), Error>(()) && final(self)@ == (
            EscrowView { owner: new_owner, ..old(self)@ }),
            ctx.caller != old(self)@.owner ==> r == Err::<(), Error>(Error::Unauthorized) && final(self)@ == old(self)@,
    {
        self.ensure_owner(ctx)?;
        self.owner = new_owner;
        Ok(())
    }

    /// Computes the hash that identifies a new order.
    pub fn order_hash(
        maker: &AccountId,
        p: &CreateOrderParams,
        nonce: u64,
        created_at: u64,
    ) -> (r: Hash32)
        ensures
            r == order_hash_of(*maker, *p, nonce, created_at),
    {
        let mut seed: Vec<u8> = Vec::new();
        append_bytes(&mut seed, maker.as_slice());
        append_bytes(&mut seed, p.src_token.as_slice());
        append_bytes(&mut seed, p.dst_token.as_slice());
        append_u128(&mut seed, p.src_amount);
        append_u128(&mut seed, p.min_dst_amount);
        append_u64(&mut seed, p.fill_deadline);
        append_u64(&mut seed, nonce);
        append_u64(&mut seed, created_at);
        assert(seed@ =~= order_seed(
            *maker,
            p.src_token,
            p.dst_token,
            p.src_amount,
            p.min_dst_amount,
            p.fill_deadline,
            nonce,
            created_at,
        ));
        blake2x256(seed.as_slice())
    }

    /// Records a new order funded by the value sent with the message.
    pub fn create_order(&mut self, ctx: &CallContext, params: CreateOrderParams) -> (r: Result<
        Hash32,
        Error,
    >)
        requires
            old(self).wf(),
        ensures
            final(self).wf(),
            match create_order_error(old(self)@, *ctx, params) {
                Some(e) => r == Err::<Hash32, Error>(e) && final(self)@ == old(self)@,
                None => r == Ok::<Hash32, Error>(
                    order_hash_of(ctx.caller, params, old(self)@.order_nonce, ctx.now),
                ) && final(self)@ == after_create(old(self)@, *ctx, params),
            },
    {
        self.ensure_not_paused()?;
        let caller = ctx.caller;
        let current_time = ctx.now;
        if params.fill_deadline <= current_time {
            return Err(Error::DeadlineExpired);
        }
        if ctx.transferred < params.src_amount {
            return Err(Error::InsufficientFunds);
        }
        let private_cancellation = match current_time.checked_add(PRIVATE_CANCELLATION_PERIOD) {
            Some(t) => t,
            None => return Err(Error::ArithmeticOverflow),
        };
        let order_hash = Self::order_hash(&caller, &params, self.order_nonce, current_time);
        if self.orders.contains(&order_hash) {
            return Err(Error::OrderAlreadyExists);
        }
        let next_nonce = match self.order_nonce.checked_add(1) {
            Some(n) => n,
            None => return Err(Error::ArithmeticOverflow),
        };
        let order = FusionOrder {
            order_hash,
            maker: caller,
            taker: None,
            src_token: params.src_token,
            dst_token: params.dst_token,
            src_amount: params.src_amount,
            dst_amount: params.min_dst_amount,
            direction: params.direction,
            ethereum_escrow: None,
            hash_lock_info: HashLockInfo { hash_lock: zeros32(), secret: None },
            time_locks: TimeLocks { fill_deadline: params.fill_deadline, private_cancellation },
            status: OrderStatus::Pending,
            filled_amount: 0,
            safety_deposit: 0,
            resolver: None,
            resolver_fee: params.max_resolver_fee,
            created_at: current_time,
        };
        let ghost v0 = self@;
        let ghost c0 = self.value_custodied();
        self.orders.insert(order_hash, order);
        self.order_nonce = next_nonce;
        self.events.push(
            EscrowEvent::OrderCreated(
                OrderCreated {
                    order_hash,
                    maker: caller,
                    direction: params.direction,
                    src_amount: params.src_amount,
                    dst_amount: params.min_dst_amount,
                    fill_deadline: params.fill_deadline,
                },
            ),
        );
        if ctx.transferred > params.src_amount {
            self.transfers.push(Transfer { to: caller, amount: ctx.transferred - params.src_amount });
        }
        proof {
            let v = self@;
            assert(v.hash_locks == v0.hash_locks);
            assert forall|hl: Hash32| #[trigger] v.hash_locks.contains_key(hl) implies {
                &&& v.orders.contains_key(v.hash_locks[hl])
                &&& is_active(v.orders[v.hash_locks[hl]].status)
                &&& v.orders[v.hash_locks[hl]].hash_lock_info.hash_lock == hl
            } by {
                assert(v0.hash_locks.contains_key(hl));
                assert(v.hash_locks[hl] != order_hash);
            }
        }
        self.received = Ghost(self.received@ + ctx.transferred as int);
        proof {
            assert(self@ == after_create(v0, *ctx, params));
            lemma_create_conserves_value(v0, *ctx, params);
        }
        Ok(order_hash)
    }

    /// Derives the escrow identity bound to `immutables`.
    pub fn compute_escrow_address(&self, immutables: &EscrowImmutables) -> (r: Result<
        AccountId,
        Error,
    >)
        ensures
            r == Ok::<AccountId, Error>(escrow_address_of(*immutables)),
    {
        Ok(
            derive_escrow_address(
                &immutables.order_hash,
                &immutables.hash_lock,
                &immutables.maker,
                &immutables.taker,
                immutables.amount,
                immutables.deployed_at,
            ),
        )
    }

    /// Locks a pending order behind the resolver's hash lock, taking the
    /// value sent as safety deposit.
    pub fn deploy_escrow(&mut self, ctx: &CallContext, order_hash: Hash32, params: ResolverParams) -> (r:
        Result<(), Error>)
        requires
            old(self).wf(),
        ensures
            final(self).wf(),
            match lock_error(old(self)@, *ctx, order_hash, params.hash_lock) {
                Some(e) => r == Err::<(), Error>(e) && final(self)@ == old(self)@,
                None => r == Ok::<(), Error>(()) && final(self)@ == after_lock(
                    old(self)@,
                    *ctx,
                    order_hash,
                    params,
                ),
            },
    {
        self.ensure_not_paused()?;
        let safety_deposit = ctx.transferred;
        if safety_deposit < self.min_safety_deposit {
            return Err(Error::InsufficientDeposit);
        }
        let order = match self.orders.get(&order_hash) {
            Some(o) => o,
            None => return Err(Error::OrderNotFound),
        };
        if !matches!(order.status, OrderStatus::Pending) {
            return Err(Error::InvalidOrderStatus);
        }
        if self.active_hash_locks.contains(&params.hash_lock) {
            return Err(Error::HashLockAlreadyUsed);
        }
        let immutables = EscrowImmutables {
            order_hash,
            hash_lock: params.hash_lock,
            maker: order.maker,
            taker: params.resolver,
            token: order.src_token,
            amount: order.src_amount,
            safety_deposit,
            timelocks: order.time_locks,
            deployed_at: Some(ctx.now),
        };
        let escrow_address = match self.compute_escrow_address(&immutables) {
            Ok(a) => a,
            Err(e) => return Err(e),
        };
        let updated = FusionOrder {
            resolver: Some(params.resolver),
            hash_lock_info: HashLockInfo {
                hash_lock: params.hash_lock,
                secret: order.hash_lock_info.secret,
            },
            safety_deposit,
            resolver_fee: params.resolver_fee,
            status: OrderStatus::Locked,
            taker: Some(ctx.caller),
            ethereum_escrow: Some(
                EthereumEscrowInfo {
                    escrow_address: params.ethereum_escrow_address,
                    tx_hash: None,
                    block_number: None,
                },
            ),
            ..order
        };
        let ghost v0 = self@;
        let ghost c0 = self.value_custodied();
        self.orders.insert(order_hash, updated);
        self.escrow_addresses.insert(order_hash, escrow_address);
        self.active_hash_locks.insert(params.hash_lock, order_hash);
        self.resolver_stakes.insert(params.resolver, safety_deposit);
        self.events.push(
            EscrowEvent::EscrowDeployed(
                EscrowDeployed {
                    order_hash,
                    resolver: params.resolver,
                    hash_lock: params.hash_lock,
                    ethereum_escrow: params.ethereum_escrow_address,
                    safety_deposit,
                },
            ),
        );
        proof {
            lemma_lock_keeps_invariant(v0, self@, order_hash, params.hash_lock);
        }
        self.received = Ghost(self.received@ + ctx.transferred as int);
        proof {
            assert(self@ == after_lock(v0, *ctx, order_hash, params));
            lemma_lock_conserves_value(v0, *ctx, order_hash, params);
        }
        Ok(())
    }

    /// Locks a pending order through the resolver interface, from escrow
    /// immutables; the taker named there becomes the order's resolver.
    pub fn deploy_src(
        &mut self,
        ctx: &CallContext,
        immutables: EscrowImmutables,
        order_hash: Hash32,
        _signature: [u8; 65],
        _amount: Balance,
        _args: Vec<u8>,
    ) -> (r: Result<AccountId, Error>)
        requires
            old(self).wf(),
        ensures
            final(self).wf(),
            match lock_error(old(self)@, *ctx, order_hash, immutables.hash_lock) {
                Some(e) => r == Err::<AccountId, Error>(e) && final(self)@ == old(self)@,
                None => r == Ok::<AccountId, Error>(
                    escrow_address_of(stamped_immutables(immutables, *ctx)),
                ) && final(self)@ == after_deploy_src(old(self)@, *ctx, immutables, order_hash),
            },
    {
        self.ensure_not_paused()?;
        let safety_deposit = ctx.transferred;
        if safety_deposit < self.min_safety_deposit {
            return Err(Error::InsufficientDeposit);
        }
        let order = match self.orders.get(&order_hash) {
            Some(o) => o,
            None => return Err(Error::OrderNotFound),
        };
        if !matches!(order.status, OrderStatus::Pending) {
            return Err(Error::InvalidOrderStatus);
        }
        if self.active_hash_locks.contains(&immutables.hash_lock) {
            return Err(Error::HashLockAlreadyUsed);
        }
        let immutables_mem = EscrowImmutables {
            deployed_at: Some(ctx.now),
            safety_deposit,
            ..immutables
        };
        let escrow_address = match self.compute_escrow_address(&immutables_mem) {
            Ok(a) => a,
            Err(e) => return Err(e),
        };
        let updated = FusionOrder {
            status: OrderStatus::Locked,
            safety_deposit,
            hash_lock_info: HashLockInfo {
                hash_lock: immutables.hash_lock,
                secret: order.hash_lock_info.secret,
            },
            resolver: Some(immutables.taker),
            ..order
        };
        let ghost v0 = self@;
        let ghost c0 = self.value_custodied();
        self.orders.insert(order_hash, updated);
        self.escrow_addresses.insert(order_hash, escrow_address);
        self.active_hash_locks.insert(immutables.hash_lock, order_hash);
        self.total_escrows_created = self.total_escrows_created.saturating_add(1);
        self.events.push(
            EscrowEvent::SrcEscrowDeployed(
                SrcEscrowDeployed {
                    order_hash: immutables_mem.order_hash,
                    escrow_address,
                    immutables: immutables_mem,
                    safety_deposit,
                },
            ),
        );
        proof {
            lemma_lock_keeps_invariant(v0, self@, order_hash, immutables.hash_lock);
        }
        self.received = Ghost(self.received@ + ctx.transferred as int);
        proof {
            assert(v0.orders[order_hash] == order);
            assert(custody_of(updated) == custody_of(order) + ctx.transferred);
        }
        Ok(escrow_address)
    }

    /// Records the destination escrow of an order and returns its derived
    /// identity. Value sent along is not custodied: it goes back.
    pub fn deploy_dst(
        &mut self,
        ctx: &CallContext,
        dst_immutables: EscrowImmutables,
        src_cancellation_timestamp: Timestamp,
    ) -> (r: Result<AccountId, Error>)
        requires
            old(self).wf(),
        ensures
            final(self).wf(),
            match deploy_dst_error(old(self)@, dst_immutables) {
                Some(e) => r == Err::<AccountId, Error>(e) && final(self)@ == old(self)@,
                None => r == Ok::<AccountId, Error>(escrow_address_of(dst_immutables)) && final(self)@ == after_deploy_dst(old(self)@, *ctx, dst_immutables, src_cancellation_timestamp),
            },
    {
        self.ensure_not_paused()?;
        let order_hash = dst_immutables.order_hash;
        let order = match self.orders.get(&order_hash) {
            Some(o) => o,
            None => return Err(Error::OrderNotFound),
        };
        let escrow_address = match self.compute_escrow_address(&dst_immutables) {
            Ok(a) => a,
            Err(e) => return Err(e),
        };
        let updated = match order.ethereum_escrow {
            None => FusionOrder {
                ethereum_escrow: Some(
                    EthereumEscrowInfo { escrow_address: zeros20(), tx_hash: None, block_number: None },
                ),
                ..order
            },
            Some(_) => order,
        };
        let ghost v0 = self@;
        let ghost c0 = self.value_custodied();
        self.orders.insert(order_hash, updated);
        self.escrow_addresses.insert(order_hash, escrow_address);
        self.events.push(
            EscrowEvent::DstEscrowDeployed(
                DstEscrowDeployed {
                    order_hash,
                    escrow_address,
                    immutables: dst_immutables,
                    src_cancellation_timestamp,
                },
            ),
        );
        if ctx.transferred > 0 {
            self.transfers.push(Transfer { to: ctx.caller, amount: ctx.transferred });
        }
        proof {
            lemma_same_lock_state_keeps_invariant(v0, self@, order_hash);
        }
        self.received = Ghost(self.received@ + ctx.transferred as int);
        proof {
            assert(custody_of(updated) == custody_of(order));
            if ctx.transferred > 0 {
                lemma_total_paid_push(v0.transfers, Transfer { to: ctx.caller, amount: ctx.transferred });
            }
        }
        Ok(escrow_address)
    }

    // ---- Queries ----

    /// The order stored under `order_hash`.
    pub fn get_order(&self, order_hash: Hash32) -> (r: Option<FusionOrder>)
        requires
            self.wf(),
        ensures
            r == (if self@.orders.contains_key(order_hash) {
                Some(self@.orders[order_hash])
            } else {
                None
            }),
    {
        self.orders.get(&order_hash)
    }

    /// The active order locked behind `hash_lock`.
    pub fn get_order_by_hash_lock(&self, hash_lock: Hash32) -> (r: Option<Hash32>)
        requires
            self.wf(),
        ensures
            r == (if self@.hash_locks.contains_key(hash_lock) {
                Some(self@.hash_locks[hash_lock])
            } else {
                None
            }),
    {
        self.active_hash_locks.get(&hash_lock)
    }

    /// The escrow identity recorded for `order_hash`.
    pub fn get_escrow_address(&self, order_hash: Hash32) -> (r: Option<AccountId>)
        requires
            self.wf(),
        ensures
            r == (if self@.escrow_addresses.contains_key(order_hash) {
                Some(self@.escrow_addresses[order_hash])
            } else {
                None
            }),
    {
        self.escrow_addresses.get(&order_hash)
    }

    /// The escrow parameters of an order as the resolver interface sees them.
    pub fn get_escrow_immutables(&self, order_hash: Hash32) -> (r: Option<EscrowImmutables>)
        requires
            self.wf(),
        ensures
            r == (if self@.orders.contains_key(order_hash) {
                Some(order_immutables(self@.orders[order_hash], order_hash))
            } else {
                None
            }),
    {
        let order = match self.orders.get(&order_hash) {
            Some(o) => o,
            None => return None,
        };
        Some(
            EscrowImmutables {
                order_hash,
                hash_lock: order.hash_lock_info.hash_lock,
                maker: order.maker,
                taker: match order.taker {
                    Some(t) => t,
                    None => order.maker,
                },
                token: order.src_token,
                amount: order.src_amount,
                safety_deposit: order.safety_deposit,
                timelocks: order.time_locks,
                deployed_at: Some(order.created_at),
            },
        )
    }

    /// Whether `resolver` was approved by the owner.
    pub fn is_resolver_approved(&self, resolver: AccountId) -> (r: bool)
        requires
            self.wf(),
        ensures
            r == (self@.approved_resolvers.contains_key(resolver)
                && self@.approved_resolvers[resolver]),
    {
        match self.approved_resolvers.get(&resolver) {
            Some(b) => b,
            None => false,
        }
    }

    /// The gross amount of all executed orders.
    pub fn get_total_volume(&self) -> (r: Balance)
        ensures
            r == self@.total_volume,
    {
        self.total_volume
    }

    /// How many escrows the resolver interface deployed.
    pub fn get_total_escrows_created(&self) -> (r: u64)
        ensures
            r == self@.total_escrows_created,
    {
        self.total_escrows_created
    }

    /// Whether the engine is paused.
    pub fn is_paused(&self) -> (r: bool)
        ensures
            r == self@.paused,
    {
        self.paused
    }

    /// The owner.
    pub fn get_owner(&self) -> (r: AccountId)
        ensures
            r == self@.owner,
    {
        self.owner
    }

    /// The counterpart resolver on the other ledger.
    pub fn get_ethereum_resolver(&self) -> (r: [u8; 20])
        ensures
            r == self@.ethereum_resolver,
    {
        self.ethereum_resolver
    }

    /// The nonce the next order will be created with.
    pub fn get_order_nonce(&self) -> (r: u64)
        ensures
            r == self@.order_nonce,
    {
        self.order_nonce
    }

    /// Hands over the payouts decided so far, oldest first, and forgets them.
    pub fn take_transfers(&mut self) -> (r: Vec<Transfer>)
        requires
            old(self).wf(),
        ensures
            final(self).wf(),
            r@ == old(self)@.transfers,
            final(self)@ == (EscrowView {
                transfers: Seq::empty(),
                released: old(self)@.released + total_paid(old(self)@.transfers),
                ..old(self)@
            }),
    {
        let mut taken = Vec::new();
        std::mem::swap(&mut taken, &mut self.transfers);
        self.released = Ghost(self.released@ + total_paid(taken@));
        proof {
            assert(total_paid(self.transfers@) == 0);
        }
        taken
    }

    /// Hands over the events logged so far, oldest first, and forgets them.
    pub fn take_events(&mut self) -> (r: Vec<EscrowEvent>)
        requires
            old(self).wf(),
        ensures
            final(self).wf(),
            r@ == old(self)@.events,
            final(self)@ == (EscrowView { events: Seq::empty(), ..old(self)@ }),
    {
        let mut taken = Vec::new();
        std::mem::swap(&mut taken, &mut self.events);
        taken
    }

    /// The protocol's cut of `amount`.
    pub fn calculate_protocol_fee(&self, amount: Balance) -> (r: Result<Balance, Error>)
        ensures
            r == (if crate::settlement::fee_fits(amount, self@.protocol_fee_bps) {
                Ok::<Balance, Error>(
                    crate::settlement::protocol_fee_of(amount as int, self@.protocol_fee_bps as int) as u128,
                )
            } else {
                Err(Error::ArithmeticOverflow)
            }),
    {
        match crate::settlement::protocol_fee(amount, self.protocol_fee_bps) {
            Some(fee) => Ok(fee),
            None => Err(Error::ArithmeticOverflow),
        }
    }

    /// Whether an order can still be withdrawn from at `current_time`.
    pub fn check_withdrawal_timelock(&self, order: &FusionOrder, current_time: Timestamp) -> (r:
        Result<(), Error>)
        ensures
            r == (if current_time <= order.time_locks.fill_deadline {
                Ok::<(), Error>(())
            } else {
                Err(Error::DeadlineExpired)
            }),
    {
        if current_time <= order.time_locks.fill_deadline {
            return Ok(());
        }
        Err(Error::DeadlineExpired)
    }

    /// Whether the resolver interface may cancel an order at `current_time`.
    pub fn check_cancellation_timelock(&self, order: &FusionOrder, current_time: Timestamp) -> (r:
        Result<(), Error>)
        ensures
            r == (if cancellation_open(*order, current_time) {
                Ok::<(), Error>(())
            } else {
                Err(Error::TimelockNotExpired)
            }),
    {
        if current_time > order.time_locks.private_cancellation || current_time
            > order.time_locks.fill_deadline {
            return Ok(());
        }
        Err(Error::TimelockNotExpired)
    }

    /// Appends the payouts that settle `split` of `order`.
    fn push_settlement(&mut self, order: &FusionOrder, split: FeeSplit)
        requires
            order.resolver is Some,
            split.net + split.resolver_fee <= u128::MAX,
        ensures
            final(self)@ == (EscrowView {
                transfers: old(self)@.transfers + settlement_payouts(*order, old(self)@.owner, split),
                ..old(self)@
            }),
            final(self).orders == old(self).orders,
            final(self).active_hash_locks == old(self).active_hash_locks,
            final(self).escrow_addresses == old(self).escrow_addresses,
            final(self).approved_resolvers == old(self).approved_resolvers,
            final(self).resolver_stakes == old(self).resolver_stakes,
            final(self).trusted_relayers == old(self).trusted_relayers,
    {
        let resolver = match order.resolver {
            Some(r) => r,
            None => order.maker,
        };
        let ghost t0 = self.transfers@;
        match order.direction {
            SwapDirection::PolkadotToEthereum => {
                self.transfers.push(Transfer { to: resolver, amount: split.net + split.resolver_fee });
            },
            SwapDirection::EthereumToPolkadot => {
                self.transfers.push(Transfer { to: order.maker, amount: split.net });
                if split.resolver_fee > 0 {
                    self.transfers.push(Transfer { to: resolver, amount: split.resolver_fee });
                }
            },
        }
        if split.protocol_fee > 0 {
            self.transfers.push(Transfer { to: self.owner, amount: split.protocol_fee });
        }
        assert(self.transfers@ =~= t0 + settlement_payouts(*order, self.owner, split));
    }

    /// Appends the release of `order`'s safety deposit, if one is held.
    fn push_deposit_release(&mut self, order: &FusionOrder)
        ensures
            final(self)@ == (EscrowView {
                transfers: old(self)@.transfers + deposit_release(*order),
                ..old(self)@
            }),
            final(self).orders == old(self).orders,
            final(self).active_hash_locks == old(self).active_hash_locks,
            final(self).escrow_addresses == old(self).escrow_addresses,
            final(self).approved_resolvers == old(self).approved_resolvers,
            final(self).resolver_stakes == old(self).resolver_stakes,
            final(self).trusted_relayers == old(self).trusted_relayers,
    {
        let ghost t0 = self.transfers@;
        if order.safety_deposit > 0 {
            match order.resolver {
                Some(r) => {
                    self.transfers.push(Transfer { to: r, amount: order.safety_deposit });
                },
                None => {},
            }
        }
        assert(self.transfers@ =~= t0 + deposit_release(*order));
    }

    /// Appends the refund and deposit release of a cancelled order.
    fn push_cancel_payouts(&mut self, order: &FusionOrder)
        requires
            order.filled_amount <= order.src_amount,
        ensures
            final(self)@ == (EscrowView {
                transfers: old(self)@.transfers + cancel_payouts(*order),
                ..old(self)@
            }),
            final(self).orders == old(self).orders,
            final(self).active_hash_locks == old(self).active_hash_locks,
            final(self).escrow_addresses == old(self).escrow_addresses,
            final(self).approved_resolvers == old(self).approved_resolvers,
            final(self).resolver_stakes == old(self).resolver_stakes,
            final(self).trusted_relayers == old(self).trusted_relayers,
    {
        let ghost t0 = self.transfers@;
        let refund = order.src_amount - order.filled_amount;
        if refund > 0 {
            self.transfers.push(Transfer { to: order.maker, amount: refund });
        }
        let ghost t1 = self.transfers@;
        self.push_deposit_release(order);
        assert(self.transfers@ =~= t0 + cancel_payouts(*order));
    }

    /// Executes a locked or partly filled order with its secret.
    pub fn execute_swap(&mut self, ctx: &CallContext, order_hash: Hash32, secret: [u8; 32]) -> (r:
        Result<(), Error>)
        requires
            old(self).wf(),
        ensures
            final(self).wf(),
            match execute_error(old(self)@, *ctx, order_hash, secret) {
                Some(e) => r == Err::<(), Error>(e) && final(self)@ == old(self)@,
                None => r == Ok::<(), Error>(()) && final(self)@ == after_execute(
                    old(self)@,
                    *ctx,
                    order_hash,
                    secret,
                ),
            },
    {
        self.execute_swap_internal(ctx, order_hash, secret)
    }

    fn execute_swap_internal(&mut self, ctx: &CallContext, order_hash: Hash32, secret: [u8; 32]) -> (r:
        Result<(), Error>)
        requires
            old(self).wf(),
        ensures
            final(self).wf(),
            match execute_error(old(self)@, *ctx, order_hash, secret) {
                Some(e) => r == Err::<(), Error>(e) && final(self)@ == old(self)@,
                None => r == Ok::<(), Error>(()) && final(self)@ == after_execute(
                    old(self)@,
                    *ctx,
                    order_hash,
                    secret,
                ),
            },
    {
        self.ensure_not_paused()?;
        let order = match self.orders.get(&order_hash) {
            Some(o) => o,
            None => return Err(Error::OrderNotFound),
        };
        if !matches!(order.status, OrderStatus::Locked | OrderStatus::PartialFill) {
            return Err(Error::InvalidOrderStatus);
        }
        if ctx.now > order.time_locks.fill_deadline {
            return Err(Error::DeadlineExpired);
        }
        let computed_hash = hash_secret(&secret);
        if !bytes32_eq(&computed_hash, &order.hash_lock_info.hash_lock) {
            return Err(Error::InvalidSecret);
        }
        if matches!(order.direction, SwapDirection::PolkadotToEthereum)
            && order.ethereum_escrow.is_none() {
            return Err(Error::EthereumEscrowNotSet);
        }
        let remaining = order.src_amount - order.filled_amount;
        let split = match split_amount(remaining, self.protocol_fee_bps, order.resolver_fee) {
            Some(sp) => sp,
            None => return Err(Error::ArithmeticOverflow),
        };
        let new_volume = match self.total_volume.checked_add(order.src_amount) {
            Some(t) => t,
            None => return Err(Error::ArithmeticOverflow),
        };
        let ghost v0 = self@;
        let ghost c0 = self.value_custodied();
        self.push_settlement(&order, split);
        self.push_deposit_release(&order);
        let updated = FusionOrder {
            status: OrderStatus::Executed,
            filled_amount: order.src_amount,
            hash_lock_info: HashLockInfo {
                hash_lock: order.hash_lock_info.hash_lock,
                secret: Some(secret),
            },
            ..order
        };
        self.orders.insert(order_hash, updated);
        self.active_hash_locks.remove(&order.hash_lock_info.hash_lock);
        self.total_volume = new_volume;
        self.events.push(
            EscrowEvent::SwapExecuted(
                SwapExecuted {
                    order_hash,
                    resolver: ctx.caller,
                    secret,
                    amount_filled: order.src_amount,
                },
            ),
        );
        proof {
            lemma_release_keeps_invariant(v0, self@, order_hash);
        }
        proof {
            assert(self@ == after_execute(v0, *ctx, order_hash, secret));
            lemma_execute_conserves_value(v0, *ctx, order_hash, secret);
        }
        Ok(())
    }

    /// Withdraws through the resolver interface: the secret and deadline are
    /// checked against the recorded escrow, then the order is executed.
    pub fn withdraw(
        &mut self,
        ctx: &CallContext,
        order_hash: Hash32,
        secret: [u8; 32],
        _immutables: EscrowImmutables,
    ) -> (r: Result<(), Error>)
        requires
            old(self).wf(),
        ensures
            final(self).wf(),
            match withdraw_error(old(self)@, *ctx, order_hash, secret) {
                Some(e) => r == Err::<(), Error>(e) && final(self)@ == old(self)@,
                None => r == Ok::<(), Error>(()) && final(self)@ == after_withdraw(
                    old(self)@,
                    *ctx,
                    order_hash,
                    secret,
                ),
            },
    {
        let escrow_address = match self.escrow_addresses.get(&order_hash) {
            Some(a) => a,
            None => return Err(Error::EscrowNotFound),
        };
        let order = match self.orders.get(&order_hash) {
            Some(o) => o,
            None => return Err(Error::OrderNotFound),
        };
        let computed_hash = hash_secret(&secret);
        if !bytes32_eq(&computed_hash, &order.hash_lock_info.hash_lock) {
            return Err(Error::InvalidSecret);
        }
        self.check_withdrawal_timelock(&order, ctx.now)?;
        self.execute_swap_internal(ctx, order_hash, secret)?;
        self.events.push(
            EscrowEvent::EscrowWithdrawal(
                EscrowWithdrawal { order_hash, escrow_address, secret, amount: order.src_amount },
            ),
        );
        Ok(())
    }

    /// Fills part of a locked or partly filled order with its secret.
    pub fn execute_partial_fill(
        &mut self,
        ctx: &CallContext,
        order_hash: Hash32,
        fill_amount: Balance,
        secret: [u8; 32],
    ) -> (r: Result<(), Error>)
        requires
            old(self).wf(),
        ensures
            final(self).wf(),
            match partial_fill_error(old(self)@, *ctx, order_hash, fill_amount, secret) {
                Some(e) => r == Err::<(), Error>(e) && final(self)@ == old(self)@,
                None => r == Ok::<(), Error>(()) && final(self)@ == after_partial_fill(
                    old(self)@,
                    order_hash,
                    fill_amount,
                    secret,
                ),
            },
    {
        self.ensure_not_paused()?;
        let order = match self.orders.get(&order_hash) {
            Some(o) => o,
            None => return Err(Error::OrderNotFound),
        };
        if !matches!(order.status, OrderStatus::Locked | OrderStatus::PartialFill) {
            return Err(Error::InvalidOrderStatus);
        }
        if ctx.now > order.time_locks.fill_deadline {
            return Err(Error::DeadlineExpired);
        }
        let computed_hash = hash_secret(&secret);
        if !bytes32_eq(&computed_hash, &order.hash_lock_info.hash_lock) {
            return Err(Error::InvalidSecret);
        }
        let remaining = order.src_amount - order.filled_amount;
        if fill_amount == 0 || fill_amount > remaining {
            return Err(Error::InvalidAmount);
        }
        if matches!(order.direction, SwapDirection::PolkadotToEthereum)
            && order.ethereum_escrow.is_none() {
            return Err(Error::EthereumEscrowNotSet);
        }
        let split = match split_amount(fill_amount, self.protocol_fee_bps, order.resolver_fee) {
            Some(sp) => sp,
            None => return Err(Error::ArithmeticOverflow),
        };
        let filled = order.filled_amount + fill_amount;
        let completes = filled == order.src_amount;
        let mut new_volume = self.total_volume;
        if completes {
            new_volume = match self.total_volume.checked_add(order.src_amount) {
                Some(t) => t,
                None => return Err(Error::ArithmeticOverflow),
            };
        }
        let ghost v0 = self@;
        let ghost c0 = self.value_custodied();
        self.push_settlement(&order, split);
        if completes {
            self.push_deposit_release(&order);
            let updated = FusionOrder {
                status: OrderStatus::Executed,
                filled_amount: filled,
                hash_lock_info: HashLockInfo {
                    hash_lock: order.hash_lock_info.hash_lock,
                    secret: Some(secret),
                },
                ..order
            };
            self.orders.insert(order_hash, updated);
            self.active_hash_locks.remove(&order.hash_lock_info.hash_lock);
            self.total_volume = new_volume;
        } else {
            let updated = FusionOrder {
                status: OrderStatus::PartialFill,
                filled_amount: filled,
                ..order
            };
            self.orders.insert(order_hash, updated);
        }
        self.events.push(
            EscrowEvent::PartialFillExecuted(
                PartialFillExecuted {
                    order_hash,
                    filled_amount: filled,
                    remaining_amount: order.src_amount - filled,
                },
            ),
        );
        proof {
            if completes {
                lemma_release_keeps_invariant(v0, self@, order_hash);
            } else {
                lemma_fill_keeps_invariant(v0, self@, order_hash);
            }
        }
        proof {
            assert(self@ == after_partial_fill(v0, order_hash, fill_amount, secret));
            lemma_partial_fill_conserves_value(v0, *ctx, order_hash, fill_amount, secret);
        }
        Ok(())
    }

    /// Cancels an order: the maker early on or while it is locked, anyone
    /// once its deadline has passed.
    pub fn cancel_order(&mut self, ctx: &CallContext, order_hash: Hash32) -> (r: Result<(), Error>)
        requires
            old(self).wf(),
        ensures
            final(self).wf(),
            match cancel_order_error(old(self)@, *ctx, order_hash) {
                Some(e) => r == Err::<(), Error>(e) && final(self)@ == old(self)@,
                None => r == Ok::<(), Error>(()) && final(self)@ == after_cancel_order(
                    old(self)@,
                    *ctx,
                    order_hash,
                ),
            },
    {
        self.ensure_not_paused()?;
        let order = match self.orders.get(&order_hash) {
            Some(o) => o,
            None => return Err(Error::OrderNotFound),
        };
        let is_maker = bytes32_eq(&ctx.caller, &order.maker);
        let reason = match order.status {
            OrderStatus::Pending => {
                if is_maker && ctx.now <= order.time_locks.private_cancellation {
                    CancelReason::MakerCancellation
                } else {
                    return Err(Error::Unauthorized);
                }
            },
            OrderStatus::Locked | OrderStatus::PartialFill => {
                if ctx.now > order.time_locks.fill_deadline {
                    CancelReason::TimelockExpired
                } else if is_maker {
                    CancelReason::MakerCancellation
                } else {
                    return Err(Error::Unauthorized);
                }
            },
            _ => return Err(Error::InvalidOrderStatus),
        };
        let refund_amount = order.src_amount - order.filled_amount;
        let ghost v0 = self@;
        self.finish_cancel(&order_hash, &order);
        self.events.push(
            EscrowEvent::OrderCancelled(OrderCancelled { order_hash, refund_amount, reason }),
        );
        Ok(())
    }

    /// Cancels through the resolver interface, once the maker's private
    /// window or the deadline has passed.
    pub fn cancel(&mut self, ctx: &CallContext, order_hash: Hash32, _immutables: EscrowImmutables) -> (r:
        Result<(), Error>)
        requires
            old(self).wf(),
        ensures
            final(self).wf(),
            match cancel_error(old(self)@, *ctx, order_hash) {
                Some(e) => r == Err::<(), Error>(e) && final(self)@ == old(self)@,
                None => r == Ok::<(), Error>(()) && final(self)@ == after_cancel(
                    old(self)@,
                    order_hash,
                ),
            },
    {
        let escrow_address = match self.escrow_addresses.get(&order_hash) {
            Some(a) => a,
            None => return Err(Error::EscrowNotFound),
        };
        let order = match self.orders.get(&order_hash) {
            Some(o) => o,
            None => return Err(Error::OrderNotFound),
        };
        if matches!(order.status, OrderStatus::Executed | OrderStatus::Cancelled | OrderStatus::Refunded) {
            return Err(Error::InvalidOrderStatus);
        }
        self.check_cancellation_timelock(&order, ctx.now)?;
        let refund_amount = order.src_amount - order.filled_amount;
        self.finish_cancel(&order_hash, &order);
        self.events.push(
            EscrowEvent::EscrowCancellation(
                EscrowCancellation { order_hash, escrow_address, refund_amount },
            ),
        );
        Ok(())
    }

    /// Marks a live order cancelled, releases its hash lock and returns its
    /// funds.
    fn finish_cancel(&mut self, order_hash: &Hash32, order: &FusionOrder)
        requires
            old(self).wf(),
            old(self)@.orders.contains_key(*order_hash),
            old(self)@.orders[*order_hash] == *order,
            !is_terminal(order.status),
        ensures
            final(self).wf(),
            final(self)@ == cancelled(old(self)@, *order_hash),
    {
        let ghost v0 = self@;
        let ghost c0 = self.value_custodied();
        self.push_cancel_payouts(order);
        let updated = FusionOrder { status: OrderStatus::Cancelled, ..*order };
        self.orders.insert(*order_hash, updated);
        if matches!(order.status, OrderStatus::Locked | OrderStatus::PartialFill) {
            self.active_hash_locks.remove(&order.hash_lock_info.hash_lock);
        }
        proof {
            if is_active(order.status) {
                lemma_release_keeps_invariant(v0, self@, *order_hash);
            } else {
                lemma_pending_cancel_keeps_invariant(v0, self@, *order_hash);
            }
        }
        proof {
            assert(self@ == cancelled(v0, *order_hash));
            lemma_cancel_conserves_value(v0, *order_hash);
        }
    }

    /// Runs owner-requested calls against other contracts; each target is
    /// paired with its argument bytes.
    pub fn arbitrary_calls(
        &mut self,
        ctx: &CallContext,
        targets: Vec<AccountId>,
        arguments: Vec<Vec<u8>>,
    ) -> (r: Result<(), Error>)
        requires
            old(self).wf(),
        ensures
            final(self).wf(),
            final(self)@ == old(self)@,
            r == (if ctx.caller != old(self)@.owner {
                Err(Error::Unauthorized)
            } else if targets@.len() != arguments@.len() {
                Err(Error::LengthMismatch)
            } else {
                Ok::<(), Error>(())
            }),
    {
        self.ensure_owner(ctx)?;
        if targets.len() != arguments.len() {
            return Err(Error::LengthMismatch);
        }
        let mut i: usize = 0;
        while i < targets.len()
            invariant
                0 <= i <= targets@.len(),
                targets@.len() == arguments@.len(),
            decreases targets@.len() - i,
        {
            let _result = self.execute_arbitrary_call(targets[i], arguments[i].as_slice());
            i = i + 1;
        }
        Ok(())
    }

    /// A call to another contract. Calls that leave this ledger's state are
    /// made by the host, so here every call is accepted as it stands.
    fn execute_arbitrary_call(&self, _target: AccountId, _args: &[u8]) -> (r: Result<(), Error>)
        ensures
            r == Ok::<(), Error>(()),
    {
        Ok(())
    }
}

/// The escrow parameters an order shows to the resolver interface.
pub open spec fn order_immutables(order: FusionOrder, order_hash: Hash32) -> EscrowImmutables {
    EscrowImmutables {
        order_hash,
        hash_lock: order.hash_lock_info.hash_lock,
        maker: order.maker,
        taker: match order.taker {
            Some(t) => t,
            None => order.maker,
        },
        token: order.src_token,
        amount: order.src_amount,
        safety_deposit: order.safety_deposit,
        timelocks: order.time_locks,
        deployed_at: Some(order.created_at),
    }
}

/// Locking a pending order behind a fresh hash lock keeps the invariants.
proof fn lemma_lock_keeps_invariant(v0: EscrowView, v: EscrowView, order_hash: Hash32, hl: Hash32)
    requires
        engine_invariant(v0),
        v0.orders.contains_key(order_hash),
        v0.orders[order_hash].status is Pending,
        !v0.hash_locks.contains_key(hl),
        v.orders == v0.orders.insert(order_hash, v.orders[order_hash]),
        v.hash_locks == v0.hash_locks.insert(hl, order_hash),
        v.orders[order_hash].status is Locked,
        v.orders[order_hash].hash_lock_info.hash_lock == hl,
        v.orders[order_hash].hash_lock_info.secret is None,
        v.orders[order_hash].resolver is Some,
        v.orders[order_hash].order_hash == order_hash,
        v.orders[order_hash].filled_amount == 0,
    ensures
        engine_invariant(v),
{
    assert forall|h: Hash32| #[trigger]
        v.orders.contains_key(h) && is_active(v.orders[h].status) implies {
            &&& v.hash_locks.contains_key(v.orders[h].hash_lock_info.hash_lock)
            &&& v.hash_locks[v.orders[h].hash_lock_info.hash_lock] == h
            &&& v.orders[h].resolver is Some
        } by {
        if h != order_hash {
            assert(v0.orders.contains_key(h));
            assert(v0.hash_locks.contains_key(v0.orders[h].hash_lock_info.hash_lock));
        }
    }
    assert forall|k: Hash32| #[trigger] v.hash_locks.contains_key(k) implies {
        &&& v.orders.contains_key(v.hash_locks[k])
        &&& is_active(v.orders[v.hash_locks[k]].status)
        &&& v.orders[v.hash_locks[k]].hash_lock_info.hash_lock == k
    } by {
        if k != hl {
            assert(v0.hash_locks.contains_key(k));
            assert(v0.hash_locks[k] != order_hash);
        }
    }
}

/// Changing an order without touching its status, hash lock, secret,
/// amounts, deposit or resolver keeps the invariants.
proof fn lemma_same_lock_state_keeps_invariant(v0: EscrowView, v: EscrowView, order_hash: Hash32)
    requires
        engine_invariant(v0),
        v0.orders.contains_key(order_hash),
        v.orders == v0.orders.insert(order_hash, v.orders[order_hash]),
        v.hash_locks == v0.hash_locks,
        v.orders[order_hash].status == v0.orders[order_hash].status,
        v.orders[order_hash].hash_lock_info == v0.orders[order_hash].hash_lock_info,
        v.orders[order_hash].resolver == v0.orders[order_hash].resolver,
        v.orders[order_hash].order_hash == v0.orders[order_hash].order_hash,
        v.orders[order_hash].filled_amount == v0.orders[order_hash].filled_amount,
        v.orders[order_hash].src_amount == v0.orders[order_hash].src_amount,
        v.orders[order_hash].safety_deposit == v0.orders[order_hash].safety_deposit,
    ensures
        engine_invariant(v),
{
    assert forall|k: Hash32| #[trigger] v.hash_locks.contains_key(k) implies {
        &&& v.orders.contains_key(v.hash_locks[k])
        &&& is_active(v.orders[v.hash_locks[k]].status)
        &&& v.orders[v.hash_locks[k]].hash_lock_info.hash_lock == k
    } by {
        assert(v0.hash_locks.contains_key(k));
    }
}

} // verus!

verus! {

/// Taking an active order out of the active set (executed or cancelled, with
/// no other change to its hash lock or amounts beyond the fill) keeps the
/// invariants.
proof fn lemma_release_keeps_invariant(v0: EscrowView, v: EscrowView, order_hash: Hash32)
    requires
        engine_invariant(v0),
        v0.orders.contains_key(order_hash),
        is_active(v0.orders[order_hash].status),
        v.orders == v0.orders.insert(order_hash, v.orders[order_hash]),
        v.hash_locks == v0.hash_locks.remove(v0.orders[order_hash].hash_lock_info.hash_lock),
        is_terminal(v.orders[order_hash].status),
        v.orders[order_hash].hash_lock_info.hash_lock == v0.orders[order_hash].hash_lock_info.hash_lock,
        v.orders[order_hash].hash_lock_info.secret is Some ==> hash_of_secret(
            v.orders[order_hash].hash_lock_info.secret->0,
        ) == v.orders[order_hash].hash_lock_info.hash_lock,
        v.orders[order_hash].resolver == v0.orders[order_hash].resolver,
        v.orders[order_hash].order_hash == order_hash,
        v.orders[order_hash].filled_amount <= v.orders[order_hash].src_amount,
        v.orders[order_hash].safety_deposit == v0.orders[order_hash].safety_deposit,
    ensures
        engine_invariant(v),
{
    let hl = v0.orders[order_hash].hash_lock_info.hash_lock;
    assert forall|h: Hash32| #[trigger]
        v.orders.contains_key(h) && is_active(v.orders[h].status) implies {
            &&& v.hash_locks.contains_key(v.orders[h].hash_lock_info.hash_lock)
            &&& v.hash_locks[v.orders[h].hash_lock_info.hash_lock] == h
            &&& v.orders[h].resolver is Some
        } by {
        assert(h != order_hash);
        assert(v0.orders.contains_key(h));
        assert(v0.hash_locks.contains_key(v0.orders[h].hash_lock_info.hash_lock));
        assert(v0.orders[h].hash_lock_info.hash_lock != hl);
    }
    assert forall|k: Hash32| #[trigger] v.hash_locks.contains_key(k) implies {
        &&& v.orders.contains_key(v.hash_locks[k])
        &&& is_active(v.orders[v.hash_locks[k]].status)
        &&& v.orders[v.hash_locks[k]].hash_lock_info.hash_lock == k
    } by {
        assert(v0.hash_locks.contains_key(k));
        assert(k != hl);
        assert(v0.hash_locks[k] != order_hash);
    }
}

/// Filling part of an active order, which stays active, keeps the
/// invariants.
proof fn lemma_fill_keeps_invariant(v0: EscrowView, v: EscrowView, order_hash: Hash32)
    requires
        engine_invariant(v0),
        v0.orders.contains_key(order_hash),
        is_active(v0.orders[order_hash].status),
        v.orders == v0.orders.insert(order_hash, v.orders[order_hash]),
        v.hash_locks == v0.hash_locks,
        v.orders[order_hash].status is PartialFill,
        v.orders[order_hash].hash_lock_info == v0.orders[order_hash].hash_lock_info,
        v.orders[order_hash].resolver == v0.orders[order_hash].resolver,
        v.orders[order_hash].order_hash == order_hash,
        v.orders[order_hash].filled_amount <= v.orders[order_hash].src_amount,
        v.orders[order_hash].safety_deposit == v0.orders[order_hash].safety_deposit,
    ensures
        engine_invariant(v),
{
    assert forall|k: Hash32| #[trigger] v.hash_locks.contains_key(k) implies {
        &&& v.orders.contains_key(v.hash_locks[k])
        &&& is_active(v.orders[v.hash_locks[k]].status)
        &&& v.orders[v.hash_locks[k]].hash_lock_info.hash_lock == k
    } by {
        assert(v0.hash_locks.contains_key(k));
    }
}

/// Cancelling a pending order keeps the invariants.
proof fn lemma_pending_cancel_keeps_invariant(v0: EscrowView, v: EscrowView, order_hash: Hash32)
    requires
        engine_invariant(v0),
        v0.orders.contains_key(order_hash),
        v0.orders[order_hash].status is Pending,
        v.orders == v0.orders.insert(
            order_hash,
            FusionOrder { status: OrderStatus::Cancelled, ..v0.orders[order_hash] },
        ),
        v.hash_locks == v0.hash_locks,
    ensures
        engine_invariant(v),
{
    assert forall|k: Hash32| #[trigger] v.hash_locks.contains_key(k) implies {
        &&& v.orders.contains_key(v.hash_locks[k])
        &&& is_active(v.orders[v.hash_locks[k]].status)
        &&& v.orders[v.hash_locks[k]].hash_lock_info.hash_lock == k
    } by {
        assert(v0.hash_locks.contains_key(k));
        assert(v0.hash_locks[k] != order_hash);
    }
}

} // verus!

verus! {

// ---- Laws ----

/// The total value of a list of payouts.
pub open spec fn total_paid(s: Seq<Transfer>) -> int
    decreases s.len(),
{
    if s.len() == 0 {
        0
    } else {
        total_paid(s.drop_last()) + s.last().amount
    }
}

/// The value a list of payouts sends to `who`.
pub open spec fn paid_to(s: Seq<Transfer>, who: AccountId) -> int
    decreases s.len(),
{
    if s.len() == 0 {
        0
    } else {
        paid_to(s.drop_last(), who) + if s.last().to == who {
            s.last().amount as int
        } else {
            0
        }
    }
}

/// The value the engine holds for one order: what is unfilled plus the
/// safety deposit, while the order is live.
pub open spec fn custody_of(o: FusionOrder) -> int {
    if is_terminal(o.status) {
        0
    } else {
        remaining_of(o) + o.safety_deposit
    }
}

/// `custody_of`, as a function value.
pub open spec fn custody_fn() -> spec_fn(FusionOrder) -> int {
    |o: FusionOrder| custody_of(o)
}

/// A payout added at the end adds its amount.
pub proof fn lemma_total_paid_push(s: Seq<Transfer>, t: Transfer)
    ensures
        total_paid(s.push(t)) == total_paid(s) + t.amount,
{
    assert(s.push(t).drop_last() =~= s);
}

/// Payouts add up across concatenation.
pub proof fn lemma_total_paid_concat(a: Seq<Transfer>, b: Seq<Transfer>)
    ensures
        total_paid(a + b) == total_paid(a) + total_paid(b),
    decreases b.len(),
{
    if b.len() > 0 {
        assert((a + b).drop_last() =~= a + b.drop_last());
        lemma_total_paid_concat(a, b.drop_last());
    } else {
        assert(a + b =~= a);
    }
}

/// Payouts to one party add up across concatenation.
pub proof fn lemma_paid_to_concat(a: Seq<Transfer>, b: Seq<Transfer>, who: AccountId)
    ensures
        paid_to(a + b, who) == paid_to(a, who) + paid_to(b, who),
    decreases b.len(),
{
    if b.len() > 0 {
        assert((a + b).drop_last() =~= a + b.drop_last());
        lemma_paid_to_concat(a, b.drop_last(), who);
    } else {
        assert(a + b =~= a);
    }
}

proof fn lemma_total_paid_one(t: Transfer)
    ensures
        total_paid(seq![t]) == t.amount,
{
    assert(seq![t].drop_last() =~= Seq::<Transfer>::empty());
    assert(total_paid(Seq::<Transfer>::empty()) == 0);
    assert(seq![t].last() == t);
}

proof fn lemma_paid_to_one(t: Transfer, who: AccountId)
    ensures
        paid_to(seq![t], who) == if t.to == who {
            t.amount as int
        } else {
            0
        },
{
    assert(seq![t].drop_last() =~= Seq::<Transfer>::empty());
    assert(paid_to(Seq::<Transfer>::empty(), who) == 0);
    assert(seq![t].last() == t);
}

/// Every locked or partly filled order is found through its hash lock.
pub proof fn lemma_active_order_indexed(e: &FusionPolkadotEscrow, order_hash: Hash32)
    requires
        e.wf(),
        e@.orders.contains_key(order_hash),
        is_active(e@.orders[order_hash].status),
    ensures
        e@.hash_locks.contains_key(e@.orders[order_hash].hash_lock_info.hash_lock),
        e@.hash_locks[e@.orders[order_hash].hash_lock_info.hash_lock] == order_hash,
{
}

/// No order ever records more filled than its source amount.
pub proof fn lemma_fill_within_amount(e: &FusionPolkadotEscrow, order_hash: Hash32)
    requires
        e.wf(),
        e@.orders.contains_key(order_hash),
    ensures
        e@.orders[order_hash].filled_amount <= e@.orders[order_hash].src_amount,
{
}

/// Funds conservation: all value the engine has accepted is either handed
/// over for payout, owed in a pending payout, or held for a live order (its
/// unfilled amount plus its safety deposit). A fresh engine holds nothing,
/// and every message keeps this.
pub proof fn lemma_funds_conserved(e: &FusionPolkadotEscrow)
    requires
        e.wf(),
    ensures
        e@.received == e@.released + total_paid(e@.transfers) + e.value_custodied(),
{
}

/// Two distinct live orders never share a hash lock.
pub proof fn lemma_hash_locks_unique(e: &FusionPolkadotEscrow, h1: Hash32, h2: Hash32)
    requires
        e.wf(),
        e@.orders.contains_key(h1),
        e@.orders.contains_key(h2),
        is_active(e@.orders[h1].status),
        is_active(e@.orders[h2].status),
        h1 != h2,
    ensures
        e@.orders[h1].hash_lock_info.hash_lock != e@.orders[h2].hash_lock_info.hash_lock,
{
}

/// On an existing order of a running engine whose settlement can be
/// computed, `execute_swap` succeeds exactly when the secret opens the hash
/// lock, the order is locked or partly filled, and the deadline has not
/// passed.
pub proof fn lemma_execute_succeeds_iff(v: EscrowView, ctx: CallContext, order_hash: Hash32, secret: [u8; 32])
    requires
        engine_invariant(v),
        !v.paused,
        v.orders.contains_key(order_hash),
        !(v.orders[order_hash].direction is PolkadotToEthereum && v.orders[order_hash].ethereum_escrow is None),
        splittable(remaining_of(v.orders[order_hash]) as u128, v.protocol_fee_bps),
        v.total_volume + v.orders[order_hash].src_amount <= u128::MAX,
    ensures
        execute_error(v, ctx, order_hash, secret) is None <==> (hash_of_secret(secret)
            == v.orders[order_hash].hash_lock_info.hash_lock && is_active(
            v.orders[order_hash].status,
        ) && ctx.now <= v.orders[order_hash].time_locks.fill_deadline),
{
}

/// Once a live (locked or partly filled) order's deadline has passed, any
/// caller may cancel it; before that, only its maker can cancel anything.
pub proof fn lemma_cancel_rights(v: EscrowView, ctx: CallContext, order_hash: Hash32)
    requires
        !v.paused,
        v.orders.contains_key(order_hash),
    ensures
        is_active(v.orders[order_hash].status) && ctx.now > v.orders[order_hash].time_locks.fill_deadline
            ==> cancel_order_error(v, ctx, order_hash) is None,
        cancel_order_error(v, ctx, order_hash) is None && ctx.now
            <= v.orders[order_hash].time_locks.fill_deadline ==> ctx.caller
            == v.orders[order_hash].maker,
        cancel_order_error(v, ctx, order_hash) is None && v.orders[order_hash].status is Pending
            ==> ctx.caller == v.orders[order_hash].maker && ctx.now
            <= v.orders[order_hash].time_locks.private_cancellation,
{
}

/// Creating an order and having its maker cancel it before any lock gives
/// the maker back exactly what they sent, and pays no one else.
pub proof fn lemma_create_then_cancel_refunds_maker(
    v: EscrowView,
    ctx: CallContext,
    p: CreateOrderParams,
    ctx2: CallContext,
)
    requires
        engine_invariant(v),
        create_order_error(v, ctx, p) is None,
        ctx2.caller == ctx.caller,
        ctx2.now <= ctx.now + PRIVATE_CANCELLATION_PERIOD,
    ensures
        ({
            let key = order_hash_of(ctx.caller, p, v.order_nonce, ctx.now);
            let v1 = after_create(v, ctx, p);
            let v2 = after_cancel_order(v1, ctx2, key);
            &&& cancel_order_error(v1, ctx2, key) is None
            &&& v2.transfers.subrange(0, v.transfers.len() as int) == v.transfers
            &&& paid_to(v2.transfers.subrange(v.transfers.len() as int, v2.transfers.len() as int), ctx.caller)
                == ctx.transferred
            &&& total_paid(v2.transfers.subrange(v.transfers.len() as int, v2.transfers.len() as int))
                == ctx.transferred
        }),
{
    let key = order_hash_of(ctx.caller, p, v.order_nonce, ctx.now);
    let v1 = after_create(v, ctx, p);
    let v2 = after_cancel_order(v1, ctx2, key);
    let o = created_order(key, ctx, p);
    assert(v1.orders[key] == o);
    let excess: Seq<Transfer> = if ctx.transferred > p.src_amount {
        seq![Transfer { to: ctx.caller, amount: (ctx.transferred - p.src_amount) as u128 }]
    } else {
        Seq::empty()
    };
    assert(v1.transfers =~= v.transfers + excess);
    let refund = cancel_payouts(o);
    assert(deposit_release(o) =~= Seq::<Transfer>::empty());
    assert(v2.transfers =~= v.transfers + (excess + refund));
    let fresh = v2.transfers.subrange(v.transfers.len() as int, v2.transfers.len() as int);
    assert(fresh =~= excess + refund);
    lemma_total_paid_concat(excess, refund);
    lemma_paid_to_concat(excess, refund, ctx.caller);
    assert(refund =~= (if p.src_amount > 0 {
        seq![Transfer { to: ctx.caller, amount: p.src_amount }]
    } else {
        Seq::empty()
    }) + Seq::<Transfer>::empty());
    if p.src_amount > 0 {
        lemma_total_paid_one(Transfer { to: ctx.caller, amount: p.src_amount });
        lemma_paid_to_one(Transfer { to: ctx.caller, amount: p.src_amount }, ctx.caller);
        assert(refund =~= seq![Transfer { to: ctx.caller, amount: p.src_amount }]);
    } else {
        assert(refund =~= Seq::<Transfer>::empty());
    }
    if ctx.transferred > p.src_amount {
        lemma_total_paid_one(Transfer { to: ctx.caller, amount: (ctx.transferred - p.src_amount) as u128 });
        lemma_paid_to_one(
            Transfer { to: ctx.caller, amount: (ctx.transferred - p.src_amount) as u128 },
            ctx.caller,
        );
    }
}

/// The payouts that settle an amount add up to its protocol fee, resolver
/// fee and net amount, which add up to the amount itself.
pub proof fn lemma_settlement_pays_amount(order: FusionOrder, owner: AccountId, amount: u128, bps: u32)
    requires
        splittable(amount, bps),
        order.resolver is Some,
    ensures
        ({
            let split = split_of(amount, bps, order.resolver_fee);
            &&& split.protocol_fee + split.resolver_fee + split.net == amount
            &&& total_paid(settlement_payouts(order, owner, split)) == amount
        }),
{
    let split = split_of(amount, bps, order.resolver_fee);
    crate::settlement::lemma_split_sums_to_amount(amount, bps, order.resolver_fee);
    let resolver = order.resolver->0;
    let protocol = if split.protocol_fee > 0 {
        seq![Transfer { to: owner, amount: split.protocol_fee }]
    } else {
        Seq::empty()
    };
    if split.protocol_fee > 0 {
        lemma_total_paid_one(Transfer { to: owner, amount: split.protocol_fee });
    }
    assert(total_paid(protocol) == split.protocol_fee);
    match order.direction {
        SwapDirection::PolkadotToEthereum => {
            let first = seq![Transfer { to: resolver, amount: (split.net + split.resolver_fee) as u128 }];
            lemma_total_paid_one(first[0]);
            lemma_total_paid_concat(first, protocol);
        },
        SwapDirection::EthereumToPolkadot => {
            let first = seq![Transfer { to: order.maker, amount: split.net }];
            let fee: Seq<Transfer> = if split.resolver_fee > 0 {
                seq![Transfer { to: resolver, amount: split.resolver_fee }]
            } else {
                Seq::empty()
            };
            lemma_total_paid_one(first[0]);
            if split.resolver_fee > 0 {
                lemma_total_paid_one(fee[0]);
            }
            assert(total_paid(fee) == split.resolver_fee);
            lemma_total_paid_concat(first, fee);
            lemma_total_paid_concat(first + fee, protocol);
        },
    }
}

/// Executing a live order pays out exactly the value held for it: what was
/// unfilled, settled by fee split, and the safety deposit.
pub proof fn lemma_execute_conserves_value(v: EscrowView, ctx: CallContext, order_hash: Hash32, secret: [u8; 32])
    requires
        engine_invariant(v),
        execute_error(v, ctx, order_hash, secret) is None,
    ensures
        ({
            let v2 = after_execute(v, ctx, order_hash, secret);
            &&& custody_of(v2.orders[order_hash]) == 0
            &&& total_paid(v2.transfers) == total_paid(v.transfers) + custody_of(v.orders[order_hash])
        }),
{
    let order = v.orders[order_hash];
    let amount = remaining_of(order) as u128;
    let split = split_of(amount, v.protocol_fee_bps, order.resolver_fee);
    lemma_settlement_pays_amount(order, v.owner, amount, v.protocol_fee_bps);
    let pay = settlement_payouts(order, v.owner, split);
    let dep = deposit_release(order);
    if order.safety_deposit > 0 {
        lemma_total_paid_one(Transfer { to: order.resolver->0, amount: order.safety_deposit });
    }
    assert(total_paid(dep) == order.safety_deposit);
    lemma_total_paid_concat(v.transfers, pay);
    lemma_total_paid_concat(v.transfers + pay, dep);
}

/// A partial fill pays out exactly the value it takes off the order: the
/// fill, and the safety deposit when the fill completes the order.
pub proof fn lemma_partial_fill_conserves_value(
    v: EscrowView,
    ctx: CallContext,
    order_hash: Hash32,
    fill_amount: Balance,
    secret: [u8; 32],
)
    requires
        engine_invariant(v),
        partial_fill_error(v, ctx, order_hash, fill_amount, secret) is None,
    ensures
        ({
            let v2 = after_partial_fill(v, order_hash, fill_amount, secret);
            total_paid(v2.transfers) + custody_of(v2.orders[order_hash]) == total_paid(v.transfers)
                + custody_of(v.orders[order_hash])
        }),
{
    let order = v.orders[order_hash];
    let split = split_of(fill_amount, v.protocol_fee_bps, order.resolver_fee);
    lemma_settlement_pays_amount(order, v.owner, fill_amount, v.protocol_fee_bps);
    let pay = settlement_payouts(order, v.owner, split);
    let dep = deposit_release(order);
    if order.safety_deposit > 0 {
        lemma_total_paid_one(Transfer { to: order.resolver->0, amount: order.safety_deposit });
    }
    assert(total_paid(dep) == order.safety_deposit);
    lemma_total_paid_concat(v.transfers, pay);
    lemma_total_paid_concat(v.transfers + pay, dep);
}

/// Cancelling returns exactly the value held for the order.
pub proof fn lemma_cancel_conserves_value(v: EscrowView, order_hash: Hash32)
    requires
        engine_invariant(v),
        v.orders.contains_key(order_hash),
        !is_terminal(v.orders[order_hash].status),
    ensures
        ({
            let v2 = cancelled(v, order_hash);
            &&& custody_of(v2.orders[order_hash]) == 0
            &&& total_paid(v2.transfers) == total_paid(v.transfers) + custody_of(v.orders[order_hash])
        }),
{
    let order = v.orders[order_hash];
    let refund: Seq<Transfer> = if remaining_of(order) > 0 {
        seq![Transfer { to: order.maker, amount: remaining_of(order) as u128 }]
    } else {
        Seq::empty()
    };
    if remaining_of(order) > 0 {
        lemma_total_paid_one(refund[0]);
    }
    let dep = deposit_release(order);
    if order.safety_deposit > 0 {
        lemma_total_paid_one(Transfer { to: order.resolver->0, amount: order.safety_deposit });
    }
    assert(total_paid(dep) == order.safety_deposit);
    lemma_total_paid_concat(refund, dep);
    lemma_total_paid_concat(v.transfers, refund + dep);
}

/// Creating an order holds the source amount for it and sends back any
/// value beyond it: nothing is created or lost.
pub proof fn lemma_create_conserves_value(v: EscrowView, ctx: CallContext, p: CreateOrderParams)
    requires
        create_order_error(v, ctx, p) is None,
    ensures
        ({
            let key = order_hash_of(ctx.caller, p, v.order_nonce, ctx.now);
            let v2 = after_create(v, ctx, p);
            total_paid(v2.transfers) + custody_of(v2.orders[key]) == total_paid(v.transfers)
                + ctx.transferred
        }),
{
    if ctx.transferred > p.src_amount {
        let t = Transfer { to: ctx.caller, amount: (ctx.transferred - p.src_amount) as u128 };
        lemma_total_paid_one(t);
        lemma_total_paid_concat(v.transfers, seq![t]);
        assert(v.transfers.push(t) =~= v.transfers + seq![t]);
    }
}

/// Locking an order holds the value sent with the lock as its deposit.
pub proof fn lemma_lock_conserves_value(v: EscrowView, ctx: CallContext, order_hash: Hash32, params: ResolverParams)
    requires
        engine_invariant(v),
        lock_error(v, ctx, order_hash, params.hash_lock) is None,
    ensures
        ({
            let v2 = after_lock(v, ctx, order_hash, params);
            &&& v2.transfers == v.transfers
            &&& custody_of(v2.orders[order_hash]) == custody_of(v.orders[order_hash])
                + ctx.transferred
        }),
{
}

} // verus!

verus! {

/// The bytes an order hash is computed from determine the order's fields:
/// distinct (maker, source asset, destination asset, amounts, deadline,
/// nonce, creation time) tuples never share them.
pub proof fn lemma_order_seed_injective(
    maker1: AccountId,
    src1: AccountId,
    dst1: [u8; 20],
    src_amount1: u128,
    dst_amount1: u128,
    deadline1: u64,
    nonce1: u64,
    created1: u64,
    maker2: AccountId,
    src2: AccountId,
    dst2: [u8; 20],
    src_amount2: u128,
    dst_amount2: u128,
    deadline2: u64,
    nonce2: u64,
    created2: u64,
)
    requires
        order_seed(maker1, src1, dst1, src_amount1, dst_amount1, deadline1, nonce1, created1)
            == order_seed(maker2, src2, dst2, src_amount2, dst_amount2, deadline2, nonce2, created2),
    ensures
        maker1 == maker2,
        src1 == src2,
        dst1 == dst2,
        src_amount1 == src_amount2,
        dst_amount1 == dst_amount2,
        deadline1 == deadline2,
        nonce1 == nonce2,
        created1 == created2,
{
    broadcast use vstd::array::array_len_matches_n;

    let x = order_seed(maker1, src1, dst1, src_amount1, dst_amount1, deadline1, nonce1, created1);
    let y = order_seed(maker2, src2, dst2, src_amount2, dst_amount2, deadline2, nonce2, created2);
    assert(maker1@.len() == 32 && maker2@.len() == 32);
    assert(src1@.len() == 32 && src2@.len() == 32);
    assert(dst1@.len() == 20 && dst2@.len() == 20);
    assert(x.subrange(0, 32) =~= maker1@);
    assert(y.subrange(0, 32) =~= maker2@);
    assert(x.subrange(32, 64) =~= src1@);
    assert(y.subrange(32, 64) =~= src2@);
    assert(x.subrange(64, 84) =~= dst1@);
    assert(y.subrange(64, 84) =~= dst2@);
    assert(x.subrange(84, 100) =~= le_u128(src_amount1));
    assert(y.subrange(84, 100) =~= le_u128(src_amount2));
    assert(x.subrange(100, 116) =~= le_u128(dst_amount1));
    assert(y.subrange(100, 116) =~= le_u128(dst_amount2));
    assert(x.subrange(116, 124) =~= le_u64(deadline1));
    assert(y.subrange(116, 124) =~= le_u64(deadline2));
    assert(x.subrange(124, 132) =~= le_u64(nonce1));
    assert(y.subrange(124, 132) =~= le_u64(nonce2));
    assert(x.subrange(132, 140) =~= le_u64(created1));
    assert(y.subrange(132, 140) =~= le_u64(created2));
    crate::primitives::lemma_bytes_determine_array(maker1, maker2);
    crate::primitives::lemma_bytes_determine_array(src1, src2);
    crate::primitives::lemma_bytes_determine_array(dst1, dst2);
    crate::primitives::lemma_le_u128_injective(src_amount1, src_amount2);
    crate::primitives::lemma_le_u128_injective(dst_amount1, dst_amount2);
    crate::primitives::lemma_le_u64_injective(deadline1, deadline2);
    crate::primitives::lemma_le_u64_injective(nonce1, nonce2);
    crate::primitives::lemma_le_u64_injective(created1, created2);
}

} // verus!
