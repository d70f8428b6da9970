//! The resolver's side of escrow deployment: escrows keyed by order hash,
//! identities derived from their immutables, and the timelock ladder of
//! relative offsets that decides who may withdraw or cancel, and when.
use vstd::prelude::*;
use crate::keyed_store::KeyedStore;
use crate::primitives::{
    AccountId, Balance, CallContext, Hash32, Timestamp, blake2x256, blake2x256_of, bytes32_eq,
    derive_escrow_address, escrow_seed_of, hash_of_secret, hash_secret,
};
use crate::settlement::Transfer;

verus! {

/// Which way a swap runs.
#[derive(Clone, Copy, Debug, PartialEq, Eq)]
pub enum SwapDirection {
    SourceToDestination,
    DestinationToSource,
}

/// Offsets, in the ledger's time unit, from an escrow's deployment to the
/// start of each window.
#[derive(Clone, Copy, Debug, PartialEq, Eq)]
pub struct TimeLocks {
    pub src_withdrawal: u32,
    pub src_public_withdrawal: u32,
    pub src_cancellation: u32,
    pub src_public_cancellation: u32,
    pub dst_withdrawal: u32,
    pub dst_public_withdrawal: u32,
    pub dst_cancellation: u32,
}

/// The immutable parameters of an escrow.
#[derive(Clone, Copy, Debug, PartialEq, Eq)]
pub struct EscrowImmutables {
    pub order_hash: [u8; 32],
    pub hash_lock: [u8; 32],
    pub maker: AccountId,
    pub taker: AccountId,
    pub token: AccountId,
    pub amount: Balance,
    pub safety_deposit: Balance,
    pub timelocks: TimeLocks,
    pub deployed_at: Option<Timestamp>,
}

/// A signed limit order as the resolver receives it.
#[derive(Clone, Copy, Debug, PartialEq, Eq)]
pub struct Order {
    pub salt: u128,
    pub maker: AccountId,
    pub receiver: AccountId,
    pub maker_asset: AccountId,
    pub taker_asset: [u8; 20],
    pub making_amount: Balance,
    pub taking_amount: Balance,
    pub maker_traits: [u8; 32],
}

/// Packed options of the taker.
#[derive(Clone, Copy, Debug, PartialEq, Eq)]
pub struct TakerTraits {
    pub traits: [u8; 32],
}

/// A source escrow was deployed.
#[derive(Clone, Copy, Debug, PartialEq, Eq)]
pub struct SrcEscrowDeployed {
    pub order_hash: [u8; 32],
    pub escrow_address: AccountId,
    pub immutables: EscrowImmutables,
    pub safety_deposit: Balance,
}

/// A destination escrow was deployed.
#[derive(Clone, Copy, Debug, PartialEq, Eq)]
pub struct DstEscrowDeployed {
    pub order_hash: [u8; 32],
    pub escrow_address: AccountId,
    pub immutables: EscrowImmutables,
    pub src_cancellation_timestamp: Timestamp,
}

/// An escrow was withdrawn from.
#[derive(Clone, Copy, Debug, PartialEq, Eq)]
pub struct EscrowWithdrawal {
    pub order_hash: [u8; 32],
    pub escrow_address: AccountId,
    pub secret: [u8; 32],
    pub amount: Balance,
}

/// An escrow was cancelled.
#[derive(Clone, Copy, Debug, PartialEq, Eq)]
pub struct EscrowCancellation {
    pub order_hash: [u8; 32],
    pub escrow_address: AccountId,
    pub refund_amount: Balance,
}

/// An owner-requested call was made.
#[derive(Clone, Copy, Debug, PartialEq, Eq)]
pub struct ArbitraryCallExecuted {
    pub target: AccountId,
    pub success: bool,
    pub data_hash: [u8; 32],
}

/// One entry of the resolver's audit log.
#[derive(Clone, Copy, Debug, PartialEq, Eq)]
pub enum ResolverEvent {
    SrcEscrowDeployed(SrcEscrowDeployed),
    DstEscrowDeployed(DstEscrowDeployed),
    EscrowWithdrawal(EscrowWithdrawal),
    EscrowCancellation(EscrowCancellation),
    ArbitraryCallExecuted(ArbitraryCallExecuted),
}

/// Why a message was refused.
#[derive(Clone, Copy, Debug, PartialEq, Eq)]
pub enum Error {
    Unauthorized,
    OnlyOwner,
    EscrowNotFound,
    InvalidOrderHash,
    InvalidSecret,
    InvalidImmutables,
    DeadlineExpired,
    TimelockNotExpired,
    NativeTokenSendingFailure,
    TransferFailed,
    InsufficientFunds,
    LengthMismatch,
    InvalidLength,
    ArithmeticOverflow,
}

// ---- The timelock ladder ----

/// The deployment time an escrow's windows count from (zero when unknown).
pub open spec fn deployed_time(im: EscrowImmutables) -> int {
    match im.deployed_at {
        Some(t) => t as int,
        None => 0,
    }
}

/// The absolute start of a window that opens `offset` after deployment.
pub open spec fn window_start(im: EscrowImmutables, offset: u32) -> int {
    deployed_time(im) + offset
}

/// Computes the absolute start of a window, failing when it does not fit
/// in a timestamp.
pub fn window_start_checked(im: &EscrowImmutables, offset: u32) -> (r: Result<Timestamp, Error>)
    ensures
        r == (if window_start(*im, offset) <= u64::MAX {
            Ok::<Timestamp, Error>(window_start(*im, offset) as u64)
        } else {
            Err(Error::ArithmeticOverflow)
        }),
{
    let deployed_at = match im.deployed_at {
        Some(t) => t,
        None => 0,
    };
    match deployed_at.checked_add(offset as u64) {
        Some(t) => Ok(t),
        None => Err(Error::ArithmeticOverflow),
    }
}

/// The taker's private withdrawal window: from `src_withdrawal` until
/// cancellation opens.
pub open spec fn in_private_withdrawal(im: EscrowImmutables, now: Timestamp, caller: AccountId) -> bool {
    caller == im.taker && window_start(im, im.timelocks.src_withdrawal) <= now && now
        < window_start(im, im.timelocks.src_cancellation)
}

/// The public withdrawal window, open to anyone holding the secret: from
/// `src_public_withdrawal` until cancellation opens.
pub open spec fn in_public_withdrawal(im: EscrowImmutables, now: Timestamp) -> bool {
    window_start(im, im.timelocks.src_public_withdrawal) <= now && now < window_start(
        im,
        im.timelocks.src_cancellation,
    )
}

/// The private cancellation window, for the taker or the maker: from
/// `src_cancellation` on.
pub open spec fn in_private_cancellation(im: EscrowImmutables, now: Timestamp, caller: AccountId) -> bool {
    (caller == im.taker || caller == im.maker) && window_start(im, im.timelocks.src_cancellation)
        <= now
}

/// The public cancellation window, open to anyone: from
/// `src_public_cancellation` on.
pub open spec fn in_public_cancellation(im: EscrowImmutables, now: Timestamp) -> bool {
    window_start(im, im.timelocks.src_public_cancellation) <= now
}

/// Whether every window boundary of `im` fits in a timestamp.
pub open spec fn ladder_fits(im: EscrowImmutables) -> bool {
    &&& window_start(im, im.timelocks.src_withdrawal) <= u64::MAX
    &&& window_start(im, im.timelocks.src_public_withdrawal) <= u64::MAX
    &&& window_start(im, im.timelocks.src_cancellation) <= u64::MAX
    &&& window_start(im, im.timelocks.src_public_cancellation) <= u64::MAX
}

/// Whether `caller` may withdraw privately at `now`.
pub fn may_withdraw_private(im: &EscrowImmutables, now: Timestamp, caller: &AccountId) -> (r: Result<bool, Error>)
    ensures
        r == (if ladder_fits(*im) {
            Ok::<bool, Error>(in_private_withdrawal(*im, now, *caller))
        } else {
            Err(Error::ArithmeticOverflow)
        }),
{
    let _ = window_start_checked(im, im.timelocks.src_public_withdrawal)?;
    let _ = window_start_checked(im, im.timelocks.src_public_cancellation)?;
    let start = window_start_checked(im, im.timelocks.src_withdrawal)?;
    let end = window_start_checked(im, im.timelocks.src_cancellation)?;
    Ok(bytes32_eq(caller, &im.taker) && start <= now && now < end)
}

/// Whether anyone holding the secret may withdraw at `now`.
pub fn may_withdraw_public(im: &EscrowImmutables, now: Timestamp) -> (r: Result<bool, Error>)
    ensures
        r == (if ladder_fits(*im) {
            Ok::<bool, Error>(in_public_withdrawal(*im, now))
        } else {
            Err(Error::ArithmeticOverflow)
        }),
{
    let _ = window_start_checked(im, im.timelocks.src_withdrawal)?;
    let start = window_start_checked(im, im.timelocks.src_public_withdrawal)?;
    let end = window_start_checked(im, im.timelocks.src_cancellation)?;
    let _ = window_start_checked(im, im.timelocks.src_public_cancellation)?;
    Ok(start <= now && now < end)
}

/// Whether `caller` may cancel privately at `now`.
pub fn may_cancel_private(im: &EscrowImmutables, now: Timestamp, caller: &AccountId) -> (r: Result<bool, Error>)
    ensures
        r == (if ladder_fits(*im) {
            Ok::<bool, Error>(in_private_cancellation(*im, now, *caller))
        } else {
            Err(Error::ArithmeticOverflow)
        }),
{
    let _ = window_start_checked(im, im.timelocks.src_withdrawal)?;
    let _ = window_start_checked(im, im.timelocks.src_public_withdrawal)?;
    let start = window_start_checked(im, im.timelocks.src_cancellation)?;
    let _ = window_start_checked(im, im.timelocks.src_public_cancellation)?;
    let party = bytes32_eq(caller, &im.taker) || bytes32_eq(caller, &im.maker);
    Ok(party && start <= now)
}

/// Whether anyone may cancel at `now`.
pub fn may_cancel_public(im: &EscrowImmutables, now: Timestamp) -> (r: Result<bool, Error>)
    ensures
        r == (if ladder_fits(*im) {
            Ok::<bool, Error>(in_public_cancellation(*im, now))
        } else {
            Err(Error::ArithmeticOverflow)
        }),
{
    let _ = window_start_checked(im, im.timelocks.src_withdrawal)?;
    let _ = window_start_checked(im, im.timelocks.src_public_withdrawal)?;
    let _ = window_start_checked(im, im.timelocks.src_cancellation)?;
    let start = window_start_checked(im, im.timelocks.src_public_cancellation)?;
    Ok(start <= now)
}

/// The ladder never lets an escrow be withdrawn from and cancelled at the
/// same moment: both withdrawal windows close when cancellation opens.
pub proof fn lemma_withdrawal_and_cancellation_exclusive(
    im: EscrowImmutables,
    now: Timestamp,
    withdrawer: AccountId,
    canceller: AccountId,
)
    ensures
        !((in_private_withdrawal(im, now, withdrawer) || in_public_withdrawal(im, now)) && (
        in_private_cancellation(im, now, canceller) || (in_public_cancellation(im, now)
            && im.timelocks.src_public_cancellation >= im.timelocks.src_cancellation))),
{
}

// ---- The resolver ----

/// The resolver's state, as a mathematical value.
pub struct ResolverView {
    pub owner: AccountId,
    pub escrow_factory: AccountId,
    pub escrows: Map<Hash32, EscrowImmutables>,
    pub escrow_addresses: Map<Hash32, AccountId>,
    pub ethereum_resolver: [u8; 20],
    pub trusted_relayers: Map<AccountId, bool>,
    pub min_safety_deposit: Balance,
    pub total_escrows_created: u64,
    pub transfers: Seq<Transfer>,
    pub events: Seq<ResolverEvent>,
}

/// Deploys and drives escrows on behalf of one resolver.
pub struct PolkadotResolver {
    owner: AccountId,
    escrow_factory: AccountId,
    escrows: KeyedStore<Hash32, EscrowImmutables>,
    escrow_addresses: KeyedStore<Hash32, AccountId>,
    ethereum_resolver: [u8; 20],
    trusted_relayers: KeyedStore<AccountId, bool>,
    min_safety_deposit: Balance,
    total_escrows_created: u64,
    transfers: Vec<Transfer>,
    events: Vec<ResolverEvent>,
}

impl View for PolkadotResolver {
    type V = ResolverView;

    closed spec fn view(&self) -> ResolverView {
        ResolverView {
            owner: self.owner,
            escrow_factory: self.escrow_factory,
            escrows: self.escrows@,
            escrow_addresses: self.escrow_addresses@,
            ethereum_resolver: self.ethereum_resolver,
            trusted_relayers: self.trusted_relayers@,
            min_safety_deposit: self.min_safety_deposit,
            total_escrows_created: self.total_escrows_created,
            transfers: self.transfers@,
            events: self.events@,
        }
    }
}

/// The identity of the escrow bound to `im`.
pub open spec fn escrow_address_of(im: EscrowImmutables) -> AccountId {
    blake2x256_of(
        escrow_seed_of(im.order_hash, im.hash_lock, im.maker, im.taker, im.amount, im.deployed_at),
    )
}

/// `immutables` stamped with the deployment time and the deposit sent.
pub open spec fn stamped(immutables: EscrowImmutables, ctx: CallContext) -> EscrowImmutables {
    EscrowImmutables { deployed_at: Some(ctx.now), safety_deposit: ctx.transferred, ..immutables }
}

/// Saturating increment of the escrow counter.
pub open spec fn bumped(n: u64) -> u64 {
    if n == u64::MAX {
        n
    } else {
        (n + 1) as u64
    }
}

/// The state after a successful `deploy_src`: the deposit is sent on to the
/// escrow's derived identity and the escrow is recorded.
pub open spec fn after_deploy_src(v: ResolverView, ctx: CallContext, immutables: EscrowImmutables) -> ResolverView {
    let im = stamped(immutables, ctx);
    let address = escrow_address_of(im);
    ResolverView {
        escrows: v.escrows.insert(im.order_hash, im),
        escrow_addresses: v.escrow_addresses.insert(im.order_hash, address),
        total_escrows_created: bumped(v.total_escrows_created),
        transfers: v.transfers.push(Transfer { to: address, amount: ctx.transferred }),
        events: v.events.push(
            ResolverEvent::SrcEscrowDeployed(
                SrcEscrowDeployed {
                    order_hash: im.order_hash,
                    escrow_address: address,
                    immutables: im,
                    safety_deposit: ctx.transferred,
                },
            ),
        ),
        ..v
    }
}

/// The state after a successful `deploy_dst`.
pub open spec fn after_deploy_dst(
    v: ResolverView,
    ctx: CallContext,
    dst: EscrowImmutables,
    src_cancellation_timestamp: Timestamp,
) -> ResolverView {
    let address = escrow_address_of(dst);
    ResolverView {
        escrows: v.escrows.insert(dst.order_hash, dst),
        escrow_addresses: v.escrow_addresses.insert(dst.order_hash, address),
        transfers: v.transfers.push(Transfer { to: address, amount: ctx.transferred }),
        events: v.events.push(
            ResolverEvent::DstEscrowDeployed(
                DstEscrowDeployed {
                    order_hash: dst.order_hash,
                    escrow_address: address,
                    immutables: dst,
                    src_cancellation_timestamp,
                },
            ),
        ),
        ..v
    }
}

/// Why `withdraw` refuses, if it does.
pub open spec fn withdraw_error(v: ResolverView, ctx: CallContext, order_hash: Hash32, secret: [u8; 32], im: EscrowImmutables) -> Option<Error> {
    if !v.escrow_addresses.contains_key(order_hash) {
        Some(Error::EscrowNotFound)
    } else if hash_of_secret(secret) != im.hash_lock {
        Some(Error::InvalidSecret)
    } else if window_start(im, im.timelocks.src_withdrawal) > u64::MAX {
        Some(Error::ArithmeticOverflow)
    } else if ctx.now < window_start(im, im.timelocks.src_withdrawal) {
        Some(Error::TimelockNotExpired)
    } else {
        None
    }
}

/// Why `cancel` refuses, if it does.
pub open spec fn cancel_error(v: ResolverView, ctx: CallContext, order_hash: Hash32, im: EscrowImmutables) -> Option<Error> {
    if !v.escrow_addresses.contains_key(order_hash) {
        Some(Error::EscrowNotFound)
    } else if window_start(im, im.timelocks.src_cancellation) > u64::MAX {
        Some(Error::ArithmeticOverflow)
    } else if ctx.now < window_start(im, im.timelocks.src_cancellation) {
        Some(Error::TimelockNotExpired)
    } else {
        None
    }
}

/// The log entries of a batch of owner-requested calls.
pub open spec fn call_events(targets: Seq<AccountId>, arguments: Seq<Vec<u8>>) -> Seq<ResolverEvent> {
    Seq::new(
        targets.len(),
        |i: int|
            ResolverEvent::ArbitraryCallExecuted(
                ArbitraryCallExecuted {
                    target: targets[i],
                    success: true,
                    data_hash: blake2x256_of(arguments[i]@),
                },
            ),
    )
}

impl PolkadotResolver {
    /// The stores' invariants.
    pub closed spec fn wf(&self) -> bool {
        &&& self.escrows.wf()
        &&& self.escrow_addresses.wf()
        &&& self.trusted_relayers.wf()
    }

    /// A resolver owned by `owner`.
    pub fn new(
        owner: AccountId,
        escrow_factory: AccountId,
        ethereum_resolver: [u8; 20],
        min_safety_deposit: Balance,
    ) -> (r: Self)
        ensures
            r.wf(),
            r@ == (ResolverView {
                owner,
                escrow_factory,
                escrows: Map::empty(),
                escrow_addresses: Map::empty(),
                ethereum_resolver,
                trusted_relayers: Map::empty(),
                min_safety_deposit,
                total_escrows_created: 0,
                transfers: Seq::empty(),
                events: Seq::empty(),
            }),
    {
        PolkadotResolver {
            owner,
            escrow_factory,
            escrows: KeyedStore::new(),
            escrow_addresses: KeyedStore::new(),
            ethereum_resolver,
            trusted_relayers: KeyedStore::new(),
            min_safety_deposit,
            total_escrows_created: 0,
            transfers: Vec::new(),
            events: Vec::new(),
        }
    }

    fn ensure_owner(&self, ctx: &CallContext) -> (r: Result<(), Error>)
        ensures
            r == (if ctx.caller == self@.owner {
                Ok(())
            } else {
                Err(Error::OnlyOwner)
            }),
    {
        if !bytes32_eq(&ctx.caller, &self.owner) {
            return Err(Error::OnlyOwner);
        }
        Ok(())
    }

    /// Derives the escrow identity bound to `immutables`.
    pub fn compute_escrow_address(&self, immutables: &EscrowImmutables) -> (r: Result<AccountId, Error>)
        ensures
            r == Ok::<AccountId, Error>(escrow_address_of(*immutables)),
    {
        Ok(
            derive_escrow_address(
                &immutables.order_hash,
                &immutables.hash_lock,
                &immutables.maker,
                &immutables.taker,
                immutables.amount,
                immutables.deployed_at,
            ),
        )
    }

    /// Sets up the escrow contract at `escrow_address`. Deployment happens
    /// on the host ledger; nothing here can refuse it.
    fn create_escrow_contract(&self, _escrow_address: AccountId, _immutables: &EscrowImmutables) -> (r:
        Result<(), Error>)
        ensures
            r == Ok::<(), Error>(()),
    {
        Ok(())
    }

    /// Deploys a source escrow, sending the value received to its derived
    /// identity; owner only.
    pub fn deploy_src(
        &mut self,
        ctx: &CallContext,
        immutables: EscrowImmutables,
        _order: Order,
        _signature: [u8; 65],
        _amount: Balance,
        _taker_traits: TakerTraits,
        _args: Vec<u8>,
    ) -> (r: Result<AccountId, Error>)
        requires
            old(self).wf(),
        ensures
            final(self).wf(),
            ctx.caller != old(self)@.owner ==> r == Err::<AccountId, Error>(Error::OnlyOwner)
                && final(self)@ == old(self)@,
            ctx.caller == old(self)@.owner && ctx.transferred < old(self)@.min_safety_deposit ==> r
                == Err::<AccountId, Error>(Error::InsufficientFunds) && final(self)@ == old(self)@,
            ctx.caller == old(self)@.owner && ctx.transferred >= old(self)@.min_safety_deposit ==> r
                == Ok::<AccountId, Error>(escrow_address_of(stamped(immutables, *ctx)))
                && final(self)@ == after_deploy_src(old(self)@, *ctx, immutables),
    {
        self.ensure_owner(ctx)?;
        let safety_deposit = ctx.transferred;
        if safety_deposit < self.min_safety_deposit {
            return Err(Error::InsufficientFunds);
        }
        let immutables_mem = EscrowImmutables {
            deployed_at: Some(ctx.now),
            safety_deposit,
            ..immutables
        };
        let escrow_address = self.compute_escrow_address(&immutables_mem)?;
        self.create_escrow_contract(escrow_address, &immutables_mem)?;
        self.transfers.push(Transfer { to: escrow_address, amount: safety_deposit });
        self.escrows.insert(immutables_mem.order_hash, immutables_mem);
        self.escrow_addresses.insert(immutables_mem.order_hash, escrow_address);
        self.total_escrows_created = self.total_escrows_created.saturating_add(1);
        self.events.push(
            ResolverEvent::SrcEscrowDeployed(
                SrcEscrowDeployed {
                    order_hash: immutables_mem.order_hash,
                    escrow_address,
                    immutables: immutables_mem,
                    safety_deposit,
                },
            ),
        );
        Ok(escrow_address)
    }

    /// Deploys a destination escrow funded with the value received; owner
    /// only.
    pub fn deploy_dst(
        &mut self,
        ctx: &CallContext,
        dst_immutables: EscrowImmutables,
        src_cancellation_timestamp: Timestamp,
    ) -> (r: Result<AccountId, Error>)
        requires
            old(self).wf(),
        ensures
            final(self).wf(),
            ctx.caller != old(self)@.owner ==> r == Err::<AccountId, Error>(Error::OnlyOwner)
                && final(self)@ == old(self)@,
            ctx.caller == old(self)@.owner ==> r == Ok::<AccountId, Error>(
                escrow_address_of(dst_immutables),
            ) && final(self)@ == after_deploy_dst(
                old(self)@,
                *ctx,
                dst_immutables,
                src_cancellation_timestamp,
            ),
    {
        self.ensure_owner(ctx)?;
        let escrow_address = self.compute_escrow_address(&dst_immutables)?;
        self.create_escrow_contract(escrow_address, &dst_immutables)?;
        self.transfers.push(Transfer { to: escrow_address, amount: ctx.transferred });
        self.escrows.insert(dst_immutables.order_hash, dst_immutables);
        self.escrow_addresses.insert(dst_immutables.order_hash, escrow_address);
        self.events.push(
            ResolverEvent::DstEscrowDeployed(
                DstEscrowDeployed {
                    order_hash: dst_immutables.order_hash,
                    escrow_address,
                    immutables: dst_immutables,
                    src_cancellation_timestamp,
                },
            ),
        );
        Ok(escrow_address)
    }

    /// Whether the withdrawal window of `immutables` has opened at
    /// `current_time`.
    pub fn check_withdrawal_timelock(&self, immutables: &EscrowImmutables, current_time: Timestamp) -> (r:
        Result<(), Error>)
        ensures
            r == (if window_start(*immutables, immutables.timelocks.src_withdrawal) > u64::MAX {
                Err(Error::ArithmeticOverflow)
            } else if current_time < window_start(*immutables, immutables.timelocks.src_withdrawal) {
                Err(Error::TimelockNotExpired)
            } else {
                Ok::<(), Error>(())
            }),
    {
        let withdrawal_time = window_start_checked(immutables, immutables.timelocks.src_withdrawal)?;
        if current_time < withdrawal_time {
            return Err(Error::TimelockNotExpired);
        }
        Ok(())
    }

    /// Whether the cancellation window of `immutables` has opened at
    /// `current_time`.
    pub fn check_cancellation_timelock(&self, immutables: &EscrowImmutables, current_time: Timestamp) -> (r:
        Result<(), Error>)
        ensures
            r == (if window_start(*immutables, immutables.timelocks.src_cancellation) > u64::MAX {
                Err(Error::ArithmeticOverflow)
            } else if current_time < window_start(*immutables, immutables.timelocks.src_cancellation) {
                Err(Error::TimelockNotExpired)
            } else {
                Ok::<(), Error>(())
            }),
    {
        let cancellation_time = window_start_checked(immutables, immutables.timelocks.src_cancellation)?;
        if current_time < cancellation_time {
            return Err(Error::TimelockNotExpired);
        }
        Ok(())
    }

    /// Asks the escrow at `escrow_address` to pay out against `secret`; the
    /// escrow itself settles on the host ledger.
    fn execute_escrow_withdrawal(
        &self,
        _escrow_address: AccountId,
        _secret: [u8; 32],
        _immutables: &EscrowImmutables,
    ) -> (r: Result<(), Error>)
        ensures
            r == Ok::<(), Error>(()),
    {
        Ok(())
    }

    /// Asks the escrow at `escrow_address` to refund; it refunds the whole
    /// escrowed amount.
    fn execute_escrow_cancellation(&self, _escrow_address: AccountId, immutables: &EscrowImmutables) -> (r:
        Result<Balance, Error>)
        ensures
            r == Ok::<Balance, Error>(immutables.amount),
    {
        Ok(immutables.amount)
    }

    /// Withdraws from a deployed escrow with the secret, once its withdrawal
    /// window has opened.
    pub fn withdraw(
        &mut self,
        ctx: &CallContext,
        order_hash: Hash32,
        secret: [u8; 32],
        immutables: EscrowImmutables,
    ) -> (r: Result<(), Error>)
        requires
            old(self).wf(),
        ensures
            final(self).wf(),
            match withdraw_error(old(self)@, *ctx, order_hash, secret, immutables) {
                Some(e) => r == Err::<(), Error>(e) && final(self)@ == old(self)@,
                None => r == Ok::<(), Error>(()) && final(self)@ == (ResolverView {
                    events: old(self)@.events.push(
                        ResolverEvent::EscrowWithdrawal(
                            EscrowWithdrawal {
                                order_hash,
                                escrow_address: old(self)@.escrow_addresses[order_hash],
                                secret,
                                amount: immutables.amount,
                            },
                        ),
                    ),
                    ..old(self)@
                }),
            },
    {
        let escrow_address = match self.escrow_addresses.get(&order_hash) {
            Some(a) => a,
            None => return Err(Error::EscrowNotFound),
        };
        let computed_hash = hash_secret(&secret);
        if !bytes32_eq(&computed_hash, &immutables.hash_lock) {
            return Err(Error::InvalidSecret);
        }
        self.check_withdrawal_timelock(&immutables, ctx.now)?;
        self.execute_escrow_withdrawal(escrow_address, secret, &immutables)?;
        self.events.push(
            ResolverEvent::EscrowWithdrawal(
                EscrowWithdrawal { order_hash, escrow_address, secret, amount: immutables.amount },
            ),
        );
        Ok(())
    }

    /// Cancels a deployed escrow once its cancellation window has opened.
    pub fn cancel(&mut self, ctx: &CallContext, order_hash: Hash32, immutables: EscrowImmutables) -> (r:
        Result<(), Error>)
        requires
            old(self).wf(),
        ensures
            final(self).wf(),
            match cancel_error(old(self)@, *ctx, order_hash, immutables) {
                Some(e) => r == Err::<(), Error>(e) && final(self)@ == old(self)@,
                None => r == Ok::<(), Error>(()) && final(self)@ == (ResolverView {
                    events: old(self)@.events.push(
                        ResolverEvent::EscrowCancellation(
                            EscrowCancellation {
                                order_hash,
                                escrow_address: old(self)@.escrow_addresses[order_hash],
                                refund_amount: immutables.amount,
                            },
                        ),
                    ),
                    ..old(self)@
                }),
            },
    {
        let escrow_address = match self.escrow_addresses.get(&order_hash) {
            Some(a) => a,
            None => return Err(Error::EscrowNotFound),
        };
        self.check_cancellation_timelock(&immutables, ctx.now)?;
        let refund_amount = self.execute_escrow_cancellation(escrow_address, &immutables)?;
        self.events.push(
            ResolverEvent::EscrowCancellation(
                EscrowCancellation { order_hash, escrow_address, refund_amount },
            ),
        );
        Ok(())
    }

    /// Makes owner-requested calls, logging each with the digest of its
    /// arguments.
    pub fn arbitrary_calls(
        &mut self,
        ctx: &CallContext,
        targets: Vec<AccountId>,
        arguments: Vec<Vec<u8>>,
    ) -> (r: Result<(), Error>)
        requires
            old(self).wf(),
        ensures
            final(self).wf(),
            ctx.caller != old(self)@.owner ==> r == Err::<(), Error>(Error::OnlyOwner) && final(self)@
                == old(self)@,
            ctx.caller == old(self)@.owner && targets@.len() != arguments@.len() ==> r == Err::<
                (),
                Error,
            >(Error::LengthMismatch) && final(self)@ == old(self)@,
            ctx.caller == old(self)@.owner && targets@.len() == arguments@.len() ==> r == Ok::<
                (),
                Error,
            >(()) && final(self)@ == (ResolverView {
                events: old(self)@.events + call_events(targets@, arguments@),
                ..old(self)@
            }),
    {
        self.ensure_owner(ctx)?;
        if targets.len() != arguments.len() {
            return Err(Error::LengthMismatch);
        }
        let ghost e0 = self.events@;
        let mut i: usize = 0;
        while i < targets.len()
            invariant
                self.wf(),
                0 <= i <= targets@.len(),
                targets@.len() == arguments@.len(),
                self@ == (ResolverView {
                    events: e0 + call_events(targets@, arguments@).subrange(0, i as int),
                    ..old(self)@
                }),
            decreases targets@.len() - i,
        {
            let data_hash = blake2x256(arguments[i].as_slice());
            let result = self.execute_arbitrary_call(targets[i], arguments[i].as_slice());
            self.events.push(
                ResolverEvent::ArbitraryCallExecuted(
                    ArbitraryCallExecuted { target: targets[i], success: result.is_ok(), data_hash },
                ),
            );
            i = i + 1;
            assert(call_events(targets@, arguments@).subrange(0, i as int) =~= call_events(
                targets@,
                arguments@,
            ).subrange(0, i - 1 as int).push(call_events(targets@, arguments@)[i - 1]));
        }
        assert(call_events(targets@, arguments@).subrange(0, targets@.len() as int) =~= call_events(
            targets@,
            arguments@,
        ));
        Ok(())
    }

    /// A call to another contract, made by the host ledger; here every call
    /// is accepted as it stands.
    fn execute_arbitrary_call(&self, _target: AccountId, _args: &[u8]) -> (r: Result<(), Error>)
        ensures
            r == Ok::<(), Error>(()),
    {
        Ok(())
    }

    /// Checks a message from the counterpart resolver. Messages are vouched
    /// for by the relayers that deliver them, so every message is accepted.
    pub fn verify_ethereum_message(
        &self,
        _order_hash: [u8; 32],
        _resolver: AccountId,
        _hash_lock: [u8; 32],
        _ethereum_escrow: [u8; 20],
    ) -> (r: Result<bool, Error>)
        ensures
            r == Ok::<bool, Error>(true),
    {
        Ok(true)
    }

    /// Takes note of a withdrawal made on the other ledger; nothing here
    /// changes.
    pub fn process_ethereum_withdrawal(&mut self, _order_hash: [u8; 32], _secret: [u8; 32]) -> (r:
        Result<(), Error>)
        ensures
            r == Ok::<(), Error>(()),
            final(self)@ == old(self)@,
    {
        Ok(())
    }

    /// The immutables recorded under `order_hash`.
    pub fn get_escrow_immutables(&self, order_hash: [u8; 32]) -> (r: Option<EscrowImmutables>)
        requires
            self.wf(),
        ensures
            r == (if self@.escrows.contains_key(order_hash) {
                Some(self@.escrows[order_hash])
            } else {
                None
            }),
    {
        self.escrows.get(&order_hash)
    }

    /// The escrow identity recorded under `order_hash`.
    pub fn get_escrow_address(&self, order_hash: [u8; 32]) -> (r: Option<AccountId>)
        requires
            self.wf(),
        ensures
            r == (if self@.escrow_addresses.contains_key(order_hash) {
                Some(self@.escrow_addresses[order_hash])
            } else {
                None
            }),
    {
        self.escrow_addresses.get(&order_hash)
    }

    /// The owner.
    pub fn get_owner(&self) -> (r: AccountId)
        ensures
            r == self@.owner,
    {
        self.owner
    }

    /// The counterpart resolver on the other ledger.
    pub fn get_ethereum_resolver(&self) -> (r: [u8; 20])
        ensures
            r == self@.ethereum_resolver,
    {
        self.ethereum_resolver
    }

    /// How many source escrows were deployed.
    pub fn get_total_escrows_created(&self) -> (r: u64)
        ensures
            r == self@.total_escrows_created,
    {
        self.total_escrows_created
    }

    /// Whether `relayer` is trusted.
    pub fn is_trusted_relayer(&self, relayer: AccountId) -> (r: bool)
        requires
            self.wf(),
        ensures
            r == (self@.trusted_relayers.contains_key(relayer) && self@.trusted_relayers[relayer]),
    {
        match self.trusted_relayers.get(&relayer) {
            Some(b) => b,
            None => false,
        }
    }

    /// Hands ownership to `new_owner`; owner only.
    pub fn transfer_ownership(&mut self, ctx: &CallContext, new_owner: AccountId) -> (r: Result<(), Error>)
        requires
            old(self).wf(),
        ensures
            final(self).wf(),
            ctx.caller == old(self)@.owner ==> r == Ok::<(), Error>(()) && final(self)@ == (
            ResolverView { owner: new_owner, ..old(self)@ }),
            ctx.caller != old(self)@.owner ==> r == Err::<(), Error>(Error::OnlyOwner) && final(self)@
                == old(self)@,
    {
        self.ensure_owner(ctx)?;
        self.owner = new_owner;
        Ok(())
    }

    /// Trusts `relayer`; owner only.
    pub fn add_trusted_relayer(&mut self, ctx: &CallContext, relayer: AccountId) -> (r: Result<(), Error>)
        requires
            old(self).wf(),
        ensures
            final(self).wf(),
            ctx.caller == old(self)@.owner ==> r == Ok::<(), Error>(()) && final(self)@ == (
            ResolverView {
                trusted_relayers: old(self)@.trusted_relayers.insert(relayer, true),
                ..old(self)@
            }),
            ctx.caller != old(self)@.owner ==> r == Err::<(), Error>(Error::OnlyOwner) && final(self)@
                == old(self)@,
    {
        self.ensure_owner(ctx)?;
        self.trusted_relayers.insert(relayer, true);
        Ok(())
    }

    /// Stops trusting `relayer`; owner only.
    pub fn remove_trusted_relayer(&mut self, ctx: &CallContext, relayer: AccountId) -> (r: Result<(), Error>)
        requires
            old(self).wf(),
        ensures
            final(self).wf(),
            ctx.caller == old(self)@.owner ==> r == Ok::<(), Error>(()) && final(self)@ == (
            ResolverView {
                trusted_relayers: old(self)@.trusted_relayers.remove(relayer),
                ..old(self)@
            }),
            ctx.caller != old(self)@.owner ==> r == Err::<(), Error>(Error::OnlyOwner) && final(self)@
                == old(self)@,
    {
        self.ensure_owner(ctx)?;
        self.trusted_relayers.remove(&relayer);
        Ok(())
    }

    /// Hands over the payouts decided so far, oldest first, and forgets them.
    pub fn take_transfers(&mut self) -> (r: Vec<Transfer>)
        requires
            old(self).wf(),
        ensures
            final(self).wf(),
            r@ == old(self)@.transfers,
            final(self)@ == (ResolverView { transfers: Seq::empty(), ..old(self)@ }),
    {
        let mut taken = Vec::new();
        std::mem::swap(&mut taken, &mut self.transfers);
        taken
    }

    /// Hands over the events logged so far, oldest first, and forgets them.
    pub fn take_events(&mut self) -> (r: Vec<ResolverEvent>)
        requires
            old(self).wf(),
        ensures
            final(self).wf(),
            r@ == old(self)@.events,
            final(self)@ == (ResolverView { events: Seq::empty(), ..old(self)@ }),
    {
        let mut taken = Vec::new();
        std::mem::swap(&mut taken, &mut self.events);
        taken
    }
}

} // verus!
