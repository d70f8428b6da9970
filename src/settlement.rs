//! Settlement arithmetic: the protocol fee, the resolver's fee and the net
//! amount that a gross amount splits into.
use vstd::prelude::*;
use crate::primitives::{AccountId, Balance};

verus! {

/// Basis points in one whole.
pub const BPS_DENOMINATOR: u128 = 10_000;

/// A payout the engine owes: `amount` to `to` on the engine's own ledger.
#[derive(Clone, Copy, Debug, PartialEq, Eq)]
pub struct Transfer {
    pub to: AccountId,
    pub amount: Balance,
}

/// How a gross amount is divided.
#[derive(Clone, Copy, Debug, PartialEq, Eq)]
pub struct FeeSplit {
    pub protocol_fee: Balance,
    pub resolver_fee: Balance,
    pub net: Balance,
}

/// `amount * bps / 10_000`, truncating.
pub open spec fn protocol_fee_of(amount: int, bps: int) -> int {
    amount * bps / 10_000
}

/// Whether the product `amount * bps` fits in a balance.
pub open spec fn fee_fits(amount: u128, bps: u32) -> bool {
    amount * bps <= u128::MAX
}

/// The split of `amount`: the protocol fee first, then the resolver's fee
/// capped by what is left, then the rest.
pub open spec fn split_of(amount: u128, bps: u32, requested_fee: u128) -> FeeSplit {
    let protocol_fee = protocol_fee_of(amount as int, bps as int);
    let after_protocol = amount - protocol_fee;
    let resolver_fee = if requested_fee <= after_protocol {
        requested_fee as int
    } else {
        after_protocol
    };
    FeeSplit {
        protocol_fee: protocol_fee as u128,
        resolver_fee: resolver_fee as u128,
        net: (after_protocol - resolver_fee) as u128,
    }
}

/// Computes `amount * bps / 10_000` with a checked product.
pub fn protocol_fee(amount: u128, bps: u32) -> (r: Option<u128>)
    ensures
        r == (if fee_fits(amount, bps) {
            Some(protocol_fee_of(amount as int, bps as int) as u128)
        } else {
            None
        }),
{
    match amount.checked_mul(bps as u128) {
        Some(product) => Some(product / BPS_DENOMINATOR),
        None => None,
    }
}

/// Whether `amount` can be split under `bps`: the product fits and the
/// protocol fee does not exceed the amount (it cannot when `bps <= 10_000`).
pub open spec fn splittable(amount: u128, bps: u32) -> bool {
    fee_fits(amount, bps) && protocol_fee_of(amount as int, bps as int) <= amount
}

/// Splits a gross amount into protocol fee, resolver fee and net amount.
pub fn split_amount(amount: u128, bps: u32, requested_fee: u128) -> (r: Option<FeeSplit>)
    ensures
        r == (if splittable(amount, bps) {
            Some(split_of(amount, bps, requested_fee))
        } else {
            None
        }),
        r matches Some(s) ==> s.protocol_fee + s.resolver_fee + s.net == amount,
{
    match protocol_fee(amount, bps) {
        None => None,
        Some(fee) => {
            if fee > amount {
                return None;
            }
            let after_protocol = amount - fee;
            let resolver_fee = if requested_fee <= after_protocol {
                requested_fee
            } else {
                after_protocol
            };
            Some(FeeSplit { protocol_fee: fee, resolver_fee, net: after_protocol - resolver_fee })
        },
    }
}

/// The three parts of a split always add up to the gross amount.
pub proof fn lemma_split_sums_to_amount(amount: u128, bps: u32, requested_fee: u128)
    requires
        splittable(amount, bps),
    ensures
        ({
            let s = split_of(amount, bps, requested_fee);
            s.protocol_fee + s.resolver_fee + s.net == amount
        }),
{
    assert(0 <= protocol_fee_of(amount as int, bps as int)) by (nonlinear_arith)
        requires
            0 <= amount,
            0 <= bps,
    ;
}

} // verus!
