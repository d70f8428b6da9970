//! Identifiers, the pinned hash function and the canonical byte encoding
//! shared by every component of the engine.
use vstd::prelude::*;

verus! {

/// A party on the ledger: 32 opaque bytes.
pub type AccountId = [u8; 32];

/// A native-balance quantity.
pub type Balance = u128;

/// Epoch milliseconds, as the ledger reports them.
pub type Timestamp = u64;

/// A 32-byte digest (order hashes, hash locks, derived identities).
pub type Hash32 = [u8; 32];

/// Whether two 32-byte values are equal, compared byte by byte.
pub fn bytes32_eq(a: &[u8; 32], b: &[u8; 32]) -> (r: bool)
    ensures
        r == (*a == *b),
{
    let mut i: usize = 0;
    while i < 32
        invariant
            0 <= i <= 32,
            a@.len() == 32,
            b@.len() == 32,
            forall|j: int| 0 <= j < i ==> a@[j] == b@[j],
        decreases 32 - i,
    {
        if a[i] != b[i] {
            assert(a@[i as int] != b@[i as int]);
            return false;
        }
        i = i + 1;
    }
    assert(*a =~= *b) by {
        broadcast use vstd::array::axiom_array_ext_equal;
    }
    true
}

/// Whether all 32 bytes are zero (the "no hash lock yet" marker).
pub open spec fn all_zero(a: Seq<u8>) -> bool {
    forall|i: int| 0 <= i < a.len() ==> a[i] == 0
}

/// Tests a 32-byte value for being all zeros.
pub fn is_zero32(a: &[u8; 32]) -> (r: bool)
    ensures
        r == all_zero(a@),
{
    let mut i: usize = 0;
    while i < 32
        invariant
            0 <= i <= 32,
            a@.len() == 32,
            forall|j: int| 0 <= j < i ==> a@[j] == 0,
        decreases 32 - i,
    {
        if a[i] != 0 {
            return false;
        }
        i = i + 1;
    }
    true
}

/// The 256-bit digest of a byte string under the protocol's hash function.
pub uninterp spec fn blake2x256_of(data: Seq<u8>) -> [u8; 32];

/// Relies on `ink::env::hash_bytes::<Blake2x256>`: the 32-byte BLAKE2b-256
/// digest of the input, which depends on the input bytes alone.
#[verifier::external_body]
pub(crate) fn blake2x256(data: &[u8]) -> (r: [u8; 32])
    ensures
        r == blake2x256_of(data@),
{
    let mut out = [0u8; 32];
    ink::env::hash_bytes::<ink::env::hash::Blake2x256>(data, &mut out);
    out
}

/// The digest of a 32-byte value (a secret checked against a hash lock).
pub open spec fn hash_of_secret(secret: [u8; 32]) -> [u8; 32] {
    blake2x256_of(secret@)
}

/// Hashes a 32-byte secret.
pub fn hash_secret(secret: &[u8; 32]) -> (r: [u8; 32])
    ensures
        r == hash_of_secret(*secret),
{
    blake2x256(secret.as_slice())
}

/// The eight little-endian bytes of a `u64`.
pub open spec fn le_u64(x: u64) -> Seq<u8> {
    seq![
        x as u8,
        (x >> 8u64) as u8,
        (x >> 16u64) as u8,
        (x >> 24u64) as u8,
        (x >> 32u64) as u8,
        (x >> 40u64) as u8,
        (x >> 48u64) as u8,
        (x >> 56u64) as u8,
    ]
}

/// The sixteen little-endian bytes of a `u128`.
pub open spec fn le_u128(x: u128) -> Seq<u8> {
    seq![
        x as u8,
        (x >> 8u128) as u8,
        (x >> 16u128) as u8,
        (x >> 24u128) as u8,
        (x >> 32u128) as u8,
        (x >> 40u128) as u8,
        (x >> 48u128) as u8,
        (x >> 56u128) as u8,
        (x >> 64u128) as u8,
        (x >> 72u128) as u8,
        (x >> 80u128) as u8,
        (x >> 88u128) as u8,
        (x >> 96u128) as u8,
        (x >> 104u128) as u8,
        (x >> 112u128) as u8,
        (x >> 120u128) as u8,
    ]
}

/// Relies on `parity_scale_codec::Encode` for `u64`: the value's
/// little-endian bytes (`to_le_bytes`), with no length prefix.
#[verifier::external_body]
fn scale_encode_u64(x: u64) -> (r: Vec<u8>)
    ensures
        r@ == le_u64(x),
{
    parity_scale_codec::Encode::encode(&x)
}

/// Relies on `parity_scale_codec::Encode` for `u128`: the value's
/// little-endian bytes (`to_le_bytes`), with no length prefix.
#[verifier::external_body]
fn scale_encode_u128(x: u128) -> (r: Vec<u8>)
    ensures
        r@ == le_u128(x),
{
    parity_scale_codec::Encode::encode(&x)
}

/// Appends bytes to an encoding under construction.
pub fn append_bytes(out: &mut Vec<u8>, b: &[u8])
    ensures
        final(out)@ == old(out)@ + b@,
{
    let mut i: usize = 0;
    while i < b.len()
        invariant
            0 <= i <= b@.len(),
            out@ == old(out)@ + b@.subrange(0, i as int),
        decreases b@.len() - i,
    {
        out.push(b[i]);
        i = i + 1;
        assert(b@.subrange(0, i as int) =~= b@.subrange(0, i - 1 as int).push(b@[i - 1]));
    }
    assert(b@.subrange(0, b@.len() as int) =~= b@);
}

/// Appends the canonical encoding of a `u64`.
pub fn append_u64(out: &mut Vec<u8>, x: u64)
    ensures
        final(out)@ == old(out)@ + le_u64(x),
{
    let enc = scale_encode_u64(x);
    append_bytes(out, enc.as_slice());
}

/// Appends the canonical encoding of a `u128`.
pub fn append_u128(out: &mut Vec<u8>, x: u128)
    ensures
        final(out)@ == old(out)@ + le_u128(x),
{
    let enc = scale_encode_u128(x);
    append_bytes(out, enc.as_slice());
}

} // verus!

verus! {

/// What the ledger tells the engine about the message being processed.
#[derive(Clone, Copy, Debug, PartialEq, Eq)]
pub struct CallContext {
    /// The account that sent the message.
    pub caller: AccountId,
    /// The block time, in epoch milliseconds.
    pub now: Timestamp,
    /// The native value sent along with the message.
    pub transferred: Balance,
}

/// Thirty-two zero bytes.
pub open spec fn zero32() -> [u8; 32] {
    vstd::array::spec_array_fill_for_copy_type::<u8, 32>(0u8)
}

/// Twenty zero bytes.
pub open spec fn zero20() -> [u8; 20] {
    vstd::array::spec_array_fill_for_copy_type::<u8, 20>(0u8)
}

/// Returns thirty-two zero bytes.
pub fn zeros32() -> (r: [u8; 32])
    ensures
        r == zero32(),
{
    [0u8; 32]
}

/// Returns twenty zero bytes.
pub fn zeros20() -> (r: [u8; 20])
    ensures
        r == zero20(),
{
    [0u8; 20]
}

} // verus!

verus! {

/// Distinct `u64` values have distinct encodings.
pub proof fn lemma_le_u64_injective(x: u64, y: u64)
    requires
        le_u64(x) == le_u64(y),
    ensures
        x == y,
{
    let a = le_u64(x);
    let b = le_u64(y);
    assert(a[0] == b[0] && a[1] == b[1] && a[2] == b[2] && a[3] == b[3]);
    assert(a[4] == b[4] && a[5] == b[5] && a[6] == b[6] && a[7] == b[7]);
    assert(x == y) by (bit_vector)
        requires
            x as u8 == y as u8,
            (x >> 8u64) as u8 == (y >> 8u64) as u8,
            (x >> 16u64) as u8 == (y >> 16u64) as u8,
            (x >> 24u64) as u8 == (y >> 24u64) as u8,
            (x >> 32u64) as u8 == (y >> 32u64) as u8,
            (x >> 40u64) as u8 == (y >> 40u64) as u8,
            (x >> 48u64) as u8 == (y >> 48u64) as u8,
            (x >> 56u64) as u8 == (y >> 56u64) as u8,
    ;
}

/// Distinct `u128` values have distinct encodings.
pub proof fn lemma_le_u128_injective(x: u128, y: u128)
    requires
        le_u128(x) == le_u128(y),
    ensures
        x == y,
{
    let a = le_u128(x);
    let b = le_u128(y);
    assert(a[0] == b[0] && a[1] == b[1] && a[2] == b[2] && a[3] == b[3]);
    assert(a[4] == b[4] && a[5] == b[5] && a[6] == b[6] && a[7] == b[7]);
    assert(a[8] == b[8] && a[9] == b[9] && a[10] == b[10] && a[11] == b[11]);
    assert(a[12] == b[12] && a[13] == b[13] && a[14] == b[14] && a[15] == b[15]);
    assert(x == y) by (bit_vector)
        requires
            x as u8 == y as u8,
            (x >> 8u128) as u8 == (y >> 8u128) as u8,
            (x >> 16u128) as u8 == (y >> 16u128) as u8,
            (x >> 24u128) as u8 == (y >> 24u128) as u8,
            (x >> 32u128) as u8 == (y >> 32u128) as u8,
            (x >> 40u128) as u8 == (y >> 40u128) as u8,
            (x >> 48u128) as u8 == (y >> 48u128) as u8,
            (x >> 56u128) as u8 == (y >> 56u128) as u8,
            (x >> 64u128) as u8 == (y >> 64u128) as u8,
            (x >> 72u128) as u8 == (y >> 72u128) as u8,
            (x >> 80u128) as u8 == (y >> 80u128) as u8,
            (x >> 88u128) as u8 == (y >> 88u128) as u8,
            (x >> 96u128) as u8 == (y >> 96u128) as u8,
            (x >> 104u128) as u8 == (y >> 104u128) as u8,
            (x >> 112u128) as u8 == (y >> 112u128) as u8,
            (x >> 120u128) as u8 == (y >> 120u128) as u8,
    ;
}

/// Arrays with equal bytes are equal.
pub proof fn lemma_bytes_determine_array<const N: usize>(a: [u8; N], b: [u8; N])
    requires
        a@ == b@,
    ensures
        a == b,
{
    assert forall|i: int| 0 <= i < N implies a[i] == b[i] by {
        assert(a@[i] == b@[i]);
    }
    assert(a =~= b) by {
        broadcast use vstd::array::axiom_array_ext_equal;
    }
}

} // verus!

verus! {

/// The bytes an escrow identity is derived from: order hash, hash lock,
/// maker, taker, amount and deployment time (zero when unknown).
pub open spec fn escrow_seed_of(
    order_hash: [u8; 32],
    hash_lock: [u8; 32],
    maker: AccountId,
    taker: AccountId,
    amount: u128,
    deployed_at: Option<u64>,
) -> Seq<u8> {
    order_hash@ + hash_lock@ + maker@ + taker@ + le_u128(amount) + le_u64(
        match deployed_at {
            Some(t) => t,
            None => 0,
        },
    )
}

/// Derives the identity of an escrow from its immutable parameters.
pub fn derive_escrow_address(
    order_hash: &[u8; 32],
    hash_lock: &[u8; 32],
    maker: &AccountId,
    taker: &AccountId,
    amount: u128,
    deployed_at: Option<u64>,
) -> (r: AccountId)
    ensures
        r == blake2x256_of(escrow_seed_of(*order_hash, *hash_lock, *maker, *taker, amount, deployed_at)),
{
    let mut seed: Vec<u8> = Vec::new();
    append_bytes(&mut seed, order_hash.as_slice());
    append_bytes(&mut seed, hash_lock.as_slice());
    append_bytes(&mut seed, maker.as_slice());
    append_bytes(&mut seed, taker.as_slice());
    append_u128(&mut seed, amount);
    let at = match deployed_at {
        Some(t) => t,
        None => 0,
    };
    append_u64(&mut seed, at);
    assert(seed@ =~= escrow_seed_of(*order_hash, *hash_lock, *maker, *taker, amount, deployed_at));
    blake2x256(seed.as_slice())
}

} // verus!
