//! The pool account: its fixed layout and the configuration read from it.

use vstd::prelude::*;
use crate::address::Address;
use crate::bytes::{le_u64, read_array32, read_u64};
use crate::curve::Fraction;
use crate::error::AdapterError;

verus! {

/// Length of a pool account.
pub const POOL_ACCOUNT_LEN: usize = 344;

/// The fee rates of a pool: the trading fee taken from every input, the
/// owner's share of it, and a host's share of the owner's.
#[derive(Clone, Copy, Debug, PartialEq, Eq, Structural)]
pub struct PoolFees {
    pub trade_fee: Fraction,
    pub owner_trade_fee: Fraction,
    pub host_fee: Fraction,
}

/// What a pool account fixes: its mints, vaults, token programs, authority
/// and fees. A token program of all zeros stands for the legacy token
/// program.
#[derive(Clone, Copy, Debug)]
pub struct PoolConfig {
    pub pool_authority: Address,
    pub token_a_vault: Address,
    pub token_b_vault: Address,
    pub token_a_mint: Address,
    pub token_b_mint: Address,
    pub token_a_fees_vault: Address,
    pub token_b_fees_vault: Address,
    pub token_a_program: Address,
    pub token_b_program: Address,
    pub fees: PoolFees,
}

/// The eight bytes that open every pool account.
pub open spec fn pool_discriminator() -> Seq<u8> {
    seq![209u8, 31, 14, 115, 93, 168, 247, 50]
}

/// The 32 bytes at `off`.
pub open spec fn address_at(d: Seq<u8>, off: int) -> Seq<u8> {
    d.subrange(off, off + 32)
}

/// The fee rate stored at `off`: numerator, then denominator.
pub open spec fn fraction_at(d: Seq<u8>, off: int) -> Fraction {
    Fraction { numerator: le_u64(d, off), denominator: le_u64(d, off + 8) }
}

/// The bytes are long enough and open with the pool discriminator.
pub open spec fn is_pool_account(d: Seq<u8>) -> bool {
    d.len() >= 344 && d.subrange(0, 8) == pool_discriminator()
}

/// `c` holds what the pool layout stores in `d`.
pub open spec fn decodes_to(d: Seq<u8>, c: PoolConfig) -> bool {
    &&& c.pool_authority@ == address_at(d, 8)
    &&& c.token_a_vault@ == address_at(d, 40)
    &&& c.token_b_vault@ == address_at(d, 72)
    &&& c.token_a_mint@ == address_at(d, 104)
    &&& c.token_b_mint@ == address_at(d, 136)
    &&& c.token_a_fees_vault@ == address_at(d, 168)
    &&& c.token_b_fees_vault@ == address_at(d, 200)
    &&& c.token_a_program@ == address_at(d, 232)
    &&& c.token_b_program@ == address_at(d, 264)
    &&& c.fees.trade_fee == fraction_at(d, 296)
    &&& c.fees.owner_trade_fee == fraction_at(d, 312)
    &&& c.fees.host_fee == fraction_at(d, 328)
}

fn has_pool_discriminator(d: &[u8]) -> (r: bool)
    requires
        d@.len() >= 8,
    ensures
        r == (d@.subrange(0, 8) == pool_discriminator()),
{
    let expected: [u8; 8] = [209, 31, 14, 115, 93, 168, 247, 50];
    assert(expected@ =~= pool_discriminator());
    let mut i: usize = 0;
    while i < 8
        invariant
            d@.len() >= 8,
            expected@ == pool_discriminator(),
            0 <= i <= 8,
            forall|j: int| 0 <= j < i ==> d@[j] == expected@[j],
        decreases 8 - i,
    {
        if d[i] != expected[i] {
            assert(d@.subrange(0, 8)[i as int] != pool_discriminator()[i as int]);
            return false;
        }
        i = i + 1;
    }
    assert(d@.subrange(0, 8) =~= pool_discriminator());
    true
}

fn read_address(d: &[u8], off: usize) -> (r: Address)
    requires
        off + 32 <= d@.len(),
    ensures
        r@ == address_at(d@, off as int),
{
    Address { bytes: read_array32(d, off) }
}

fn read_fraction(d: &[u8], off: usize) -> (r: Fraction)
    requires
        off + 16 <= d@.len(),
    ensures
        r == fraction_at(d@, off as int),
{
    // The slice length is a usize, so offsets below it cannot overflow.
    let _len = d.len();
    Fraction { numerator: read_u64(d, off), denominator: read_u64(d, off + 8) }
}

/// Decodes a pool account. Fails with `Schema` where the bytes are too
/// short or do not open with the pool discriminator.
pub fn decode_pool(d: &[u8]) -> (r: Result<PoolConfig, AdapterError>)
    ensures
        r is Ok <==> is_pool_account(d@),
        r matches Ok(c) ==> decodes_to(d@, c),
        r matches Err(e) ==> e == AdapterError::Schema,
{
    if d.len() < POOL_ACCOUNT_LEN || !has_pool_discriminator(d) {
        return Err(AdapterError::Schema);
    }
    Ok(
        PoolConfig {
            pool_authority: read_address(d, 8),
            token_a_vault: read_address(d, 40),
            token_b_vault: read_address(d, 72),
            token_a_mint: read_address(d, 104),
            token_b_mint: read_address(d, 136),
            token_a_fees_vault: read_address(d, 168),
            token_b_fees_vault: read_address(d, 200),
            token_a_program: read_address(d, 232),
            token_b_program: read_address(d, 264),
            fees: PoolFees {
                trade_fee: read_fraction(d, 296),
                owner_trade_fee: read_fraction(d, 312),
                host_fee: read_fraction(d, 328),
            },
        },
    )
}

} // verus!
