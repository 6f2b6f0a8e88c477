//! The accounts that the adapter reads: token accounts, the clock, the curve
//! account, and a batch of fetched accounts keyed by address.

use vstd::prelude::*;
use crate::address::Address;
use crate::bytes::{le_u64, read_u64};
use crate::curve::CurveKind;

verus! {

/// Length of a token account.
pub const TOKEN_ACCOUNT_LEN: usize = 165;

/// Offset of a token account's balance.
pub const TOKEN_AMOUNT_OFFSET: usize = 64;

/// Offset of a token account's state byte.
pub const TOKEN_STATE_OFFSET: usize = 108;

/// Length of the clock sysvar.
pub const CLOCK_LEN: usize = 40;

/// Offset of the epoch in the clock sysvar.
pub const CLOCK_EPOCH_OFFSET: usize = 16;

/// Length of a curve account.
pub const CURVE_ACCOUNT_LEN: usize = 16;

/// Curve tag of the constant-product curve.
pub const CURVE_CONSTANT_PRODUCT: u64 = 1;

/// Curve tag of the offset curve.
pub const CURVE_OFFSET: u64 = 2;

/// An account's address and its raw bytes.
#[derive(Clone, Debug)]
pub struct KeyedAccount {
    pub key: Address,
    pub data: Vec<u8>,
}

/// The bytes of the first account in `accounts` from index `i` on whose
/// address is `key`.
pub open spec fn lookup_from(accounts: Seq<KeyedAccount>, key: Seq<u8>, i: int) -> Option<
    Seq<u8>,
>
    decreases accounts.len() - i,
{
    if i < 0 || i >= accounts.len() {
        None
    } else if accounts[i].key@ == key {
        Some(accounts[i].data@)
    } else {
        lookup_from(accounts, key, i + 1)
    }
}

/// The bytes fetched for `key`, if any; the first entry wins.
pub open spec fn lookup(accounts: Seq<KeyedAccount>, key: Seq<u8>) -> Option<Seq<u8>> {
    lookup_from(accounts, key, 0)
}

/// Index of the first account whose address is `key`.
pub fn find_account(accounts: &[KeyedAccount], key: &Address) -> (r: Option<usize>)
    ensures
        match r {
            Some(i) => i < accounts@.len() && lookup(accounts@, key@) == Some(
                accounts@[i as int].data@,
            ),
            None => lookup(accounts@, key@) is None,
        },
{
    let mut i: usize = 0;
    while i < accounts.len()
        invariant
            0 <= i <= accounts@.len(),
            lookup(accounts@, key@) == lookup_from(accounts@, key@, i as int),
        decreases accounts@.len() - i,
    {
        if accounts[i].key.same(key) {
            return Some(i);
        }
        i = i + 1;
    }
    None
}

/// The balance of an initialized or frozen token account.
pub open spec fn token_amount_spec(d: Seq<u8>) -> Option<u64> {
    if d.len() >= 165 && (d[108] == 1 || d[108] == 2) {
        Some(le_u64(d, 64))
    } else {
        None
    }
}

/// The epoch held by the clock sysvar.
pub open spec fn clock_epoch_spec(d: Seq<u8>) -> Option<u64> {
    if d.len() >= 40 {
        Some(le_u64(d, 16))
    } else {
        None
    }
}

/// The curve held by a curve account: a tag, then the token-B offset.
pub open spec fn curve_spec(d: Seq<u8>) -> Option<CurveKind> {
    if d.len() < 16 {
        None
    } else if le_u64(d, 0) == 1 {
        Some(CurveKind::ConstantProduct)
    } else if le_u64(d, 0) == 2 {
        Some(CurveKind::Offset { token_b_offset: le_u64(d, 8) })
    } else {
        None
    }
}

/// Reads the balance of a token account; `None` for bytes that are too
/// short or an account that is not initialized.
pub fn token_amount(d: &[u8]) -> (r: Option<u64>)
    ensures
        r == token_amount_spec(d@),
{
    if d.len() < TOKEN_ACCOUNT_LEN {
        return None;
    }
    let state = d[TOKEN_STATE_OFFSET];
    if state != 1 && state != 2 {
        return None;
    }
    Some(read_u64(d, TOKEN_AMOUNT_OFFSET))
}

/// Reads the epoch from the clock sysvar.
pub fn clock_epoch(d: &[u8]) -> (r: Option<u64>)
    ensures
        r == clock_epoch_spec(d@),
{
    if d.len() < CLOCK_LEN {
        return None;
    }
    Some(read_u64(d, CLOCK_EPOCH_OFFSET))
}

/// Reads the curve from a curve account; `None` for an unknown tag.
pub fn decode_curve(d: &[u8]) -> (r: Option<CurveKind>)
    ensures
        r == curve_spec(d@),
{
    if d.len() < CURVE_ACCOUNT_LEN {
        return None;
    }
    let tag = read_u64(d, 0);
    if tag == CURVE_CONSTANT_PRODUCT {
        Some(CurveKind::ConstantProduct)
    } else if tag == CURVE_OFFSET {
        Some(CurveKind::Offset { token_b_offset: read_u64(d, 8) })
    } else {
        None
    }
}

} // verus!
