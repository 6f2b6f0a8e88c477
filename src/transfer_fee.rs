//! Transfer fees that a mint charges on every transfer, with a rate that
//! changes at an epoch boundary, and the mint extension that holds them.

use vstd::prelude::*;
use vstd::arithmetic::div_mod::{
    lemma_div_is_ordered,
    lemma_div_pos_is_pos,
    lemma_hoist_over_denominator,
    lemma_div_multiples_vanish_fancy,
};
use crate::bytes::{le_u16, le_u64, read_u16, read_u64};
use crate::error::AdapterError;

verus! {

/// Basis points in one whole.
pub const MAX_FEE_BASIS_POINTS: u16 = 10_000;

/// Length of a mint's base state.
pub const MINT_BASE_LEN: usize = 82;

/// Offset of the account-type byte in an extended mint.
pub const ACCOUNT_TYPE_OFFSET: usize = 165;

/// Account-type byte of a mint.
pub const ACCOUNT_TYPE_MINT: u8 = 1;

/// Extension type of the transfer-fee configuration.
pub const TRANSFER_FEE_CONFIG_TYPE: u16 = 1;

/// Length of the transfer-fee configuration's value.
pub const TRANSFER_FEE_CONFIG_LEN: u16 = 108;

/// Offset of the older fee within the configuration's value.
pub const OLDER_FEE_OFFSET: usize = 72;

/// Offset of the newer fee within the configuration's value.
pub const NEWER_FEE_OFFSET: usize = 90;

/// One fee rate: in force from `epoch` on, capped at `maximum_fee`.
#[derive(Clone, Copy, Debug, PartialEq, Eq, Structural)]
pub struct TransferFee {
    pub epoch: u64,
    pub maximum_fee: u64,
    pub transfer_fee_basis_points: u16,
}

/// A mint's fee schedule: the older rate until the newer one's epoch.
#[derive(Clone, Copy, Debug, PartialEq, Eq, Structural)]
pub struct TransferFeeConfig {
    pub older_transfer_fee: TransferFee,
    pub newer_transfer_fee: TransferFee,
}

impl TransferFeeConfig {
    /// Both rates lie in `[0, 10000]` basis points.
    pub open spec fn wf(self) -> bool {
        self.older_transfer_fee.transfer_fee_basis_points <= 10_000
            && self.newer_transfer_fee.transfer_fee_basis_points <= 10_000
    }
}

/// The rate in force at `epoch`.
pub open spec fn epoch_fee_spec(c: TransferFeeConfig, epoch: u64) -> TransferFee {
    if epoch >= c.newer_transfer_fee.epoch {
        c.newer_transfer_fee
    } else {
        c.older_transfer_fee
    }
}

/// `ceil(amount * bps / 10000)`, capped at the maximum fee.
pub open spec fn fee_spec(f: TransferFee, amount: u64) -> int {
    if f.transfer_fee_basis_points == 0 || amount == 0 {
        0
    } else {
        let raw = (amount * f.transfer_fee_basis_points + 9_999) / 10_000;
        if raw < f.maximum_fee {
            raw
        } else {
            f.maximum_fee as int
        }
    }
}

/// The fee charged on a transfer of `amount` at `epoch`.
pub open spec fn epoch_fee_amount(c: TransferFeeConfig, epoch: u64, amount: u64) -> int {
    fee_spec(epoch_fee_spec(c, epoch), amount)
}

impl TransferFee {
    /// The fee on a transfer of `amount`: `ceil(amount * bps / 10000)`,
    /// capped at the maximum fee.
    pub fn calculate_fee(&self, amount: u64) -> (r: u64)
        ensures
            r == fee_spec(*self, amount),
    {
        if self.transfer_fee_basis_points == 0 || amount == 0 {
            return 0;
        }
        let bps = self.transfer_fee_basis_points as u128;
        proof {
            vstd::arithmetic::mul::lemma_mul_upper_bound(
                amount as int,
                u64::MAX as int,
                bps as int,
                u16::MAX as int,
            );
        }
        let raw = (amount as u128 * bps + 9_999) / 10_000;
        if raw < self.maximum_fee as u128 {
            raw as u64
        } else {
            self.maximum_fee
        }
    }
}

impl TransferFeeConfig {
    /// The rate in force at `epoch`: the newer one from its epoch on.
    pub fn get_epoch_fee(&self, epoch: u64) -> (r: TransferFee)
        ensures
            r == epoch_fee_spec(*self, epoch),
    {
        if epoch >= self.newer_transfer_fee.epoch {
            self.newer_transfer_fee
        } else {
            self.older_transfer_fee
        }
    }

    /// The fee on a transfer of `amount` at `epoch`.
    pub fn calculate_epoch_fee(&self, epoch: u64, amount: u64) -> (r: u64)
        ensures
            r == epoch_fee_amount(*self, epoch, amount),
    {
        self.get_epoch_fee(epoch).calculate_fee(amount)
    }
}

/// A fee at a rate of at most 10000 basis points lies in `[0, amount]`, and
/// what is left after it never shrinks as the amount grows.
pub proof fn lemma_fee_bounds(f: TransferFee, a1: u64, a2: u64)
    requires
        f.transfer_fee_basis_points <= 10_000,
        a1 <= a2,
    ensures
        0 <= fee_spec(f, a1) <= a1,
        a1 - fee_spec(f, a1) <= a2 - fee_spec(f, a2),
{
    let b = f.transfer_fee_basis_points as int;
    if b > 0 {
        let c1 = (a1 * b + 9_999) / 10_000;
        let c2 = (a2 * b + 9_999) / 10_000;
        assert(a1 * b <= a2 * b <= a1 * b + (a2 - a1) * 10_000 && 0 <= a1 * b <= a1 * 10_000)
            by (nonlinear_arith)
            requires
                0 <= a1 <= a2,
                0 <= b <= 10_000,
        ;
        lemma_div_pos_is_pos(a1 * b + 9_999, 10_000);
        lemma_div_is_ordered(a1 * b + 9_999, a1 * 10_000 + 9_999, 10_000);
        lemma_div_multiples_vanish_fancy(a1 as int, 9_999, 10_000);
        lemma_div_is_ordered(a2 * b + 9_999, a1 * b + 9_999 + (a2 - a1) * 10_000, 10_000);
        lemma_div_is_ordered(a1 * b + 9_999, a2 * b + 9_999, 10_000);
        lemma_hoist_over_denominator(a1 * b + 9_999, a2 - a1, 10_000);
        lemma_div_is_ordered(a2 * b + 9_999, a2 * 10_000 + 9_999, 10_000);
        lemma_div_multiples_vanish_fancy(a2 as int, 9_999, 10_000);
        lemma_div_pos_is_pos(a2 * b + 9_999, 10_000);
    }
}

/// Epoch transition: with a schedule whose newer rate starts at epoch `E`,
/// a transfer at epoch `E - 1` pays the older rate and one at `E` the newer.
pub proof fn lemma_epoch_transition(c: TransferFeeConfig, amount: u64)
    requires
        c.newer_transfer_fee.epoch > 0,
    ensures
        epoch_fee_amount(c, (c.newer_transfer_fee.epoch - 1) as u64, amount) == fee_spec(
            c.older_transfer_fee,
            amount,
        ),
        epoch_fee_amount(c, c.newer_transfer_fee.epoch, amount) == fee_spec(
            c.newer_transfer_fee,
            amount,
        ),
{
}

/// The rate stored at `off`: epoch, maximum fee, basis points.
pub open spec fn fee_at(d: Seq<u8>, off: int) -> TransferFee {
    TransferFee {
        epoch: le_u64(d, off),
        maximum_fee: le_u64(d, off + 8),
        transfer_fee_basis_points: le_u16(d, off + 16),
    }
}

/// The schedule stored in a configuration value that starts at `off`.
pub open spec fn config_at(d: Seq<u8>, off: int) -> TransferFeeConfig {
    TransferFeeConfig {
        older_transfer_fee: fee_at(d, off + 72),
        newer_transfer_fee: fee_at(d, off + 90),
    }
}

/// Walks the type-length-value entries from `off` for the transfer-fee
/// configuration. A type of zero, or fewer than four bytes left, ends the
/// entries; an entry that runs past the data is malformed.
pub open spec fn find_fee_entry(d: Seq<u8>, off: int) -> Result<
    Option<TransferFeeConfig>,
    AdapterError,
>
    decreases d.len() - off,
{
    if off < 0 || off + 4 > d.len() {
        Ok(None)
    } else {
        let t = le_u16(d, off);
        let l = le_u16(d, off + 2);
        if t == 0 {
            Ok(None)
        } else if off + 4 + l > d.len() {
            Err(AdapterError::FeeConfig)
        } else if t == 1 {
            let c = config_at(d, off + 4);
            if l != 108 || !c.wf() {
                Err(AdapterError::FeeConfig)
            } else {
                Ok(Some(c))
            }
        } else {
            find_fee_entry(d, off + 4 + l)
        }
    }
}

/// The transfer-fee schedule of a mint's bytes: none for a mint without
/// extensions, an error for bytes that are not a mint.
pub open spec fn mint_fee_spec(d: Seq<u8>) -> Result<Option<TransferFeeConfig>, AdapterError> {
    if d.len() < 82 {
        Err(AdapterError::FeeConfig)
    } else if d.len() <= 165 {
        Ok(None)
    } else if d[165] != 1 {
        Err(AdapterError::FeeConfig)
    } else {
        find_fee_entry(d, 166)
    }
}

fn read_fee(d: &[u8], off: usize) -> (r: TransferFee)
    requires
        off + 18 <= d@.len(),
    ensures
        r == fee_at(d@, off as int),
{
    // The slice length is a usize, so offsets below it cannot overflow.
    let _len = d.len();
    TransferFee {
        epoch: read_u64(d, off),
        maximum_fee: read_u64(d, off + 8),
        transfer_fee_basis_points: read_u16(d, off + 16),
    }
}

/// Decodes the transfer-fee schedule from a mint's bytes.
pub fn parse_mint_fee_config(d: &[u8]) -> (r: Result<Option<TransferFeeConfig>, AdapterError>)
    ensures
        r == mint_fee_spec(d@),
        r matches Ok(Some(c)) ==> c.wf(),
{
    let len = d.len();
    if len < MINT_BASE_LEN {
        return Err(AdapterError::FeeConfig);
    }
    if len <= ACCOUNT_TYPE_OFFSET {
        return Ok(None);
    }
    if d[ACCOUNT_TYPE_OFFSET] != ACCOUNT_TYPE_MINT {
        return Err(AdapterError::FeeConfig);
    }
    let mut off: usize = ACCOUNT_TYPE_OFFSET + 1;
    while off <= len && len - off >= 4
        invariant
            len == d@.len(),
            166 <= off,
            mint_fee_spec(d@) == find_fee_entry(d@, off as int),
        decreases len - off,
    {
        let t = read_u16(d, off);
        let l = read_u16(d, off + 2);
        if t == 0 {
            return Ok(None);
        }
        if len - off - 4 < l as usize {
            return Err(AdapterError::FeeConfig);
        }
        if t == TRANSFER_FEE_CONFIG_TYPE {
            if l != TRANSFER_FEE_CONFIG_LEN {
                return Err(AdapterError::FeeConfig);
            }
            let c = TransferFeeConfig {
                older_transfer_fee: read_fee(d, off + 4 + OLDER_FEE_OFFSET),
                newer_transfer_fee: read_fee(d, off + 4 + NEWER_FEE_OFFSET),
            };
            if c.older_transfer_fee.transfer_fee_basis_points > MAX_FEE_BASIS_POINTS
                || c.newer_transfer_fee.transfer_fee_basis_points > MAX_FEE_BASIS_POINTS {
                return Err(AdapterError::FeeConfig);
            }
            return Ok(Some(c));
        }
        off = off + 4 + l as usize;
    }
    Ok(None)
}

} // verus!
