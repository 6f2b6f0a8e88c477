//! The adapter: a pool's configuration, the snapshot of its reserves, and
//! the state machine that guards quoting.

use vstd::prelude::*;
use crate::accounts::{
    KeyedAccount,
    clock_epoch,
    clock_epoch_spec,
    curve_spec,
    decode_curve,
    find_account,
    lookup,
    token_amount,
    token_amount_spec,
};
use crate::address::{Address, clock_sysvar_bytes, clock_sysvar_id, find_program_address, program_address};
use crate::curve::CurveKind;
use crate::error::AdapterError;
use crate::pool::{PoolConfig, decode_pool, decodes_to, is_pool_account};
use crate::transfer_fee::{TransferFeeConfig, mint_fee_spec, parse_mint_fee_config};

verus! {

/// Where the adapter stands: configured from the pool account, synced with
/// a complete snapshot, or stale after an update that lacked data.
#[derive(Clone, Copy, Debug, PartialEq, Eq, Structural)]
pub enum AdapterState {
    Configured,
    Synced,
    Stale,
}

/// Everything a quote reads, replaced as a whole on each successful update.
#[derive(Clone, Copy, Debug, PartialEq, Eq, Structural)]
pub struct ReserveSnapshot {
    pub token_a_amount: u64,
    pub token_b_amount: u64,
    pub curve: CurveKind,
    pub epoch: u64,
    pub token_a_fee: Option<TransferFeeConfig>,
    pub token_b_fee: Option<TransferFeeConfig>,
}

impl ReserveSnapshot {
    /// Every fee schedule it holds is well formed.
    pub open spec fn wf(self) -> bool {
        &&& (self.token_a_fee matches Some(c) ==> c.wf())
        &&& (self.token_b_fee matches Some(c) ==> c.wf())
    }
}

/// The seed that, with the pool's address, derives its curve account.
pub open spec fn curve_seed() -> Seq<u8> {
    seq![99u8, 117, 114, 118, 101]
}

/// A quoting and instruction-building adapter for one pool.
#[derive(Clone, Copy, Debug)]
pub struct JupiterRarefish {
    /// The pool account's address.
    pub market_key: Address,
    /// What the pool account fixes.
    pub pool: PoolConfig,
    /// The pool program.
    pub program_id: Address,
    /// The curve account, derived from the pool's address.
    pub curve_key: Address,
    /// Whether mints' transfer fees are fetched and charged.
    pub transfer_fees: bool,
    pub state: AdapterState,
    /// The last complete snapshot, if any update has succeeded.
    pub snapshot: Option<ReserveSnapshot>,
}

/// The fee schedule of one mint after an update: fresh bytes decide where
/// they were fetched, else the previous schedule stays.
pub open spec fn next_fee(
    accounts: Seq<KeyedAccount>,
    mint: Seq<u8>,
    previous: Option<TransferFeeConfig>,
) -> Result<Option<TransferFeeConfig>, AdapterError> {
    match lookup(accounts, mint) {
        Some(d) => mint_fee_spec(d),
        None => Ok(previous),
    }
}

/// A value decoded from fresh bytes, else the previous one.
pub open spec fn fresh_or<T>(fresh: Option<T>, previous: Option<T>) -> Option<T> {
    match fresh {
        Some(v) => Some(v),
        None => previous,
    }
}

/// The fee schedule of `mint` from fresh bytes, else `previous`.
fn fetched_fee(
    accounts: &[KeyedAccount],
    mint: &Address,
    previous: Option<TransferFeeConfig>,
) -> (r: Result<Option<TransferFeeConfig>, AdapterError>)
    ensures
        r == next_fee(accounts@, mint@, previous),
        r matches Ok(Some(c)) ==> c.wf() || previous == Some(c),
{
    match find_account(accounts, mint) {
        Some(i) => parse_mint_fee_config(accounts[i].data.as_slice()),
        None => Ok(previous),
    }
}

impl JupiterRarefish {
    /// The adapter's snapshot keeps only well-formed fee schedules.
    pub open spec fn wf(self) -> bool {
        self.snapshot matches Some(s) ==> s.wf()
    }

    /// What an update with `accounts` builds: an error for a malformed mint,
    /// `None` where a mandatory value is missing, else the new snapshot.
    /// Vault balances must be fetched each time; the curve, the epoch and
    /// the fee schedules fall back on the previous snapshot.
    pub open spec fn sync_spec(self, accounts: Seq<KeyedAccount>) -> Result<
        Option<ReserveSnapshot>,
        AdapterError,
    > {
        let prev = self.snapshot;
        let fee_a = if self.transfer_fees {
            next_fee(
                accounts,
                self.pool.token_a_mint@,
                if prev is Some { prev->Some_0.token_a_fee } else { None },
            )
        } else {
            Ok(None)
        };
        let fee_b = if self.transfer_fees {
            next_fee(
                accounts,
                self.pool.token_b_mint@,
                if prev is Some { prev->Some_0.token_b_fee } else { None },
            )
        } else {
            Ok(None)
        };
        let amount_a = match lookup(accounts, self.pool.token_a_vault@) {
            Some(d) => token_amount_spec(d),
            None => None,
        };
        let amount_b = match lookup(accounts, self.pool.token_b_vault@) {
            Some(d) => token_amount_spec(d),
            None => None,
        };
        let curve = fresh_or(
            match lookup(accounts, self.curve_key@) {
                Some(d) => curve_spec(d),
                None => None,
            },
            if prev is Some { Some(prev->Some_0.curve) } else { None },
        );
        let epoch = fresh_or(
            match lookup(accounts, clock_sysvar_bytes()) {
                Some(d) => clock_epoch_spec(d),
                None => None,
            },
            if prev is Some { Some(prev->Some_0.epoch) } else { None },
        );
        if fee_a is Err {
            Err(fee_a->Err_0)
        } else if fee_b is Err {
            Err(fee_b->Err_0)
        } else if amount_a is Some && amount_b is Some && curve is Some && epoch is Some {
            Ok(
                Some(
                    ReserveSnapshot {
                        token_a_amount: amount_a->Some_0,
                        token_b_amount: amount_b->Some_0,
                        curve: curve->Some_0,
                        epoch: epoch->Some_0,
                        token_a_fee: fee_a->Ok_0,
                        token_b_fee: fee_b->Ok_0,
                    },
                ),
            )
        } else {
            Ok(None)
        }
    }

    /// The adapter after an update with `accounts`: synced with the new
    /// snapshot, or stale with the previous snapshot untouched.
    pub open spec fn updated(self, accounts: Seq<KeyedAccount>) -> JupiterRarefish {
        match self.sync_spec(accounts) {
            Ok(Some(s)) => JupiterRarefish {
                state: AdapterState::Synced,
                snapshot: Some(s),
                ..self
            },
            _ => JupiterRarefish { state: AdapterState::Stale, ..self },
        }
    }

    /// A freshly built adapter for the pool account `key` holding `data`:
    /// the decoded configuration, the derived curve account, no snapshot.
    pub open spec fn configured_from(self, key: Address, data: Seq<u8>, program_id: Address) -> bool {
        &&& decodes_to(data, self.pool)
        &&& self.market_key == key
        &&& self.program_id == program_id
        &&& Some(self.curve_key@) == program_address(curve_seed(), key@, program_id@)
        &&& !self.transfer_fees
        &&& self.state == AdapterState::Configured
        &&& self.snapshot is None
    }

    /// Builds the adapter from the pool account's address and bytes, for
    /// the pool program `program_id`. Fails with `Schema` where the bytes
    /// are not a pool account, or no curve account can be derived.
    pub fn new_from_keyed_account(keyed_account: &KeyedAccount, program_id: Address) -> (r: Result<
        JupiterRarefish,
        AdapterError,
    >)
        ensures
            r is Ok <==> (is_pool_account(keyed_account.data@) && program_address(
                curve_seed(),
                keyed_account.key@,
                program_id@,
            ) is Some),
            r matches Err(e) ==> e == AdapterError::Schema,
            r matches Ok(a) ==> a.configured_from(keyed_account.key, keyed_account.data@, program_id),
    {
        let pool = match decode_pool(keyed_account.data.as_slice()) {
            Ok(pool) => pool,
            Err(e) => {
                return Err(e);
            },
        };
        // "curve"
        let seed: [u8; 5] = [99, 117, 114, 118, 101];
        assert(seed@ =~= curve_seed());
        let curve_key = match find_program_address(&seed, &keyed_account.key, &program_id) {
            Some(k) => k,
            None => {
                return Err(AdapterError::Schema);
            },
        };
        Ok(
            JupiterRarefish {
                market_key: keyed_account.key,
                pool,
                program_id,
                curve_key,
                transfer_fees: false,
                state: AdapterState::Configured,
                snapshot: None,
            },
        )
    }

    /// Same as `new_from_keyed_account`.
    pub fn from_keyed_account(keyed_account: &KeyedAccount, program_id: Address) -> (r: Result<
        JupiterRarefish,
        AdapterError,
    >)
        ensures
            r is Ok <==> (is_pool_account(keyed_account.data@) && program_address(
                curve_seed(),
                keyed_account.key@,
                program_id@,
            ) is Some),
            r matches Err(e) ==> e == AdapterError::Schema,
            r matches Ok(a) ==> a.configured_from(keyed_account.key, keyed_account.data@, program_id),
    {
        JupiterRarefish::new_from_keyed_account(keyed_account, program_id)
    }

    /// Builds a new snapshot from `accounts`, merged with the previous
    /// snapshot where the curve, epoch or fee schedules were not fetched.
    /// Publishes it and turns synced where every mandatory value resolved;
    /// else turns stale and keeps the previous snapshot. A malformed mint
    /// extension fails the update with `FeeConfig`.
    pub fn update(&mut self, accounts: &[KeyedAccount]) -> (r: Result<(), AdapterError>)
        requires
            old(self).wf(),
        ensures
            *final(self) == old(self).updated(accounts@),
            final(self).wf(),
            match old(self).sync_spec(accounts@) {
                Err(e) => r == Err::<(), AdapterError>(e),
                Ok(_) => r is Ok,
            },
    {
        let prev = self.snapshot;
        let (prev_fee_a, prev_fee_b) = match prev {
            Some(s) => (s.token_a_fee, s.token_b_fee),
            None => (None, None),
        };
        let fee_a = if self.transfer_fees {
            fetched_fee(accounts, &self.pool.token_a_mint, prev_fee_a)
        } else {
            Ok(None)
        };
        let fee_b = if self.transfer_fees {
            fetched_fee(accounts, &self.pool.token_b_mint, prev_fee_b)
        } else {
            Ok(None)
        };
        let amount_a = match find_account(accounts, &self.pool.token_a_vault) {
            Some(i) => token_amount(accounts[i].data.as_slice()),
            None => None,
        };
        let amount_b = match find_account(accounts, &self.pool.token_b_vault) {
            Some(i) => token_amount(accounts[i].data.as_slice()),
            None => None,
        };
        let fresh_curve = match find_account(accounts, &self.curve_key) {
            Some(i) => decode_curve(accounts[i].data.as_slice()),
            None => None,
        };
        let curve = match fresh_curve {
            Some(c) => Some(c),
            None => match prev {
                Some(s) => Some(s.curve),
                None => None,
            },
        };
        let clock = clock_sysvar_id();
        let fresh_epoch = match find_account(accounts, &clock) {
            Some(i) => clock_epoch(accounts[i].data.as_slice()),
            None => None,
        };
        let epoch = match fresh_epoch {
            Some(e) => Some(e),
            None => match prev {
                Some(s) => Some(s.epoch),
                None => None,
            },
        };
        let (fee_a, fee_b) = match (fee_a, fee_b) {
            (Ok(a), Ok(b)) => (a, b),
            (Err(e), _) => {
                self.state = AdapterState::Stale;
                return Err(e);
            },
            (_, Err(e)) => {
                self.state = AdapterState::Stale;
                return Err(e);
            },
        };
        match (amount_a, amount_b, curve, epoch) {
            (Some(a), Some(b), Some(c), Some(e)) => {
                self.snapshot = Some(
                    ReserveSnapshot {
                        token_a_amount: a,
                        token_b_amount: b,
                        curve: c,
                        epoch: e,
                        token_a_fee: fee_a,
                        token_b_fee: fee_b,
                    },
                );
                self.state = AdapterState::Synced;
            },
            _ => {
                self.state = AdapterState::Stale;
            },
        }
        Ok(())
    }
}

} // verus!
