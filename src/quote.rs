//! Quotes: the source mint's transfer fee, the curve, then the destination
//! mint's transfer fee, against the synced snapshot.

use vstd::prelude::*;
use crate::accounts::{KeyedAccount, lookup};
use crate::adapter::{AdapterState, JupiterRarefish};
use crate::address::Address;
use crate::curve::{
    CurveKind,
    TradeDirection,
    lemma_constant_product_succeeds,
    bounded_rounding,
    lemma_round_trip,
    lemma_swap_monotone_in_amount,
    reverse,
    swap,
    swap_spec,
};
use crate::error::AdapterError;
use crate::transfer_fee::{TransferFeeConfig, epoch_fee_amount, epoch_fee_spec, lemma_fee_bounds};

verus! {

/// How the amount of a quote is meant.
#[derive(Clone, Copy, Debug, PartialEq, Eq, Structural)]
pub enum SwapMode {
    /// The amount is what goes in.
    ExactIn,
    /// The amount is what comes out.
    ExactOut,
}

/// What a caller asks a quote for.
#[derive(Clone, Copy, Debug)]
pub struct QuoteParams {
    pub input_mint: Address,
    pub output_mint: Address,
    pub amount: u64,
    pub swap_mode: SwapMode,
}

/// A priced trade.
#[derive(Clone, Copy, Debug, PartialEq, Eq, Structural)]
pub struct Quote {
    /// The amount the trader sends.
    pub in_amount: u64,
    /// What the trader receives, after both transfer fees.
    pub out_amount: u64,
    /// The pool's trading fee.
    pub fee_amount: u64,
    /// The source mint's transfer fee on the amount sent.
    pub input_transfer_fee: u64,
    /// The destination mint's transfer fee on the curve's output.
    pub output_transfer_fee: u64,
}

/// The direction of a trade whose input is `mint`, if it is one of the
/// pool's mints.
pub open spec fn direction_of(a: JupiterRarefish, mint: Seq<u8>) -> Option<TradeDirection> {
    if mint == a.pool.token_a_mint@ {
        Some(TradeDirection::AtoB)
    } else if mint == a.pool.token_b_mint@ {
        Some(TradeDirection::BtoA)
    } else {
        None
    }
}

/// The transfer fee on `amount` at `epoch` under an optional schedule.
pub open spec fn transfer_fee_of(c: Option<TransferFeeConfig>, epoch: u64, amount: u64) -> int {
    match c {
        Some(c) => epoch_fee_amount(c, epoch, amount),
        None => 0,
    }
}

/// The quote that the adapter gives for `p`.
pub open spec fn quote_spec(a: JupiterRarefish, p: QuoteParams) -> Result<Quote, AdapterError> {
    if a.state != AdapterState::Synced || a.snapshot is None {
        Err(AdapterError::State)
    } else if p.swap_mode != SwapMode::ExactIn {
        Err(AdapterError::UnsupportedMode)
    } else if direction_of(a, p.input_mint@) is None {
        Err(AdapterError::InvalidMint)
    } else {
        let dir = direction_of(a, p.input_mint@)->Some_0;
        let s = a.snapshot->Some_0;
        let (source_fee, destination_fee) = match dir {
            TradeDirection::AtoB => (s.token_a_fee, s.token_b_fee),
            TradeDirection::BtoA => (s.token_b_fee, s.token_a_fee),
        };
        let in_fee = transfer_fee_of(source_fee, s.epoch, p.amount);
        if in_fee > p.amount {
            Err(AdapterError::FeeConfig)
        } else {
            match swap_spec(
                s.curve,
                a.pool.fees.trade_fee,
                (p.amount - in_fee) as u64,
                dir,
                s.token_a_amount,
                s.token_b_amount,
            ) {
                Err(e) => Err(e),
                Ok(res) => {
                    let raw = res.destination_amount_swapped;
                    let out_fee = transfer_fee_of(destination_fee, s.epoch, raw);
                    if out_fee > raw {
                        Err(AdapterError::FeeConfig)
                    } else {
                        Ok(
                            Quote {
                                in_amount: p.amount,
                                out_amount: (raw - out_fee) as u64,
                                fee_amount: res.trade_fee,
                                input_transfer_fee: in_fee as u64,
                                output_transfer_fee: out_fee as u64,
                            },
                        )
                    }
                },
            }
        }
    }
}

/// The fee schedule of the mint a trade whose input is `mint` sends.
pub open spec fn source_fee_config(a: JupiterRarefish, mint: Seq<u8>) -> Option<TransferFeeConfig> {
    match direction_of(a, mint) {
        Some(TradeDirection::AtoB) => a.snapshot->Some_0.token_a_fee,
        _ => a.snapshot->Some_0.token_b_fee,
    }
}

/// The balance of the vault that pays a trade whose input is `mint`.
pub open spec fn destination_balance(a: JupiterRarefish, mint: Seq<u8>) -> u64 {
    match direction_of(a, mint) {
        Some(TradeDirection::AtoB) => a.snapshot->Some_0.token_b_amount,
        _ => a.snapshot->Some_0.token_a_amount,
    }
}

fn fee_under(c: Option<TransferFeeConfig>, epoch: u64, amount: u64) -> (r: u64)
    ensures
        r == transfer_fee_of(c, epoch, amount),
{
    match c {
        Some(c) => c.calculate_epoch_fee(epoch, amount),
        None => 0,
    }
}

impl JupiterRarefish {
    /// Prices a trade of `params.amount` of `params.input_mint`. Fails with
    /// `State` unless synced, `UnsupportedMode` for anything but exact
    /// input, `InvalidMint` for a mint of another pool, and otherwise as the
    /// fees and the curve decide.
    pub fn quote(&self, params: &QuoteParams) -> (r: Result<Quote, AdapterError>)
        ensures
            r == quote_spec(*self, *params),
            r matches Ok(q) ==> q.out_amount <= destination_balance(*self, params.input_mint@),
    {
        let s = match (self.state, self.snapshot) {
            (AdapterState::Synced, Some(s)) => s,
            _ => {
                return Err(AdapterError::State);
            },
        };
        match params.swap_mode {
            SwapMode::ExactIn => {},
            _ => {
                return Err(AdapterError::UnsupportedMode);
            },
        }
        let dir = if params.input_mint.same(&self.pool.token_a_mint) {
            TradeDirection::AtoB
        } else if params.input_mint.same(&self.pool.token_b_mint) {
            TradeDirection::BtoA
        } else {
            return Err(AdapterError::InvalidMint);
        };
        let (source_fee, destination_fee) = match dir {
            TradeDirection::AtoB => (s.token_a_fee, s.token_b_fee),
            TradeDirection::BtoA => (s.token_b_fee, s.token_a_fee),
        };
        let in_fee = fee_under(source_fee, s.epoch, params.amount);
        if in_fee > params.amount {
            return Err(AdapterError::FeeConfig);
        }
        let res = match swap(
            s.curve,
            self.pool.fees.trade_fee,
            params.amount - in_fee,
            dir,
            s.token_a_amount,
            s.token_b_amount,
        ) {
            Ok(res) => res,
            Err(e) => {
                return Err(e);
            },
        };
        let raw = res.destination_amount_swapped;
        let out_fee = fee_under(destination_fee, s.epoch, raw);
        if out_fee > raw {
            return Err(AdapterError::FeeConfig);
        }
        Ok(
            Quote {
                in_amount: params.amount,
                out_amount: raw - out_fee,
                fee_amount: res.trade_fee,
                input_transfer_fee: in_fee,
                output_transfer_fee: out_fee,
            },
        )
    }
}

/// An update whose accounts lack either vault leaves the adapter stale, and
/// every quote after it fails with `State`.
pub proof fn lemma_missing_vault_is_stale(
    a: JupiterRarefish,
    accounts: Seq<KeyedAccount>,
    p: QuoteParams,
)
    requires
        lookup(accounts, a.pool.token_a_vault@) is None || lookup(
            accounts,
            a.pool.token_b_vault@,
        ) is None,
    ensures
        a.updated(accounts).state == AdapterState::Stale,
        quote_spec(a.updated(accounts), p) == Err::<Quote, AdapterError>(AdapterError::State),
{
}

/// The schedule's rates are at most 10000 basis points.
pub open spec fn fee_wf(c: Option<TransferFeeConfig>) -> bool {
    c matches Some(c) ==> c.wf()
}

proof fn lemma_transfer_fee_bounds(c: Option<TransferFeeConfig>, epoch: u64, a1: u64, a2: u64)
    requires
        fee_wf(c),
        a1 <= a2,
    ensures
        0 <= transfer_fee_of(c, epoch, a1) <= a1,
        a1 - transfer_fee_of(c, epoch, a1) <= a2 - transfer_fee_of(c, epoch, a2),
{
    if c is Some {
        lemma_fee_bounds(epoch_fee_spec(c->Some_0, epoch), a1, a2);
    }
}

/// On a synced constant-product pool with both reserves nonzero and a fee
/// rate of at most one, an exact-input quote for one of the pool's mints
/// succeeds exactly when something is left for the curve after the source
/// mint's transfer fee.
pub proof fn lemma_constant_product_quote_succeeds(a: JupiterRarefish, p: QuoteParams)
    requires
        a.wf(),
        a.state == AdapterState::Synced,
        a.snapshot matches Some(s) && s.curve == CurveKind::ConstantProduct && s.token_a_amount > 0
            && s.token_b_amount > 0,
        a.pool.fees.trade_fee.at_most_one(),
        p.swap_mode == SwapMode::ExactIn,
        direction_of(a, p.input_mint@) is Some,
    ensures
        quote_spec(a, p) is Ok <==> p.amount > transfer_fee_of(
            source_fee_config(a, p.input_mint@),
            a.snapshot->Some_0.epoch,
            p.amount,
        ),
{
    let dir = direction_of(a, p.input_mint@)->Some_0;
    let s = a.snapshot->Some_0;
    let (source_fee, destination_fee) = match dir {
        TradeDirection::AtoB => (s.token_a_fee, s.token_b_fee),
        TradeDirection::BtoA => (s.token_b_fee, s.token_a_fee),
    };
    lemma_transfer_fee_bounds(source_fee, s.epoch, p.amount, p.amount);
    let c = (p.amount - transfer_fee_of(source_fee, s.epoch, p.amount)) as u64;
    lemma_constant_product_succeeds(
        a.pool.fees.trade_fee,
        c,
        dir,
        s.token_a_amount,
        s.token_b_amount,
    );
    if swap_spec(
        s.curve,
        a.pool.fees.trade_fee,
        c,
        dir,
        s.token_a_amount,
        s.token_b_amount,
    ) is Ok {
        let raw = swap_spec(
            s.curve,
            a.pool.fees.trade_fee,
            c,
            dir,
            s.token_a_amount,
            s.token_b_amount,
        )->Ok_0.destination_amount_swapped;
        lemma_transfer_fee_bounds(destination_fee, s.epoch, raw, raw);
    }
}

/// Monotonicity of quotes: for one snapshot and one input mint, a larger
/// amount never gets a smaller output.
pub proof fn lemma_quote_monotone(a: JupiterRarefish, smaller: QuoteParams, larger: QuoteParams)
    requires
        a.wf(),
        a.pool.fees.trade_fee.at_most_one(),
        smaller.input_mint == larger.input_mint,
        smaller.amount <= larger.amount,
        quote_spec(a, smaller) is Ok,
        quote_spec(a, larger) is Ok,
    ensures
        quote_spec(a, smaller)->Ok_0.out_amount <= quote_spec(a, larger)->Ok_0.out_amount,
{
    let dir = direction_of(a, smaller.input_mint@)->Some_0;
    let s = a.snapshot->Some_0;
    let (source_fee, destination_fee) = match dir {
        TradeDirection::AtoB => (s.token_a_fee, s.token_b_fee),
        TradeDirection::BtoA => (s.token_b_fee, s.token_a_fee),
    };
    lemma_transfer_fee_bounds(source_fee, s.epoch, smaller.amount, larger.amount);
    let c1 = (smaller.amount - transfer_fee_of(source_fee, s.epoch, smaller.amount)) as u64;
    let c2 = (larger.amount - transfer_fee_of(source_fee, s.epoch, larger.amount)) as u64;
    lemma_swap_monotone_in_amount(
        s.curve,
        a.pool.fees.trade_fee,
        c1,
        c2,
        dir,
        s.token_a_amount,
        s.token_b_amount,
    );
    let raw1 = swap_spec(
        s.curve,
        a.pool.fees.trade_fee,
        c1,
        dir,
        s.token_a_amount,
        s.token_b_amount,
    )->Ok_0.destination_amount_swapped;
    let raw2 = swap_spec(
        s.curve,
        a.pool.fees.trade_fee,
        c2,
        dir,
        s.token_a_amount,
        s.token_b_amount,
    )->Ok_0.destination_amount_swapped;
    lemma_transfer_fee_bounds(destination_fee, s.epoch, raw1, raw2);
}

/// Round trip of quotes: quoting one mint into the other, then at most the
/// resulting output back, yields at most the first amount, whenever the
/// first curve trade's rounding is bounded as `bounded_rounding` says.
pub proof fn lemma_quote_round_trip(a: JupiterRarefish, there: QuoteParams, back: QuoteParams)
    requires
        a.wf(),
        a.pool.fees.trade_fee.at_most_one(),
        a.pool.token_a_mint@ != a.pool.token_b_mint@,
        direction_of(a, there.input_mint@) is Some,
        direction_of(a, back.input_mint@) == Some(reverse(direction_of(a, there.input_mint@)->Some_0)),
        quote_spec(a, there) is Ok,
        back.amount <= quote_spec(a, there)->Ok_0.out_amount,
        quote_spec(a, back) is Ok,
        bounded_rounding(
            a.snapshot->Some_0.curve,
            a.pool.fees.trade_fee,
            (there.amount - quote_spec(a, there)->Ok_0.input_transfer_fee) as u64,
            direction_of(a, there.input_mint@)->Some_0,
            a.snapshot->Some_0.token_a_amount,
            a.snapshot->Some_0.token_b_amount,
        ),
    ensures
        quote_spec(a, back)->Ok_0.out_amount <= there.amount,
{
    let dir = direction_of(a, there.input_mint@)->Some_0;
    let s = a.snapshot->Some_0;
    let (source_fee, destination_fee) = match dir {
        TradeDirection::AtoB => (s.token_a_fee, s.token_b_fee),
        TradeDirection::BtoA => (s.token_b_fee, s.token_a_fee),
    };
    lemma_transfer_fee_bounds(source_fee, s.epoch, there.amount, there.amount);
    let c1 = (there.amount - transfer_fee_of(source_fee, s.epoch, there.amount)) as u64;
    let raw1 = swap_spec(
        s.curve,
        a.pool.fees.trade_fee,
        c1,
        dir,
        s.token_a_amount,
        s.token_b_amount,
    )->Ok_0.destination_amount_swapped;
    lemma_transfer_fee_bounds(destination_fee, s.epoch, raw1, raw1);
    lemma_transfer_fee_bounds(destination_fee, s.epoch, back.amount, back.amount);
    let c2 = (back.amount - transfer_fee_of(destination_fee, s.epoch, back.amount)) as u64;
    lemma_round_trip(
        s.curve,
        a.pool.fees.trade_fee,
        c1,
        c2,
        dir,
        s.token_a_amount,
        s.token_b_amount,
    );
    let raw2 = swap_spec(
        s.curve,
        a.pool.fees.trade_fee,
        c2,
        reverse(dir),
        s.token_a_amount,
        s.token_b_amount,
    )->Ok_0.destination_amount_swapped;
    lemma_transfer_fee_bounds(source_fee, s.epoch, raw2, raw2);
}

} // verus!
