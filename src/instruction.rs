//! The accounts of the pool program's swap instruction, in the order its
//! handler takes them, and the accounts the adapter tracks.

use vstd::prelude::*;
use crate::adapter::JupiterRarefish;
use crate::bytes::{le_u64, lemma_le_prefix, push_u64};
use crate::address::{Address, clock_sysvar_bytes, clock_sysvar_id, token_program_bytes, token_program_id};
use crate::curve::TradeDirection;
use crate::error::AdapterError;
use crate::quote::direction_of;

verus! {

/// Number of accounts the swap instruction takes.
pub const SWAP_ACCOUNT_COUNT: usize = 13;

/// An account an instruction uses, and how.
#[derive(Clone, Copy, Debug)]
pub struct AccountMeta {
    pub pubkey: Address,
    pub is_signer: bool,
    pub is_writable: bool,
}

impl View for AccountMeta {
    type V = (Seq<u8>, bool, bool);

    open spec fn view(&self) -> (Seq<u8>, bool, bool) {
        (self.pubkey@, self.is_signer, self.is_writable)
    }
}

impl AccountMeta {
    /// A writable account.
    pub fn new(pubkey: Address, is_signer: bool) -> (r: AccountMeta)
        ensures
            r@ == (pubkey@, is_signer, true),
    {
        AccountMeta { pubkey, is_signer, is_writable: true }
    }

    /// A read-only account.
    pub fn new_readonly(pubkey: Address, is_signer: bool) -> (r: AccountMeta)
        ensures
            r@ == (pubkey@, is_signer, false),
    {
        AccountMeta { pubkey, is_signer, is_writable: false }
    }
}

/// Who trades, and between which of their token accounts.
#[derive(Clone, Copy, Debug)]
pub struct SwapParams {
    pub source_mint: Address,
    pub destination_mint: Address,
    pub source_token_account: Address,
    pub destination_token_account: Address,
    pub token_transfer_authority: Address,
}

/// The swap instruction's program and accounts.
#[derive(Clone, Debug)]
pub struct SwapAndAccountMetas {
    pub program_id: Address,
    pub account_metas: Vec<AccountMeta>,
}

/// The 32 zero bytes.
pub open spec fn zero_bytes() -> Seq<u8> {
    Seq::new(32, |i: int| 0u8)
}

/// A token program as stored in the pool, with zeros read as the legacy
/// token program.
pub open spec fn program_or_default(p: Seq<u8>) -> Seq<u8> {
    if p == zero_bytes() {
        token_program_bytes()
    } else {
        p
    }
}

/// The swap's accounts for a trade in direction `dir`: only which vault,
/// fee vault and token program fill each role depends on it.
pub open spec fn swap_metas_spec(a: JupiterRarefish, p: SwapParams, dir: TradeDirection) -> Seq<
    (Seq<u8>, bool, bool),
> {
    let c = a.pool;
    let (source_vault, source_fees_vault, source_program, destination_vault, destination_program) =
        match dir {
        TradeDirection::AtoB => (
            c.token_a_vault@,
            c.token_a_fees_vault@,
            c.token_a_program@,
            c.token_b_vault@,
            c.token_b_program@,
        ),
        TradeDirection::BtoA => (
            c.token_b_vault@,
            c.token_b_fees_vault@,
            c.token_b_program@,
            c.token_a_vault@,
            c.token_a_program@,
        ),
    };
    seq![
        (p.token_transfer_authority@, true, false),
        (a.market_key@, false, true),
        (c.pool_authority@, false, false),
        (p.source_mint@, false, false),
        (p.destination_mint@, false, false),
        (source_vault, false, true),
        (destination_vault, false, true),
        (source_fees_vault, false, true),
        (p.source_token_account@, false, true),
        (p.destination_token_account@, false, true),
        (a.program_id@, false, true),
        (program_or_default(source_program), false, false),
        (program_or_default(destination_program), false, false),
    ]
}

/// The token program, with zeros replaced by the legacy token program.
fn resolve_program(p: Address) -> (r: Address)
    ensures
        r@ == program_or_default(p@),
{
    if p.is_zero() {
        token_program_id()
    } else {
        p
    }
}

impl JupiterRarefish {
    /// The pool program.
    pub fn program_id(&self) -> (r: Address)
        ensures
            r == self.program_id,
    {
        self.program_id
    }

    /// The pool account's address.
    pub fn key(&self) -> (r: Address)
        ensures
            r == self.market_key,
    {
        self.market_key
    }

    /// The adapter's name.
    pub fn label(&self) -> (r: String)
        ensures
            r@ == "Rarefish"@,
    {
        "Rarefish".to_string()
    }

    /// The two mints the pool trades.
    pub fn get_reserve_mints(&self) -> (r: Vec<Address>)
        ensures
            r@ == seq![self.pool.token_a_mint, self.pool.token_b_mint],
    {
        vec![self.pool.token_a_mint, self.pool.token_b_mint]
    }

    /// Turns the fetching and charging of transfer fees on or off.
    pub fn set_transfer_fees(&mut self, enabled: bool)
        ensures
            *final(self) == (JupiterRarefish { transfer_fees: enabled, ..*old(self) }),
    {
        self.transfer_fees = enabled;
    }

    /// The accounts an update needs: both vaults, the curve account and the
    /// clock, then both mints where transfer fees are charged.
    pub fn get_accounts_to_update(&self) -> (r: Vec<Address>)
        ensures
            r@.map_values(|k: Address| k@) == if self.transfer_fees {
                seq![
                    self.pool.token_a_vault@,
                    self.pool.token_b_vault@,
                    self.curve_key@,
                    clock_sysvar_bytes(),
                    self.pool.token_a_mint@,
                    self.pool.token_b_mint@,
                ]
            } else {
                seq![
                    self.pool.token_a_vault@,
                    self.pool.token_b_vault@,
                    self.curve_key@,
                    clock_sysvar_bytes(),
                ]
            },
    {
        let mut r = vec![
            self.pool.token_a_vault,
            self.pool.token_b_vault,
            self.curve_key,
            clock_sysvar_id(),
        ];
        if self.transfer_fees {
            r.push(self.pool.token_a_mint);
            r.push(self.pool.token_b_mint);
        }
        assert(r@.map_values(|k: Address| k@) =~= if self.transfer_fees {
            seq![
                self.pool.token_a_vault@,
                self.pool.token_b_vault@,
                self.curve_key@,
                clock_sysvar_bytes(),
                self.pool.token_a_mint@,
                self.pool.token_b_mint@,
            ]
        } else {
            seq![
                self.pool.token_a_vault@,
                self.pool.token_b_vault@,
                self.curve_key@,
                clock_sysvar_bytes(),
            ]
        });
        r
    }

    /// The pool program's swap instruction for `params`: the source mint
    /// picks which vault, fee vault and token program play the source role.
    /// Fails with `InvalidMint` where the source mint is not the pool's.
    pub fn get_swap_and_account_metas(&self, params: &SwapParams) -> (r: Result<
        SwapAndAccountMetas,
        AdapterError,
    >)
        ensures
            match direction_of(*self, params.source_mint@) {
                None => r matches Err(e) && e == AdapterError::InvalidMint,
                Some(dir) => r matches Ok(s) && s.program_id == self.program_id
                    && s.account_metas@.map_values(|m: AccountMeta| m@) == swap_metas_spec(
                    *self,
                    *params,
                    dir,
                ),
            },
    {
        let c = &self.pool;
        let (source_vault, source_fees_vault, source_program, destination_vault, destination_program) =
            if params.source_mint.same(&c.token_a_mint) {
            (c.token_a_vault, c.token_a_fees_vault, c.token_a_program, c.token_b_vault, c.token_b_program)
        } else if params.source_mint.same(&c.token_b_mint) {
            (c.token_b_vault, c.token_b_fees_vault, c.token_b_program, c.token_a_vault, c.token_a_program)
        } else {
            return Err(AdapterError::InvalidMint);
        };
        let source_token_program = resolve_program(source_program);
        let destination_token_program = resolve_program(destination_program);
        let account_metas = vec![
            AccountMeta::new_readonly(params.token_transfer_authority, true),
            AccountMeta::new(self.market_key, false),
            AccountMeta::new_readonly(c.pool_authority, false),
            AccountMeta::new_readonly(params.source_mint, false),
            AccountMeta::new_readonly(params.destination_mint, false),
            AccountMeta::new(source_vault, false),
            AccountMeta::new(destination_vault, false),
            AccountMeta::new(source_fees_vault, false),
            AccountMeta::new(params.source_token_account, false),
            AccountMeta::new(params.destination_token_account, false),
            // No host fee account: the program's own address stands for none.
            AccountMeta::new(self.program_id, false),
            AccountMeta::new_readonly(source_token_program, false),
            AccountMeta::new_readonly(destination_token_program, false),
        ];
        let ghost dir = direction_of(*self, params.source_mint@)->Some_0;
        assert(account_metas@.map_values(|m: AccountMeta| m@) =~= swap_metas_spec(
            *self,
            *params,
            dir,
        ));
        Ok(SwapAndAccountMetas { program_id: self.program_id, account_metas })
    }
}

/// The eight bytes that open the swap instruction's data.
pub open spec fn swap_discriminator() -> Seq<u8> {
    seq![248u8, 198, 158, 145, 225, 117, 135, 200]
}

/// The swap instruction's data: its discriminator, then the amount in and
/// the least amount out the trader accepts, little-endian.
pub fn swap_instruction_data(amount_in: u64, minimum_amount_out: u64) -> (r: Vec<u8>)
    ensures
        r@.len() == 24,
        r@.subrange(0, 8) == swap_discriminator(),
        le_u64(r@, 8) == amount_in,
        le_u64(r@, 16) == minimum_amount_out,
{
    let mut r: Vec<u8> = vec![248, 198, 158, 145, 225, 117, 135, 200];
    push_u64(&mut r, amount_in);
    let ghost with_amount = r@;
    push_u64(&mut r, minimum_amount_out);
    proof {
        assert(with_amount.subrange(0, 8) =~= swap_discriminator());
        assert(r@.subrange(0, 8) =~= with_amount.subrange(0, 8)) by {
            assert(r@.subrange(0, 16) == with_amount);
        }
        assert forall|j: int| 8 <= j < 16 implies with_amount[j] == r@[j] by {
            assert(r@.subrange(0, 16)[j] == r@[j]);
        }
        lemma_le_prefix(with_amount, r@, 8, 8);
    }
    r
}

/// For either direction the swap takes the same number of accounts in the
/// same order; only the vaults and token programs trade roles, and the
/// source fee vault is the source side's.
pub proof fn lemma_swap_metas_layout(a: JupiterRarefish, p: SwapParams)
    ensures
        swap_metas_spec(a, p, TradeDirection::AtoB).len() == SWAP_ACCOUNT_COUNT,
        swap_metas_spec(a, p, TradeDirection::BtoA).len() == SWAP_ACCOUNT_COUNT,
        forall|i: int|
            0 <= i < 5 || 8 <= i < 11 ==> #[trigger] swap_metas_spec(a, p, TradeDirection::AtoB)[i]
                == swap_metas_spec(a, p, TradeDirection::BtoA)[i],
        swap_metas_spec(a, p, TradeDirection::AtoB)[5] == swap_metas_spec(
            a,
            p,
            TradeDirection::BtoA,
        )[6],
        swap_metas_spec(a, p, TradeDirection::AtoB)[6] == swap_metas_spec(
            a,
            p,
            TradeDirection::BtoA,
        )[5],
        swap_metas_spec(a, p, TradeDirection::AtoB)[11] == swap_metas_spec(
            a,
            p,
            TradeDirection::BtoA,
        )[12],
        swap_metas_spec(a, p, TradeDirection::AtoB)[12] == swap_metas_spec(
            a,
            p,
            TradeDirection::BtoA,
        )[11],
        swap_metas_spec(a, p, TradeDirection::AtoB)[7] == (a.pool.token_a_fees_vault@, false, true),
        swap_metas_spec(a, p, TradeDirection::BtoA)[7] == (a.pool.token_b_fees_vault@, false, true),
{
}

} // verus!
