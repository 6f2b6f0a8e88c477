use jupiter_rarefish::accounts::KeyedAccount;
use jupiter_rarefish::adapter::JupiterRarefish;
use jupiter_rarefish::address::Address;
use jupiter_rarefish::instruction::{swap_instruction_data, SwapParams};
use jupiter_rarefish::quote::{QuoteParams, SwapMode};
use solana_pubkey::Pubkey;

const DISCRIMINATOR: [u8; 8] = [209, 31, 14, 115, 93, 168, 247, 50];
const CLOCK: &str = "SysvarC1ock11111111111111111111111111111111";
const TOKEN_PROGRAM: &str = "TokenkegQfeZyiNwAJbNbGKPFXCWuBvf9Ss623VQ5DA";
const ASSOCIATED_TOKEN_PROGRAM: &str = "ATokenGPvbdGVxr1b2hvZbsiqW5xWH25efTNsLJA8knL";

fn address(k: &Pubkey) -> Address {
    Address::new(k.to_bytes())
}

fn addr(n: u8) -> Address {
    Address::new([n; 32])
}

/// A pool account with mints 4 and 5, vaults 2 and 3, a 0.25% trading fee.
fn pool_bytes() -> Vec<u8> {
    let mut d = DISCRIMINATOR.to_vec();
    for n in [1u8, 2, 3, 4, 5, 6, 7, 0, 0] {
        d.extend_from_slice(&[n; 32]);
    }
    for v in [25u64, 10_000, 1, 5, 1, 5] {
        d.extend_from_slice(&v.to_le_bytes());
    }
    d
}

fn token_account(amount: u64) -> Vec<u8> {
    let mut d = vec![0u8; 165];
    d[64..72].copy_from_slice(&amount.to_le_bytes());
    d[108] = 1;
    d
}

/// Builds the adapter for `market` and syncs it with the given reserves,
/// fetching exactly the accounts it asks for.
fn synced_market(market: &str, reserve_a: u64, reserve_b: u64) -> JupiterRarefish {
    let key = address(&Pubkey::from_str_const(market));
    let market_account = KeyedAccount { key, data: pool_bytes() };
    let mut jupiter_rarefish =
        JupiterRarefish::new_from_keyed_account(&market_account, addr(200)).unwrap();
    let clock_key = address(&Pubkey::from_str_const(CLOCK));
    let mut clock = vec![0u8; 40];
    clock[16..24].copy_from_slice(&600u64.to_le_bytes());
    let mut curve = 1u64.to_le_bytes().to_vec();
    curve.extend_from_slice(&0u64.to_le_bytes());
    let accounts_map: Vec<KeyedAccount> = jupiter_rarefish
        .get_accounts_to_update()
        .into_iter()
        .map(|k| {
            let data = if k == addr(2) {
                token_account(reserve_a)
            } else if k == addr(3) {
                token_account(reserve_b)
            } else if k == clock_key {
                clock.clone()
            } else {
                curve.clone()
            };
            KeyedAccount { key: k, data }
        })
        .collect();
    jupiter_rarefish.update(&accounts_map).unwrap();
    jupiter_rarefish
}

fn round_trip(jupiter_rarefish: &JupiterRarefish, in_amount: u64, decimals_a: f64, decimals_b: f64) {
    let mints = jupiter_rarefish.get_reserve_mints();
    println!("Getting quote for selling {}", in_amount as f64 / 10.0_f64.powf(decimals_a));
    let quote_in = in_amount as f64 / 10.0_f64.powf(decimals_a);
    let quote = jupiter_rarefish
        .quote(&QuoteParams {
            input_mint: mints[0],
            output_mint: mints[1],
            amount: in_amount,
            swap_mode: SwapMode::ExactIn,
        })
        .unwrap();
    let out_amount = quote.out_amount;
    let quote_out = out_amount as f64 / 10.0_f64.powf(decimals_b);
    println!("Quote result: {:?} ({})", quote_out, quote_out / quote_in);
    assert!(out_amount > 0);

    let quote = jupiter_rarefish
        .quote(&QuoteParams {
            input_mint: mints[1],
            output_mint: mints[0],
            amount: out_amount,
            swap_mode: SwapMode::ExactIn,
        })
        .unwrap();
    let back = quote.out_amount;
    println!("Quote result: {:?}", back as f64 / 10.0_f64.powf(decimals_a));
    assert!(back > 0);
    assert!(back < in_amount);
}

#[test]
fn test_jupiter_rarefish_integration_quote_sol_usdc() {
    let jupiter_rarefish = synced_market(
        "3uqKSr5gZzZSJXgrdikPeWGp1SnEqEayFABwzDQ3vRWe",
        40_000_000_000_000,
        1_000_000_000_000,
    );
    round_trip(&jupiter_rarefish, 1_000_000_000_000, 9.0, 6.0);
}

#[test]
fn test_jupiter_rarefish_integration_quote_usdh_hbb() {
    let jupiter_rarefish = synced_market(
        "HcCyVwmtcYKLQYCgfQPv8LVRxW3XDkbop4WZRShGCvK4",
        500_000_000_000,
        2_000_000_000_000,
    );
    round_trip(&jupiter_rarefish, 1_000_000, 6.0, 6.0);
}

#[test]
fn test_jupiter_rarefish_integration_sim() {
    let jupiter_rarefish = synced_market(
        "3uqKSr5gZzZSJXgrdikPeWGp1SnEqEayFABwzDQ3vRWe",
        40_000_000_000_000,
        1_000_000_000_000,
    );
    let signer = Pubkey::new_from_array([42; 32]);
    let token_program = Pubkey::from_str_const(TOKEN_PROGRAM);
    let associated = Pubkey::from_str_const(ASSOCIATED_TOKEN_PROGRAM);
    let mints = jupiter_rarefish.get_reserve_mints();
    let ata = |mint: &Address| {
        Pubkey::find_program_address(&[signer.as_ref(), token_program.as_ref(), &mint.bytes], &associated).0
    };
    let signer_ata_a = address(&ata(&mints[0]));
    let signer_ata_b = address(&ata(&mints[1]));
    let accounts = jupiter_rarefish
        .get_swap_and_account_metas(&SwapParams {
            source_mint: mints[0],
            destination_mint: mints[1],
            source_token_account: signer_ata_a,
            destination_token_account: signer_ata_b,
            token_transfer_authority: address(&signer),
        })
        .unwrap();
    let data = swap_instruction_data(10_000_000, 0);
    assert_eq!(accounts.program_id, jupiter_rarefish.program_id());
    assert_eq!(accounts.account_metas.len(), 13);
    assert_eq!(accounts.account_metas[8].pubkey, signer_ata_a);
    assert_eq!(accounts.account_metas[9].pubkey, signer_ata_b);
    assert_eq!(accounts.account_metas[11].pubkey, address(&token_program));
    assert_eq!(&data[8..16], &10_000_000u64.to_le_bytes());
    println!("Swap with {} accounts and {} bytes of data", accounts.account_metas.len(), data.len());
}
