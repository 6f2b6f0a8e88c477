use jupiter_rarefish::accounts::KeyedAccount;
use jupiter_rarefish::adapter::{AdapterState, JupiterRarefish};
use jupiter_rarefish::address::Address;
use jupiter_rarefish::curve::{swap, CurveKind, Fraction, TradeDirection};
use jupiter_rarefish::error::AdapterError;
use jupiter_rarefish::instruction::{swap_instruction_data, SwapParams};
use jupiter_rarefish::quote::{QuoteParams, SwapMode};
use jupiter_rarefish::transfer_fee::{parse_mint_fee_config, TransferFee, TransferFeeConfig};

const DISCRIMINATOR: [u8; 8] = [209, 31, 14, 115, 93, 168, 247, 50];
const TOKEN_PROGRAM: [u8; 32] = [
    6, 221, 246, 225, 215, 101, 161, 147, 217, 203, 225, 70, 206, 235, 121, 172, 28, 180, 133, 237,
    95, 91, 55, 145, 58, 140, 245, 133, 126, 255, 0, 169,
];
const CLOCK: [u8; 32] = [
    6, 167, 213, 23, 24, 199, 116, 201, 40, 86, 99, 152, 105, 29, 94, 182, 139, 94, 184, 163, 155,
    75, 109, 92, 115, 85, 91, 33, 0, 0, 0, 0,
];

fn addr(n: u8) -> Address {
    Address::new([n; 32])
}

fn pool_bytes(trade_fee: (u64, u64), program_a: Address, program_b: Address) -> Vec<u8> {
    let mut d = DISCRIMINATOR.to_vec();
    for a in [addr(1), addr(2), addr(3), addr(4), addr(5), addr(6), addr(7), program_a, program_b] {
        d.extend_from_slice(&a.bytes);
    }
    for v in [trade_fee.0, trade_fee.1, 1, 5, 1, 5] {
        d.extend_from_slice(&v.to_le_bytes());
    }
    d
}

fn token_account(amount: u64) -> Vec<u8> {
    let mut d = vec![0u8; 165];
    d[64..72].copy_from_slice(&amount.to_le_bytes());
    d[108] = 1;
    d
}

fn clock(epoch: u64) -> Vec<u8> {
    let mut d = vec![0u8; 40];
    d[16..24].copy_from_slice(&epoch.to_le_bytes());
    d
}

fn curve_account(tag: u64, offset: u64) -> Vec<u8> {
    let mut d = tag.to_le_bytes().to_vec();
    d.extend_from_slice(&offset.to_le_bytes());
    d
}

fn fee_bytes(f: &TransferFee) -> Vec<u8> {
    let mut d = f.epoch.to_le_bytes().to_vec();
    d.extend_from_slice(&f.maximum_fee.to_le_bytes());
    d.extend_from_slice(&f.transfer_fee_basis_points.to_le_bytes());
    d
}

fn mint_with_fee(older: TransferFee, newer: TransferFee) -> Vec<u8> {
    let mut d = vec![0u8; 165];
    d.push(1);
    d.extend_from_slice(&1u16.to_le_bytes());
    d.extend_from_slice(&108u16.to_le_bytes());
    d.extend_from_slice(&[0u8; 72]);
    d.extend_from_slice(&fee_bytes(&older));
    d.extend_from_slice(&fee_bytes(&newer));
    d
}

fn keyed(key: Address, data: Vec<u8>) -> KeyedAccount {
    KeyedAccount { key, data }
}

fn adapter(trade_fee: (u64, u64)) -> JupiterRarefish {
    let pool = keyed(addr(100), pool_bytes(trade_fee, addr(8), Address::zero()));
    JupiterRarefish::new_from_keyed_account(&pool, addr(200)).unwrap()
}

fn synced(trade_fee: (u64, u64), reserve_a: u64, reserve_b: u64) -> JupiterRarefish {
    let mut a = adapter(trade_fee);
    let accounts = vec![
        keyed(addr(2), token_account(reserve_a)),
        keyed(addr(3), token_account(reserve_b)),
        keyed(a.curve_key, curve_account(1, 0)),
        keyed(Address::new(CLOCK), clock(10)),
    ];
    a.update(&accounts).unwrap();
    assert_eq!(a.state, AdapterState::Synced);
    a
}

fn exact_in(mint: Address, amount: u64) -> QuoteParams {
    QuoteParams { input_mint: mint, output_mint: addr(0), amount, swap_mode: SwapMode::ExactIn }
}

#[test]
fn constant_product_half_of_reserve() {
    let r = swap(
        CurveKind::ConstantProduct,
        Fraction { numerator: 0, denominator: 10_000 },
        1_000_000_000,
        TradeDirection::AtoB,
        1_000_000_000,
        1_000_000,
    )
    .unwrap();
    assert_eq!(r.destination_amount_swapped, 500_000);
    assert_eq!(r.trade_fee, 0);
}

#[test]
fn quote_through_adapter_matches_formula() {
    let a = synced((0, 10_000), 1_000_000_000, 1_000_000);
    let q = a.quote(&exact_in(addr(4), 1_000_000_000)).unwrap();
    assert_eq!(q.out_amount, 500_000);
    assert_eq!(q.in_amount, 1_000_000_000);
}

#[test]
fn trade_fee_is_floored_from_input() {
    // fee = floor(1000 * 25 / 10000) = 2; out = 1000 - floor(1_000_000 / 1998) = 1000 - 500 = 500
    let r = swap(
        CurveKind::ConstantProduct,
        Fraction { numerator: 25, denominator: 10_000 },
        1_000,
        TradeDirection::AtoB,
        1_000,
        1_000,
    )
    .unwrap();
    assert_eq!(r.trade_fee, 2);
    assert_eq!(r.destination_amount_swapped, 500);
}

#[test]
fn output_grows_with_amount() {
    let a = synced((30, 10_000), 5_000_000, 7_000_000);
    let mut last = 0;
    for amount in [1u64, 10, 1_000, 50_000, 1_000_000, 9_000_000] {
        let q = a.quote(&exact_in(addr(4), amount)).unwrap();
        assert!(q.out_amount >= last);
        last = q.out_amount;
    }
}

#[test]
fn higher_fee_rate_never_gives_more() {
    let mut last = u64::MAX;
    for n in [0u64, 10, 30, 100, 1_000, 10_000] {
        let r = swap(
            CurveKind::ConstantProduct,
            Fraction { numerator: n, denominator: 10_000 },
            123_456,
            TradeDirection::BtoA,
            9_000_000,
            4_000_000,
        )
        .unwrap();
        assert!(r.destination_amount_swapped <= last);
        last = r.destination_amount_swapped;
    }
}

#[test]
fn round_trip_loses_value() {
    // first leg: k = 1_000_000 * 1_000_000 is divisible by 1_000_000 + 250_000
    let a = synced((0, 10_000), 1_000_000, 1_000_000);
    let there = a.quote(&exact_in(addr(4), 250_000)).unwrap();
    assert_eq!(there.out_amount, 200_000);
    let back = a.quote(&exact_in(addr(5), there.out_amount)).unwrap();
    assert!(back.out_amount <= 250_000);
    assert_eq!(back.out_amount, 166_667);
}

#[test]
fn round_trip_can_gain_when_floor_favours_trader() {
    let a = synced((0, 10_000), 1_000, 3);
    let there = a.quote(&exact_in(addr(4), 1)).unwrap();
    assert_eq!(there.out_amount, 1);
    let back = a.quote(&exact_in(addr(5), there.out_amount)).unwrap();
    assert_eq!(back.out_amount, 250);
}

#[test]
fn transfer_fee_is_capped() {
    let f = TransferFee { epoch: 0, maximum_fee: 5_000, transfer_fee_basis_points: 100 };
    assert_eq!(f.calculate_fee(1_000_000), 5_000);
    let uncapped = TransferFee { epoch: 0, maximum_fee: 50_000, transfer_fee_basis_points: 100 };
    assert_eq!(uncapped.calculate_fee(1_000_000), 10_000);
    assert_eq!(uncapped.calculate_fee(1), 1);
    assert_eq!(uncapped.calculate_fee(0), 0);
}

#[test]
fn epoch_transition_switches_rate() {
    let c = TransferFeeConfig {
        older_transfer_fee: TransferFee { epoch: 0, maximum_fee: u64::MAX, transfer_fee_basis_points: 100 },
        newer_transfer_fee: TransferFee { epoch: 50, maximum_fee: u64::MAX, transfer_fee_basis_points: 300 },
    };
    assert_eq!(c.calculate_epoch_fee(49, 10_000), 100);
    assert_eq!(c.calculate_epoch_fee(50, 10_000), 300);
    assert_eq!(c.get_epoch_fee(49), c.older_transfer_fee);
    assert_eq!(c.get_epoch_fee(50), c.newer_transfer_fee);
}

#[test]
fn quote_charges_transfer_fees_by_epoch() {
    let mut a = adapter((0, 10_000));
    a.set_transfer_fees(true);
    assert_eq!(a.get_accounts_to_update().len(), 6);
    let older = TransferFee { epoch: 0, maximum_fee: u64::MAX, transfer_fee_basis_points: 100 };
    let newer = TransferFee { epoch: 11, maximum_fee: u64::MAX, transfer_fee_basis_points: 1_000 };
    let accounts = vec![
        keyed(addr(2), token_account(1_000_000)),
        keyed(addr(3), token_account(1_000_000)),
        keyed(a.curve_key, curve_account(1, 0)),
        keyed(Address::new(CLOCK), clock(10)),
        keyed(addr(4), mint_with_fee(older, newer)),
    ];
    a.update(&accounts).unwrap();
    let q = a.quote(&exact_in(addr(4), 250_000)).unwrap();
    assert_eq!(q.input_transfer_fee, 2_500);
    assert_eq!(q.output_transfer_fee, 0);
    let accounts = vec![
        keyed(addr(2), token_account(1_000_000)),
        keyed(addr(3), token_account(1_000_000)),
        keyed(Address::new(CLOCK), clock(11)),
    ];
    a.update(&accounts).unwrap();
    let q = a.quote(&exact_in(addr(4), 250_000)).unwrap();
    assert_eq!(q.input_transfer_fee, 25_000);
    let back = a.quote(&exact_in(addr(5), 1_000)).unwrap();
    assert_eq!(back.input_transfer_fee, 0);
    // curve output 1000, fee ceil(1000 * 1000 / 10000) = 100
    assert_eq!(back.output_transfer_fee, 100);
    assert_eq!(back.out_amount, 900);
}

#[test]
fn missing_vault_makes_adapter_stale() {
    let mut a = synced((0, 10_000), 1_000, 1_000);
    let before = a.snapshot;
    let accounts = vec![keyed(addr(2), token_account(5)), keyed(Address::new(CLOCK), clock(12))];
    a.update(&accounts).unwrap();
    assert_eq!(a.state, AdapterState::Stale);
    assert_eq!(a.snapshot, before);
    assert_eq!(a.quote(&exact_in(addr(4), 10)), Err(AdapterError::State));
    assert_eq!(a.quote(&exact_in(addr(9), 10)), Err(AdapterError::State));
}

#[test]
fn quote_before_update_is_state_error() {
    let a = adapter((0, 10_000));
    assert_eq!(a.state, AdapterState::Configured);
    assert_eq!(a.quote(&exact_in(addr(4), 10)), Err(AdapterError::State));
}

#[test]
fn swap_accounts_in_fixed_order_for_both_directions() {
    let a = adapter((0, 10_000));
    let p = SwapParams {
        source_mint: addr(4),
        destination_mint: addr(5),
        source_token_account: addr(20),
        destination_token_account: addr(21),
        token_transfer_authority: addr(22),
    };
    let ab = a.get_swap_and_account_metas(&p).unwrap();
    assert_eq!(ab.program_id, addr(200));
    let keys: Vec<Address> = ab.account_metas.iter().map(|m| m.pubkey).collect();
    assert_eq!(
        keys,
        vec![
            addr(22), addr(100), addr(1), addr(4), addr(5), addr(2), addr(3), addr(6), addr(20),
            addr(21), addr(200), addr(8), Address::new(TOKEN_PROGRAM),
        ]
    );
    let flags: Vec<(bool, bool)> =
        ab.account_metas.iter().map(|m| (m.is_signer, m.is_writable)).collect();
    assert_eq!(flags[0], (true, false));
    assert_eq!(flags[2], (false, false));
    assert_eq!(flags[5], (false, true));
    assert_eq!(flags[12], (false, false));

    let back = SwapParams { source_mint: addr(5), destination_mint: addr(4), ..p };
    let ba = a.get_swap_and_account_metas(&back).unwrap();
    let keys: Vec<Address> = ba.account_metas.iter().map(|m| m.pubkey).collect();
    assert_eq!(
        keys,
        vec![
            addr(22), addr(100), addr(1), addr(5), addr(4), addr(3), addr(2), addr(7), addr(20),
            addr(21), addr(200), Address::new(TOKEN_PROGRAM), addr(8),
        ]
    );
}

#[test]
fn schema_error_on_bad_discriminator() {
    let mut d = pool_bytes((0, 1), addr(8), addr(9));
    d[0] ^= 1;
    let r = JupiterRarefish::new_from_keyed_account(&keyed(addr(100), d), addr(200));
    assert_eq!(r.unwrap_err(), AdapterError::Schema);
    let short = pool_bytes((0, 1), addr(8), addr(9))[..300].to_vec();
    let r = JupiterRarefish::from_keyed_account(&keyed(addr(100), short), addr(200));
    assert_eq!(r.unwrap_err(), AdapterError::Schema);
}

#[test]
fn curve_error_on_empty_reserve() {
    let a = synced((0, 10_000), 0, 1_000);
    assert_eq!(a.quote(&exact_in(addr(4), 10)), Err(AdapterError::Curve));
    let b = synced((0, 10_000), 1_000, 1_000);
    assert_eq!(b.quote(&exact_in(addr(4), 0)), Err(AdapterError::Curve));
}

#[test]
fn offset_curve_cannot_pay_beyond_real_reserve() {
    let r = swap(CurveKind::Offset { token_b_offset: 1_000_000 }, Fraction { numerator: 0, denominator: 0 }, 1_000_000, TradeDirection::AtoB, 1_000_000, 10);
    assert_eq!(r, Err(AdapterError::Curve));
    let ok = swap(CurveKind::Offset { token_b_offset: 1_000 }, Fraction { numerator: 0, denominator: 0 }, 100, TradeDirection::AtoB, 1_000, 1_000).unwrap();
    // reserves (1000, 2000): out = 2000 - floor(2_000_000 / 1100) = 2000 - 1818
    assert_eq!(ok.destination_amount_swapped, 182);
}

#[test]
fn fee_config_error_on_malformed_mint() {
    let mut a = adapter((0, 10_000));
    a.set_transfer_fees(true);
    let mut bad = mint_with_fee(
        TransferFee { epoch: 0, maximum_fee: 1, transfer_fee_basis_points: 100 },
        TransferFee { epoch: 0, maximum_fee: 1, transfer_fee_basis_points: 100 },
    );
    bad[168] = 107;
    let accounts = vec![
        keyed(addr(2), token_account(1_000)),
        keyed(addr(3), token_account(1_000)),
        keyed(a.curve_key, curve_account(1, 0)),
        keyed(Address::new(CLOCK), clock(1)),
        keyed(addr(5), bad.clone()),
    ];
    assert_eq!(a.update(&accounts), Err(AdapterError::FeeConfig));
    assert_eq!(a.state, AdapterState::Stale);
    assert_eq!(parse_mint_fee_config(&bad), Err(AdapterError::FeeConfig));
    assert_eq!(parse_mint_fee_config(&[0u8; 82]), Ok(None));
    let too_high = mint_with_fee(
        TransferFee { epoch: 0, maximum_fee: 1, transfer_fee_basis_points: 10_001 },
        TransferFee { epoch: 0, maximum_fee: 1, transfer_fee_basis_points: 100 },
    );
    assert_eq!(parse_mint_fee_config(&too_high), Err(AdapterError::FeeConfig));
}

#[test]
fn invalid_mint_and_unsupported_mode() {
    let a = synced((0, 10_000), 1_000, 1_000);
    assert_eq!(a.quote(&exact_in(addr(9), 10)), Err(AdapterError::InvalidMint));
    let p = QuoteParams { swap_mode: SwapMode::ExactOut, ..exact_in(addr(4), 10) };
    assert_eq!(a.quote(&p), Err(AdapterError::UnsupportedMode));
    let s = SwapParams {
        source_mint: addr(9),
        destination_mint: addr(5),
        source_token_account: addr(20),
        destination_token_account: addr(21),
        token_transfer_authority: addr(22),
    };
    assert_eq!(a.get_swap_and_account_metas(&s).unwrap_err(), AdapterError::InvalidMint);
}

#[test]
fn curve_account_is_program_derived() {
    let a = adapter((0, 10_000));
    let (expected, _) = solana_pubkey::Pubkey::find_program_address(
        &[&b"curve"[..], &addr(100).bytes[..]],
        &solana_pubkey::Pubkey::new_from_array(addr(200).bytes),
    );
    assert_eq!(a.curve_key.bytes, expected.to_bytes());
    assert_ne!(a.curve_key, a.key());
    assert_eq!(a.program_id(), addr(200));
}

#[test]
fn tracked_accounts_and_mints() {
    let a = adapter((0, 10_000));
    assert_eq!(a.get_accounts_to_update(), vec![addr(2), addr(3), a.curve_key, Address::new(CLOCK)]);
    assert_eq!(a.get_reserve_mints(), vec![addr(4), addr(5)]);
    assert_eq!(a.label(), "Rarefish");
}

#[test]
fn cached_curve_and_epoch_carry_over() {
    let mut a = synced((0, 10_000), 1_000, 1_000);
    let accounts = vec![keyed(addr(2), token_account(2_000)), keyed(addr(3), token_account(500))];
    a.update(&accounts).unwrap();
    assert_eq!(a.state, AdapterState::Synced);
    let s = a.snapshot.unwrap();
    assert_eq!((s.token_a_amount, s.token_b_amount, s.epoch), (2_000, 500, 10));
}

#[test]
fn swap_instruction_data_layout() {
    let d = swap_instruction_data(10_000_000, 0);
    assert_eq!(
        d,
        vec![
            248, 198, 158, 145, 225, 117, 135, 200, 0x80, 0x96, 0x98, 0, 0, 0, 0, 0, 0, 0, 0, 0, 0,
            0, 0, 0,
        ]
    );
    let d = swap_instruction_data(1, u64::MAX);
    assert_eq!(&d[8..16], &[1, 0, 0, 0, 0, 0, 0, 0]);
    assert_eq!(&d[16..24], &[255u8; 8]);
}
