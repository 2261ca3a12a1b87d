use bin_farm::dlmm::{
    bin_id_to_array_index, AccountsType, OpenPositionParams, RemainingAccountsInfo,
    StrategyParameters, StrategyType,
};
use bin_farm::fees::{bps_share, close_split, harvest_split};
use bin_farm::pda::{bin_array_pda, event_authority, i64_to_le_bytes};
use bin_farm::programs::meteora_dlmm_program_id;
use bin_farm::pubkey::{field_is, read_i32_le, Pubkey};
use bin_farm::types::Side;

#[test]
fn bin_array_index_rounds_down() {
    assert_eq!(bin_id_to_array_index(0), 0);
    assert_eq!(bin_id_to_array_index(69), 0);
    assert_eq!(bin_id_to_array_index(70), 1);
    assert_eq!(bin_id_to_array_index(-1), -1);
    assert_eq!(bin_id_to_array_index(-70), -1);
    assert_eq!(bin_id_to_array_index(-71), -2);
    assert_eq!(bin_id_to_array_index(i32::MIN), -30678338);
}

#[test]
fn strategy_parameters() {
    let s = StrategyParameters::spot_imbalanced(-3, 4);
    assert_eq!((s.min_bin_id, s.max_bin_id), (-3, 4));
    assert_eq!(s.strategy_type, StrategyType::SpotImBalanced);
    assert!(s.parameteres.iter().all(|b| *b == 0));
    let s = StrategyParameters::bid_ask_imbalanced(1, 2);
    assert_eq!(s.strategy_type, StrategyType::BidAskImBalanced);
    assert_eq!(s.parameteres[0], 1);
    assert!(s.parameteres[1..].iter().all(|b| *b == 0));
    assert_eq!(StrategyParameters::spot_one_side(1, 2).strategy_type, StrategyType::SpotOneSide);
    assert_eq!(StrategyParameters::bid_ask_one_side(1, 2).strategy_type, StrategyType::BidAskOneSide);
    assert!(RemainingAccountsInfo::none().slices.is_empty());
    let hooks = RemainingAccountsInfo::empty_hooks();
    assert_eq!(hooks.slices.len(), 2);
    assert_eq!(hooks.slices[0].accounts_type, AccountsType::TransferHookX);
    assert_eq!(hooks.slices[1].accounts_type, AccountsType::TransferHookY);
    assert_eq!(hooks.slices[1].length, 0);
}

#[test]
fn open_position_params() {
    let p = OpenPositionParams { lower_bin_id: -75, upper_bin_id: 10, amount: 9, active_bin_id: 3, max_slippage: 2 };
    assert_eq!(p.width(), 86);
    assert_eq!(p.bin_array_indices(), (-2, 0));
    let l = p.to_liquidity_params();
    assert_eq!((l.amount, l.active_id, l.max_active_bin_slippage), (9, 3, 2));
    assert_eq!(l.strategy_parameters.strategy_type, StrategyType::SpotOneSide);
    assert_eq!((l.strategy_parameters.min_bin_id, l.strategy_parameters.max_bin_id), (-75, 10));
}

#[test]
fn fee_arithmetic() {
    assert_eq!(bps_share(10_000, 30), 30);
    assert_eq!(bps_share(333, 30), 0);
    assert_eq!(bps_share(u64::MAX, 10_000), u64::MAX);
    assert_eq!(bps_share(30, 1000), 3);
    let s = close_split(Side::Buy, 30, 1000, false, 50_000, 17);
    assert_eq!((s.x_fee, s.x_tip, s.x_to_owner, s.y_fee, s.y_to_owner), (150, 0, 49_850, 0, 17));
    let s = close_split(Side::Buy, 30, 1000, true, 50_000, 17);
    assert_eq!((s.x_fee, s.x_tip, s.x_to_protocol, s.x_to_owner), (150, 15, 135, 49_850));
    let s = harvest_split(Side::Buy, 100, 5000, true, 500, 0, 10_500, 4);
    assert_eq!((s.x_fee, s.x_tip, s.x_to_protocol, s.x_to_owner), (100, 50, 50, 10_400));
    assert_eq!((s.y_fee, s.y_to_owner), (0, 4));
    let s = harvest_split(Side::Sell, 30, 1000, true, 0, 900, 0, 800);
    assert_eq!((s.y_fee, s.y_to_owner), (0, 800));
    let s = harvest_split(Side::Sell, 1000, 1000, false, 0, 0, 0, 999);
    assert_eq!((s.y_fee, s.y_tip, s.y_to_protocol, s.y_to_owner), (99, 0, 99, 900));
    assert_eq!(s.y_to_owner + s.y_to_protocol + s.y_tip, 999);
}

#[test]
fn raw_account_fields() {
    let mut d = vec![0u8; 80];
    d[76..80].copy_from_slice(&(-12345i32).to_le_bytes());
    assert_eq!(read_i32_le(&d, 76), Some(-12345));
    assert_eq!(read_i32_le(&d, 77), None);
    d[32..64].copy_from_slice(&[9u8; 32]);
    assert!(field_is(&d, 32, &Pubkey::new([9; 32])));
    assert!(!field_is(&d, 33, &Pubkey::new([9; 32])));
    assert!(!field_is(&d, 60, &Pubkey::new([9; 32])));
    assert!(Pubkey::zero().is_zero());
    assert!(!Pubkey::new([9; 32]).is_zero());
}

#[test]
fn little_endian_index_bytes() {
    assert_eq!(i64_to_le_bytes(1), vec![1, 0, 0, 0, 0, 0, 0, 0]);
    assert_eq!(i64_to_le_bytes(-1), vec![255; 8]);
    assert_eq!(i64_to_le_bytes(258), vec![2, 1, 0, 0, 0, 0, 0, 0]);
    assert_eq!(i64_to_le_bytes(i64::MIN), vec![0, 0, 0, 0, 0, 0, 0, 128]);
}

#[test]
fn derived_addresses_depend_on_seeds() {
    let (a, _) = event_authority().unwrap();
    let (a2, _) = event_authority().unwrap();
    assert!(a.same(&a2));
    assert!(!a.same(&meteora_dlmm_program_id()));
    let pair = Pubkey::new([3; 32]);
    let (b0, _) = bin_array_pda(&pair, 0).unwrap();
    let (b1, _) = bin_array_pda(&pair, -1).unwrap();
    assert!(!b0.same(&b1));
    assert!(!b0.same(&pair));
    assert!(!b0.same(&a));
}
