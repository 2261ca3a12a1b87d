use bin_farm::book::PositionBook;
use bin_farm::engine::{
    claim_pool_fees, open_fee_rover, open_rover_position, rover_position_width, sweep_rover,
    OpenAccounts, RawAccount,
};
use bin_farm::governance::{initialize_rover, pause};
use bin_farm::programs::{damm_v2_program_id, meteora_dlmm_program_id};
use bin_farm::pubkey::Pubkey;
use bin_farm::state::{initialize, Config, RoverAuthority};
use bin_farm::types::{CoreError, Side};

fn key(n: u8) -> Pubkey {
    Pubkey::new([n; 32])
}

fn token_data(mint: &Pubkey, owner: &Pubkey) -> Vec<u8> {
    let mut d = vec![0u8; 165];
    d[0..32].copy_from_slice(&mint.bytes);
    d[32..64].copy_from_slice(&owner.bytes);
    d
}

fn pool_data(active_id: i32) -> Vec<u8> {
    let mut d = vec![0u8; 80];
    d[76..80].copy_from_slice(&active_id.to_le_bytes());
    d
}

const AUTHORITY: u8 = 1;
const AGENT: u8 = 2;
const DEPOSITOR: u8 = 3;
const VAULT: u8 = 4;
const ROVER: u8 = 12;
const DEST: u8 = 60;

fn accounts(active_id: i32) -> OpenAccounts {
    OpenAccounts {
        funder: key(DEPOSITOR),
        funder_token_data: token_data(&key(7), &key(DEPOSITOR)),
        vault: key(VAULT),
        vault_token_x_data: token_data(&key(7), &key(VAULT)),
        vault_token_y_data: Vec::new(),
        lb_pair: key(5),
        lb_pair_data: pool_data(active_id),
        meteora_position: key(6),
        dlmm_program: meteora_dlmm_program_id(),
    }
}

fn fresh() -> (Config, RoverAuthority, PositionBook) {
    let c = initialize(&key(AUTHORITY), &key(AGENT), 30).unwrap();
    let r = initialize_rover(&c, &key(AUTHORITY), &key(DEST)).unwrap();
    (c, r, PositionBook::new())
}

#[test]
fn rover_width_is_two_x_range_capped() {
    assert_eq!(rover_position_width(20), 70);
    assert_eq!(rover_position_width(99), 70);
    assert_eq!(rover_position_width(100), 69);
    assert_eq!(rover_position_width(6931), 1);
    assert_eq!(rover_position_width(65535), 1);
}

#[test]
fn rover_position_sells_just_above_price() {
    let (mut c, mut r, mut b) = fresh();
    let o = open_rover_position(&mut c, &mut r, &mut b, &key(ROVER), &accounts(-10), 20_000, 100, 77).unwrap();
    assert_eq!(o.side, Side::Sell);
    assert_eq!((o.min_bin_id, o.max_bin_id, o.width), (-9, 59, 69));
    assert_eq!((o.amount_x, o.amount_y), (20_000, 0));
    let p = b.get(&key(6)).unwrap();
    assert!(p.owner.same(&key(ROVER)));
    assert_eq!(p.side, Side::Sell);
    assert_eq!(p.created_at, 77);
    assert_eq!(r.total_rover_positions, 1);
    assert_eq!((c.total_positions, c.total_volume), (1, 20_000));
}

#[test]
fn rover_open_checks() {
    let (mut c, mut r, mut b) = fresh();
    let a = accounts(0);
    assert_eq!(open_rover_position(&mut c, &mut r, &mut b, &key(ROVER), &a, 0, 100, 0).unwrap_err(), CoreError::ZeroAmount);
    assert_eq!(open_rover_position(&mut c, &mut r, &mut b, &key(ROVER), &a, 9_999, 100, 0).unwrap_err(), CoreError::RoverDepositTooSmall);
    assert_eq!(open_rover_position(&mut c, &mut r, &mut b, &key(ROVER), &a, 10_000, 19, 0).unwrap_err(), CoreError::RoverBinStepTooSmall);
    let mut bad = accounts(0);
    bad.dlmm_program = key(9);
    assert_eq!(open_rover_position(&mut c, &mut r, &mut b, &key(ROVER), &bad, 10_000, 20, 0).unwrap_err(), CoreError::InvalidProgram);
    let mut bad = accounts(0);
    bad.vault_token_x_data = token_data(&key(7), &key(9));
    assert_eq!(open_rover_position(&mut c, &mut r, &mut b, &key(ROVER), &bad, 10_000, 20, 0).unwrap_err(), CoreError::InvalidTokenOwner);
    assert_eq!(open_rover_position(&mut c, &mut r, &mut b, &key(ROVER), &accounts(-443_636), 10_000, 20, 0).unwrap_err(), CoreError::InvalidBinRange);
    pause(&mut c, &key(AUTHORITY)).unwrap();
    assert_eq!(open_rover_position(&mut c, &mut r, &mut b, &key(ROVER), &a, 10_000, 20, 0).unwrap_err(), CoreError::Paused);
    assert_eq!(b.len(), 0);
    assert_eq!(r.total_rover_positions, 0);
}

#[test]
fn fee_rover_is_agent_only_and_not_paused() {
    let (mut c, mut r, mut b) = fresh();
    pause(&mut c, &key(AUTHORITY)).unwrap();
    let a = accounts(50);
    assert_eq!(open_fee_rover(&mut c, &mut r, &mut b, &key(ROVER), &key(3), &a, 5, 20, 0).unwrap_err(), CoreError::Unauthorized);
    assert_eq!(open_fee_rover(&mut c, &mut r, &mut b, &key(ROVER), &key(AGENT), &a, 0, 20, 0).unwrap_err(), CoreError::ZeroAmount);
    let o = open_fee_rover(&mut c, &mut r, &mut b, &key(ROVER), &key(AGENT), &a, 5, 20, 0).unwrap();
    assert_eq!((o.min_bin_id, o.max_bin_id), (51, 120));
    assert_eq!(r.total_rover_positions, 1);
    assert_eq!(open_fee_rover(&mut c, &mut r, &mut b, &key(ROVER), &key(AGENT), &a, 5, 20, 0).unwrap_err(), CoreError::PositionAlreadyExists);
}

#[test]
fn sweep_moves_excess_over_rent() {
    let (mut c, r, _) = fresh();
    assert_eq!(sweep_rover(&mut c, &r, &key(3), 9, 5_000, 1_000, &key(DEST), false).unwrap(), 4_000);
    assert_eq!(c.last_bot_sweep_slot, 0);
    assert_eq!(sweep_rover(&mut c, &r, &key(AGENT), 9, 5_000, 1_000, &key(DEST), false).unwrap(), 4_000);
    assert_eq!(c.last_bot_sweep_slot, 9);
    assert_eq!(sweep_rover(&mut c, &r, &key(AGENT), 10, 1_000, 1_000, &key(DEST), false).unwrap_err(), CoreError::NothingToSweep);
    assert_eq!(c.last_bot_sweep_slot, 9);
    assert_eq!(sweep_rover(&mut c, &r, &key(AGENT), 10, 5_000, 1_000, &key(61), false).unwrap_err(), CoreError::InvalidPool);
    assert_eq!(sweep_rover(&mut c, &r, &key(AGENT), 10, 5_000, 1_000, &key(DEST), true).unwrap_err(), CoreError::InvalidDistPool);
}

fn pool_accounts(n: usize) -> Vec<RawAccount> {
    let mut v: Vec<RawAccount> = (0..n)
        .map(|i| RawAccount { key: key(100 + i as u8), owner: key(0), data: Vec::new() })
        .collect();
    if n >= 13 {
        v[7].data = token_data(&key(7), &key(ROVER));
        v[8].data = token_data(&key(8), &key(ROVER));
        v[12].key = damm_v2_program_id();
    }
    v
}

#[test]
fn pool_fee_claim_checks_accounts() {
    assert_eq!(claim_pool_fees(&pool_accounts(13), &key(ROVER)), Ok(()));
    assert_eq!(claim_pool_fees(&pool_accounts(12), &key(ROVER)), Err(CoreError::NoBinsProvided));
    let mut v = pool_accounts(13);
    v[12].key = key(1);
    assert_eq!(claim_pool_fees(&v, &key(ROVER)), Err(CoreError::InvalidProgram));
    let mut v = pool_accounts(13);
    v[8].data = token_data(&key(8), &key(1));
    assert_eq!(claim_pool_fees(&v, &key(ROVER)), Err(CoreError::InvalidTokenOwner));
}
