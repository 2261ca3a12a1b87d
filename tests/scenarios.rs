use bin_farm::book::PositionBook;
use bin_farm::engine::{
    close_position, harvest_bins, open_position_v2, user_close, PayoutAccounts, OpenAccounts,
    RawAccount,
};
use bin_farm::programs::{meteora_dlmm_program_id, spl_token_program_id};
use bin_farm::pubkey::Pubkey;
use bin_farm::state::{initialize, Config};
use bin_farm::types::Side;

fn key(n: u8) -> Pubkey {
    Pubkey::new([n; 32])
}

fn token_data(mint: &Pubkey, owner: &Pubkey) -> Vec<u8> {
    let mut d = vec![0u8; 165];
    d[0..32].copy_from_slice(&mint.bytes);
    d[32..64].copy_from_slice(&owner.bytes);
    d
}

fn pool_data(active_id: i32) -> Vec<u8> {
    let mut d = vec![0u8; 120];
    d[76..80].copy_from_slice(&active_id.to_le_bytes());
    d
}

const AUTHORITY: u8 = 1;
const AGENT: u8 = 2;
const USER: u8 = 3;
const VAULT: u8 = 4;
const POOL: u8 = 5;
const METEORA_POSITION: u8 = 6;
const MINT_X: u8 = 7;
const MINT_Y: u8 = 8;
const KEEPER: u8 = 9;

fn open_accounts(active_id: i32) -> OpenAccounts {
    OpenAccounts {
        funder: key(USER),
        funder_token_data: token_data(&key(MINT_X), &key(USER)),
        vault: key(VAULT),
        vault_token_x_data: token_data(&key(MINT_X), &key(VAULT)),
        vault_token_y_data: token_data(&key(MINT_Y), &key(VAULT)),
        lb_pair: key(POOL),
        lb_pair_data: pool_data(active_id),
        meteora_position: key(METEORA_POSITION),
        dlmm_program: meteora_dlmm_program_id(),
    }
}

fn payout_accounts() -> PayoutAccounts {
    PayoutAccounts {
        owner_token_x: key(20),
        owner_token_y: key(21),
        rover_fee_token_x: key(22),
        rover_fee_token_y: key(23),
        token_x_mint: key(MINT_X),
        token_y_mint: key(MINT_Y),
    }
}

fn fresh(fee_bps: u16) -> (Config, PositionBook) {
    let config = initialize(&key(AUTHORITY), &key(AGENT), fee_bps).unwrap();
    (config, PositionBook::new())
}

#[test]
fn agent_harvest_of_sell_position_takes_fee_on_converted_output() {
    let (mut config, mut book) = fresh(30);
    let o = open_position_v2(&mut config, &mut book, &open_accounts(100), 100_000, 101, 110, 5, 1_000)
        .unwrap();
    assert_eq!(o.side, Side::Sell);
    assert_eq!((o.amount_x, o.amount_y), (100_000, 0));

    let bins: Vec<i32> = (101..=110).collect();
    let h = harvest_bins(
        &mut config,
        &mut book,
        &key(METEORA_POSITION),
        &key(AGENT),
        &bins,
        50,
        0,
        0,
        0,
        10_000,
        &None,
        &payout_accounts(),
    )
    .unwrap();
    assert!(!h.fallback);
    assert_eq!(h.split.y_fee, 30);
    assert_eq!(h.split.y_tip, 0);
    assert_eq!(h.split.y_to_protocol, 30);
    assert_eq!(h.split.y_to_owner, 9_970);
    assert_eq!(h.harvested, 9_970);
    assert_eq!((h.from_bin_id, h.to_bin_id), (101, 110));
    assert_eq!(config.total_harvested, 9_970);
    assert_eq!(config.last_bot_harvest_slot, 50);
    assert_eq!(book.get(&key(METEORA_POSITION)).unwrap().harvested_amount, 9_970);
}

#[test]
fn fallback_harvest_pays_keeper_tip_out_of_fee() {
    let (mut config, mut book) = fresh(30);
    open_position_v2(&mut config, &mut book, &open_accounts(100), 100_000, 101, 110, 5, 1_000).unwrap();
    assert_eq!(config.keeper_tip_bps, 1000);
    let keeper = RawAccount {
        key: key(KEEPER),
        owner: spl_token_program_id(),
        data: token_data(&key(MINT_Y), &key(30)),
    };
    let bins: Vec<i32> = (101..=110).collect();
    let h = harvest_bins(
        &mut config,
        &mut book,
        &key(METEORA_POSITION),
        &key(30),
        &bins,
        500,
        0,
        0,
        0,
        10_000,
        &Some(keeper),
        &payout_accounts(),
    )
    .unwrap();
    assert!(h.fallback);
    assert_eq!(h.split.y_fee, 30);
    assert_eq!(h.split.y_tip, 3);
    assert_eq!(h.split.y_to_protocol, 27);
    assert_eq!(h.split.y_to_owner, 9_970);
    assert_eq!(config.total_harvested, 9_970);
    assert_eq!(config.last_bot_harvest_slot, 0);
}

#[test]
fn close_of_buy_position_takes_fee_on_whole_buy_balance() {
    let (mut config, mut book) = fresh(30);
    let mut accounts = open_accounts(200);
    accounts.funder_token_data = token_data(&key(MINT_Y), &key(USER));
    let o = open_position_v2(&mut config, &mut book, &accounts, 100_000, 150, 200, 5, 1_000).unwrap();
    assert_eq!(o.side, Side::Buy);
    assert_eq!((o.amount_x, o.amount_y), (0, 100_000));

    let c = close_position(
        &mut config,
        &mut book,
        &key(METEORA_POSITION),
        &key(AGENT),
        60,
        50_000,
        0,
        &None,
        &payout_accounts(),
    )
        .unwrap();
    assert_eq!(c.split.x_fee, 150);
    assert_eq!(c.split.x_to_owner, 49_850);
    assert_eq!(c.split.y_fee, 0);
    assert_eq!(c.harvested, 49_850);
    assert_eq!(config.total_harvested, 49_850);
    assert_eq!(config.last_bot_close_slot, 60);
    assert_eq!(book.len(), 0);
    assert!(book.get(&key(METEORA_POSITION)).is_none());
    assert!(book.vault_of(&key(METEORA_POSITION)).is_none());
}

#[test]
fn owner_close_uses_same_fee_and_removes_record() {
    let (mut config, mut book) = fresh(30);
    open_position_v2(&mut config, &mut book, &open_accounts(100), 100_000, 101, 110, 5, 1_000).unwrap();
    let c = user_close(&mut config, &mut book, &key(METEORA_POSITION), &key(USER), 7, 20_000).unwrap();
    assert_eq!(c.split.y_fee, 60);
    assert_eq!(c.split.y_to_owner, 19_940);
    assert_eq!(c.split.x_to_owner, 7);
    assert_eq!(config.total_harvested, 19_940);
    assert_eq!(book.len(), 0);
}
