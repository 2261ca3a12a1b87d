use vstd::prelude::*;
use crate::bins::{bin_ids_outcome, validate_bin_ids};
use crate::book::{has_key, index_of, PositionBook};
use crate::pda::{position_record_address, position_seed, program_address};
use crate::fees::{close_split, close_split_of, harvest_split, harvest_split_of, Split};
use crate::programs::{
    meteora_dlmm_program_id,
    meteora_dlmm_program_id_spec,
    spl_token_program_id,
    spl_token_program_id_spec,
    token_2022_program_id,
    token_2022_program_id_spec,
};
use crate::pubkey::{field_at, field_is, i32_at, read_i32_le, Pubkey};
use crate::state::{
    sat_add,
    Config,
    ConfigModel,
    Position,
    PositionModel,
    RoverAuthority,
    RoverModel,
    ACTIVE_ID_LIMIT,
    MAX_ACTIVE_BIN_SLIPPAGE,
    MAX_POSITION_WIDTH,
    MIN_POSITION_AMOUNT,
    MIN_ROVER_BIN_STEP,
    MIN_ROVER_DEPOSIT,
};
use crate::types::{CoreError, Side};

verus! {

/// Offset of the mint address in a token account's data.
pub const TOKEN_MINT_OFFSET: usize = 0;

/// Offset of the owner address in a token account's data.
pub const TOKEN_OWNER_OFFSET: usize = 32;

/// Offset of the live (active) bin id in the pool's own account data.
pub const ACTIVE_ID_OFFSET: usize = 76;

/// Numerator of the rover width: bins for a 2x price move are about `6931 / bin_step`.
pub const ROVER_WIDTH_NUMERATOR: i32 = 6931;

/// An account as the runtime hands it over: its address, the program that owns it,
/// and its raw data.
#[derive(Clone, Debug)]
pub struct RawAccount {
    pub key: Pubkey,
    pub owner: Pubkey,
    pub data: Vec<u8>,
}

/// The accounts read when a position is opened.
#[derive(Clone, Debug)]
pub struct OpenAccounts {
    /// Who funds the deposit (the user, or the depositor of a rover position).
    pub funder: Pubkey,
    /// Raw data of the funder's token account.
    pub funder_token_data: Vec<u8>,
    /// Address of the position's vault.
    pub vault: Pubkey,
    /// Raw data of the vault's token X account.
    pub vault_token_x_data: Vec<u8>,
    /// Raw data of the vault's token Y account.
    pub vault_token_y_data: Vec<u8>,
    /// Address of the pool.
    pub lb_pair: Pubkey,
    /// Raw data of the pool's own account.
    pub lb_pair_data: Vec<u8>,
    /// The external position reference.
    pub meteora_position: Pubkey,
    /// The pool service program invoked.
    pub dlmm_program: Pubkey,
}

/// What the pool service is asked to do after a successful open.
#[derive(Clone, Copy, Debug, PartialEq, Eq, Structural)]
pub struct OpenOutcome {
    pub side: Side,
    pub active_id: i32,
    pub min_bin_id: i32,
    pub max_bin_id: i32,
    pub width: i32,
    pub amount_x: u64,
    pub amount_y: u64,
}

/// The owner's and the protocol's token accounts, and the two mints, of a harvest or
/// a close.
#[derive(Clone, Copy, Debug)]
pub struct PayoutAccounts {
    pub owner_token_x: Pubkey,
    pub owner_token_y: Pubkey,
    pub rover_fee_token_x: Pubkey,
    pub rover_fee_token_y: Pubkey,
    pub token_x_mint: Pubkey,
    pub token_y_mint: Pubkey,
}

/// The result of a harvest.
#[derive(Clone, Copy, Debug, PartialEq, Eq, Structural)]
pub struct HarvestOutcome {
    pub from_bin_id: i32,
    pub to_bin_id: i32,
    /// Whether the permissionless path was taken.
    pub fallback: bool,
    pub split: Split,
    /// What the owner received on the converted side.
    pub harvested: u64,
    /// The position's cumulative harvested amount afterwards.
    pub total_harvested: u64,
}

/// The result of a close.
#[derive(Clone, Copy, Debug, PartialEq, Eq, Structural)]
pub struct CloseOutcome {
    pub side: Side,
    pub split: Split,
    /// What the owner received on the converted side.
    pub harvested: u64,
}

/// Whether raw token-account `data` records `owner` as its owner.
pub open spec fn owned_by(data: Seq<u8>, owner: Seq<u8>) -> bool {
    field_at(data, TOKEN_OWNER_OFFSET as int) == Some(owner)
}

/// The live bin id recorded in the pool's own account data.
pub open spec fn live_active_id(lb_pair_data: Seq<u8>) -> Option<int> {
    i32_at(lb_pair_data, ACTIVE_ID_OFFSET as int)
}

/// Why the pool's live bin id cannot be used, if it cannot.
pub open spec fn active_id_rejection(lb_pair_data: Seq<u8>) -> Option<CoreError> {
    match live_active_id(lb_pair_data) {
        None => Some(CoreError::InvalidPool),
        Some(a) => if -ACTIVE_ID_LIMIT < a < ACTIVE_ID_LIMIT {
            None
        } else {
            Some(CoreError::InvalidBinRange)
        },
    }
}

/// The side of a new position: `Sell` when its lower bound is above the live price.
pub open spec fn side_for(min_bin_id: int, active_id: int) -> Side {
    if min_bin_id > active_id {
        Side::Sell
    } else {
        Side::Buy
    }
}

/// The counters after opening a position of `amount`.
pub open spec fn counted(c: ConfigModel, amount: u64) -> ConfigModel {
    ConfigModel {
        total_positions: sat_add(c.total_positions, 1),
        total_volume: sat_add(c.total_volume, amount),
        ..c
    }
}

/// Why opening a user position is refused, if it is.
pub open spec fn open_rejection(
    c: ConfigModel,
    s: Seq<PositionModel>,
    a: OpenAccounts,
    amount: u64,
    min_bin_id: i32,
    max_bin_id: i32,
    max_active_bin_slippage: i32,
) -> Option<CoreError> {
    if has_key(s, a.meteora_position@) {
        Some(CoreError::PositionAlreadyExists)
    } else if c.paused {
        Some(CoreError::Paused)
    } else if amount == 0 {
        Some(CoreError::ZeroAmount)
    } else if amount < MIN_POSITION_AMOUNT {
        Some(CoreError::PositionTooSmall)
    } else if !(0 <= max_active_bin_slippage <= MAX_ACTIVE_BIN_SLIPPAGE) {
        Some(CoreError::InvalidSlippage)
    } else if min_bin_id > max_bin_id {
        Some(CoreError::InvalidBinRange)
    } else if max_bin_id - min_bin_id + 1 > MAX_POSITION_WIDTH {
        Some(CoreError::PositionTooWide)
    } else if a.dlmm_program@ != meteora_dlmm_program_id_spec() {
        Some(CoreError::InvalidProgram)
    } else if !owned_by(a.funder_token_data@, a.funder@) {
        Some(CoreError::InvalidTokenOwner)
    } else if !owned_by(a.vault_token_x_data@, a.vault@) {
        Some(CoreError::InvalidTokenOwner)
    } else if !owned_by(a.vault_token_y_data@, a.vault@) {
        Some(CoreError::InvalidTokenOwner)
    } else {
        active_id_rejection(a.lb_pair_data@)
    }
}

/// The record a successful open creates.
pub open spec fn opened_position(
    a: OpenAccounts,
    owner: Seq<u8>,
    side: Side,
    min_bin_id: i32,
    max_bin_id: i32,
    amount: u64,
    now: i64,
) -> PositionModel {
    PositionModel {
        owner,
        lb_pair: a.lb_pair@,
        meteora_position: a.meteora_position@,
        side,
        min_bin_id,
        max_bin_id,
        initial_amount: amount,
        harvested_amount: 0,
        created_at: now,
    }
}

/// The single-sided deposit of `amount` on `side`: token X for `Sell`, token Y for `Buy`.
pub open spec fn deposit_of(side: Side, amount: u64) -> (u64, u64) {
    match side {
        Side::Sell => (amount, 0),
        Side::Buy => (0, amount),
    }
}

fn sat_add_u64(a: u64, b: u64) -> (r: u64)
    ensures
        r == sat_add(a, b),
{
    if a > u64::MAX - b {
        u64::MAX
    } else {
        a + b
    }
}

fn check_active_id(lb_pair_data: &Vec<u8>) -> (r: Result<i32, CoreError>)
    ensures
        match active_id_rejection(lb_pair_data@) {
            Some(e) => r == Err::<i32, CoreError>(e),
            None => r matches Ok(a) && live_active_id(lb_pair_data@) == Some(a as int),
        },
{
    match read_i32_le(lb_pair_data, ACTIVE_ID_OFFSET) {
        None => Err(CoreError::InvalidPool),
        Some(a) => {
            if a > -ACTIVE_ID_LIMIT && a < ACTIVE_ID_LIMIT {
                Ok(a)
            } else {
                Err(CoreError::InvalidBinRange)
            }
        },
    }
}

/// Opens a user position of `amount` over bins `[min_bin_id, max_bin_id]`.
///
/// The side is derived from the pool's live bin id, read from the pool's own account
/// data, never from the caller. On success the book holds the new record and the
/// protocol counters grow (saturating); on failure nothing changes.
pub fn open_position_v2(
    config: &mut Config,
    book: &mut PositionBook,
    accounts: &OpenAccounts,
    amount: u64,
    min_bin_id: i32,
    max_bin_id: i32,
    max_active_bin_slippage: i32,
    now: i64,
) -> (r: Result<OpenOutcome, CoreError>)
    requires
        old(book).wf(),
    ensures
        final(book).wf(),
        match open_rejection(
            old(config)@,
            old(book)@,
            *accounts,
            amount,
            min_bin_id,
            max_bin_id,
            max_active_bin_slippage,
        ) {
            Some(e) => r == Err::<OpenOutcome, CoreError>(e) && final(config)@ == old(config)@
                && final(book)@ == old(book)@,
            None => r matches Ok(o) && {
                let active = live_active_id(accounts.lb_pair_data@)->Some_0;
                let side = side_for(min_bin_id as int, active);
                &&& o.side == side
                &&& o.active_id == active
                &&& o.min_bin_id == min_bin_id
                &&& o.max_bin_id == max_bin_id
                &&& o.width == max_bin_id - min_bin_id + 1
                &&& (o.amount_x, o.amount_y) == deposit_of(side, amount)
                &&& final(book)@ == old(book)@.push(
                    opened_position(
                        *accounts,
                        accounts.funder@,
                        side,
                        min_bin_id,
                        max_bin_id,
                        amount,
                        now,
                    ),
                )
                &&& final(config)@ == counted(old(config)@, amount)
            },
        },
        r matches Ok(o) ==> o.side == side_for(
            min_bin_id as int,
            live_active_id(accounts.lb_pair_data@)->Some_0,
        ),
        old(config).paused ==> r is Err,
{
    if book.find(&accounts.meteora_position).is_some() {
        return Err(CoreError::PositionAlreadyExists);
    }
    if config.paused {
        return Err(CoreError::Paused);
    }
    if amount == 0 {
        return Err(CoreError::ZeroAmount);
    }
    if amount < MIN_POSITION_AMOUNT {
        return Err(CoreError::PositionTooSmall);
    }
    if max_active_bin_slippage < 0 || max_active_bin_slippage > MAX_ACTIVE_BIN_SLIPPAGE {
        return Err(CoreError::InvalidSlippage);
    }
    if min_bin_id > max_bin_id {
        return Err(CoreError::InvalidBinRange);
    }
    let width64: i64 = max_bin_id as i64 - min_bin_id as i64 + 1;
    if width64 > MAX_POSITION_WIDTH as i64 {
        return Err(CoreError::PositionTooWide);
    }
    let width = width64 as i32;
    if !accounts.dlmm_program.same(&meteora_dlmm_program_id()) {
        return Err(CoreError::InvalidProgram);
    }
    if !field_is(&accounts.funder_token_data, TOKEN_OWNER_OFFSET, &accounts.funder) {
        return Err(CoreError::InvalidTokenOwner);
    }
    if !field_is(&accounts.vault_token_x_data, TOKEN_OWNER_OFFSET, &accounts.vault) {
        return Err(CoreError::InvalidTokenOwner);
    }
    if !field_is(&accounts.vault_token_y_data, TOKEN_OWNER_OFFSET, &accounts.vault) {
        return Err(CoreError::InvalidTokenOwner);
    }
    let active_id = check_active_id(&accounts.lb_pair_data)?;
    let side = if min_bin_id > active_id {
        Side::Sell
    } else {
        Side::Buy
    };
    let (amount_x, amount_y) = match side {
        Side::Sell => (amount, 0u64),
        Side::Buy => (0u64, amount),
    };
    let position = Position {
        owner: accounts.funder,
        lb_pair: accounts.lb_pair,
        meteora_position: accounts.meteora_position,
        side,
        min_bin_id,
        max_bin_id,
        initial_amount: amount,
        harvested_amount: 0,
        created_at: now,
    };
    book.insert(position);
    config.total_positions = sat_add_u64(config.total_positions, 1);
    config.total_volume = sat_add_u64(config.total_volume, amount);
    Ok(OpenOutcome { side, active_id, min_bin_id, max_bin_id, width, amount_x, amount_y })
}

/// Why the permissionless fallback is closed, if it is: the agent's last action at
/// slot `last` must be more than `threshold` slots before `slot`.
pub open spec fn fallback_rejection(slot: u64, last: u64, threshold: u64) -> Option<CoreError> {
    if slot < last {
        Some(CoreError::Overflow)
    } else if slot - last <= threshold {
        Some(CoreError::BotNotStale)
    } else {
        None
    }
}

/// Checks the permissionless fallback (see `fallback_rejection`).
pub fn check_fallback(slot: u64, last: u64, threshold: u64) -> (r: Result<(), CoreError>)
    ensures
        match fallback_rejection(slot, last, threshold) {
            Some(e) => r == Err::<(), CoreError>(e),
            None => r is Ok,
        },
{
    if slot < last {
        return Err(CoreError::Overflow);
    }
    if slot - last <= threshold {
        return Err(CoreError::BotNotStale);
    }
    Ok(())
}

/// The checks of a harvest that come before the pool service is called: the position
/// exists, its bin list is valid, and the caller is the agent, or the fallback is open
/// and the caller's tip account is valid. On success, the inclusive bin range to remove.
pub open spec fn harvest_gate(
    c: ConfigModel,
    s: Seq<PositionModel>,
    key: Seq<u8>,
    caller: Seq<u8>,
    bins: Seq<i32>,
    slot: u64,
    keeper: Option<RawAccount>,
    a: PayoutAccounts,
) -> Result<(int, int), CoreError> {
    if !has_key(s, key) {
        Err(CoreError::InvalidPosition)
    } else {
        let p = s[index_of(s, key)];
        let fallback = !c.is_agent(caller);
        match bin_ids_outcome(bins, p.min_bin_id, p.max_bin_id) {
            Err(e) => Err(e),
            Ok(range) => if fallback && fallback_rejection(
                slot,
                c.last_bot_harvest_slot,
                c.priority_slots,
            ) is Some {
                Err(fallback_rejection(slot, c.last_bot_harvest_slot, c.priority_slots)->Some_0)
            } else if keeper_rejection(p.side, fallback, keeper, a) is Some {
                Err(keeper_rejection(p.side, fallback, keeper, a)->Some_0)
            } else {
                Ok(range)
            },
        }
    }
}

/// Whether `k` is an account of one of the two token programs.
pub open spec fn is_token_account(k: RawAccount) -> bool {
    k.owner@ == spl_token_program_id_spec() || k.owner@ == token_2022_program_id_spec()
}

/// The mint of the converted token of a `side` position: X for `Buy`, Y for `Sell`.
pub open spec fn converted_mint(side: Side, a: PayoutAccounts) -> Seq<u8> {
    match side {
        Side::Buy => a.token_x_mint@,
        Side::Sell => a.token_y_mint@,
    }
}

/// Why the keeper's tip account is refused, if the permissionless path is taken: it
/// must be given, be a token account, be none of the fee or owner accounts, and hold
/// the converted token.
pub open spec fn keeper_rejection(
    side: Side,
    fallback: bool,
    keeper: Option<RawAccount>,
    a: PayoutAccounts,
) -> Option<CoreError> {
    if !fallback {
        None
    } else {
        match keeper {
            None => Some(CoreError::MissingKeeperAta),
            Some(k) => if !is_token_account(k) {
                Some(CoreError::MissingKeeperAta)
            } else if k.key@ == a.rover_fee_token_y@ || k.key@ == a.rover_fee_token_x@ || k.key@
                == a.owner_token_x@ || k.key@ == a.owner_token_y@ {
                Some(CoreError::MissingKeeperAta)
            } else if field_at(k.data@, TOKEN_MINT_OFFSET as int) != Some(converted_mint(side, a)) {
                Some(CoreError::MissingKeeperAta)
            } else {
                None
            },
        }
    }
}

/// The result of a harvest, given the vault balances before and after the removal.
pub open spec fn harvest_outcome(
    c: ConfigModel,
    s: Seq<PositionModel>,
    key: Seq<u8>,
    caller: Seq<u8>,
    bins: Seq<i32>,
    slot: u64,
    x_before: u64,
    y_before: u64,
    x_after: u64,
    y_after: u64,
    keeper: Option<RawAccount>,
    a: PayoutAccounts,
) -> Result<HarvestOutcome, CoreError> {
    match harvest_gate(c, s, key, caller, bins, slot, keeper, a) {
        Err(e) => Err(e),
        Ok((lo, hi)) => {
            let p = s[index_of(s, key)];
            let fallback = !c.is_agent(caller);
            let split = harvest_split_of(
                p.side,
                c.fee_bps as int,
                c.keeper_tip_bps as int,
                fallback,
                x_before as int,
                y_before as int,
                x_after as int,
                y_after as int,
            );
            let harvested = split.owner_on(p.side);
            if p.harvested_amount + harvested > u64::MAX {
                Err(CoreError::Overflow)
            } else if c.total_harvested + harvested > u64::MAX {
                Err(CoreError::Overflow)
            } else {
                Ok(
                    HarvestOutcome {
                        from_bin_id: lo as i32,
                        to_bin_id: hi as i32,
                        fallback,
                        split,
                        harvested: harvested as u64,
                        total_harvested: (p.harvested_amount + harvested) as u64,
                    },
                )
            }
        },
    }
}

/// The configuration after a harvest: the agent's heartbeat, and the lifetime total.
pub open spec fn harvested_config(c: ConfigModel, caller: Seq<u8>, slot: u64, harvested: u64) -> ConfigModel {
    ConfigModel {
        last_bot_harvest_slot: if c.is_agent(caller) {
            slot
        } else {
            c.last_bot_harvest_slot
        },
        total_harvested: (c.total_harvested + harvested) as u64,
        ..c
    }
}

/// The book after a harvest: the record's cumulative harvested amount.
pub open spec fn harvested_book(s: Seq<PositionModel>, key: Seq<u8>, total: u64) -> Seq<PositionModel> {
    s.update(index_of(s, key), PositionModel { harvested_amount: total, ..s[index_of(s, key)] })
}

/// The checks of a harvest that precede the call into the pool service (see
/// `harvest_gate`); returns the inclusive bin range to remove. Changes nothing.
pub fn harvest_range(
    config: &Config,
    book: &PositionBook,
    position: &Pubkey,
    caller: &Pubkey,
    bin_ids: &Vec<i32>,
    slot: u64,
    keeper: &Option<RawAccount>,
    accounts: &PayoutAccounts,
) -> (r: Result<(i32, i32), CoreError>)
    requires
        book.wf(),
    ensures
        match harvest_gate(config@, book@, position@, caller@, bin_ids@, slot, *keeper, *accounts) {
            Ok((lo, hi)) => r matches Ok((a, b)) && a == lo && b == hi,
            Err(e) => r == Err::<(i32, i32), CoreError>(e),
        },
{
    let i = match book.find(position) {
        Some(i) => i,
        None => {
            return Err(CoreError::InvalidPosition);
        },
    };
    let p = book.entries[i].position;
    let range = validate_bin_ids(bin_ids, p.min_bin_id, p.max_bin_id)?;
    let fallback = !caller.same(&config.bot);
    if fallback {
        check_fallback(slot, config.last_bot_harvest_slot, config.priority_slots)?;
    }
    check_keeper(p.side, fallback, keeper, accounts)?;
    Ok(range)
}

fn check_keeper(
    side: Side,
    fallback: bool,
    keeper: &Option<RawAccount>,
    accounts: &PayoutAccounts,
) -> (r: Result<(), CoreError>)
    ensures
        match keeper_rejection(side, fallback, *keeper, *accounts) {
            Some(e) => r == Err::<(), CoreError>(e),
            None => r is Ok,
        },
{
    if !fallback {
        return Ok(());
    }
    let k = match keeper {
        Some(k) => k,
        None => {
            return Err(CoreError::MissingKeeperAta);
        },
    };
    if !(k.owner.same(&spl_token_program_id()) || k.owner.same(&token_2022_program_id())) {
        return Err(CoreError::MissingKeeperAta);
    }
    if k.key.same(&accounts.rover_fee_token_y) || k.key.same(&accounts.rover_fee_token_x)
        || k.key.same(&accounts.owner_token_x) || k.key.same(&accounts.owner_token_y) {
        return Err(CoreError::MissingKeeperAta);
    }
    let mint = match side {
        Side::Buy => &accounts.token_x_mint,
        Side::Sell => &accounts.token_y_mint,
    };
    if !field_is(&k.data, TOKEN_MINT_OFFSET, mint) {
        return Err(CoreError::MissingKeeperAta);
    }
    Ok(())
}

/// Harvests converted bins of the position with external reference `position`.
///
/// `x_before`/`y_before` are the vault balances snapshotted before the pool service
/// removed the liquidity of the bin range, `x_after`/`y_after` those read afterwards.
/// The fee is taken on the converted side's increase only; on the permissionless path
/// the caller must hand over a valid tip account (`keeper`), and the keeper's tip
/// comes out of that fee. Never gated by the pause flag. On failure nothing changes.
pub fn harvest_bins(
    config: &mut Config,
    book: &mut PositionBook,
    position: &Pubkey,
    caller: &Pubkey,
    bin_ids: &Vec<i32>,
    slot: u64,
    x_before: u64,
    y_before: u64,
    x_after: u64,
    y_after: u64,
    keeper: &Option<RawAccount>,
    accounts: &PayoutAccounts,
) -> (r: Result<HarvestOutcome, CoreError>)
    requires
        old(book).wf(),
        old(config)@.wf(),
    ensures
        final(book).wf(),
        match harvest_outcome(
            old(config)@,
            old(book)@,
            position@,
            caller@,
            bin_ids@,
            slot,
            x_before,
            y_before,
            x_after,
            y_after,
            *keeper,
            *accounts,
        ) {
            Ok(h) => r == Ok::<HarvestOutcome, CoreError>(h) && final(config)@ == harvested_config(
                old(config)@,
                caller@,
                slot,
                h.harvested,
            ) && final(book)@ == harvested_book(old(book)@, position@, h.total_harvested),
            Err(e) => r == Err::<HarvestOutcome, CoreError>(e) && final(config)@ == old(config)@
                && final(book)@ == old(book)@,
        },
{
    let (from_bin_id, to_bin_id) = harvest_range(
        config,
        book,
        position,
        caller,
        bin_ids,
        slot,
        keeper,
        accounts,
    )?;
    let i = match book.find(position) {
        Some(i) => i,
        None => {
            return Err(CoreError::InvalidPosition);
        },
    };
    let p = book.entries[i].position;
    let fallback = !caller.same(&config.bot);
    let split = harvest_split(
        p.side,
        config.fee_bps,
        config.keeper_tip_bps,
        fallback,
        x_before,
        y_before,
        x_after,
        y_after,
    );
    let harvested = match p.side {
        Side::Buy => split.x_to_owner,
        Side::Sell => split.y_to_owner,
    };
    if p.harvested_amount > u64::MAX - harvested {
        return Err(CoreError::Overflow);
    }
    if config.total_harvested > u64::MAX - harvested {
        return Err(CoreError::Overflow);
    }
    let total_harvested = p.harvested_amount + harvested;
    let updated = Position { harvested_amount: total_harvested, ..p };
    book.replace(i, updated);
    if !fallback {
        config.last_bot_harvest_slot = slot;
    }
    config.total_harvested = config.total_harvested + harvested;
    Ok(HarvestOutcome { from_bin_id, to_bin_id, fallback, split, harvested, total_harvested })
}

/// The division of a closing vault: the fee on the whole converted-side balance, the
/// keeper's tip out of it on the permissionless path, and the lifetime total must not
/// overflow.
pub open spec fn close_settlement(c: ConfigModel, p: PositionModel, fallback: bool, x: u64, y: u64) -> Result<
    CloseOutcome,
    CoreError,
> {
    let split = close_split_of(
        p.side,
        c.fee_bps as int,
        c.keeper_tip_bps as int,
        fallback,
        x as int,
        y as int,
    );
    let harvested = split.owner_on(p.side);
    if c.total_harvested + harvested > u64::MAX {
        Err(CoreError::Overflow)
    } else {
        Ok(CloseOutcome { side: p.side, split, harvested: harvested as u64 })
    }
}

/// The checks of an agent-initiated close that come before the pool service is called:
/// the position exists; the agent may close unless agent closes are paused; anyone else
/// only once the agent is stale, and with a valid tip account.
pub open spec fn close_gate_rejection(
    c: ConfigModel,
    s: Seq<PositionModel>,
    key: Seq<u8>,
    caller: Seq<u8>,
    slot: u64,
    keeper: Option<RawAccount>,
    a: PayoutAccounts,
) -> Option<CoreError> {
    if !has_key(s, key) {
        Some(CoreError::InvalidPosition)
    } else if c.is_agent(caller) && c.bot_paused {
        Some(CoreError::BotPaused)
    } else if !c.is_agent(caller) && fallback_rejection(
        slot,
        c.last_bot_close_slot,
        c.priority_slots,
    ) is Some {
        fallback_rejection(slot, c.last_bot_close_slot, c.priority_slots)
    } else {
        keeper_rejection(s[index_of(s, key)].side, !c.is_agent(caller), keeper, a)
    }
}

/// The result of an agent-initiated close (see `close_gate_rejection`); on the
/// permissionless path the caller is tipped out of the fee.
pub open spec fn close_position_outcome(
    c: ConfigModel,
    s: Seq<PositionModel>,
    key: Seq<u8>,
    caller: Seq<u8>,
    slot: u64,
    x: u64,
    y: u64,
    keeper: Option<RawAccount>,
    a: PayoutAccounts,
) -> Result<CloseOutcome, CoreError> {
    match close_gate_rejection(c, s, key, caller, slot, keeper, a) {
        Some(e) => Err(e),
        None => close_settlement(c, s[index_of(s, key)], !c.is_agent(caller), x, y),
    }
}

/// The result of a close by the position's owner; never paused, no tip.
pub open spec fn user_close_outcome(
    c: ConfigModel,
    s: Seq<PositionModel>,
    key: Seq<u8>,
    caller: Seq<u8>,
    x: u64,
    y: u64,
) -> Result<CloseOutcome, CoreError> {
    if !has_key(s, key) {
        Err(CoreError::InvalidPosition)
    } else if caller != s[index_of(s, key)].owner {
        Err(CoreError::Unauthorized)
    } else {
        close_settlement(c, s[index_of(s, key)], false, x, y)
    }
}

/// The configuration after a close: the agent's close heartbeat when the agent closed
/// it, and the lifetime total.
pub open spec fn closed_config(c: ConfigModel, agent_heartbeat: bool, slot: u64, harvested: u64) -> ConfigModel {
    ConfigModel {
        last_bot_close_slot: if agent_heartbeat {
            slot
        } else {
            c.last_bot_close_slot
        },
        total_harvested: (c.total_harvested + harvested) as u64,
        ..c
    }
}

fn settle_close(
    config: &mut Config,
    book: &mut PositionBook,
    i: usize,
    fallback: bool,
    x: u64,
    y: u64,
) -> (r: Result<CloseOutcome, CoreError>)
    requires
        old(book).wf(),
        old(config)@.wf(),
        i < old(book)@.len(),
    ensures
        final(book).wf(),
        match close_settlement(old(config)@, old(book)@[i as int], fallback, x, y) {
            Ok(o) => r == Ok::<CloseOutcome, CoreError>(o) && final(config)@ == closed_config(
                old(config)@,
                false,
                0,
                o.harvested,
            ) && final(book)@ == old(book)@.remove(i as int),
            Err(e) => r == Err::<CloseOutcome, CoreError>(e) && final(config)@ == old(config)@
                && final(book)@ == old(book)@,
        },
{
    let p = book.entries[i].position;
    let split = close_split(p.side, config.fee_bps, config.keeper_tip_bps, fallback, x, y);
    let harvested = match p.side {
        Side::Buy => split.x_to_owner,
        Side::Sell => split.y_to_owner,
    };
    if config.total_harvested > u64::MAX - harvested {
        return Err(CoreError::Overflow);
    }
    book.remove(i);
    config.total_harvested = config.total_harvested + harvested;
    Ok(CloseOutcome { side: p.side, split, harvested })
}

/// The checks of an agent-initiated close that precede the calls into the pool service
/// (see `close_gate_rejection`). Changes nothing.
pub fn close_gate(
    config: &Config,
    book: &PositionBook,
    position: &Pubkey,
    caller: &Pubkey,
    slot: u64,
    keeper: &Option<RawAccount>,
    accounts: &PayoutAccounts,
) -> (r: Result<(), CoreError>)
    requires
        book.wf(),
    ensures
        match close_gate_rejection(config@, book@, position@, caller@, slot, *keeper, *accounts) {
            Some(e) => r == Err::<(), CoreError>(e),
            None => r is Ok,
        },
{
    let i = match book.find(position) {
        Some(i) => i,
        None => {
            return Err(CoreError::InvalidPosition);
        },
    };
    let is_agent = caller.same(&config.bot);
    if is_agent {
        if config.bot_paused {
            return Err(CoreError::BotPaused);
        }
    } else {
        check_fallback(slot, config.last_bot_close_slot, config.priority_slots)?;
    }
    check_keeper(book.entries[i].position.side, !is_agent, keeper, accounts)
}

/// Closes the position with external reference `position` on the agent's behalf, or,
/// once the agent is stale, on anyone's.
///
/// `x`/`y` are the vault balances after all liquidity was removed and the trading fees
/// were claimed; the fee is taken on the whole converted-side balance, and on the
/// permissionless path the caller's tip comes out of it. The record and its vault are
/// removed. On failure nothing changes.
pub fn close_position(
    config: &mut Config,
    book: &mut PositionBook,
    position: &Pubkey,
    caller: &Pubkey,
    slot: u64,
    x: u64,
    y: u64,
    keeper: &Option<RawAccount>,
    accounts: &PayoutAccounts,
) -> (r: Result<CloseOutcome, CoreError>)
    requires
        old(book).wf(),
        old(config)@.wf(),
    ensures
        final(book).wf(),
        match close_position_outcome(
            old(config)@,
            old(book)@,
            position@,
            caller@,
            slot,
            x,
            y,
            *keeper,
            *accounts,
        ) {
            Ok(o) => r == Ok::<CloseOutcome, CoreError>(o) && final(config)@ == closed_config(
                old(config)@,
                old(config)@.is_agent(caller@),
                slot,
                o.harvested,
            ) && final(book)@ == old(book)@.remove(index_of(old(book)@, position@)),
            Err(e) => r == Err::<CloseOutcome, CoreError>(e) && final(config)@ == old(config)@
                && final(book)@ == old(book)@,
        },
        r is Ok ==> !has_key(final(book)@, position@),
{
    close_gate(config, book, position, caller, slot, keeper, accounts)?;
    let i = match book.find(position) {
        Some(i) => i,
        None => {
            return Err(CoreError::InvalidPosition);
        },
    };
    let is_agent = caller.same(&config.bot);
    let o = settle_close(config, book, i, !is_agent, x, y)?;
    if is_agent {
        config.last_bot_close_slot = slot;
    }
    Ok(o)
}

/// Closes the position with external reference `position` at its owner's request; the
/// fee is as for `close_position`. Never paused. On failure nothing changes.
pub fn user_close(
    config: &mut Config,
    book: &mut PositionBook,
    position: &Pubkey,
    caller: &Pubkey,
    x: u64,
    y: u64,
) -> (r: Result<CloseOutcome, CoreError>)
    requires
        old(book).wf(),
        old(config)@.wf(),
    ensures
        final(book).wf(),
        match user_close_outcome(old(config)@, old(book)@, position@, caller@, x, y) {
            Ok(o) => r == Ok::<CloseOutcome, CoreError>(o) && final(config)@ == closed_config(
                old(config)@,
                false,
                0,
                o.harvested,
            ) && final(book)@ == old(book)@.remove(index_of(old(book)@, position@)),
            Err(e) => r == Err::<CloseOutcome, CoreError>(e) && final(config)@ == old(config)@
                && final(book)@ == old(book)@,
        },
        r is Ok ==> !has_key(final(book)@, position@),
{
    let i = match book.find(position) {
        Some(i) => i,
        None => {
            return Err(CoreError::InvalidPosition);
        },
    };
    if !caller.same(&book.entries[i].position.owner) {
        return Err(CoreError::Unauthorized);
    }
    settle_close(config, book, i, false, x, y)
}

/// The result of a fee claim: the owner takes the whole vault, with no protocol fee.
pub open spec fn claim_fees_outcome(s: Seq<PositionModel>, key: Seq<u8>, caller: Seq<u8>, x: u64, y: u64) -> Result<
    (u64, u64),
    CoreError,
> {
    if !has_key(s, key) {
        Err(CoreError::InvalidPosition)
    } else if caller != s[index_of(s, key)].owner {
        Err(CoreError::Unauthorized)
    } else {
        Ok((x, y))
    }
}

/// Pays the owner the trading fees just claimed into the vault (`x`, `y`), with no
/// protocol fee. Owner only; never paused; changes no record.
pub fn claim_fees(book: &PositionBook, position: &Pubkey, caller: &Pubkey, x: u64, y: u64) -> (r: Result<
    (u64, u64),
    CoreError,
>)
    requires
        book.wf(),
    ensures
        r == claim_fees_outcome(book@, position@, caller@, x, y),
{
    let i = match book.find(position) {
        Some(i) => i,
        None => {
            return Err(CoreError::InvalidPosition);
        },
    };
    if !caller.same(&book.entries[i].position.owner) {
        return Err(CoreError::Unauthorized);
    }
    Ok((x, y))
}

/// Whether the pending emergency-close target names the record of the position with
/// external reference `key`: the target is that record's address, derived from `key`
/// under `program_id`.
pub open spec fn names_record(c: ConfigModel, key: Seq<u8>, program_id: Seq<u8>) -> bool {
    program_address(seq![position_seed(), key], program_id) matches Some((addr, _))
        && addr == c.pending_emergency_close
}

/// The result of an emergency close: the position must be the pending target and the
/// timelock must have passed; the owner receives the vault balances whole.
pub open spec fn emergency_close_outcome(
    c: ConfigModel,
    s: Seq<PositionModel>,
    key: Seq<u8>,
    program_id: Seq<u8>,
    now: i64,
    x: u64,
    y: u64,
) -> Result<(u64, u64), CoreError> {
    if !has_key(s, key) || !names_record(c, key, program_id) {
        Err(CoreError::InvalidPosition)
    } else if c.emergency_close_at <= 0 {
        Err(CoreError::NoPendingEmergencyClose)
    } else if now < c.emergency_close_at {
        Err(CoreError::EmergencyCloseTimelockNotExpired)
    } else {
        Ok((x, y))
    }
}

/// The configuration after an emergency close: nothing pending any more.
pub open spec fn emergency_cleared(c: ConfigModel) -> ConfigModel {
    ConfigModel { pending_emergency_close: crate::pubkey::zero_key(), emergency_close_at: 0, ..c }
}

/// Unwinds the position with external reference `position`, whose record (owned by
/// `program_id`) is the pending emergency-close target, without the pool service:
/// the owner receives the vault balances `x`/`y` whole, and the record and its vault
/// are removed. Anyone may call once the timelock has passed. On failure nothing
/// changes.
pub fn apply_emergency_close(
    config: &mut Config,
    book: &mut PositionBook,
    position: &Pubkey,
    program_id: &Pubkey,
    now: i64,
    x: u64,
    y: u64,
) -> (r: Result<(u64, u64), CoreError>)
    requires
        old(book).wf(),
    ensures
        final(book).wf(),
        r == emergency_close_outcome(old(config)@, old(book)@, position@, program_id@, now, x, y),
        r is Ok ==> final(config)@ == emergency_cleared(old(config)@) && final(book)@ == old(
            book,
        )@.remove(index_of(old(book)@, position@)) && !has_key(final(book)@, position@),
        r is Err ==> final(config)@ == old(config)@ && final(book)@ == old(book)@,
{
    let i = match book.find(position) {
        Some(i) => i,
        None => {
            return Err(CoreError::InvalidPosition);
        },
    };
    match position_record_address(position, program_id) {
        Some((record, _)) => {
            if !record.same(&config.pending_emergency_close) {
                return Err(CoreError::InvalidPosition);
            }
        },
        None => {
            return Err(CoreError::InvalidPosition);
        },
    }
    if config.emergency_close_at <= 0 {
        return Err(CoreError::NoPendingEmergencyClose);
    }
    if now < config.emergency_close_at {
        return Err(CoreError::EmergencyCloseTimelockNotExpired);
    }
    book.remove(i);
    config.pending_emergency_close = Pubkey::zero();
    config.emergency_close_at = 0;
    Ok((x, y))
}

/// Width of a rover position: about the bins of a 2x price move (`6931 / bin_step`),
/// at least one and at most `MAX_POSITION_WIDTH`.
pub open spec fn rover_width(bin_step: u16) -> int {
    let w = (ROVER_WIDTH_NUMERATOR as int) / (bin_step as int);
    if w < 1 {
        1
    } else if w > MAX_POSITION_WIDTH {
        MAX_POSITION_WIDTH as int
    } else {
        w
    }
}

/// Computes the width of a rover position (see `rover_width`).
pub fn rover_position_width(bin_step: u16) -> (r: i32)
    requires
        bin_step > 0,
    ensures
        r == rover_width(bin_step),
        1 <= r <= MAX_POSITION_WIDTH,
{
    let bins_for_2x = ROVER_WIDTH_NUMERATOR / (bin_step as i32);
    if bins_for_2x < 1 {
        1
    } else if bins_for_2x > MAX_POSITION_WIDTH {
        MAX_POSITION_WIDTH
    } else {
        bins_for_2x
    }
}

/// Why opening a third-party rover position is refused, if it is.
pub open spec fn rover_open_rejection(
    c: ConfigModel,
    s: Seq<PositionModel>,
    a: OpenAccounts,
    amount: u64,
    bin_step: u16,
) -> Option<CoreError> {
    if has_key(s, a.meteora_position@) {
        Some(CoreError::PositionAlreadyExists)
    } else if c.paused {
        Some(CoreError::Paused)
    } else if amount == 0 {
        Some(CoreError::ZeroAmount)
    } else if amount < MIN_ROVER_DEPOSIT {
        Some(CoreError::RoverDepositTooSmall)
    } else if bin_step < MIN_ROVER_BIN_STEP {
        Some(CoreError::RoverBinStepTooSmall)
    } else if !owned_by(a.funder_token_data@, a.funder@) {
        Some(CoreError::InvalidTokenOwner)
    } else if !owned_by(a.vault_token_x_data@, a.vault@) {
        Some(CoreError::InvalidTokenOwner)
    } else if active_id_rejection(a.lb_pair_data@) is Some {
        active_id_rejection(a.lb_pair_data@)
    } else if a.dlmm_program@ != meteora_dlmm_program_id_spec() {
        Some(CoreError::InvalidProgram)
    } else {
        None
    }
}

/// Why opening a rover position from accumulated fees is refused, if it is.
pub open spec fn fee_rover_rejection(
    c: ConfigModel,
    s: Seq<PositionModel>,
    a: OpenAccounts,
    caller: Seq<u8>,
    amount: u64,
    bin_step: u16,
) -> Option<CoreError> {
    if has_key(s, a.meteora_position@) {
        Some(CoreError::PositionAlreadyExists)
    } else if !c.is_agent(caller) {
        Some(CoreError::Unauthorized)
    } else if amount == 0 {
        Some(CoreError::ZeroAmount)
    } else if bin_step < MIN_ROVER_BIN_STEP {
        Some(CoreError::RoverBinStepTooSmall)
    } else if !owned_by(a.vault_token_x_data@, a.vault@) {
        Some(CoreError::InvalidTokenOwner)
    } else if active_id_rejection(a.lb_pair_data@) is Some {
        active_id_rejection(a.lb_pair_data@)
    } else if a.dlmm_program@ != meteora_dlmm_program_id_spec() {
        Some(CoreError::InvalidProgram)
    } else {
        None
    }
}

/// What a successful rover open asks of the pool service: a `Sell` range starting
/// just above the live price.
pub open spec fn rover_outcome_of(o: OpenOutcome, active: int, bin_step: u16, amount: u64) -> bool {
    &&& o.side == Side::Sell
    &&& o.active_id == active
    &&& o.width == rover_width(bin_step)
    &&& o.min_bin_id == active + 1
    &&& o.max_bin_id == active + rover_width(bin_step)
    &&& o.amount_x == amount
    &&& o.amount_y == 0
}

/// The rover identity after opening one more position.
pub open spec fn rover_counted(r: RoverModel) -> RoverModel {
    RoverModel { total_rover_positions: sat_add(r.total_rover_positions, 1), ..r }
}

fn open_rover_record(
    config: &mut Config,
    rover: &mut RoverAuthority,
    book: &mut PositionBook,
    rover_key: &Pubkey,
    accounts: &OpenAccounts,
    active_id: i32,
    amount: u64,
    bin_step: u16,
    now: i64,
) -> (o: OpenOutcome)
    requires
        old(book).wf(),
        !has_key(old(book)@, accounts.meteora_position@),
        bin_step >= MIN_ROVER_BIN_STEP,
        -ACTIVE_ID_LIMIT < active_id < ACTIVE_ID_LIMIT,
    ensures
        final(book).wf(),
        rover_outcome_of(o, active_id as int, bin_step, amount),
        final(book)@ == old(book)@.push(
            opened_position(*accounts, rover_key@, Side::Sell, o.min_bin_id, o.max_bin_id, amount, now),
        ),
        final(config)@ == counted(old(config)@, amount),
        final(rover)@ == rover_counted(old(rover)@),
{
    let width = rover_position_width(bin_step);
    let min_bin_id = active_id + 1;
    let max_bin_id = min_bin_id + width - 1;
    let position = Position {
        owner: *rover_key,
        lb_pair: accounts.lb_pair,
        meteora_position: accounts.meteora_position,
        side: Side::Sell,
        min_bin_id,
        max_bin_id,
        initial_amount: amount,
        harvested_amount: 0,
        created_at: now,
    };
    book.insert(position);
    config.total_positions = sat_add_u64(config.total_positions, 1);
    config.total_volume = sat_add_u64(config.total_volume, amount);
    rover.total_rover_positions = sat_add_u64(rover.total_rover_positions, 1);
    OpenOutcome {
        side: Side::Sell,
        active_id,
        min_bin_id,
        max_bin_id,
        width,
        amount_x: amount,
        amount_y: 0,
    }
}

/// Opens a protocol-owned `Sell` position funded by anyone: owned by the rover identity
/// `rover_key`, over about a 2x price range just above the live price. On failure
/// nothing changes.
pub fn open_rover_position(
    config: &mut Config,
    rover: &mut RoverAuthority,
    book: &mut PositionBook,
    rover_key: &Pubkey,
    accounts: &OpenAccounts,
    amount: u64,
    bin_step: u16,
    now: i64,
) -> (r: Result<OpenOutcome, CoreError>)
    requires
        old(book).wf(),
    ensures
        final(book).wf(),
        match rover_open_rejection(old(config)@, old(book)@, *accounts, amount, bin_step) {
            Some(e) => r == Err::<OpenOutcome, CoreError>(e) && final(config)@ == old(config)@
                && final(rover)@ == old(rover)@ && final(book)@ == old(book)@,
            None => r matches Ok(o) && {
                &&& rover_outcome_of(
                    o,
                    live_active_id(accounts.lb_pair_data@)->Some_0,
                    bin_step,
                    amount,
                )
                &&& final(book)@ == old(book)@.push(
                    opened_position(
                        *accounts,
                        rover_key@,
                        Side::Sell,
                        o.min_bin_id,
                        o.max_bin_id,
                        amount,
                        now,
                    ),
                )
                &&& final(config)@ == counted(old(config)@, amount)
                &&& final(rover)@ == rover_counted(old(rover)@)
            },
        },
{
    if book.find(&accounts.meteora_position).is_some() {
        return Err(CoreError::PositionAlreadyExists);
    }
    if config.paused {
        return Err(CoreError::Paused);
    }
    if amount == 0 {
        return Err(CoreError::ZeroAmount);
    }
    if amount < MIN_ROVER_DEPOSIT {
        return Err(CoreError::RoverDepositTooSmall);
    }
    if bin_step < MIN_ROVER_BIN_STEP {
        return Err(CoreError::RoverBinStepTooSmall);
    }
    if !field_is(&accounts.funder_token_data, TOKEN_OWNER_OFFSET, &accounts.funder) {
        return Err(CoreError::InvalidTokenOwner);
    }
    if !field_is(&accounts.vault_token_x_data, TOKEN_OWNER_OFFSET, &accounts.vault) {
        return Err(CoreError::InvalidTokenOwner);
    }
    let active_id = check_active_id(&accounts.lb_pair_data)?;
    if !accounts.dlmm_program.same(&meteora_dlmm_program_id()) {
        return Err(CoreError::InvalidProgram);
    }
    Ok(open_rover_record(config, rover, book, rover_key, accounts, active_id, amount, bin_step, now))
}

/// Opens a protocol-owned `Sell` position funded from the rover identity's accumulated
/// fees. Agent only. On failure nothing changes.
pub fn open_fee_rover(
    config: &mut Config,
    rover: &mut RoverAuthority,
    book: &mut PositionBook,
    rover_key: &Pubkey,
    caller: &Pubkey,
    accounts: &OpenAccounts,
    amount: u64,
    bin_step: u16,
    now: i64,
) -> (r: Result<OpenOutcome, CoreError>)
    requires
        old(book).wf(),
    ensures
        final(book).wf(),
        match fee_rover_rejection(old(config)@, old(book)@, *accounts, caller@, amount, bin_step) {
            Some(e) => r == Err::<OpenOutcome, CoreError>(e) && final(config)@ == old(config)@
                && final(rover)@ == old(rover)@ && final(book)@ == old(book)@,
            None => r matches Ok(o) && {
                &&& rover_outcome_of(
                    o,
                    live_active_id(accounts.lb_pair_data@)->Some_0,
                    bin_step,
                    amount,
                )
                &&& final(book)@ == old(book)@.push(
                    opened_position(
                        *accounts,
                        rover_key@,
                        Side::Sell,
                        o.min_bin_id,
                        o.max_bin_id,
                        amount,
                        now,
                    ),
                )
                &&& final(config)@ == counted(old(config)@, amount)
                &&& final(rover)@ == rover_counted(old(rover)@)
            },
        },
{
    if book.find(&accounts.meteora_position).is_some() {
        return Err(CoreError::PositionAlreadyExists);
    }
    if !caller.same(&config.bot) {
        return Err(CoreError::Unauthorized);
    }
    if amount == 0 {
        return Err(CoreError::ZeroAmount);
    }
    if bin_step < MIN_ROVER_BIN_STEP {
        return Err(CoreError::RoverBinStepTooSmall);
    }
    if !field_is(&accounts.vault_token_x_data, TOKEN_OWNER_OFFSET, &accounts.vault) {
        return Err(CoreError::InvalidTokenOwner);
    }
    let active_id = check_active_id(&accounts.lb_pair_data)?;
    if !accounts.dlmm_program.same(&meteora_dlmm_program_id()) {
        return Err(CoreError::InvalidProgram);
    }
    Ok(open_rover_record(config, rover, book, rover_key, accounts, active_id, amount, bin_step, now))
}

/// The result of a sweep: the destination must be the configured one and not a
/// program; the rover identity's lamports above the rent reserve move on.
pub open spec fn sweep_outcome(
    r: RoverModel,
    lamports: u64,
    rent_minimum: u64,
    dest: Seq<u8>,
    dest_executable: bool,
) -> Result<u64, CoreError> {
    if dest != r.revenue_dest {
        Err(CoreError::InvalidPool)
    } else if dest_executable {
        Err(CoreError::InvalidDistPool)
    } else if lamports <= rent_minimum {
        Err(CoreError::NothingToSweep)
    } else {
        Ok((lamports - rent_minimum) as u64)
    }
}

/// Whether a sweep by `caller` succeeded and was the agent's.
pub open spec fn swept(r: Result<u64, CoreError>, c: ConfigModel, caller: Seq<u8>) -> bool {
    r is Ok && c.is_agent(caller)
}

/// The configuration after the agent's sweep: its sweep heartbeat.
pub open spec fn swept_config(c: ConfigModel, slot: u64) -> ConfigModel {
    ConfigModel { last_bot_sweep_slot: slot, ..c }
}

/// Moves the rover identity's lamports above `rent_minimum` to the revenue destination
/// `revenue_dest`; returns the amount. Anyone may call; the agent's call is recorded
/// as its sweep heartbeat. On failure nothing changes.
pub fn sweep_rover(
    config: &mut Config,
    rover: &RoverAuthority,
    caller: &Pubkey,
    slot: u64,
    rover_lamports: u64,
    rent_minimum: u64,
    revenue_dest: &Pubkey,
    dest_executable: bool,
) -> (r: Result<u64, CoreError>)
    ensures
        r == sweep_outcome(rover@, rover_lamports, rent_minimum, revenue_dest@, dest_executable),
        swept(r, old(config)@, caller@) ==> final(config)@ == swept_config(old(config)@, slot),
        !swept(r, old(config)@, caller@) ==> final(config)@ == old(config)@,
{
    if !revenue_dest.same(&rover.revenue_dest) {
        return Err(CoreError::InvalidPool);
    }
    if dest_executable {
        return Err(CoreError::InvalidDistPool);
    }
    if rover_lamports <= rent_minimum {
        return Err(CoreError::NothingToSweep);
    }
    if caller.same(&config.bot) {
        config.last_bot_sweep_slot = slot;
    }
    Ok(rover_lamports - rent_minimum)
}

/// Number of accounts a pool-fee claim hands over.
pub const POOL_FEE_CLAIM_ACCOUNTS: usize = 13;

/// Index of the DAMM v2 program among them.
pub const POOL_FEE_PROGRAM_INDEX: usize = 12;

/// Indices of the rover identity's two token accounts among them.
pub const POOL_FEE_ROVER_TOKEN_A_INDEX: usize = 7;

pub const POOL_FEE_ROVER_TOKEN_B_INDEX: usize = 8;

/// Why a pool-fee claim is refused, if it is: all accounts must be given, the program
/// must be DAMM v2, and both receiving token accounts must belong to the rover identity.
pub open spec fn pool_fee_claim_rejection(accounts: Seq<RawAccount>, rover_key: Seq<u8>) -> Option<
    CoreError,
> {
    if accounts.len() < POOL_FEE_CLAIM_ACCOUNTS {
        Some(CoreError::NoBinsProvided)
    } else if accounts[POOL_FEE_PROGRAM_INDEX as int].key@
        != crate::programs::damm_v2_program_id_spec() {
        Some(CoreError::InvalidProgram)
    } else if !owned_by(accounts[POOL_FEE_ROVER_TOKEN_A_INDEX as int].data@, rover_key) {
        Some(CoreError::InvalidTokenOwner)
    } else if !owned_by(accounts[POOL_FEE_ROVER_TOKEN_B_INDEX as int].data@, rover_key) {
        Some(CoreError::InvalidTokenOwner)
    } else {
        None
    }
}

/// Checks the accounts of a claim of the rover identity's DAMM v2 trading fees (see
/// `pool_fee_claim_rejection`). Anyone may call.
pub fn claim_pool_fees(accounts: &Vec<RawAccount>, rover_key: &Pubkey) -> (r: Result<(), CoreError>)
    ensures
        match pool_fee_claim_rejection(accounts@, rover_key@) {
            Some(e) => r == Err::<(), CoreError>(e),
            None => r is Ok,
        },
{
    if accounts.len() < POOL_FEE_CLAIM_ACCOUNTS {
        return Err(CoreError::NoBinsProvided);
    }
    if !accounts[POOL_FEE_PROGRAM_INDEX].key.same(&crate::programs::damm_v2_program_id()) {
        return Err(CoreError::InvalidProgram);
    }
    if !field_is(&accounts[POOL_FEE_ROVER_TOKEN_A_INDEX].data, TOKEN_OWNER_OFFSET, rover_key) {
        return Err(CoreError::InvalidTokenOwner);
    }
    if !field_is(&accounts[POOL_FEE_ROVER_TOKEN_B_INDEX].data, TOKEN_OWNER_OFFSET, rover_key) {
        return Err(CoreError::InvalidTokenOwner);
    }
    Ok(())
}

} // verus!
