use vstd::prelude::*;
use crate::pubkey::{Pubkey, zero_key};
use crate::types::{CoreError, Side};

verus! {

/// Fee rate given to a new protocol unless another is chosen.
pub const DEFAULT_FEE_BPS: u16 = 30;

/// Highest protocol fee rate: 10%.
pub const MAX_FEE_BPS: u16 = 1000;

/// Highest keeper tip rate, as a share of the fee: 50%.
pub const MAX_KEEPER_TIP_BPS: u16 = 5000;

/// Highest staleness threshold, so that the permissionless fallback cannot be disabled.
pub const MAX_PRIORITY_SLOTS: u64 = 9000;

/// Keeper tip rate of a freshly initialized protocol.
pub const INITIAL_KEEPER_TIP_BPS: u16 = 1000;

/// Staleness threshold of a freshly initialized protocol.
pub const INITIAL_PRIORITY_SLOTS: u64 = 100;

/// Delay between proposing a governance change and being able to apply it: 24 hours.
pub const TIMELOCK_SECONDS: i64 = 86_400;

/// Minimum deposit of a user position.
pub const MIN_POSITION_AMOUNT: u64 = 10_000;

/// Minimum deposit of a rover position.
pub const MIN_ROVER_DEPOSIT: u64 = 10_000;

/// Minimum pool bin step of a rover position.
pub const MIN_ROVER_BIN_STEP: u16 = 20;

/// Widest position, in bins; also the most bins one harvest may name.
pub const MAX_POSITION_WIDTH: i32 = 70;

/// Bins per bin array of the pool service.
pub const BINS_PER_ARRAY: i32 = 70;

/// Largest slippage, in bins, that an opener may allow.
pub const MAX_ACTIVE_BIN_SLIPPAGE: i32 = 20;

/// Slippage, in bins, of every rover position.
pub const ROVER_ACTIVE_BIN_SLIPPAGE: i32 = 10;

/// Live bin ids lie strictly between `-ACTIVE_ID_LIMIT` and `ACTIVE_ID_LIMIT`.
pub const ACTIVE_ID_LIMIT: i32 = 443_636;

/// Process-wide governance and operational state.
#[derive(Clone, Copy, Debug)]
pub struct Config {
    pub authority: Pubkey,
    pub pending_authority: Pubkey,
    pub bot: Pubkey,
    pub fee_bps: u16,
    pub pending_fee_bps: u16,
    pub fee_change_at: i64,
    pub total_positions: u64,
    pub total_volume: u64,
    pub paused: bool,
    pub bot_paused: bool,
    pub last_bot_harvest_slot: u64,
    pub keeper_tip_bps: u16,
    pub priority_slots: u64,
    pub total_harvested: u64,
    pub pending_emergency_close: Pubkey,
    pub emergency_close_at: i64,
    pub last_bot_close_slot: u64,
    pub last_bot_sweep_slot: u64,
}

/// `Config` with its addresses as byte sequences.
pub ghost struct ConfigModel {
    pub authority: Seq<u8>,
    pub pending_authority: Seq<u8>,
    pub bot: Seq<u8>,
    pub fee_bps: u16,
    pub pending_fee_bps: u16,
    pub fee_change_at: i64,
    pub total_positions: u64,
    pub total_volume: u64,
    pub paused: bool,
    pub bot_paused: bool,
    pub last_bot_harvest_slot: u64,
    pub keeper_tip_bps: u16,
    pub priority_slots: u64,
    pub total_harvested: u64,
    pub pending_emergency_close: Seq<u8>,
    pub emergency_close_at: i64,
    pub last_bot_close_slot: u64,
    pub last_bot_sweep_slot: u64,
}

impl View for Config {
    type V = ConfigModel;

    open spec fn view(&self) -> ConfigModel {
        ConfigModel {
            authority: self.authority@,
            pending_authority: self.pending_authority@,
            bot: self.bot@,
            fee_bps: self.fee_bps,
            pending_fee_bps: self.pending_fee_bps,
            fee_change_at: self.fee_change_at,
            total_positions: self.total_positions,
            total_volume: self.total_volume,
            paused: self.paused,
            bot_paused: self.bot_paused,
            last_bot_harvest_slot: self.last_bot_harvest_slot,
            keeper_tip_bps: self.keeper_tip_bps,
            priority_slots: self.priority_slots,
            total_harvested: self.total_harvested,
            pending_emergency_close: self.pending_emergency_close@,
            emergency_close_at: self.emergency_close_at,
            last_bot_close_slot: self.last_bot_close_slot,
            last_bot_sweep_slot: self.last_bot_sweep_slot,
        }
    }
}

impl ConfigModel {
    /// The rate bounds that every operation keeps.
    pub open spec fn wf(self) -> bool {
        &&& self.fee_bps <= MAX_FEE_BPS
        &&& self.pending_fee_bps <= MAX_FEE_BPS
        &&& self.keeper_tip_bps <= MAX_KEEPER_TIP_BPS
        &&& self.priority_slots <= MAX_PRIORITY_SLOTS
    }

    /// Whether `caller` is the governance authority.
    pub open spec fn is_authority(self, caller: Seq<u8>) -> bool {
        caller == self.authority
    }

    /// Whether `caller` is the delegated agent.
    pub open spec fn is_agent(self, caller: Seq<u8>) -> bool {
        caller == self.bot
    }
}

/// One custodial liquidity range in the pool service.
#[derive(Clone, Copy, Debug)]
pub struct Position {
    pub owner: Pubkey,
    pub lb_pair: Pubkey,
    pub meteora_position: Pubkey,
    pub side: Side,
    pub min_bin_id: i32,
    pub max_bin_id: i32,
    pub initial_amount: u64,
    pub harvested_amount: u64,
    pub created_at: i64,
}

/// `Position` with its addresses as byte sequences.
pub ghost struct PositionModel {
    pub owner: Seq<u8>,
    pub lb_pair: Seq<u8>,
    pub meteora_position: Seq<u8>,
    pub side: Side,
    pub min_bin_id: i32,
    pub max_bin_id: i32,
    pub initial_amount: u64,
    pub harvested_amount: u64,
    pub created_at: i64,
}

impl View for Position {
    type V = PositionModel;

    open spec fn view(&self) -> PositionModel {
        PositionModel {
            owner: self.owner@,
            lb_pair: self.lb_pair@,
            meteora_position: self.meteora_position@,
            side: self.side,
            min_bin_id: self.min_bin_id,
            max_bin_id: self.max_bin_id,
            initial_amount: self.initial_amount,
            harvested_amount: self.harvested_amount,
            created_at: self.created_at,
        }
    }
}

impl PositionModel {
    /// An inclusive bin range of at most `MAX_POSITION_WIDTH` bins.
    pub open spec fn wf(self) -> bool {
        &&& self.min_bin_id <= self.max_bin_id
        &&& self.max_bin_id - self.min_bin_id + 1 <= MAX_POSITION_WIDTH
    }
}

/// The custody account of one position, bound to the position's external reference.
#[derive(Clone, Copy, Debug)]
pub struct Vault {
    pub position: Pubkey,
}

/// The singleton custody identity of protocol-owned positions.
#[derive(Clone, Copy, Debug)]
pub struct RoverAuthority {
    pub revenue_dest: Pubkey,
    pub total_rover_positions: u64,
    pub pending_revenue_dest: Pubkey,
    pub revenue_dest_change_at: i64,
}

/// `RoverAuthority` with its addresses as byte sequences.
pub ghost struct RoverModel {
    pub revenue_dest: Seq<u8>,
    pub total_rover_positions: u64,
    pub pending_revenue_dest: Seq<u8>,
    pub revenue_dest_change_at: i64,
}

impl View for RoverAuthority {
    type V = RoverModel;

    open spec fn view(&self) -> RoverModel {
        RoverModel {
            revenue_dest: self.revenue_dest@,
            total_rover_positions: self.total_rover_positions,
            pending_revenue_dest: self.pending_revenue_dest@,
            revenue_dest_change_at: self.revenue_dest_change_at,
        }
    }
}

/// `before + n`, held at `u64::MAX`.
pub open spec fn sat_add(before: u64, n: u64) -> u64 {
    if before + n > u64::MAX {
        u64::MAX
    } else {
        (before + n) as u64
    }
}

/// The configuration that `initialize` creates.
pub open spec fn initial_config(authority: Seq<u8>, bot: Seq<u8>, fee_bps: u16) -> ConfigModel {
    ConfigModel {
        authority,
        pending_authority: zero_key(),
        bot,
        fee_bps,
        pending_fee_bps: 0,
        fee_change_at: 0,
        total_positions: 0,
        total_volume: 0,
        paused: false,
        bot_paused: false,
        last_bot_harvest_slot: 0,
        keeper_tip_bps: INITIAL_KEEPER_TIP_BPS,
        priority_slots: INITIAL_PRIORITY_SLOTS,
        total_harvested: 0,
        pending_emergency_close: zero_key(),
        emergency_close_at: 0,
        last_bot_close_slot: 0,
        last_bot_sweep_slot: 0,
    }
}

/// Creates the protocol configuration; the fee rate is at most `MAX_FEE_BPS`.
pub fn initialize(authority: &Pubkey, bot: &Pubkey, fee_bps: u16) -> (r: Result<Config, CoreError>)
    ensures
        fee_bps > MAX_FEE_BPS ==> r == Err::<Config, CoreError>(CoreError::FeeTooHigh),
        fee_bps <= MAX_FEE_BPS ==> (r matches Ok(c) && c@ == initial_config(authority@, bot@, fee_bps)),
{
    if fee_bps > MAX_FEE_BPS {
        return Err(CoreError::FeeTooHigh);
    }
    Ok(Config {
        authority: *authority,
        pending_authority: Pubkey::zero(),
        bot: *bot,
        fee_bps,
        pending_fee_bps: 0,
        fee_change_at: 0,
        total_positions: 0,
        total_volume: 0,
        paused: false,
        bot_paused: false,
        last_bot_harvest_slot: 0,
        keeper_tip_bps: INITIAL_KEEPER_TIP_BPS,
        priority_slots: INITIAL_PRIORITY_SLOTS,
        total_harvested: 0,
        pending_emergency_close: Pubkey::zero(),
        emergency_close_at: 0,
        last_bot_close_slot: 0,
        last_bot_sweep_slot: 0,
    })
}

} // verus!
