use vstd::prelude::*;
use crate::pubkey::{Pubkey, zero_key};
use crate::state::{Config, ConfigModel, RoverAuthority, RoverModel, MAX_FEE_BPS, MAX_KEEPER_TIP_BPS, MAX_PRIORITY_SLOTS, TIMELOCK_SECONDS};
use crate::types::CoreError;

verus! {

/// `r` and `after` are what `outcome` prescribes: on success the new state, on
/// failure that error with the state left as `before`.
pub open spec fn steps_to<M>(
    before: M,
    after: M,
    r: Result<(), CoreError>,
    outcome: Result<M, CoreError>,
) -> bool {
    match outcome {
        Ok(next) => r is Ok && after == next,
        Err(e) => r == Err::<(), CoreError>(e) && after == before,
    }
}

/// `now` plus the governance delay, if it fits in an `i64`.
pub open spec fn timelock_from(now: i64) -> Option<i64> {
    if now + TIMELOCK_SECONDS <= i64::MAX {
        Some((now + TIMELOCK_SECONDS) as i64)
    } else {
        None
    }
}

/// `next` where `caller` is the authority, else `Unauthorized`.
pub open spec fn admin_only(c: ConfigModel, caller: Seq<u8>, next: ConfigModel) -> Result<
    ConfigModel,
    CoreError,
> {
    if c.is_authority(caller) {
        Ok(next)
    } else {
        Err(CoreError::Unauthorized)
    }
}

pub open spec fn pause_outcome(c: ConfigModel, caller: Seq<u8>, paused: bool) -> Result<
    ConfigModel,
    CoreError,
> {
    admin_only(c, caller, ConfigModel { paused, ..c })
}

pub open spec fn bot_pause_outcome(c: ConfigModel, caller: Seq<u8>, bot_paused: bool) -> Result<
    ConfigModel,
    CoreError,
> {
    admin_only(c, caller, ConfigModel { bot_paused, ..c })
}

pub open spec fn update_bot_outcome(c: ConfigModel, caller: Seq<u8>, bot: Seq<u8>) -> Result<
    ConfigModel,
    CoreError,
> {
    admin_only(c, caller, ConfigModel { bot, ..c })
}

pub open spec fn update_keeper_tip_outcome(c: ConfigModel, caller: Seq<u8>, bps: u16) -> Result<
    ConfigModel,
    CoreError,
> {
    if !c.is_authority(caller) {
        Err(CoreError::Unauthorized)
    } else if bps > MAX_KEEPER_TIP_BPS {
        Err(CoreError::FeeTooHigh)
    } else {
        Ok(ConfigModel { keeper_tip_bps: bps, ..c })
    }
}

pub open spec fn update_priority_slots_outcome(
    c: ConfigModel,
    caller: Seq<u8>,
    slots: u64,
) -> Result<ConfigModel, CoreError> {
    if !c.is_authority(caller) {
        Err(CoreError::Unauthorized)
    } else if slots > MAX_PRIORITY_SLOTS {
        Err(CoreError::PrioritySlotsExceedMax)
    } else {
        Ok(ConfigModel { priority_slots: slots, ..c })
    }
}

pub open spec fn propose_fee_outcome(c: ConfigModel, caller: Seq<u8>, bps: u16, now: i64) -> Result<
    ConfigModel,
    CoreError,
> {
    if !c.is_authority(caller) {
        Err(CoreError::Unauthorized)
    } else if bps > MAX_FEE_BPS {
        Err(CoreError::FeeTooHigh)
    } else {
        match timelock_from(now) {
            Some(at) => Ok(ConfigModel { pending_fee_bps: bps, fee_change_at: at, ..c }),
            None => Err(CoreError::Overflow),
        }
    }
}

pub open spec fn apply_fee_outcome(c: ConfigModel, now: i64) -> Result<ConfigModel, CoreError> {
    if c.fee_change_at <= 0 {
        Err(CoreError::NoPendingFeeChange)
    } else if now < c.fee_change_at {
        Err(CoreError::FeeTimelockNotExpired)
    } else {
        Ok(ConfigModel { fee_bps: c.pending_fee_bps, pending_fee_bps: 0, fee_change_at: 0, ..c })
    }
}

pub open spec fn cancel_pending_fee_outcome(c: ConfigModel, caller: Seq<u8>) -> Result<
    ConfigModel,
    CoreError,
> {
    if !c.is_authority(caller) {
        Err(CoreError::Unauthorized)
    } else if c.fee_change_at <= 0 {
        Err(CoreError::NoPendingFeeChange)
    } else {
        Ok(ConfigModel { pending_fee_bps: 0, fee_change_at: 0, ..c })
    }
}

pub open spec fn transfer_authority_outcome(
    c: ConfigModel,
    caller: Seq<u8>,
    new_authority: Seq<u8>,
) -> Result<ConfigModel, CoreError> {
    admin_only(c, caller, ConfigModel { pending_authority: new_authority, ..c })
}

pub open spec fn accept_authority_outcome(c: ConfigModel, caller: Seq<u8>) -> Result<
    ConfigModel,
    CoreError,
> {
    if caller != c.pending_authority {
        Err(CoreError::Unauthorized)
    } else if c.pending_authority == zero_key() {
        Err(CoreError::NoPendingAuthority)
    } else {
        Ok(ConfigModel { authority: c.pending_authority, pending_authority: zero_key(), ..c })
    }
}

pub open spec fn propose_emergency_close_outcome(
    c: ConfigModel,
    caller: Seq<u8>,
    position: Seq<u8>,
    now: i64,
) -> Result<ConfigModel, CoreError> {
    if !c.is_authority(caller) {
        Err(CoreError::Unauthorized)
    } else {
        match timelock_from(now) {
            Some(at) => Ok(
                ConfigModel { pending_emergency_close: position, emergency_close_at: at, ..c },
            ),
            None => Err(CoreError::Overflow),
        }
    }
}

pub open spec fn initialize_rover_outcome(c: ConfigModel, caller: Seq<u8>, dest: Seq<u8>) -> Result<
    RoverModel,
    CoreError,
> {
    if !c.is_authority(caller) {
        Err(CoreError::Unauthorized)
    } else if dest == zero_key() {
        Err(CoreError::InvalidDistPool)
    } else {
        Ok(
            RoverModel {
                revenue_dest: dest,
                total_rover_positions: 0,
                pending_revenue_dest: zero_key(),
                revenue_dest_change_at: 0,
            },
        )
    }
}

pub open spec fn propose_revenue_dest_outcome(
    c: ConfigModel,
    r: RoverModel,
    caller: Seq<u8>,
    dest: Seq<u8>,
    now: i64,
) -> Result<RoverModel, CoreError> {
    if !c.is_authority(caller) {
        Err(CoreError::Unauthorized)
    } else if dest == zero_key() {
        Err(CoreError::InvalidDistPool)
    } else {
        match timelock_from(now) {
            Some(at) => Ok(RoverModel { pending_revenue_dest: dest, revenue_dest_change_at: at, ..r }),
            None => Err(CoreError::Overflow),
        }
    }
}

pub open spec fn apply_revenue_dest_outcome(r: RoverModel, now: i64) -> Result<
    RoverModel,
    CoreError,
> {
    if r.revenue_dest_change_at <= 0 {
        Err(CoreError::NoPendingFeeChange)
    } else if now < r.revenue_dest_change_at {
        Err(CoreError::FeeTimelockNotExpired)
    } else {
        Ok(
            RoverModel {
                revenue_dest: r.pending_revenue_dest,
                pending_revenue_dest: zero_key(),
                revenue_dest_change_at: 0,
                ..r
            },
        )
    }
}

pub open spec fn cancel_pending_revenue_dest_outcome(
    c: ConfigModel,
    r: RoverModel,
    caller: Seq<u8>,
) -> Result<RoverModel, CoreError> {
    if !c.is_authority(caller) {
        Err(CoreError::Unauthorized)
    } else if r.revenue_dest_change_at <= 0 {
        Err(CoreError::NoPendingFeeChange)
    } else {
        Ok(RoverModel { pending_revenue_dest: zero_key(), revenue_dest_change_at: 0, ..r })
    }
}

fn timelock_deadline(now: i64) -> (r: Option<i64>)
    ensures
        r == timelock_from(now),
{
    if now > i64::MAX - TIMELOCK_SECONDS {
        None
    } else {
        Some(now + TIMELOCK_SECONDS)
    }
}

/// Freezes new deposits. Authority only.
pub fn pause(config: &mut Config, caller: &Pubkey) -> (r: Result<(), CoreError>)
    ensures
        steps_to(old(config)@, final(config)@, r, pause_outcome(old(config)@, caller@, true)),
{
    if !caller.same(&config.authority) {
        return Err(CoreError::Unauthorized);
    }
    config.paused = true;
    Ok(())
}

/// Accepts new deposits again. Authority only.
pub fn unpause(config: &mut Config, caller: &Pubkey) -> (r: Result<(), CoreError>)
    ensures
        steps_to(old(config)@, final(config)@, r, pause_outcome(old(config)@, caller@, false)),
{
    if !caller.same(&config.authority) {
        return Err(CoreError::Unauthorized);
    }
    config.paused = false;
    Ok(())
}

/// Stops agent-initiated closes. Authority only.
pub fn bot_pause(config: &mut Config, caller: &Pubkey) -> (r: Result<(), CoreError>)
    ensures
        steps_to(old(config)@, final(config)@, r, bot_pause_outcome(old(config)@, caller@, true)),
{
    if !caller.same(&config.authority) {
        return Err(CoreError::Unauthorized);
    }
    config.bot_paused = true;
    Ok(())
}

/// Allows agent-initiated closes again. Authority only.
pub fn bot_unpause(config: &mut Config, caller: &Pubkey) -> (r: Result<(), CoreError>)
    ensures
        steps_to(old(config)@, final(config)@, r, bot_pause_outcome(old(config)@, caller@, false)),
{
    if !caller.same(&config.authority) {
        return Err(CoreError::Unauthorized);
    }
    config.bot_paused = false;
    Ok(())
}

/// Names a new delegated agent. Authority only.
pub fn update_bot(config: &mut Config, caller: &Pubkey, new_bot: &Pubkey) -> (r: Result<
    (),
    CoreError,
>)
    ensures
        steps_to(old(config)@, final(config)@, r, update_bot_outcome(old(config)@, caller@, new_bot@)),
{
    if !caller.same(&config.authority) {
        return Err(CoreError::Unauthorized);
    }
    config.bot = *new_bot;
    Ok(())
}

/// Sets the keeper tip rate, at most `MAX_KEEPER_TIP_BPS`. Authority only.
pub fn update_keeper_tip_bps(config: &mut Config, caller: &Pubkey, new_bps: u16) -> (r: Result<
    (),
    CoreError,
>)
    ensures
        steps_to(
            old(config)@,
            final(config)@,
            r,
            update_keeper_tip_outcome(old(config)@, caller@, new_bps),
        ),
{
    if !caller.same(&config.authority) {
        return Err(CoreError::Unauthorized);
    }
    if new_bps > MAX_KEEPER_TIP_BPS {
        return Err(CoreError::FeeTooHigh);
    }
    config.keeper_tip_bps = new_bps;
    Ok(())
}

/// Sets the staleness threshold, at most `MAX_PRIORITY_SLOTS`. Authority only.
pub fn update_priority_slots(config: &mut Config, caller: &Pubkey, new_slots: u64) -> (r: Result<
    (),
    CoreError,
>)
    ensures
        steps_to(
            old(config)@,
            final(config)@,
            r,
            update_priority_slots_outcome(old(config)@, caller@, new_slots),
        ),
{
    if !caller.same(&config.authority) {
        return Err(CoreError::Unauthorized);
    }
    if new_slots > MAX_PRIORITY_SLOTS {
        return Err(CoreError::PrioritySlotsExceedMax);
    }
    config.priority_slots = new_slots;
    Ok(())
}

/// Proposes a new fee rate, applicable 24 hours after `now`; replaces any pending
/// proposal. Authority only.
pub fn propose_fee(config: &mut Config, caller: &Pubkey, new_fee_bps: u16, now: i64) -> (r: Result<
    (),
    CoreError,
>)
    ensures
        steps_to(
            old(config)@,
            final(config)@,
            r,
            propose_fee_outcome(old(config)@, caller@, new_fee_bps, now),
        ),
{
    if !caller.same(&config.authority) {
        return Err(CoreError::Unauthorized);
    }
    if new_fee_bps > MAX_FEE_BPS {
        return Err(CoreError::FeeTooHigh);
    }
    match timelock_deadline(now) {
        Some(at) => {
            config.pending_fee_bps = new_fee_bps;
            config.fee_change_at = at;
            Ok(())
        },
        None => Err(CoreError::Overflow),
    }
}

/// Applies the pending fee rate once its timelock has passed. Anyone may call.
pub fn apply_fee(config: &mut Config, now: i64) -> (r: Result<(), CoreError>)
    ensures
        steps_to(old(config)@, final(config)@, r, apply_fee_outcome(old(config)@, now)),
{
    if config.fee_change_at <= 0 {
        return Err(CoreError::NoPendingFeeChange);
    }
    if now < config.fee_change_at {
        return Err(CoreError::FeeTimelockNotExpired);
    }
    config.fee_bps = config.pending_fee_bps;
    config.pending_fee_bps = 0;
    config.fee_change_at = 0;
    Ok(())
}

/// Withdraws the pending fee proposal. Authority only.
pub fn cancel_pending_fee(config: &mut Config, caller: &Pubkey) -> (r: Result<(), CoreError>)
    ensures
        steps_to(
            old(config)@,
            final(config)@,
            r,
            cancel_pending_fee_outcome(old(config)@, caller@),
        ),
{
    if !caller.same(&config.authority) {
        return Err(CoreError::Unauthorized);
    }
    if config.fee_change_at <= 0 {
        return Err(CoreError::NoPendingFeeChange);
    }
    config.pending_fee_bps = 0;
    config.fee_change_at = 0;
    Ok(())
}

/// First step of an authority transfer: names the successor. Authority only.
pub fn transfer_authority(config: &mut Config, caller: &Pubkey, new_authority: &Pubkey) -> (r:
    Result<(), CoreError>)
    ensures
        steps_to(
            old(config)@,
            final(config)@,
            r,
            transfer_authority_outcome(old(config)@, caller@, new_authority@),
        ),
{
    if !caller.same(&config.authority) {
        return Err(CoreError::Unauthorized);
    }
    config.pending_authority = *new_authority;
    Ok(())
}

/// Second step of an authority transfer: the named successor takes over.
pub fn accept_authority(config: &mut Config, caller: &Pubkey) -> (r: Result<(), CoreError>)
    ensures
        steps_to(old(config)@, final(config)@, r, accept_authority_outcome(old(config)@, caller@)),
{
    if !caller.same(&config.pending_authority) {
        return Err(CoreError::Unauthorized);
    }
    if config.pending_authority.is_zero() {
        return Err(CoreError::NoPendingAuthority);
    }
    config.authority = config.pending_authority;
    config.pending_authority = Pubkey::zero();
    Ok(())
}

/// Proposes the emergency close of the position with external reference `position`,
/// applicable 24 hours after `now`. Authority only.
pub fn propose_emergency_close(
    config: &mut Config,
    caller: &Pubkey,
    position: &Pubkey,
    now: i64,
) -> (r: Result<(), CoreError>)
    ensures
        steps_to(
            old(config)@,
            final(config)@,
            r,
            propose_emergency_close_outcome(old(config)@, caller@, position@, now),
        ),
{
    if !caller.same(&config.authority) {
        return Err(CoreError::Unauthorized);
    }
    match timelock_deadline(now) {
        Some(at) => {
            config.pending_emergency_close = *position;
            config.emergency_close_at = at;
            Ok(())
        },
        None => Err(CoreError::Overflow),
    }
}

/// Creates the rover custody identity with its revenue destination. Authority only.
pub fn initialize_rover(config: &Config, caller: &Pubkey, revenue_dest: &Pubkey) -> (r: Result<
    RoverAuthority,
    CoreError,
>)
    ensures
        match initialize_rover_outcome(config@, caller@, revenue_dest@) {
            Ok(m) => r matches Ok(rover) && rover@ == m,
            Err(e) => r == Err::<RoverAuthority, CoreError>(e),
        },
{
    if !caller.same(&config.authority) {
        return Err(CoreError::Unauthorized);
    }
    if revenue_dest.is_zero() {
        return Err(CoreError::InvalidDistPool);
    }
    Ok(
        RoverAuthority {
            revenue_dest: *revenue_dest,
            total_rover_positions: 0,
            pending_revenue_dest: Pubkey::zero(),
            revenue_dest_change_at: 0,
        },
    )
}

/// Proposes a new revenue destination, applicable 24 hours after `now`. Authority only.
pub fn propose_revenue_dest(
    config: &Config,
    rover: &mut RoverAuthority,
    caller: &Pubkey,
    new_revenue_dest: &Pubkey,
    now: i64,
) -> (r: Result<(), CoreError>)
    ensures
        steps_to(
            old(rover)@,
            final(rover)@,
            r,
            propose_revenue_dest_outcome(config@, old(rover)@, caller@, new_revenue_dest@, now),
        ),
{
    if !caller.same(&config.authority) {
        return Err(CoreError::Unauthorized);
    }
    if new_revenue_dest.is_zero() {
        return Err(CoreError::InvalidDistPool);
    }
    match timelock_deadline(now) {
        Some(at) => {
            rover.pending_revenue_dest = *new_revenue_dest;
            rover.revenue_dest_change_at = at;
            Ok(())
        },
        None => Err(CoreError::Overflow),
    }
}

/// Applies the pending revenue destination once its timelock has passed. Anyone may call.
pub fn apply_revenue_dest(rover: &mut RoverAuthority, now: i64) -> (r: Result<(), CoreError>)
    ensures
        steps_to(old(rover)@, final(rover)@, r, apply_revenue_dest_outcome(old(rover)@, now)),
{
    if rover.revenue_dest_change_at <= 0 {
        return Err(CoreError::NoPendingFeeChange);
    }
    if now < rover.revenue_dest_change_at {
        return Err(CoreError::FeeTimelockNotExpired);
    }
    rover.revenue_dest = rover.pending_revenue_dest;
    rover.pending_revenue_dest = Pubkey::zero();
    rover.revenue_dest_change_at = 0;
    Ok(())
}

/// Withdraws the pending revenue destination. Authority only.
pub fn cancel_pending_revenue_dest(
    config: &Config,
    rover: &mut RoverAuthority,
    caller: &Pubkey,
) -> (r: Result<(), CoreError>)
    ensures
        steps_to(
            old(rover)@,
            final(rover)@,
            r,
            cancel_pending_revenue_dest_outcome(config@, old(rover)@, caller@),
        ),
{
    if !caller.same(&config.authority) {
        return Err(CoreError::Unauthorized);
    }
    if rover.revenue_dest_change_at <= 0 {
        return Err(CoreError::NoPendingFeeChange);
    }
    rover.pending_revenue_dest = Pubkey::zero();
    rover.revenue_dest_change_at = 0;
    Ok(())
}

/// A fee proposal changes nothing in effect until its timelock passes: the rate in
/// force stays as it was, applying it earlier fails, and applying it at or after the
/// deadline puts exactly the proposed rate in force.
pub proof fn lemma_fee_change_timelocked(
    c: ConfigModel,
    caller: Seq<u8>,
    new_fee_bps: u16,
    now: i64,
    t: i64,
)
    requires
        propose_fee_outcome(c, caller, new_fee_bps, now) is Ok,
        now + TIMELOCK_SECONDS > 0,
    ensures
        ({
            let proposed = propose_fee_outcome(c, caller, new_fee_bps, now)->Ok_0;
            &&& proposed.fee_bps == c.fee_bps
            &&& t < now + TIMELOCK_SECONDS ==> apply_fee_outcome(proposed, t) == Err::<
                ConfigModel,
                CoreError,
            >(CoreError::FeeTimelockNotExpired)
            &&& t >= now + TIMELOCK_SECONDS ==> (apply_fee_outcome(proposed, t) matches Ok(applied)
                && applied.fee_bps == new_fee_bps && applied.fee_change_at == 0)
        }),
{
}

/// Cancelling a fee proposal keeps the rate in force as it was before the proposal,
/// and no later application can put the withdrawn rate in force.
pub proof fn lemma_fee_cancel_keeps_rate(
    c: ConfigModel,
    caller: Seq<u8>,
    new_fee_bps: u16,
    now: i64,
    t: i64,
)
    requires
        propose_fee_outcome(c, caller, new_fee_bps, now) is Ok,
        now + TIMELOCK_SECONDS > 0,
    ensures
        ({
            let proposed = propose_fee_outcome(c, caller, new_fee_bps, now)->Ok_0;
            let cancelled = cancel_pending_fee_outcome(proposed, caller);
            &&& cancelled matches Ok(after) && after.fee_bps == c.fee_bps
            &&& apply_fee_outcome(cancelled->Ok_0, t) == Err::<ConfigModel, CoreError>(
                CoreError::NoPendingFeeChange,
            )
        }),
{
}

/// A revenue-destination proposal changes nothing in effect until its timelock passes,
/// and applying it at or after the deadline installs exactly the proposed destination.
pub proof fn lemma_revenue_dest_change_timelocked(
    c: ConfigModel,
    r: RoverModel,
    caller: Seq<u8>,
    dest: Seq<u8>,
    now: i64,
    t: i64,
)
    requires
        propose_revenue_dest_outcome(c, r, caller, dest, now) is Ok,
        now + TIMELOCK_SECONDS > 0,
    ensures
        ({
            let proposed = propose_revenue_dest_outcome(c, r, caller, dest, now)->Ok_0;
            &&& proposed.revenue_dest == r.revenue_dest
            &&& t < now + TIMELOCK_SECONDS ==> apply_revenue_dest_outcome(proposed, t) == Err::<
                RoverModel,
                CoreError,
            >(CoreError::FeeTimelockNotExpired)
            &&& t >= now + TIMELOCK_SECONDS ==> (apply_revenue_dest_outcome(proposed, t) matches Ok(
                applied,
            ) && applied.revenue_dest == dest)
        }),
{
}

/// Cancelling a revenue-destination proposal keeps the destination as it was, and no
/// later application can install the withdrawn one.
pub proof fn lemma_revenue_dest_cancel_keeps_dest(
    c: ConfigModel,
    r: RoverModel,
    caller: Seq<u8>,
    dest: Seq<u8>,
    now: i64,
    t: i64,
)
    requires
        propose_revenue_dest_outcome(c, r, caller, dest, now) is Ok,
        now + TIMELOCK_SECONDS > 0,
    ensures
        ({
            let proposed = propose_revenue_dest_outcome(c, r, caller, dest, now)->Ok_0;
            let cancelled = cancel_pending_revenue_dest_outcome(c, proposed, caller);
            &&& cancelled matches Ok(after) && after.revenue_dest == r.revenue_dest
            &&& apply_revenue_dest_outcome(cancelled->Ok_0, t) == Err::<RoverModel, CoreError>(
                CoreError::NoPendingFeeChange,
            )
        }),
{
}

} // verus!
