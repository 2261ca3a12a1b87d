use vstd::prelude::*;
use crate::bins::{
    absent,
    bin_ids_outcome,
    bin_set,
    has_gap,
    lemma_accepted_bins_fill_range,
    lemma_gap_rejected,
    seq_max,
    seq_min,
};
use vstd::set_lib::set_int_range;
use crate::book::{has_key, index_of, unique_keys};
use crate::engine::{
    claim_fees_outcome,
    keeper_rejection,
    names_record,
    CloseOutcome,
    closed_config,
    counted,
    emergency_cleared,
    harvested_book,
    harvested_config,
    swept_config,
    close_position_outcome,
    emergency_close_outcome,
    fallback_rejection,
    harvest_gate,
    harvest_outcome,
    open_rejection,
    user_close_outcome,
    PayoutAccounts,
    OpenAccounts,
    RawAccount,
};
use crate::fees::{bps_of, close_split_of, harvest_split_of};
use crate::governance::{
    accept_authority_outcome,
    apply_fee_outcome,
    bot_pause_outcome,
    cancel_pending_fee_outcome,
    pause_outcome,
    propose_emergency_close_outcome,
    propose_fee_outcome,
    transfer_authority_outcome,
    update_bot_outcome,
    update_keeper_tip_outcome,
    update_priority_slots_outcome,
};
use crate::state::{ConfigModel, PositionModel};
use crate::types::CoreError;

verus! {

/// A harvest removes only bins it names: whenever one is accepted, its bins are
/// distinct and are exactly the removed range `[from, to]` (so their number is
/// `to - from + 1`); and a list with a gap is refused, duplicates or not, whoever calls
/// and whatever the balances.
pub proof fn lemma_harvest_needs_contiguous_bins(
    c: ConfigModel,
    s: Seq<PositionModel>,
    key: Seq<u8>,
    caller: Seq<u8>,
    bins: Seq<i32>,
    slot: u64,
    x_before: u64,
    y_before: u64,
    x_after: u64,
    y_after: u64,
    keeper: Option<RawAccount>,
    a: PayoutAccounts,
)
    ensures
        harvest_outcome(c, s, key, caller, bins, slot, x_before, y_before, x_after, y_after, keeper, a) matches Ok(h) ==> h.to_bin_id - h.from_bin_id + 1 == bins.len()
            && h.from_bin_id == seq_min(bins) && h.to_bin_id == seq_max(bins)
            && bins.no_duplicates() && bin_set(bins) == set_int_range(
            h.from_bin_id as int,
            h.to_bin_id + 1,
        ),
        (bins.len() > 0 && has_gap(bins)) ==> harvest_outcome(
            c,
            s,
            key,
            caller,
            bins,
            slot,
            x_before,
            y_before,
            x_after,
            y_after,
            keeper,
            a,
        ) is Err,
{
    if has_key(s, key) {
        let p = s[index_of(s, key)];
        lemma_accepted_bins_fill_range(bins, p.min_bin_id, p.max_bin_id);
        if bins.len() > 0 && has_gap(bins) {
            let m = choose|m: int| seq_min(bins) < m < seq_max(bins) && #[trigger] absent(bins, m);
            lemma_gap_rejected(bins, p.min_bin_id, p.max_bin_id, m);
        }
        if bin_ids_outcome(bins, p.min_bin_id, p.max_bin_id) is Ok {
            crate::bins::lemma_seq_bounds(bins);
        }
    }
}

/// The permissionless path opens only once the agent is stale: a harvest by anyone but
/// the agent is refused while `slot - last_bot_harvest_slot <= priority_slots`, and
/// refused without a valid tip account; past that threshold, with a valid tip account,
/// the caller is let through, and its tip is the rounded-down `keeper_tip_bps` share of
/// the fee, which is non-zero once the fee is large enough for the rate
/// (`fee * keeper_tip_bps >= 10_000`).
pub proof fn lemma_harvest_fallback_staleness(
    c: ConfigModel,
    s: Seq<PositionModel>,
    key: Seq<u8>,
    caller: Seq<u8>,
    bins: Seq<i32>,
    slot: u64,
    x_before: u64,
    y_before: u64,
    x_after: u64,
    y_after: u64,
    keeper: Option<RawAccount>,
    a: PayoutAccounts,
)
    requires
        c.wf(),
        !c.is_agent(caller),
    ensures
        slot >= c.last_bot_harvest_slot && slot - c.last_bot_harvest_slot <= c.priority_slots
            ==> harvest_gate(c, s, key, caller, bins, slot, keeper, a) is Err,
        keeper is None ==> harvest_gate(c, s, key, caller, bins, slot, keeper, a) is Err,
        ({
            let p = s[index_of(s, key)];
            let split = harvest_split_of(
                p.side,
                c.fee_bps as int,
                c.keeper_tip_bps as int,
                true,
                x_before as int,
                y_before as int,
                x_after as int,
                y_after as int,
            );
            (has_key(s, key) && bin_ids_outcome(bins, p.min_bin_id, p.max_bin_id) is Ok && slot
                >= c.last_bot_harvest_slot && slot - c.last_bot_harvest_slot > c.priority_slots
                && keeper_rejection(p.side, true, keeper, a) is None) ==> {
                &&& harvest_gate(c, s, key, caller, bins, slot, keeper, a) is Ok
                &&& split.tip_on(p.side) == bps_of(split.fee_on(p.side), c.keeper_tip_bps as int)
                &&& (split.fee_on(p.side) * c.keeper_tip_bps >= 10_000 ==> split.tip_on(p.side)
                    > 0)
            }
        }),
{
    let p = s[index_of(s, key)];
    let split = harvest_split_of(
        p.side,
        c.fee_bps as int,
        c.keeper_tip_bps as int,
        true,
        x_before as int,
        y_before as int,
        x_after as int,
        y_after as int,
    );
    crate::fees::lemma_harvest_split_conserves(
        p.side,
        c.fee_bps,
        c.keeper_tip_bps,
        true,
        x_before,
        y_before,
        x_after,
        y_after,
    );
    let fee = split.fee_on(p.side);
    let t = c.keeper_tip_bps as int;
    if fee * t >= 10_000 {
        assert(fee * t / 10_000 >= 1) by (nonlinear_arith)
            requires
                fee * t >= 10_000,
        ;
    }
}

/// The permissionless path of an agent close opens only once the agent is stale: a
/// close by anyone but the agent is refused while
/// `slot - last_bot_close_slot <= priority_slots`, and refused without a valid tip
/// account; past that threshold, with a valid tip account, it is refused only if the
/// lifetime total would overflow, and the caller's tip is the rounded-down
/// `keeper_tip_bps` share of the fee, non-zero once `fee * keeper_tip_bps >= 10_000`.
pub proof fn lemma_close_fallback_staleness(
    c: ConfigModel,
    s: Seq<PositionModel>,
    key: Seq<u8>,
    caller: Seq<u8>,
    slot: u64,
    x: u64,
    y: u64,
    keeper: Option<RawAccount>,
    a: PayoutAccounts,
)
    requires
        c.wf(),
        !c.is_agent(caller),
    ensures
        slot >= c.last_bot_close_slot && slot - c.last_bot_close_slot <= c.priority_slots
            ==> close_position_outcome(c, s, key, caller, slot, x, y, keeper, a) is Err,
        keeper is None ==> close_position_outcome(c, s, key, caller, slot, x, y, keeper, a) is Err,
        ({
            let side = s[index_of(s, key)].side;
            let r = close_position_outcome(c, s, key, caller, slot, x, y, keeper, a);
            (has_key(s, key) && slot >= c.last_bot_close_slot && slot - c.last_bot_close_slot
                > c.priority_slots && keeper_rejection(side, true, keeper, a) is None) ==> {
                &&& (r is Ok || r == Err::<CloseOutcome, CoreError>(CoreError::Overflow))
                &&& (r matches Ok(o) ==> o.split.tip_on(side) == bps_of(
                    o.split.fee_on(side),
                    c.keeper_tip_bps as int,
                ) && (o.split.fee_on(side) * c.keeper_tip_bps >= 10_000 ==> o.split.tip_on(side)
                    > 0))
            }
        }),
{
    let side = s[index_of(s, key)].side;
    crate::fees::lemma_close_split_conserves(side, c.fee_bps, c.keeper_tip_bps, true, x, y);
    let split = close_split_of(side, c.fee_bps as int, c.keeper_tip_bps as int, true, x as int, y as int);
    let fee = split.fee_on(side);
    let t = c.keeper_tip_bps as int;
    if fee * t >= 10_000 {
        assert(fee * t / 10_000 >= 1) by (nonlinear_arith)
            requires
                fee * t >= 10_000,
        ;
    }
}

/// The pause flag freezes new deposits only: harvests, agent closes and owner closes
/// come out the same whether or not the protocol is paused; fee claims do not consult
/// the configuration at all; and no position is opened while paused.
pub proof fn lemma_pause_blocks_only_deposits(
    c: ConfigModel,
    paused: bool,
    s: Seq<PositionModel>,
    key: Seq<u8>,
    caller: Seq<u8>,
    bins: Seq<i32>,
    slot: u64,
    x_before: u64,
    y_before: u64,
    x_after: u64,
    y_after: u64,
    keeper: Option<RawAccount>,
    a: PayoutAccounts,
    open_accounts: OpenAccounts,
    amount: u64,
    min_bin_id: i32,
    max_bin_id: i32,
    slippage: i32,
)
    ensures
        ({
            let cp = ConfigModel { paused, ..c };
            &&& harvest_outcome(cp, s, key, caller, bins, slot, x_before, y_before, x_after, y_after, keeper, a)
                == harvest_outcome(c, s, key, caller, bins, slot, x_before, y_before, x_after, y_after, keeper, a)
            &&& close_position_outcome(cp, s, key, caller, slot, x_after, y_after, keeper, a)
                == close_position_outcome(c, s, key, caller, slot, x_after, y_after, keeper, a)
            &&& user_close_outcome(cp, s, key, caller, x_after, y_after) == user_close_outcome(
                c,
                s,
                key,
                caller,
                x_after,
                y_after,
            )
            &&& (has_key(s, key) && caller == s[index_of(s, key)].owner) ==> claim_fees_outcome(
                s,
                key,
                caller,
                x_after,
                y_after,
            ) == Ok::<(u64, u64), CoreError>((x_after, y_after))
            &&& c.paused ==> open_rejection(
                c,
                s,
                open_accounts,
                amount,
                min_bin_id,
                max_bin_id,
                slippage,
            ) is Some
        }),
{
}

/// Once its timelock has passed, an emergency close of the pending target succeeds
/// without any input from the pool service: the owner receives both vault balances
/// whole, and afterwards no record (hence no vault) has that reference.
pub proof fn lemma_emergency_close_unwinds(
    c: ConfigModel,
    s: Seq<PositionModel>,
    key: Seq<u8>,
    program_id: Seq<u8>,
    now: i64,
    x: u64,
    y: u64,
)
    requires
        unique_keys(s),
        has_key(s, key),
        names_record(c, key, program_id),
        0 < c.emergency_close_at <= now,
    ensures
        emergency_close_outcome(c, s, key, program_id, now, x, y) == Ok::<(u64, u64), CoreError>(
            (x, y),
        ),
        !has_key(s.remove(index_of(s, key)), key),
{
    let i = index_of(s, key);
    let rest = s.remove(i);
    assert forall|k: int| 0 <= k < rest.len() implies (#[trigger] rest[k]).meteora_position
        != key by {
        let ok = if k < i {
            k
        } else {
            k + 1
        };
        assert(s[ok] == rest[k]);
    }
}

/// Every governance step keeps the configuration's rate bounds: the fee and the
/// pending fee at most `MAX_FEE_BPS`, the keeper tip at most `MAX_KEEPER_TIP_BPS`,
/// the staleness threshold at most `MAX_PRIORITY_SLOTS`; and so do the bookkeeping
/// updates of opens, harvests, closes, sweeps and emergency closes.
pub proof fn lemma_config_bounds_kept(
    c: ConfigModel,
    caller: Seq<u8>,
    other: Seq<u8>,
    flag: bool,
    bps: u16,
    slots: u64,
    now: i64,
    slot: u64,
    amount: u64,
)
    requires
        c.wf(),
    ensures
        pause_outcome(c, caller, flag) matches Ok(n) ==> n.wf(),
        bot_pause_outcome(c, caller, flag) matches Ok(n) ==> n.wf(),
        update_bot_outcome(c, caller, other) matches Ok(n) ==> n.wf(),
        update_keeper_tip_outcome(c, caller, bps) matches Ok(n) ==> n.wf(),
        update_priority_slots_outcome(c, caller, slots) matches Ok(n) ==> n.wf(),
        propose_fee_outcome(c, caller, bps, now) matches Ok(n) ==> n.wf(),
        apply_fee_outcome(c, now) matches Ok(n) ==> n.wf(),
        cancel_pending_fee_outcome(c, caller) matches Ok(n) ==> n.wf(),
        transfer_authority_outcome(c, caller, other) matches Ok(n) ==> n.wf(),
        accept_authority_outcome(c, caller) matches Ok(n) ==> n.wf(),
        propose_emergency_close_outcome(c, caller, other, now) matches Ok(n) ==> n.wf(),
        counted(c, amount).wf(),
        harvested_config(c, caller, slot, amount).wf(),
        closed_config(c, flag, slot, amount).wf(),
        emergency_cleared(c).wf(),
        swept_config(c, slot).wf(),
{
}

/// The cumulative counters never go down: a harvest raises the position's harvested
/// amount and the lifetime total by what the owner received, and an open raises the
/// position count and the volume (both held at `u64::MAX` rather than wrapping).
pub proof fn lemma_counters_monotonic(
    c: ConfigModel,
    s: Seq<PositionModel>,
    key: Seq<u8>,
    caller: Seq<u8>,
    bins: Seq<i32>,
    slot: u64,
    x_before: u64,
    y_before: u64,
    x_after: u64,
    y_after: u64,
    keeper: Option<RawAccount>,
    a: PayoutAccounts,
    amount: u64,
)
    ensures
        harvest_outcome(c, s, key, caller, bins, slot, x_before, y_before, x_after, y_after, keeper, a) matches Ok(h) ==> {
            &&& harvested_config(c, caller, slot, h.harvested).total_harvested == c.total_harvested + h.harvested
            &&& h.total_harvested == s[index_of(s, key)].harvested_amount + h.harvested
            &&& harvested_book(s, key, h.total_harvested)[index_of(s, key)].harvested_amount
                >= s[index_of(s, key)].harvested_amount
        },
        counted(c, amount).total_positions >= c.total_positions,
        counted(c, amount).total_volume >= c.total_volume,
{
}

} // verus!
