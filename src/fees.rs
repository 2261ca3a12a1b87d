use vstd::prelude::*;
use crate::types::Side;

verus! {

/// Basis points in one whole.
pub const BPS_DENOMINATOR: u64 = 10_000;

/// `amount * bps / 10_000`, rounded down.
pub open spec fn bps_of(amount: int, bps: int) -> int {
    amount * bps / 10_000
}

/// `a - b`, or zero where `b` exceeds `a`.
pub open spec fn sat_sub(a: int, b: int) -> int {
    if a >= b {
        a - b
    } else {
        0
    }
}

/// The `bps` basis-point share of `amount`, rounded down.
pub fn bps_share(amount: u64, bps: u16) -> (r: u64)
    requires
        bps <= 10_000,
    ensures
        r == bps_of(amount as int, bps as int),
        r <= amount,
{
    proof {
        assert((amount as u128) * (bps as u128) <= 0xffff_ffff_ffff_ffffu128 * 10_000u128)
            by (nonlinear_arith)
            requires
                amount <= 0xffff_ffff_ffff_ffffu64,
                bps <= 10_000,
        ;
    }
    let wide: u128 = (amount as u128) * (bps as u128);
    proof {
        let a = amount as int;
        let b = bps as int;
        assert(a * b <= a * 10_000) by (nonlinear_arith)
            requires
                0 <= a,
                0 <= b <= 10_000,
        ;
        assert(a * b / 10_000 <= a * 10_000 / 10_000) by (nonlinear_arith)
            requires
                a * b <= a * 10_000,
                0 <= a * b,
        ;
        assert(a * 10_000 / 10_000 == a) by (nonlinear_arith);
    }
    (wide / (BPS_DENOMINATOR as u128)) as u64
}

/// Bounds of a rounded-down basis-point share.
pub proof fn lemma_bps_bounds(a: int, b: int)
    requires
        0 <= a,
        0 <= b <= 10_000,
    ensures
        0 <= bps_of(a, b) <= a,
        bps_of(a, b) * 10_000 <= a * b,
{
    assert(0 <= a * b <= a * 10_000) by (nonlinear_arith)
        requires
            0 <= a,
            0 <= b <= 10_000,
    ;
    assert(0 <= a * b / 10_000 <= a) by (nonlinear_arith)
        requires
            0 <= a * b <= a * 10_000,
    ;
    assert((a * b / 10_000) * 10_000 <= a * b) by (nonlinear_arith)
        requires
            0 <= a * b,
    ;
}

/// How the balances of a vault are divided among the protocol, a keeper and the owner.
///
/// For each token, `fee == tip + to_protocol`, and the owner receives `to_owner`.
#[derive(Clone, Copy, Debug, PartialEq, Eq, Structural)]
pub struct Split {
    pub x_fee: u64,
    pub y_fee: u64,
    pub x_tip: u64,
    pub y_tip: u64,
    pub x_to_protocol: u64,
    pub y_to_protocol: u64,
    pub x_to_owner: u64,
    pub y_to_owner: u64,
}

impl Split {
    /// The fee taken on the converted side.
    pub open spec fn fee_on(self, side: Side) -> int {
        match side {
            Side::Buy => self.x_fee as int,
            Side::Sell => self.y_fee as int,
        }
    }

    /// The keeper tip on the converted side.
    pub open spec fn tip_on(self, side: Side) -> int {
        match side {
            Side::Buy => self.x_tip as int,
            Side::Sell => self.y_tip as int,
        }
    }

    /// What the protocol keeps on the converted side.
    pub open spec fn protocol_on(self, side: Side) -> int {
        match side {
            Side::Buy => self.x_to_protocol as int,
            Side::Sell => self.y_to_protocol as int,
        }
    }

    /// What the owner receives on the converted side.
    pub open spec fn owner_on(self, side: Side) -> int {
        match side {
            Side::Buy => self.x_to_owner as int,
            Side::Sell => self.y_to_owner as int,
        }
    }
}

/// The converted side's share of a pair of token amounts.
pub open spec fn on_side(side: Side, x: int, y: int) -> int {
    match side {
        Side::Buy => x,
        Side::Sell => y,
    }
}

/// The fee of one token: `fee_bps` of `base` when that token is the converted one.
pub open spec fn side_fee(converted: bool, base: int, fee_bps: int) -> int {
    if converted {
        bps_of(base, fee_bps)
    } else {
        0
    }
}

/// The keeper's tip out of `fee`: only on the permissionless path with a non-zero rate.
pub open spec fn tip_of(fee: int, fallback: bool, tip_bps: int) -> int {
    if fallback && tip_bps > 0 {
        bps_of(fee, tip_bps)
    } else {
        0
    }
}

/// The split of a harvest: the fee is taken on the converted side's increase
/// (`after - before`, never below zero) only; the owner receives everything else
/// the vault holds after the removal.
pub open spec fn harvest_split_of(
    side: Side,
    fee_bps: int,
    tip_bps: int,
    fallback: bool,
    x_before: int,
    y_before: int,
    x_after: int,
    y_after: int,
) -> Split {
    let x_fee = side_fee(side == Side::Buy, sat_sub(x_after, x_before), fee_bps);
    let y_fee = side_fee(side == Side::Sell, sat_sub(y_after, y_before), fee_bps);
    let x_tip = tip_of(x_fee, fallback, tip_bps);
    let y_tip = tip_of(y_fee, fallback, tip_bps);
    Split {
        x_fee: x_fee as u64,
        y_fee: y_fee as u64,
        x_tip: x_tip as u64,
        y_tip: y_tip as u64,
        x_to_protocol: (x_fee - x_tip) as u64,
        y_to_protocol: (y_fee - y_tip) as u64,
        x_to_owner: (x_after - x_fee) as u64,
        y_to_owner: (y_after - y_fee) as u64,
    }
}

/// The split of a close: the fee is taken on the whole balance of the converted
/// side; on the permissionless path the keeper's tip comes out of that fee; the owner
/// receives the rest.
pub open spec fn close_split_of(
    side: Side,
    fee_bps: int,
    tip_bps: int,
    fallback: bool,
    x: int,
    y: int,
) -> Split {
    let x_fee = side_fee(side == Side::Buy, x, fee_bps);
    let y_fee = side_fee(side == Side::Sell, y, fee_bps);
    let x_tip = tip_of(x_fee, fallback, tip_bps);
    let y_tip = tip_of(y_fee, fallback, tip_bps);
    Split {
        x_fee: x_fee as u64,
        y_fee: y_fee as u64,
        x_tip: x_tip as u64,
        y_tip: y_tip as u64,
        x_to_protocol: (x_fee - x_tip) as u64,
        y_to_protocol: (y_fee - y_tip) as u64,
        x_to_owner: (x - x_fee) as u64,
        y_to_owner: (y - y_fee) as u64,
    }
}

/// A harvest never charges more than the converted side gained: the fee is at most
/// the increase, the owner, the protocol and the keeper together receive exactly the
/// converted side's balance after the removal (so exactly the increase when that
/// side held nothing before), the keeper's tip is rounded down so that the rounding
/// remainder stays with the protocol, and the other side passes to the owner whole.
pub proof fn lemma_harvest_split_conserves(
    side: Side,
    fee_bps: u16,
    tip_bps: u16,
    fallback: bool,
    x_before: u64,
    y_before: u64,
    x_after: u64,
    y_after: u64,
)
    requires
        fee_bps <= 10_000,
        tip_bps <= 10_000,
    ensures
        ({
            let s = harvest_split_of(
                side,
                fee_bps as int,
                tip_bps as int,
                fallback,
                x_before as int,
                y_before as int,
                x_after as int,
                y_after as int,
            );
            let after = on_side(side, x_after as int, y_after as int);
            let before = on_side(side, x_before as int, y_before as int);
            let delta = sat_sub(after, before);
            &&& s.fee_on(side) == bps_of(delta, fee_bps as int)
            &&& s.fee_on(side) <= delta
            &&& s.fee_on(side) == s.tip_on(side) + s.protocol_on(side)
            &&& s.owner_on(side) + s.protocol_on(side) + s.tip_on(side) == after
            &&& before == 0 ==> s.owner_on(side) + s.protocol_on(side) + s.tip_on(side) == delta
            &&& s.tip_on(side) * 10_000 <= s.fee_on(side) * tip_bps
            &&& s.protocol_on(side) * 10_000 >= s.fee_on(side) * (10_000 - tip_bps)
            &&& (!fallback ==> s.tip_on(side) == 0)
            &&& (fallback ==> s.tip_on(side) == bps_of(s.fee_on(side), tip_bps as int))
            &&& (side == Side::Buy ==> s.y_fee == 0 && s.y_tip == 0 && s.y_to_protocol == 0
                && s.y_to_owner == y_after)
            &&& (side == Side::Sell ==> s.x_fee == 0 && s.x_tip == 0 && s.x_to_protocol == 0
                && s.x_to_owner == x_after)
        }),
{
    let after = on_side(side, x_after as int, y_after as int);
    let before = on_side(side, x_before as int, y_before as int);
    let delta = sat_sub(after, before);
    lemma_bps_bounds(delta, fee_bps as int);
    let fee = bps_of(delta, fee_bps as int);
    lemma_bps_bounds(fee, tip_bps as int);
    lemma_bps_bounds(0, fee_bps as int);
    lemma_bps_bounds(0, tip_bps as int);
    assert(fee * (10_000 - tip_bps) == fee * 10_000 - fee * tip_bps) by (nonlinear_arith);
    assert(bps_of(fee, 0) == 0);
}

/// A close never charges more than the vault holds: the fee is at most the converted
/// side's balance, the owner, the protocol and the keeper together receive exactly
/// that balance, the keeper's tip (permissionless path only) is the rounded-down
/// `tip_bps` share of the fee so that the rounding remainder stays with the protocol,
/// and the other side passes to the owner whole.
pub proof fn lemma_close_split_conserves(
    side: Side,
    fee_bps: u16,
    tip_bps: u16,
    fallback: bool,
    x: u64,
    y: u64,
)
    requires
        fee_bps <= 10_000,
        tip_bps <= 10_000,
    ensures
        ({
            let s = close_split_of(side, fee_bps as int, tip_bps as int, fallback, x as int, y as int);
            let balance = on_side(side, x as int, y as int);
            &&& s.fee_on(side) == bps_of(balance, fee_bps as int)
            &&& s.fee_on(side) <= balance
            &&& s.fee_on(side) == s.tip_on(side) + s.protocol_on(side)
            &&& s.owner_on(side) + s.protocol_on(side) + s.tip_on(side) == balance
            &&& s.tip_on(side) * 10_000 <= s.fee_on(side) * tip_bps
            &&& s.protocol_on(side) * 10_000 >= s.fee_on(side) * (10_000 - tip_bps)
            &&& (!fallback ==> s.tip_on(side) == 0)
            &&& (fallback ==> s.tip_on(side) == bps_of(s.fee_on(side), tip_bps as int))
            &&& (side == Side::Buy ==> s.y_fee == 0 && s.y_tip == 0 && s.y_to_protocol == 0
                && s.y_to_owner == y)
            &&& (side == Side::Sell ==> s.x_fee == 0 && s.x_tip == 0 && s.x_to_protocol == 0
                && s.x_to_owner == x)
        }),
{
    let balance = on_side(side, x as int, y as int);
    lemma_bps_bounds(balance, fee_bps as int);
    let fee = bps_of(balance, fee_bps as int);
    lemma_bps_bounds(fee, tip_bps as int);
    lemma_bps_bounds(0, fee_bps as int);
    lemma_bps_bounds(0, tip_bps as int);
    assert(fee * (10_000 - tip_bps) == fee * 10_000 - fee * tip_bps) by (nonlinear_arith);
    assert(bps_of(fee, 0) == 0);
}

fn saturating_diff(a: u64, b: u64) -> (r: u64)
    ensures
        r == sat_sub(a as int, b as int),
{
    if a >= b {
        a - b
    } else {
        0
    }
}

/// Divides the vault after a harvest (see `harvest_split_of`).
pub fn harvest_split(
    side: Side,
    fee_bps: u16,
    tip_bps: u16,
    fallback: bool,
    x_before: u64,
    y_before: u64,
    x_after: u64,
    y_after: u64,
) -> (s: Split)
    requires
        fee_bps <= 10_000,
        tip_bps <= 10_000,
    ensures
        s == harvest_split_of(
            side,
            fee_bps as int,
            tip_bps as int,
            fallback,
            x_before as int,
            y_before as int,
            x_after as int,
            y_after as int,
        ),
{
    let x_received = saturating_diff(x_after, x_before);
    let y_received = saturating_diff(y_after, y_before);
    let (x_fee, y_fee) = match side {
        Side::Buy => (bps_share(x_received, fee_bps), 0u64),
        Side::Sell => (0u64, bps_share(y_received, fee_bps)),
    };
    let (x_tip, y_tip) = if fallback && tip_bps > 0 {
        (bps_share(x_fee, tip_bps), bps_share(y_fee, tip_bps))
    } else {
        (0u64, 0u64)
    };
    Split {
        x_fee,
        y_fee,
        x_tip,
        y_tip,
        x_to_protocol: x_fee - x_tip,
        y_to_protocol: y_fee - y_tip,
        x_to_owner: x_after - x_fee,
        y_to_owner: y_after - y_fee,
    }
}

/// Divides the vault at a close (see `close_split_of`).
pub fn close_split(side: Side, fee_bps: u16, tip_bps: u16, fallback: bool, x: u64, y: u64) -> (s: Split)
    requires
        fee_bps <= 10_000,
        tip_bps <= 10_000,
    ensures
        s == close_split_of(side, fee_bps as int, tip_bps as int, fallback, x as int, y as int),
{
    let (x_fee, y_fee) = match side {
        Side::Buy => (bps_share(x, fee_bps), 0u64),
        Side::Sell => (0u64, bps_share(y, fee_bps)),
    };
    let (x_tip, y_tip) = if fallback && tip_bps > 0 {
        (bps_share(x_fee, tip_bps), bps_share(y_fee, tip_bps))
    } else {
        (0u64, 0u64)
    };
    Split {
        x_fee,
        y_fee,
        x_tip,
        y_tip,
        x_to_protocol: x_fee - x_tip,
        y_to_protocol: y_fee - y_tip,
        x_to_owner: x - x_fee,
        y_to_owner: y - y_fee,
    }
}

} // verus!
