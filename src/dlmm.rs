use vstd::prelude::*;
use crate::state::BINS_PER_ARRAY;

verus! {

/// How the pool service spreads liquidity over a range.
#[derive(Clone, Copy, Debug, PartialEq, Eq, Structural)]
pub enum StrategyType {
    SpotOneSide,
    CurveOneSide,
    BidAskOneSide,
    SpotBalanced,
    CurveBalanced,
    BidAskBalanced,
    SpotImBalanced,
    CurveImBalanced,
    BidAskImBalanced,
}

/// A range and a distribution for adding liquidity.
#[derive(Clone, Copy, Debug)]
pub struct StrategyParameters {
    pub min_bin_id: i32,
    pub max_bin_id: i32,
    pub strategy_type: StrategyType,
    pub parameteres: [u8; 64],
}

/// Whether every byte of `p` is zero.
pub open spec fn all_zero(p: Seq<u8>) -> bool {
    forall|i: int| 0 <= i < p.len() ==> p[i] == 0
}

impl StrategyParameters {
    /// Even spread over `[min_bin_id, max_bin_id]`, two-sided amounts.
    pub fn spot_imbalanced(min_bin_id: i32, max_bin_id: i32) -> (r: Self)
        ensures
            r.min_bin_id == min_bin_id,
            r.max_bin_id == max_bin_id,
            r.strategy_type == StrategyType::SpotImBalanced,
            all_zero(r.parameteres@),
    {
        Self {
            min_bin_id,
            max_bin_id,
            strategy_type: StrategyType::SpotImBalanced,
            parameteres: [0u8; 64],
        }
    }

    /// More liquidity towards the outer bins, two-sided amounts; the first parameter
    /// byte favours the X side.
    pub fn bid_ask_imbalanced(min_bin_id: i32, max_bin_id: i32) -> (r: Self)
        ensures
            r.min_bin_id == min_bin_id,
            r.max_bin_id == max_bin_id,
            r.strategy_type == StrategyType::BidAskImBalanced,
            r.parameteres@[0] == 1,
            forall|i: int| 1 <= i < 64 ==> r.parameteres@[i] == 0,
    {
        let mut parameteres = [0u8; 64];
        parameteres[0] = 1;
        Self { min_bin_id, max_bin_id, strategy_type: StrategyType::BidAskImBalanced, parameteres }
    }

    /// Even spread over `[min_bin_id, max_bin_id]`, one-sided amount.
    pub fn spot_one_side(min_bin_id: i32, max_bin_id: i32) -> (r: Self)
        ensures
            r.min_bin_id == min_bin_id,
            r.max_bin_id == max_bin_id,
            r.strategy_type == StrategyType::SpotOneSide,
            all_zero(r.parameteres@),
    {
        Self {
            min_bin_id,
            max_bin_id,
            strategy_type: StrategyType::SpotOneSide,
            parameteres: [0u8; 64],
        }
    }

    /// More liquidity towards the outer bins, one-sided amount.
    pub fn bid_ask_one_side(min_bin_id: i32, max_bin_id: i32) -> (r: Self)
        ensures
            r.min_bin_id == min_bin_id,
            r.max_bin_id == max_bin_id,
            r.strategy_type == StrategyType::BidAskOneSide,
            all_zero(r.parameteres@),
    {
        Self {
            min_bin_id,
            max_bin_id,
            strategy_type: StrategyType::BidAskOneSide,
            parameteres: [0u8; 64],
        }
    }
}

/// Amounts and distribution of a two-sided liquidity addition.
#[derive(Clone, Copy, Debug)]
pub struct LiquidityParameterByStrategy {
    pub amount_x: u64,
    pub amount_y: u64,
    pub active_id: i32,
    pub max_active_bin_slippage: i32,
    pub strategy_parameters: StrategyParameters,
}

/// Amount and distribution of a one-sided liquidity addition.
#[derive(Clone, Copy, Debug)]
pub struct LiquidityParameterByStrategyOneSide {
    pub amount: u64,
    pub active_id: i32,
    pub max_active_bin_slippage: i32,
    pub strategy_parameters: StrategyParameters,
}

/// Kinds of extra accounts a pool-service call may carry.
#[derive(Clone, Copy, Debug, PartialEq, Eq, Structural)]
pub enum AccountsType {
    TransferHookX,
    TransferHookY,
    TransferHookReward,
    TransferHookMultiReward(u8),
}

/// How many extra accounts of one kind follow.
#[derive(Clone, Copy, Debug, PartialEq, Eq, Structural)]
pub struct RemainingAccountsSlice {
    pub accounts_type: AccountsType,
    pub length: u8,
}

/// The extra accounts that follow a pool-service call, by kind.
#[derive(Clone, Debug)]
pub struct RemainingAccountsInfo {
    pub slices: Vec<RemainingAccountsSlice>,
}

impl RemainingAccountsInfo {
    /// No extra accounts.
    pub fn none() -> (r: Self)
        ensures
            r.slices@.len() == 0,
    {
        Self { slices: Vec::new() }
    }

    /// Empty transfer-hook slices for both tokens.
    pub fn empty_hooks() -> (r: Self)
        ensures
            r.slices@ == seq![
                RemainingAccountsSlice { accounts_type: AccountsType::TransferHookX, length: 0 },
                RemainingAccountsSlice { accounts_type: AccountsType::TransferHookY, length: 0 },
            ],
    {
        let mut slices = Vec::new();
        slices.push(RemainingAccountsSlice { accounts_type: AccountsType::TransferHookX, length: 0 });
        slices.push(RemainingAccountsSlice { accounts_type: AccountsType::TransferHookY, length: 0 });
        assert(slices@ =~= seq![
            RemainingAccountsSlice { accounts_type: AccountsType::TransferHookX, length: 0 },
            RemainingAccountsSlice { accounts_type: AccountsType::TransferHookY, length: 0 },
        ]);
        Self { slices }
    }
}

/// The index of the bin array holding `bin_id`: `bin_id / BINS_PER_ARRAY`, rounded
/// towards negative infinity.
pub fn bin_id_to_array_index(bin_id: i32) -> (r: i64)
    ensures
        r == (bin_id as int) / (BINS_PER_ARRAY as int),
{
    let b = bin_id as i64;
    let n = BINS_PER_ARRAY as i64;
    if b >= 0 {
        let q = b / n;
        proof {
            assert(q == b as int / 70) by (nonlinear_arith)
                requires
                    b >= 0,
                    q == b / 70,
            ;
        }
        q
    } else {
        let m = -b;
        let d = (m + (n - 1)) / n;
        proof {
            assert(-d == b as int / 70) by (nonlinear_arith)
                requires
                    b < 0,
                    m == -b,
                    d == (m + 69) / 70,
            ;
        }
        -d
    }
}

/// The parameters of a one-sided user position.
#[derive(Clone, Copy, Debug)]
pub struct OpenPositionParams {
    pub lower_bin_id: i32,
    pub upper_bin_id: i32,
    pub amount: u64,
    pub active_bin_id: i32,
    pub max_slippage: i32,
}

impl OpenPositionParams {
    /// Bins in the range, bounds included.
    pub fn width(&self) -> (r: i32)
        requires
            i32::MIN <= self.upper_bin_id - self.lower_bin_id + 1 <= i32::MAX,
        ensures
            r == self.upper_bin_id - self.lower_bin_id + 1,
    {
        (self.upper_bin_id as i64 - self.lower_bin_id as i64 + 1) as i32
    }

    /// The one-sided addition with an even spread over the range.
    pub fn to_liquidity_params(&self) -> (r: LiquidityParameterByStrategyOneSide)
        ensures
            r.amount == self.amount,
            r.active_id == self.active_bin_id,
            r.max_active_bin_slippage == self.max_slippage,
            r.strategy_parameters.min_bin_id == self.lower_bin_id,
            r.strategy_parameters.max_bin_id == self.upper_bin_id,
            r.strategy_parameters.strategy_type == StrategyType::SpotOneSide,
            all_zero(r.strategy_parameters.parameteres@),
    {
        LiquidityParameterByStrategyOneSide {
            amount: self.amount,
            active_id: self.active_bin_id,
            max_active_bin_slippage: self.max_slippage,
            strategy_parameters: StrategyParameters::spot_one_side(
                self.lower_bin_id,
                self.upper_bin_id,
            ),
        }
    }

    /// The bin-array indices of the range's lower and upper bounds.
    pub fn bin_array_indices(&self) -> (r: (i64, i64))
        ensures
            r.0 == (self.lower_bin_id as int) / (BINS_PER_ARRAY as int),
            r.1 == (self.upper_bin_id as int) / (BINS_PER_ARRAY as int),
    {
        (bin_id_to_array_index(self.lower_bin_id), bin_id_to_array_index(self.upper_bin_id))
    }
}

} // verus!
