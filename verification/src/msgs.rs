//! The messages the proxy accepts and the instructions it emits.
//!
//! An [`Instruction`] models one message appended to the current atomic
//! transaction's tail. The host ledger executes the instructions in order,
//! strictly after the current step and strictly before the transaction
//! commits; a callback instruction is addressed to the contract's own
//! identity and re-enters [`execute`](crate::contract::execute).

use vstd::prelude::*;

use crate::asset::{Asset, AssetInfo, AssetView, Coin, CoinView};
use crate::state::PairInfo;

verus! {

/// An internal follow-up step, accepted only from the contract itself.
#[derive(Clone, Debug, PartialEq, Eq)]
pub enum CallbackMsg {
    /// Swap the held balances towards the reserve ratio.
    OptimalSwap,
    /// Deposit the (now balanced) held balances into the pool; the liquidity
    /// tokens go straight to `receiver`.
    ProvideLiquidity { receiver: String },
}

/// Mathematical model of a [`CallbackMsg`].
pub ghost enum CallbackMsgView {
    OptimalSwap,
    ProvideLiquidity { receiver: Seq<char> },
}

impl View for CallbackMsg {
    type V = CallbackMsgView;

    open spec fn view(&self) -> CallbackMsgView {
        match self {
            CallbackMsg::OptimalSwap => CallbackMsgView::OptimalSwap,
            CallbackMsg::ProvideLiquidity { receiver } => CallbackMsgView::ProvideLiquidity {
                receiver: receiver@,
            },
        }
    }
}

impl DeepView for CallbackMsg {
    type V = CallbackMsgView;

    open spec fn deep_view(&self) -> CallbackMsgView {
        self.view()
    }
}

/// What a compound proxy instance is created with.
#[derive(Clone, Debug, PartialEq, Eq)]
pub struct InstantiateMsg {
    /// The address of the target pool.
    pub pair_contract: String,
    /// The pool's trading fee in basis points, at most 10000.
    pub commission_bps: u64,
    /// Initial pair-proxy entries: reward asset identity to alternate pool
    /// address.
    pub pair_proxies: Vec<(AssetInfo, String)>,
    /// Slippage tolerance in basis points, at most 10000.
    pub slippage_bps: u64,
}

/// An invocation of the proxy.
#[derive(Clone, Debug, PartialEq, Eq)]
pub enum ExecuteMsg {
    /// Convert the reward basket into a balanced deposit.
    Compound { rewards: Vec<Asset>, to: Option<String> },
    /// An internal follow-up step; only the contract itself may invoke it.
    Callback(CallbackMsg),
}

/// The answer to a configuration query.
#[derive(Clone, Debug, PartialEq, Eq)]
pub struct ConfigResponse {
    pub pair_info: PairInfo,
}

/// One message appended to the current transaction's tail.
#[derive(Clone, Debug, PartialEq, Eq)]
pub enum Instruction {
    /// Offer `offer` to the pool at `pair_contract` for its other asset.
    Swap { pair_contract: String, offer: Asset },
    /// Re-enter the contract itself with an internal follow-up step.
    Callback(CallbackMsg),
    /// Grant `spender` a one-time allowance over `amount` units of the token
    /// at `token`, expiring at block height `expires_at_height`.
    IncreaseAllowance { token: String, spender: String, amount: u128, expires_at_height: u64 },
    /// Deposit both assets into the pool at `pair_contract`; `funds` is the
    /// attached native leg, and the liquidity tokens go to `receiver`.
    ProvideLiquidity {
        pair_contract: String,
        asset0: Asset,
        asset1: Asset,
        slippage_bps: u64,
        receiver: String,
        funds: Vec<Coin>,
    },
}

/// Mathematical model of an [`Instruction`].
pub ghost enum InstructionView {
    Swap { pair_contract: Seq<char>, offer: AssetView },
    Callback { msg: CallbackMsgView },
    IncreaseAllowance { token: Seq<char>, spender: Seq<char>, amount: int, expires_at_height: int },
    ProvideLiquidity {
        pair_contract: Seq<char>,
        asset0: AssetView,
        asset1: AssetView,
        slippage_bps: int,
        receiver: Seq<char>,
        funds: Seq<CoinView>,
    },
}

impl View for Instruction {
    type V = InstructionView;

    open spec fn view(&self) -> InstructionView {
        match self {
            Instruction::Swap { pair_contract, offer } => InstructionView::Swap {
                pair_contract: pair_contract@,
                offer: offer@,
            },
            Instruction::Callback(msg) => InstructionView::Callback { msg: msg@ },
            Instruction::IncreaseAllowance { token, spender, amount, expires_at_height } => {
                InstructionView::IncreaseAllowance {
                    token: token@,
                    spender: spender@,
                    amount: *amount as int,
                    expires_at_height: *expires_at_height as int,
                }
            },
            Instruction::ProvideLiquidity {
                pair_contract,
                asset0,
                asset1,
                slippage_bps,
                receiver,
                funds,
            } => {
                InstructionView::ProvideLiquidity {
                    pair_contract: pair_contract@,
                    asset0: asset0@,
                    asset1: asset1@,
                    slippage_bps: *slippage_bps as int,
                    receiver: receiver@,
                    funds: funds.deep_view(),
                }
            },
        }
    }
}

impl DeepView for Instruction {
    type V = InstructionView;

    open spec fn deep_view(&self) -> InstructionView {
        self.view()
    }
}

} // verus!
