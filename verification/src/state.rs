//! The contract's stored configuration and the snapshots of ledger state
//! that each step reads fresh.

use vstd::prelude::*;

use crate::asset::{AssetInfo, Coin};
use crate::registry::Registry;

verus! {

/// Metadata of the target pool, as the pool itself reports it.
#[derive(Clone, Debug, PartialEq, Eq)]
pub struct PairInfo {
    /// The first of the pool's two assets, in the pool's own order.
    pub asset0: AssetInfo,
    /// The second of the pool's two assets.
    pub asset1: AssetInfo,
    /// The pool contract's address.
    pub contract_addr: String,
    /// The address of the pool's liquidity token.
    pub liquidity_token: String,
}

impl PairInfo {
    /// An owned copy of this metadata.
    pub fn duplicate(&self) -> (r: PairInfo)
        ensures
            r == *self,
    {
        PairInfo {
            asset0: self.asset0.duplicate(),
            asset1: self.asset1.duplicate(),
            contract_addr: self.contract_addr.clone(),
            liquidity_token: self.liquidity_token.clone(),
        }
    }
}

/// The immutable configuration a compound proxy instance runs under.
#[derive(Clone, Debug, PartialEq, Eq)]
pub struct Config {
    /// The target pool.
    pub pair_info: PairInfo,
    /// The pool's trading fee, in basis points of the traded amount. The
    /// solver's fee-adjusted balancing formula depends on it.
    pub commission_bps: u64,
    /// The largest fractional price movement a deposit accepts between the
    /// solver's computation and its execution, in basis points.
    pub slippage_bps: u64,
}

impl Config {
    /// Both rates are fractions of a whole: at most 10000 basis points.
    pub open spec fn wf(&self) -> bool {
        &&& self.commission_bps <= 10000
        &&& self.slippage_bps <= 10000
    }
}

/// The full stored state: the configuration and the pair-proxy registry.
#[derive(Debug)]
pub struct State {
    pub config: Config,
    pub pair_proxies: Registry,
}

/// The ambient facts of the step being executed: the contract's own address
/// and the current block height.
#[derive(Clone, Debug, PartialEq, Eq)]
pub struct Env {
    pub contract_addr: String,
    pub block_height: u64,
}

/// Who invoked the current step and which native funds came attached.
#[derive(Clone, Debug, PartialEq, Eq)]
pub struct MessageInfo {
    pub sender: String,
    pub funds: Vec<Coin>,
}

/// A fresh snapshot of the target pool's reserves and of the contract-held
/// balances of the pool's two assets, in the pool's asset order.
#[derive(Clone, Copy, Debug, PartialEq, Eq)]
pub struct PoolSnapshot {
    /// The pool's reserve of its first asset.
    pub reserve0: u128,
    /// The pool's reserve of its second asset.
    pub reserve1: u128,
    /// The contract-held balance of the first asset.
    pub balance0: u128,
    /// The contract-held balance of the second asset.
    pub balance1: u128,
}

} // verus!
