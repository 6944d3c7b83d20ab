//! Laws of the compound pipeline: properties that hold of every input, each
//! proved from the contracts in [`contract`](crate::contract).

use vstd::prelude::*;

use crate::asset::{AssetInfoView, AssetView, CoinView};
use crate::contract::{
    spec_compound, spec_conversions, spec_directional_swap_post, spec_optimal_swap_post,
    spec_provide_liquidity,
};
use crate::error::ContractError;
use crate::msgs::{CallbackMsgView, InstructionView};
use crate::state::PoolSnapshot;

verus! {

/// A basket whose amounts are all zero converts nothing.
proof fn lemma_zero_rewards_convert_nothing(
    rewards: Seq<AssetView>,
    funds: Seq<CoinView>,
    proxies: Map<Seq<char>, Seq<char>>,
    asset0: AssetInfoView,
    asset1: AssetInfoView,
)
    requires
        forall|i: int| 0 <= i < rewards.len() ==> rewards[i].amount == 0,
    ensures
        spec_conversions(rewards, funds, proxies, asset0, asset1) == Ok::<_, ContractError>(
            Seq::<InstructionView>::empty(),
        ),
    decreases rewards.len(),
{
    if rewards.len() > 0 {
        lemma_zero_rewards_convert_nothing(rewards.drop_last(), funds, proxies, asset0, asset1);
    }
}

/// Compounding a basket whose amounts are all zero emits no swap and no
/// deposit: only the two follow-up steps are queued.
pub proof fn lemma_compound_of_zero_rewards_is_no_op(
    rewards: Seq<AssetView>,
    funds: Seq<CoinView>,
    proxies: Map<Seq<char>, Seq<char>>,
    asset0: AssetInfoView,
    asset1: AssetInfoView,
    receiver: Seq<char>,
)
    requires
        forall|i: int| 0 <= i < rewards.len() ==> rewards[i].amount == 0,
    ensures
        spec_compound(rewards, funds, proxies, asset0, asset1, receiver) == Ok::<_, ContractError>(
            seq![
                InstructionView::Callback { msg: CallbackMsgView::OptimalSwap },
                InstructionView::Callback {
                    msg: CallbackMsgView::ProvideLiquidity { receiver },
                },
            ],
        ),
{
    lemma_zero_rewards_convert_nothing(rewards, funds, proxies, asset0, asset1);
    assert(Seq::<InstructionView>::empty() + seq![
        InstructionView::Callback { msg: CallbackMsgView::OptimalSwap },
        InstructionView::Callback { msg: CallbackMsgView::ProvideLiquidity { receiver } },
    ] =~= seq![
        InstructionView::Callback { msg: CallbackMsgView::OptimalSwap },
        InstructionView::Callback { msg: CallbackMsgView::ProvideLiquidity { receiver } },
    ]);
}

/// A compound invocation can fail only on a reward it cannot take in: an
/// uncovered native amount, or an asset without a route to the pool. In
/// particular it never fails with `Unauthorized`.
pub proof fn lemma_compound_error_taxonomy(
    rewards: Seq<AssetView>,
    funds: Seq<CoinView>,
    proxies: Map<Seq<char>, Seq<char>>,
    asset0: AssetInfoView,
    asset1: AssetInfoView,
    receiver: Seq<char>,
)
    ensures
        spec_compound(rewards, funds, proxies, asset0, asset1, receiver) matches Err(e) ==> (e
            == ContractError::InsufficientFunds || e == ContractError::NoPairProxy),
    decreases rewards.len(),
{
    if rewards.len() > 0 {
        lemma_compound_error_taxonomy(
            rewards.drop_last(),
            funds,
            proxies,
            asset0,
            asset1,
            receiver,
        );
    }
}

/// Whatever the basket, a successful compound queues the two follow-up
/// steps at the tail, in order: first the swap step, then the deposit step.
pub proof fn lemma_compound_queues_followups_in_order(
    rewards: Seq<AssetView>,
    funds: Seq<CoinView>,
    proxies: Map<Seq<char>, Seq<char>>,
    asset0: AssetInfoView,
    asset1: AssetInfoView,
    receiver: Seq<char>,
)
    requires
        spec_compound(rewards, funds, proxies, asset0, asset1, receiver) is Ok,
    ensures
        ({
            let v = spec_compound(rewards, funds, proxies, asset0, asset1, receiver)->Ok_0;
            &&& v.len() >= 2
            &&& v[v.len() - 2] == InstructionView::Callback { msg: CallbackMsgView::OptimalSwap }
            &&& v[v.len() - 1] == InstructionView::Callback {
                msg: CallbackMsgView::ProvideLiquidity { receiver },
            }
        }),
{
}

/// When the contract holds nothing of either pool asset, the swap step
/// emits nothing.
pub proof fn lemma_zero_balances_emit_no_swap(
    asset0: AssetInfoView,
    asset1: AssetInfoView,
    pair: Seq<char>,
    fee_bps: int,
    pool: PoolSnapshot,
    r: Result<Seq<InstructionView>, ContractError>,
)
    requires
        pool.balance0 == 0,
        pool.balance1 == 0,
        spec_optimal_swap_post(asset0, asset1, pair, fee_bps, pool, r),
    ensures
        r == Ok::<_, ContractError>(Seq::<InstructionView>::empty()),
{
    assert(0 * (pool.reserve1 as int) == 0 && 0 * (pool.reserve0 as int) == 0) by (nonlinear_arith);
}

/// When the contract holds nothing of either pool asset, the deposit step
/// emits nothing.
pub proof fn lemma_zero_balances_emit_no_deposit(
    asset0: AssetInfoView,
    asset1: AssetInfoView,
    pair: Seq<char>,
    slippage_bps: int,
    receiver: Seq<char>,
    height: int,
)
    ensures
        spec_provide_liquidity(asset0, asset1, pair, slippage_bps, 0, 0, receiver, height)
            == Seq::<InstructionView>::empty(),
{
}

/// Holdings that already stand exactly in the reserve ratio are left alone:
/// the swap step emits nothing, so running it again right after a balancing
/// swap queues no further trade.
pub proof fn lemma_balanced_holdings_emit_no_swap(
    asset0: AssetInfoView,
    asset1: AssetInfoView,
    pair: Seq<char>,
    fee_bps: int,
    pool: PoolSnapshot,
    r: Result<Seq<InstructionView>, ContractError>,
)
    requires
        pool.reserve0 > 0,
        pool.reserve1 > 0,
        pool.balance0 * pool.reserve1 == pool.balance1 * pool.reserve0,
        pool.balance0 * pool.reserve1 <= u128::MAX,
        spec_optimal_swap_post(asset0, asset1, pair, fee_bps, pool, r),
    ensures
        r == Ok::<_, ContractError>(Seq::<InstructionView>::empty()),
{
}

/// The swap step never offers more of an asset than the contract holds:
/// whichever direction it picks, the emitted amount is bounded by the held
/// balance of the offered asset.
pub proof fn lemma_swap_never_exceeds_balance(
    asset0: AssetInfoView,
    asset1: AssetInfoView,
    pair: Seq<char>,
    fee_bps: int,
    pool: PoolSnapshot,
    vs: Seq<InstructionView>,
)
    requires
        asset0 != asset1,
        spec_optimal_swap_post(asset0, asset1, pair, fee_bps, pool, Ok(vs)),
        vs.len() > 0,
    ensures
        vs.len() == 1,
        vs[0] is Swap,
        vs[0]->Swap_offer.info == asset0 ==> vs[0]->Swap_offer.amount <= pool.balance0,
        vs[0]->Swap_offer.info == asset1 ==> vs[0]->Swap_offer.amount <= pool.balance1,
{
}

} // verus!
