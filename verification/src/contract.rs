//! The compound orchestrator and its two follow-up steps.
//!
//! `Compound` converts each reward that is foreign to the target pool
//! through its registered proxy pool, then appends two self-addressed
//! follow-up steps in order: `OptimalSwap`, then `ProvideLiquidity`. The
//! follow-ups are accepted only from the contract's own identity; the host
//! ledger executes them strictly after the current step and rolls the whole
//! transaction back if any of them fails.
//!
//! The trading fee (`commission_bps`) enters the solver's fee-adjusted
//! balancing formula; no separate fee deduction is made here, so it is
//! applied exactly once.

use vstd::prelude::*;

use crate::asset::{
    spec_asset_key, spec_funds_amount, Asset, AssetInfoView, AssetInfo, AssetView, Coin, CoinView,
};
use crate::error::ContractError;
use crate::msgs::{
    CallbackMsg, CallbackMsgView, ConfigResponse, ExecuteMsg, InstantiateMsg, Instruction,
    InstructionView,
};
use crate::registry::Registry;
use crate::solver::{
    compute_swap_amount, spec_solver_fits, spec_swap_within_budget,
};
use crate::state::{Config, Env, MessageInfo, PairInfo, PoolSnapshot, State};

verus! {

/// The instruction lists of a result, with errors kept as they are.
pub open spec fn spec_result_view(r: Result<Vec<Instruction>, ContractError>) -> Result<
    Seq<InstructionView>,
    ContractError,
> {
    match r {
        Ok(v) => Ok(v.deep_view()),
        Err(e) => Err(e),
    }
}

/// The map an instantiation's proxy entries denote; a later entry for the
/// same asset overrides an earlier one.
pub open spec fn spec_proxy_map(entries: Seq<(AssetInfo, String)>) -> Map<Seq<char>, Seq<char>>
    decreases entries.len(),
{
    if entries.len() == 0 {
        Map::empty()
    } else {
        spec_proxy_map(entries.drop_last()).insert(
            spec_asset_key(entries.last().0@),
            entries.last().1@,
        )
    }
}

/// Create a compound proxy instance. The host resolves `msg.pair_contract`
/// to the pool's own metadata and passes it in as `pair_info`.
pub fn instantiate(msg: InstantiateMsg, pair_info: PairInfo) -> (st: State)
    requires
        msg.commission_bps <= 10000,
        msg.slippage_bps <= 10000,
        pair_info.contract_addr@ == msg.pair_contract@,
    ensures
        st.config.pair_info == pair_info,
        st.config.commission_bps == msg.commission_bps,
        st.config.slippage_bps == msg.slippage_bps,
        st.config.wf(),
        st.pair_proxies@ == spec_proxy_map(msg.pair_proxies@),
{
    let mut registry = Registry::new();
    let n = msg.pair_proxies.len();
    let mut i: usize = 0;
    while i < n
        invariant
            i <= n,
            n == msg.pair_proxies@.len(),
            registry@ == spec_proxy_map(msg.pair_proxies@.take(i as int)),
        decreases n - i,
    {
        let entry = &msg.pair_proxies[i];
        registry.insert(entry.0.key().clone(), entry.1.clone());
        proof {
            assert(msg.pair_proxies@.take(i + 1).drop_last() =~= msg.pair_proxies@.take(i as int));
            assert(msg.pair_proxies@.take(i + 1).last() == msg.pair_proxies@[i as int]);
        }
        i = i + 1;
    }
    proof {
        assert(msg.pair_proxies@.take(n as int) =~= msg.pair_proxies@);
    }
    State {
        config: Config {
            pair_info,
            commission_bps: msg.commission_bps,
            slippage_bps: msg.slippage_bps,
        },
        pair_proxies: registry,
    }
}

/// Answer a configuration query.
pub fn query_config(state: &State) -> (r: ConfigResponse)
    ensures
        r.pair_info == state.config.pair_info,
{
    ConfigResponse { pair_info: state.config.pair_info.duplicate() }
}

/// Where the liquidity tokens go: the explicit override, or the invoking
/// caller.
pub open spec fn spec_receiver(to: Option<String>, sender: Seq<char>) -> Seq<char> {
    match to {
        Some(t) => t@,
        None => sender,
    }
}

/// The conversion instructions a reward basket gives rise to, processed in
/// order; the first failing reward decides the error.
pub open spec fn spec_conversions(
    rewards: Seq<AssetView>,
    funds: Seq<CoinView>,
    proxies: Map<Seq<char>, Seq<char>>,
    asset0: AssetInfoView,
    asset1: AssetInfoView,
) -> Result<Seq<InstructionView>, ContractError>
    decreases rewards.len(),
{
    if rewards.len() == 0 {
        Ok(Seq::empty())
    } else {
        match spec_conversions(rewards.drop_last(), funds, proxies, asset0, asset1) {
            Err(e) => Err(e),
            Ok(pre) => {
                let r = rewards.last();
                if r.amount == 0 {
                    Ok(pre)
                } else if r.info is Native && spec_funds_amount(funds, spec_asset_key(r.info))
                    < r.amount {
                    Err(ContractError::InsufficientFunds)
                } else if r.info == asset0 || r.info == asset1 {
                    Ok(pre)
                } else if proxies.contains_key(spec_asset_key(r.info)) {
                    Ok(
                        pre.push(
                            InstructionView::Swap {
                                pair_contract: proxies[spec_asset_key(r.info)],
                                offer: r,
                            },
                        ),
                    )
                } else {
                    Err(ContractError::NoPairProxy)
                }
            },
        }
    }
}

/// Everything a compound invocation appends to the transaction: the
/// conversions, then the two self-addressed follow-up steps in order.
pub open spec fn spec_compound(
    rewards: Seq<AssetView>,
    funds: Seq<CoinView>,
    proxies: Map<Seq<char>, Seq<char>>,
    asset0: AssetInfoView,
    asset1: AssetInfoView,
    receiver: Seq<char>,
) -> Result<Seq<InstructionView>, ContractError> {
    match spec_conversions(rewards, funds, proxies, asset0, asset1) {
        Err(e) => Err(e),
        Ok(pre) => Ok(
            pre + seq![
                InstructionView::Callback { msg: CallbackMsgView::OptimalSwap },
                InstructionView::Callback {
                    msg: CallbackMsgView::ProvideLiquidity { receiver },
                },
            ],
        ),
    }
}

/// Once a reward prefix has failed, the longer basket fails the same way.
proof fn lemma_conversions_err_persists(
    rewards: Seq<AssetView>,
    funds: Seq<CoinView>,
    proxies: Map<Seq<char>, Seq<char>>,
    asset0: AssetInfoView,
    asset1: AssetInfoView,
    i: int,
)
    requires
        0 <= i <= rewards.len(),
        spec_conversions(rewards.take(i), funds, proxies, asset0, asset1) is Err,
    ensures
        spec_conversions(rewards, funds, proxies, asset0, asset1) == spec_conversions(
            rewards.take(i),
            funds,
            proxies,
            asset0,
            asset1,
        ),
    decreases rewards.len() - i,
{
    if i < rewards.len() {
        assert(rewards.take(i + 1).drop_last() =~= rewards.take(i));
        lemma_conversions_err_persists(rewards, funds, proxies, asset0, asset1, i + 1);
    } else {
        assert(rewards.take(i) =~= rewards);
    }
}

/// The total of `denom` among `funds`, saturated at the largest
/// representable amount.
fn funds_amount(funds: &Vec<Coin>, denom: &String) -> (total: u128)
    ensures
        total == spec_funds_amount(funds.deep_view(), denom@) || (total == u128::MAX
            && spec_funds_amount(funds.deep_view(), denom@) >= u128::MAX),
{
    let ghost fv = funds.deep_view();
    let mut total: u128 = 0;
    let mut i: usize = 0;
    while i < funds.len()
        invariant
            i <= funds@.len(),
            fv == funds.deep_view(),
            fv.len() == funds@.len(),
            total == spec_funds_amount(fv.take(i as int), denom@) || (total == u128::MAX
                && spec_funds_amount(fv.take(i as int), denom@) >= u128::MAX),
        decreases funds@.len() - i,
    {
        proof {
            assert(fv.take(i + 1).drop_last() =~= fv.take(i as int));
            assert(fv.take(i + 1).last() == fv[i as int]);
            assert(fv[i as int] == funds@[i as int].deep_view());
        }
        if funds[i].denom == *denom {
            total = match total.checked_add(funds[i].amount) {
                Some(v) => v,
                None => u128::MAX,
            };
        }
        i = i + 1;
    }
    proof {
        assert(fv.take(funds@.len() as int) =~= fv);
    }
    total
}

/// Convert each reward the pool cannot take through its proxy pool, then
/// queue the two follow-up steps. Declared native rewards must be covered by
/// the attached funds; a reward that is neither pool asset and has no proxy
/// route aborts with `NoPairProxy`.
pub fn compound(
    state: &State,
    info: &MessageInfo,
    rewards: Vec<Asset>,
    to: Option<String>,
) -> (r: Result<Vec<Instruction>, ContractError>)
    ensures
        spec_result_view(r) == spec_compound(
            rewards.deep_view(),
            info.funds.deep_view(),
            state.pair_proxies@,
            state.config.pair_info.asset0@,
            state.config.pair_info.asset1@,
            spec_receiver(to, info.sender@),
        ),
{
    let ghost rv = rewards.deep_view();
    let ghost fv = info.funds.deep_view();
    let ghost pm = state.pair_proxies@;
    let ghost a0v = state.config.pair_info.asset0@;
    let ghost a1v = state.config.pair_info.asset1@;
    let receiver = match to {
        Some(t) => t,
        None => info.sender.clone(),
    };
    let mut instrs: Vec<Instruction> = Vec::new();
    proof {
        assert(rv.take(0) =~= Seq::<AssetView>::empty());
        assert(instrs.deep_view() =~= Seq::<InstructionView>::empty());
    }
    let mut i: usize = 0;
    while i < rewards.len()
        invariant
            i <= rewards@.len(),
            rv == rewards.deep_view(),
            rv.len() == rewards@.len(),
            fv == info.funds.deep_view(),
            pm == state.pair_proxies@,
            a0v == state.config.pair_info.asset0@,
            a1v == state.config.pair_info.asset1@,
            spec_conversions(rv.take(i as int), fv, pm, a0v, a1v) == Ok::<_, ContractError>(
                instrs.deep_view(),
            ),
        decreases rewards@.len() - i,
    {
        proof {
            assert(rv.take(i + 1).drop_last() =~= rv.take(i as int));
            assert(rv.take(i + 1).last() == rv[i as int]);
            assert(rv[i as int] == rewards@[i as int].deep_view());
        }
        let reward = &rewards[i];
        if reward.amount > 0 {
            let covered = match &reward.info {
                AssetInfo::Native { denom } => !(funds_amount(&info.funds, denom)
                    < reward.amount),
                AssetInfo::Token { .. } => true,
            };
            if !covered {
                proof {
                    lemma_conversions_err_persists(rv, fv, pm, a0v, a1v, i + 1);
                }
                return Err(ContractError::InsufficientFunds);
            }
            if !(reward.info.matches(&state.config.pair_info.asset0) || reward.info.matches(
                &state.config.pair_info.asset1,
            )) {
                match state.pair_proxies.lookup(reward.info.key()) {
                    Some(pair) => {
                        let ghost before = instrs.deep_view();
                        instrs.push(
                            Instruction::Swap {
                                pair_contract: pair.clone(),
                                offer: reward.duplicate(),
                            },
                        );
                        proof {
                            assert(instrs.deep_view() =~= before.push(
                                InstructionView::Swap {
                                    pair_contract: pm[spec_asset_key(rv[i as int].info)],
                                    offer: rv[i as int],
                                },
                            ));
                        }
                    },
                    None => {
                        proof {
                            lemma_conversions_err_persists(rv, fv, pm, a0v, a1v, i + 1);
                        }
                        return Err(ContractError::NoPairProxy);
                    },
                }
            }
        }
        i = i + 1;
    }
    proof {
        assert(rv.take(rewards@.len() as int) =~= rv);
    }
    let ghost converted = instrs.deep_view();
    instrs.push(Instruction::Callback(CallbackMsg::OptimalSwap));
    instrs.push(Instruction::Callback(CallbackMsg::ProvideLiquidity { receiver }));
    proof {
        assert(instrs.deep_view() =~= converted + seq![
            InstructionView::Callback { msg: CallbackMsgView::OptimalSwap },
            InstructionView::Callback {
                msg: CallbackMsgView::ProvideLiquidity {
                    receiver: spec_receiver(to, info.sender@),
                },
            },
        ]);
    }
    Ok(instrs)
}

/// What holds of the result of balancing in one fixed direction: either an
/// intermediate left the 128-bit domain, or the emitted swap (none, if a
/// single unit already overshoots) is the largest one within budget, clamped
/// to the offered balance.
pub open spec fn spec_directional_swap_post(
    b_off: int,
    b_ask: int,
    r_off: int,
    r_ask: int,
    fee_bps: int,
    offer_info: AssetInfoView,
    pair: Seq<char>,
    r: Result<Seq<InstructionView>, ContractError>,
) -> bool {
    match r {
        Err(e) => e == ContractError::ArithmeticOverflow && !spec_solver_fits(
            b_off,
            b_ask,
            r_off,
            r_ask,
            fee_bps,
        ),
        Ok(vs) => spec_solver_fits(b_off, b_ask, r_off, r_ask, fee_bps) && (if vs.len() == 0 {
            !spec_swap_within_budget(b_off, b_ask, r_off, r_ask, fee_bps, 1)
        } else {
            &&& vs.len() == 1
            &&& vs[0] matches InstructionView::Swap { pair_contract, offer } && pair_contract
                == pair && offer.info == offer_info && 0 < offer.amount <= b_off
                && spec_swap_within_budget(b_off, b_ask, r_off, r_ask, fee_bps, offer.amount)
                && (offer.amount < b_off ==> !spec_swap_within_budget(
                b_off,
                b_ask,
                r_off,
                r_ask,
                fee_bps,
                offer.amount + 1,
            ))
        }),
    }
}

/// What holds of the result of the optimal swap step: a no-op when a reserve
/// is empty or the held balances already stand in the reserve ratio, and
/// otherwise a single swap of the asset in excess, characterized by
/// [`spec_directional_swap_post`].
pub open spec fn spec_optimal_swap_post(
    asset0: AssetInfoView,
    asset1: AssetInfoView,
    pair: Seq<char>,
    fee_bps: int,
    pool: PoolSnapshot,
    r: Result<Seq<InstructionView>, ContractError>,
) -> bool {
    let b0 = pool.balance0 as int;
    let b1 = pool.balance1 as int;
    let r0 = pool.reserve0 as int;
    let r1 = pool.reserve1 as int;
    if r0 == 0 || r1 == 0 {
        r == Ok::<_, ContractError>(Seq::<InstructionView>::empty())
    } else if b0 * r1 > u128::MAX || b1 * r0 > u128::MAX {
        r == Err::<Seq<InstructionView>, _>(ContractError::ArithmeticOverflow)
    } else if b0 * r1 == b1 * r0 {
        r == Ok::<_, ContractError>(Seq::<InstructionView>::empty())
    } else if b0 * r1 > b1 * r0 {
        spec_directional_swap_post(b0, b1, r0, r1, fee_bps, asset0, pair, r)
    } else {
        spec_directional_swap_post(b1, b0, r1, r0, fee_bps, asset1, pair, r)
    }
}

/// Balance in one fixed direction: offer `b_off` of `offer_info` against the
/// pool's `r_off`/`r_ask` reserves.
fn swap_excess(
    b_off: u128,
    b_ask: u128,
    r_off: u128,
    r_ask: u128,
    fee_bps: u64,
    offer_info: &AssetInfo,
    pair_contract: &String,
) -> (r: Result<Vec<Instruction>, ContractError>)
    requires
        1 <= r_off,
        1 <= r_ask,
        fee_bps <= 10000,
        b_ask * r_off < b_off * r_ask,
    ensures
        spec_directional_swap_post(
            b_off as int,
            b_ask as int,
            r_off as int,
            r_ask as int,
            fee_bps as int,
            offer_info@,
            pair_contract@,
            spec_result_view(r),
        ),
{
    let amount = match compute_swap_amount(b_off, b_ask, r_off, r_ask, fee_bps) {
        Ok(s) => s,
        Err(e) => {
            return Err(e);
        },
    };
    proof {
        assert(b_off >= 1) by (nonlinear_arith)
            requires
                b_ask * r_off < b_off * r_ask,
                b_ask >= 0,
                r_off >= 0,
        ;
    }
    if amount == 0 {
        let empty: Vec<Instruction> = Vec::new();
        proof {
            assert(empty.deep_view() =~= Seq::<InstructionView>::empty());
        }
        Ok(empty)
    } else {
        let mut instrs: Vec<Instruction> = Vec::new();
        instrs.push(
            Instruction::Swap {
                pair_contract: pair_contract.clone(),
                offer: Asset { info: offer_info.duplicate(), amount },
            },
        );
        proof {
            assert(instrs.deep_view() =~= seq![
                InstructionView::Swap {
                    pair_contract: pair_contract@,
                    offer: AssetView { info: offer_info@, amount: amount as int },
                },
            ]);
        }
        Ok(instrs)
    }
}

/// Swap just enough of the asset in excess that the held balances match the
/// pool's reserve ratio, net of the trading fee. A no-op when a reserve is
/// empty, when the balances already match, or when the balancing trade is
/// below one unit (dust).
pub fn optimal_swap(config: &Config, pool: &PoolSnapshot) -> (r: Result<
    Vec<Instruction>,
    ContractError,
>)
    requires
        config.wf(),
    ensures
        spec_optimal_swap_post(
            config.pair_info.asset0@,
            config.pair_info.asset1@,
            config.pair_info.contract_addr@,
            config.commission_bps as int,
            *pool,
            spec_result_view(r),
        ),
{
    if pool.reserve0 == 0 || pool.reserve1 == 0 {
        let empty: Vec<Instruction> = Vec::new();
        proof {
            assert(empty.deep_view() =~= Seq::<InstructionView>::empty());
        }
        return Ok(empty);
    }
    let cross0 = match pool.balance0.checked_mul(pool.reserve1) {
        Some(v) => v,
        None => {
            return Err(ContractError::ArithmeticOverflow);
        },
    };
    let cross1 = match pool.balance1.checked_mul(pool.reserve0) {
        Some(v) => v,
        None => {
            return Err(ContractError::ArithmeticOverflow);
        },
    };
    if cross0 == cross1 {
        let empty: Vec<Instruction> = Vec::new();
        proof {
            assert(empty.deep_view() =~= Seq::<InstructionView>::empty());
        }
        Ok(empty)
    } else if cross0 > cross1 {
        swap_excess(
            pool.balance0,
            pool.balance1,
            pool.reserve0,
            pool.reserve1,
            config.commission_bps,
            &config.pair_info.asset0,
            &config.pair_info.contract_addr,
        )
    } else {
        swap_excess(
            pool.balance1,
            pool.balance0,
            pool.reserve1,
            pool.reserve0,
            config.commission_bps,
            &config.pair_info.asset1,
            &config.pair_info.contract_addr,
        )
    }
}

/// The allowance instruction a token leg needs before the pool may pull it.
pub open spec fn spec_allowance_leg(
    info: AssetInfoView,
    bal: int,
    pair: Seq<char>,
    height: int,
) -> Seq<InstructionView> {
    match info {
        AssetInfoView::Token { contract_addr } => {
            if bal > 0 {
                seq![
                    InstructionView::IncreaseAllowance {
                        token: contract_addr,
                        spender: pair,
                        amount: bal,
                        expires_at_height: height + 1,
                    },
                ]
            } else {
                Seq::empty()
            }
        },
        AssetInfoView::Native { .. } => Seq::empty(),
    }
}

/// The attached funds a native leg contributes to the deposit.
pub open spec fn spec_native_leg(info: AssetInfoView, bal: int) -> Seq<CoinView> {
    match info {
        AssetInfoView::Native { denom } => {
            if bal > 0 {
                seq![CoinView { denom, amount: bal }]
            } else {
                Seq::empty()
            }
        },
        AssetInfoView::Token { .. } => Seq::empty(),
    }
}

/// Everything the deposit step appends: a one-time allowance for each held
/// token leg, scoped to the next block, then the deposit itself, with the
/// native legs attached as funds and the liquidity tokens routed to
/// `receiver`. Nothing is appended when nothing is held.
pub open spec fn spec_provide_liquidity(
    asset0: AssetInfoView,
    asset1: AssetInfoView,
    pair: Seq<char>,
    slippage_bps: int,
    b0: int,
    b1: int,
    receiver: Seq<char>,
    height: int,
) -> Seq<InstructionView> {
    if b0 == 0 && b1 == 0 {
        Seq::empty()
    } else {
        spec_allowance_leg(asset0, b0, pair, height) + spec_allowance_leg(asset1, b1, pair, height)
            + seq![
            InstructionView::ProvideLiquidity {
                pair_contract: pair,
                asset0: AssetView { info: asset0, amount: b0 },
                asset1: AssetView { info: asset1, amount: b1 },
                slippage_bps: slippage_bps,
                receiver,
                funds: spec_native_leg(asset0, b0) + spec_native_leg(asset1, b1),
            },
        ]
    }
}

/// Push the allowance instruction of one leg, if the leg is a token with a
/// positive balance.
fn push_allowance_leg(
    instrs: &mut Vec<Instruction>,
    info: &AssetInfo,
    bal: u128,
    pair: &String,
    height: u64,
)
    requires
        height < u64::MAX,
    ensures
        final(instrs).deep_view() == old(instrs).deep_view() + spec_allowance_leg(
            info@,
            bal as int,
            pair@,
            height as int,
        ),
{
    let ghost before = instrs.deep_view();
    match info {
        AssetInfo::Token { contract_addr } => {
            if bal > 0 {
                instrs.push(
                    Instruction::IncreaseAllowance {
                        token: contract_addr.clone(),
                        spender: pair.clone(),
                        amount: bal,
                        expires_at_height: height + 1,
                    },
                );
            }
        },
        AssetInfo::Native { .. } => {},
    }
    proof {
        assert(instrs.deep_view() =~= before + spec_allowance_leg(
            info@,
            bal as int,
            pair@,
            height as int,
        ));
    }
}

/// Push the attached-funds entry of one leg, if the leg is native with a
/// positive balance.
fn push_native_leg(funds: &mut Vec<Coin>, info: &AssetInfo, bal: u128)
    ensures
        final(funds).deep_view() == old(funds).deep_view() + spec_native_leg(info@, bal as int),
{
    let ghost before = funds.deep_view();
    match info {
        AssetInfo::Native { denom } => {
            if bal > 0 {
                funds.push(Coin { denom: denom.clone(), amount: bal });
            }
        },
        AssetInfo::Token { .. } => {},
    }
    proof {
        assert(funds.deep_view() =~= before + spec_native_leg(info@, bal as int));
    }
}

/// Deposit the held balances of the pool's two assets into the pool. The
/// token legs get a one-time allowance over exactly the held amount, the
/// native legs travel as attached funds, the configured slippage tolerance
/// bounds the executed price, and the liquidity tokens go straight to
/// `receiver`.
pub fn provide_liquidity(
    config: &Config,
    balance0: u128,
    balance1: u128,
    receiver: String,
    height: u64,
) -> (r: Result<Vec<Instruction>, ContractError>)
    requires
        height < u64::MAX,
    ensures
        spec_result_view(r) == Ok::<_, ContractError>(
            spec_provide_liquidity(
                config.pair_info.asset0@,
                config.pair_info.asset1@,
                config.pair_info.contract_addr@,
                config.slippage_bps as int,
                balance0 as int,
                balance1 as int,
                receiver@,
                height as int,
            ),
        ),
{
    let mut instrs: Vec<Instruction> = Vec::new();
    if balance0 == 0 && balance1 == 0 {
        proof {
            assert(instrs.deep_view() =~= Seq::<InstructionView>::empty());
        }
        return Ok(instrs);
    }
    let pair = &config.pair_info.contract_addr;
    push_allowance_leg(&mut instrs, &config.pair_info.asset0, balance0, pair, height);
    push_allowance_leg(&mut instrs, &config.pair_info.asset1, balance1, pair, height);
    let mut funds: Vec<Coin> = Vec::new();
    push_native_leg(&mut funds, &config.pair_info.asset0, balance0);
    push_native_leg(&mut funds, &config.pair_info.asset1, balance1);
    proof {
        assert(funds.deep_view() =~= Seq::<CoinView>::empty() + spec_native_leg(
            config.pair_info.asset0@,
            balance0 as int,
        ) + spec_native_leg(config.pair_info.asset1@, balance1 as int));
    }
    let ghost legs = instrs.deep_view();
    instrs.push(
        Instruction::ProvideLiquidity {
            pair_contract: pair.clone(),
            asset0: Asset { info: config.pair_info.asset0.duplicate(), amount: balance0 },
            asset1: Asset { info: config.pair_info.asset1.duplicate(), amount: balance1 },
            slippage_bps: config.slippage_bps,
            receiver,
            funds,
        },
    );
    proof {
        assert(instrs.deep_view() =~~= spec_provide_liquidity(
            config.pair_info.asset0@,
            config.pair_info.asset1@,
            config.pair_info.contract_addr@,
            config.slippage_bps as int,
            balance0 as int,
            balance1 as int,
            receiver@,
            height as int,
        ));
    }
    Ok(instrs)
}

/// Dispatch one invocation against the stored state and a fresh snapshot of
/// the pool.
///
/// The two callback steps are the contract's internal continuations: they
/// are accepted only when the invoking identity is the contract's own
/// address, and any other caller fails with `Unauthorized`.
pub fn execute(
    state: &State,
    env: &Env,
    info: &MessageInfo,
    msg: ExecuteMsg,
    pool: &PoolSnapshot,
) -> (r: Result<Vec<Instruction>, ContractError>)
    requires
        state.config.wf(),
        env.block_height < u64::MAX,
    ensures
        match msg {
            ExecuteMsg::Compound { rewards, to } => spec_result_view(r) == spec_compound(
                rewards.deep_view(),
                info.funds.deep_view(),
                state.pair_proxies@,
                state.config.pair_info.asset0@,
                state.config.pair_info.asset1@,
                spec_receiver(to, info.sender@),
            ),
            ExecuteMsg::Callback(cb) => {
                if info.sender@ != env.contract_addr@ {
                    r == Err::<Vec<Instruction>, _>(ContractError::Unauthorized)
                } else {
                    match cb {
                        CallbackMsg::OptimalSwap => spec_optimal_swap_post(
                            state.config.pair_info.asset0@,
                            state.config.pair_info.asset1@,
                            state.config.pair_info.contract_addr@,
                            state.config.commission_bps as int,
                            *pool,
                            spec_result_view(r),
                        ),
                        CallbackMsg::ProvideLiquidity { receiver } => spec_result_view(r)
                            == Ok::<_, ContractError>(
                            spec_provide_liquidity(
                                state.config.pair_info.asset0@,
                                state.config.pair_info.asset1@,
                                state.config.pair_info.contract_addr@,
                                state.config.slippage_bps as int,
                                pool.balance0 as int,
                                pool.balance1 as int,
                                receiver@,
                                env.block_height as int,
                            ),
                        ),
                    }
                }
            },
        },
{
    match msg {
        ExecuteMsg::Compound { rewards, to } => compound(state, info, rewards, to),
        ExecuteMsg::Callback(cb) => {
            if !(info.sender == env.contract_addr) {
                return Err(ContractError::Unauthorized);
            }
            match cb {
                CallbackMsg::OptimalSwap => optimal_swap(&state.config, pool),
                CallbackMsg::ProvideLiquidity { receiver } => provide_liquidity(
                    &state.config,
                    pool.balance0,
                    pool.balance1,
                    receiver,
                    env.block_height,
                ),
            }
        },
    }
}

} // verus!
