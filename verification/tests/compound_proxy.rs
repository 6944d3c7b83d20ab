use compound_proxy::asset::{Asset, AssetInfo, Coin};
use compound_proxy::contract::{execute, instantiate, query_config};
use compound_proxy::error::ContractError;
use compound_proxy::msgs::{
    CallbackMsg, ConfigResponse, ExecuteMsg, InstantiateMsg, Instruction,
};
use compound_proxy::solver::compute_swap_amount;
use compound_proxy::state::{Env, MessageInfo, PairInfo, PoolSnapshot, State};

fn token(addr: &str) -> AssetInfo {
    AssetInfo::Token {
        contract_addr: addr.to_string(),
    }
}

fn native(denom: &str) -> AssetInfo {
    AssetInfo::Native {
        denom: denom.to_string(),
    }
}

fn mock_pair_info() -> PairInfo {
    PairInfo {
        asset0: token("token"),
        asset1: native("uluna"),
        contract_addr: "pair_contract".to_string(),
        liquidity_token: "liquidity_token".to_string(),
    }
}

fn mock_env() -> Env {
    Env {
        contract_addr: "cosmos2contract".to_string(),
        block_height: 12345,
    }
}

fn mock_info(sender: &str, funds: &[(&str, u128)]) -> MessageInfo {
    MessageInfo {
        sender: sender.to_string(),
        funds: funds
            .iter()
            .map(|(denom, amount)| Coin {
                denom: denom.to_string(),
                amount: *amount,
            })
            .collect(),
    }
}

fn mock_state(pair_proxies: Vec<(AssetInfo, String)>) -> State {
    instantiate(
        InstantiateMsg {
            pair_contract: "pair_contract".to_string(),
            commission_bps: 30,
            pair_proxies,
            slippage_bps: 100,
        },
        mock_pair_info(),
    )
}

fn idle_pool() -> PoolSnapshot {
    PoolSnapshot {
        reserve0: 0,
        reserve1: 0,
        balance0: 0,
        balance1: 0,
    }
}

#[test]
fn proper_initialization() {
    let state = mock_state(vec![
        (token("token0001"), "pair0001".to_string()),
        (native("ibc/token"), "pair0002".to_string()),
    ]);

    let config = query_config(&state);
    assert_eq!(
        config,
        ConfigResponse {
            pair_info: mock_pair_info(),
        }
    );

    assert_eq!(state.pair_proxies.num_entries(), 2);
    assert_eq!(
        state.pair_proxies.lookup(&"ibc/token".to_string()),
        Some(&"pair0002".to_string())
    );
    assert_eq!(
        state.pair_proxies.lookup(&"token0001".to_string()),
        Some(&"pair0001".to_string())
    );
}

#[test]
fn compound() {
    let state = mock_state(vec![]);

    let msg = ExecuteMsg::Compound {
        rewards: vec![Asset {
            info: native("uluna"),
            amount: 1000000,
        }],
        to: None,
    };

    let env = mock_env();
    let info = mock_info("addr0000", &[("uluna", 1000000)]);

    let res = execute(&state, &env, &info, msg, &idle_pool()).unwrap();
    assert_eq!(
        res,
        vec![
            Instruction::Callback(CallbackMsg::OptimalSwap),
            Instruction::Callback(CallbackMsg::ProvideLiquidity {
                receiver: "addr0000".to_string(),
            }),
        ]
    );
}

#[test]
fn optimal_swap() {
    let state = mock_state(vec![]);
    let env = mock_env();
    let pool = PoolSnapshot {
        reserve0: 1000000000,
        reserve1: 1000000000,
        balance0: 1000000,
        balance1: 0,
    };

    let msg = ExecuteMsg::Callback(CallbackMsg::OptimalSwap);

    let info = mock_info("addr0000", &[]);
    let res = execute(&state, &env, &info, msg.clone(), &pool);
    assert_eq!(res, Err(ContractError::Unauthorized));

    let info = mock_info(env.contract_addr.as_str(), &[]);
    let res = execute(&state, &env, &info, msg, &pool).unwrap();

    assert_eq!(
        res,
        vec![Instruction::Swap {
            pair_contract: "pair_contract".to_string(),
            offer: Asset {
                info: token("token"),
                amount: 500626,
            },
        }]
    );
}

#[test]
fn provide_liquidity() {
    let state = mock_state(vec![]);
    let env = mock_env();
    let pool = PoolSnapshot {
        reserve0: 1000000000,
        reserve1: 1000000000,
        balance0: 1000000,
        balance1: 1000000,
    };

    let msg = ExecuteMsg::Callback(CallbackMsg::ProvideLiquidity {
        receiver: "sender".to_string(),
    });

    let info = mock_info("addr0000", &[]);
    let res = execute(&state, &env, &info, msg.clone(), &pool);
    assert_eq!(res, Err(ContractError::Unauthorized));

    let info = mock_info(env.contract_addr.as_str(), &[]);
    let res = execute(&state, &env, &info, msg, &pool).unwrap();

    assert_eq!(
        res,
        vec![
            Instruction::IncreaseAllowance {
                token: "token".to_string(),
                spender: "pair_contract".to_string(),
                amount: 1000000,
                expires_at_height: 12346,
            },
            Instruction::ProvideLiquidity {
                pair_contract: "pair_contract".to_string(),
                asset0: Asset {
                    info: token("token"),
                    amount: 1000000,
                },
                asset1: Asset {
                    info: native("uluna"),
                    amount: 1000000,
                },
                slippage_bps: 100,
                receiver: "sender".to_string(),
                funds: vec![Coin {
                    denom: "uluna".to_string(),
                    amount: 1000000,
                }],
            },
        ]
    );
}

#[test]
fn registry_is_independent_of_input_order() {
    let forward = mock_state(vec![
        (token("token0001"), "pair0001".to_string()),
        (native("ibc/token"), "pair0002".to_string()),
    ]);
    let reversed = mock_state(vec![
        (native("ibc/token"), "pair0002".to_string()),
        (token("token0001"), "pair0001".to_string()),
    ]);

    for state in [&forward, &reversed] {
        assert_eq!(state.pair_proxies.num_entries(), 2);
        assert_eq!(
            state.pair_proxies.lookup(&"token0001".to_string()),
            Some(&"pair0001".to_string())
        );
        assert_eq!(
            state.pair_proxies.lookup(&"ibc/token".to_string()),
            Some(&"pair0002".to_string())
        );
        assert_eq!(state.pair_proxies.lookup(&"unknown".to_string()), None);
    }
}

#[test]
fn compound_of_zero_amounts_emits_no_conversion() {
    let state = mock_state(vec![]);
    let env = mock_env();
    let info = mock_info("addr0000", &[]);

    let msg = ExecuteMsg::Compound {
        rewards: vec![
            Asset {
                info: native("uluna"),
                amount: 0,
            },
            Asset {
                info: token("unrouted"),
                amount: 0,
            },
        ],
        to: Some("beneficiary".to_string()),
    };

    let res = execute(&state, &env, &info, msg, &idle_pool()).unwrap();
    assert_eq!(
        res,
        vec![
            Instruction::Callback(CallbackMsg::OptimalSwap),
            Instruction::Callback(CallbackMsg::ProvideLiquidity {
                receiver: "beneficiary".to_string(),
            }),
        ]
    );
}

#[test]
fn zero_balances_emit_no_swap_and_no_deposit() {
    let state = mock_state(vec![]);
    let env = mock_env();
    let info = mock_info(mock_env().contract_addr.as_str(), &[]);
    let pool = PoolSnapshot {
        reserve0: 1000000000,
        reserve1: 1000000000,
        balance0: 0,
        balance1: 0,
    };

    let res = execute(
        &state,
        &env,
        &info,
        ExecuteMsg::Callback(CallbackMsg::OptimalSwap),
        &pool,
    )
    .unwrap();
    assert_eq!(res, Vec::<Instruction>::new());

    let res = execute(
        &state,
        &env,
        &info,
        ExecuteMsg::Callback(CallbackMsg::ProvideLiquidity {
            receiver: "sender".to_string(),
        }),
        &pool,
    )
    .unwrap();
    assert_eq!(res, Vec::<Instruction>::new());
}

#[test]
fn compound_converts_foreign_rewards_through_proxies() {
    let state = mock_state(vec![(token("astro"), "astro_pair".to_string())]);
    let env = mock_env();
    let info = mock_info("addr0000", &[]);

    let msg = ExecuteMsg::Compound {
        rewards: vec![Asset {
            info: token("astro"),
            amount: 250000,
        }],
        to: None,
    };

    let res = execute(&state, &env, &info, msg, &idle_pool()).unwrap();
    assert_eq!(
        res,
        vec![
            Instruction::Swap {
                pair_contract: "astro_pair".to_string(),
                offer: Asset {
                    info: token("astro"),
                    amount: 250000,
                },
            },
            Instruction::Callback(CallbackMsg::OptimalSwap),
            Instruction::Callback(CallbackMsg::ProvideLiquidity {
                receiver: "addr0000".to_string(),
            }),
        ]
    );
}

#[test]
fn compound_without_route_fails() {
    let state = mock_state(vec![]);
    let env = mock_env();
    let info = mock_info("addr0000", &[]);

    let msg = ExecuteMsg::Compound {
        rewards: vec![Asset {
            info: token("unrouted"),
            amount: 1,
        }],
        to: None,
    };

    let res = execute(&state, &env, &info, msg, &idle_pool());
    assert_eq!(res, Err(ContractError::NoPairProxy));
}

#[test]
fn compound_with_uncovered_native_reward_fails() {
    let state = mock_state(vec![]);
    let env = mock_env();
    let info = mock_info("addr0000", &[("uluna", 999999)]);

    let msg = ExecuteMsg::Compound {
        rewards: vec![Asset {
            info: native("uluna"),
            amount: 1000000,
        }],
        to: None,
    };

    let res = execute(&state, &env, &info, msg, &idle_pool());
    assert_eq!(res, Err(ContractError::InsufficientFunds));
}

#[test]
fn optimal_swap_overflow_is_fatal() {
    let state = mock_state(vec![]);
    let env = mock_env();
    let info = mock_info(mock_env().contract_addr.as_str(), &[]);
    let pool = PoolSnapshot {
        reserve0: 2,
        reserve1: u128::MAX,
        balance0: u128::MAX,
        balance1: 0,
    };

    let res = execute(
        &state,
        &env,
        &info,
        ExecuteMsg::Callback(CallbackMsg::OptimalSwap),
        &pool,
    );
    assert_eq!(res, Err(ContractError::ArithmeticOverflow));
}

#[test]
fn solver_matches_fee_adjusted_formula() {
    assert_eq!(
        compute_swap_amount(1000000, 0, 1000000000, 1000000000, 30),
        Ok(500626)
    );
}

#[test]
fn solver_balances_within_one_unit() {
    // Virtually apply the solved swap of the scenario above with the
    // fee-adjusted constant-product output, then check the ratio.
    let s: u128 = 500626;
    let out = (1000000000u128 * 9970 * s) / (10000 * 1000000000u128 + 9970 * s);
    let new_balance0 = 1000000 - s;
    let new_balance1 = out;
    let new_reserve0 = 1000000000 + s;
    let new_reserve1 = 1000000000 - out;

    assert!(s <= 1000000);
    let target = new_balance1 * new_reserve0 / new_reserve1;
    assert!(new_balance0 >= target.saturating_sub(1) && new_balance0 <= target + 1);
}

#[test]
fn solver_is_idempotent_after_swap() {
    let state = mock_state(vec![]);
    let env = mock_env();
    let info = mock_info(mock_env().contract_addr.as_str(), &[]);

    // The post-swap holdings and reserves of the solved scenario.
    let s: u128 = 500626;
    let out = (1000000000u128 * 9970 * s) / (10000 * 1000000000u128 + 9970 * s);
    let pool = PoolSnapshot {
        reserve0: 1000000000 + s,
        reserve1: 1000000000 - out,
        balance0: 1000000 - s,
        balance1: out,
    };

    let res = execute(
        &state,
        &env,
        &info,
        ExecuteMsg::Callback(CallbackMsg::OptimalSwap),
        &pool,
    )
    .unwrap();
    assert_eq!(res, Vec::<Instruction>::new());
}

#[test]
fn deposit_of_single_native_leg_needs_no_allowance() {
    let state = mock_state(vec![]);
    let res = compound_proxy::contract::provide_liquidity(&state.config, 0, 750000, "sender".to_string(), 500).unwrap();
    assert_eq!(
        res,
        vec![Instruction::ProvideLiquidity {
            pair_contract: "pair_contract".to_string(),
            asset0: Asset {
                info: token("token"),
                amount: 0,
            },
            asset1: Asset {
                info: native("uluna"),
                amount: 750000,
            },
            slippage_bps: 100,
            receiver: "sender".to_string(),
            funds: vec![Coin {
                denom: "uluna".to_string(),
                amount: 750000,
            }],
        }]
    );
}

#[test]
fn swap_below_one_unit_is_skipped_as_dust() {
    let state = mock_state(vec![]);
    let env = mock_env();
    let info = mock_info(mock_env().contract_addr.as_str(), &[]);
    let pool = PoolSnapshot {
        reserve0: 1000000000,
        reserve1: 1000000000,
        balance0: 1000000,
        balance1: 999999,
    };

    let res = execute(
        &state,
        &env,
        &info,
        ExecuteMsg::Callback(CallbackMsg::OptimalSwap),
        &pool,
    )
    .unwrap();
    assert_eq!(res, Vec::<Instruction>::new());
}

#[test]
fn compound_of_empty_basket_queues_only_followups() {
    let state = mock_state(vec![]);
    let env = mock_env();
    let info = mock_info("addr0000", &[]);

    let msg = ExecuteMsg::Compound {
        rewards: vec![],
        to: None,
    };

    let res = execute(&state, &env, &info, msg, &idle_pool()).unwrap();
    assert_eq!(
        res,
        vec![
            Instruction::Callback(CallbackMsg::OptimalSwap),
            Instruction::Callback(CallbackMsg::ProvideLiquidity {
                receiver: "addr0000".to_string(),
            }),
        ]
    );
}

#[test]
fn registry_keeps_the_last_entry_for_a_key() {
    let state = mock_state(vec![
        (token("token0001"), "pair_old".to_string()),
        (token("token0001"), "pair_new".to_string()),
    ]);

    assert_eq!(
        state.pair_proxies.lookup(&"token0001".to_string()),
        Some(&"pair_new".to_string())
    );
}
