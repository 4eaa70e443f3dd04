use lemon_vault::contract::buy_lemons_on_balance;
use lemon_vault::contract::buy_lemons_on_price;
use lemon_vault::contract::deposit_amount;
use lemon_vault::contract::execute;
use lemon_vault::contract::execute_buy_lemons;
use lemon_vault::contract::resume;
use lemon_vault::effect::Effect;
use lemon_vault::error::ContractError;
use lemon_vault::msg::Env;
use lemon_vault::msg::ExecuteMsg;
use lemon_vault::msg::MessageInfo;
use lemon_vault::run::replay;
use lemon_vault::state::Coin;
use lemon_vault::state::Config;
use lemon_vault::state::DelegationResponse;
use lemon_vault::state::State;
use lemon_vault::step::Answer;
use lemon_vault::step::Pending;
use lemon_vault::step::Query;
use lemon_vault::step::Step;

fn vault() -> Config {
    Config {
        state: State {
            owner: "O".to_string(),
            oracle_address: "oracle".to_string(),
            token_address: "token".to_string(),
        },
        validator: "V".to_string(),
    }
}

fn here() -> Env {
    Env { contract_address: "vault".to_string() }
}

fn coin(amount: u128, denom: &str) -> Coin {
    Coin { denom: denom.to_string(), amount }
}

fn buyer_with(funds: Vec<Coin>) -> MessageInfo {
    MessageInfo { sender: "buyer".to_string(), funds }
}

fn bought(tokens: u128, deposit: u128) -> Step {
    Step::Done {
        effects: vec![
            Effect::Transfer {
                contract_addr: "token".to_string(),
                recipient: "buyer".to_string(),
                amount: tokens,
            },
            Effect::Delegate { validator: "V".to_string(), amount: coin(deposit, "uluna") },
        ],
    }
}

fn purchase(deposit: u128, price: u128, balance: u128) -> Step {
    replay(
        &vault(),
        &here(),
        &buyer_with(vec![coin(deposit, "uluna")]),
        ExecuteMsg::BuyLemons2 {},
        &vec![Answer::Price(price), Answer::Balance(balance)],
    )
}

#[test]
fn deposit_of_23_at_price_5_buys_4_tokens() {
    assert_eq!(purchase(23, 5, 10), bought(4, 23));
}

#[test]
fn purchase_advances_in_three_steps() {
    let config = vault();
    let env = here();
    let info = buyer_with(vec![coin(23, "uluna")]);

    let first = execute(Some(&config), &env, &info, ExecuteMsg::BuyLemons2 {});
    assert_eq!(
        first,
        Step::Ask {
            query: Query::Price { contract_addr: "oracle".to_string() },
            pending: Pending::Price { deposit: 23 },
        }
    );

    let second = resume(&config, &env, &info, Pending::Price { deposit: 23 }, &Answer::Price(5));
    assert_eq!(
        second,
        Step::Ask {
            query: Query::Balance {
                contract_addr: "oracle".to_string(),
                address: "vault".to_string(),
            },
            pending: Pending::Balance { deposit: 23, buyable: 4 },
        }
    );

    let third = resume(
        &config,
        &env,
        &info,
        Pending::Balance { deposit: 23, buyable: 4 },
        &Answer::Balance(10),
    );
    assert_eq!(third, bought(4, 23));
}

#[test]
fn purchase_steps_agree_with_dispatch() {
    let config = vault();
    let env = here();
    let info = buyer_with(vec![coin(23, "uluna")]);
    assert_eq!(
        execute_buy_lemons(&config, &info),
        execute(Some(&config), &env, &info, ExecuteMsg::BuyLemons2 {})
    );
    assert_eq!(
        buy_lemons_on_price(&config, &env, 23, &Answer::Price(5)),
        resume(&config, &env, &info, Pending::Price { deposit: 23 }, &Answer::Price(5))
    );
    assert_eq!(
        buy_lemons_on_balance(&config, &info, 23, 4, &Answer::Balance(4)),
        bought(4, 23)
    );
}

#[test]
fn purchase_rounds_down_never_up() {
    assert_eq!(purchase(24, 5, 10), bought(4, 24));
    assert_eq!(purchase(25, 5, 10), bought(5, 25));
    assert_eq!(purchase(4, 5, 10), bought(0, 4));
    assert_eq!(purchase(7, 1, 10), bought(7, 7));
}

#[test]
fn purchase_that_empties_the_vault_succeeds() {
    assert_eq!(purchase(23, 5, 4), bought(4, 23));
}

#[test]
fn purchase_beyond_inventory_is_rejected() {
    assert_eq!(
        purchase(23, 5, 3),
        Step::Failed { error: ContractError::InsufficientTokenInventory }
    );
    assert_eq!(
        purchase(1000, 1, 0),
        Step::Failed { error: ContractError::InsufficientTokenInventory }
    );
}

#[test]
fn purchase_at_price_zero_is_rejected() {
    assert_eq!(purchase(23, 0, 10), Step::Failed { error: ContractError::InvalidPrice });
    assert_eq!(purchase(0, 0, 10), Step::Failed { error: ContractError::InvalidPrice });
}

#[test]
fn price_zero_ends_the_purchase_before_the_balance_is_asked() {
    let step = buy_lemons_on_price(&vault(), &here(), 23, &Answer::Price(0));
    assert_eq!(step, Step::Failed { error: ContractError::InvalidPrice });
}

#[test]
fn zero_deposit_buys_zero_tokens() {
    assert_eq!(purchase(0, 5, 10), bought(0, 0));
    assert_eq!(purchase(0, 5, 0), bought(0, 0));
}

#[test]
fn request_without_native_funds_is_a_zero_deposit() {
    let answers = vec![Answer::Price(5), Answer::Balance(10)];
    let none = replay(
        &vault(),
        &here(),
        &buyer_with(vec![]),
        ExecuteMsg::BuyLemons2 {},
        &answers,
    );
    assert_eq!(none, bought(0, 0));
    let foreign = replay(
        &vault(),
        &here(),
        &buyer_with(vec![coin(99, "uusd"), coin(7, "ukrw")]),
        ExecuteMsg::BuyLemons2 {},
        &answers,
    );
    assert_eq!(foreign, bought(0, 0));
}

#[test]
fn deposit_is_the_first_native_coin() {
    assert_eq!(deposit_amount(&vec![]), 0);
    assert_eq!(deposit_amount(&vec![coin(99, "uusd")]), 0);
    assert_eq!(deposit_amount(&vec![coin(23, "uluna")]), 23);
    assert_eq!(deposit_amount(&vec![coin(99, "uusd"), coin(23, "uluna")]), 23);
    assert_eq!(
        deposit_amount(&vec![coin(99, "uusd"), coin(23, "uluna"), coin(40, "uluna")]),
        23
    );
    assert_eq!(deposit_amount(&vec![coin(5, "ULUNA"), coin(6, "uluna ")]), 0);
    assert_eq!(deposit_amount(&vec![coin(u128::MAX, "uluna")]), u128::MAX);
}

#[test]
fn purchase_is_open_to_anyone() {
    let config = vault();
    let answers = vec![Answer::Price(5), Answer::Balance(10)];
    for sender in ["buyer", "O", "V", ""] {
        let info = MessageInfo { sender: sender.to_string(), funds: vec![coin(23, "uluna")] };
        let step = replay(&config, &here(), &info, ExecuteMsg::BuyLemons2 {}, &answers);
        assert_eq!(
            step,
            Step::Done {
                effects: vec![
                    Effect::Transfer {
                        contract_addr: "token".to_string(),
                        recipient: sender.to_string(),
                        amount: 4,
                    },
                    Effect::Delegate {
                        validator: "V".to_string(),
                        amount: coin(23, "uluna"),
                    },
                ],
            }
        );
    }
}

#[test]
fn largest_deposit_is_bought_whole_at_price_one() {
    assert_eq!(purchase(u128::MAX, 1, u128::MAX), bought(u128::MAX, u128::MAX));
    assert_eq!(
        purchase(u128::MAX, 1, u128::MAX - 1),
        Step::Failed { error: ContractError::InsufficientTokenInventory }
    );
    assert_eq!(purchase(u128::MAX, u128::MAX, 1), bought(1, u128::MAX));
}

#[test]
fn unreachable_oracle_fails_the_purchase() {
    let config = vault();
    let env = here();
    let info = buyer_with(vec![coin(23, "uluna")]);
    assert_eq!(
        replay(&config, &env, &info, ExecuteMsg::BuyLemons2 {}, &vec![Answer::Unavailable]),
        Step::Failed { error: ContractError::OracleUnavailable }
    );
    assert_eq!(
        replay(
            &config,
            &env,
            &info,
            ExecuteMsg::BuyLemons2 {},
            &vec![Answer::Price(5), Answer::Unavailable]
        ),
        Step::Failed { error: ContractError::OracleUnavailable }
    );
}

#[test]
fn undecodable_oracle_reply_fails_the_purchase() {
    let config = vault();
    let env = here();
    let info = buyer_with(vec![coin(23, "uluna")]);
    assert_eq!(
        replay(&config, &env, &info, ExecuteMsg::BuyLemons2 {}, &vec![Answer::Malformed]),
        Step::Failed { error: ContractError::OracleMalformed }
    );
    assert_eq!(
        replay(
            &config,
            &env,
            &info,
            ExecuteMsg::BuyLemons2 {},
            &vec![Answer::Price(5), Answer::Malformed]
        ),
        Step::Failed { error: ContractError::OracleMalformed }
    );
}

#[test]
fn answer_of_the_wrong_kind_counts_as_undecodable() {
    let config = vault();
    let env = here();
    let info = buyer_with(vec![coin(23, "uluna")]);
    assert_eq!(
        replay(&config, &env, &info, ExecuteMsg::BuyLemons2 {}, &vec![Answer::Balance(5)]),
        Step::Failed { error: ContractError::OracleMalformed }
    );
    assert_eq!(
        replay(
            &config,
            &env,
            &info,
            ExecuteMsg::BuyLemons2 {},
            &vec![Answer::Price(5), Answer::Price(10)]
        ),
        Step::Failed { error: ContractError::OracleMalformed }
    );
    assert_eq!(
        replay(
            &config,
            &env,
            &info,
            ExecuteMsg::BuyLemons2 {},
            &vec![Answer::Delegation(DelegationResponse { delegation: None })]
        ),
        Step::Failed { error: ContractError::OracleMalformed }
    );
}

#[test]
fn replay_stops_asking_where_the_answers_run_out() {
    let config = vault();
    let env = here();
    let info = buyer_with(vec![coin(23, "uluna")]);
    assert_eq!(
        replay(&config, &env, &info, ExecuteMsg::BuyLemons2 {}, &vec![]),
        Step::Ask {
            query: Query::Price { contract_addr: "oracle".to_string() },
            pending: Pending::Price { deposit: 23 },
        }
    );
    assert_eq!(
        replay(&config, &env, &info, ExecuteMsg::BuyLemons2 {}, &vec![Answer::Price(5)]),
        Step::Ask {
            query: Query::Balance {
                contract_addr: "oracle".to_string(),
                address: "vault".to_string(),
            },
            pending: Pending::Balance { deposit: 23, buyable: 4 },
        }
    );
}

#[test]
fn replay_leaves_surplus_answers_alone() {
    let step = replay(
        &vault(),
        &here(),
        &buyer_with(vec![coin(23, "uluna")]),
        ExecuteMsg::BuyLemons2 {},
        &vec![Answer::Price(5), Answer::Balance(10), Answer::Unavailable, Answer::Price(0)],
    );
    assert_eq!(step, bought(4, 23));
}

#[test]
fn request_to_a_vault_without_configuration_is_rejected() {
    let env = here();
    let info = buyer_with(vec![coin(23, "uluna")]);
    for msg in [
        ExecuteMsg::BuyLemons2 {},
        ExecuteMsg::WithdrawAmount2 { amount: 1 },
        ExecuteMsg::StartUndelegation2 { amount: 1 },
    ] {
        assert_eq!(
            execute(None, &env, &info, msg),
            Step::Failed { error: ContractError::ConfigMissing }
        );
    }
}

#[test]
fn rejected_purchase_repeats_alike() {
    let first = purchase(23, 5, 3);
    let second = purchase(23, 5, 3);
    assert_eq!(first, Step::Failed { error: ContractError::InsufficientTokenInventory });
    assert_eq!(first, second);
}
