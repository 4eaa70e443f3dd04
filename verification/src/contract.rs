//! The operations of the vault.

use vstd::prelude::*;

use crate::amount::buyable;
use crate::amount::buyable_amount;
use crate::effect::effects_view;
use crate::effect::Effect;
use crate::effect::EffectView;
use crate::error::ContractError;
use crate::msg::Env;
use crate::msg::EnvView;
use crate::msg::ExecuteMsg;
use crate::msg::InstantiateMsg;
use crate::msg::MessageInfo;
use crate::msg::MessageInfoView;
use crate::state::coins_view;
use crate::state::Coin;
use crate::state::CoinView;
use crate::state::Config;
use crate::state::ConfigView;
use crate::state::State;
use crate::state::StateView;
use crate::step::Answer;
use crate::step::AnswerView;
use crate::step::Pending;
use crate::step::Query;
use crate::step::QueryView;
use crate::step::Step;
use crate::step::StepView;

verus! {

/// The denomination of the native asset: deposits, stake and payouts are
/// counted in it.
pub open spec fn native_denom() -> Seq<char> {
    seq!['u', 'l', 'u', 'n', 'a']
}

/// The denomination of the native asset.
pub fn native() -> (denom: String)
    ensures
        denom@ == native_denom(),
{
    proof {
        reveal_strlit("uluna");
    }
    let denom = "uluna".to_owned();
    assert(denom@ =~= native_denom());
    denom
}

/// The deposit that a list of funds carries: the amount of its first coin in
/// the native denomination, and zero where it holds none.
pub open spec fn deposit_of(funds: Seq<CoinView>) -> u128
    decreases funds.len(),
{
    if funds.len() == 0 {
        0
    } else if funds[0].denom == native_denom() {
        funds[0].amount
    } else {
        deposit_of(funds.drop_first())
    }
}

/// Funds without a native coin carry no deposit.
pub proof fn deposit_of_foreign_funds(funds: Seq<CoinView>)
    requires
        forall|i: int| 0 <= i < funds.len() ==> funds[i].denom != native_denom(),
    ensures
        deposit_of(funds) == 0,
    decreases funds.len(),
{
    if funds.len() > 0 {
        deposit_of_foreign_funds(funds.drop_first());
    }
}

/// The deposit is the amount of the first native coin, whatever follows it.
pub proof fn deposit_of_first_native(funds: Seq<CoinView>, at: int)
    requires
        0 <= at < funds.len(),
        funds[at].denom == native_denom(),
        forall|i: int| 0 <= i < at ==> funds[i].denom != native_denom(),
    ensures
        deposit_of(funds) == funds[at].amount,
    decreases funds.len(),
{
    if at > 0 {
        deposit_of_first_native(funds.drop_first(), at - 1);
    }
}

/// Reads the deposit off the funds attached to a request.
pub fn deposit_amount(funds: &Vec<Coin>) -> (deposit: u128)
    ensures
        deposit == deposit_of(coins_view(funds@)),
{
    let uluna = native();
    let mut i: usize = 0;
    while i < funds.len()
        invariant
            i <= funds.len(),
            uluna@ == native_denom(),
            forall|j: int| 0 <= j < i ==> coins_view(funds@)[j].denom != native_denom(),
        decreases funds.len() - i,
    {
        if funds[i].denom == uluna {
            proof {
                deposit_of_first_native(coins_view(funds@), i as int);
            }
            return funds[i].amount;
        }
        i += 1;
    }
    proof {
        deposit_of_foreign_funds(coins_view(funds@));
    }
    0
}

/// What a vault set up with `msg` persists.
pub open spec fn instantiated(msg: InstantiateMsg) -> ConfigView {
    ConfigView {
        state: StateView {
            owner: msg.owner@,
            oracle_address: msg.oracle_address@,
            token_address: msg.token_address@,
        },
        validator: msg.validator@,
    }
}

/// Sets a vault up: the configuration to persist names the identities of
/// `msg`, each in its place.
pub fn instantiate(msg: InstantiateMsg) -> (config: Config)
    ensures
        config@ == instantiated(msg),
{
    Config {
        state: State {
            owner: msg.owner,
            oracle_address: msg.oracle_address,
            token_address: msg.token_address,
        },
        validator: msg.validator,
    }
}

/// `amount` of the native asset.
pub open spec fn native_coin(amount: u128) -> CoinView {
    CoinView { denom: native_denom(), amount }
}

/// The first step of a purchase: the deposit is read off the attached funds,
/// and the oracle is asked for the unit price.
pub open spec fn purchase_start(config: ConfigView, info: MessageInfoView) -> StepView {
    StepView::Ask {
        query: QueryView::Price { contract_addr: config.state.oracle_address },
        pending: Pending::Price { deposit: deposit_of(info.funds) },
    }
}

/// A purchase once the price query is answered. A price of zero ends it;
/// any other price fixes the number of tokens bought, the deposit divided by
/// the price and rounded down, and the vault's token balance is asked where
/// the price was asked. An oracle that was not reached, and an answer that
/// is no price, end the purchase too.
pub open spec fn purchase_priced(
    config: ConfigView,
    env: EnvView,
    deposit: u128,
    answer: AnswerView,
) -> StepView {
    match answer {
        AnswerView::Price(price) => if price == 0 {
            StepView::Failed { error: ContractError::InvalidPrice }
        } else {
            StepView::Ask {
                query: QueryView::Balance {
                    contract_addr: config.state.oracle_address,
                    address: env.contract_address,
                },
                pending: Pending::Balance { deposit, buyable: buyable(deposit, price) as u128 },
            }
        },
        AnswerView::Unavailable => StepView::Failed { error: ContractError::OracleUnavailable },
        _ => StepView::Failed { error: ContractError::OracleMalformed },
    }
}

/// What a purchase emits: the tokens go to the buyer, then the deposit is
/// staked with the vault's validator.
pub open spec fn purchase_effects(
    config: ConfigView,
    buyer: Seq<char>,
    deposit: u128,
    buyable: u128,
) -> Seq<EffectView> {
    seq![
        EffectView::Transfer {
            contract_addr: config.state.token_address,
            recipient: buyer,
            amount: buyable,
        },
        EffectView::Delegate { validator: config.validator, amount: native_coin(deposit) },
    ]
}

/// A purchase once the balance query is answered: it is rejected where the
/// vault holds fewer tokens than were bought, and emits its two effects
/// otherwise. An oracle that was not reached, and an answer that is no
/// balance, end the purchase without effect.
pub open spec fn purchase_settled(
    config: ConfigView,
    info: MessageInfoView,
    deposit: u128,
    buyable: u128,
    answer: AnswerView,
) -> StepView {
    match answer {
        AnswerView::Balance(balance) => if balance < buyable {
            StepView::Failed { error: ContractError::InsufficientTokenInventory }
        } else {
            StepView::Done { effects: purchase_effects(config, info.sender, deposit, buyable) }
        },
        AnswerView::Unavailable => StepView::Failed { error: ContractError::OracleUnavailable },
        _ => StepView::Failed { error: ContractError::OracleMalformed },
    }
}

/// The first step of a reward withdrawal: anyone but the owner is turned
/// away before anything is asked; for the owner, the vault's delegation with
/// its validator is asked.
pub open spec fn withdrawal_start(
    config: ConfigView,
    env: EnvView,
    info: MessageInfoView,
    amount: u128,
) -> StepView {
    if info.sender != config.state.owner {
        StepView::Failed { error: ContractError::Unauthorized }
    } else {
        StepView::Ask {
            query: QueryView::Delegation {
                delegator: env.contract_address,
                validator: config.validator,
            },
            pending: Pending::Rewards { amount },
        }
    }
}

/// One conversion into the native asset for each reward, in the rewards'
/// order.
pub open spec fn swaps(rewards: Seq<CoinView>) -> Seq<EffectView> {
    Seq::new(
        rewards.len(),
        |i: int| EffectView::Swap { offer_coin: rewards[i], ask_denom: native_denom() },
    )
}

/// What a reward withdrawal emits: rewards are redirected to the vault and
/// withdrawn from the validator, each reward is converted into the native
/// asset, and last `amount` is paid to the owner.
pub open spec fn withdrawal_effects(
    config: ConfigView,
    env: EnvView,
    amount: u128,
    rewards: Seq<CoinView>,
) -> Seq<EffectView> {
    seq![
        EffectView::SetWithdrawAddress { address: env.contract_address },
        EffectView::WithdrawDelegatorReward { validator: config.validator },
    ] + swaps(rewards) + seq![
        EffectView::Send { to_address: config.state.owner, amount: native_coin(amount) },
    ]
}

/// A reward withdrawal once the delegation query is answered: with a
/// delegation it emits its effects, whatever the rewards and the amount;
/// without one it is rejected, and so it is where the answer is anything but
/// a delegation response.
pub open spec fn withdrawal_settled(
    config: ConfigView,
    env: EnvView,
    amount: u128,
    answer: AnswerView,
) -> StepView {
    match answer {
        AnswerView::Delegation(response) => match response.delegation {
            Some(snapshot) => StepView::Done {
                effects: withdrawal_effects(config, env, amount, snapshot.accumulated_rewards),
            },
            None => StepView::Failed { error: ContractError::NoActiveDelegation },
        },
        _ => StepView::Failed { error: ContractError::StakingQueryFailed },
    }
}

/// An undelegation: the owner's request emits one effect, for the amount
/// asked; nothing is read.
pub open spec fn undelegation(config: ConfigView, info: MessageInfoView, amount: u128) -> StepView {
    if info.sender != config.state.owner {
        StepView::Failed { error: ContractError::Unauthorized }
    } else {
        StepView::Done {
            effects: seq![
                EffectView::Undelegate { validator: config.validator, amount: native_coin(amount) },
            ],
        }
    }
}

/// The first step of the operation that `msg` requests.
pub open spec fn first_step(
    config: Option<ConfigView>,
    env: EnvView,
    info: MessageInfoView,
    msg: ExecuteMsg,
) -> StepView {
    match config {
        None => StepView::Failed { error: ContractError::ConfigMissing },
        Some(config) => match msg {
            ExecuteMsg::BuyLemons2 {  } => purchase_start(config, info),
            ExecuteMsg::WithdrawAmount2 { amount } => withdrawal_start(config, env, info, amount),
            ExecuteMsg::StartUndelegation2 { amount } => undelegation(config, info, amount),
        },
    }
}

/// The step that follows `answer` for an operation that waits in `pending`.
pub open spec fn next_step(
    config: ConfigView,
    env: EnvView,
    info: MessageInfoView,
    pending: Pending,
    answer: AnswerView,
) -> StepView {
    match pending {
        Pending::Price { deposit } => purchase_priced(config, env, deposit, answer),
        Pending::Balance { deposit, buyable } => purchase_settled(
            config,
            info,
            deposit,
            buyable,
            answer,
        ),
        Pending::Rewards { amount } => withdrawal_settled(config, env, amount, answer),
    }
}

/// The value of the configuration that the host found, if it found one.
pub open spec fn stored(config: Option<&Config>) -> Option<ConfigView> {
    match config {
        Some(config) => Some(config@),
        None => None,
    }
}

/// Starts a purchase with the funds attached to the request.
pub fn execute_buy_lemons(config: &Config, info: &MessageInfo) -> (step: Step)
    ensures
        step@ == purchase_start(config@, info@),
{
    let deposit = deposit_amount(&info.funds);
    Step::Ask {
        query: Query::Price { contract_addr: config.state.oracle_address.clone() },
        pending: Pending::Price { deposit },
    }
}

/// Continues a purchase of `deposit` native units with the oracle's answer
/// to the price query.
pub fn buy_lemons_on_price(
    config: &Config,
    env: &Env,
    deposit: u128,
    answer: &Answer,
) -> (step: Step)
    ensures
        step@ == purchase_priced(config@, env@, deposit, answer@),
{
    match answer {
        Answer::Price(price) => match buyable_amount(deposit, *price) {
            Ok(buyable) => Step::Ask {
                query: Query::Balance {
                    contract_addr: config.state.oracle_address.clone(),
                    address: env.contract_address.clone(),
                },
                pending: Pending::Balance { deposit, buyable },
            },
            Err(error) => Step::Failed { error },
        },
        Answer::Unavailable => Step::Failed { error: ContractError::OracleUnavailable },
        _ => Step::Failed { error: ContractError::OracleMalformed },
    }
}

/// Ends a purchase of `buyable` tokens for `deposit` native units with the
/// answer to the balance query.
pub fn buy_lemons_on_balance(
    config: &Config,
    info: &MessageInfo,
    deposit: u128,
    buyable: u128,
    answer: &Answer,
) -> (step: Step)
    ensures
        step@ == purchase_settled(config@, info@, deposit, buyable, answer@),
{
    match answer {
        Answer::Balance(balance) => {
            if *balance < buyable {
                return Step::Failed { error: ContractError::InsufficientTokenInventory };
            }
            let mut effects: Vec<Effect> = Vec::new();
            effects.push(
                Effect::Transfer {
                    contract_addr: config.state.token_address.clone(),
                    recipient: info.sender.clone(),
                    amount: buyable,
                },
            );
            effects.push(
                Effect::Delegate {
                    validator: config.validator.clone(),
                    amount: Coin { denom: native(), amount: deposit },
                },
            );
            assert(effects_view(effects@) =~= purchase_effects(
                config@,
                info@.sender,
                deposit,
                buyable,
            ));
            Step::Done { effects }
        },
        Answer::Unavailable => Step::Failed { error: ContractError::OracleUnavailable },
        _ => Step::Failed { error: ContractError::OracleMalformed },
    }
}

/// Starts a reward withdrawal that is to pay `amount` to the owner.
pub fn execute_withdraw_amount(
    config: &Config,
    env: &Env,
    info: &MessageInfo,
    amount: u128,
) -> (step: Step)
    ensures
        step@ == withdrawal_start(config@, env@, info@, amount),
{
    if !(info.sender == config.state.owner) {
        return Step::Failed { error: ContractError::Unauthorized };
    }
    Step::Ask {
        query: Query::Delegation {
            delegator: env.contract_address.clone(),
            validator: config.validator.clone(),
        },
        pending: Pending::Rewards { amount },
    }
}

/// Builds the conversions of `rewards` into the native asset.
pub fn swap_messages(rewards: &Vec<Coin>) -> (effects: Vec<Effect>)
    ensures
        effects_view(effects@) == swaps(coins_view(rewards@)),
{
    let mut effects: Vec<Effect> = Vec::new();
    let mut i: usize = 0;
    while i < rewards.len()
        invariant
            i <= rewards.len(),
            effects@.len() == i,
            forall|j: int|
                0 <= j < i ==> (#[trigger] effects@[j])@ == (EffectView::Swap {
                    offer_coin: rewards@[j]@,
                    ask_denom: native_denom(),
                }),
        decreases rewards.len() - i,
    {
        let offer_coin = Coin { denom: rewards[i].denom.clone(), amount: rewards[i].amount };
        effects.push(Effect::Swap { offer_coin, ask_denom: native() });
        i += 1;
    }
    assert(effects_view(effects@) =~= swaps(coins_view(rewards@)));
    effects
}

/// Ends a reward withdrawal with the staking subsystem's answer to the
/// delegation query.
pub fn withdraw_amount_on_delegation(
    config: &Config,
    env: &Env,
    amount: u128,
    answer: &Answer,
) -> (step: Step)
    ensures
        step@ == withdrawal_settled(config@, env@, amount, answer@),
{
    match answer {
        Answer::Delegation(response) => match &response.delegation {
            Some(snapshot) => {
                let mut effects: Vec<Effect> = Vec::new();
                effects.push(
                    Effect::SetWithdrawAddress { address: env.contract_address.clone() },
                );
                effects.push(
                    Effect::WithdrawDelegatorReward { validator: config.validator.clone() },
                );
                let mut conversions = swap_messages(&snapshot.accumulated_rewards);
                let ghost converted = conversions@;
                effects.append(&mut conversions);
                effects.push(
                    Effect::Send {
                        to_address: config.state.owner.clone(),
                        amount: Coin { denom: native(), amount },
                    },
                );
                proof {
                    let rewards = coins_view(snapshot.accumulated_rewards@);
                    assert(effects_view(converted) == swaps(rewards));
                    assert forall|i: int| 0 <= i < converted.len() implies effects@[2 + i]@
                        == swaps(rewards)[i] by {
                        assert(effects@[2 + i] == converted[i]);
                        assert(effects_view(converted)[i] == converted[i]@);
                    }
                    assert(effects_view(effects@) =~= withdrawal_effects(
                        config@,
                        env@,
                        amount,
                        rewards,
                    ));
                }
                Step::Done { effects }
            },
            None => Step::Failed { error: ContractError::NoActiveDelegation },
        },
        _ => Step::Failed { error: ContractError::StakingQueryFailed },
    }
}

/// Undelegates `amount` from the vault's validator on the owner's request.
pub fn execute_set_undelegation(config: &Config, info: &MessageInfo, amount: u128) -> (step: Step)
    ensures
        step@ == undelegation(config@, info@, amount),
{
    if !(info.sender == config.state.owner) {
        return Step::Failed { error: ContractError::Unauthorized };
    }
    let mut effects: Vec<Effect> = Vec::new();
    effects.push(
        Effect::Undelegate {
            validator: config.validator.clone(),
            amount: Coin { denom: native(), amount },
        },
    );
    assert(effects_view(effects@) =~= seq![
        EffectView::Undelegate { validator: config@.validator, amount: native_coin(amount) },
    ]);
    Step::Done { effects }
}

/// Takes the first step of the operation that `msg` requests. `config` is
/// what the host found persisted; without it every request is rejected.
pub fn execute(
    config: Option<&Config>,
    env: &Env,
    info: &MessageInfo,
    msg: ExecuteMsg,
) -> (step: Step)
    ensures
        step@ == first_step(stored(config), env@, info@, msg),
{
    match config {
        None => Step::Failed { error: ContractError::ConfigMissing },
        Some(config) => match msg {
            ExecuteMsg::BuyLemons2 {  } => execute_buy_lemons(config, info),
            ExecuteMsg::WithdrawAmount2 { amount } => execute_withdraw_amount(
                config,
                env,
                info,
                amount,
            ),
            ExecuteMsg::StartUndelegation2 { amount } => execute_set_undelegation(
                config,
                info,
                amount,
            ),
        },
    }
}

/// Takes the step that follows `answer`, for an operation that asked a query
/// and waits in `pending`.
pub fn resume(
    config: &Config,
    env: &Env,
    info: &MessageInfo,
    pending: Pending,
    answer: &Answer,
) -> (step: Step)
    ensures
        step@ == next_step(config@, env@, info@, pending, answer@),
{
    match pending {
        Pending::Price { deposit } => buy_lemons_on_price(config, env, deposit, answer),
        Pending::Balance { deposit, buyable } => buy_lemons_on_balance(
            config,
            info,
            deposit,
            buyable,
            answer,
        ),
        Pending::Rewards { amount } => withdraw_amount_on_delegation(config, env, amount, answer),
    }
}

} // verus!
