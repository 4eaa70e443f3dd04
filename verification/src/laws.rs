//! What holds of every operation, whatever the request, the stored
//! configuration and the host's answers.

use vstd::prelude::*;

use crate::contract::deposit_of;
use crate::contract::first_step;
use crate::contract::native_coin;
use crate::contract::native_denom;
use crate::contract::next_step;
use crate::effect::EffectView;
use crate::error::ContractError;
use crate::msg::EnvView;
use crate::msg::ExecuteMsg;
use crate::msg::MessageInfoView;
use crate::run::carry_on;
use crate::run::outcome;
use crate::state::ConfigView;
use crate::state::DelegationResponseView;
use crate::state::DelegationSnapshotView;
use crate::step::AnswerView;
use crate::step::Pending;
use crate::step::StepView;

verus! {

/// The answers of a host that quotes `price` and then reports `balance`.
pub open spec fn quoted(price: u128, balance: u128) -> Seq<AnswerView> {
    seq![AnswerView::Price(price), AnswerView::Balance(balance)]
}

/// The answer of a host that found the delegation `snapshot`.
pub open spec fn delegated(snapshot: DelegationSnapshotView) -> Seq<AnswerView> {
    seq![AnswerView::Delegation(DelegationResponseView { delegation: Some(snapshot) })]
}

/// Whether `effect` converts an amount of the asset `denom`.
pub open spec fn converts(effect: EffectView, denom: Seq<char>) -> bool {
    effect matches EffectView::Swap { offer_coin, .. } && offer_coin.denom == denom
}

/// An operation that has ended stays where it is, whatever answers follow.
pub proof fn ended_operation_stays(
    config: ConfigView,
    env: EnvView,
    info: MessageInfoView,
    step: StepView,
    answers: Seq<AnswerView>,
)
    requires
        !(step is Ask),
    ensures
        carry_on(config, env, info, step, answers) == step,
{
}

/// No operation asks more than two queries: with two answers or more, every
/// operation has ended.
pub proof fn operation_ends_within_two_answers(
    config: ConfigView,
    env: EnvView,
    info: MessageInfoView,
    msg: ExecuteMsg,
    answers: Seq<AnswerView>,
)
    requires
        answers.len() >= 2,
    ensures
        !(outcome(config, env, info, msg, answers) is Ask),
{
    reveal_with_fuel(carry_on, 3);
}

/// A purchase at a positive price, made while the vault holds at least the
/// tokens bought, emits two effects and no more: first the transfer of the
/// tokens to the buyer, then the delegation of the whole deposit to the
/// vault's validator. The tokens bought are the deposit divided by the
/// price, rounded down.
pub proof fn purchase_transfers_then_delegates(
    config: ConfigView,
    env: EnvView,
    info: MessageInfoView,
    deposit: u128,
    price: u128,
    balance: u128,
)
    requires
        deposit == deposit_of(info.funds),
        price > 0,
        balance >= deposit as int / price as int,
    ensures
        outcome(config, env, info, ExecuteMsg::BuyLemons2 {  }, quoted(price, balance)) == (
        StepView::Done {
            effects: seq![
                EffectView::Transfer {
                    contract_addr: config.state.token_address,
                    recipient: info.sender,
                    amount: (deposit as int / price as int) as u128,
                },
                EffectView::Delegate { validator: config.validator, amount: native_coin(deposit) },
            ],
        }),
{
    reveal_with_fuel(carry_on, 3);
    let answers = quoted(price, balance);
    assert(answers.drop_first() =~= seq![AnswerView::Balance(balance)]);
    assert(answers.drop_first().drop_first() =~= Seq::<AnswerView>::empty());
}

/// A request without native funds is a purchase of nothing: at any positive
/// price and from any inventory it succeeds, transfers no token and stakes
/// nothing.
pub proof fn empty_deposit_buys_nothing(
    config: ConfigView,
    env: EnvView,
    info: MessageInfoView,
    price: u128,
    balance: u128,
)
    requires
        deposit_of(info.funds) == 0,
        price > 0,
    ensures
        outcome(config, env, info, ExecuteMsg::BuyLemons2 {  }, quoted(price, balance)) == (
        StepView::Done {
            effects: seq![
                EffectView::Transfer {
                    contract_addr: config.state.token_address,
                    recipient: info.sender,
                    amount: 0,
                },
                EffectView::Delegate { validator: config.validator, amount: native_coin(0) },
            ],
        }),
{
    assert(0int / (price as int) == 0) by (nonlinear_arith)
        requires
            price > 0,
    ;
    purchase_transfers_then_delegates(config, env, info, 0, price, balance);
}

/// A purchase at a positive price, made while the vault holds fewer tokens
/// than the deposit buys, is rejected for want of inventory and emits
/// nothing.
pub proof fn purchase_beyond_inventory_is_rejected(
    config: ConfigView,
    env: EnvView,
    info: MessageInfoView,
    deposit: u128,
    price: u128,
    balance: u128,
)
    requires
        deposit == deposit_of(info.funds),
        price > 0,
        balance < deposit as int / price as int,
    ensures
        ({
            let end = outcome(
                config,
                env,
                info,
                ExecuteMsg::BuyLemons2 {  },
                quoted(price, balance),
            );
            &&& end == StepView::Failed { error: ContractError::InsufficientTokenInventory }
            &&& end.emitted().len() == 0
        }),
{
    reveal_with_fuel(carry_on, 3);
    let answers = quoted(price, balance);
    assert(answers.drop_first() =~= seq![AnswerView::Balance(balance)]);
    assert(answers.drop_first().drop_first() =~= Seq::<AnswerView>::empty());
}

/// A purchase never takes more tokens out of the vault than it holds:
/// where a purchase succeeds, the transfer it emits is within the balance
/// that was answered.
pub proof fn purchase_never_overdraws(
    config: ConfigView,
    env: EnvView,
    info: MessageInfoView,
    price: u128,
    balance: u128,
)
    ensures
        ({
            let end = outcome(
                config,
                env,
                info,
                ExecuteMsg::BuyLemons2 {  },
                quoted(price, balance),
            );
            end matches StepView::Done { effects } ==> (effects[0] matches EffectView::Transfer {
                amount,
                ..
            } && amount <= balance)
        }),
{
    reveal_with_fuel(carry_on, 3);
    let answers = quoted(price, balance);
    assert(answers.drop_first() =~= seq![AnswerView::Balance(balance)]);
    assert(answers.drop_first().drop_first() =~= Seq::<AnswerView>::empty());
}

/// A unit price of zero ends a purchase at once with `InvalidPrice`: the
/// step that receives the price fails, asks for no balance and emits
/// nothing, whatever the deposit and whatever answers would follow.
pub proof fn purchase_at_zero_price_is_rejected(
    config: ConfigView,
    env: EnvView,
    info: MessageInfoView,
    answers: Seq<AnswerView>,
)
    requires
        answers.len() > 0,
        answers[0] == AnswerView::Price(0),
    ensures
        ({
            let rejected = StepView::Failed { error: ContractError::InvalidPrice };
            let waiting = Pending::Price { deposit: deposit_of(info.funds) };
            &&& next_step(config, env, info, waiting, AnswerView::Price(0)) == rejected
            &&& outcome(config, env, info, ExecuteMsg::BuyLemons2 {  }, answers) == rejected
            &&& rejected.emitted().len() == 0
        }),
{
    reveal_with_fuel(carry_on, 3);
}

/// Reward withdrawal and undelegation are the owner's alone: requested by
/// anyone else they are rejected as unauthorized in their first step,
/// before anything is asked, and emit nothing whatever the host answers.
pub proof fn only_owner_withdraws_or_undelegates(
    config: ConfigView,
    env: EnvView,
    info: MessageInfoView,
    amount: u128,
    answers: Seq<AnswerView>,
)
    requires
        info.sender != config.state.owner,
    ensures
        ({
            let rejected = StepView::Failed { error: ContractError::Unauthorized };
            let withdrawal = ExecuteMsg::WithdrawAmount2 { amount };
            let release = ExecuteMsg::StartUndelegation2 { amount };
            &&& first_step(Some(config), env, info, withdrawal) == rejected
            &&& first_step(Some(config), env, info, release) == rejected
            &&& outcome(config, env, info, withdrawal, answers) == rejected
            &&& outcome(config, env, info, release, answers) == rejected
            &&& rejected.emitted().len() == 0
        }),
{
}

/// The owner's reward withdrawal, answered with a delegation, emits in this
/// order: the redirection of rewards to the vault, the withdrawal of the
/// rewards from the validator, one conversion into the native asset for
/// each accumulated reward in the snapshot's own order, and last the payout
/// of the requested amount to the owner. The amount is not held against the
/// rewards.
pub proof fn withdrawal_redirects_withdraws_converts_pays(
    config: ConfigView,
    env: EnvView,
    info: MessageInfoView,
    amount: u128,
    snapshot: DelegationSnapshotView,
)
    requires
        info.sender == config.state.owner,
    ensures
        ({
            let withdrawal = ExecuteMsg::WithdrawAmount2 { amount };
            let end = outcome(config, env, info, withdrawal, delegated(snapshot));
            let effects = end.emitted();
            let rewards = snapshot.accumulated_rewards;
            &&& end is Done
            &&& effects.len() == rewards.len() + 3
            &&& effects[0] == EffectView::SetWithdrawAddress { address: env.contract_address }
            &&& effects[1] == EffectView::WithdrawDelegatorReward { validator: config.validator }
            &&& forall|i: int|
                2 <= i < 2 + rewards.len() ==> #[trigger] effects[i] == (EffectView::Swap {
                    offer_coin: rewards[i - 2],
                    ask_denom: native_denom(),
                })
            &&& effects[effects.len() - 1] == EffectView::Send {
                to_address: config.state.owner,
                amount: native_coin(amount),
            }
        }),
{
    reveal_with_fuel(carry_on, 2);
    assert(delegated(snapshot).drop_first() =~= Seq::<AnswerView>::empty());
}

/// Where each accumulated reward stands in a denomination of its own, the
/// owner's withdrawal converts each of these denominations exactly once:
/// one effect and no second converts it.
pub proof fn each_reward_denomination_is_converted_once(
    config: ConfigView,
    env: EnvView,
    info: MessageInfoView,
    amount: u128,
    snapshot: DelegationSnapshotView,
    reward: int,
)
    requires
        info.sender == config.state.owner,
        snapshot.distinct_denominations(),
        0 <= reward < snapshot.accumulated_rewards.len(),
    ensures
        ({
            let withdrawal = ExecuteMsg::WithdrawAmount2 { amount };
            let effects = outcome(config, env, info, withdrawal, delegated(snapshot)).emitted();
            let denom = snapshot.accumulated_rewards[reward].denom;
            &&& converts(effects[reward + 2], denom)
            &&& forall|i: int|
                0 <= i < effects.len() && #[trigger] converts(effects[i], denom) ==> i == reward
                    + 2
        }),
{
    withdrawal_redirects_withdraws_converts_pays(config, env, info, amount, snapshot);
    let withdrawal = ExecuteMsg::WithdrawAmount2 { amount };
    let effects = outcome(config, env, info, withdrawal, delegated(snapshot)).emitted();
    let denom = snapshot.accumulated_rewards[reward].denom;
    assert forall|i: int| 0 <= i < effects.len() && #[trigger] converts(effects[i], denom) implies i
        == reward + 2 by {
        assert(2 <= i < effects.len() - 1);
        assert(snapshot.reward_denom(i - 2) == snapshot.reward_denom(reward));
    }
}

/// The owner's undelegation emits exactly one effect, the undelegation of
/// the requested amount from the vault's validator. It asks nothing, so
/// the vault's stake has no part in it.
pub proof fn undelegation_emits_one_effect(
    config: ConfigView,
    env: EnvView,
    info: MessageInfoView,
    amount: u128,
    answers: Seq<AnswerView>,
)
    requires
        info.sender == config.state.owner,
    ensures
        outcome(config, env, info, ExecuteMsg::StartUndelegation2 { amount }, answers) == (
        StepView::Done {
            effects: seq![
                EffectView::Undelegate { validator: config.validator, amount: native_coin(amount) },
            ],
        }),
{
}

/// The vault deals with the parties of its configuration and no others.
/// Whatever the request and the answers, each effect of a finished
/// operation moves tokens on the configured ledger, stakes with or releases
/// from or withdraws from the configured validator, redirects rewards to the
/// vault itself, converts into the native asset, or pays the owner; and what
/// is staked, released or paid is counted in the native asset.
pub proof fn effects_stay_with_the_configured_parties(
    config: ConfigView,
    env: EnvView,
    info: MessageInfoView,
    msg: ExecuteMsg,
    answers: Seq<AnswerView>,
    at: int,
)
    requires
        0 <= at < outcome(config, env, info, msg, answers).emitted().len(),
    ensures
        match outcome(config, env, info, msg, answers).emitted()[at] {
            EffectView::Transfer { contract_addr, .. } => contract_addr
                == config.state.token_address,
            EffectView::Delegate { validator, amount } => validator == config.validator
                && amount.denom == native_denom(),
            EffectView::Undelegate { validator, amount } => validator == config.validator
                && amount.denom == native_denom(),
            EffectView::SetWithdrawAddress { address } => address == env.contract_address,
            EffectView::WithdrawDelegatorReward { validator } => validator == config.validator,
            EffectView::Swap { ask_denom, .. } => ask_denom == native_denom(),
            EffectView::Send { to_address, amount } => to_address == config.state.owner
                && amount.denom == native_denom(),
        },
{
    reveal_with_fuel(carry_on, 3);
}

/// A rejected operation changes nothing, so the same request repeats
/// alike: two runs on the same configuration, request and answers end in
/// the same rejection, and neither emits an effect.
pub proof fn rejection_repeats(
    config: ConfigView,
    env: EnvView,
    info: MessageInfoView,
    msg: ExecuteMsg,
    answers: Seq<AnswerView>,
    first: StepView,
    second: StepView,
)
    requires
        first == outcome(config, env, info, msg, answers),
        second == outcome(config, env, info, msg, answers),
        first is Failed,
    ensures
        second == first,
        first.emitted().len() == 0,
        second.emitted().len() == 0,
{
}

} // verus!
