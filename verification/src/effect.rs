//! The instructions a finished operation hands to the host.

use vstd::prelude::*;

use crate::state::Coin;
use crate::state::CoinView;

verus! {

/// One outbound instruction. The host applies the effects of an operation
/// in order and atomically.
#[allow(inconsistent_fields)]
#[derive(Clone, Debug, PartialEq, Eq)]
pub enum Effect {
    /// Move `amount` tokens on the ledger at `contract_addr` from the vault
    /// to `recipient`.
    Transfer { contract_addr: String, recipient: String, amount: u128 },
    /// Stake `amount` with `validator`.
    Delegate { validator: String, amount: Coin },
    /// Start releasing `amount` of the stake with `validator`.
    Undelegate { validator: String, amount: Coin },
    /// Have staking rewards paid out to `address` from now on.
    SetWithdrawAddress { address: String },
    /// Withdraw the rewards accumulated with `validator`.
    WithdrawDelegatorReward { validator: String },
    /// Convert `offer_coin` into the asset `ask_denom`.
    Swap { offer_coin: Coin, ask_denom: String },
    /// Pay `amount` to `to_address`.
    Send { to_address: String, amount: Coin },
}

/// Mathematical value of an [`Effect`].
#[allow(inconsistent_fields)]
pub enum EffectView {
    Transfer { contract_addr: Seq<char>, recipient: Seq<char>, amount: u128 },
    Delegate { validator: Seq<char>, amount: CoinView },
    Undelegate { validator: Seq<char>, amount: CoinView },
    SetWithdrawAddress { address: Seq<char> },
    WithdrawDelegatorReward { validator: Seq<char> },
    Swap { offer_coin: CoinView, ask_denom: Seq<char> },
    Send { to_address: Seq<char>, amount: CoinView },
}

impl View for Effect {
    type V = EffectView;

    open spec fn view(&self) -> EffectView {
        match *self {
            Effect::Transfer { contract_addr, recipient, amount } => EffectView::Transfer {
                contract_addr: contract_addr@,
                recipient: recipient@,
                amount,
            },
            Effect::Delegate { validator, amount } => EffectView::Delegate {
                validator: validator@,
                amount: amount@,
            },
            Effect::Undelegate { validator, amount } => EffectView::Undelegate {
                validator: validator@,
                amount: amount@,
            },
            Effect::SetWithdrawAddress { address } => EffectView::SetWithdrawAddress {
                address: address@,
            },
            Effect::WithdrawDelegatorReward { validator } => EffectView::WithdrawDelegatorReward {
                validator: validator@,
            },
            Effect::Swap { offer_coin, ask_denom } => EffectView::Swap {
                offer_coin: offer_coin@,
                ask_denom: ask_denom@,
            },
            Effect::Send { to_address, amount } => EffectView::Send {
                to_address: to_address@,
                amount: amount@,
            },
        }
    }
}

/// The values of a list of effects, in the list's order.
pub open spec fn effects_view(effects: Seq<Effect>) -> Seq<EffectView> {
    Seq::new(effects.len(), |i: int| effects[i]@)
}

} // verus!
