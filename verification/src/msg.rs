//! Requests to the vault, and what the host tells it about a request.

use vstd::prelude::*;

use crate::state::coins_view;
use crate::state::Coin;
use crate::state::CoinView;

verus! {

/// The identities a vault is set up with.
#[derive(Clone, Debug, PartialEq, Eq)]
pub struct InstantiateMsg {
    pub owner: String,
    pub oracle_address: String,
    pub token_address: String,
    pub validator: String,
}

/// The three operations of the vault.
#[derive(Clone, Copy, Debug, PartialEq, Eq, Structural)]
pub enum ExecuteMsg {
    /// Buy tokens with the native funds attached to the request.
    BuyLemons2 {  },
    /// Harvest the staking rewards and pay `amount` to the owner.
    WithdrawAmount2 { amount: u128 },
    /// Start releasing `amount` of the stake.
    StartUndelegation2 { amount: u128 },
}

/// Where the vault itself lives.
#[derive(Clone, Debug, PartialEq, Eq)]
pub struct Env {
    pub contract_address: String,
}

/// Mathematical value of an [`Env`].
pub struct EnvView {
    pub contract_address: Seq<char>,
}

impl View for Env {
    type V = EnvView;

    open spec fn view(&self) -> EnvView {
        EnvView { contract_address: self.contract_address@ }
    }
}

/// Who sent a request, and the funds attached to it.
#[derive(Clone, Debug, PartialEq, Eq)]
pub struct MessageInfo {
    pub sender: String,
    pub funds: Vec<Coin>,
}

/// Mathematical value of a [`MessageInfo`].
pub struct MessageInfoView {
    pub sender: Seq<char>,
    pub funds: Seq<CoinView>,
}

impl View for MessageInfo {
    type V = MessageInfoView;

    open spec fn view(&self) -> MessageInfoView {
        MessageInfoView { sender: self.sender@, funds: coins_view(self.funds@) }
    }
}

} // verus!
