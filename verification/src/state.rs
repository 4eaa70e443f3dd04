//! What the vault persists, and what the staking subsystem reports of it.

use vstd::prelude::*;

verus! {

/// An amount of one asset.
#[derive(Clone, Debug, PartialEq, Eq)]
pub struct Coin {
    pub denom: String,
    pub amount: u128,
}

/// Mathematical value of a [`Coin`].
pub struct CoinView {
    pub denom: Seq<char>,
    pub amount: u128,
}

impl View for Coin {
    type V = CoinView;

    open spec fn view(&self) -> CoinView {
        CoinView { denom: self.denom@, amount: self.amount }
    }
}

/// The values of a list of coins, in the list's order.
pub open spec fn coins_view(coins: Seq<Coin>) -> Seq<CoinView> {
    Seq::new(coins.len(), |i: int| coins[i]@)
}

/// The identities the vault works with, fixed when it is set up.
#[derive(Clone, Debug, PartialEq, Eq)]
pub struct State {
    /// The only identity that may harvest rewards or unwind the stake.
    pub owner: String,
    /// Where price and balance are asked.
    pub oracle_address: String,
    /// The ledger of the token that the vault sells.
    pub token_address: String,
}

/// Mathematical value of a [`State`].
pub struct StateView {
    pub owner: Seq<char>,
    pub oracle_address: Seq<char>,
    pub token_address: Seq<char>,
}

impl View for State {
    type V = StateView;

    open spec fn view(&self) -> StateView {
        StateView {
            owner: self.owner@,
            oracle_address: self.oracle_address@,
            token_address: self.token_address@,
        }
    }
}

/// Everything the vault persists: its identities and the one validator it
/// delegates to.
#[derive(Clone, Debug, PartialEq, Eq)]
pub struct Config {
    pub state: State,
    pub validator: String,
}

/// Mathematical value of a [`Config`].
pub struct ConfigView {
    pub state: StateView,
    pub validator: Seq<char>,
}

impl View for Config {
    type V = ConfigView;

    open spec fn view(&self) -> ConfigView {
        ConfigView { state: self.state@, validator: self.validator@ }
    }
}

/// The vault's position with its validator: the stake, and the rewards that
/// have accumulated and were not withdrawn yet, one entry per denomination.
#[derive(Clone, Debug, PartialEq, Eq)]
pub struct DelegationSnapshot {
    pub amount: Coin,
    pub accumulated_rewards: Vec<Coin>,
}

/// Mathematical value of a [`DelegationSnapshot`].
pub struct DelegationSnapshotView {
    pub amount: CoinView,
    pub accumulated_rewards: Seq<CoinView>,
}

impl DelegationSnapshotView {
    /// The denomination of the reward at `i`.
    pub open spec fn reward_denom(self, i: int) -> Seq<char> {
        self.accumulated_rewards[i].denom
    }

    /// Each accumulated reward stands in a denomination of its own.
    pub open spec fn distinct_denominations(self) -> bool {
        forall|i: int, j: int|
            0 <= i < j < self.accumulated_rewards.len() ==> #[trigger] self.reward_denom(i)
                != #[trigger] self.reward_denom(j)
    }
}

impl View for DelegationSnapshot {
    type V = DelegationSnapshotView;

    open spec fn view(&self) -> DelegationSnapshotView {
        DelegationSnapshotView {
            amount: self.amount@,
            accumulated_rewards: coins_view(self.accumulated_rewards@),
        }
    }
}

/// The staking subsystem's answer to a delegation query. A vault that never
/// delegated has no snapshot.
#[derive(Clone, Debug, PartialEq, Eq)]
pub struct DelegationResponse {
    pub delegation: Option<DelegationSnapshot>,
}

/// Mathematical value of a [`DelegationResponse`].
pub struct DelegationResponseView {
    pub delegation: Option<DelegationSnapshotView>,
}

impl View for DelegationResponse {
    type V = DelegationResponseView;

    open spec fn view(&self) -> DelegationResponseView {
        DelegationResponseView {
            delegation: match self.delegation {
                Some(snapshot) => Some(snapshot@),
                None => None,
            },
        }
    }
}

} // verus!
