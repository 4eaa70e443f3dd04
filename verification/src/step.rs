//! How an operation advances: a step asks the host for one read, or ends
//! the operation.

use vstd::prelude::*;

use crate::effect::effects_view;
use crate::effect::Effect;
use crate::effect::EffectView;
use crate::error::ContractError;
use crate::state::DelegationResponse;
use crate::state::DelegationResponseView;

verus! {

/// A read that the host performs for the vault.
#[derive(Clone, Debug, PartialEq, Eq)]
pub enum Query {
    /// The current unit price of the token, asked at `contract_addr`.
    Price { contract_addr: String },
    /// The token balance of `address`, asked at `contract_addr`.
    Balance { contract_addr: String, address: String },
    /// The delegation of `delegator` with `validator`.
    Delegation { delegator: String, validator: String },
}

/// Mathematical value of a [`Query`].
pub enum QueryView {
    Price { contract_addr: Seq<char> },
    Balance { contract_addr: Seq<char>, address: Seq<char> },
    Delegation { delegator: Seq<char>, validator: Seq<char> },
}

impl View for Query {
    type V = QueryView;

    open spec fn view(&self) -> QueryView {
        match *self {
            Query::Price { contract_addr } => QueryView::Price { contract_addr: contract_addr@ },
            Query::Balance { contract_addr, address } => QueryView::Balance {
                contract_addr: contract_addr@,
                address: address@,
            },
            Query::Delegation { delegator, validator } => QueryView::Delegation {
                delegator: delegator@,
                validator: validator@,
            },
        }
    }
}

/// What the host learned from a query.
#[derive(Clone, Debug, PartialEq, Eq)]
pub enum Answer {
    /// The unit price, in native units per token.
    Price(u128),
    /// A token balance.
    Balance(u128),
    /// The delegation, if there is one.
    Delegation(DelegationResponse),
    /// The collaborator could not be reached.
    Unavailable,
    /// The collaborator replied, and the reply could not be decoded.
    Malformed,
}

/// Mathematical value of an [`Answer`].
pub enum AnswerView {
    Price(u128),
    Balance(u128),
    Delegation(DelegationResponseView),
    Unavailable,
    Malformed,
}

impl View for Answer {
    type V = AnswerView;

    open spec fn view(&self) -> AnswerView {
        match *self {
            Answer::Price(price) => AnswerView::Price(price),
            Answer::Balance(balance) => AnswerView::Balance(balance),
            Answer::Delegation(response) => AnswerView::Delegation(response@),
            Answer::Unavailable => AnswerView::Unavailable,
            Answer::Malformed => AnswerView::Malformed,
        }
    }
}

/// What an operation remembers while the host answers its query.
#[derive(Clone, Copy, Debug, PartialEq, Eq, Structural)]
pub enum Pending {
    /// A purchase of `deposit` native units waits for the unit price.
    Price { deposit: u128 },
    /// A purchase of `buyable` tokens for `deposit` native units waits for
    /// the vault's token balance.
    Balance { deposit: u128, buyable: u128 },
    /// A withdrawal that pays `amount` to the owner waits for the delegation.
    Rewards { amount: u128 },
}

/// The outcome of one step of an operation.
#[derive(Clone, Debug, PartialEq, Eq)]
pub enum Step {
    /// The host performs `query` and resumes the operation with the answer
    /// and `pending`.
    Ask { query: Query, pending: Pending },
    /// The operation succeeded: the host submits `effects`, in order.
    Done { effects: Vec<Effect> },
    /// The operation is rejected, and nothing is submitted.
    Failed { error: ContractError },
}

/// Mathematical value of a [`Step`].
pub enum StepView {
    Ask { query: QueryView, pending: Pending },
    Done { effects: Seq<EffectView> },
    Failed { error: ContractError },
}

impl View for Step {
    type V = StepView;

    open spec fn view(&self) -> StepView {
        match *self {
            Step::Ask { query, pending } => StepView::Ask { query: query@, pending },
            Step::Done { effects } => StepView::Done { effects: effects_view(effects@) },
            Step::Failed { error } => StepView::Failed { error },
        }
    }
}

impl StepView {
    /// The effects that the host submits after this step: those of a
    /// finished operation, and none otherwise.
    pub open spec fn emitted(self) -> Seq<EffectView> {
        match self {
            StepView::Done { effects } => effects,
            _ => Seq::empty(),
        }
    }
}

} // verus!
