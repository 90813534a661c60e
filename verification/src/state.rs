//! The records the program persists, and the external accounts it reads.

use vstd::prelude::*;

use crate::address::Address;

verus! {

/// The treasury's sale parameters. There is one such record, created once.
#[derive(Clone, Copy, Debug, PartialEq, Eq)]
pub struct TreasuryConfig {
    /// The administrator.
    pub authority: Address,
    /// The governance mint.
    pub x_mint: Address,
    /// Base-currency price of one lot.
    pub sol_price: u64,
    /// Governance tokens in one lot.
    pub tokens_per_purchase: u64,
    /// Bump of the vault's derived address.
    pub bump: u8,
    /// Lots sold so far.
    pub total_units_sold: u64,
}

impl TreasuryConfig {
    /// A configuration sells a positive lot at a positive price.
    pub open spec fn wf(self) -> bool {
        self.sol_price > 0 && self.tokens_per_purchase > 0
    }
}

/// The derived account that collects payments.
#[derive(Clone, Copy, Debug, PartialEq, Eq)]
pub struct Vault {
    pub address: Address,
    pub lamports: u64,
}

/// A paying wallet and its base-currency balance.
#[derive(Clone, Copy, Debug, PartialEq, Eq)]
pub struct Wallet {
    pub address: Address,
    pub lamports: u64,
}

/// A holding of some mint's tokens.
#[derive(Clone, Copy, Debug, PartialEq, Eq)]
pub struct TokenAccount {
    pub mint: Address,
    pub owner: Address,
    pub amount: u64,
}

/// The two states of a proposal. `Finalized` is terminal.
#[derive(Clone, Copy, Debug, PartialEq, Eq, Structural)]
pub enum ProposalState {
    Active,
    Finalized,
}

/// A proposal open for votes until its deadline.
#[derive(Clone, Copy, Debug, PartialEq, Eq)]
pub struct Proposal {
    pub id: u64,
    /// Timestamp from which no vote is accepted.
    pub deadline: i64,
    pub vote_count: u64,
    pub state: ProposalState,
    /// Set when the proposal is finalized.
    pub winner_recorded: bool,
}

impl Proposal {
    /// Identifiers start at 1, and a proposal is finalized exactly when its
    /// winner is recorded, which takes at least one vote.
    pub open spec fn wf(self) -> bool {
        &&& self.id >= 1
        &&& self.winner_recorded <==> self.state == ProposalState::Finalized
        &&& self.state == ProposalState::Finalized ==> self.vote_count > 0
    }

    /// Whether a vote can still be accepted at time `now`.
    pub open spec fn open_at(self, now: i64) -> bool {
        self.state == ProposalState::Active && now < self.deadline
    }
}

/// The identifier the next proposal will get.
#[derive(Clone, Copy, Debug, PartialEq, Eq)]
pub struct ProposalCounter {
    pub next_id: u64,
}

/// Proof that a voter has voted on a proposal. Its existence is the whole
/// of its meaning.
#[derive(Clone, Copy, Debug, PartialEq, Eq)]
pub struct VoteReceipt {
    pub proposal_id: u64,
    pub voter: Address,
}

/// What finalizing a proposal reports: the proposal and its final tally.
#[derive(Clone, Copy, Debug, PartialEq, Eq)]
pub struct Outcome {
    pub proposal_id: u64,
    pub vote_count: u64,
}

} // verus!
