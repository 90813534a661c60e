//! One context per operation: the records the operation reads or writes,
//! and the identity of whoever asks for it.
//!
//! The host looks the records up and stores them back. A slot of type
//! `Option` stands for a record that may not exist yet: `None` is an
//! unallocated slot.

use vstd::prelude::*;

use crate::address::Address;
use crate::authority::DerivedAuthority;
use crate::state::{
    Proposal, ProposalCounter, TokenAccount, TreasuryConfig, Vault, VoteReceipt, Wallet,
};

verus! {

/// Records of `initialize_treasury`.
#[derive(Clone, Copy, Debug, PartialEq, Eq)]
pub struct InitializeTreasury {
    /// The administrator, who signs.
    pub authority: Address,
    /// The slot of the one treasury configuration.
    pub treasury_config_account: Option<TreasuryConfig>,
    /// The governance mint.
    pub x_mint: Address,
    /// The vault's derived address and bump.
    pub sol_vault: DerivedAuthority,
}

/// Records of `buy_tokens`.
#[derive(Clone, Copy, Debug, PartialEq, Eq)]
pub struct BuyTokens {
    pub treasury_config_account: TreasuryConfig,
    /// The vault that is paid.
    pub sol_vault: Vault,
    /// Where the bought tokens go.
    pub buyer_token_account: TokenAccount,
    /// The buyer, who signs and pays.
    pub buyer: Wallet,
}

/// Records of `initialize_counter`.
#[derive(Clone, Copy, Debug, PartialEq, Eq)]
pub struct InitializeCounter {
    /// Who asks.
    pub caller: Address,
    pub treasury_config_account: TreasuryConfig,
    /// The slot of the one proposal counter.
    pub proposal_counter: Option<ProposalCounter>,
}

/// Records of `create_proposal`.
#[derive(Clone, Copy, Debug, PartialEq, Eq)]
pub struct CreateProposal {
    /// Who asks.
    pub caller: Address,
    pub treasury_config_account: TreasuryConfig,
    /// The slot of the one proposal counter.
    pub proposal_counter: Option<ProposalCounter>,
}

/// Records of `cast_vote`.
#[derive(Clone, Copy, Debug, PartialEq, Eq)]
pub struct CastVote {
    /// The voter, who signs.
    pub voter: Address,
    pub treasury_config_account: TreasuryConfig,
    /// The proposal voted on, if there is one under the identifier given.
    pub proposal: Option<Proposal>,
    /// The holding that entitles the voter.
    pub voter_token_account: TokenAccount,
    /// The slot of this voter's receipt for this proposal.
    pub vote_receipt: Option<VoteReceipt>,
}

/// Records of `declare_winner`.
#[derive(Clone, Copy, Debug, PartialEq, Eq)]
pub struct DeclareWinner {
    /// Who asks.
    pub caller: Address,
    pub treasury_config_account: TreasuryConfig,
    pub proposal: Proposal,
}

} // verus!
