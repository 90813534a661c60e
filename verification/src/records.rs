//! The whole of what the program persists, as one mathematical value, and
//! what each operation makes of it.
//!
//! A proposal with identifier `id` is the entry `id - 1` of the sequence of
//! proposals; the receipts are a set. Each operation is described by the
//! record-level operation of the same name, applied to the records it
//! touches.

use vstd::prelude::*;

use crate::address::Address;
use crate::authority::DerivedAuthority;
use crate::contexts::{
    BuyTokens, CastVote, CreateProposal, DeclareWinner, InitializeCounter, InitializeTreasury,
};
use crate::errors::VoteError;
use crate::proposals::{
    allocated_proposal, create_proposal_effect, create_proposal_rejection,
    initialize_counter_effect, initialize_counter_rejection,
};
use crate::state::{
    Proposal, ProposalCounter, TokenAccount, TreasuryConfig, Vault, VoteReceipt, Wallet,
};
use crate::tally::{declare_winner_effect, declare_winner_rejection};
use crate::treasury::{
    buy_tokens_effect, buy_tokens_rejection, initialize_treasury_effect,
    initialize_treasury_rejection,
};
use crate::voting::{cast_vote_effect, cast_vote_rejection};

verus! {

/// Everything the program persists.
#[verifier::ext_equal]
pub struct Records {
    /// The vault's derived address and bump.
    pub sol_vault: DerivedAuthority,
    /// The authority that mints governance tokens.
    pub mint_authority: DerivedAuthority,
    /// What the vault has collected.
    pub vault_lamports: u64,
    /// The treasury configuration, once created.
    pub treasury: Option<TreasuryConfig>,
    /// The proposal counter, once created.
    pub counter: Option<ProposalCounter>,
    /// The proposals, in the order of their creation.
    pub proposals: Seq<Proposal>,
    /// The receipts of all votes cast.
    pub receipts: Set<VoteReceipt>,
}

/// A request to the program, with everything the caller supplies.
pub enum Operation {
    Initialize { administrator: Address, price_units: u64, tokens_per_purchase: u64, mint: Address },
    Buy { buyer: Wallet, buyer_token_account: TokenAccount },
    InitializeCounter { caller: Address },
    CreateProposal { caller: Address, deadline: i64, now: i64 },
    CastVote { voter: Address, proposal_id: u64, voter_token_account: TokenAccount, now: i64 },
    DeclareWinner { caller: Address, proposal_id: u64, now: i64 },
}

impl Records {
    /// The records of a program that has done nothing yet.
    pub open spec fn empty(sol_vault: DerivedAuthority, mint_authority: DerivedAuthority) -> Records {
        Records {
            sol_vault,
            mint_authority,
            vault_lamports: 0,
            treasury: None,
            counter: None,
            proposals: Seq::empty(),
            receipts: Set::empty(),
        }
    }

    /// The proposal with the given identifier, if it was created.
    pub open spec fn proposal(self, id: u64) -> Option<Proposal> {
        if 1 <= id <= self.proposals.len() {
            Some(self.proposals[id - 1])
        } else {
            None
        }
    }

    /// The receipt of the voter's vote on the proposal, if there is one.
    pub open spec fn receipt(self, proposal_id: u64, voter: Address) -> Option<VoteReceipt> {
        let receipt = VoteReceipt { proposal_id, voter };
        if self.receipts.contains(receipt) {
            Some(receipt)
        } else {
            None
        }
    }

    /// The receipts of the votes cast on one proposal.
    pub open spec fn votes_on(self, proposal_id: u64) -> Set<VoteReceipt> {
        self.receipts.filter(|receipt: VoteReceipt| receipt.proposal_id == proposal_id)
    }

    /// The vault, as an account.
    pub open spec fn vault(self) -> Vault {
        Vault { address: self.sol_vault.address, lamports: self.vault_lamports }
    }

    /// What the records must satisfy, and do after every operation:
    /// nothing exists before the treasury does; the vault holds the price
    /// of every lot sold and nothing else; proposals are numbered 1, 2, 3
    /// and so on, and the counter holds the next number; every receipt is
    /// for a proposal that exists; and a proposal's tally is the number of
    /// receipts for it.
    pub open spec fn wf(self) -> bool {
        &&& self.treasury is None ==> self.counter is None && self.vault_lamports == 0
        &&& self.treasury is Some ==> {
            &&& self.treasury->0.wf()
            &&& self.treasury->0.bump == self.sol_vault.bump
            &&& self.vault_lamports == self.treasury->0.total_units_sold
                * self.treasury->0.sol_price
        }
        &&& self.counter is None ==> self.proposals.len() == 0
        &&& self.counter is Some ==> self.counter->0.next_id == self.proposals.len() + 1
        &&& forall|i: int|
            0 <= i < self.proposals.len() ==> {
                &&& (#[trigger] self.proposals[i]).id == i + 1
                &&& self.proposals[i].wf()
                &&& self.proposals[i].vote_count == self.votes_on((i + 1) as u64).len()
            }
        &&& self.receipts.finite()
        &&& forall|receipt: VoteReceipt| #[trigger]
            self.receipts.contains(receipt) ==> 1 <= receipt.proposal_id <= self.proposals.len()
    }

    /// The records `initialize_treasury` is given.
    pub open spec fn initialize_ctx(self, administrator: Address, mint: Address) -> InitializeTreasury {
        InitializeTreasury {
            authority: administrator,
            treasury_config_account: self.treasury,
            x_mint: mint,
            sol_vault: self.sol_vault,
        }
    }

    /// The records `buy_tokens` is given, once the treasury exists.
    pub open spec fn buy_ctx(self, buyer: Wallet, buyer_token_account: TokenAccount) -> BuyTokens {
        BuyTokens {
            treasury_config_account: self.treasury->0,
            sol_vault: self.vault(),
            buyer_token_account,
            buyer,
        }
    }

    /// The records `initialize_counter` is given, once the treasury exists.
    pub open spec fn counter_ctx(self, caller: Address) -> InitializeCounter {
        InitializeCounter {
            caller,
            treasury_config_account: self.treasury->0,
            proposal_counter: self.counter,
        }
    }

    /// The records `create_proposal` is given, once the treasury exists.
    pub open spec fn create_ctx(self, caller: Address) -> CreateProposal {
        CreateProposal {
            caller,
            treasury_config_account: self.treasury->0,
            proposal_counter: self.counter,
        }
    }

    /// The records `cast_vote` is given, once the treasury exists.
    pub open spec fn vote_ctx(
        self,
        voter: Address,
        proposal_id: u64,
        voter_token_account: TokenAccount,
    ) -> CastVote {
        CastVote {
            voter,
            treasury_config_account: self.treasury->0,
            proposal: self.proposal(proposal_id),
            voter_token_account,
            vote_receipt: self.receipt(proposal_id, voter),
        }
    }

    /// The records `declare_winner` is given for a proposal that exists.
    pub open spec fn tally_ctx(self, caller: Address, proposal_id: u64) -> DeclareWinner {
        DeclareWinner {
            caller,
            treasury_config_account: self.treasury->0,
            proposal: self.proposal(proposal_id)->0,
        }
    }

    /// Why the operation is refused, if it is.
    ///
    /// Where the treasury exists, and for a tally the proposal too, this is
    /// what the record-level operation says. Before the treasury exists
    /// there is no administrator, no governance mint and no proposal: so
    /// nobody is authorized, no token account matches, every vote comes
    /// too late, and a proposal that was never created has no votes.
    pub open spec fn rejection(self, op: Operation) -> Option<VoteError> {
        match op {
            Operation::Initialize { administrator, price_units, tokens_per_purchase, mint } => {
                initialize_treasury_rejection(
                    self.initialize_ctx(administrator, mint),
                    price_units,
                    tokens_per_purchase,
                )
            },
            Operation::Buy { buyer, buyer_token_account } => {
                if self.treasury is None {
                    Some(VoteError::TokenMintMismatch)
                } else {
                    buy_tokens_rejection(self.buy_ctx(buyer, buyer_token_account))
                }
            },
            Operation::InitializeCounter { caller } => {
                if self.treasury is None {
                    Some(VoteError::UnauthorizedAccess)
                } else {
                    initialize_counter_rejection(self.counter_ctx(caller))
                }
            },
            Operation::CreateProposal { caller, deadline, now } => {
                if deadline <= now {
                    Some(VoteError::InvalidDeadline)
                } else if self.treasury is None {
                    Some(VoteError::UnauthorizedAccess)
                } else {
                    create_proposal_rejection(self.create_ctx(caller), deadline, now)
                }
            },
            Operation::CastVote { voter, proposal_id, voter_token_account, now } => {
                if self.treasury is None {
                    Some(VoteError::ProposalEnded)
                } else {
                    cast_vote_rejection(self.vote_ctx(voter, proposal_id, voter_token_account), now)
                }
            },
            Operation::DeclareWinner { caller, proposal_id, now } => {
                if self.treasury is None || self.proposal(proposal_id) is None {
                    Some(VoteError::NoVotesCast)
                } else {
                    declare_winner_rejection(self.tally_ctx(caller, proposal_id), now)
                }
            },
        }
    }

    /// The records after the operation, where it is accepted: what the
    /// record-level operation leaves is stored back, a new proposal is
    /// appended, a new receipt joins the set.
    pub open spec fn commit(self, op: Operation) -> Records {
        match op {
            Operation::Initialize { administrator, price_units, tokens_per_purchase, mint } => {
                let after = initialize_treasury_effect(
                    self.initialize_ctx(administrator, mint),
                    price_units,
                    tokens_per_purchase,
                );
                Records { treasury: after.treasury_config_account, ..self }
            },
            Operation::Buy { buyer, buyer_token_account } => {
                let after = buy_tokens_effect(self.buy_ctx(buyer, buyer_token_account));
                Records {
                    treasury: Some(after.treasury_config_account),
                    vault_lamports: after.sol_vault.lamports,
                    ..self
                }
            },
            Operation::InitializeCounter { caller } => {
                let after = initialize_counter_effect(self.counter_ctx(caller));
                Records { counter: after.proposal_counter, ..self }
            },
            Operation::CreateProposal { caller, deadline, now } => {
                let ctx = self.create_ctx(caller);
                Records {
                    counter: create_proposal_effect(ctx).proposal_counter,
                    proposals: self.proposals.push(allocated_proposal(ctx, deadline)),
                    ..self
                }
            },
            Operation::CastVote { voter, proposal_id, voter_token_account, now } => {
                let after = cast_vote_effect(self.vote_ctx(voter, proposal_id, voter_token_account));
                Records {
                    proposals: self.proposals.update(proposal_id - 1, after.proposal->0),
                    receipts: self.receipts.insert(after.vote_receipt->0),
                    ..self
                }
            },
            Operation::DeclareWinner { caller, proposal_id, now } => {
                let after = declare_winner_effect(self.tally_ctx(caller, proposal_id));
                Records { proposals: self.proposals.update(proposal_id - 1, after.proposal), ..self }
            },
        }
    }

    /// The records after the operation: committed where it is accepted,
    /// untouched where it is refused.
    pub open spec fn step(self, op: Operation) -> Records {
        if self.rejection(op) is None {
            self.commit(op)
        } else {
            self
        }
    }

    /// The records after a sequence of operations, each applied to what the
    /// one before left.
    pub open spec fn run(self, ops: Seq<Operation>) -> Records
        decreases ops.len(),
    {
        if ops.len() == 0 {
            self
        } else {
            self.run(ops.drop_last()).step(ops.last())
        }
    }
}

} // verus!
