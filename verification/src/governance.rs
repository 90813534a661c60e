//! A store that holds every record of the program and runs the operations
//! against them: it looks up the records an operation touches, applies the
//! record-level operation, and stores the result back.

use vstd::prelude::*;

use crate::address::Address;
use crate::authority::{derive_authority, derives_to, DerivedAuthority, SeedTag};
use crate::contexts::{
    BuyTokens, CastVote, CreateProposal, DeclareWinner, InitializeCounter, InitializeTreasury,
};
use crate::errors::{reported, VoteError};
use crate::guarantees::lemma_step_preserves_wf;
use crate::proposals::{create_proposal, initialize_counter};
use crate::records::{Operation, Records};
use crate::state::{
    Outcome, Proposal, ProposalCounter, TokenAccount, TreasuryConfig, Vault, VoteReceipt, Wallet,
};
use crate::tally::declare_winner;
use crate::treasury::{buy_tokens, buy_tokens_effect, initialize_treasury};
use crate::voting::cast_vote;

verus! {

/// The records as they are held in memory.
struct Book {
    sol_vault: DerivedAuthority,
    mint_authority: DerivedAuthority,
    vault_lamports: u64,
    treasury: Option<TreasuryConfig>,
    counter: Option<ProposalCounter>,
    proposals: Vec<Proposal>,
    receipts: Vec<VoteReceipt>,
}

impl Book {
    /// What the book holds: the proposals in their order, the receipts as
    /// a set.
    spec fn records(self) -> Records {
        Records {
            sol_vault: self.sol_vault,
            mint_authority: self.mint_authority,
            vault_lamports: self.vault_lamports,
            treasury: self.treasury,
            counter: self.counter,
            proposals: self.proposals@,
            receipts: self.receipts@.to_set(),
        }
    }

    /// A book with no records in it.
    fn blank(sol_vault: DerivedAuthority, mint_authority: DerivedAuthority) -> (book: Book)
        ensures
            book.records() == Records::empty(sol_vault, mint_authority),
            book.records().wf(),
    {
        let book = Book {
            sol_vault,
            mint_authority,
            vault_lamports: 0,
            treasury: None,
            counter: None,
            proposals: Vec::new(),
            receipts: Vec::new(),
        };
        assert(book.records() =~= Records::empty(sol_vault, mint_authority));
        book
    }
}

/// The program's records, well-formed at all times.
pub struct Governance {
    book: Book,
}

impl View for Governance {
    type V = Records;

    closed spec fn view(&self) -> Records {
        self.book.records()
    }
}

impl Governance {
    #[verifier::type_invariant]
    spec fn well_formed(self) -> bool {
        self.book.records().wf()
    }

    /// Takes the book out to be changed, and leaves a blank one in its
    /// place until the changed book is put back: the store is well-formed
    /// at every moment.
    fn take_book(&mut self) -> (book: Book)
        ensures
            book == old(self).book,
    {
        let mut book = Book::blank(self.book.sol_vault, self.book.mint_authority);
        core::mem::swap(&mut self.book, &mut book);
        book
    }

    /// A store with no records yet, for a program whose vault and mint
    /// authorities are the ones given.
    pub fn with_authorities(sol_vault: DerivedAuthority, mint_authority: DerivedAuthority) -> (store:
        Governance)
        ensures
            store@ == Records::empty(sol_vault, mint_authority),
            store@.wf(),
    {
        Governance { book: Book::blank(sol_vault, mint_authority) }
    }

    /// A store with no records yet, for the program `program_id`: its vault
    /// and mint authorities are derived from that identity. There is no
    /// store where the host derives no address for one of the two.
    pub fn new(program_id: &Address) -> (store: Option<Governance>)
        ensures
            store is Some ==> derives_to(SeedTag::SolVault, *program_id, Some(store->0@.sol_vault)),
            store is Some ==> derives_to(
                SeedTag::MintAuthority,
                *program_id,
                Some(store->0@.mint_authority),
            ),
            store is Some ==> store->0@ == Records::empty(
                store->0@.sol_vault,
                store->0@.mint_authority,
            ),
            store is Some ==> store->0@.wf(),
            store is None ==> derives_to(SeedTag::SolVault, *program_id, None) || derives_to(
                SeedTag::MintAuthority,
                *program_id,
                None,
            ),
    {
        match (
            derive_authority(SeedTag::SolVault, program_id),
            derive_authority(SeedTag::MintAuthority, program_id),
        ) {
            (Some(sol_vault), Some(mint_authority)) => Some(
                Governance::with_authorities(sol_vault, mint_authority),
            ),
            _ => None,
        }
    }

    /// The treasury configuration, once created.
    pub fn treasury(&self) -> (config: Option<TreasuryConfig>)
        ensures
            config == self@.treasury,
    {
        self.book.treasury
    }

    /// The vault and what it has collected.
    pub fn vault(&self) -> (vault: Vault)
        ensures
            vault == self@.vault(),
    {
        Vault { address: self.book.sol_vault.address, lamports: self.book.vault_lamports }
    }

    /// The authority that mints governance tokens.
    pub fn mint_authority(&self) -> (authority: DerivedAuthority)
        ensures
            authority == self@.mint_authority,
    {
        self.book.mint_authority
    }

    /// The proposal counter, once created.
    pub fn counter(&self) -> (counter: Option<ProposalCounter>)
        ensures
            counter == self@.counter,
    {
        self.book.counter
    }

    /// The proposal with the given identifier, if it was created.
    pub fn proposal(&self, id: u64) -> (found: Option<Proposal>)
        ensures
            found == self@.proposal(id),
    {
        if id >= 1 && id - 1 < self.book.proposals.len() as u64 {
            Some(self.book.proposals[(id - 1) as usize])
        } else {
            None
        }
    }

    /// The receipt of the voter's vote on the proposal, if there is one.
    pub fn receipt(&self, proposal_id: u64, voter: &Address) -> (found: Option<VoteReceipt>)
        ensures
            found == self@.receipt(proposal_id, *voter),
    {
        let ghost wanted = VoteReceipt { proposal_id, voter: *voter };
        let mut i: usize = 0;
        while i < self.book.receipts.len()
            invariant
                i <= self.book.receipts.len(),
                wanted == (VoteReceipt { proposal_id, voter: *voter }),
                forall|j: int| 0 <= j < i ==> self.book.receipts@[j] != wanted,
            decreases self.book.receipts.len() - i,
        {
            let receipt = self.book.receipts[i];
            if receipt.proposal_id == proposal_id && receipt.voter.same(voter) {
                assert(self.book.receipts@[i as int] == wanted);
                assert(self.book.receipts@.contains(wanted));
                return Some(receipt);
            }
            i += 1;
        }
        assert(!self.book.receipts@.contains(wanted));
        None
    }

    /// Whether the voter has voted on the proposal.
    pub fn has_voted(&self, proposal_id: u64, voter: &Address) -> (voted: bool)
        ensures
            voted == self@.receipts.contains((VoteReceipt { proposal_id, voter: *voter })),
    {
        self.receipt(proposal_id, voter).is_some()
    }

    /// Creates the treasury configuration, once.
    pub fn initialize(
        &mut self,
        administrator: Address,
        price_units: u64,
        tokens_per_purchase: u64,
        mint: Address,
    ) -> (result: Result<(), VoteError>)
        ensures
            reported(result) == old(self)@.rejection(
                (Operation::Initialize { administrator, price_units, tokens_per_purchase, mint }),
            ),
            final(self)@ == old(self)@.step(
                (Operation::Initialize { administrator, price_units, tokens_per_purchase, mint }),
            ),
            final(self)@.wf(),
    {
        proof {
            use_type_invariant(&*self);
        }
        let ghost op = Operation::Initialize { administrator, price_units, tokens_per_purchase, mint };
        let mut ctx = InitializeTreasury {
            authority: administrator,
            treasury_config_account: self.book.treasury,
            x_mint: mint,
            sol_vault: self.book.sol_vault,
        };
        match initialize_treasury(&mut ctx, price_units, tokens_per_purchase) {
            Err(error) => Err(error),
            Ok(()) => {
                let mut book = self.take_book();
                book.treasury = ctx.treasury_config_account;
                proof {
                    lemma_step_preserves_wf(old(self)@, op);
                    assert(book.records() =~= old(self)@.step(op));
                }
                self.book = book;
                Ok(())
            },
        }
    }

    /// Sells one lot to the buyer, or changes nothing: neither the records
    /// nor the buyer's wallet nor the buyer's token account.
    pub fn buy(&mut self, buyer: &mut Wallet, buyer_token_account: &mut TokenAccount) -> (result:
        Result<(), VoteError>)
        ensures
            reported(result) == old(self)@.rejection(
                (Operation::Buy {
                    buyer: *old(buyer),
                    buyer_token_account: *old(buyer_token_account),
                }),
            ),
            final(self)@ == old(self)@.step(
                (Operation::Buy {
                    buyer: *old(buyer),
                    buyer_token_account: *old(buyer_token_account),
                }),
            ),
            final(self)@.wf(),
            result is Ok ==> *final(buyer) == buy_tokens_effect(
                old(self)@.buy_ctx(*old(buyer), *old(buyer_token_account)),
            ).buyer,
            result is Ok ==> *final(buyer_token_account) == buy_tokens_effect(
                old(self)@.buy_ctx(*old(buyer), *old(buyer_token_account)),
            ).buyer_token_account,
            result is Err ==> *final(buyer) == *old(buyer),
            result is Err ==> *final(buyer_token_account) == *old(buyer_token_account),
    {
        proof {
            use_type_invariant(&*self);
        }
        let ghost op = Operation::Buy { buyer: *buyer, buyer_token_account: *buyer_token_account };
        let config = match self.book.treasury {
            Some(config) => config,
            None => {
                return Err(VoteError::TokenMintMismatch);
            },
        };
        let mut ctx = BuyTokens {
            treasury_config_account: config,
            sol_vault: self.vault(),
            buyer_token_account: *buyer_token_account,
            buyer: *buyer,
        };
        match buy_tokens(&mut ctx) {
            Err(error) => Err(error),
            Ok(()) => {
                let mut book = self.take_book();
                book.treasury = Some(ctx.treasury_config_account);
                book.vault_lamports = ctx.sol_vault.lamports;
                proof {
                    lemma_step_preserves_wf(old(self)@, op);
                    assert(book.records() =~= old(self)@.step(op));
                }
                self.book = book;
                *buyer = ctx.buyer;
                *buyer_token_account = ctx.buyer_token_account;
                Ok(())
            },
        }
    }

    /// Creates the proposal counter, once.
    pub fn initialize_counter(&mut self, caller: Address) -> (result: Result<(), VoteError>)
        ensures
            reported(result) == old(self)@.rejection((Operation::InitializeCounter { caller })),
            final(self)@ == old(self)@.step((Operation::InitializeCounter { caller })),
            final(self)@.wf(),
    {
        proof {
            use_type_invariant(&*self);
        }
        let ghost op = Operation::InitializeCounter { caller };
        let config = match self.book.treasury {
            Some(config) => config,
            None => {
                return Err(VoteError::UnauthorizedAccess);
            },
        };
        let mut ctx = InitializeCounter {
            caller,
            treasury_config_account: config,
            proposal_counter: self.book.counter,
        };
        match initialize_counter(&mut ctx) {
            Err(error) => Err(error),
            Ok(()) => {
                let mut book = self.take_book();
                book.counter = ctx.proposal_counter;
                proof {
                    lemma_step_preserves_wf(old(self)@, op);
                    assert(book.records() =~= old(self)@.step(op));
                }
                self.book = book;
                Ok(())
            },
        }
    }

    /// Creates a proposal that closes at `deadline`, at time `now`, and
    /// returns its identifier: one more than the number of proposals
    /// created before.
    pub fn create_proposal(&mut self, caller: Address, deadline: i64, now: i64) -> (result: Result<
        u64,
        VoteError,
    >)
        ensures
            reported(result) == old(self)@.rejection(
                (Operation::CreateProposal { caller, deadline, now }),
            ),
            final(self)@ == old(self)@.step((Operation::CreateProposal { caller, deadline, now })),
            final(self)@.wf(),
            result is Ok ==> result->Ok_0 == old(self)@.proposals.len() + 1,
    {
        proof {
            use_type_invariant(&*self);
        }
        let ghost op = Operation::CreateProposal { caller, deadline, now };
        if deadline <= now {
            return Err(VoteError::InvalidDeadline);
        }
        let config = match self.book.treasury {
            Some(config) => config,
            None => {
                return Err(VoteError::UnauthorizedAccess);
            },
        };
        let mut ctx = CreateProposal {
            caller,
            treasury_config_account: config,
            proposal_counter: self.book.counter,
        };
        match create_proposal(&mut ctx, deadline, now) {
            Err(error) => Err(error),
            Ok(proposal) => {
                let mut book = self.take_book();
                book.counter = ctx.proposal_counter;
                book.proposals.push(proposal);
                proof {
                    lemma_step_preserves_wf(old(self)@, op);
                    assert(book.records() =~= old(self)@.step(op));
                }
                self.book = book;
                Ok(proposal.id)
            },
        }
    }

    /// Counts the voter's vote on the proposal at time `now`, once.
    pub fn cast_vote(
        &mut self,
        voter: Address,
        proposal_id: u64,
        voter_token_account: &TokenAccount,
        now: i64,
    ) -> (result: Result<(), VoteError>)
        ensures
            reported(result) == old(self)@.rejection(
                (Operation::CastVote {
                    voter,
                    proposal_id,
                    voter_token_account: *voter_token_account,
                    now,
                }),
            ),
            final(self)@ == old(self)@.step(
                (Operation::CastVote {
                    voter,
                    proposal_id,
                    voter_token_account: *voter_token_account,
                    now,
                }),
            ),
            final(self)@.wf(),
    {
        proof {
            use_type_invariant(&*self);
        }
        let ghost op = Operation::CastVote {
            voter,
            proposal_id,
            voter_token_account: *voter_token_account,
            now,
        };
        let config = match self.book.treasury {
            Some(config) => config,
            None => {
                return Err(VoteError::ProposalEnded);
            },
        };
        let mut ctx = CastVote {
            voter,
            treasury_config_account: config,
            proposal: self.proposal(proposal_id),
            voter_token_account: *voter_token_account,
            vote_receipt: self.receipt(proposal_id, &voter),
        };
        match cast_vote(&mut ctx, now) {
            Err(error) => Err(error),
            Ok(()) => {
                let mut book = self.take_book();
                match (ctx.proposal, ctx.vote_receipt) {
                    (Some(proposal), Some(receipt)) => {
                        let ghost receipts = book.receipts@;
                        assert(proposal_id - 1 < book.proposals.len());
                        book.proposals.set((proposal_id - 1) as usize, proposal);
                        book.receipts.push(receipt);
                        proof {
                            receipts.lemma_push_to_set_commute(receipt);
                        }
                    },
                    _ => {},
                }
                proof {
                    lemma_step_preserves_wf(old(self)@, op);
                    assert(book.records() =~= old(self)@.step(op));
                }
                self.book = book;
                Ok(())
            },
        }
    }

    /// Finalizes the proposal at time `now` and reports its tally.
    pub fn declare_winner(&mut self, caller: Address, proposal_id: u64, now: i64) -> (result:
        Result<Outcome, VoteError>)
        ensures
            reported(result) == old(self)@.rejection(
                (Operation::DeclareWinner { caller, proposal_id, now }),
            ),
            final(self)@ == old(self)@.step((Operation::DeclareWinner { caller, proposal_id, now })),
            final(self)@.wf(),
            result is Ok ==> result->Ok_0 == (Outcome {
                proposal_id,
                vote_count: old(self)@.proposal(proposal_id)->0.vote_count,
            }),
    {
        proof {
            use_type_invariant(&*self);
        }
        let ghost op = Operation::DeclareWinner { caller, proposal_id, now };
        let (config, proposal) = match (self.book.treasury, self.proposal(proposal_id)) {
            (Some(config), Some(proposal)) => (config, proposal),
            _ => {
                return Err(VoteError::NoVotesCast);
            },
        };
        let mut ctx = DeclareWinner { caller, treasury_config_account: config, proposal };
        match declare_winner(&mut ctx, now) {
            Err(error) => Err(error),
            Ok(outcome) => {
                let mut book = self.take_book();
                assert(proposal_id - 1 < book.proposals.len());
                book.proposals.set((proposal_id - 1) as usize, ctx.proposal);
                proof {
                    lemma_step_preserves_wf(old(self)@, op);
                    assert(book.records() =~= old(self)@.step(op));
                }
                self.book = book;
                Ok(outcome)
            },
        }
    }
}

} // verus!
