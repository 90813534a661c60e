//! The errors an operation can report, one per rejected condition.

use vstd::prelude::*;

verus! {

/// Why an operation was rejected. An operation that returns one of these has
/// changed none of the records it was given.
#[derive(Clone, Copy, Debug, PartialEq, Eq, Structural)]
pub enum VoteError {
    InvalidDeadline,
    ProposalCounterAlreadyInitialized,
    ProposalCounterOverflow,
    ProposalEnded,
    ProposalVotesOverflow,
    VotingStillActive,
    NoVotesCast,
    UnauthorizedAccess,
    TokenMintMismatch,
    VoterAlreadyVoted,
    InvalidTokenAccountOwner,
    InvalidMint,
    AlreadyInitialized,
    InvalidParameter,
    SaleOverflow,
    InsufficientFunds,
    InsufficientVotingPower,
    AlreadyFinalized,
    CounterUninitialized,
}

/// The five families the errors fall into.
#[derive(Clone, Copy, Debug, PartialEq, Eq, Structural)]
pub enum ErrorKind {
    /// An input does not have the required shape.
    Validation,
    /// The records are not in a state that admits the operation.
    StateConflict,
    /// A counter or balance has no room left.
    ResourceLimit,
    /// The caller is not the administrator.
    Authorization,
    /// A balance or a tally is too small.
    Economic,
}

/// The error a result carries, if any.
pub open spec fn reported<T>(result: Result<T, VoteError>) -> Option<VoteError> {
    match result {
        Ok(_) => None,
        Err(error) => Some(error),
    }
}

impl VoteError {
    /// The family of each error.
    pub open spec fn spec_kind(self) -> ErrorKind {
        match self {
            VoteError::InvalidDeadline
            | VoteError::InvalidParameter
            | VoteError::TokenMintMismatch
            | VoteError::InvalidMint
            | VoteError::InvalidTokenAccountOwner => ErrorKind::Validation,
            VoteError::AlreadyInitialized
            | VoteError::ProposalCounterAlreadyInitialized
            | VoteError::CounterUninitialized
            | VoteError::ProposalEnded
            | VoteError::VotingStillActive
            | VoteError::AlreadyFinalized
            | VoteError::VoterAlreadyVoted => ErrorKind::StateConflict,
            VoteError::ProposalCounterOverflow
            | VoteError::ProposalVotesOverflow
            | VoteError::SaleOverflow => ErrorKind::ResourceLimit,
            VoteError::UnauthorizedAccess => ErrorKind::Authorization,
            VoteError::InsufficientFunds
            | VoteError::InsufficientVotingPower
            | VoteError::NoVotesCast => ErrorKind::Economic,
        }
    }

    /// The text shown for each error.
    pub open spec fn spec_message(self) -> Seq<char> {
        match self {
            VoteError::InvalidDeadline => "Deadline must be a future timestamp"@,
            VoteError::ProposalCounterAlreadyInitialized => "Proposal counter has already been initialized"@,
            VoteError::ProposalCounterOverflow => "Maximum proposal limit reached"@,
            VoteError::ProposalEnded => "Voting period has ended for this proposal"@,
            VoteError::ProposalVotesOverflow => "Vote count overflow - maximum votes exceeded"@,
            VoteError::VotingStillActive => "Cannot declare winner while voting is still active"@,
            VoteError::NoVotesCast => "No votes have been cast for this proposal"@,
            VoteError::UnauthorizedAccess => "You are not authorized to perform this action"@,
            VoteError::TokenMintMismatch => "Token mint does not match the expected mint"@,
            VoteError::VoterAlreadyVoted => "Voter has already voted on this proposal"@,
            VoteError::InvalidTokenAccountOwner => "Token account is not owned by the expected wallet"@,
            VoteError::InvalidMint => "Provided mint account is invalid"@,
            VoteError::AlreadyInitialized => "Treasury has already been initialized"@,
            VoteError::InvalidParameter => "Price and lot size must both be greater than zero"@,
            VoteError::SaleOverflow => "Sale overflow - no room left to record this purchase"@,
            VoteError::InsufficientFunds => "Buyer balance does not cover the purchase price"@,
            VoteError::InsufficientVotingPower => "Token account holds no governance tokens"@,
            VoteError::AlreadyFinalized => "Proposal has already been finalized"@,
            VoteError::CounterUninitialized => "Proposal counter has not been initialized"@,
        }
    }

    /// The family this error belongs to.
    pub fn kind(&self) -> (kind: ErrorKind)
        ensures
            kind == self.spec_kind(),
    {
        match self {
            VoteError::InvalidDeadline
            | VoteError::InvalidParameter
            | VoteError::TokenMintMismatch
            | VoteError::InvalidMint
            | VoteError::InvalidTokenAccountOwner => ErrorKind::Validation,
            VoteError::AlreadyInitialized
            | VoteError::ProposalCounterAlreadyInitialized
            | VoteError::CounterUninitialized
            | VoteError::ProposalEnded
            | VoteError::VotingStillActive
            | VoteError::AlreadyFinalized
            | VoteError::VoterAlreadyVoted => ErrorKind::StateConflict,
            VoteError::ProposalCounterOverflow
            | VoteError::ProposalVotesOverflow
            | VoteError::SaleOverflow => ErrorKind::ResourceLimit,
            VoteError::UnauthorizedAccess => ErrorKind::Authorization,
            VoteError::InsufficientFunds
            | VoteError::InsufficientVotingPower
            | VoteError::NoVotesCast => ErrorKind::Economic,
        }
    }

    /// The text to show for this error.
    pub fn message(&self) -> (text: &'static str)
        ensures
            text@ == self.spec_message(),
    {
        match self {
            VoteError::InvalidDeadline => "Deadline must be a future timestamp",
            VoteError::ProposalCounterAlreadyInitialized => "Proposal counter has already been initialized",
            VoteError::ProposalCounterOverflow => "Maximum proposal limit reached",
            VoteError::ProposalEnded => "Voting period has ended for this proposal",
            VoteError::ProposalVotesOverflow => "Vote count overflow - maximum votes exceeded",
            VoteError::VotingStillActive => "Cannot declare winner while voting is still active",
            VoteError::NoVotesCast => "No votes have been cast for this proposal",
            VoteError::UnauthorizedAccess => "You are not authorized to perform this action",
            VoteError::TokenMintMismatch => "Token mint does not match the expected mint",
            VoteError::VoterAlreadyVoted => "Voter has already voted on this proposal",
            VoteError::InvalidTokenAccountOwner => "Token account is not owned by the expected wallet",
            VoteError::InvalidMint => "Provided mint account is invalid",
            VoteError::AlreadyInitialized => "Treasury has already been initialized",
            VoteError::InvalidParameter => "Price and lot size must both be greater than zero",
            VoteError::SaleOverflow => "Sale overflow - no room left to record this purchase",
            VoteError::InsufficientFunds => "Buyer balance does not cover the purchase price",
            VoteError::InsufficientVotingPower => "Token account holds no governance tokens",
            VoteError::AlreadyFinalized => "Proposal has already been finalized",
            VoteError::CounterUninitialized => "Proposal counter has not been initialized",
        }
    }
}

/// The length of each text and its first letter. No two errors agree on
/// both.
spec fn message_shape(error: VoteError) -> (nat, char) {
    match error {
        VoteError::InvalidDeadline => (35, 'D'),
        VoteError::ProposalCounterAlreadyInitialized => (45, 'P'),
        VoteError::ProposalCounterOverflow => (30, 'M'),
        VoteError::ProposalEnded => (41, 'V'),
        VoteError::ProposalVotesOverflow => (44, 'V'),
        VoteError::VotingStillActive => (50, 'C'),
        VoteError::NoVotesCast => (41, 'N'),
        VoteError::UnauthorizedAccess => (45, 'Y'),
        VoteError::TokenMintMismatch => (43, 'T'),
        VoteError::VoterAlreadyVoted => (40, 'V'),
        VoteError::InvalidTokenAccountOwner => (49, 'T'),
        VoteError::InvalidMint => (32, 'P'),
        VoteError::AlreadyInitialized => (37, 'T'),
        VoteError::InvalidParameter => (49, 'P'),
        VoteError::SaleOverflow => (52, 'S'),
        VoteError::InsufficientFunds => (47, 'B'),
        VoteError::InsufficientVotingPower => (40, 'T'),
        VoteError::AlreadyFinalized => (35, 'P'),
        VoteError::CounterUninitialized => (41, 'P'),
    }
}

/// Each text has the length and the first letter that `message_shape`
/// gives.
proof fn lemma_message_shape(error: VoteError)
    ensures
        error.spec_message().len() == message_shape(error).0,
        error.spec_message()[0] == message_shape(error).1,
{
    reveal_strlit("Deadline must be a future timestamp");
    reveal_strlit("Proposal counter has already been initialized");
    reveal_strlit("Maximum proposal limit reached");
    reveal_strlit("Voting period has ended for this proposal");
    reveal_strlit("Vote count overflow - maximum votes exceeded");
    reveal_strlit("Cannot declare winner while voting is still active");
    reveal_strlit("No votes have been cast for this proposal");
    reveal_strlit("You are not authorized to perform this action");
    reveal_strlit("Token mint does not match the expected mint");
    reveal_strlit("Voter has already voted on this proposal");
    reveal_strlit("Token account is not owned by the expected wallet");
    reveal_strlit("Provided mint account is invalid");
    reveal_strlit("Treasury has already been initialized");
    reveal_strlit("Price and lot size must both be greater than zero");
    reveal_strlit("Sale overflow - no room left to record this purchase");
    reveal_strlit("Buyer balance does not cover the purchase price");
    reveal_strlit("Token account holds no governance tokens");
    reveal_strlit("Proposal has already been finalized");
    reveal_strlit("Proposal counter has not been initialized");
}

/// The texts are one to one with the errors: two different errors never
/// share a text.
pub proof fn lemma_messages_are_one_to_one(first: VoteError, second: VoteError)
    requires
        first != second,
    ensures
        first.spec_message() != second.spec_message(),
{
    lemma_message_shape(first);
    lemma_message_shape(second);
}

} // verus!
