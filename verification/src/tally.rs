//! The tally: once its deadline has passed, a proposal with votes can be
//! finalized, once.

use vstd::prelude::*;

use crate::contexts::DeclareWinner;
use crate::errors::{reported, VoteError};
use crate::state::{Outcome, Proposal, ProposalState};

verus! {

/// Why `declare_winner` refuses at time `now`, if it does. The conditions
/// are tried in this order, and the first that fails names the error.
pub open spec fn declare_winner_rejection(ctx: DeclareWinner, now: i64) -> Option<VoteError> {
    if now < ctx.proposal.deadline {
        Some(VoteError::VotingStillActive)
    } else if ctx.proposal.state != ProposalState::Active {
        Some(VoteError::AlreadyFinalized)
    } else if ctx.proposal.vote_count == 0 {
        Some(VoteError::NoVotesCast)
    } else if ctx.caller != ctx.treasury_config_account.authority {
        Some(VoteError::UnauthorizedAccess)
    } else {
        None
    }
}

/// The records after a successful `declare_winner`: the proposal is
/// finalized and its winner recorded.
pub open spec fn declare_winner_effect(ctx: DeclareWinner) -> DeclareWinner {
    DeclareWinner {
        proposal: Proposal {
            state: ProposalState::Finalized,
            winner_recorded: true,
            ..ctx.proposal
        },
        ..ctx
    }
}

/// What a successful `declare_winner` reports: the proposal and its tally.
pub open spec fn declared_outcome(ctx: DeclareWinner) -> Outcome {
    Outcome { proposal_id: ctx.proposal.id, vote_count: ctx.proposal.vote_count }
}

/// Finalizes the proposal at time `now` and reports its tally, or changes
/// nothing.
pub fn declare_winner(ctx: &mut DeclareWinner, now: i64) -> (result: Result<Outcome, VoteError>)
    ensures
        reported(result) == declare_winner_rejection(*old(ctx), now),
        result is Ok ==> result->Ok_0 == declared_outcome(*old(ctx)),
        result is Ok ==> *final(ctx) == declare_winner_effect(*old(ctx)),
        result is Err ==> *final(ctx) == *old(ctx),
{
    if now < ctx.proposal.deadline {
        return Err(VoteError::VotingStillActive);
    }
    match ctx.proposal.state {
        ProposalState::Active => {},
        ProposalState::Finalized => {
            return Err(VoteError::AlreadyFinalized);
        },
    }
    if ctx.proposal.vote_count == 0 {
        return Err(VoteError::NoVotesCast);
    }
    if !ctx.caller.same(&ctx.treasury_config_account.authority) {
        return Err(VoteError::UnauthorizedAccess);
    }
    ctx.proposal.state = ProposalState::Finalized;
    ctx.proposal.winner_recorded = true;
    Ok(Outcome { proposal_id: ctx.proposal.id, vote_count: ctx.proposal.vote_count })
}

} // verus!
