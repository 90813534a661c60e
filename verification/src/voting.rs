//! Voting: one vote per voter and proposal, counted without wrapping.

use vstd::prelude::*;

use crate::contexts::CastVote;
use crate::errors::{reported, VoteError};
use crate::state::{Proposal, ProposalState, VoteReceipt};

verus! {

/// Why `cast_vote` refuses at time `now`, if it does. The conditions are
/// tried in this order, and the first that fails names the error.
pub open spec fn cast_vote_rejection(ctx: CastVote, now: i64) -> Option<VoteError> {
    if !(ctx.proposal is Some && ctx.proposal->0.open_at(now)) {
        Some(VoteError::ProposalEnded)
    } else if ctx.voter_token_account.mint != ctx.treasury_config_account.x_mint {
        Some(VoteError::InvalidMint)
    } else if ctx.voter_token_account.owner != ctx.voter {
        Some(VoteError::InvalidTokenAccountOwner)
    } else if ctx.voter_token_account.amount < 1 {
        Some(VoteError::InsufficientVotingPower)
    } else if ctx.vote_receipt is Some {
        Some(VoteError::VoterAlreadyVoted)
    } else if ctx.proposal->0.vote_count == u64::MAX {
        Some(VoteError::ProposalVotesOverflow)
    } else {
        None
    }
}

/// The records after a successful `cast_vote`: one more vote is counted,
/// whatever the voter holds, and the receipt exists.
pub open spec fn cast_vote_effect(ctx: CastVote) -> CastVote {
    let proposal = ctx.proposal->0;
    CastVote {
        proposal: Some(Proposal { vote_count: (proposal.vote_count + 1) as u64, ..proposal }),
        vote_receipt: Some(VoteReceipt { proposal_id: proposal.id, voter: ctx.voter }),
        ..ctx
    }
}

/// Counts the voter's vote on the proposal at time `now` and leaves the
/// receipt, or changes nothing.
pub fn cast_vote(ctx: &mut CastVote, now: i64) -> (result: Result<(), VoteError>)
    ensures
        reported(result) == cast_vote_rejection(*old(ctx), now),
        result is Ok ==> *final(ctx) == cast_vote_effect(*old(ctx)),
        result is Err ==> *final(ctx) == *old(ctx),
{
    let proposal = match ctx.proposal {
        Some(proposal) => proposal,
        None => {
            return Err(VoteError::ProposalEnded);
        },
    };
    match proposal.state {
        ProposalState::Active => {},
        ProposalState::Finalized => {
            return Err(VoteError::ProposalEnded);
        },
    }
    if now >= proposal.deadline {
        return Err(VoteError::ProposalEnded);
    }
    if !ctx.voter_token_account.mint.same(&ctx.treasury_config_account.x_mint) {
        return Err(VoteError::InvalidMint);
    }
    if !ctx.voter_token_account.owner.same(&ctx.voter) {
        return Err(VoteError::InvalidTokenAccountOwner);
    }
    if ctx.voter_token_account.amount < 1 {
        return Err(VoteError::InsufficientVotingPower);
    }
    if ctx.vote_receipt.is_some() {
        return Err(VoteError::VoterAlreadyVoted);
    }
    if proposal.vote_count == u64::MAX {
        return Err(VoteError::ProposalVotesOverflow);
    }
    ctx.proposal = Some(
        Proposal {
            id: proposal.id,
            deadline: proposal.deadline,
            vote_count: proposal.vote_count + 1,
            state: proposal.state,
            winner_recorded: proposal.winner_recorded,
        },
    );
    ctx.vote_receipt = Some(VoteReceipt { proposal_id: proposal.id, voter: ctx.voter });
    Ok(())
}

} // verus!
