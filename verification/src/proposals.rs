//! The proposal registry: one counter hands out identifiers, 1, 2, 3 and so
//! on, and each new proposal starts active with no votes.

use vstd::prelude::*;

use crate::contexts::{CreateProposal, InitializeCounter};
use crate::errors::{reported, VoteError};
use crate::state::{Proposal, ProposalCounter, ProposalState};

verus! {

/// Why `initialize_counter` refuses, if it does: the counter exists
/// already, whoever asks; else the caller is not the administrator.
pub open spec fn initialize_counter_rejection(ctx: InitializeCounter) -> Option<VoteError> {
    if ctx.proposal_counter is Some {
        Some(VoteError::ProposalCounterAlreadyInitialized)
    } else if ctx.caller != ctx.treasury_config_account.authority {
        Some(VoteError::UnauthorizedAccess)
    } else {
        None
    }
}

/// The records after a successful `initialize_counter`: the first
/// identifier to hand out is 1.
pub open spec fn initialize_counter_effect(ctx: InitializeCounter) -> InitializeCounter {
    InitializeCounter { proposal_counter: Some(ProposalCounter { next_id: 1 }), ..ctx }
}

/// Creates the proposal counter.
pub fn initialize_counter(ctx: &mut InitializeCounter) -> (result: Result<(), VoteError>)
    ensures
        reported(result) == initialize_counter_rejection(*old(ctx)),
        result is Ok ==> *final(ctx) == initialize_counter_effect(*old(ctx)),
        result is Err ==> *final(ctx) == *old(ctx),
{
    if ctx.proposal_counter.is_some() {
        return Err(VoteError::ProposalCounterAlreadyInitialized);
    }
    if !ctx.caller.same(&ctx.treasury_config_account.authority) {
        return Err(VoteError::UnauthorizedAccess);
    }
    ctx.proposal_counter = Some(ProposalCounter { next_id: 1 });
    Ok(())
}

/// Why `create_proposal` refuses, if it does. A deadline that is not in the
/// future is refused before anything else is looked at.
pub open spec fn create_proposal_rejection(
    ctx: CreateProposal,
    deadline: i64,
    now: i64,
) -> Option<VoteError> {
    if deadline <= now {
        Some(VoteError::InvalidDeadline)
    } else if ctx.caller != ctx.treasury_config_account.authority {
        Some(VoteError::UnauthorizedAccess)
    } else if ctx.proposal_counter is None {
        Some(VoteError::CounterUninitialized)
    } else if ctx.proposal_counter->0.next_id == u64::MAX {
        Some(VoteError::ProposalCounterOverflow)
    } else {
        None
    }
}

/// The proposal a successful `create_proposal` allocates: it takes the
/// counter's identifier and starts active, with no votes.
pub open spec fn allocated_proposal(ctx: CreateProposal, deadline: i64) -> Proposal {
    Proposal {
        id: ctx.proposal_counter->0.next_id,
        deadline,
        vote_count: 0,
        state: ProposalState::Active,
        winner_recorded: false,
    }
}

/// The records after a successful `create_proposal`: the counter has moved
/// on by one.
pub open spec fn create_proposal_effect(ctx: CreateProposal) -> CreateProposal {
    CreateProposal {
        proposal_counter: Some(
            ProposalCounter { next_id: (ctx.proposal_counter->0.next_id + 1) as u64 },
        ),
        ..ctx
    }
}

/// Allocates a proposal that closes at `deadline`, at time `now`.
pub fn create_proposal(ctx: &mut CreateProposal, deadline: i64, now: i64) -> (result: Result<
    Proposal,
    VoteError,
>)
    ensures
        reported(result) == create_proposal_rejection(*old(ctx), deadline, now),
        result is Ok ==> result->Ok_0 == allocated_proposal(*old(ctx), deadline),
        result is Ok ==> *final(ctx) == create_proposal_effect(*old(ctx)),
        result is Err ==> *final(ctx) == *old(ctx),
{
    if deadline <= now {
        return Err(VoteError::InvalidDeadline);
    }
    if !ctx.caller.same(&ctx.treasury_config_account.authority) {
        return Err(VoteError::UnauthorizedAccess);
    }
    match ctx.proposal_counter {
        None => Err(VoteError::CounterUninitialized),
        Some(counter) => {
            if counter.next_id == u64::MAX {
                return Err(VoteError::ProposalCounterOverflow);
            }
            ctx.proposal_counter = Some(ProposalCounter { next_id: counter.next_id + 1 });
            Ok(
                Proposal {
                    id: counter.next_id,
                    deadline,
                    vote_count: 0,
                    state: ProposalState::Active,
                    winner_recorded: false,
                },
            )
        },
    }
}

} // verus!
