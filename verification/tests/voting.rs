use solballot::address::Address;
use solballot::contexts::CastVote;
use solballot::errors::VoteError;
use solballot::state::{Proposal, ProposalState, TokenAccount, TreasuryConfig, VoteReceipt};
use solballot::voting::cast_vote;

fn holder(tag: u8) -> Address {
    Address::new([tag; 32])
}

fn ballot(vote_count: u64) -> CastVote {
    CastVote {
        voter: holder(5),
        treasury_config_account: TreasuryConfig {
            authority: holder(1),
            x_mint: holder(2),
            sol_price: 10,
            tokens_per_purchase: 5,
            bump: 255,
            total_units_sold: 0,
        },
        proposal: Some(Proposal {
            id: 1,
            deadline: 3600,
            vote_count,
            state: ProposalState::Active,
            winner_recorded: false,
        }),
        voter_token_account: TokenAccount { mint: holder(2), owner: holder(5), amount: 50 },
        vote_receipt: None,
    }
}

#[test]
fn vote_is_counted_and_receipted() {
    let mut ctx = ballot(0);
    assert_eq!(cast_vote(&mut ctx, 10), Ok(()));
    assert_eq!(ctx.proposal.unwrap().vote_count, 1);
    assert_eq!(ctx.vote_receipt, Some(VoteReceipt { proposal_id: 1, voter: holder(5) }));
    assert_eq!(ctx.proposal.unwrap().state, ProposalState::Active);
    assert_eq!(ctx.proposal.unwrap().deadline, 3600);
    assert_eq!(ctx.voter_token_account.amount, 50);
}

#[test]
fn vote_repeated_is_refused() {
    let mut ctx = ballot(0);
    assert_eq!(cast_vote(&mut ctx, 10), Ok(()));
    let voted = ctx;
    assert_eq!(cast_vote(&mut ctx, 10), Err(VoteError::VoterAlreadyVoted));
    assert_eq!(cast_vote(&mut ctx, 3599), Err(VoteError::VoterAlreadyVoted));
    assert_eq!(ctx, voted);
    assert_eq!(ctx.proposal.unwrap().vote_count, 1);
}

#[test]
fn vote_weighs_one_whatever_the_balance() {
    let mut small = ballot(7);
    small.voter_token_account.amount = 1;
    assert_eq!(cast_vote(&mut small, 10), Ok(()));
    assert_eq!(small.proposal.unwrap().vote_count, 8);
    let mut large = ballot(7);
    large.voter_token_account.amount = u64::MAX;
    assert_eq!(cast_vote(&mut large, 10), Ok(()));
    assert_eq!(large.proposal.unwrap().vote_count, 8);
}

#[test]
fn vote_is_accepted_one_tick_before_the_deadline() {
    let mut ctx = ballot(0);
    assert_eq!(cast_vote(&mut ctx, 3599), Ok(()));
}

#[test]
fn vote_at_the_deadline_is_refused() {
    let mut ctx = ballot(0);
    assert_eq!(cast_vote(&mut ctx, 3600), Err(VoteError::ProposalEnded));
    assert_eq!(ctx, ballot(0));
}

#[test]
fn vote_after_the_deadline_is_refused_whatever_the_tally() {
    for tally in [0, 1, 12, u64::MAX - 1, u64::MAX] {
        let mut ctx = ballot(tally);
        assert_eq!(cast_vote(&mut ctx, 3601), Err(VoteError::ProposalEnded));
        assert_eq!(cast_vote(&mut ctx, i64::MAX), Err(VoteError::ProposalEnded));
        assert_eq!(ctx, ballot(tally));
    }
}

#[test]
fn vote_on_a_missing_proposal_is_refused() {
    let mut ctx = ballot(0);
    ctx.proposal = None;
    assert_eq!(cast_vote(&mut ctx, 10), Err(VoteError::ProposalEnded));
    assert_eq!(ctx.vote_receipt, None);
}

#[test]
fn vote_on_a_finalized_proposal_is_refused() {
    let mut ctx = ballot(3);
    ctx.proposal = Some(Proposal {
        id: 1,
        deadline: 3600,
        vote_count: 3,
        state: ProposalState::Finalized,
        winner_recorded: true,
    });
    let before = ctx;
    assert_eq!(cast_vote(&mut ctx, 10), Err(VoteError::ProposalEnded));
    assert_eq!(ctx, before);
}

#[test]
fn vote_looks_at_the_proposal_first() {
    let mut ctx = ballot(u64::MAX);
    ctx.voter_token_account = TokenAccount { mint: holder(9), owner: holder(8), amount: 0 };
    ctx.vote_receipt = Some(VoteReceipt { proposal_id: 1, voter: holder(5) });
    assert_eq!(cast_vote(&mut ctx, 3600), Err(VoteError::ProposalEnded));
}

#[test]
fn vote_with_an_account_of_another_mint_is_refused() {
    let mut ctx = ballot(0);
    ctx.voter_token_account.mint = holder(9);
    let before = ctx;
    assert_eq!(cast_vote(&mut ctx, 10), Err(VoteError::InvalidMint));
    assert_eq!(ctx, before);
}

#[test]
fn vote_with_an_account_of_another_owner_is_refused() {
    let mut ctx = ballot(0);
    ctx.voter_token_account.owner = holder(8);
    let before = ctx;
    assert_eq!(cast_vote(&mut ctx, 10), Err(VoteError::InvalidTokenAccountOwner));
    assert_eq!(ctx, before);
}

#[test]
fn vote_with_an_empty_account_is_refused() {
    let mut ctx = ballot(0);
    ctx.voter_token_account.amount = 0;
    let before = ctx;
    assert_eq!(cast_vote(&mut ctx, 10), Err(VoteError::InsufficientVotingPower));
    assert_eq!(ctx, before);
}

#[test]
fn vote_looks_at_mint_then_owner_then_balance_then_receipt() {
    let mut ctx = ballot(u64::MAX);
    ctx.vote_receipt = Some(VoteReceipt { proposal_id: 1, voter: holder(5) });
    ctx.voter_token_account = TokenAccount { mint: holder(9), owner: holder(8), amount: 0 };
    assert_eq!(cast_vote(&mut ctx, 10), Err(VoteError::InvalidMint));
    ctx.voter_token_account.mint = holder(2);
    assert_eq!(cast_vote(&mut ctx, 10), Err(VoteError::InvalidTokenAccountOwner));
    ctx.voter_token_account.owner = holder(5);
    assert_eq!(cast_vote(&mut ctx, 10), Err(VoteError::InsufficientVotingPower));
    ctx.voter_token_account.amount = 1;
    assert_eq!(cast_vote(&mut ctx, 10), Err(VoteError::VoterAlreadyVoted));
    ctx.vote_receipt = None;
    assert_eq!(cast_vote(&mut ctx, 10), Err(VoteError::ProposalVotesOverflow));
}

#[test]
fn tally_at_its_maximum_does_not_wrap() {
    let mut ctx = ballot(u64::MAX);
    assert_eq!(cast_vote(&mut ctx, 10), Err(VoteError::ProposalVotesOverflow));
    assert_eq!(ctx.proposal.unwrap().vote_count, u64::MAX);
    assert_eq!(ctx.vote_receipt, None);
    assert_eq!(ctx, ballot(u64::MAX));
}

#[test]
fn tally_reaches_its_maximum() {
    let mut ctx = ballot(u64::MAX - 1);
    assert_eq!(cast_vote(&mut ctx, 10), Ok(()));
    assert_eq!(ctx.proposal.unwrap().vote_count, u64::MAX);
    ctx.vote_receipt = None;
    ctx.voter = holder(6);
    ctx.voter_token_account.owner = holder(6);
    assert_eq!(cast_vote(&mut ctx, 10), Err(VoteError::ProposalVotesOverflow));
    assert_eq!(ctx.proposal.unwrap().vote_count, u64::MAX);
}
