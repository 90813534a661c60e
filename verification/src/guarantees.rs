//! What holds of the program as a whole, whatever is asked of it and in
//! whatever order.

use vstd::prelude::*;
use vstd::set_lib::lemma_len_subset;

use crate::contexts::{BuyTokens, CastVote, CreateProposal, DeclareWinner};
use crate::errors::VoteError;
use crate::proposals::create_proposal_rejection;
use crate::records::{Operation, Records};
use crate::state::{ProposalState, VoteReceipt};
use crate::tally::{declare_winner_effect, declare_winner_rejection};
use crate::treasury::{buy_tokens_effect, buy_tokens_rejection};
use crate::voting::{cast_vote_effect, cast_vote_rejection};

verus! {

/// A receipt that joins the set adds one to the votes on its own proposal
/// and nothing to the votes on any other.
proof fn lemma_votes_on_insert(records: Records, receipt: VoteReceipt, proposal_id: u64)
    requires
        records.receipts.finite(),
        !records.receipts.contains(receipt),
    ensures
        (Records { receipts: records.receipts.insert(receipt), ..records }).votes_on(
            proposal_id,
        ).len() == records.votes_on(proposal_id).len() + if receipt.proposal_id == proposal_id {
            1int
        } else {
            0int
        },
{
    let after = Records { receipts: records.receipts.insert(receipt), ..records };
    lemma_len_subset(records.votes_on(proposal_id), records.receipts);
    if receipt.proposal_id == proposal_id {
        assert(after.votes_on(proposal_id) =~= records.votes_on(proposal_id).insert(receipt));
    } else {
        assert(after.votes_on(proposal_id) =~= records.votes_on(proposal_id));
    }
}

/// Well-formed records stay well-formed under every operation, accepted or
/// refused. In particular a proposal's tally always equals the number of
/// receipts for it, and the vault always holds the price of every lot sold.
pub proof fn lemma_step_preserves_wf(records: Records, op: Operation)
    requires
        records.wf(),
    ensures
        records.step(op).wf(),
{
    let after = records.step(op);
    if records.rejection(op) is None {
        match op {
            Operation::Initialize { .. } => {
                assert(after.proposals == records.proposals);
                assert(after.receipts == records.receipts);
            },
            Operation::Buy { .. } => {
                let config = records.treasury->0;
                assert((config.total_units_sold + 1) * config.sol_price
                    == config.total_units_sold * config.sol_price + config.sol_price)
                    by (nonlinear_arith);
                assert(after.proposals == records.proposals);
                assert(after.receipts == records.receipts);
            },
            Operation::InitializeCounter { .. } => {
                assert(after.proposals == records.proposals);
                assert(after.receipts == records.receipts);
            },
            Operation::CreateProposal { .. } => {
                let created = after.proposals.last();
                assert(after.receipts == records.receipts);
                assert(after.votes_on(created.id) =~= Set::<VoteReceipt>::empty());
                assert forall|i: int| 0 <= i < after.proposals.len() implies {
                    &&& (#[trigger] after.proposals[i]).id == i + 1
                    &&& after.proposals[i].wf()
                    &&& after.proposals[i].vote_count == after.votes_on((i + 1) as u64).len()
                } by {
                    if i < records.proposals.len() {
                        assert(after.proposals[i] == records.proposals[i]);
                        assert(after.votes_on((i + 1) as u64) == records.votes_on((i + 1) as u64));
                    }
                }
            },
            Operation::CastVote { voter, proposal_id, .. } => {
                let receipt = VoteReceipt { proposal_id, voter };
                assert(records.proposals[proposal_id - 1].id == proposal_id);
                assert(after.receipts == records.receipts.insert(receipt));
                assert forall|i: int| 0 <= i < after.proposals.len() implies {
                    &&& (#[trigger] after.proposals[i]).id == i + 1
                    &&& after.proposals[i].wf()
                    &&& after.proposals[i].vote_count == after.votes_on((i + 1) as u64).len()
                } by {
                    lemma_votes_on_insert(records, receipt, (i + 1) as u64);
                    assert(records.proposals[i].wf());
                }
            },
            Operation::DeclareWinner { proposal_id, .. } => {
                assert(after.receipts == records.receipts);
                assert forall|i: int| 0 <= i < after.proposals.len() implies {
                    &&& (#[trigger] after.proposals[i]).id == i + 1
                    &&& after.proposals[i].wf()
                    &&& after.proposals[i].vote_count == after.votes_on((i + 1) as u64).len()
                } by {
                    assert(records.proposals[i].wf());
                    assert(after.votes_on((i + 1) as u64) == records.votes_on((i + 1) as u64));
                }
            },
        }
    }
}

/// What no operation undoes. Between `before` and `after` the authorities
/// are the same; the vault has lost nothing; the treasury, once created,
/// exists with the same administrator, mint, price, lot size and bump, and
/// has not sold less; the counter, once created, exists and has not gone
/// back; every proposal is still there under its identifier and deadline,
/// with no fewer votes, and unchanged if it was finalized; and every
/// receipt is still there.
pub open spec fn persists(before: Records, after: Records) -> bool {
    &&& after.sol_vault == before.sol_vault
    &&& after.mint_authority == before.mint_authority
    &&& before.vault_lamports <= after.vault_lamports
    &&& before.treasury is Some ==> {
        &&& after.treasury is Some
        &&& after.treasury->0.authority == before.treasury->0.authority
        &&& after.treasury->0.x_mint == before.treasury->0.x_mint
        &&& after.treasury->0.sol_price == before.treasury->0.sol_price
        &&& after.treasury->0.tokens_per_purchase == before.treasury->0.tokens_per_purchase
        &&& after.treasury->0.bump == before.treasury->0.bump
        &&& before.treasury->0.total_units_sold <= after.treasury->0.total_units_sold
    }
    &&& before.counter is Some ==> {
        &&& after.counter is Some
        &&& before.counter->0.next_id <= after.counter->0.next_id
    }
    &&& before.proposals.len() <= after.proposals.len()
    &&& forall|i: int|
        0 <= i < before.proposals.len() ==> {
            &&& (#[trigger] after.proposals[i]).id == before.proposals[i].id
            &&& after.proposals[i].deadline == before.proposals[i].deadline
            &&& before.proposals[i].vote_count <= after.proposals[i].vote_count
            &&& before.proposals[i].state == ProposalState::Finalized ==> after.proposals[i]
                == before.proposals[i]
        }
    &&& before.receipts.subset_of(after.receipts)
}

/// No single operation undoes anything.
pub proof fn lemma_step_persists(records: Records, op: Operation)
    requires
        records.wf(),
    ensures
        persists(records, records.step(op)),
{
}

/// No sequence of operations undoes anything, and it leaves the records
/// well-formed.
pub proof fn lemma_run_persists(records: Records, ops: Seq<Operation>)
    requires
        records.wf(),
    ensures
        records.run(ops).wf(),
        persists(records, records.run(ops)),
    decreases ops.len(),
{
    if ops.len() > 0 {
        let middle = records.run(ops.drop_last());
        lemma_run_persists(records, ops.drop_last());
        lemma_step_preserves_wf(middle, ops.last());
        lemma_step_persists(middle, ops.last());
        let last = middle.step(ops.last());
        assert forall|i: int| 0 <= i < records.proposals.len() implies {
            &&& (#[trigger] last.proposals[i]).id == records.proposals[i].id
            &&& last.proposals[i].deadline == records.proposals[i].deadline
            &&& records.proposals[i].vote_count <= last.proposals[i].vote_count
            &&& records.proposals[i].state == ProposalState::Finalized ==> last.proposals[i]
                == records.proposals[i]
        } by {
            assert(middle.proposals[i].id == records.proposals[i].id);
        }
    }
}

/// The treasury is initialized once in the life of the program: after an
/// accepted initialization, whatever operations follow, every further
/// initialization is refused as `AlreadyInitialized`, whatever its
/// parameters.
pub proof fn lemma_initialize_only_once(
    records: Records,
    first: Operation,
    later: Seq<Operation>,
    again: Operation,
)
    requires
        records.wf(),
        first is Initialize,
        again is Initialize,
        records.rejection(first) is None,
    ensures
        records.step(first).run(later).rejection(again) == Some(VoteError::AlreadyInitialized),
{
    lemma_step_preserves_wf(records, first);
    lemma_run_persists(records.step(first), later);
}

/// Where no treasury exists yet, an initialization is accepted exactly
/// when its price and its lot size are both positive.
pub proof fn lemma_first_initialize_is_accepted(records: Records, first: Operation)
    requires
        first is Initialize,
        records.treasury is None,
    ensures
        records.rejection(first) is None <==> first->price_units > 0 && first->tokens_per_purchase
            > 0,
        records.rejection(first) is Some ==> records.rejection(first) == Some(
            VoteError::InvalidParameter,
        ),
{
}

/// The proposal counter is initialized once in the life of the program:
/// after an accepted initialization, whatever operations follow, every
/// further one is refused as `ProposalCounterAlreadyInitialized`, whoever
/// asks.
pub proof fn lemma_counter_initialized_only_once(
    records: Records,
    first: Operation,
    later: Seq<Operation>,
    again: Operation,
)
    requires
        records.wf(),
        first is InitializeCounter,
        again is InitializeCounter,
        records.rejection(first) is None,
    ensures
        records.step(first).run(later).rejection(again) == Some(
            VoteError::ProposalCounterAlreadyInitialized,
        ),
{
    lemma_step_preserves_wf(records, first);
    lemma_run_persists(records.step(first), later);
}

/// A purchase is all or nothing. Where `after` is what `buy_tokens` leaves
/// of `before`, either the buyer has paid exactly the price, the vault has
/// received it, the buyer's token account holds exactly one lot more and
/// one more lot is counted as sold; or every record is as it was.
pub proof fn lemma_purchase_is_all_or_nothing(before: BuyTokens, after: BuyTokens)
    requires
        buy_tokens_rejection(before) is None ==> after == buy_tokens_effect(before),
        buy_tokens_rejection(before) is Some ==> after == before,
    ensures
        after == before || {
            &&& after.buyer.lamports == before.buyer.lamports
                - before.treasury_config_account.sol_price
            &&& after.sol_vault.lamports == before.sol_vault.lamports
                + before.treasury_config_account.sol_price
            &&& after.buyer_token_account.amount == before.buyer_token_account.amount
                + before.treasury_config_account.tokens_per_purchase
            &&& after.treasury_config_account.total_units_sold
                == before.treasury_config_account.total_units_sold + 1
        },
{
}

/// Identifiers are dense and increasing from 1: an accepted creation gives
/// the new proposal the number of proposals created before, plus one, and
/// whatever operations follow, the proposal is found under that identifier
/// with the deadline it was created with.
pub proof fn lemma_identifiers_count_up(
    records: Records,
    first: Operation,
    later: Seq<Operation>,
)
    requires
        records.wf(),
        first is CreateProposal,
        records.rejection(first) is None,
    ensures
        records.step(first).proposals.len() == records.proposals.len() + 1,
        records.step(first).run(later).proposal((records.proposals.len() + 1) as u64) is Some,
        records.step(first).run(later).proposal((records.proposals.len() + 1) as u64)->0.id
            == records.proposals.len() + 1,
        records.step(first).run(later).proposal((records.proposals.len() + 1) as u64)->0.deadline
            == first->deadline,
{
    let created = records.step(first);
    lemma_step_preserves_wf(records, first);
    lemma_run_persists(created, later);
    let index = records.proposals.len() as int;
    assert(created.proposals[index].deadline == first->deadline);
    assert(created.run(later).proposals[index].deadline == created.proposals[index].deadline);
}

/// A proposal whose deadline is not in the future is refused as
/// `InvalidDeadline`, whoever asks and whatever the records hold.
pub proof fn lemma_past_deadline_is_refused(records: Records, op: Operation)
    requires
        op is CreateProposal,
        op->deadline <= op->CreateProposal_now,
    ensures
        records.rejection(op) == Some(VoteError::InvalidDeadline),
{
}

/// The same of the record-level operation.
pub proof fn lemma_past_deadline_is_refused_on_records(ctx: CreateProposal, deadline: i64, now: i64)
    requires
        deadline <= now,
    ensures
        create_proposal_rejection(ctx, deadline, now) == Some(VoteError::InvalidDeadline),
{
}

/// Whether a vote has all it needs but for the receipt and room in the
/// tally: the treasury exists, the proposal exists and is open at the time
/// of the vote, and the token account is of the governance mint, owned by
/// the voter, and not empty.
pub open spec fn entitled(records: Records, vote: Operation) -> bool {
    &&& vote is CastVote
    &&& records.treasury is Some
    &&& records.proposal(vote->CastVote_proposal_id) is Some
    &&& records.proposal(vote->CastVote_proposal_id)->0.open_at(vote->CastVote_now)
    &&& vote->voter_token_account.mint == records.treasury->0.x_mint
    &&& vote->voter_token_account.owner == vote->voter
    &&& vote->voter_token_account.amount >= 1
}

/// A voter votes on a proposal at most once. After an accepted vote,
/// whatever operations follow, every further vote of the same voter on the
/// same proposal is refused, with whatever token account and at whatever
/// time: as `VoterAlreadyVoted` where the vote is entitled, and else for
/// the reason that comes first.
pub proof fn lemma_vote_only_once(
    records: Records,
    first: Operation,
    later: Seq<Operation>,
    again: Operation,
)
    requires
        records.wf(),
        first is CastVote,
        again is CastVote,
        again->voter == first->voter,
        again->CastVote_proposal_id == first->CastVote_proposal_id,
        records.rejection(first) is None,
    ensures
        records.step(first).run(later).rejection(again) is Some,
        entitled(records.step(first).run(later), again) ==> records.step(first).run(
            later,
        ).rejection(again) == Some(VoteError::VoterAlreadyVoted),
{
    let voted = records.step(first);
    lemma_step_preserves_wf(records, first);
    lemma_run_persists(voted, later);
    let receipt = VoteReceipt { proposal_id: first->CastVote_proposal_id, voter: first->voter };
    assert(records.proposals[first->CastVote_proposal_id - 1].id == first->CastVote_proposal_id);
    assert(voted.receipts.contains(receipt));
    assert(voted.run(later).receipts.contains(receipt));
}

/// No vote is accepted from the deadline on, however many votes the
/// proposal has: a vote at a time not before the deadline is refused as
/// `ProposalEnded`, and so is a vote on a proposal that does not exist.
pub proof fn lemma_late_vote_is_refused(records: Records, vote: Operation)
    requires
        vote is CastVote,
        records.proposal(vote->CastVote_proposal_id) is Some ==> vote->CastVote_now
            >= records.proposal(vote->CastVote_proposal_id)->0.deadline,
    ensures
        records.rejection(vote) == Some(VoteError::ProposalEnded),
{
}

/// The same of the record-level operation.
pub proof fn lemma_late_vote_is_refused_on_records(ctx: CastVote, now: i64)
    requires
        ctx.proposal is Some ==> now >= ctx.proposal->0.deadline,
    ensures
        cast_vote_rejection(ctx, now) == Some(VoteError::ProposalEnded),
{
}

/// The tally never wraps. An accepted vote adds exactly one to the
/// proposal's tally and a refused one leaves it as it was; at the largest
/// tally that can be held every vote is refused, an entitled one without a
/// receipt as `ProposalVotesOverflow`.
pub proof fn lemma_tally_never_wraps(records: Records, vote: Operation)
    requires
        records.wf(),
        vote is CastVote,
        records.proposal(vote->CastVote_proposal_id) is Some,
    ensures
        records.rejection(vote) is None ==> records.step(vote).proposal(
            vote->CastVote_proposal_id,
        )->0.vote_count == records.proposal(vote->CastVote_proposal_id)->0.vote_count + 1,
        records.rejection(vote) is Some ==> records.step(vote) == records,
        records.proposal(vote->CastVote_proposal_id)->0.vote_count == u64::MAX
            ==> records.rejection(vote) is Some,
        records.proposal(vote->CastVote_proposal_id)->0.vote_count == u64::MAX && entitled(
            records,
            vote,
        ) && records.receipt(vote->CastVote_proposal_id, vote->voter) is None
            ==> records.rejection(vote) == Some(VoteError::ProposalVotesOverflow),
{
}

/// The same of the record-level operation.
pub proof fn lemma_tally_never_wraps_on_records(ctx: CastVote, now: i64)
    requires
        ctx.proposal is Some,
    ensures
        cast_vote_rejection(ctx, now) is None ==> cast_vote_effect(ctx).proposal->0.vote_count
            == ctx.proposal->0.vote_count + 1,
        ctx.proposal->0.vote_count == u64::MAX ==> cast_vote_rejection(ctx, now) is Some,
        ctx.proposal->0.vote_count == u64::MAX && ctx.proposal->0.open_at(now)
            && ctx.voter_token_account.mint == ctx.treasury_config_account.x_mint
            && ctx.voter_token_account.owner == ctx.voter && ctx.voter_token_account.amount >= 1
            && ctx.vote_receipt is None ==> cast_vote_rejection(ctx, now) == Some(
            VoteError::ProposalVotesOverflow,
        ),
{
}

/// A proposal's tally is the number of voters who voted on it, at all
/// times: it equals the number of receipts for the proposal.
pub proof fn lemma_tally_counts_the_receipts(
    records: Records,
    ops: Seq<Operation>,
    proposal_id: u64,
)
    requires
        records.wf(),
        records.run(ops).proposal(proposal_id) is Some,
    ensures
        records.run(ops).proposal(proposal_id)->0.vote_count == records.run(ops).votes_on(
            proposal_id,
        ).len(),
{
    lemma_run_persists(records, ops);
    assert(records.run(ops).proposals[proposal_id - 1].wf());
}

/// Finalizing waits for the deadline and for a vote. For a proposal that
/// exists: before its deadline the attempt is refused as
/// `VotingStillActive`; from the deadline on, with no votes, as
/// `NoVotesCast`; with votes, the administrator's attempt on an active
/// proposal is accepted and leaves it finalized, with its winner recorded
/// and its tally as it was.
pub proof fn lemma_winner_is_declared_after_the_deadline(records: Records, op: Operation)
    requires
        records.wf(),
        op is DeclareWinner,
        records.proposal(op->DeclareWinner_proposal_id) is Some,
    ensures
        op->DeclareWinner_now < records.proposal(op->DeclareWinner_proposal_id)->0.deadline
            ==> records.rejection(op) == Some(VoteError::VotingStillActive),
        op->DeclareWinner_now >= records.proposal(op->DeclareWinner_proposal_id)->0.deadline
            && records.proposal(op->DeclareWinner_proposal_id)->0.vote_count == 0
            ==> records.rejection(op) == Some(VoteError::NoVotesCast),
        op->DeclareWinner_now >= records.proposal(op->DeclareWinner_proposal_id)->0.deadline
            && records.proposal(op->DeclareWinner_proposal_id)->0.vote_count > 0
            && records.proposal(op->DeclareWinner_proposal_id)->0.state == ProposalState::Active
            && op->DeclareWinner_caller == records.treasury->0.authority ==> records.rejection(op)
            is None,
        records.rejection(op) is None ==> records.step(op).proposal(op->DeclareWinner_proposal_id)
            == Some(
            declare_winner_effect(
                records.tally_ctx(op->DeclareWinner_caller, op->DeclareWinner_proposal_id),
            ).proposal,
        ),
        records.rejection(op) is None ==> records.step(op).proposal(
            op->DeclareWinner_proposal_id,
        )->0.state == ProposalState::Finalized,
        records.rejection(op) is Some ==> records.step(op) == records,
{
    assert(records.proposals[op->DeclareWinner_proposal_id - 1].wf());
}

/// The same of the record-level operation, for a well-formed proposal; and
/// what it leaves finalized it refuses to finalize again, from the
/// deadline on, as `AlreadyFinalized`.
pub proof fn lemma_winner_is_declared_after_the_deadline_on_records(ctx: DeclareWinner, now: i64)
    requires
        ctx.proposal.wf(),
    ensures
        now < ctx.proposal.deadline ==> declare_winner_rejection(ctx, now) == Some(
            VoteError::VotingStillActive,
        ),
        now >= ctx.proposal.deadline && ctx.proposal.vote_count == 0 ==> declare_winner_rejection(
            ctx,
            now,
        ) == Some(VoteError::NoVotesCast),
        now >= ctx.proposal.deadline && ctx.proposal.vote_count > 0 && ctx.proposal.state
            == ProposalState::Active && ctx.caller == ctx.treasury_config_account.authority
            ==> declare_winner_rejection(ctx, now) is None,
        declare_winner_effect(ctx).proposal.state == ProposalState::Finalized,
        now >= ctx.proposal.deadline ==> declare_winner_rejection(declare_winner_effect(ctx), now)
            == Some(VoteError::AlreadyFinalized),
{
}

/// Finalized is terminal. After an accepted finalization, whatever
/// operations follow, the proposal is as the finalization left it; every
/// vote on it is refused as `ProposalEnded`; and every further attempt to
/// finalize it at a time not before its deadline is refused as
/// `AlreadyFinalized`, whoever asks.
pub proof fn lemma_finalized_is_terminal(
    records: Records,
    first: Operation,
    later: Seq<Operation>,
    vote: Operation,
    again: Operation,
)
    requires
        records.wf(),
        first is DeclareWinner,
        records.rejection(first) is None,
        vote is CastVote,
        vote->CastVote_proposal_id == first->DeclareWinner_proposal_id,
        again is DeclareWinner,
        again->DeclareWinner_proposal_id == first->DeclareWinner_proposal_id,
    ensures
        records.step(first).run(later).proposal(first->DeclareWinner_proposal_id) == records.step(
            first,
        ).proposal(first->DeclareWinner_proposal_id),
        records.step(first).run(later).proposal(first->DeclareWinner_proposal_id)->0.state
            == ProposalState::Finalized,
        records.step(first).run(later).rejection(vote) == Some(VoteError::ProposalEnded),
        again->DeclareWinner_now >= records.proposal(first->DeclareWinner_proposal_id)->0.deadline
            ==> records.step(first).run(later).rejection(again) == Some(
            VoteError::AlreadyFinalized,
        ),
{
    let declared = records.step(first);
    let index = first->DeclareWinner_proposal_id - 1;
    lemma_step_preserves_wf(records, first);
    lemma_run_persists(declared, later);
    assert(declared.proposals[index].state == ProposalState::Finalized);
    assert(declared.run(later).proposals[index] == declared.proposals[index]);
}

} // verus!
