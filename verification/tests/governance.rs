use solballot::address::Address;
use solballot::authority::DerivedAuthority;
use solballot::errors::VoteError;
use solballot::governance::Governance;
use solballot::state::{
    Outcome, Proposal, ProposalCounter, ProposalState, TokenAccount, TreasuryConfig, Vault,
    VoteReceipt, Wallet,
};

fn citizen(tag: u8) -> Address {
    Address::new([tag; 32])
}

fn admin() -> Address {
    citizen(1)
}

fn mint() -> Address {
    citizen(2)
}

fn fresh() -> Governance {
    Governance::with_authorities(
        DerivedAuthority { address: citizen(3), bump: 255 },
        DerivedAuthority { address: citizen(4), bump: 253 },
    )
}

fn tokens_of(owner: u8, amount: u64) -> TokenAccount {
    TokenAccount { mint: mint(), owner: citizen(owner), amount }
}

fn with_proposal(deadline: i64, now: i64) -> Governance {
    let mut store = fresh();
    assert_eq!(store.initialize(admin(), 1_000_000_000, 100, mint()), Ok(()));
    assert_eq!(store.initialize_counter(admin()), Ok(()));
    assert_eq!(store.create_proposal(admin(), deadline, now), Ok(1));
    store
}

#[test]
fn fresh_store_holds_nothing() {
    let store = fresh();
    assert_eq!(store.treasury(), None);
    assert_eq!(store.counter(), None);
    assert_eq!(store.vault(), Vault { address: citizen(3), lamports: 0 });
    assert_eq!(store.mint_authority(), DerivedAuthority { address: citizen(4), bump: 253 });
    assert_eq!(store.proposal(0), None);
    assert_eq!(store.proposal(1), None);
    assert_eq!(store.receipt(1, &citizen(5)), None);
    assert!(!store.has_voted(1, &citizen(5)));
}

#[test]
fn treasury_is_initialized_once_in_a_lifetime() {
    let mut store = fresh();
    assert_eq!(store.initialize(admin(), 1_000_000_000, 100, mint()), Ok(()));
    let config = store.treasury();
    assert_eq!(
        config,
        Some(TreasuryConfig {
            authority: admin(),
            x_mint: mint(),
            sol_price: 1_000_000_000,
            tokens_per_purchase: 100,
            bump: 255,
            total_units_sold: 0,
        })
    );
    assert_eq!(store.initialize(admin(), 1_000_000_000, 100, mint()), Err(VoteError::AlreadyInitialized));
    assert_eq!(store.initialize(citizen(9), 0, 0, citizen(8)), Err(VoteError::AlreadyInitialized));
    assert_eq!(store.initialize_counter(admin()), Ok(()));
    assert_eq!(store.create_proposal(admin(), 10, 0), Ok(1));
    assert_eq!(store.initialize(citizen(9), 7, 7, citizen(8)), Err(VoteError::AlreadyInitialized));
    assert_eq!(store.treasury(), config);
}

#[test]
fn refused_initialization_leaves_the_slot_empty() {
    let mut store = fresh();
    assert_eq!(store.initialize(admin(), 0, 100, mint()), Err(VoteError::InvalidParameter));
    assert_eq!(store.initialize(admin(), 100, 0, mint()), Err(VoteError::InvalidParameter));
    assert_eq!(store.treasury(), None);
    assert_eq!(store.initialize(admin(), 100, 1, mint()), Ok(()));
}

#[test]
fn scenario_one_purchase() {
    let mut store = fresh();
    assert_eq!(store.initialize(admin(), 1_000_000_000, 100, mint()), Ok(()));
    let mut buyer = Wallet { address: citizen(5), lamports: 1_000_000_000 };
    let mut account = tokens_of(5, 0);
    assert_eq!(store.buy(&mut buyer, &mut account), Ok(()));
    assert_eq!(account.amount, 100);
    assert_eq!(store.vault().lamports, 1_000_000_000);
    assert_eq!(store.treasury().unwrap().total_units_sold, 1);
    assert_eq!(buyer.lamports, 0);
}

#[test]
fn purchase_changes_both_balances_or_neither() {
    let mut store = fresh();
    assert_eq!(store.initialize(admin(), 300, 7, mint()), Ok(()));
    let mut buyer = Wallet { address: citizen(5), lamports: 1000 };
    let mut account = tokens_of(5, 1);
    assert_eq!(store.buy(&mut buyer, &mut account), Ok(()));
    assert_eq!((buyer.lamports, account.amount), (700, 8));
    assert_eq!(store.buy(&mut buyer, &mut account), Ok(()));
    assert_eq!(store.buy(&mut buyer, &mut account), Ok(()));
    assert_eq!((buyer.lamports, account.amount), (100, 22));
    assert_eq!(store.buy(&mut buyer, &mut account), Err(VoteError::InsufficientFunds));
    assert_eq!((buyer.lamports, account.amount), (100, 22));
    assert_eq!(store.vault().lamports, 900);
    assert_eq!(store.treasury().unwrap().total_units_sold, 3);

    let mut foreign = TokenAccount { mint: citizen(9), owner: citizen(5), amount: 4 };
    buyer.lamports = 5000;
    assert_eq!(store.buy(&mut buyer, &mut foreign), Err(VoteError::TokenMintMismatch));
    assert_eq!((buyer.lamports, foreign.amount), (5000, 4));
    let mut borrowed = tokens_of(6, 4);
    assert_eq!(store.buy(&mut buyer, &mut borrowed), Err(VoteError::InvalidTokenAccountOwner));
    assert_eq!((buyer.lamports, borrowed.amount), (5000, 4));
    let mut full = tokens_of(5, u64::MAX - 6);
    assert_eq!(store.buy(&mut buyer, &mut full), Err(VoteError::SaleOverflow));
    assert_eq!((buyer.lamports, full.amount), (5000, u64::MAX - 6));
    assert_eq!(store.vault().lamports, 900);
    assert_eq!(store.treasury().unwrap().total_units_sold, 3);
}

#[test]
fn vault_holds_the_price_of_every_lot_sold() {
    let mut store = fresh();
    assert_eq!(store.initialize(admin(), 250, 3, mint()), Ok(()));
    for sold in 1..=20u64 {
        let mut buyer = Wallet { address: citizen(sold as u8 + 10), lamports: 250 + sold };
        let mut account = tokens_of(sold as u8 + 10, 0);
        assert_eq!(store.buy(&mut buyer, &mut account), Ok(()));
        assert_eq!(buyer.lamports, sold);
        assert_eq!(account.amount, 3);
        assert_eq!(store.vault().lamports, 250 * sold);
        assert_eq!(store.treasury().unwrap().total_units_sold, sold);
    }
}

#[test]
fn nothing_is_sold_before_the_treasury_exists() {
    let mut store = fresh();
    let mut buyer = Wallet { address: citizen(5), lamports: 1_000_000_000 };
    let mut account = tokens_of(5, 0);
    assert_eq!(store.buy(&mut buyer, &mut account), Err(VoteError::TokenMintMismatch));
    assert_eq!(buyer.lamports, 1_000_000_000);
    assert_eq!(account.amount, 0);
    assert_eq!(store.vault().lamports, 0);
}

#[test]
fn nobody_is_authorized_before_the_treasury_exists() {
    let mut store = fresh();
    assert_eq!(store.initialize_counter(admin()), Err(VoteError::UnauthorizedAccess));
    assert_eq!(store.create_proposal(admin(), 10, 0), Err(VoteError::UnauthorizedAccess));
    assert_eq!(store.create_proposal(admin(), 0, 0), Err(VoteError::InvalidDeadline));
    assert_eq!(store.cast_vote(citizen(5), 1, &tokens_of(5, 1), 0), Err(VoteError::ProposalEnded));
    assert_eq!(store.declare_winner(admin(), 1, 0), Err(VoteError::NoVotesCast));
    assert_eq!(store.counter(), None);
    assert_eq!(store.proposal(1), None);
}

#[test]
fn counter_is_initialized_once_by_the_administrator() {
    let mut store = fresh();
    assert_eq!(store.initialize(admin(), 1, 1, mint()), Ok(()));
    assert_eq!(store.create_proposal(admin(), 10, 0), Err(VoteError::CounterUninitialized));
    assert_eq!(store.initialize_counter(citizen(9)), Err(VoteError::UnauthorizedAccess));
    assert_eq!(store.counter(), None);
    assert_eq!(store.initialize_counter(admin()), Ok(()));
    assert_eq!(store.counter(), Some(ProposalCounter { next_id: 1 }));
    assert_eq!(store.initialize_counter(admin()), Err(VoteError::ProposalCounterAlreadyInitialized));
    assert_eq!(store.initialize_counter(citizen(9)), Err(VoteError::ProposalCounterAlreadyInitialized));
    assert_eq!(store.create_proposal(admin(), 10, 0), Ok(1));
    assert_eq!(store.initialize_counter(admin()), Err(VoteError::ProposalCounterAlreadyInitialized));
    assert_eq!(store.counter(), Some(ProposalCounter { next_id: 2 }));
}

#[test]
fn proposals_are_numbered_from_one() {
    let mut store = fresh();
    assert_eq!(store.initialize(admin(), 1, 1, mint()), Ok(()));
    assert_eq!(store.initialize_counter(admin()), Ok(()));
    assert_eq!(store.create_proposal(admin(), 100, 0), Ok(1));
    assert_eq!(store.create_proposal(admin(), 0, 0), Err(VoteError::InvalidDeadline));
    assert_eq!(store.create_proposal(citizen(9), 100, 0), Err(VoteError::UnauthorizedAccess));
    assert_eq!(store.create_proposal(citizen(9), -1, 0), Err(VoteError::InvalidDeadline));
    assert_eq!(store.create_proposal(admin(), 200, 0), Ok(2));
    assert_eq!(store.create_proposal(admin(), 300, 299), Ok(3));
    assert_eq!(store.counter(), Some(ProposalCounter { next_id: 4 }));
    assert_eq!(store.proposal(0), None);
    assert_eq!(store.proposal(4), None);
    assert_eq!(store.proposal(u64::MAX), None);
    assert_eq!(
        store.proposal(2),
        Some(Proposal {
            id: 2,
            deadline: 200,
            vote_count: 0,
            state: ProposalState::Active,
            winner_recorded: false,
        })
    );
    assert_eq!(store.proposal(3).unwrap().deadline, 300);
}

#[test]
fn scenario_one_vote_and_its_repetition() {
    let now = 1_700_000_000;
    let mut store = fresh();
    assert_eq!(store.initialize(admin(), 1_000_000_000, 100, mint()), Ok(()));
    assert_eq!(store.initialize_counter(admin()), Ok(()));
    assert_eq!(store.create_proposal(admin(), now + 3600, now), Ok(1));
    assert_eq!(store.proposal(1).unwrap().state, ProposalState::Active);
    let account = tokens_of(5, 50);
    assert_eq!(store.cast_vote(citizen(5), 1, &account, now), Ok(()));
    assert_eq!(store.proposal(1).unwrap().vote_count, 1);
    assert_eq!(
        store.receipt(1, &citizen(5)),
        Some(VoteReceipt { proposal_id: 1, voter: citizen(5) })
    );
    assert!(store.has_voted(1, &citizen(5)));
    assert_eq!(store.cast_vote(citizen(5), 1, &account, now), Err(VoteError::VoterAlreadyVoted));
    assert_eq!(store.proposal(1).unwrap().vote_count, 1);
}

#[test]
fn vote_stays_cast_whatever_follows() {
    let mut store = with_proposal(1000, 0);
    assert_eq!(store.cast_vote(citizen(5), 1, &tokens_of(5, 1), 10), Ok(()));
    assert_eq!(store.create_proposal(admin(), 2000, 10), Ok(2));
    assert_eq!(store.cast_vote(citizen(6), 1, &tokens_of(6, 9), 11), Ok(()));
    assert_eq!(store.cast_vote(citizen(5), 2, &tokens_of(5, 1), 12), Ok(()));
    let mut buyer = Wallet { address: citizen(5), lamports: 2_000_000_000 };
    let mut account = tokens_of(5, 1);
    assert_eq!(store.buy(&mut buyer, &mut account), Ok(()));
    assert_eq!(store.cast_vote(citizen(5), 1, &account, 13), Err(VoteError::VoterAlreadyVoted));
    assert_eq!(store.cast_vote(citizen(5), 1, &tokens_of(5, 77), 999), Err(VoteError::VoterAlreadyVoted));
    assert_eq!(store.cast_vote(citizen(5), 1, &tokens_of(5, 77), 1000), Err(VoteError::ProposalEnded));
    assert_eq!(store.cast_vote(citizen(5), 1, &tokens_of(6, 77), 13), Err(VoteError::InvalidTokenAccountOwner));
    assert_eq!(store.cast_vote(citizen(5), 2, &tokens_of(5, 1), 13), Err(VoteError::VoterAlreadyVoted));
    assert_eq!(store.proposal(1).unwrap().vote_count, 2);
    assert_eq!(store.proposal(2).unwrap().vote_count, 1);
    assert!(store.has_voted(1, &citizen(5)));
    assert!(store.has_voted(1, &citizen(6)));
    assert!(store.has_voted(2, &citizen(5)));
    assert!(!store.has_voted(2, &citizen(6)));
}

#[test]
fn tally_counts_the_voters() {
    let mut store = with_proposal(1000, 0);
    for voter in 10..40u8 {
        assert_eq!(store.cast_vote(citizen(voter), 1, &tokens_of(voter, voter as u64), 5), Ok(()));
        assert_eq!(store.proposal(1).unwrap().vote_count, voter as u64 - 9);
    }
    for voter in 10..40u8 {
        assert_eq!(
            store.cast_vote(citizen(voter), 1, &tokens_of(voter, 1), 5),
            Err(VoteError::VoterAlreadyVoted)
        );
    }
    assert_eq!(store.proposal(1).unwrap().vote_count, 30);
}

#[test]
fn vote_is_refused_from_the_deadline_on() {
    let mut store = with_proposal(1000, 0);
    assert_eq!(store.cast_vote(citizen(5), 1, &tokens_of(5, 1), 1000), Err(VoteError::ProposalEnded));
    assert_eq!(store.cast_vote(citizen(5), 1, &tokens_of(5, 1), 1001), Err(VoteError::ProposalEnded));
    assert_eq!(store.cast_vote(citizen(5), 1, &tokens_of(5, 1), 999), Ok(()));
    assert_eq!(store.cast_vote(citizen(6), 1, &tokens_of(6, 1), 1000), Err(VoteError::ProposalEnded));
    assert_eq!(store.cast_vote(citizen(6), 2, &tokens_of(6, 1), 0), Err(VoteError::ProposalEnded));
    assert_eq!(store.cast_vote(citizen(6), 0, &tokens_of(6, 1), 0), Err(VoteError::ProposalEnded));
    assert_eq!(store.proposal(1).unwrap().vote_count, 1);
    assert!(!store.has_voted(1, &citizen(6)));
}

#[test]
fn vote_needs_a_holding_of_the_governance_mint() {
    let mut store = with_proposal(1000, 0);
    let foreign = TokenAccount { mint: citizen(9), owner: citizen(5), amount: 50 };
    assert_eq!(store.cast_vote(citizen(5), 1, &foreign, 1), Err(VoteError::InvalidMint));
    assert_eq!(store.cast_vote(citizen(5), 1, &tokens_of(6, 50), 1), Err(VoteError::InvalidTokenAccountOwner));
    assert_eq!(store.cast_vote(citizen(5), 1, &tokens_of(5, 0), 1), Err(VoteError::InsufficientVotingPower));
    assert_eq!(store.proposal(1).unwrap().vote_count, 0);
    assert!(!store.has_voted(1, &citizen(5)));
}

#[test]
fn scenario_no_votes_at_the_deadline() {
    let mut store = with_proposal(1000, 0);
    assert_eq!(store.declare_winner(admin(), 1, 1000), Err(VoteError::NoVotesCast));
    assert_eq!(store.proposal(1).unwrap().state, ProposalState::Active);
    assert_eq!(store.declare_winner(admin(), 1, 5000), Err(VoteError::NoVotesCast));
    assert_eq!(store.proposal(1).unwrap().state, ProposalState::Active);
    assert_eq!(store.proposal(1).unwrap().vote_count, 0);
}

#[test]
fn winner_is_declared_after_votes_and_deadline() {
    let mut store = with_proposal(1000, 0);
    assert_eq!(store.declare_winner(admin(), 1, 999), Err(VoteError::VotingStillActive));
    assert_eq!(store.cast_vote(citizen(5), 1, &tokens_of(5, 3), 10), Ok(()));
    assert_eq!(store.cast_vote(citizen(6), 1, &tokens_of(6, 3), 10), Ok(()));
    assert_eq!(store.declare_winner(admin(), 1, 999), Err(VoteError::VotingStillActive));
    assert_eq!(store.declare_winner(citizen(9), 1, 999), Err(VoteError::VotingStillActive));
    assert_eq!(store.declare_winner(citizen(9), 1, 1000), Err(VoteError::UnauthorizedAccess));
    assert_eq!(store.proposal(1).unwrap().state, ProposalState::Active);
    assert_eq!(store.declare_winner(admin(), 1, 1000), Ok(Outcome { proposal_id: 1, vote_count: 2 }));
    assert_eq!(
        store.proposal(1),
        Some(Proposal {
            id: 1,
            deadline: 1000,
            vote_count: 2,
            state: ProposalState::Finalized,
            winner_recorded: true,
        })
    );
}

#[test]
fn finalized_proposal_takes_nothing_more() {
    let mut store = with_proposal(1000, 0);
    assert_eq!(store.cast_vote(citizen(5), 1, &tokens_of(5, 3), 10), Ok(()));
    assert_eq!(store.declare_winner(admin(), 1, 1000), Ok(Outcome { proposal_id: 1, vote_count: 1 }));
    let finalized = store.proposal(1);
    assert_eq!(store.declare_winner(admin(), 1, 1000), Err(VoteError::AlreadyFinalized));
    assert_eq!(store.create_proposal(admin(), 9000, 2000), Ok(2));
    assert_eq!(store.cast_vote(citizen(6), 2, &tokens_of(6, 3), 2001), Ok(()));
    assert_eq!(store.declare_winner(admin(), 1, 7000), Err(VoteError::AlreadyFinalized));
    assert_eq!(store.declare_winner(citizen(9), 1, 7000), Err(VoteError::AlreadyFinalized));
    assert_eq!(store.cast_vote(citizen(6), 1, &tokens_of(6, 3), 10), Err(VoteError::ProposalEnded));
    assert_eq!(store.cast_vote(citizen(5), 1, &tokens_of(5, 3), 10), Err(VoteError::ProposalEnded));
    assert_eq!(store.proposal(1), finalized);
    assert_eq!(store.proposal(2).unwrap().vote_count, 1);
}

#[test]
fn tally_of_an_unknown_proposal_has_no_votes() {
    let mut store = with_proposal(1000, 0);
    assert_eq!(store.declare_winner(admin(), 2, 5000), Err(VoteError::NoVotesCast));
    assert_eq!(store.declare_winner(admin(), 0, 5000), Err(VoteError::NoVotesCast));
    assert_eq!(store.declare_winner(admin(), u64::MAX, 0), Err(VoteError::NoVotesCast));
}
