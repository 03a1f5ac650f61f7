use dynamic_pricing_protocol::errors::GovernanceError;
use dynamic_pricing_protocol::governance::{
    distribute_governance_tokens, propose_fee_change, vote_on_proposal, GovernanceData,
    GovernanceTokenAccount,
};

fn fresh_governance() -> GovernanceData {
    GovernanceData {
        proposed_fee_percentage: 0,
        votes_for: 0,
        votes_against: 0,
        voters: Vec::new(),
    }
}

#[test]
fn distribute_tokens_grows_balance() {
    let mut account = GovernanceTokenAccount { balance: 10 };
    assert!(distribute_governance_tokens(&mut account, 40).is_ok());
    assert_eq!(account.balance, 50);
}

#[test]
fn distribute_tokens_reports_overflow() {
    let mut account = GovernanceTokenAccount { balance: u64::MAX };
    assert_eq!(distribute_governance_tokens(&mut account, 1), Err(GovernanceError::Overflow));
    assert_eq!(account.balance, u64::MAX);
}

#[test]
fn propose_rejects_fee_above_maximum() {
    let mut governance = fresh_governance();
    governance.proposed_fee_percentage = 4;
    assert_eq!(propose_fee_change(&mut governance, 11), Err(GovernanceError::InvalidFeePercentage));
    assert_eq!(governance.proposed_fee_percentage, 4);
}

#[test]
fn propose_resets_tallies_and_voters() {
    let mut governance = fresh_governance();
    let voter = GovernanceTokenAccount { balance: 25 };
    assert!(propose_fee_change(&mut governance, 3).is_ok());
    assert!(vote_on_proposal(&mut governance, 1, &voter, true).is_ok());
    assert!(propose_fee_change(&mut governance, 7).is_ok());
    assert_eq!(governance.proposed_fee_percentage, 7);
    assert_eq!(governance.votes_for, 0);
    assert_eq!(governance.votes_against, 0);
    assert!(vote_on_proposal(&mut governance, 1, &voter, false).is_ok());
    assert_eq!(governance.votes_against, 25);
}

#[test]
fn votes_carry_token_weight() {
    let mut governance = fresh_governance();
    let small_holder = GovernanceTokenAccount { balance: 30 };
    let large_holder = GovernanceTokenAccount { balance: 70 };
    assert!(vote_on_proposal(&mut governance, 1, &small_holder, true).is_ok());
    assert!(vote_on_proposal(&mut governance, 2, &large_holder, false).is_ok());
    assert_eq!(governance.votes_for, 30);
    assert_eq!(governance.votes_against, 70);
}

#[test]
fn second_vote_by_same_voter_is_rejected() {
    let mut governance = fresh_governance();
    let voter = GovernanceTokenAccount { balance: 30 };
    assert!(vote_on_proposal(&mut governance, 9, &voter, true).is_ok());
    assert_eq!(
        vote_on_proposal(&mut governance, 9, &voter, false),
        Err(GovernanceError::AlreadyVoted)
    );
    assert_eq!(governance.votes_for, 30);
    assert_eq!(governance.votes_against, 0);
}

#[test]
fn vote_reports_tally_overflow() {
    let mut governance = fresh_governance();
    governance.votes_for = u64::MAX;
    let voter = GovernanceTokenAccount { balance: 1 };
    assert_eq!(vote_on_proposal(&mut governance, 5, &voter, true), Err(GovernanceError::Overflow));
    assert_eq!(governance.votes_for, u64::MAX);
}
