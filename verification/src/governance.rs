use vstd::prelude::*;
use crate::errors::GovernanceError;

verus! {

/// The fee-change proposal currently open for voting: the candidate fee
/// percentage, the token-weighted tallies, and the voters who already cast a
/// vote on it.
#[derive(Clone, Debug)]
pub struct GovernanceData {
    pub proposed_fee_percentage: u64,
    pub votes_for: u64,
    pub votes_against: u64,
    pub voters: Vec<u64>,
}

/// A holder's governance token balance; their voting weight at cast time.
#[derive(Clone, Copy, Debug, PartialEq, Eq, Structural)]
pub struct GovernanceTokenAccount {
    pub balance: u64,
}

/// Highest fee percentage a proposal may carry.
pub const MAX_FEE_PERCENTAGE: u64 = 10;

/// Mints governance tokens into a holder's account; a balance that would
/// leave its range fails the call and nothing changes.
pub fn distribute_governance_tokens(
    governance_token_account: &mut GovernanceTokenAccount,
    amount: u64,
) -> (r: Result<(), GovernanceError>)
    ensures
        old(governance_token_account).balance + amount > u64::MAX ==> r == Err::<
            (),
            GovernanceError,
        >(GovernanceError::Overflow) && *final(governance_token_account)
            == *old(governance_token_account),
        old(governance_token_account).balance + amount <= u64::MAX ==> r is Ok && final(governance_token_account).balance == old(governance_token_account).balance + amount,
{
    match governance_token_account.balance.checked_add(amount) {
        Some(new_balance) => {
            governance_token_account.balance = new_balance;
            Ok(())
        },
        None => Err(GovernanceError::Overflow),
    }
}

/// Opens a fresh proposal: a fee percentage above the allowed maximum is
/// rejected; otherwise the candidate is stored, both tallies are reset and
/// the record of who has voted is cleared.
pub fn propose_fee_change(governance_data: &mut GovernanceData, new_fee_percentage: u64) -> (r:
    Result<(), GovernanceError>)
    ensures
        new_fee_percentage > MAX_FEE_PERCENTAGE ==> r == Err::<(), GovernanceError>(
            GovernanceError::InvalidFeePercentage,
        ) && final(governance_data).proposed_fee_percentage == old(
            governance_data,
        ).proposed_fee_percentage && final(governance_data).votes_for == old(
            governance_data,
        ).votes_for && final(governance_data).votes_against == old(governance_data).votes_against
            && final(governance_data).voters@ == old(governance_data).voters@,
        new_fee_percentage <= MAX_FEE_PERCENTAGE ==> r is Ok && final(governance_data).proposed_fee_percentage == new_fee_percentage && final(governance_data).votes_for == 0
            && final(governance_data).votes_against == 0 && final(governance_data).voters@.len()
            == 0,
        final(governance_data).proposed_fee_percentage <= MAX_FEE_PERCENTAGE || final(governance_data).proposed_fee_percentage == old(governance_data).proposed_fee_percentage,
{
    if new_fee_percentage > MAX_FEE_PERCENTAGE {
        return Err(GovernanceError::InvalidFeePercentage);
    }
    governance_data.proposed_fee_percentage = new_fee_percentage;
    governance_data.votes_for = 0;
    governance_data.votes_against = 0;
    governance_data.voters = Vec::new();
    Ok(())
}

/// Whether a voter already appears in the record of cast votes.
fn contains_voter(voters: &Vec<u64>, voter_id: u64) -> (found: bool)
    ensures
        found == voters@.contains(voter_id),
{
    let mut i: usize = 0;
    while i < voters.len()
        invariant
            0 <= i <= voters@.len(),
            forall|k: int| 0 <= k < i ==> voters@[k] != voter_id,
        decreases voters@.len() - i,
    {
        if voters[i] == voter_id {
            return true;
        }
        i = i + 1;
    }
    false
}

/// Casts a token-weighted vote on the open proposal: the voter's full
/// current balance lands on one tally, the other is untouched, and the voter
/// is recorded so a second vote on the same proposal is rejected. A tally
/// that would leave its range fails the call and nothing changes.
pub fn vote_on_proposal(
    governance_data: &mut GovernanceData,
    voter_id: u64,
    governance_token_account: &GovernanceTokenAccount,
    vote_for: bool,
) -> (r: Result<(), GovernanceError>)
    ensures
        old(governance_data).voters@.contains(voter_id) ==> r == Err::<(), GovernanceError>(
            GovernanceError::AlreadyVoted,
        ),
        !old(governance_data).voters@.contains(voter_id) && vote_for && old(
            governance_data,
        ).votes_for + governance_token_account.balance > u64::MAX ==> r == Err::<
            (),
            GovernanceError,
        >(GovernanceError::Overflow),
        !old(governance_data).voters@.contains(voter_id) && !vote_for && old(
            governance_data,
        ).votes_against + governance_token_account.balance > u64::MAX ==> r == Err::<
            (),
            GovernanceError,
        >(GovernanceError::Overflow),
        r is Ok <==> !old(governance_data).voters@.contains(voter_id) && (if vote_for {
            old(governance_data).votes_for
        } else {
            old(governance_data).votes_against
        }) + governance_token_account.balance <= u64::MAX,
        r is Ok && vote_for ==> final(governance_data).votes_for == old(governance_data).votes_for
            + governance_token_account.balance && final(governance_data).votes_against == old(
            governance_data,
        ).votes_against,
        r is Ok && !vote_for ==> final(governance_data).votes_against == old(
            governance_data,
        ).votes_against + governance_token_account.balance && final(governance_data).votes_for
            == old(governance_data).votes_for,
        r is Ok ==> final(governance_data).voters@ == old(governance_data).voters@.push(voter_id),
        r is Err ==> final(governance_data).votes_for == old(governance_data).votes_for && final(governance_data).votes_against == old(governance_data).votes_against && final(governance_data).voters@
            == old(governance_data).voters@,
        final(governance_data).proposed_fee_percentage == old(
            governance_data,
        ).proposed_fee_percentage,
{
    if contains_voter(&governance_data.voters, voter_id) {
        return Err(GovernanceError::AlreadyVoted);
    }
    if vote_for {
        match governance_data.votes_for.checked_add(governance_token_account.balance) {
            Some(new_tally) => {
                governance_data.votes_for = new_tally;
                governance_data.voters.push(voter_id);
                Ok(())
            },
            None => Err(GovernanceError::Overflow),
        }
    } else {
        match governance_data.votes_against.checked_add(governance_token_account.balance) {
            Some(new_tally) => {
                governance_data.votes_against = new_tally;
                governance_data.voters.push(voter_id);
                Ok(())
            },
            None => Err(GovernanceError::Overflow),
        }
    }
}

} // verus!
