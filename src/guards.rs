use vstd::prelude::*;

use crate::error::VotingError;
use crate::state::{Poll, Pubkey};

verus! {

/// An optional refusal as the result of a check.
pub open spec fn refusal(e: Option<VotingError>) -> Result<(), VotingError> {
    match e {
        Some(err) => Err(err),
        None => Ok(()),
    }
}

/// Why `caller` may not act for `authority`, if it may not.
pub open spec fn authority_error(caller: Pubkey, authority: Pubkey) -> Option<VotingError> {
    if caller == authority {
        None
    } else {
        Some(VotingError::Unauthorized)
    }
}

/// Why a vote on `poll` at time `now` falls outside its voting window, if it
/// does: the start is checked first, then the end, then the active flag.
pub open spec fn window_error(poll: &Poll, now: i64) -> Option<VotingError> {
    if now < poll.start_time {
        Some(VotingError::PollNotStarted)
    } else if now > poll.end_time {
        Some(VotingError::PollEnded)
    } else if !poll.is_active {
        Some(VotingError::PollInactive)
    } else {
        None
    }
}

/// Why `option_index` does not name an option of `poll`, if it does not.
pub open spec fn option_error(poll: &Poll, option_index: u8) -> Option<VotingError> {
    if option_index as int >= poll.options@.len() {
        Some(VotingError::InvalidOptionIndex)
    } else {
        None
    }
}

/// Succeeds exactly when `caller` is `authority`.
pub fn authorize(caller: &Pubkey, authority: &Pubkey) -> (r: Result<(), VotingError>)
    ensures
        r == refusal(authority_error(*caller, *authority)),
{
    if *caller == *authority {
        Ok(())
    } else {
        Err(VotingError::Unauthorized)
    }
}

/// Succeeds exactly when `now` lies in the poll's window and the poll is active.
pub fn check_voting_window(poll: &Poll, now: i64) -> (r: Result<(), VotingError>)
    ensures
        r == refusal(window_error(poll, now)),
{
    if now < poll.start_time {
        Err(VotingError::PollNotStarted)
    } else if now > poll.end_time {
        Err(VotingError::PollEnded)
    } else if !poll.is_active {
        Err(VotingError::PollInactive)
    } else {
        Ok(())
    }
}

/// Succeeds exactly when `option_index` names an option of the poll.
pub fn check_option_index(poll: &Poll, option_index: u8) -> (r: Result<(), VotingError>)
    ensures
        r == refusal(option_error(poll, option_index)),
{
    if (option_index as usize) < poll.options.len() {
        Ok(())
    } else {
        Err(VotingError::InvalidOptionIndex)
    }
}

} // verus!
