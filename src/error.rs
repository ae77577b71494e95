use vstd::prelude::*;

verus! {

/// Every way an operation on a poll can be refused.
#[derive(Debug, Clone, Copy, PartialEq, Eq, Structural)]
pub enum VotingError {
    InvalidPollOptions,
    TooManyOptions,
    InvalidTimeRange,
    NameTooLong,
    DescriptionTooLong,
    OptionTooLong,
    Unauthorized,
    PollNotStarted,
    PollEnded,
    PollInactive,
    InvalidOptionIndex,
    AlreadyVoted,
    InvalidVoterRegistry,
    RegistrationRequired,
    UnnecessaryRegistration,
    UnnecessaryVoteRecord,
    WrongPollType,
}

} // verus!
