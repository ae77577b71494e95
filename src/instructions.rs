use vstd::prelude::*;

use crate::constants::{MAX_DESCRIPTION_LENGTH, MAX_NAME_LENGTH, MAX_OPTIONS, MAX_OPTION_LENGTH};
use crate::error::VotingError;
use crate::guards::{
    authority_error, authorize, check_option_index, check_voting_window, option_error, refusal,
    window_error,
};
use crate::state::{
    all_zero, lemma_votes_sum_bound, lemma_votes_sum_bump, lemma_votes_sum_zero, Poll,
    PollOption, Pubkey, VoteRecord, VoterRegistry,
};

verus! {

/// The accounts of a poll creation: who signs and pays.
pub struct CreatePoll {
    pub creator: Pubkey,
}

/// The accounts of a voter registration.
pub struct RegisterVoter<'a> {
    pub authority: Pubkey,
    pub poll_key: Pubkey,
    pub poll: &'a Poll,
}

/// The accounts of a vote on a public poll; `vote_record` is the voter's
/// receipt for this poll, fresh (not voted) if it did not exist yet.
pub struct CastVotePublic {
    pub voter: Pubkey,
    pub poll_key: Pubkey,
    pub poll: Poll,
    pub vote_record: VoteRecord,
}

/// The accounts of a vote on a private poll; `voter_registry` is the record
/// stored under this poll and voter.
pub struct CastVotePrivate {
    pub voter: Pubkey,
    pub poll_key: Pubkey,
    pub poll: Poll,
    pub voter_registry: VoterRegistry,
}

/// The accounts of closing a poll.
pub struct ClosePoll {
    pub authority: Pubkey,
    pub poll: Poll,
}

/// The accounts of deleting a poll.
pub struct DeletePoll<'a> {
    pub authority: Pubkey,
    pub poll: &'a Poll,
}

/// Why a poll cannot be created from these inputs, if it cannot; the checks
/// come in this order.
pub open spec fn create_error(
    name: Seq<char>,
    description: Seq<char>,
    options: Seq<String>,
    start_time: i64,
    end_time: i64,
) -> Option<VotingError> {
    if options.len() == 0 {
        Some(VotingError::InvalidPollOptions)
    } else if options.len() > MAX_OPTIONS {
        Some(VotingError::TooManyOptions)
    } else if end_time <= start_time {
        Some(VotingError::InvalidTimeRange)
    } else if name.len() > MAX_NAME_LENGTH {
        Some(VotingError::NameTooLong)
    } else if description.len() > MAX_DESCRIPTION_LENGTH {
        Some(VotingError::DescriptionTooLong)
    } else if exists|i: int| 0 <= i < options.len() && (#[trigger] options[i]@).len() > MAX_OPTION_LENGTH {
        Some(VotingError::OptionTooLong)
    } else {
        None
    }
}

/// `p` is the fresh poll made from these inputs: active, every tally zero.
pub open spec fn is_new_poll(
    p: Poll,
    creator: Pubkey,
    name: Seq<char>,
    description: Seq<char>,
    options: Seq<String>,
    start_time: i64,
    end_time: i64,
    is_public: bool,
) -> bool {
    &&& p.creator == creator
    &&& p.name@ == name
    &&& p.description@ == description
    &&& p.start_time == start_time
    &&& p.end_time == end_time
    &&& p.is_public == is_public
    &&& p.is_active
    &&& p.total_votes == 0
    &&& p.options@.len() == options.len()
    &&& forall|i: int| 0 <= i < options.len() ==> #[trigger] p.options@[i].text@ == options[i]@
    &&& all_zero(p.options@)
}

/// Creates a poll owned by the signer. Fails, creating nothing, on the first
/// violated bound.
pub fn create_poll(
    ctx: &CreatePoll,
    name: String,
    description: String,
    options: Vec<String>,
    start_time: i64,
    end_time: i64,
    is_public: bool,
) -> (r: Result<Poll, VotingError>)
    ensures
        create_error(name@, description@, options@, start_time, end_time) is Some ==> r == Err::<
            Poll,
            VotingError,
        >(create_error(name@, description@, options@, start_time, end_time)->Some_0),
        create_error(name@, description@, options@, start_time, end_time) is None ==> r is Ok,
        r is Ok ==> is_new_poll(
            r->Ok_0,
            ctx.creator,
            name@,
            description@,
            options@,
            start_time,
            end_time,
            is_public,
        ),
        r is Ok ==> r->Ok_0.well_formed(),
{
    if options.len() == 0 {
        return Err(VotingError::InvalidPollOptions);
    }
    if options.len() > MAX_OPTIONS {
        return Err(VotingError::TooManyOptions);
    }
    if end_time <= start_time {
        return Err(VotingError::InvalidTimeRange);
    }
    if name.as_str().unicode_len() > MAX_NAME_LENGTH {
        return Err(VotingError::NameTooLong);
    }
    if description.as_str().unicode_len() > MAX_DESCRIPTION_LENGTH {
        return Err(VotingError::DescriptionTooLong);
    }
    let mut poll_options: Vec<PollOption> = Vec::new();
    let mut i: usize = 0;
    while i < options.len()
        invariant
            0 <= i <= options@.len(),
            1 <= options@.len() <= MAX_OPTIONS,
            start_time < end_time,
            name@.len() <= MAX_NAME_LENGTH,
            description@.len() <= MAX_DESCRIPTION_LENGTH,
            poll_options@.len() == i,
            forall|j: int| 0 <= j < i ==> #[trigger] poll_options@[j].text@ == options@[j]@,
            forall|j: int| 0 <= j < i ==> (#[trigger] options@[j]@).len() <= MAX_OPTION_LENGTH,
            all_zero(poll_options@),
        decreases options@.len() - i,
    {
        if options[i].as_str().unicode_len() > MAX_OPTION_LENGTH {
            assert(options@[i as int]@.len() > MAX_OPTION_LENGTH);
            return Err(VotingError::OptionTooLong);
        }
        let text = options[i].as_str().to_owned();
        let ghost before = poll_options@;
        poll_options.push(PollOption { text, vote_count: 0 });
        assert forall|j: int| 0 <= j <= i implies #[trigger] poll_options@[j].text@ == options@[j]@ by {
            if j < i {
                assert(poll_options@[j] == before[j]);
            }
        }
        i = i + 1;
    }
    proof {
        lemma_votes_sum_zero(poll_options@);
    }
    let poll = Poll {
        creator: ctx.creator,
        name,
        description,
        start_time,
        end_time,
        is_public,
        is_active: true,
        total_votes: 0,
        options: poll_options,
    };
    Ok(poll)
}

/// Why the signer cannot register a voter on this poll, if it cannot.
pub open spec fn register_error(ctx: &RegisterVoter) -> Option<VotingError> {
    if ctx.poll.creator != ctx.authority {
        Some(VotingError::Unauthorized)
    } else if ctx.poll.is_public {
        Some(VotingError::UnnecessaryRegistration)
    } else {
        None
    }
}

/// Registers `voter_address` on a private poll: only its creator may, and the
/// new record has not voted.
pub fn register_voter(ctx: &RegisterVoter, voter_address: Pubkey) -> (r: Result<
    VoterRegistry,
    VotingError,
>)
    ensures
        register_error(ctx) is Some ==> r == Err::<VoterRegistry, VotingError>(
            register_error(ctx)->Some_0,
        ),
        register_error(ctx) is None ==> r == Ok::<VoterRegistry, VotingError>(
            (VoterRegistry { poll: ctx.poll_key, voter: voter_address, has_voted: false }),
        ),
{
    authorize(&ctx.authority, &ctx.poll.creator)?;
    if ctx.poll.is_public {
        return Err(VotingError::UnnecessaryRegistration);
    }
    Ok(VoterRegistry { poll: ctx.poll_key, voter: voter_address, has_voted: false })
}

/// Why a public vote with these accounts fails at time `now`, if it does:
/// the poll type first, then the window, the option, and a repeated vote.
pub open spec fn public_vote_error(ctx: &CastVotePublic, option_index: u8, now: i64) -> Option<
    VotingError,
> {
    if !ctx.poll.is_public {
        Some(VotingError::WrongPollType)
    } else if window_error(&ctx.poll, now) is Some {
        window_error(&ctx.poll, now)
    } else if option_error(&ctx.poll, option_index) is Some {
        option_error(&ctx.poll, option_index)
    } else if ctx.vote_record.has_voted {
        Some(VotingError::AlreadyVoted)
    } else {
        None
    }
}

/// Why a private vote with these accounts fails at time `now`, if it does:
/// the poll type first, then the window, the option, and the registration.
pub open spec fn private_vote_error(ctx: &CastVotePrivate, option_index: u8, now: i64) -> Option<
    VotingError,
> {
    if ctx.poll.is_public {
        Some(VotingError::WrongPollType)
    } else if window_error(&ctx.poll, now) is Some {
        window_error(&ctx.poll, now)
    } else if option_error(&ctx.poll, option_index) is Some {
        option_error(&ctx.poll, option_index)
    } else if ctx.voter_registry.poll != ctx.poll_key {
        Some(VotingError::InvalidVoterRegistry)
    } else if ctx.voter_registry.voter != ctx.voter {
        Some(VotingError::Unauthorized)
    } else if ctx.voter_registry.has_voted {
        Some(VotingError::AlreadyVoted)
    } else {
        None
    }
}

/// Succeeds exactly when a public vote with these accounts is allowed.
pub fn validate_public_vote(ctx: &CastVotePublic, option_index: u8, now: i64) -> (r: Result<
    (),
    VotingError,
>)
    ensures
        r == refusal(public_vote_error(ctx, option_index, now)),
{
    if !ctx.poll.is_public {
        return Err(VotingError::WrongPollType);
    }
    check_voting_window(&ctx.poll, now)?;
    check_option_index(&ctx.poll, option_index)?;
    if ctx.vote_record.has_voted {
        return Err(VotingError::AlreadyVoted);
    }
    Ok(())
}

/// Succeeds exactly when a private vote with these accounts is allowed.
pub fn validate_private_vote(ctx: &CastVotePrivate, option_index: u8, now: i64) -> (r: Result<
    (),
    VotingError,
>)
    ensures
        r == refusal(private_vote_error(ctx, option_index, now)),
{
    if ctx.poll.is_public {
        return Err(VotingError::WrongPollType);
    }
    check_voting_window(&ctx.poll, now)?;
    check_option_index(&ctx.poll, option_index)?;
    if ctx.voter_registry.poll != ctx.poll_key {
        return Err(VotingError::InvalidVoterRegistry);
    }
    authorize(&ctx.voter_registry.voter, &ctx.voter)?;
    if ctx.voter_registry.has_voted {
        return Err(VotingError::AlreadyVoted);
    }
    Ok(())
}

/// Adds one vote for `option_index` to the poll and its total.
fn record_vote(poll: &mut Poll, option_index: usize)
    requires
        option_index < old(poll).options@.len(),
        old(poll).tally_consistent(),
        old(poll).total_votes < u32::MAX,
    ensures
        final(poll).is_vote_on(&*old(poll), option_index as int),
        final(poll).tally_consistent(),
{
    proof {
        lemma_votes_sum_bound(poll.options@, option_index as int);
    }
    poll.options[option_index].vote_count = poll.options[option_index].vote_count + 1;
    poll.total_votes = poll.total_votes + 1;
    proof {
        lemma_votes_sum_bump(old(poll).options@, option_index as int, poll.options@[option_index as int]);
        assert(poll.options@ == old(poll).options@.update(
            option_index as int,
            PollOption {
                text: old(poll).options@[option_index as int].text,
                vote_count: (old(poll).options@[option_index as int].vote_count + 1) as u32,
            },
        ));
    }
}

/// Casts the signer's vote on a public poll. On success the receipt is
/// marked as voted and the option's tally and the total each rise by one;
/// on failure nothing changes.
pub fn cast_vote_public(ctx: &mut CastVotePublic, option_index: u8, now: i64) -> (r: Result<
    (),
    VotingError,
>)
    requires
        old(ctx).poll.tally_consistent(),
        old(ctx).poll.total_votes < u32::MAX,
    ensures
        r == refusal(public_vote_error(&*old(ctx), option_index, now)),
        r is Ok ==> final(ctx).poll.is_vote_on(&old(ctx).poll, option_index as int),
        r is Ok ==> final(ctx).vote_record == (VoteRecord {
            poll: old(ctx).poll_key,
            voter: old(ctx).voter,
            has_voted: true,
        }),
        r is Ok ==> final(ctx).voter == old(ctx).voter && final(ctx).poll_key == old(ctx).poll_key,
        r is Err ==> *final(ctx) == *old(ctx),
        final(ctx).poll.tally_consistent(),
{
    validate_public_vote(ctx, option_index, now)?;
    ctx.vote_record = VoteRecord { poll: ctx.poll_key, voter: ctx.voter, has_voted: true };
    record_vote(&mut ctx.poll, option_index as usize);
    Ok(())
}

/// Casts the signer's vote on a private poll through its registration. On
/// success the registration is marked as voted and the option's tally and
/// the total each rise by one; on failure nothing changes.
pub fn cast_vote_private(ctx: &mut CastVotePrivate, option_index: u8, now: i64) -> (r: Result<
    (),
    VotingError,
>)
    requires
        old(ctx).poll.tally_consistent(),
        old(ctx).poll.total_votes < u32::MAX,
    ensures
        r == refusal(private_vote_error(&*old(ctx), option_index, now)),
        r is Ok ==> final(ctx).poll.is_vote_on(&old(ctx).poll, option_index as int),
        r is Ok ==> final(ctx).voter_registry == (VoterRegistry {
            has_voted: true,
            ..old(ctx).voter_registry
        }),
        r is Ok ==> final(ctx).voter == old(ctx).voter && final(ctx).poll_key == old(ctx).poll_key,
        r is Err ==> *final(ctx) == *old(ctx),
        final(ctx).poll.tally_consistent(),
{
    validate_private_vote(ctx, option_index, now)?;
    ctx.voter_registry.has_voted = true;
    record_vote(&mut ctx.poll, option_index as usize);
    Ok(())
}

/// Deactivates the poll for good; only its creator may. Closing a closed
/// poll again is accepted.
pub fn close_poll(ctx: &mut ClosePoll) -> (r: Result<(), VotingError>)
    ensures
        r == refusal(authority_error(old(ctx).authority, old(ctx).poll.creator)),
        r is Ok ==> *final(ctx) == (ClosePoll {
            poll: Poll { is_active: false, ..old(ctx).poll },
            ..*old(ctx)
        }),
        r is Err ==> *final(ctx) == *old(ctx),
{
    authorize(&ctx.authority, &ctx.poll.creator)?;
    ctx.poll.is_active = false;
    Ok(())
}

/// Allows the deletion of the poll: only its creator may delete it.
pub fn delete_poll(ctx: &DeletePoll) -> (r: Result<(), VotingError>)
    ensures
        r == refusal(authority_error(ctx.authority, ctx.poll.creator)),
{
    authorize(&ctx.authority, &ctx.poll.creator)
}

} // verus!
