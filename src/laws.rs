use vstd::prelude::*;

use crate::constants::{MAX_DESCRIPTION_LENGTH, MAX_NAME_LENGTH, MAX_OPTIONS};
use crate::error::VotingError;
use crate::guards::{option_error, window_error};
use crate::instructions::create_error;
use crate::ledger::{receipts_voted, registries_voted, LedgerView, StoreError};
use crate::state::{votes_sum, Pubkey, VoteRecord, VoterRegistry};

verus! {

/// In a well-formed ledger, every poll's total equals the sum of its
/// options' tallies. Every operation on a ledger keeps it well-formed,
/// failed ones included, so this holds at every point in time.
pub proof fn lemma_total_is_sum_of_tallies(v: LedgerView, key: Pubkey)
    requires
        v.wf(),
        v.has_poll(key),
    ensures
        v.poll(key).total_votes as int == votes_sum(v.poll(key).options@),
{
    let i = v.poll_index(key);
    assert(v.polls[i].poll.well_formed());
}

/// Once a voter holds a receipt for a poll, every further public vote of
/// that voter on that poll fails; where the poll type, the voting window and
/// the option are all in order, it fails as a repeated vote.
pub proof fn lemma_public_vote_only_once(
    v: LedgerView,
    voter: Pubkey,
    key: Pubkey,
    option_index: u8,
    now: i64,
)
    requires
        v.wf(),
        v.has_receipt(key, voter),
    ensures
        v.public_vote_outcome(voter, key, option_index, now) is Err,
        v.has_poll(key) && v.poll(key).is_public && window_error(&v.poll(key), now) is None
            && option_error(&v.poll(key), option_index) is None ==> v.public_vote_outcome(
            voter,
            key,
            option_index,
            now,
        ) == Err::<(), StoreError>(StoreError::Rule(VotingError::AlreadyVoted)),
{
}

/// Once a registered voter has voted on a private poll, every further
/// private vote of that voter on that poll fails; where the poll type, the
/// voting window and the option are in order, it fails as a repeated vote.
pub proof fn lemma_private_vote_only_once(
    v: LedgerView,
    voter: Pubkey,
    key: Pubkey,
    option_index: u8,
    now: i64,
)
    requires
        v.wf(),
        v.has_registry(key, voter),
        v.registry(key, voter).has_voted,
    ensures
        v.private_vote_outcome(voter, key, option_index, now) is Err,
        v.has_poll(key) && !v.poll(key).is_public && window_error(&v.poll(key), now) is None
            && option_error(
            &v.poll(key),
            option_index,
        ) is None ==> v.private_vote_outcome(voter, key, option_index, now) == Err::<
            (),
            StoreError,
        >(StoreError::Rule(VotingError::AlreadyVoted)),
{
    let i = v.registry_index(key, voter);
    assert(v.registries[i].poll == key && v.registries[i].voter == voter);
}

/// A public vote on a private poll, or a private vote on a public poll,
/// fails as the wrong poll type.
pub proof fn lemma_paths_exclusive(v: LedgerView, voter: Pubkey, key: Pubkey, option_index: u8, now: i64)
    requires
        v.wf(),
        v.has_poll(key),
    ensures
        !v.poll(key).is_public ==> v.public_vote_outcome(voter, key, option_index, now) == Err::<
            (),
            StoreError,
        >(StoreError::Rule(VotingError::WrongPollType)),
        v.poll(key).is_public ==> v.private_vote_outcome(voter, key, option_index, now) == Err::<
            (),
            StoreError,
        >(StoreError::Rule(VotingError::WrongPollType)),
{
}

/// On the right path, a vote before the start fails as not started, one
/// after the end as ended, and one inside the window on a closed poll as
/// inactive.
pub proof fn lemma_window_refusals(v: LedgerView, voter: Pubkey, key: Pubkey, option_index: u8, now: i64)
    requires
        v.wf(),
        v.has_poll(key),
    ensures
        v.poll(key).is_public && now < v.poll(key).start_time ==> v.public_vote_outcome(
            voter,
            key,
            option_index,
            now,
        ) == Err::<(), StoreError>(StoreError::Rule(VotingError::PollNotStarted)),
        v.poll(key).is_public && v.poll(key).start_time <= now && now > v.poll(key).end_time
            ==> v.public_vote_outcome(voter, key, option_index, now) == Err::<(), StoreError>(
            StoreError::Rule(VotingError::PollEnded),
        ),
        v.poll(key).is_public && v.poll(key).start_time <= now <= v.poll(key).end_time
            && !v.poll(key).is_active ==> v.public_vote_outcome(voter, key, option_index, now)
            == Err::<(), StoreError>(StoreError::Rule(VotingError::PollInactive)),
        !v.poll(key).is_public && v.has_registry(key, voter) && now < v.poll(key).start_time
            ==> v.private_vote_outcome(voter, key, option_index, now) == Err::<(), StoreError>(
            StoreError::Rule(VotingError::PollNotStarted),
        ),
        !v.poll(key).is_public && v.has_registry(key, voter) && v.poll(key).start_time <= now
            && now > v.poll(key).end_time ==> v.private_vote_outcome(voter, key, option_index, now)
            == Err::<(), StoreError>(StoreError::Rule(VotingError::PollEnded)),
        !v.poll(key).is_public && v.has_registry(key, voter) && v.poll(key).start_time <= now
            <= v.poll(key).end_time && !v.poll(key).is_active ==> v.private_vote_outcome(
            voter,
            key,
            option_index,
            now,
        ) == Err::<(), StoreError>(StoreError::Rule(VotingError::PollInactive)),
{
}

/// A closed poll accepts no vote on either path, at any time.
pub proof fn lemma_closed_poll_takes_no_votes(
    v: LedgerView,
    voter: Pubkey,
    key: Pubkey,
    option_index: u8,
    now: i64,
)
    requires
        v.wf(),
        v.has_poll(key),
        !v.poll(key).is_active,
    ensures
        v.public_vote_outcome(voter, key, option_index, now) is Err,
        v.private_vote_outcome(voter, key, option_index, now) is Err,
{
}

/// Only a poll's creator may close it, delete it, or register voters on it;
/// anyone else is refused as unauthorized.
pub proof fn lemma_only_creator_manages(v: LedgerView, caller: Pubkey, key: Pubkey, voter: Pubkey)
    requires
        v.wf(),
        v.has_poll(key),
        caller != v.poll(key).creator,
    ensures
        v.creator_outcome(caller, key) == Err::<(), StoreError>(
            StoreError::Rule(VotingError::Unauthorized),
        ),
        v.register_outcome(caller, key, voter) == Err::<(), StoreError>(
            StoreError::Rule(VotingError::Unauthorized),
        ),
{
}

/// More than the maximum number of options is refused as too many options;
/// with the options, the times and the name in order, a description over
/// its maximum length is refused as too long.
pub proof fn lemma_creation_bounds(
    name: Seq<char>,
    description: Seq<char>,
    options: Seq<String>,
    start_time: i64,
    end_time: i64,
)
    ensures
        options.len() > MAX_OPTIONS ==> create_error(name, description, options, start_time, end_time)
            == Some(VotingError::TooManyOptions),
        1 <= options.len() <= MAX_OPTIONS && start_time < end_time && name.len()
            <= MAX_NAME_LENGTH && description.len() > MAX_DESCRIPTION_LENGTH ==> create_error(
            name,
            description,
            options,
            start_time,
            end_time,
        ) == Some(VotingError::DescriptionTooLong),
{
}

/// Adding a receipt adds one to the count of its poll exactly when it
/// records a vote.
pub proof fn lemma_receipts_voted_push(s: Seq<VoteRecord>, r: VoteRecord, key: Pubkey)
    ensures
        receipts_voted(s.push(r), key) == receipts_voted(s, key) + if r.poll == key
            && r.has_voted {
            1nat
        } else {
            0nat
        },
{
    assert(s.push(r).drop_last() =~= s);
}

/// Replacing one registration changes the count of a poll by what the new
/// one adds and the old one took.
pub proof fn lemma_registries_voted_update(
    s: Seq<VoterRegistry>,
    i: int,
    r: VoterRegistry,
    key: Pubkey,
)
    requires
        0 <= i < s.len(),
    ensures
        registries_voted(s.update(i, r), key) + (if s[i].poll == key && s[i].has_voted {
            1nat
        } else {
            0nat
        }) == registries_voted(s, key) + (if r.poll == key && r.has_voted {
            1nat
        } else {
            0nat
        }),
    decreases s.len(),
{
    let u = s.update(i, r);
    if i == s.len() - 1 {
        assert(u.drop_last() =~= s.drop_last());
    } else {
        lemma_registries_voted_update(s.drop_last(), i, r, key);
        assert(u.drop_last() =~= s.drop_last().update(i, r));
    }
}

/// A successful public vote raises both the poll's total and the number of
/// its records that record a vote by one: the stored receipt is the only
/// record added, and no registration changes.
pub proof fn lemma_public_vote_counts(
    v0: LedgerView,
    v1: LedgerView,
    voter: Pubkey,
    key: Pubkey,
    option_index: u8,
)
    requires
        v0.has_poll(key),
        v1.has_poll(key),
        v1.poll(key).is_vote_on(&v0.poll(key), option_index as int),
        v1.registries == v0.registries,
        v1.receipts == v0.receipts.push((VoteRecord { poll: key, voter, has_voted: true })),
    ensures
        v1.poll(key).total_votes == v0.poll(key).total_votes + 1,
        v1.voted_count(key) == v0.voted_count(key) + 1,
{
    lemma_receipts_voted_push(v0.receipts, VoteRecord { poll: key, voter, has_voted: true }, key);
}

/// A successful private vote raises both the poll's total and the number of
/// its records that record a vote by one: the voter's registration turns
/// from not voted to voted, and nothing else changes.
pub proof fn lemma_private_vote_counts(
    v0: LedgerView,
    v1: LedgerView,
    voter: Pubkey,
    key: Pubkey,
    option_index: u8,
)
    requires
        v0.has_poll(key),
        v1.has_poll(key),
        v0.has_registry(key, voter),
        !v0.registry(key, voter).has_voted,
        v1.poll(key).is_vote_on(&v0.poll(key), option_index as int),
        v1.receipts == v0.receipts,
        v1.registries == v0.registries.update(
            v0.registry_index(key, voter),
            (VoterRegistry { poll: key, voter, has_voted: true }),
        ),
    ensures
        v1.poll(key).total_votes == v0.poll(key).total_votes + 1,
        v1.voted_count(key) == v0.voted_count(key) + 1,
{
    lemma_registries_voted_update(
        v0.registries,
        v0.registry_index(key, voter),
        VoterRegistry { poll: key, voter, has_voted: true },
        key,
    );
}

/// A failed vote, on either path, changes neither the poll's total nor the
/// number of its records that record a vote: the ledger is left as it was.
pub proof fn lemma_failed_vote_counts(v0: LedgerView, v1: LedgerView, key: Pubkey)
    requires
        v0.has_poll(key),
        v1 == v0,
    ensures
        v1.poll(key).total_votes == v0.poll(key).total_votes,
        v1.voted_count(key) == v0.voted_count(key),
{
}

} // verus!
