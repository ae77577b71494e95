use vstd::prelude::*;

use crate::constants::{MAX_DESCRIPTION_LENGTH, MAX_NAME_LENGTH, MAX_OPTIONS, MAX_OPTION_LENGTH};

verus! {

/// A 32-byte account identity: the creator of a poll, a voter, or the
/// address under which a poll is stored.
#[derive(Debug, Clone, Copy, Eq)]
pub struct Pubkey {
    pub bytes: [u8; 32],
}

impl PartialEq for Pubkey {
    fn eq(&self, other: &Pubkey) -> (r: bool) {
        let mut i: usize = 0;
        while i < 32
            invariant
                0 <= i <= 32,
                forall|j: int| 0 <= j < i ==> self.bytes[j] == other.bytes[j],
            decreases 32 - i,
        {
            if self.bytes[i] != other.bytes[i] {
                return false;
            }
            i = i + 1;
        }
        assert(self.bytes =~= other.bytes);
        true
    }
}

impl vstd::std_specs::cmp::PartialEqSpecImpl for Pubkey {
    open spec fn obeys_eq_spec() -> bool {
        true
    }

    open spec fn eq_spec(&self, other: &Pubkey) -> bool {
        *self == *other
    }
}

impl Pubkey {
    pub fn new(bytes: [u8; 32]) -> (r: Pubkey)
        ensures
            r.bytes == bytes,
    {
        Pubkey { bytes }
    }
}

/// One choice of a poll with its tally.
pub struct PollOption {
    pub text: String,
    pub vote_count: u32,
}

/// The canonical state of one poll.
pub struct Poll {
    pub creator: Pubkey,
    pub name: String,
    pub description: String,
    pub start_time: i64,
    pub end_time: i64,
    pub is_public: bool,
    pub is_active: bool,
    pub total_votes: u32,
    pub options: Vec<PollOption>,
}

/// Per-(poll, voter) registration of a private poll.
#[derive(Debug, Clone, Copy, PartialEq, Eq)]
pub struct VoterRegistry {
    pub poll: Pubkey,
    pub voter: Pubkey,
    pub has_voted: bool,
}

/// Per-(poll, voter) marker of a vote cast on a public poll.
#[derive(Debug, Clone, Copy, PartialEq, Eq)]
pub struct VoteRecord {
    pub poll: Pubkey,
    pub voter: Pubkey,
    pub has_voted: bool,
}

/// The sum of the tallies of a sequence of options.
pub open spec fn votes_sum(opts: Seq<PollOption>) -> int
    decreases opts.len(),
{
    if opts.len() == 0 {
        0
    } else {
        votes_sum(opts.drop_last()) + opts.last().vote_count
    }
}

/// Every option carries a tally of zero.
pub open spec fn all_zero(opts: Seq<PollOption>) -> bool {
    forall|i: int| 0 <= i < opts.len() ==> #[trigger] opts[i].vote_count == 0
}

/// Raising one option's tally by one raises the sum by one.
pub proof fn lemma_votes_sum_bump(opts: Seq<PollOption>, i: int, o: PollOption)
    requires
        0 <= i < opts.len(),
        o.vote_count == opts[i].vote_count + 1,
    ensures
        votes_sum(opts.update(i, o)) == votes_sum(opts) + 1,
    decreases opts.len(),
{
    let u = opts.update(i, o);
    if i == opts.len() - 1 {
        assert(u.drop_last() =~= opts.drop_last());
    } else {
        lemma_votes_sum_bump(opts.drop_last(), i, o);
        assert(u.drop_last() =~= opts.drop_last().update(i, o));
    }
}

/// A sequence of options whose tallies are all zero sums to zero.
pub proof fn lemma_votes_sum_zero(opts: Seq<PollOption>)
    requires
        all_zero(opts),
    ensures
        votes_sum(opts) == 0,
    decreases opts.len(),
{
    if opts.len() > 0 {
        lemma_votes_sum_zero(opts.drop_last());
    }
}

/// No single tally exceeds the sum of all of them.
pub proof fn lemma_votes_sum_bound(opts: Seq<PollOption>, i: int)
    requires
        0 <= i < opts.len(),
    ensures
        opts[i].vote_count <= votes_sum(opts),
    decreases opts.len(),
{
    lemma_votes_sum_nonneg(opts.drop_last());
    if i < opts.len() - 1 {
        lemma_votes_sum_bound(opts.drop_last(), i);
    }
}

/// A sum of tallies is never negative.
pub proof fn lemma_votes_sum_nonneg(opts: Seq<PollOption>)
    ensures
        votes_sum(opts) >= 0,
    decreases opts.len(),
{
    if opts.len() > 0 {
        lemma_votes_sum_nonneg(opts.drop_last());
    }
}

impl Poll {
    /// The poll's total equals the sum of its options' tallies.
    pub open spec fn tally_consistent(&self) -> bool {
        self.total_votes as int == votes_sum(self.options@)
    }

    /// The bounds fixed at creation hold, and the tally is consistent.
    pub open spec fn well_formed(&self) -> bool {
        &&& 1 <= self.options@.len() <= MAX_OPTIONS
        &&& self.start_time < self.end_time
        &&& self.name@.len() <= MAX_NAME_LENGTH
        &&& self.description@.len() <= MAX_DESCRIPTION_LENGTH
        &&& forall|i: int|
            0 <= i < self.options@.len() ==> (#[trigger] self.options@[i].text@).len()
                <= MAX_OPTION_LENGTH
        &&& self.tally_consistent()
    }

    /// `self` is `old` after one more vote for option `i`: that option's
    /// tally and the total rise by one, and nothing else changes.
    pub open spec fn is_vote_on(&self, old: &Poll, i: int) -> bool {
        &&& 0 <= i < old.options@.len()
        &&& self.options@ == old.options@.update(
            i,
            PollOption { text: old.options@[i].text, vote_count: (old.options@[i].vote_count + 1) as u32 },
        )
        &&& self.total_votes == old.total_votes + 1
        &&& self.creator == old.creator
        &&& self.name == old.name
        &&& self.description == old.description
        &&& self.start_time == old.start_time
        &&& self.end_time == old.end_time
        &&& self.is_public == old.is_public
        &&& self.is_active == old.is_active
    }
}

/// A vote keeps the bounds that a poll was created with.
pub proof fn lemma_vote_keeps_well_formed(p: &Poll, q: &Poll, i: int)
    requires
        p.well_formed(),
        q.is_vote_on(p, i),
        q.tally_consistent(),
    ensures
        q.well_formed(),
{
    assert forall|j: int| 0 <= j < q.options@.len() implies (
    #[trigger] q.options@[j].text@).len() <= MAX_OPTION_LENGTH by {
        if j != i {
            assert(q.options@[j] == p.options@[j]);
        }
    }
}

} // verus!
