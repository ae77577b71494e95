use vstd::prelude::*;

use crate::error::VotingError;
use crate::laws::{lemma_private_vote_counts, lemma_public_vote_counts};
use crate::guards::authority_error;
use crate::instructions::{
    cast_vote_private, cast_vote_public, close_poll, delete_poll, register_voter,
    validate_private_vote, validate_public_vote, ClosePoll, DeletePoll,
    create_error, create_poll, is_new_poll, private_vote_error, public_vote_error, register_error, CastVotePrivate,
    CastVotePublic, CreatePoll, RegisterVoter,
};
use crate::state::{lemma_vote_keeps_well_formed, Poll, Pubkey, VoteRecord, VoterRegistry};

verus! {

/// Why an operation on the record store fails.
#[derive(Debug, Clone, Copy, PartialEq, Eq, Structural)]
pub enum StoreError {
    /// A rule of the poll refused the operation.
    Rule(VotingError),
    /// The record that the operation would create already exists.
    AccountInUse,
    /// A record that the operation needs does not exist.
    AccountNotFound,
    /// The poll's total already holds the largest count it can.
    Overflow,
}

/// A poll stored under its address.
pub struct PollAccount {
    pub key: Pubkey,
    pub poll: Poll,
}

/// What a ledger holds: polls by address, registrations of private voters
/// and receipts of public voters, each keyed by (poll, voter).
pub struct LedgerView {
    pub polls: Seq<PollAccount>,
    pub registries: Seq<VoterRegistry>,
    pub receipts: Seq<VoteRecord>,
}

/// How many of these receipts belong to `key` and record a vote.
pub open spec fn receipts_voted(s: Seq<VoteRecord>, key: Pubkey) -> nat
    decreases s.len(),
{
    if s.len() == 0 {
        0
    } else {
        receipts_voted(s.drop_last(), key) + if s.last().poll == key && s.last().has_voted {
            1nat
        } else {
            0nat
        }
    }
}

/// How many of these registrations belong to `key` and record a vote.
pub open spec fn registries_voted(s: Seq<VoterRegistry>, key: Pubkey) -> nat
    decreases s.len(),
{
    if s.len() == 0 {
        0
    } else {
        registries_voted(s.drop_last(), key) + if s.last().poll == key && s.last().has_voted {
            1nat
        } else {
            0nat
        }
    }
}

impl LedgerView {
    /// How many receipts and registrations of the poll under `key` record a
    /// vote.
    pub open spec fn voted_count(self, key: Pubkey) -> nat {
        receipts_voted(self.receipts, key) + registries_voted(self.registries, key)
    }

    pub open spec fn has_poll(self, key: Pubkey) -> bool {
        exists|i: int| 0 <= i < self.polls.len() && #[trigger] self.polls[i].key == key
    }

    pub open spec fn poll_index(self, key: Pubkey) -> int {
        choose|i: int| 0 <= i < self.polls.len() && #[trigger] self.polls[i].key == key
    }

    /// The poll stored under `key`; meaningful where `has_poll(key)`.
    pub open spec fn poll(self, key: Pubkey) -> Poll {
        self.polls[self.poll_index(key)].poll
    }

    pub open spec fn has_registry(self, poll: Pubkey, voter: Pubkey) -> bool {
        exists|i: int|
            0 <= i < self.registries.len() && #[trigger] self.registries[i].poll == poll
                && self.registries[i].voter == voter
    }

    pub open spec fn registry_index(self, poll: Pubkey, voter: Pubkey) -> int {
        choose|i: int|
            0 <= i < self.registries.len() && #[trigger] self.registries[i].poll == poll
                && self.registries[i].voter == voter
    }

    /// The registration of `voter` on `poll`; meaningful where `has_registry`.
    pub open spec fn registry(self, poll: Pubkey, voter: Pubkey) -> VoterRegistry {
        self.registries[self.registry_index(poll, voter)]
    }

    pub open spec fn has_receipt(self, poll: Pubkey, voter: Pubkey) -> bool {
        exists|i: int|
            0 <= i < self.receipts.len() && #[trigger] self.receipts[i].poll == poll
                && self.receipts[i].voter == voter
    }

    /// At most one poll per address and one record per (poll, voter); every
    /// poll keeps the bounds of its creation and a total equal to the sum of
    /// its tallies; every stored receipt records a vote.
    pub open spec fn wf(self) -> bool {
        &&& forall|i: int, j: int|
            0 <= i < self.polls.len() && 0 <= j < self.polls.len() && #[trigger] self.polls[i].key
                == #[trigger] self.polls[j].key ==> i == j
        &&& forall|i: int, j: int|
            0 <= i < self.registries.len() && 0 <= j < self.registries.len()
                && #[trigger] self.registries[i].poll == #[trigger] self.registries[j].poll
                && self.registries[i].voter == self.registries[j].voter ==> i == j
        &&& forall|i: int, j: int|
            0 <= i < self.receipts.len() && 0 <= j < self.receipts.len()
                && #[trigger] self.receipts[i].poll == #[trigger] self.receipts[j].poll
                && self.receipts[i].voter == self.receipts[j].voter ==> i == j
        &&& forall|i: int| 0 <= i < self.polls.len() ==> #[trigger] self.polls[i].poll.well_formed()
        &&& forall|i: int| 0 <= i < self.receipts.len() ==> #[trigger] self.receipts[i].has_voted
    }

    /// The result of creating a poll under `key`.
    pub open spec fn create_outcome(
        self,
        key: Pubkey,
        name: Seq<char>,
        description: Seq<char>,
        options: Seq<String>,
        start_time: i64,
        end_time: i64,
    ) -> Result<(), StoreError> {
        if self.has_poll(key) {
            Err(StoreError::AccountInUse)
        } else {
            match create_error(name, description, options, start_time, end_time) {
                Some(e) => Err(StoreError::Rule(e)),
                None => Ok(()),
            }
        }
    }

    /// The result of `authority` registering `voter` on the poll under `key`.
    pub open spec fn register_outcome(self, authority: Pubkey, key: Pubkey, voter: Pubkey) -> Result<
        (),
        StoreError,
    > {
        if !self.has_poll(key) {
            Err(StoreError::AccountNotFound)
        } else if register_error(&(RegisterVoter { authority, poll_key: key, poll: &self.poll(key) }))
            is Some {
            Err(
                StoreError::Rule(
                    register_error(
                        &(RegisterVoter { authority, poll_key: key, poll: &self.poll(key) }),
                    )->Some_0,
                ),
            )
        } else if self.has_registry(key, voter) {
            Err(StoreError::AccountInUse)
        } else {
            Ok(())
        }
    }

    /// The receipt that a public vote of `voter` on `key` works on: the
    /// stored one, or a fresh one.
    pub open spec fn receipt_for(self, key: Pubkey, voter: Pubkey) -> VoteRecord {
        if self.has_receipt(key, voter) {
            VoteRecord { poll: key, voter, has_voted: true }
        } else {
            VoteRecord { poll: key, voter, has_voted: false }
        }
    }

    /// The result of `voter` voting for `option_index` on the public poll
    /// under `key` at time `now`.
    pub open spec fn public_vote_outcome(self, voter: Pubkey, key: Pubkey, option_index: u8, now: i64) -> Result<(), StoreError> {
        if !self.has_poll(key) {
            Err(StoreError::AccountNotFound)
        } else {
            let ctx = CastVotePublic {
                voter,
                poll_key: key,
                poll: self.poll(key),
                vote_record: self.receipt_for(key, voter),
            };
            match public_vote_error(&ctx, option_index, now) {
                Some(e) => Err(StoreError::Rule(e)),
                None => if self.poll(key).total_votes == u32::MAX {
                    Err(StoreError::Overflow)
                } else {
                    Ok(())
                },
            }
        }
    }

    /// The result of `voter` voting for `option_index` on the private poll
    /// under `key` at time `now`.
    pub open spec fn private_vote_outcome(self, voter: Pubkey, key: Pubkey, option_index: u8, now: i64) -> Result<(), StoreError> {
        if !self.has_poll(key) {
            Err(StoreError::AccountNotFound)
        } else if self.poll(key).is_public {
            Err(StoreError::Rule(VotingError::WrongPollType))
        } else if !self.has_registry(key, voter) {
            Err(StoreError::AccountNotFound)
        } else {
            let ctx = CastVotePrivate {
                voter,
                poll_key: key,
                poll: self.poll(key),
                voter_registry: self.registry(key, voter),
            };
            match private_vote_error(&ctx, option_index, now) {
                Some(e) => Err(StoreError::Rule(e)),
                None => if self.poll(key).total_votes == u32::MAX {
                    Err(StoreError::Overflow)
                } else {
                    Ok(())
                },
            }
        }
    }

    /// The result of `authority` closing or deleting the poll under `key`.
    pub open spec fn creator_outcome(self, authority: Pubkey, key: Pubkey) -> Result<(), StoreError> {
        if !self.has_poll(key) {
            Err(StoreError::AccountNotFound)
        } else {
            match authority_error(authority, self.poll(key).creator) {
                Some(e) => Err(StoreError::Rule(e)),
                None => Ok(()),
            }
        }
    }
}

/// `new` is `old` with at most the poll at index `i` replaced, under the same
/// address.
pub open spec fn only_poll_changed(old: Seq<PollAccount>, new: Seq<PollAccount>, i: int) -> bool {
    &&& new.len() == old.len()
    &&& 0 <= i < old.len()
    &&& new[i].key == old[i].key
    &&& forall|j: int| 0 <= j < old.len() && j != i ==> #[trigger] new[j] == old[j]
}

/// Replacing a poll by a well-formed one under the same address keeps the
/// ledger well-formed.
proof fn lemma_wf_set_poll(v: LedgerView, i: int, a: PollAccount)
    requires
        v.wf(),
        0 <= i < v.polls.len(),
        a.key == v.polls[i].key,
        a.poll.well_formed(),
    ensures
        (LedgerView { polls: v.polls.update(i, a), ..v }).wf(),
{
    let w = LedgerView { polls: v.polls.update(i, a), ..v };
    assert forall|j: int| 0 <= j < w.polls.len() implies #[trigger] w.polls[j].key
        == v.polls[j].key by {}
    assert forall|j: int, k: int|
        0 <= j < w.polls.len() && 0 <= k < w.polls.len() && #[trigger] w.polls[j].key
            == #[trigger] w.polls[k].key implies j == k by {
        assert(v.polls[j].key == v.polls[k].key);
    }
}

/// Adding a well-formed poll under a free address keeps the ledger
/// well-formed.
proof fn lemma_wf_push_poll(v: LedgerView, a: PollAccount)
    requires
        v.wf(),
        !v.has_poll(a.key),
        a.poll.well_formed(),
    ensures
        (LedgerView { polls: v.polls.push(a), ..v }).wf(),
{
    let w = LedgerView { polls: v.polls.push(a), ..v };
    assert forall|j: int| 0 <= j < v.polls.len() implies #[trigger] w.polls[j] == v.polls[j] by {}
    assert forall|j: int, k: int|
        0 <= j < w.polls.len() && 0 <= k < w.polls.len() && #[trigger] w.polls[j].key
            == #[trigger] w.polls[k].key implies j == k by {
        if j < v.polls.len() && k == v.polls.len() {
            assert(v.polls[j].key == a.key);
        }
        if k < v.polls.len() && j == v.polls.len() {
            assert(v.polls[k].key == a.key);
        }
    }
    assert forall|j: int| 0 <= j < w.polls.len() implies #[trigger] w.polls[j].poll.well_formed() by {
        if j < v.polls.len() {
            assert(w.polls[j] == v.polls[j]);
        }
    }
}

/// Removing a poll keeps the ledger well-formed, and its address free.
proof fn lemma_wf_remove_poll(v: LedgerView, i: int)
    requires
        v.wf(),
        0 <= i < v.polls.len(),
    ensures
        (LedgerView { polls: v.polls.remove(i), ..v }).wf(),
        !(LedgerView { polls: v.polls.remove(i), ..v }).has_poll(v.polls[i].key),
{
    let w = LedgerView { polls: v.polls.remove(i), ..v };
    assert forall|j: int| 0 <= j < w.polls.len() implies #[trigger] w.polls[j] == v.polls[
        if j < i {
            j
        } else {
            j + 1
        }
    ] by {}
    assert forall|j: int, k: int|
        0 <= j < w.polls.len() && 0 <= k < w.polls.len() && #[trigger] w.polls[j].key
            == #[trigger] w.polls[k].key implies j == k by {
        assert(w.polls[j] == v.polls[if j < i { j } else { j + 1 }]);
        assert(w.polls[k] == v.polls[if k < i { k } else { k + 1 }]);
    }
    if w.has_poll(v.polls[i].key) {
        let j = choose|j: int| 0 <= j < w.polls.len() && #[trigger] w.polls[j].key == v.polls[i].key;
        assert(w.polls[j] == v.polls[if j < i { j } else { j + 1 }]);
    }
}

/// Adding the first registration of a (poll, voter) pair keeps the ledger
/// well-formed.
proof fn lemma_wf_push_registry(v: LedgerView, rec: VoterRegistry)
    requires
        v.wf(),
        !v.has_registry(rec.poll, rec.voter),
    ensures
        (LedgerView { registries: v.registries.push(rec), ..v }).wf(),
{
    let w = LedgerView { registries: v.registries.push(rec), ..v };
    assert forall|j: int| 0 <= j < v.registries.len() implies #[trigger] w.registries[j]
        == v.registries[j] by {}
    assert forall|j: int, k: int|
        0 <= j < w.registries.len() && 0 <= k < w.registries.len()
            && #[trigger] w.registries[j].poll == #[trigger] w.registries[k].poll
            && w.registries[j].voter == w.registries[k].voter implies j == k by {
        if j < v.registries.len() && k == v.registries.len() {
            assert(v.registries[j].poll == rec.poll && v.registries[j].voter == rec.voter);
        }
        if k < v.registries.len() && j == v.registries.len() {
            assert(v.registries[k].poll == rec.poll && v.registries[k].voter == rec.voter);
        }
    }
}

/// Rewriting a registration under the same (poll, voter) keeps the ledger
/// well-formed.
proof fn lemma_wf_set_registry(v: LedgerView, i: int, rec: VoterRegistry)
    requires
        v.wf(),
        0 <= i < v.registries.len(),
        rec.poll == v.registries[i].poll,
        rec.voter == v.registries[i].voter,
    ensures
        (LedgerView { registries: v.registries.update(i, rec), ..v }).wf(),
{
    let w = LedgerView { registries: v.registries.update(i, rec), ..v };
    assert forall|j: int, k: int|
        0 <= j < w.registries.len() && 0 <= k < w.registries.len()
            && #[trigger] w.registries[j].poll == #[trigger] w.registries[k].poll
            && w.registries[j].voter == w.registries[k].voter implies j == k by {
        assert(v.registries[j].poll == v.registries[k].poll);
    }
}

/// Adding the first receipt of a (poll, voter) pair, marked as voted, keeps
/// the ledger well-formed.
proof fn lemma_wf_push_receipt(v: LedgerView, rec: VoteRecord)
    requires
        v.wf(),
        rec.has_voted,
        !v.has_receipt(rec.poll, rec.voter),
    ensures
        (LedgerView { receipts: v.receipts.push(rec), ..v }).wf(),
{
    let w = LedgerView { receipts: v.receipts.push(rec), ..v };
    assert forall|j: int| 0 <= j < v.receipts.len() implies #[trigger] w.receipts[j]
        == v.receipts[j] by {}
    assert forall|j: int, k: int|
        0 <= j < w.receipts.len() && 0 <= k < w.receipts.len()
            && #[trigger] w.receipts[j].poll == #[trigger] w.receipts[k].poll
            && w.receipts[j].voter == w.receipts[k].voter implies j == k by {
        if j < v.receipts.len() && k == v.receipts.len() {
            assert(v.receipts[j].poll == rec.poll && v.receipts[j].voter == rec.voter);
        }
        if k < v.receipts.len() && j == v.receipts.len() {
            assert(v.receipts[k].poll == rec.poll && v.receipts[k].voter == rec.voter);
        }
    }
    assert forall|j: int| 0 <= j < w.receipts.len() implies #[trigger] w.receipts[j].has_voted by {
        if j < v.receipts.len() {
            assert(w.receipts[j] == v.receipts[j]);
        }
    }
}

/// Uniqueness pins the index that `choose` picks for a stored poll.
proof fn lemma_poll_index(v: LedgerView, key: Pubkey, i: int)
    requires
        v.wf(),
        0 <= i < v.polls.len(),
        v.polls[i].key == key,
    ensures
        v.has_poll(key),
        v.poll_index(key) == i,
{
}

/// Uniqueness pins the index that `choose` picks for a registration.
proof fn lemma_registry_index(v: LedgerView, poll: Pubkey, voter: Pubkey, i: int)
    requires
        v.wf(),
        0 <= i < v.registries.len(),
        v.registries[i].poll == poll,
        v.registries[i].voter == voter,
    ensures
        v.has_registry(poll, voter),
        v.registry_index(poll, voter) == i,
{
}

/// An in-memory record store: polls by address, and the per-(poll, voter)
/// records that can each be created only once.
pub struct Ledger {
    polls: Vec<PollAccount>,
    registries: Vec<VoterRegistry>,
    receipts: Vec<VoteRecord>,
}

impl View for Ledger {
    type V = LedgerView;

    closed spec fn view(&self) -> LedgerView {
        LedgerView { polls: self.polls@, registries: self.registries@, receipts: self.receipts@ }
    }
}

impl Ledger {
    /// An empty ledger.
    pub fn new() -> (r: Ledger)
        ensures
            r@.wf(),
            r@.polls.len() == 0,
            r@.registries.len() == 0,
            r@.receipts.len() == 0,
    {
        Ledger { polls: Vec::new(), registries: Vec::new(), receipts: Vec::new() }
    }

    fn find_poll(&self, key: &Pubkey) -> (r: Option<usize>)
        requires
            self@.wf(),
        ensures
            r is Some <==> self@.has_poll(*key),
            r is Some ==> r->Some_0 < self@.polls.len() && r->Some_0 == self@.poll_index(*key),
    {
        let mut i: usize = 0;
        while i < self.polls.len()
            invariant
                self@.wf(),
                0 <= i <= self@.polls.len(),
                forall|j: int| 0 <= j < i ==> #[trigger] self@.polls[j].key != *key,
            decreases self@.polls.len() - i,
        {
            if self.polls[i].key == *key {
                proof {
                    lemma_poll_index(self@, *key, i as int);
                }
                return Some(i);
            }
            i = i + 1;
        }
        None
    }

    fn find_registry(&self, poll: &Pubkey, voter: &Pubkey) -> (r: Option<usize>)
        requires
            self@.wf(),
        ensures
            r is Some <==> self@.has_registry(*poll, *voter),
            r is Some ==> r->Some_0 < self@.registries.len() && r->Some_0 == self@.registry_index(
                *poll,
                *voter,
            ),
    {
        let mut i: usize = 0;
        while i < self.registries.len()
            invariant
                self@.wf(),
                0 <= i <= self@.registries.len(),
                forall|j: int|
                    0 <= j < i ==> !(#[trigger] self@.registries[j].poll == *poll
                        && self@.registries[j].voter == *voter),
            decreases self@.registries.len() - i,
        {
            if self.registries[i].poll == *poll && self.registries[i].voter == *voter {
                proof {
                    lemma_registry_index(self@, *poll, *voter, i as int);
                }
                return Some(i);
            }
            i = i + 1;
        }
        None
    }

    fn find_receipt(&self, poll: &Pubkey, voter: &Pubkey) -> (r: Option<usize>)
        requires
            self@.wf(),
        ensures
            r is Some <==> self@.has_receipt(*poll, *voter),
            r is Some ==> r->Some_0 < self@.receipts.len() && self@.receipts[r->Some_0 as int].poll
                == *poll && self@.receipts[r->Some_0 as int].voter == *voter,
    {
        let mut i: usize = 0;
        while i < self.receipts.len()
            invariant
                self@.wf(),
                0 <= i <= self@.receipts.len(),
                forall|j: int|
                    0 <= j < i ==> !(#[trigger] self@.receipts[j].poll == *poll
                        && self@.receipts[j].voter == *voter),
            decreases self@.receipts.len() - i,
        {
            if self.receipts[i].poll == *poll && self.receipts[i].voter == *voter {
                return Some(i);
            }
            i = i + 1;
        }
        None
    }

    /// The poll stored under `key`, if any.
    pub fn poll(&self, key: &Pubkey) -> (r: Option<&Poll>)
        requires
            self@.wf(),
        ensures
            r is Some <==> self@.has_poll(*key),
            r is Some ==> *r->Some_0 == self@.poll(*key),
    {
        match self.find_poll(key) {
            Some(i) => Some(&self.polls[i].poll),
            None => None,
        }
    }

    /// The registration of `voter` on the poll under `poll`, if any.
    pub fn voter_registry(&self, poll: &Pubkey, voter: &Pubkey) -> (r: Option<VoterRegistry>)
        requires
            self@.wf(),
        ensures
            r is Some <==> self@.has_registry(*poll, *voter),
            r is Some ==> r->Some_0 == self@.registry(*poll, *voter),
    {
        match self.find_registry(poll, voter) {
            Some(i) => Some(self.registries[i]),
            None => None,
        }
    }

    /// The receipt of `voter`'s public vote on the poll under `poll`, if any.
    pub fn vote_record(&self, poll: &Pubkey, voter: &Pubkey) -> (r: Option<VoteRecord>)
        requires
            self@.wf(),
        ensures
            r is Some <==> self@.has_receipt(*poll, *voter),
            r is Some ==> r->Some_0 == (VoteRecord { poll: *poll, voter: *voter, has_voted: true }),
    {
        match self.find_receipt(poll, voter) {
            Some(i) => {
                assert(self@.receipts[i as int].has_voted);
                Some(self.receipts[i])
            },
            None => None,
        }
    }

    /// Creates a poll under the fresh address `key`, owned by `creator`.
    /// Fails, storing nothing, if the address is taken or a bound is broken.
    pub fn create_poll(
        &mut self,
        key: Pubkey,
        creator: Pubkey,
        name: String,
        description: String,
        options: Vec<String>,
        start_time: i64,
        end_time: i64,
        is_public: bool,
    ) -> (r: Result<(), StoreError>)
        requires
            old(self)@.wf(),
        ensures
            final(self)@.wf(),
            r == old(self)@.create_outcome(key, name@, description@, options@, start_time, end_time),
            r is Err ==> final(self)@ == old(self)@,
            r is Ok ==> final(self)@.registries == old(self)@.registries
                && final(self)@.receipts == old(self)@.receipts
                && final(self)@.polls.len() == old(self)@.polls.len() + 1
                && final(self)@.polls.drop_last() == old(self)@.polls
                && final(self)@.polls.last().key == key
                && is_new_poll(
                final(self)@.polls.last().poll,
                creator,
                name@,
                description@,
                options@,
                start_time,
                end_time,
                is_public,
            ),
    {
        if self.find_poll(&key).is_some() {
            return Err(StoreError::AccountInUse);
        }
        let ctx = CreatePoll { creator };
        match create_poll(&ctx, name, description, options, start_time, end_time, is_public) {
            Ok(poll) => {
                let ghost v0 = self@;
                let acct = PollAccount { key, poll };
                proof {
                    lemma_wf_push_poll(v0, acct);
                }
                self.polls.push(acct);
                assert(self@.polls.drop_last() =~= v0.polls);
                Ok(())
            },
            Err(e) => Err(StoreError::Rule(e)),
        }
    }

    /// Registers `voter` on the private poll under `key`; only its creator
    /// may, and only once per voter.
    pub fn register_voter(&mut self, authority: Pubkey, key: Pubkey, voter: Pubkey) -> (r: Result<
        (),
        StoreError,
    >)
        requires
            old(self)@.wf(),
        ensures
            final(self)@.wf(),
            r == old(self)@.register_outcome(authority, key, voter),
            r is Err ==> final(self)@ == old(self)@,
            r is Ok ==> final(self)@.polls == old(self)@.polls && final(self)@.receipts == old(
                self,
            )@.receipts && final(self)@.registries == old(self)@.registries.push(
                (VoterRegistry { poll: key, voter, has_voted: false }),
            ),
    {
        let i = match self.find_poll(&key) {
            Some(i) => i,
            None => {
                return Err(StoreError::AccountNotFound);
            },
        };
        let ctx = RegisterVoter { authority, poll_key: key, poll: &self.polls[i].poll };
        let record = match register_voter(&ctx, voter) {
            Ok(rec) => rec,
            Err(e) => {
                return Err(StoreError::Rule(e));
            },
        };
        if self.find_registry(&key, &voter).is_some() {
            return Err(StoreError::AccountInUse);
        }
        let ghost v0 = self@;
        self.registries.push(record);
        proof {
            lemma_wf_push_registry(v0, record);
        }
        Ok(())
    }

    /// `voter` votes for `option_index` on the public poll under `key` at
    /// time `now`. The first vote of a voter on a poll stores its receipt;
    /// any failure leaves the ledger as it was.
    pub fn cast_vote_public(&mut self, voter: Pubkey, key: Pubkey, option_index: u8, now: i64) -> (r: Result<(), StoreError>)
        requires
            old(self)@.wf(),
        ensures
            final(self)@.wf(),
            r == old(self)@.public_vote_outcome(voter, key, option_index, now),
            r is Err ==> final(self)@ == old(self)@,
            r is Ok ==> only_poll_changed(old(self)@.polls, final(self)@.polls, old(self)@.poll_index(key)),
            r is Ok ==> final(self)@.poll(key).is_vote_on(&old(self)@.poll(key), option_index as int),
            r is Ok ==> final(self)@.registries == old(self)@.registries,
            r is Ok ==> final(self)@.receipts == old(self)@.receipts.push(
                (VoteRecord { poll: key, voter, has_voted: true }),
            ),
            r is Ok ==> final(self)@.has_receipt(key, voter),
            r is Ok ==> final(self)@.poll(key).total_votes == old(self)@.poll(key).total_votes + 1
                && final(self)@.voted_count(key) == old(self)@.voted_count(key) + 1,
    {
        let i = match self.find_poll(&key) {
            Some(i) => i,
            None => {
                return Err(StoreError::AccountNotFound);
            },
        };
        let receipt = match self.find_receipt(&key, &voter) {
            Some(j) => self.receipts[j],
            None => VoteRecord { poll: key, voter, has_voted: false },
        };
        let ghost v0 = self@;
        assert(v0.polls[i as int].poll.well_formed());
        let acct = self.polls.remove(i);
        let mut ctx = CastVotePublic { voter, poll_key: key, poll: acct.poll, vote_record: receipt };
        let r = if ctx.poll.total_votes == u32::MAX {
            match validate_public_vote(&ctx, option_index, now) {
                Ok(()) => Err(StoreError::Overflow),
                Err(e) => Err(StoreError::Rule(e)),
            }
        } else {
            match cast_vote_public(&mut ctx, option_index, now) {
                Ok(()) => Ok(()),
                Err(e) => Err(StoreError::Rule(e)),
            }
        };
        self.polls.insert(i, PollAccount { key, poll: ctx.poll });
        let ghost v_mid = self@;
        proof {
            assert(v_mid.polls =~= v0.polls.update(i as int, v_mid.polls[i as int]));
            if r.is_ok() {
                lemma_vote_keeps_well_formed(&v0.polls[i as int].poll, &v_mid.polls[i as int].poll, option_index as int);
            } else {
                assert(v_mid.polls =~= v0.polls);
            }
            lemma_wf_set_poll(v0, i as int, v_mid.polls[i as int]);
            lemma_poll_index(v_mid, key, i as int);
        }
        if r.is_ok() {
            self.receipts.push(ctx.vote_record);
            proof {
                lemma_wf_push_receipt(v_mid, ctx.vote_record);
                assert(self@.receipts[v_mid.receipts.len() as int].poll == key);
                assert(self@.receipts[v_mid.receipts.len() as int].voter == voter);
                lemma_public_vote_counts(v0, self@, voter, key, option_index);
            }
        }
        r
    }

    /// `voter` votes for `option_index` on the private poll under `key` at
    /// time `now`, through its registration; any failure leaves the ledger
    /// as it was.
    pub fn cast_vote_private(&mut self, voter: Pubkey, key: Pubkey, option_index: u8, now: i64) -> (r: Result<(), StoreError>)
        requires
            old(self)@.wf(),
        ensures
            final(self)@.wf(),
            r == old(self)@.private_vote_outcome(voter, key, option_index, now),
            r is Err ==> final(self)@ == old(self)@,
            r is Ok ==> only_poll_changed(old(self)@.polls, final(self)@.polls, old(self)@.poll_index(key)),
            r is Ok ==> final(self)@.poll(key).is_vote_on(&old(self)@.poll(key), option_index as int),
            r is Ok ==> final(self)@.receipts == old(self)@.receipts,
            r is Ok ==> final(self)@.registries == old(self)@.registries.update(
                old(self)@.registry_index(key, voter),
                (VoterRegistry { poll: key, voter, has_voted: true }),
            ),
            r is Ok ==> final(self)@.has_registry(key, voter) && final(self)@.registry(
                key,
                voter,
            ).has_voted,
            r is Ok ==> final(self)@.poll(key).total_votes == old(self)@.poll(key).total_votes + 1
                && final(self)@.voted_count(key) == old(self)@.voted_count(key) + 1,
    {
        let i = match self.find_poll(&key) {
            Some(i) => i,
            None => {
                return Err(StoreError::AccountNotFound);
            },
        };
        if self.polls[i].poll.is_public {
            return Err(StoreError::Rule(VotingError::WrongPollType));
        }
        let ri = match self.find_registry(&key, &voter) {
            Some(ri) => ri,
            None => {
                return Err(StoreError::AccountNotFound);
            },
        };
        let ghost v0 = self@;
        assert(v0.polls[i as int].poll.well_formed());
        let acct = self.polls.remove(i);
        let mut ctx = CastVotePrivate {
            voter,
            poll_key: key,
            poll: acct.poll,
            voter_registry: self.registries[ri],
        };
        let r = if ctx.poll.total_votes == u32::MAX {
            match validate_private_vote(&ctx, option_index, now) {
                Ok(()) => Err(StoreError::Overflow),
                Err(e) => Err(StoreError::Rule(e)),
            }
        } else {
            match cast_vote_private(&mut ctx, option_index, now) {
                Ok(()) => Ok(()),
                Err(e) => Err(StoreError::Rule(e)),
            }
        };
        self.polls.insert(i, PollAccount { key, poll: ctx.poll });
        let ghost v_mid = self@;
        proof {
            assert(v_mid.polls =~= v0.polls.update(i as int, v_mid.polls[i as int]));
            if r.is_ok() {
                lemma_vote_keeps_well_formed(&v0.polls[i as int].poll, &v_mid.polls[i as int].poll, option_index as int);
            } else {
                assert(v_mid.polls =~= v0.polls);
            }
            lemma_wf_set_poll(v0, i as int, v_mid.polls[i as int]);
            lemma_poll_index(v_mid, key, i as int);
        }
        if r.is_ok() {
            self.registries.set(ri, ctx.voter_registry);
            proof {
                lemma_wf_set_registry(v_mid, ri as int, ctx.voter_registry);
                lemma_registry_index(self@, key, voter, ri as int);
                lemma_private_vote_counts(v0, self@, voter, key, option_index);
            }
        }
        r
    }

    /// Deactivates the poll under `key` for good; only its creator may.
    pub fn close_poll(&mut self, authority: Pubkey, key: Pubkey) -> (r: Result<(), StoreError>)
        requires
            old(self)@.wf(),
        ensures
            final(self)@.wf(),
            r == old(self)@.creator_outcome(authority, key),
            r is Err ==> final(self)@ == old(self)@,
            r is Ok ==> only_poll_changed(old(self)@.polls, final(self)@.polls, old(self)@.poll_index(key)),
            r is Ok ==> final(self)@.poll(key) == (Poll { is_active: false, ..old(self)@.poll(key) }),
            r is Ok ==> final(self)@.registries == old(self)@.registries
                && final(self)@.receipts == old(self)@.receipts,
    {
        let i = match self.find_poll(&key) {
            Some(i) => i,
            None => {
                return Err(StoreError::AccountNotFound);
            },
        };
        let ghost v0 = self@;
        assert(v0.polls[i as int].poll.well_formed());
        let acct = self.polls.remove(i);
        let mut ctx = ClosePoll { authority, poll: acct.poll };
        let r = match close_poll(&mut ctx) {
            Ok(()) => Ok(()),
            Err(e) => Err(StoreError::Rule(e)),
        };
        self.polls.insert(i, PollAccount { key, poll: ctx.poll });
        proof {
            assert(self@.polls =~= v0.polls.update(i as int, self@.polls[i as int]));
            if r.is_err() {
                assert(self@.polls =~= v0.polls);
            }
            lemma_wf_set_poll(v0, i as int, self@.polls[i as int]);
            lemma_poll_index(self@, key, i as int);
        }
        r
    }

    /// Deletes the poll under `key`; only its creator may. Records of its
    /// voters stay behind, bound to an address that no poll holds.
    pub fn delete_poll(&mut self, authority: Pubkey, key: Pubkey) -> (r: Result<(), StoreError>)
        requires
            old(self)@.wf(),
        ensures
            final(self)@.wf(),
            r == old(self)@.creator_outcome(authority, key),
            r is Err ==> final(self)@ == old(self)@,
            r is Ok ==> final(self)@.polls == old(self)@.polls.remove(old(self)@.poll_index(key)),
            r is Ok ==> !final(self)@.has_poll(key),
            r is Ok ==> final(self)@.registries == old(self)@.registries
                && final(self)@.receipts == old(self)@.receipts,
    {
        let i = match self.find_poll(&key) {
            Some(i) => i,
            None => {
                return Err(StoreError::AccountNotFound);
            },
        };
        let ctx = DeletePoll { authority, poll: &self.polls[i].poll };
        match delete_poll(&ctx) {
            Ok(()) => {},
            Err(e) => {
                return Err(StoreError::Rule(e));
            },
        }
        let ghost v0 = self@;
        self.polls.remove(i);
        proof {
            lemma_wf_remove_poll(v0, i as int);
        }
        Ok(())
    }
}

} // verus!