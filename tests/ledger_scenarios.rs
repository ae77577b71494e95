use votingsystemdapp::error::VotingError;
use votingsystemdapp::ledger::{Ledger, StoreError};
use votingsystemdapp::state::{Poll, Pubkey};

const NOW: i64 = 1_700_000_000;

fn key(n: u8) -> Pubkey {
    Pubkey::new([n; 32])
}

fn strings(items: &[&str]) -> Vec<String> {
    items.iter().map(|s| s.to_string()).collect()
}

fn tallies(poll: &Poll) -> Vec<u32> {
    poll.options.iter().map(|o| o.vote_count).collect()
}

fn sum_of_tallies(poll: &Poll) -> u64 {
    poll.options.iter().map(|o| o.vote_count as u64).sum()
}

const CREATOR: u8 = 1;
const POLL: u8 = 100;
const X: u8 = 2;
const Y: u8 = 3;

fn ledger_with_poll(is_public: bool, options: &[&str]) -> Ledger {
    let mut ledger = Ledger::new();
    let r = ledger.create_poll(
        key(POLL),
        key(CREATOR),
        "Lunch".to_string(),
        "Where do we eat".to_string(),
        strings(options),
        NOW - 1,
        NOW + 3600,
        is_public,
    );
    assert_eq!(r, Ok(()));
    ledger
}

#[test]
fn public_poll_scenario() {
    let mut ledger = ledger_with_poll(true, &["A", "B"]);
    assert_eq!(ledger.cast_vote_public(key(X), key(POLL), 1, NOW), Ok(()));
    let poll = ledger.poll(&key(POLL)).unwrap();
    assert_eq!(tallies(poll), vec![0, 1]);
    assert_eq!(poll.total_votes, 1);

    assert_eq!(
        ledger.cast_vote_public(key(X), key(POLL), 1, NOW),
        Err(StoreError::Rule(VotingError::AlreadyVoted))
    );
    let poll = ledger.poll(&key(POLL)).unwrap();
    assert_eq!(tallies(poll), vec![0, 1]);
    assert_eq!(poll.total_votes, 1);

    assert_eq!(ledger.cast_vote_public(key(Y), key(POLL), 0, NOW), Ok(()));
    let poll = ledger.poll(&key(POLL)).unwrap();
    assert_eq!(tallies(poll), vec![1, 1]);
    assert_eq!(poll.total_votes, 2);
}

#[test]
fn private_poll_scenario() {
    let mut ledger = ledger_with_poll(false, &["A", "B"]);
    assert_eq!(ledger.register_voter(key(CREATOR), key(POLL), key(X)), Ok(()));
    assert_eq!(
        ledger.cast_vote_private(key(Y), key(POLL), 0, NOW),
        Err(StoreError::AccountNotFound)
    );
    let poll = ledger.poll(&key(POLL)).unwrap();
    assert_eq!(tallies(poll), vec![0, 0]);
    assert_eq!(poll.total_votes, 0);

    assert_eq!(ledger.close_poll(key(CREATOR), key(POLL)), Ok(()));
    assert_eq!(
        ledger.cast_vote_private(key(X), key(POLL), 0, NOW),
        Err(StoreError::Rule(VotingError::PollInactive))
    );
    let registry = ledger.voter_registry(&key(POLL), &key(X)).unwrap();
    assert!(!registry.has_voted);
    assert_eq!(ledger.poll(&key(POLL)).unwrap().total_votes, 0);
}

#[test]
fn private_vote_counts_once() {
    let mut ledger = ledger_with_poll(false, &["A", "B", "C"]);
    assert_eq!(ledger.register_voter(key(CREATOR), key(POLL), key(X)), Ok(()));
    assert_eq!(ledger.cast_vote_private(key(X), key(POLL), 2, NOW), Ok(()));
    let registry = ledger.voter_registry(&key(POLL), &key(X)).unwrap();
    assert!(registry.has_voted);
    assert_eq!(registry.poll, key(POLL));
    assert_eq!(registry.voter, key(X));
    assert_eq!(
        ledger.cast_vote_private(key(X), key(POLL), 0, NOW),
        Err(StoreError::Rule(VotingError::AlreadyVoted))
    );
    let poll = ledger.poll(&key(POLL)).unwrap();
    assert_eq!(tallies(poll), vec![0, 0, 1]);
    assert_eq!(poll.total_votes, 1);
}

#[test]
fn total_matches_sum_of_tallies() {
    let mut ledger = ledger_with_poll(true, &["A", "B", "C"]);
    for voter in 10u8..40 {
        let choice = voter % 3;
        assert_eq!(ledger.cast_vote_public(key(voter), key(POLL), choice, NOW), Ok(()));
        let _ = ledger.cast_vote_public(key(voter), key(POLL), (choice + 1) % 3, NOW);
        let _ = ledger.cast_vote_public(key(voter), key(POLL), 7, NOW);
        let poll = ledger.poll(&key(POLL)).unwrap();
        assert_eq!(poll.total_votes as u64, sum_of_tallies(poll));
    }
    let poll = ledger.poll(&key(POLL)).unwrap();
    assert_eq!(poll.total_votes, 30);
    assert_eq!(tallies(poll), vec![10, 10, 10]);
}

#[test]
fn receipt_is_stored_after_public_vote() {
    let mut ledger = ledger_with_poll(true, &["A", "B"]);
    assert!(ledger.vote_record(&key(POLL), &key(X)).is_none());
    assert_eq!(ledger.cast_vote_public(key(X), key(POLL), 0, NOW), Ok(()));
    let receipt = ledger.vote_record(&key(POLL), &key(X)).unwrap();
    assert!(receipt.has_voted);
    assert_eq!(receipt.poll, key(POLL));
    assert_eq!(receipt.voter, key(X));
}

#[test]
fn failed_public_vote_stores_no_receipt() {
    let mut ledger = ledger_with_poll(true, &["A", "B"]);
    assert_eq!(
        ledger.cast_vote_public(key(X), key(POLL), 5, NOW),
        Err(StoreError::Rule(VotingError::InvalidOptionIndex))
    );
    assert!(ledger.vote_record(&key(POLL), &key(X)).is_none());
    assert_eq!(ledger.cast_vote_public(key(X), key(POLL), 1, NOW), Ok(()));
}

#[test]
fn wrong_path_is_refused() {
    let mut public = ledger_with_poll(true, &["A", "B"]);
    assert_eq!(
        public.cast_vote_private(key(X), key(POLL), 0, NOW),
        Err(StoreError::Rule(VotingError::WrongPollType))
    );
    assert_eq!(public.poll(&key(POLL)).unwrap().total_votes, 0);

    let mut private = ledger_with_poll(false, &["A", "B"]);
    assert_eq!(private.register_voter(key(CREATOR), key(POLL), key(X)), Ok(()));
    assert_eq!(
        private.cast_vote_public(key(X), key(POLL), 0, NOW),
        Err(StoreError::Rule(VotingError::WrongPollType))
    );
    assert_eq!(private.poll(&key(POLL)).unwrap().total_votes, 0);
    assert!(private.vote_record(&key(POLL), &key(X)).is_none());
    assert!(!private.voter_registry(&key(POLL), &key(X)).unwrap().has_voted);
}

#[test]
fn voting_window_is_enforced() {
    let mut ledger = ledger_with_poll(true, &["A", "B"]);
    assert_eq!(
        ledger.cast_vote_public(key(X), key(POLL), 0, NOW - 2),
        Err(StoreError::Rule(VotingError::PollNotStarted))
    );
    assert_eq!(
        ledger.cast_vote_public(key(X), key(POLL), 0, NOW + 3601),
        Err(StoreError::Rule(VotingError::PollEnded))
    );
    assert_eq!(ledger.poll(&key(POLL)).unwrap().total_votes, 0);
    assert_eq!(ledger.cast_vote_public(key(X), key(POLL), 0, NOW - 1), Ok(()));
    assert_eq!(ledger.cast_vote_public(key(Y), key(POLL), 0, NOW + 3600), Ok(()));
    assert_eq!(ledger.close_poll(key(CREATOR), key(POLL)), Ok(()));
    assert_eq!(
        ledger.cast_vote_public(key(4), key(POLL), 0, NOW),
        Err(StoreError::Rule(VotingError::PollInactive))
    );
    assert_eq!(ledger.poll(&key(POLL)).unwrap().total_votes, 2);
}

#[test]
fn only_creator_manages_poll() {
    let mut ledger = ledger_with_poll(false, &["A", "B"]);
    assert_eq!(
        ledger.register_voter(key(X), key(POLL), key(Y)),
        Err(StoreError::Rule(VotingError::Unauthorized))
    );
    assert!(ledger.voter_registry(&key(POLL), &key(Y)).is_none());
    assert_eq!(
        ledger.close_poll(key(X), key(POLL)),
        Err(StoreError::Rule(VotingError::Unauthorized))
    );
    assert!(ledger.poll(&key(POLL)).unwrap().is_active);
    assert_eq!(
        ledger.delete_poll(key(X), key(POLL)),
        Err(StoreError::Rule(VotingError::Unauthorized))
    );
    assert!(ledger.poll(&key(POLL)).is_some());
}

#[test]
fn close_twice_is_accepted() {
    let mut ledger = ledger_with_poll(true, &["A"]);
    assert_eq!(ledger.close_poll(key(CREATOR), key(POLL)), Ok(()));
    assert_eq!(ledger.close_poll(key(CREATOR), key(POLL)), Ok(()));
    assert!(!ledger.poll(&key(POLL)).unwrap().is_active);
}

#[test]
fn delete_removes_poll() {
    let mut ledger = ledger_with_poll(true, &["A", "B"]);
    assert_eq!(ledger.cast_vote_public(key(X), key(POLL), 0, NOW), Ok(()));
    assert_eq!(ledger.delete_poll(key(CREATOR), key(POLL)), Ok(()));
    assert!(ledger.poll(&key(POLL)).is_none());
    assert_eq!(
        ledger.delete_poll(key(CREATOR), key(POLL)),
        Err(StoreError::AccountNotFound)
    );
    assert_eq!(
        ledger.cast_vote_public(key(Y), key(POLL), 0, NOW),
        Err(StoreError::AccountNotFound)
    );
    assert_eq!(
        ledger.close_poll(key(CREATOR), key(POLL)),
        Err(StoreError::AccountNotFound)
    );
}

#[test]
fn registration_needs_private_poll() {
    let mut ledger = ledger_with_poll(true, &["A", "B"]);
    assert_eq!(
        ledger.register_voter(key(CREATOR), key(POLL), key(X)),
        Err(StoreError::Rule(VotingError::UnnecessaryRegistration))
    );
    assert!(ledger.voter_registry(&key(POLL), &key(X)).is_none());
}

#[test]
fn registration_happens_once() {
    let mut ledger = ledger_with_poll(false, &["A", "B"]);
    assert_eq!(ledger.register_voter(key(CREATOR), key(POLL), key(X)), Ok(()));
    assert_eq!(
        ledger.register_voter(key(CREATOR), key(POLL), key(X)),
        Err(StoreError::AccountInUse)
    );
    assert_eq!(ledger.register_voter(key(CREATOR), key(POLL), key(Y)), Ok(()));
}

#[test]
fn register_on_missing_poll() {
    let mut ledger = Ledger::new();
    assert_eq!(
        ledger.register_voter(key(CREATOR), key(POLL), key(X)),
        Err(StoreError::AccountNotFound)
    );
}

#[test]
fn poll_address_is_taken_once() {
    let mut ledger = ledger_with_poll(true, &["A", "B"]);
    let r = ledger.create_poll(
        key(POLL),
        key(X),
        "Other".to_string(),
        String::new(),
        strings(&["C"]),
        NOW,
        NOW + 1,
        false,
    );
    assert_eq!(r, Err(StoreError::AccountInUse));
    assert_eq!(ledger.poll(&key(POLL)).unwrap().creator, key(CREATOR));
}

#[test]
fn too_many_options_creates_nothing() {
    let mut ledger = Ledger::new();
    let options: Vec<String> = (0..11).map(|i| format!("option {}", i)).collect();
    let r = ledger.create_poll(
        key(POLL),
        key(CREATOR),
        "Big".to_string(),
        String::new(),
        options,
        NOW,
        NOW + 10,
        true,
    );
    assert_eq!(r, Err(StoreError::Rule(VotingError::TooManyOptions)));
    assert!(ledger.poll(&key(POLL)).is_none());
}

#[test]
fn long_description_creates_nothing() {
    let mut ledger = Ledger::new();
    let r = ledger.create_poll(
        key(POLL),
        key(CREATOR),
        "Long".to_string(),
        "d".repeat(201),
        strings(&["A", "B"]),
        NOW,
        NOW + 10,
        true,
    );
    assert_eq!(r, Err(StoreError::Rule(VotingError::DescriptionTooLong)));
    assert!(ledger.poll(&key(POLL)).is_none());
}

#[test]
fn new_poll_fields() {
    let ledger = ledger_with_poll(false, &["A", "B"]);
    let poll = ledger.poll(&key(POLL)).unwrap();
    assert_eq!(poll.creator, key(CREATOR));
    assert_eq!(poll.name, "Lunch");
    assert_eq!(poll.description, "Where do we eat");
    assert_eq!(poll.start_time, NOW - 1);
    assert_eq!(poll.end_time, NOW + 3600);
    assert!(!poll.is_public);
    assert!(poll.is_active);
    assert_eq!(poll.total_votes, 0);
    let texts: Vec<&str> = poll.options.iter().map(|o| o.text.as_str()).collect();
    assert_eq!(texts, vec!["A", "B"]);
    assert_eq!(tallies(poll), vec![0, 0]);
}

#[test]
fn total_matches_records_marked_voted() {
    let mut public = ledger_with_poll(true, &["A", "B"]);
    for voter in 10u8..15 {
        assert_eq!(public.cast_vote_public(key(voter), key(POLL), voter % 2, NOW), Ok(()));
        let _ = public.cast_vote_public(key(voter), key(POLL), 0, NOW);
    }
    let marked = (0u8..=255)
        .filter(|v| public.vote_record(&key(POLL), &key(*v)).map_or(false, |r| r.has_voted))
        .count();
    assert_eq!(marked, 5);
    assert_eq!(public.poll(&key(POLL)).unwrap().total_votes, 5);

    let mut private = ledger_with_poll(false, &["A", "B"]);
    for voter in 10u8..15 {
        assert_eq!(private.register_voter(key(CREATOR), key(POLL), key(voter)), Ok(()));
    }
    for voter in 10u8..13 {
        assert_eq!(private.cast_vote_private(key(voter), key(POLL), 1, NOW), Ok(()));
    }
    let marked = (0u8..=255)
        .filter(|v| private.voter_registry(&key(POLL), &key(*v)).map_or(false, |r| r.has_voted))
        .count();
    assert_eq!(marked, 3);
    assert_eq!(private.poll(&key(POLL)).unwrap().total_votes, 3);
}
