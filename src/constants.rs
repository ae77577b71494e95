use vstd::prelude::*;

verus! {

/// Maximum number of options allowed per poll.
pub const MAX_OPTIONS: usize = 10;

/// Maximum length of a poll name, in characters.
pub const MAX_NAME_LENGTH: usize = 50;

/// Maximum length of a poll description, in characters.
pub const MAX_DESCRIPTION_LENGTH: usize = 200;

/// Maximum length of the text of one option, in characters.
pub const MAX_OPTION_LENGTH: usize = 50;

/// Size of the account discriminator that prefixes every stored record.
pub const DISCRIMINATOR_SIZE: usize = 8;

/// Size of a public key, in characters.
pub const PUBKEY_SIZE: usize = 32;

/// Length prefix of a stored string.
pub const STRING_PREFIX_SIZE: usize = 4;

/// Length prefix of a stored vector.
pub const VECTOR_PREFIX_SIZE: usize = 4;

/// Largest UTF-8 encoding of one character, in bytes.
pub const MAX_CHAR_SIZE: usize = 4;

/// Stored size of one option: length prefix, room for the longest text in
/// its widest encoding, and its counter.
pub const POLL_OPTION_SIZE: usize = STRING_PREFIX_SIZE + MAX_CHAR_SIZE * MAX_OPTION_LENGTH + 4;

} // verus!
