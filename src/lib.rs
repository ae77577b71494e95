//! Poll management core: creating polls, registering voters, casting public
//! and private votes, closing and deleting polls, with every rule verified.

pub mod constants;
pub mod error;
pub mod guards;
pub mod instructions;
pub mod laws;
pub mod ledger;
pub mod state;
