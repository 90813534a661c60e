//! Settlement and voting core of a token-gated governance program.
//!
//! A treasury sells a governance token in fixed lots at a fixed price, and
//! holders of that token vote on proposals that close at a deadline. Every
//! operation is a transition on plain records: it either commits all of its
//! changes or reports one `VoteError` and changes nothing. The host looks
//! the records up, authenticates the signer, tells the time and moves the
//! funds; nothing here does.
//!
//! * `errors`: the error vocabulary.
//! * `address`, `authority`: 32-byte identities, and the addresses the
//!   program derives for itself.
//! * `state`, `contexts`: the records, and which of them each operation
//!   is given.
//! * `treasury`, `proposals`, `voting`, `tally`: the operations, record by
//!   record.
//! * `records`, `governance`: all records as one value, and a store that
//!   runs the operations against them.
//! * `guarantees`: what holds of every sequence of operations.

pub mod address;
pub mod authority;
pub mod contexts;
pub mod errors;
pub mod governance;
pub mod guarantees;
pub mod proposals;
pub mod records;
pub mod state;
pub mod tally;
pub mod treasury;
pub mod voting;
