//! Token-gated, single-use ballots.
//!
//! A campaign owner defines a vote with a fixed option set and a time
//! window; eligible voters cast exactly one vote each, where eligibility is
//! proven and simultaneously revoked by destroying one unit of a
//! uniquely-held eligibility token.  Campaign records live at addresses
//! derived deterministically from `(creator, title)`, so the same creator
//! can never hold two campaigns under one title.

pub mod account_id;
pub mod errors;
pub mod campaign;
pub mod vote;
pub mod address;
pub mod store;
