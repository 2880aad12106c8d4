//! A governance module in the style of an on-chain treasury: accounts
//! propose fund transfers, vote on them, and execute the ones that gather
//! enough support. The whole state machine — proposal creation, one vote
//! per account per proposal, tally accumulation, quorum and majority
//! checks, and the final irreversible disbursement — is verified.
//!
//! The host environment (clock, calling account, endowment) is handed in
//! as plain values; the governor owns every register it mutates.

pub mod governor;
pub mod types;
