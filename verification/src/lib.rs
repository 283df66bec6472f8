//! Core of a pending-transaction watcher: filtering, canonical signal
//! construction, duplicate suppression, royalty tiering, and the two-step
//! dispatch decision. All I/O (chain subscription, transaction lookup,
//! contract invocation) lives outside this crate.

pub mod bytes;
pub mod codec;
pub mod decfmt;
pub mod dedup;
pub mod dispatch;
pub mod ethext;
pub mod filter;
pub mod hexcode;
pub mod royalty;
pub mod tx;
pub mod u256;
