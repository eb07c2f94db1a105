//! A governance ledger: creators register proposals with a voting window,
//! voters cast one vote each per proposal while the window is open, and
//! creators may amend or withdraw their own proposals.
pub mod address;
pub mod identity;
pub mod laws;
pub mod proposal;
pub mod vote;
