//! Networking: addresses, the auto-connect status, and the decisions that turn
//! socket call results into I/O results.

pub mod addr;
pub mod network;
pub mod socket;
