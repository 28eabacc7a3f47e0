//! Platform support library for the Wii U: the decisions, conversions and
//! bookkeeping that sit between an application and the system libraries.

use vstd::prelude::*;

pub mod arena;
pub mod controller;
pub mod datetime;
pub mod gamepad;
pub mod graphics;
pub mod io;
pub mod net;
pub mod process;
pub mod rrc;
pub mod sync;
pub mod text;
pub mod thread;
pub mod time;

verus! {

/// Errors of the library that belong to no single subsystem.
#[derive(Debug, Clone, Copy, PartialEq, Eq, Structural)]
pub enum Error {
    /// A time span was asked for whose start lies after its end.
    EarlierIsLater,
}

/// Result with the library's [`Error`].
pub type Result<T> = core::result::Result<T, Error>;

} // verus!
