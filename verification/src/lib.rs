//! Core logic of a small interactive terminal assistant.
//!
//! The library holds everything that can be stated and proved: the keyboard
//! router and its session state, the classification of a submitted line into
//! a local command or a remote question, the textual transformation of a
//! query response, and the shared answer store that background tasks write
//! into. Terminal rendering, process spawning and the asynchronous runtime
//! live outside, in the surrounding application, which calls into this crate
//! with plain values.

pub mod answer;
pub mod command;
pub mod session;
pub mod store;
pub mod textops;

use vstd::prelude::*;

verus! {

} // verus!
