//! Achievement bridge: a backend abstraction over an achievement service
//! (a no-op stub or a live session), the command surface that the host
//! shell invokes, and the startup sequence that attaches diagnostic logging.
use vstd::prelude::*;

pub mod backend;
pub mod commands;
pub mod startup;

verus! {

} // verus!
