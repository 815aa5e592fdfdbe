//! A typing-speed session: the state machine driven by key presses, the
//! metrics derived from it (accuracy, words per minute, elapsed time), and
//! the content of the two panels that show it.
use vstd::prelude::*;

pub mod metrics;
pub mod session;
pub mod view;

verus! {

} // verus!
