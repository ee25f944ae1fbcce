//! Three verified singly-linked stacks that differ only in how they own
//! their nodes: an exclusively-owned stack with an iterative teardown, the
//! same stack extended with peeking and borrowed iteration, and a
//! reference-counted persistent stack whose instances share their tails.

pub mod a_bad_stack;
pub mod a_persistent_stack;
pub mod an_okay_stack;
