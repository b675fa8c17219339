//! Singly-linked stacks with exclusive ownership of their nodes.
//!
//! [`lifo`] holds the mathematical model that the contracts speak of: a stack
//! is a sequence whose index 0 is the top. [`first`] is a stack of `i32`,
//! [`second`] a stack of any element type with peeking and a draining
//! iterator.

pub mod lifo;
pub mod first;
pub mod second;
