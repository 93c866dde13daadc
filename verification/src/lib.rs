//! A three-state typestate machine.
//!
//! An `Initial` state is consumed by a transition to one of two terminal
//! states, `Number` or `Text`.  The transitions are encoded statically: each
//! returns a distinct type, so an illegal second transition does not compile.
//! When the target shape is only known at run time (it depends on whether an
//! input line parses as an unsigned 32-bit integer), the tagged union
//! `Either` carries whichever terminal state was chosen, and `step` drives a
//! transition loop over it.

pub mod either;
pub mod machine;
pub mod parse;
pub mod render;
