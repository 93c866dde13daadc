//! The static typestate core: an entry state and two terminal states.
//!
//! Transitions are methods of `Initial` only, and each consumes the entry
//! state and returns a distinct terminal type.  A value can therefore be
//! transitioned at most once, and the two terminal states cannot be mixed up.

use crate::render::{append_dec, number_line, text_line};
use vstd::prelude::*;
use vstd::string::StringExecFns;

verus! {

/// The entry state of the machine.  It carries no payload; each transition
/// consumes it, so a consumed entry state cannot be transitioned again.
pub struct Initial {
    _unconstructible: (),
}

/// Terminal state holding one unsigned 32-bit integer payload, immutable
/// after construction.
pub struct Number {
    num: u32,
}

/// Terminal state holding one owned text payload, immutable after
/// construction.
pub struct Text {
    text: String,
}

impl View for Number {
    type V = u32;

    closed spec fn view(&self) -> u32 {
        self.num
    }
}

impl View for Text {
    type V = Seq<char>;

    closed spec fn view(&self) -> Seq<char> {
        self.text@
    }
}

impl Initial {
    /// A fresh entry state.  No precondition; always succeeds.
    pub fn new() -> (r: Initial) {
        Initial { _unconstructible: () }
    }

    /// Consumes the entry state and moves to the text terminal state,
    /// wrapping `text` unchanged.
    pub fn to_text(self, text: String) -> (r: Text)
        ensures
            r@ == text@,
    {
        Text { text }
    }

    /// Consumes the entry state and moves to the number terminal state,
    /// wrapping `num` unchanged.
    pub fn to_number(self, num: u32) -> (r: Number)
        ensures
            r@ == num,
    {
        Number { num }
    }
}

impl Number {
    /// The stored integer payload; reading it has no effect on the state.
    pub fn num(&self) -> (r: u32)
        ensures
            r == self@,
    {
        self.num
    }

    /// The display line of this state: `NUMBER: ` followed by the payload in
    /// decimal.
    pub fn render(&self) -> (r: String)
        ensures
            r@ == number_line(self@ as nat),
    {
        let mut r = String::from_str("NUMBER: ");
        append_dec(self.num, &mut r);
        r
    }
}

impl Text {
    /// The display line of this state: `TEXT: ` followed by the payload
    /// verbatim.
    pub fn render(&self) -> (r: String)
        ensures
            r@ == text_line(self@),
    {
        let r = String::from_str("TEXT: ");
        r.concat(self.text.as_str())
    }
}

} // verus!
