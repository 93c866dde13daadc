//! The runtime form of the machine: a tagged union over the two terminal
//! states, and the transitions that an input line decides at run time.
//!
//! The static types of `crate::machine` cannot hold "a number state or a
//! text state, whichever the input turned out to be" in one variable: the
//! two arms of such a branch have different types.  `Either` restores that
//! ability at the cost of a runtime tag, and with it a transition loop whose
//! next state depends on the previous one.

use crate::machine::{Initial, Number, Text};
use crate::parse::{parse_u32, spec_parse_u32, spec_trim};
use crate::render::{number_line, text_line};
use vstd::prelude::*;

verus! {

/// A tagged union over the two terminal states: exactly one is wrapped at a
/// time, and the tag says which.  It is replaced wholesale on every loop
/// iteration, never mutated in place.
pub enum Either {
    Number(Number),
    Text(Text),
}

/// The shape of a runtime state as contracts speak of it: the tag and the
/// payload of the wrapped terminal state.
pub enum StateModel {
    Number(u32),
    Text(Seq<char>),
}

impl View for Either {
    type V = StateModel;

    open spec fn view(&self) -> StateModel {
        match self {
            Either::Number(n) => StateModel::Number(n@),
            Either::Text(t) => StateModel::Text(t@),
        }
    }
}

/// The display line of a runtime state: that of the wrapped terminal state.
pub open spec fn render_line(s: StateModel) -> Seq<char> {
    match s {
        StateModel::Number(n) => number_line(n as nat),
        StateModel::Text(t) => text_line(t),
    }
}

/// The state a one-shot branch on an input line reaches from the entry
/// state: a number wrapping the parsed value when the trimmed line parses as
/// an unsigned 32-bit integer, text wrapping the raw line otherwise.
pub open spec fn spec_branch(line: Seq<char>) -> StateModel {
    match spec_parse_u32(spec_trim(line)) {
        Some(v) => StateModel::Number(v),
        None => StateModel::Text(line),
    }
}

/// The state one loop iteration moves the machine to from `state` on input
/// `line`:
///   - the trimmed line parses as `v` and the state is a number holding `o`:
///     a number holding `o + v` with silent 32-bit wraparound;
///   - the trimmed line parses as `v` and the state is text: a number
///     holding `v` alone — the old text payload is discarded;
///   - the line does not parse: text holding the raw, untrimmed line.
pub open spec fn spec_step(state: StateModel, line: Seq<char>) -> StateModel {
    match spec_parse_u32(spec_trim(line)) {
        Some(v) => match state {
            StateModel::Number(o) => StateModel::Number(
                vstd::wrapping::u32_specs::wrapping_add(o, v),
            ),
            StateModel::Text(_) => StateModel::Number(v),
        },
        None => StateModel::Text(line),
    }
}

/// Branches on an input line from the entry state: the runtime-decided
/// transition that the static types cannot hold in one variable.
pub fn branch(one: Initial, line: String) -> (r: Either)
    ensures
        r@ == spec_branch(line@),
{
    match parse_u32(line.as_str()) {
        Some(v) => Either::Number(one.to_number(v)),
        None => Either::Text(one.to_text(line)),
    }
}

impl Either {
    /// One iteration of the transition loop: consumes the current state and
    /// the input line and yields the next state.
    pub fn step(self, line: String) -> (r: Either)
        ensures
            r@ == spec_step(self@, line@),
    {
        let one = Initial::new();
        match parse_u32(line.as_str()) {
            Some(v) => match self {
                Either::Number(n) => Either::Number(one.to_number(n.num().wrapping_add(v))),
                Either::Text(_) => Either::Number(one.to_number(v)),
            },
            None => Either::Text(one.to_text(line)),
        }
    }

    /// The display line of the wrapped terminal state.
    pub fn render(&self) -> (r: String)
        ensures
            r@ == render_line(self@),
    {
        match self {
            Either::Number(n) => n.render(),
            Either::Text(t) => t.render(),
        }
    }
}

/// Every input line is classified exactly one way: either its trimmed form
/// parses as an unsigned 32-bit integer, and the step reaches a number
/// state, or it does not, and the step reaches the text state wrapping the
/// raw line.  Given that outcome the transition is fixed.
pub proof fn lemma_step_classifies(state: StateModel, line: Seq<char>)
    ensures
        (spec_parse_u32(spec_trim(line)) is Some) != (spec_parse_u32(spec_trim(line)) is None),
        spec_parse_u32(spec_trim(line)) is Some ==> spec_step(state, line) is Number,
        spec_parse_u32(spec_trim(line)) is None <==> spec_step(state, line) == StateModel::Text(
            line,
        ),
{
}

/// Rendering does not transition: the display line is a pure function of the
/// state, so printing one and the same state twice yields identical lines.
pub proof fn lemma_render_deterministic(a: StateModel, b: StateModel)
    requires
        a == b,
    ensures
        render_line(a) == render_line(b),
{
}

} // verus!
