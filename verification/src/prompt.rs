//! The dialogue that collects one entry from a person: the entry is asked
//! for, must not be empty, and is asked for a second time to confirm it. The
//! caller reads the lines, without the blanks around them, and says what this
//! module tells it to.

use vstd::prelude::*;

verus! {

/// What the dialogue waits for.
#[derive(Debug, Clone, PartialEq, Eq)]
pub enum EntryState {
    /// The entry itself.
    AwaitingEntry,
    /// The confirmation of this entry.
    AwaitingConfirmation(String),
}

/// What follows from a line that was read.
#[derive(Debug, Clone, PartialEq, Eq)]
pub enum EntryStep {
    /// The entry was empty: say so, and ask for the entry again.
    RejectEmpty,
    /// Ask for this entry a second time.
    Confirm(String),
    /// The confirmation differs from the entry: say so, and start over.
    RejectMismatch,
    /// The confirmation agrees with the entry: this is the entry.
    Accept(String),
}

/// What follows when `line` is read while the dialogue waits for `waiting`.
pub open spec fn entry_step_of(waiting: EntryState, line: Seq<char>, step: EntryStep) -> bool {
    match waiting {
        EntryState::AwaitingEntry => if line.len() == 0 {
            step == EntryStep::RejectEmpty
        } else {
            step matches EntryStep::Confirm(entry) && entry@ == line
        },
        EntryState::AwaitingConfirmation(entry) => if entry@ == line {
            step matches EntryStep::Accept(accepted) && accepted@ == line
        } else {
            step == EntryStep::RejectMismatch
        },
    }
}

/// What the dialogue waits for after `step`; `None` once the entry is accepted.
pub open spec fn state_after(step: EntryStep) -> Option<EntryState> {
    match step {
        EntryStep::RejectEmpty => Some(EntryState::AwaitingEntry),
        EntryStep::Confirm(entry) => Some(EntryState::AwaitingConfirmation(entry)),
        EntryStep::RejectMismatch => Some(EntryState::AwaitingEntry),
        EntryStep::Accept(_) => None,
    }
}

impl EntryState {
    /// Takes the line that was read and says what follows.
    pub fn hear(self, line: String) -> (step: EntryStep)
        ensures
            entry_step_of(self, line@, step),
    {
        match self {
            EntryState::AwaitingEntry => {
                if line.as_str().is_empty() {
                    EntryStep::RejectEmpty
                } else {
                    EntryStep::Confirm(line)
                }
            },
            EntryState::AwaitingConfirmation(entry) => {
                if entry == line {
                    EntryStep::Accept(entry)
                } else {
                    EntryStep::RejectMismatch
                }
            },
        }
    }
}

impl EntryStep {
    /// What the dialogue waits for next; `None` once the entry is accepted.
    pub fn next_state(self) -> (next: Option<EntryState>)
        ensures
            next == state_after(self),
    {
        match self {
            EntryStep::RejectEmpty => Some(EntryState::AwaitingEntry),
            EntryStep::Confirm(entry) => Some(EntryState::AwaitingConfirmation(entry)),
            EntryStep::RejectMismatch => Some(EntryState::AwaitingEntry),
            EntryStep::Accept(_) => None,
        }
    }
}

/// An entry is accepted only as the confirmation of the same, non-empty
/// entry: the line before it was heard while waiting for the entry, and the
/// two lines agree.
pub proof fn lemma_accepted_entry_was_confirmed(
    first_line: Seq<char>,
    first: EntryStep,
    second_line: Seq<char>,
    second: EntryStep,
)
    requires
        entry_step_of(EntryState::AwaitingEntry, first_line, first),
        state_after(first) matches Some(waiting) && entry_step_of(waiting, second_line, second),
    ensures
        second matches EntryStep::Accept(accepted) ==> accepted@ == first_line && first_line
            == second_line && first_line.len() > 0,
        first_line.len() == 0 ==> !(second is Accept),
{
}

} // verus!
