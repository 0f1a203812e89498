use vstd::prelude::*;
use crate::actions::Actions;
use crate::event::{Error, Event};

verus! {

/// The pallet as a mathematical value: its configured ceiling and the three
/// values it stores.
pub struct State {
    /// The evolutionary ceiling. It never changes.
    pub ceiling: nat,
    /// The counter.
    pub counter: nat,
    /// The code of the pending action.
    pub action: nat,
    /// The untouched flag: set when a round starts, cleared by the first call
    /// of the round and by the end of the round.
    pub chance: bool,
}

/// One thing that can happen to the pallet: a hook run by the host, or a call
/// dispatched on behalf of a caller.
pub enum Step {
    /// The round starts.
    Initialize,
    /// A caller asks for the pending action to become the one with this code.
    Change(nat),
    /// A caller asks for the pending action to be applied.
    Execute,
    /// The round ends; the action is the one selected for the chance mutation.
    Finalize(Actions),
}

impl Step {
    /// Whether the step is a call, as opposed to a hook.
    pub open spec fn is_call(self) -> bool {
        self is Change || self is Execute
    }
}

impl State {
    /// Every field fits the machine type that stores it.
    pub open spec fn fits(self) -> bool {
        &&& self.ceiling <= u32::MAX
        &&& self.counter <= u32::MAX
        &&& self.action <= u8::MAX
    }

    /// The state of a pallet that has been set up and not used yet.
    pub open spec fn initial(ceiling: nat) -> State {
        State { ceiling, counter: 0, action: 0, chance: false }
    }

    /// The state with the untouched flag cleared and nothing else changed.
    /// This is all that a failed call leaves behind.
    pub open spec fn touched(self) -> State {
        State { chance: false, ..self }
    }

    /// The state after the round-start hook.
    pub open spec fn initialize(self) -> State {
        State { chance: true, ..self }
    }

    /// What `change` returns for a code: the event that names the action the
    /// code stands for, or `NotAValidAction` for a code that stands for none.
    pub open spec fn change_outcome(self, code: nat) -> Result<Event, Error> {
        match Actions::decode(code) {
            Some(action) => Ok(Event::Changed(action)),
            None => Err(Error::NotAValidAction),
        }
    }

    /// The state after `change` with a code: on success the code is the
    /// pending action, on failure only the untouched flag is cleared.
    pub open spec fn change(self, code: nat) -> State {
        if self.change_outcome(code) is Ok {
            State { action: code, chance: false, ..self }
        } else {
            self.touched()
        }
    }

    /// The counter moved one step by an action, as an unbounded integer.
    pub open spec fn stepped(self, action: Actions) -> int {
        match action {
            Actions::Increment => self.counter as int + 1,
            Actions::Decrement => self.counter as int - 1,
            Actions::Idle => self.counter as int,
        }
    }

    /// What `execute` returns. The pending action is applied if the stepped
    /// counter stays within the counter's type and, for an increment, does not
    /// pass the ceiling; reaching the ceiling is allowed.
    pub open spec fn execute_outcome(self) -> Result<Event, Error> {
        match Actions::decode(self.action) {
            None => Err(Error::CorruptedAction),
            Some(action) => {
                let count = self.stepped(action);
                if count > u32::MAX {
                    Err(Error::Overflow)
                } else if count < 0 {
                    Err(Error::Underflow)
                } else if action == Actions::Increment && count > self.ceiling {
                    Err(Error::CeilingExceeded)
                } else {
                    Ok(Event::Executed(action, count as u32))
                }
            },
        }
    }

    /// The state after `execute`: on success the stepped counter is stored, on
    /// failure only the untouched flag is cleared.
    pub open spec fn execute(self) -> State {
        match Actions::decode(self.action) {
            Some(action) if self.execute_outcome() is Ok => State {
                counter: self.stepped(action) as nat,
                chance: false,
                ..self
            },
            _ => self.touched(),
        }
    }

    /// The counter after a chance mutation by an action. A step that would
    /// leave the counter's type, take the counter below zero or, for an
    /// increment, reach the ceiling is skipped: the counter stays as it is.
    pub open spec fn chance_counter(self, action: Actions) -> nat {
        let count = self.stepped(action);
        if count > u32::MAX || count < 0 || (action == Actions::Increment && count >= self.ceiling) {
            self.counter
        } else {
            count as nat
        }
    }

    /// What the round-end hook returns when the action is the one selected.
    pub open spec fn finalize_outcome(self, action: Actions) -> Option<Event> {
        if self.chance {
            Some(Event::ChanceMutation(action, self.chance_counter(action) as u32))
        } else {
            None
        }
    }

    /// The state after the round-end hook when the action is the one selected.
    /// In a round that was touched the hook changes nothing.
    pub open spec fn finalize(self, action: Actions) -> State {
        if self.chance {
            State {
                counter: self.chance_counter(action),
                action: action.code(),
                chance: false,
                ..self
            }
        } else {
            self
        }
    }

    /// The state after one step.
    pub open spec fn step(self, step: Step) -> State {
        match step {
            Step::Initialize => self.initialize(),
            Step::Change(code) => self.change(code),
            Step::Execute => self.execute(),
            Step::Finalize(action) => self.finalize(action),
        }
    }

    /// The state after a sequence of steps, taken from first to last.
    pub open spec fn run(self, steps: Seq<Step>) -> State
        decreases steps.len(),
    {
        if steps.len() == 0 {
            self
        } else {
            self.run(steps.drop_last()).step(steps.last())
        }
    }
}

} // verus!
