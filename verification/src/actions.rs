use vstd::prelude::*;

verus! {

/// The three operations the counter understands.
///
/// Each has an integer code, which is what the pallet stores as its pending
/// action: 0 for `Increment`, 1 for `Decrement`, 2 for `Idle`.
#[derive(Clone, Copy, Debug, PartialEq, Eq, Structural, PartialOrd, Ord, Hash)]
pub enum Actions {
    Increment,
    Decrement,
    Idle,
}

impl Actions {
    /// The integer code of an action.
    pub open spec fn code(self) -> nat {
        match self {
            Actions::Increment => 0,
            Actions::Decrement => 1,
            Actions::Idle => 2,
        }
    }

    /// The action that a code stands for; `None` for every code above 2.
    pub open spec fn decode(code: nat) -> Option<Actions> {
        if code == 0 {
            Some(Actions::Increment)
        } else if code == 1 {
            Some(Actions::Decrement)
        } else if code == 2 {
            Some(Actions::Idle)
        } else {
            None
        }
    }

    /// Decodes an integer code. A code that stands for no action gives `None`:
    /// decoding never aborts, so a caller can report a bad code.
    pub fn from_u8(value: u8) -> (result: Option<Actions>)
        ensures
            result == Actions::decode(value as nat),
            result is Some <==> value <= 2,
    {
        match value {
            0 => Some(Actions::Increment),
            1 => Some(Actions::Decrement),
            2 => Some(Actions::Idle),
            _ => None,
        }
    }

    /// The integer code of an action, as it is stored.
    pub fn to_u8(self) -> (code: u8)
        ensures
            code == self.code(),
            Actions::decode(code as nat) == Some(self),
    {
        match self {
            Actions::Increment => 0,
            Actions::Decrement => 1,
            Actions::Idle => 2,
        }
    }
}

/// Decoding is total on the codes 0, 1 and 2 and fails on every other code,
/// and it is the inverse of `code`: an action's code decodes to that action,
/// and a code that decodes to an action is that action's code.
pub proof fn lemma_codes_round_trip(code: nat, action: Actions)
    ensures
        Actions::decode(code) is Some <==> code <= 2,
        Actions::decode(action.code()) == Some(action),
        Actions::decode(code) == Some(action) <==> code == action.code(),
{
}

} // verus!
