use vstd::prelude::*;
use crate::actions::Actions;

verus! {

/// What the pallet notifies its host of. The pallet hands each event back to
/// the caller of the operation that gave rise to it; delivering it is the
/// host's work.
#[derive(Clone, Copy, Debug, PartialEq, Eq, Structural)]
pub enum Event {
    /// The pending action was set. Holds the action.
    Changed(Actions),
    /// The pending action was applied on a caller's request. Holds the action
    /// and the counter as it is stored afterwards.
    Executed(Actions, u32),
    /// An action was applied by chance at the end of an untouched round. Holds
    /// the action and the counter as it is stored afterwards.
    ChanceMutation(Actions, u32),
}

/// Why a call failed.
#[derive(Clone, Copy, Debug, PartialEq, Eq, Structural)]
pub enum Error {
    /// An increment would leave the range of the counter's type.
    Overflow,
    /// A decrement would take the counter below zero.
    Underflow,
    /// The code handed to `change` stands for no action.
    NotAValidAction,
    /// An increment would take the counter above the evolutionary ceiling.
    CeilingExceeded,
    /// The stored pending action is a code that stands for no action.
    CorruptedAction,
}

} // verus!
