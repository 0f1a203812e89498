use vstd::prelude::*;
use crate::actions::Actions;

verus! {

/// Where the round-end hook gets the action that it applies by chance.
///
/// An implementation may draw on any entropy it has: `selects` is a relation,
/// not a function, so a source may select different actions from one state.
pub trait ActionSource {
    /// Whether the source, as it is, may select the action and be left as
    /// `next`. Unless a source says otherwise, it may select any action and
    /// be left in any state.
    open spec fn selects(&self, action: Actions, next: &Self) -> bool {
        true
    }

    /// Selects the action for one chance mutation.
    fn select(&mut self) -> (action: Actions)
        ensures
            old(self).selects(action, final(self)),
    ;
}

/// A source without entropy: it selects the same action every time.
#[derive(Clone, Copy, Debug, PartialEq, Eq, Structural)]
pub struct Fixed(pub Actions);

impl ActionSource for Fixed {
    open spec fn selects(&self, action: Actions, next: &Self) -> bool {
        action == self.0 && *next == *self
    }

    fn select(&mut self) -> (action: Actions) {
        self.0
    }
}

} // verus!
