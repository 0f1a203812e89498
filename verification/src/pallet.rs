use vstd::prelude::*;
use crate::actions::Actions;
use crate::event::{Error, Event};
use crate::model::State;
use crate::source::{ActionSource, Fixed};

verus! {

/// What the host configures once, for as long as the pallet lives.
#[derive(Clone, Copy, Debug, PartialEq, Eq, Structural)]
pub struct Config {
    /// For constraining the limits of evolution: `execute` raises the counter
    /// up to this value and no further.
    pub evolutionary_ceiling: u32,
}

/// The counter automaton: the configuration and the three stored values.
///
/// The stored values change only through `change`, `execute` and the two
/// round hooks.
#[derive(Clone, Copy, Debug, PartialEq, Eq, Structural)]
pub struct Pallet {
    config: Config,
    counter: u32,
    action: u8,
    chance: bool,
}

impl View for Pallet {
    type V = State;

    closed spec fn view(&self) -> State {
        State {
            ceiling: self.config.evolutionary_ceiling as nat,
            counter: self.counter as nat,
            action: self.action as nat,
            chance: self.chance,
        }
    }
}

impl Pallet {
    /// A pallet as it is before any round: the counter is 0, the pending
    /// action is `Increment` (code 0), and the untouched flag is cleared.
    pub fn new(config: Config) -> (pallet: Pallet)
        ensures
            pallet@ == State::initial(config.evolutionary_ceiling as nat),
    {
        Pallet { config, counter: 0, action: 0, chance: false }
    }

    /// A pallet with the given stored values, as a host hands them back. The
    /// code of the pending action is taken as it is, valid or not: `execute`
    /// reports a code that stands for no action.
    pub fn restore(config: Config, counter: u32, action: u8, chance: bool) -> (pallet: Pallet)
        ensures
            pallet@ == (State {
                ceiling: config.evolutionary_ceiling as nat,
                counter: counter as nat,
                action: action as nat,
                chance,
            }),
    {
        Pallet { config, counter, action, chance }
    }

    /// The configuration.
    pub fn config(&self) -> (config: Config)
        ensures
            config.evolutionary_ceiling == self@.ceiling,
    {
        self.config
    }

    /// The counter.
    pub fn counter(&self) -> (counter: u32)
        ensures
            counter == self@.counter,
    {
        self.counter
    }

    /// The code of the pending action.
    pub fn action(&self) -> (action: u8)
        ensures
            action == self@.action,
    {
        self.action
    }

    /// The untouched flag: whether a chance mutation is due at the end of the
    /// round.
    pub fn chance(&self) -> (chance: bool)
        ensures
            chance == self@.chance,
    {
        self.chance
    }

    /// The fields of a pallet's view fit the machine types that store them.
    pub proof fn lemma_view_fits(self)
        ensures
            self@.fits(),
    {
    }

    /// Sets the pending action on a caller's request.
    ///
    /// The untouched flag is cleared first, whatever follows. A code above 2
    /// fails with `NotAValidAction` and leaves the pending action as it was.
    /// Any other code becomes the pending action, and the event holds the
    /// action it stands for. The counter never changes.
    pub fn change(&mut self, action: u8) -> (result: Result<Event, Error>)
        ensures
            result == old(self)@.change_outcome(action as nat),
            final(self)@ == old(self)@.change(action as nat),
            !final(self)@.chance,
            final(self)@.counter == old(self)@.counter,
            action <= 2 ==> result is Ok && final(self)@.action == action,
            action > 2 ==> result == Err::<Event, Error>(Error::NotAValidAction)
                && final(self)@.action == old(self)@.action,
    {
        self.chance = false;
        match Actions::from_u8(action) {
            Some(decoded) => {
                self.action = action;
                Ok(Event::Changed(decoded))
            },
            None => Err(Error::NotAValidAction),
        }
    }

    /// Applies the pending action to the counter on a caller's request.
    ///
    /// The untouched flag is cleared first, whatever follows. An increment
    /// fails with `Overflow` if the counter is at the top of its type and with
    /// `CeilingExceeded` if it would pass the ceiling; an increment that
    /// reaches the ceiling succeeds. A decrement fails with `Underflow` at
    /// zero. A stored code that stands for no action is reported as
    /// `CorruptedAction`. On success the stepped counter is stored, and the
    /// event holds the action and the stored counter. On failure the counter
    /// and the pending action stay as they were.
    pub fn execute(&mut self) -> (result: Result<Event, Error>)
        ensures
            result == old(self)@.execute_outcome(),
            final(self)@ == old(self)@.execute(),
            !final(self)@.chance,
            result == Err::<Event, Error>(Error::CorruptedAction) <==> old(self)@.action > 2,
            result == Err::<Event, Error>(Error::Overflow) <==> old(self)@.action == 0
                && old(self)@.counter == u32::MAX,
            result == Err::<Event, Error>(Error::CeilingExceeded) <==> old(self)@.action == 0
                && old(self)@.counter < u32::MAX
                && old(self)@.counter >= old(self)@.ceiling,
            result == Err::<Event, Error>(Error::Underflow) <==> old(self)@.action == 1
                && old(self)@.counter == 0,
            result is Err ==> final(self)@ == old(self)@.touched(),
            result matches Ok(event) ==> event matches Event::Executed(action, count)
                && Actions::decode(old(self)@.action) == Some(action)
                && count == old(self)@.stepped(action)
                && final(self)@ == (State { counter: count as nat, ..old(self)@.touched() }),
    {
        self.chance = false;
        let action = match Actions::from_u8(self.action) {
            Some(action) => action,
            None => {
                return Err(Error::CorruptedAction);
            },
        };
        let mut count = self.counter;
        match action {
            Actions::Increment => {
                let new_count = match count.checked_add(1) {
                    Some(v) => v,
                    None => {
                        return Err(Error::Overflow);
                    },
                };
                if new_count > self.config.evolutionary_ceiling {
                    return Err(Error::CeilingExceeded);
                }
                count = new_count;
                self.counter = count;
            },
            Actions::Decrement => {
                count = match count.checked_sub(1) {
                    Some(v) => v,
                    None => {
                        return Err(Error::Underflow);
                    },
                };
                self.counter = count;
            },
            Actions::Idle => {},
        }
        Ok(Event::Executed(action, count))
    }

    /// The round-start hook: sets the untouched flag, whatever it was, and
    /// changes nothing else. The weight it returns is always zero.
    pub fn on_initialize(&mut self) -> (weight: u64)
        ensures
            weight == 0,
            final(self)@ == old(self)@.initialize(),
            final(self)@.chance,
    {
        self.chance = true;
        0
    }

    /// Applies an action by chance, as the round-end hook does once the action
    /// is selected.
    ///
    /// If the round was touched, nothing changes and there is no event.
    /// Otherwise the action becomes the pending action and is applied to the
    /// counter, except that a step which would leave the counter's type, go
    /// below zero or, for an increment, reach the ceiling is skipped without
    /// an error. The untouched flag is cleared, and the event holds the action
    /// and the counter as it is stored afterwards.
    pub fn chance_mutation(&mut self, action: Actions) -> (result: Option<Event>)
        ensures
            result == old(self)@.finalize_outcome(action),
            final(self)@ == old(self)@.finalize(action),
            result is Some <==> old(self)@.chance,
            !old(self)@.chance ==> final(self)@ == old(self)@,
    {
        if !self.chance {
            return None;
        }
        self.action = action.to_u8();
        let mut count = self.counter;
        match action {
            Actions::Increment => {
                if let Some(v) = count.checked_add(1) {
                    if v < self.config.evolutionary_ceiling {
                        count = v;
                    }
                }
            },
            Actions::Decrement => {
                if let Some(v) = count.checked_sub(1) {
                    count = v;
                }
            },
            Actions::Idle => {},
        }
        self.counter = count;
        self.chance = false;
        Some(Event::ChanceMutation(action, count))
    }

    /// The round-end hook, with the action selected by a source.
    ///
    /// If the round was touched, the source is not consulted, nothing changes
    /// and there is no event. Otherwise the source selects an action once,
    /// and the pallet is left as `chance_mutation` leaves it for that action;
    /// the event names the action.
    pub fn on_finalize_with<S: ActionSource>(&mut self, source: &mut S) -> (result: Option<Event>)
        ensures
            result is Some <==> old(self)@.chance,
            !old(self)@.chance ==> final(self)@ == old(self)@ && *final(source) == *old(source),
            result matches Some(event) ==> event matches Event::ChanceMutation(action, _)
                && old(source).selects(action, final(source))
                && result == old(self)@.finalize_outcome(action)
                && final(self)@ == old(self)@.finalize(action),
    {
        if !self.chance {
            return None;
        }
        let action = source.select();
        self.chance_mutation(action)
    }

    /// The round-end hook, with the source that always selects `Increment`.
    ///
    /// In an untouched round the pending action becomes `Increment`, the
    /// counter is raised by one if that keeps it strictly below the ceiling,
    /// and the untouched flag is cleared. In a touched round nothing changes
    /// and there is no event. The hook never fails.
    pub fn on_finalize(&mut self) -> (result: Option<Event>)
        ensures
            result == old(self)@.finalize_outcome(Actions::Increment),
            final(self)@ == old(self)@.finalize(Actions::Increment),
            result is Some <==> old(self)@.chance,
            !old(self)@.chance ==> final(self)@ == old(self)@,
    {
        let mut source = Fixed(Actions::Increment);
        self.on_finalize_with(&mut source)
    }
}

} // verus!
