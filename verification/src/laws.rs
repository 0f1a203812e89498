use vstd::prelude::*;
use crate::actions::Actions;
use crate::event::{Error, Event};
use crate::model::{State, Step};

verus! {

/// The round-start hook sets the untouched flag whatever it was before, and
/// every other step leaves it cleared: a call does so whether it succeeds or
/// fails, and the round-end hook whether it mutates or not.
pub proof fn lemma_flag_after_step(s: State, step: Step)
    ensures
        s.step(step).chance <==> step is Initialize,
{
}

/// If a round had at least one call, whatever the calls were and whether they
/// succeeded, the round-end hook changes nothing and emits no event, whatever
/// action is selected.
pub proof fn lemma_touched_round_ends_quietly(s: State, calls: Seq<Step>, action: Actions)
    requires
        calls.len() > 0,
        forall|i: int| 0 <= i < calls.len() ==> (#[trigger] calls[i]).is_call(),
    ensures
        ({
            let end = s.initialize().run(calls);
            &&& !end.chance
            &&& end.finalize(action) == end
            &&& end.finalize_outcome(action) is None
        }),
{
    assert(calls.last().is_call());
    lemma_flag_after_step(s.initialize().run(calls.drop_last()), calls.last());
}

/// In a round without calls the round-end hook applies the selected action
/// once: it becomes the pending action, the counter is the one that a chance
/// mutation gives, and the event reports both. Running the hook again changes
/// nothing more.
pub proof fn lemma_untouched_round_mutates_once(s: State, action: Actions)
    ensures
        ({
            let end = s.initialize().finalize(action);
            &&& end.action == action.code()
            &&& end.counter == s.chance_counter(action)
            &&& end.ceiling == s.ceiling
            &&& !end.chance
            &&& s.initialize().finalize_outcome(action) == Some(
                Event::ChanceMutation(action, s.chance_counter(action) as u32),
            )
            &&& end.finalize(action) == end
        }),
{
}

/// Where the two ceiling checks differ. For a pending or selected increment:
/// one below the ceiling, `execute` raises the counter to the ceiling but a
/// chance mutation leaves it where it is; two below, both raise it by one; at
/// the ceiling, `execute` fails with `CeilingExceeded` (or with `Overflow`, if
/// the ceiling is the top of the counter's type) and a chance mutation is
/// skipped.
pub proof fn lemma_ceiling_boundaries(s: State)
    requires
        s.fits(),
        s.action == Actions::Increment.code(),
    ensures
        s.counter + 1 == s.ceiling ==> {
            &&& s.execute_outcome() == Ok::<Event, Error>(
                Event::Executed(Actions::Increment, s.ceiling as u32),
            )
            &&& s.execute().counter == s.ceiling
            &&& s.chance_counter(Actions::Increment) == s.counter
        },
        s.counter + 2 == s.ceiling ==> {
            &&& s.execute().counter == s.counter + 1
            &&& s.chance_counter(Actions::Increment) == s.counter + 1
        },
        s.counter == s.ceiling ==> {
            &&& s.execute_outcome() == Err::<Event, Error>(
                if s.ceiling == u32::MAX {
                    Error::Overflow
                } else {
                    Error::CeilingExceeded
                },
            )
            &&& s.execute().counter == s.counter
            &&& s.chance_counter(Actions::Increment) == s.counter
        },
{
}

/// An increment, executed or by chance, moves the counter exactly when the
/// raised counter passes the check of its path: at most the ceiling for
/// `execute`, strictly below the ceiling for a chance mutation.
pub proof fn lemma_increment_applies(s: State)
    requires
        s.fits(),
        s.action == Actions::Increment.code(),
    ensures
        s.execute_outcome() is Ok <==> s.counter + 1 <= s.ceiling,
        s.execute().counter == (if s.counter + 1 <= s.ceiling {
            s.counter + 1
        } else {
            s.counter
        }),
        s.chance_counter(Actions::Increment) == (if s.counter + 1 < s.ceiling {
            s.counter + 1
        } else {
            s.counter
        }),
{
}

/// A decrement never takes the counter below zero: at zero `execute` fails
/// with `Underflow` and a chance mutation is skipped; above zero both lower
/// the counter by one.
pub proof fn lemma_decrement_applies(s: State)
    requires
        s.fits(),
        s.action == Actions::Decrement.code(),
    ensures
        s.execute_outcome() is Ok <==> s.counter > 0,
        s.counter == 0 ==> s.execute_outcome() == Err::<Event, Error>(Error::Underflow)
            && s.execute().counter == 0 && s.chance_counter(Actions::Decrement) == 0,
        s.counter > 0 ==> s.execute().counter == s.counter - 1 && s.chance_counter(
            Actions::Decrement,
        ) == s.counter - 1,
{
}

/// A call that fails leaves the counter and the pending action as they were:
/// all that it changes is the untouched flag, which it clears.
pub proof fn lemma_failed_call_only_clears_flag(s: State, code: nat)
    ensures
        s.change_outcome(code) is Err ==> s.change(code) == s.touched(),
        s.execute_outcome() is Err ==> s.execute() == s.touched(),
{
}

/// No step changes the ceiling, and none takes a counter that is at most the
/// ceiling above it.
pub proof fn lemma_step_keeps_counter_under_ceiling(s: State, step: Step)
    requires
        s.counter <= s.ceiling,
    ensures
        s.step(step).ceiling == s.ceiling,
        s.step(step).counter <= s.ceiling,
{
}

/// A counter that is at most the ceiling stays so through any sequence of
/// hooks and calls, in any order.
pub proof fn lemma_counter_stays_under_ceiling(s: State, steps: Seq<Step>)
    requires
        s.counter <= s.ceiling,
    ensures
        s.run(steps).ceiling == s.ceiling,
        s.run(steps).counter <= s.ceiling,
    decreases steps.len(),
{
    if steps.len() > 0 {
        lemma_counter_stays_under_ceiling(s, steps.drop_last());
        lemma_step_keeps_counter_under_ceiling(s.run(steps.drop_last()), steps.last());
    }
}

/// A state whose fields fit their machine types still fits after any step.
pub proof fn lemma_step_fits(s: State, step: Step)
    requires
        s.fits(),
    ensures
        s.step(step).fits(),
{
}

} // verus!
