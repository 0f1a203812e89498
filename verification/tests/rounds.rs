use drunkards_walk::{ActionSource, Actions, Config, Error, Event, Fixed, Pallet};

/// A source that hands out a fixed list of actions and counts how often it is
/// asked.
struct Script {
    actions: Vec<Actions>,
    asked: usize,
}

impl ActionSource for Script {
    fn select(&mut self) -> Actions {
        let action = self.actions[self.asked % self.actions.len()];
        self.asked += 1;
        action
    }
}

fn ceiling(evolutionary_ceiling: u32) -> Config {
    Config { evolutionary_ceiling }
}

#[test]
fn on_initialize_sets_the_flag_whatever_it_was() {
    for before in [false, true] {
        let mut pallet = Pallet::restore(ceiling(100), 5, 1, before);
        assert_eq!(pallet.on_initialize(), 0);
        assert!(pallet.chance());
        assert_eq!(pallet.counter(), 5);
        assert_eq!(pallet.action(), 1);
    }
}

#[test]
fn on_finalize_raises_the_counter_below_the_ceiling() {
    let mut pallet = Pallet::restore(ceiling(100), 98, 2, true);
    assert_eq!(pallet.on_finalize(), Some(Event::ChanceMutation(Actions::Increment, 99)));
    assert_eq!(pallet.counter(), 99);
    assert_eq!(pallet.action(), 0);
    assert!(!pallet.chance());
}

#[test]
fn on_finalize_does_not_reach_the_ceiling() {
    let mut pallet = Pallet::restore(ceiling(100), 99, 2, true);
    assert_eq!(pallet.on_finalize(), Some(Event::ChanceMutation(Actions::Increment, 99)));
    assert_eq!(pallet.counter(), 99);
    assert_eq!(pallet.action(), 0);
    assert!(!pallet.chance());
}

#[test]
fn on_finalize_is_skipped_at_the_ceiling() {
    let mut pallet = Pallet::restore(ceiling(100), 100, 1, true);
    assert_eq!(pallet.on_finalize(), Some(Event::ChanceMutation(Actions::Increment, 100)));
    assert_eq!(pallet.counter(), 100);
    assert_eq!(pallet.action(), 0);
}

#[test]
fn ceiling_checks_differ_one_below_the_ceiling() {
    let mut executed = Pallet::restore(ceiling(100), 99, 0, true);
    let mut by_chance = executed;
    assert_eq!(executed.execute(), Ok(Event::Executed(Actions::Increment, 100)));
    assert_eq!(by_chance.on_finalize(), Some(Event::ChanceMutation(Actions::Increment, 99)));
    assert_eq!(executed.counter(), 100);
    assert_eq!(by_chance.counter(), 99);
}

#[test]
fn on_finalize_skips_an_increment_that_would_overflow() {
    let mut pallet = Pallet::restore(ceiling(u32::MAX), u32::MAX, 2, true);
    assert_eq!(pallet.on_finalize(), Some(Event::ChanceMutation(Actions::Increment, u32::MAX)));
    assert_eq!(pallet.counter(), u32::MAX);
}

#[test]
fn on_finalize_does_nothing_in_a_touched_round() {
    let mut pallet = Pallet::restore(ceiling(100), 5, 1, false);
    assert_eq!(pallet.on_finalize(), None);
    assert_eq!(pallet, Pallet::restore(ceiling(100), 5, 1, false));
}

#[test]
fn a_successful_call_cancels_the_chance_mutation() {
    let mut pallet = Pallet::restore(ceiling(100), 5, 1, false);
    pallet.on_initialize();
    assert_eq!(pallet.execute(), Ok(Event::Executed(Actions::Decrement, 4)));
    assert_eq!(pallet.on_finalize(), None);
    assert_eq!(pallet.counter(), 4);
    assert_eq!(pallet.action(), 1);

    pallet.on_initialize();
    assert_eq!(pallet.change(2), Ok(Event::Changed(Actions::Idle)));
    assert_eq!(pallet.on_finalize(), None);
    assert_eq!(pallet.counter(), 4);
    assert_eq!(pallet.action(), 2);
}

#[test]
fn a_failed_call_cancels_the_chance_mutation_too() {
    let mut pallet = Pallet::restore(ceiling(100), 0, 1, false);
    pallet.on_initialize();
    assert_eq!(pallet.execute(), Err(Error::Underflow));
    assert_eq!(pallet.on_finalize(), None);
    assert_eq!(pallet, Pallet::restore(ceiling(100), 0, 1, false));

    pallet.on_initialize();
    assert_eq!(pallet.change(3), Err(Error::NotAValidAction));
    assert_eq!(pallet.on_finalize(), None);
    assert_eq!(pallet, Pallet::restore(ceiling(100), 0, 1, false));
}

#[test]
fn an_untouched_round_mutates_once() {
    let mut pallet = Pallet::new(ceiling(100));
    pallet.on_initialize();
    assert_eq!(pallet.on_finalize(), Some(Event::ChanceMutation(Actions::Increment, 1)));
    assert_eq!(pallet.on_finalize(), None);
    assert_eq!(pallet.counter(), 1);
    pallet.on_initialize();
    assert_eq!(pallet.on_finalize(), Some(Event::ChanceMutation(Actions::Increment, 2)));
    assert_eq!(pallet.counter(), 2);
}

#[test]
fn chance_mutation_applies_the_given_action() {
    let mut pallet = Pallet::restore(ceiling(100), 5, 0, true);
    assert_eq!(
        pallet.chance_mutation(Actions::Decrement),
        Some(Event::ChanceMutation(Actions::Decrement, 4))
    );
    assert_eq!(pallet, Pallet::restore(ceiling(100), 4, 1, false));

    let mut idle = Pallet::restore(ceiling(100), 5, 0, true);
    assert_eq!(idle.chance_mutation(Actions::Idle), Some(Event::ChanceMutation(Actions::Idle, 5)));
    assert_eq!(idle, Pallet::restore(ceiling(100), 5, 2, false));

    let mut touched = Pallet::restore(ceiling(100), 5, 0, false);
    assert_eq!(touched.chance_mutation(Actions::Decrement), None);
    assert_eq!(touched, Pallet::restore(ceiling(100), 5, 0, false));
}

#[test]
fn chance_mutation_skips_a_decrement_at_zero() {
    let mut pallet = Pallet::restore(ceiling(100), 0, 0, true);
    assert_eq!(
        pallet.chance_mutation(Actions::Decrement),
        Some(Event::ChanceMutation(Actions::Decrement, 0))
    );
    assert_eq!(pallet, Pallet::restore(ceiling(100), 0, 1, false));
}

#[test]
fn chance_mutation_lowers_a_counter_above_the_ceiling() {
    let mut pallet = Pallet::restore(ceiling(3), 10, 0, true);
    assert_eq!(
        pallet.chance_mutation(Actions::Decrement),
        Some(Event::ChanceMutation(Actions::Decrement, 9))
    );
    assert_eq!(pallet.counter(), 9);
}

#[test]
fn on_finalize_with_asks_the_source_once_per_untouched_round() {
    let mut source = Script { actions: vec![Actions::Decrement, Actions::Idle, Actions::Increment], asked: 0 };
    let mut pallet = Pallet::restore(ceiling(100), 5, 0, false);

    pallet.on_initialize();
    assert_eq!(
        pallet.on_finalize_with(&mut source),
        Some(Event::ChanceMutation(Actions::Decrement, 4))
    );
    assert_eq!(pallet.action(), 1);
    assert_eq!(source.asked, 1);

    pallet.on_initialize();
    assert_eq!(pallet.on_finalize_with(&mut source), Some(Event::ChanceMutation(Actions::Idle, 4)));
    assert_eq!(pallet.action(), 2);
    assert_eq!(source.asked, 2);

    pallet.on_initialize();
    assert_eq!(
        pallet.on_finalize_with(&mut source),
        Some(Event::ChanceMutation(Actions::Increment, 5))
    );
    assert_eq!(pallet, Pallet::restore(ceiling(100), 5, 0, false));
    assert_eq!(source.asked, 3);
}

#[test]
fn on_finalize_with_leaves_the_source_alone_in_a_touched_round() {
    let mut source = Script { actions: vec![Actions::Decrement], asked: 0 };
    let mut pallet = Pallet::restore(ceiling(100), 5, 0, false);
    pallet.on_initialize();
    assert_eq!(pallet.change(2), Ok(Event::Changed(Actions::Idle)));
    assert_eq!(pallet.on_finalize_with(&mut source), None);
    assert_eq!(source.asked, 0);
    assert_eq!(pallet, Pallet::restore(ceiling(100), 5, 2, false));
}

#[test]
fn fixed_source_selects_its_action_every_time() {
    let mut source = Fixed(Actions::Idle);
    assert_eq!(source.select(), Actions::Idle);
    assert_eq!(source.select(), Actions::Idle);
    assert_eq!(source, Fixed(Actions::Idle));

    let mut pallet = Pallet::restore(ceiling(100), 5, 0, true);
    let mut decrement = Fixed(Actions::Decrement);
    assert_eq!(
        pallet.on_finalize_with(&mut decrement),
        Some(Event::ChanceMutation(Actions::Decrement, 4))
    );
}

#[test]
fn counter_stays_under_the_ceiling_through_many_rounds() {
    let mut pallet = Pallet::new(ceiling(4));
    let mut source = Script { actions: vec![Actions::Increment, Actions::Increment, Actions::Decrement], asked: 0 };
    for round in 0..40u32 {
        pallet.on_initialize();
        if round % 3 == 0 {
            let _ = pallet.change((round % 5) as u8);
        }
        if round % 4 == 1 {
            let _ = pallet.execute();
        }
        let _ = pallet.on_finalize_with(&mut source);
        assert!(pallet.counter() <= 4);
        assert!(!pallet.chance());
    }
}
