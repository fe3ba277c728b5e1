use std::cell::RefCell;

use blinky::{blinky_ratchet, Action, Sequencer};

fn ratchet_logged(seq: &mut Sequencer, log: &RefCell<Vec<&'static str>>) {
    blinky_ratchet(
        seq,
        || log.borrow_mut().push("A-on"),
        || log.borrow_mut().push("A-off"),
        || log.borrow_mut().push("B-on"),
        || log.borrow_mut().push("B-off"),
    );
}

#[test]
fn nine_calls_from_fresh_state() {
    let log = RefCell::new(Vec::new());
    let mut seq = Sequencer::new();
    for _ in 0..9 {
        ratchet_logged(&mut seq, &log);
    }
    assert_eq!(
        *log.borrow(),
        vec!["A-on", "B-on", "A-off", "B-off", "A-on", "B-on", "A-off", "B-off", "A-on"]
    );
    assert_eq!(seq.phase(), 1);
}

#[test]
fn first_four_calls_form_one_cycle() {
    let log = RefCell::new(Vec::new());
    let mut seq = Sequencer::new();
    for _ in 0..4 {
        ratchet_logged(&mut seq, &log);
    }
    assert_eq!(*log.borrow(), vec!["A-on", "B-on", "A-off", "B-off"]);
    assert_eq!(seq.phase(), 0);
}

#[test]
fn call_n_matches_call_n_plus_four() {
    let mut seq = Sequencer::new();
    let actions: Vec<Action> = (0..40).map(|_| seq.step()).collect();
    for n in 0..36 {
        assert_eq!(actions[n], actions[n + 4]);
    }
}

#[test]
fn each_call_invokes_exactly_one_callback() {
    let log = RefCell::new(Vec::new());
    let mut seq = Sequencer::new();
    for call in 1..=12 {
        ratchet_logged(&mut seq, &log);
        assert_eq!(log.borrow().len(), call);
    }
}

#[test]
fn each_action_once_per_cycle_from_any_phase() {
    for start in 0..4 {
        let mut seq = Sequencer::new();
        for _ in 0..start {
            seq.step();
        }
        let window: Vec<Action> = (0..4).map(|_| seq.step()).collect();
        for a in [Action::LedAOn, Action::LedBOn, Action::LedAOff, Action::LedBOff] {
            assert_eq!(window.iter().filter(|x| **x == a).count(), 1);
        }
    }
}

#[test]
fn new_sequencer_starts_in_phase_zero() {
    assert_eq!(Sequencer::new().phase(), 0);
}

#[test]
fn step_returns_due_action_and_advances() {
    let mut seq = Sequencer::new();
    assert_eq!(seq.step(), Action::LedAOn);
    assert_eq!(seq.phase(), 1);
    assert_eq!(seq.step(), Action::LedBOn);
    assert_eq!(seq.phase(), 2);
    assert_eq!(seq.step(), Action::LedAOff);
    assert_eq!(seq.phase(), 3);
    assert_eq!(seq.step(), Action::LedBOff);
    assert_eq!(seq.phase(), 0);
}

#[test]
fn phase_stays_below_four_over_many_steps() {
    let mut seq = Sequencer::new();
    for n in 1..=1000u32 {
        seq.step();
        assert_eq!(seq.phase(), n % 4);
    }
}

#[test]
fn same_phase_same_callback_across_sequencers() {
    let first = RefCell::new(Vec::new());
    let second = RefCell::new(Vec::new());
    let mut a = Sequencer::new();
    let mut b = Sequencer::new();
    for _ in 0..3 {
        ratchet_logged(&mut a, &first);
    }
    for _ in 0..7 {
        ratchet_logged(&mut b, &second);
    }
    assert_eq!(a.phase(), b.phase());
    ratchet_logged(&mut a, &first);
    ratchet_logged(&mut b, &second);
    assert_eq!(first.borrow().last(), second.borrow().last());
    assert_eq!(*first.borrow().last().unwrap(), "B-off");
}

fn noop() {}

#[test]
fn plain_functions_as_callbacks() {
    let mut seq = Sequencer::new();
    blinky_ratchet(&mut seq, noop, noop, noop, noop);
    assert_eq!(seq.phase(), 1);
}
