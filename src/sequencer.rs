use vstd::prelude::*;

verus! {

/// One of the four hardware actions that a step can ask for.
#[derive(Clone, Copy, Debug, PartialEq, Eq, Structural)]
pub enum Action {
    LedAOn,
    LedBOn,
    LedAOff,
    LedBOff,
}

/// The action due in phase `p` (taken modulo four).
pub open spec fn action_at(p: nat) -> Action {
    let q = p % 4;
    if q == 0 {
        Action::LedAOn
    } else if q == 1 {
        Action::LedBOn
    } else if q == 2 {
        Action::LedAOff
    } else {
        Action::LedBOff
    }
}

/// The phase that follows phase `p`.
pub open spec fn next_phase(p: nat) -> nat {
    (p + 1) % 4
}

/// The sequencer's state: the phase whose action is due on the next step.
pub struct Sequencer {
    phase: u32,
}

impl View for Sequencer {
    type V = nat;

    closed spec fn view(&self) -> nat {
        self.phase as nat
    }
}

impl Sequencer {
    /// The phase always lies in `0..4`.
    pub open spec fn wf(&self) -> bool {
        self@ < 4
    }

    /// A sequencer in its initial phase, zero.
    pub fn new() -> (s: Sequencer)
        ensures
            s.wf(),
            s@ == 0,
    {
        Sequencer { phase: 0 }
    }

    /// The phase whose action is due on the next step.
    pub fn phase(&self) -> (p: u32)
        ensures
            p as nat == self@,
    {
        self.phase
    }

    /// Takes one step: returns the action due in the current phase and
    /// advances the phase modulo four. The phase is the only state changed.
    pub fn step(&mut self) -> (a: Action)
        requires
            old(self).wf(),
        ensures
            final(self).wf(),
            final(self)@ == next_phase(old(self)@),
            a == action_at(old(self)@),
    {
        let a = match self.phase {
            0 => Action::LedAOn,
            1 => Action::LedBOn,
            2 => Action::LedAOff,
            _ => Action::LedBOff,
        };
        self.phase = (self.phase + 1) % 4;
        a
    }
}

/// Performs the action due in the sequencer's current phase by invoking the
/// matching callback once, the only one of the four invoked, then advances
/// the phase modulo four. Each callback can be called at most once, so the
/// one due runs exactly once.
pub fn blinky_ratchet<F0: FnOnce(), F1: FnOnce(), F2: FnOnce(), F3: FnOnce()>(
    seq: &mut Sequencer,
    led0_on: F0,
    led0_off: F1,
    led1_on: F2,
    led1_off: F3,
)
    requires
        old(seq).wf(),
        action_at(old(seq)@) == Action::LedAOn ==> call_requires(led0_on, ()),
        action_at(old(seq)@) == Action::LedBOn ==> call_requires(led1_on, ()),
        action_at(old(seq)@) == Action::LedAOff ==> call_requires(led0_off, ()),
        action_at(old(seq)@) == Action::LedBOff ==> call_requires(led1_off, ()),
    ensures
        final(seq).wf(),
        final(seq)@ == next_phase(old(seq)@),
        action_at(old(seq)@) == Action::LedAOn ==> call_ensures(led0_on, (), ()),
        action_at(old(seq)@) == Action::LedBOn ==> call_ensures(led1_on, (), ()),
        action_at(old(seq)@) == Action::LedAOff ==> call_ensures(led0_off, (), ()),
        action_at(old(seq)@) == Action::LedBOff ==> call_ensures(led1_off, (), ()),
{
    match seq.phase() {
        0 => led0_on(),
        1 => led1_on(),
        2 => led0_off(),
        _ => led1_off(),
    }
    seq.step();
}

} // verus!
