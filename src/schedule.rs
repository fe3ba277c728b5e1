//! What a run of consecutive steps does, and the laws that govern it.
use vstd::prelude::*;

use crate::sequencer::{action_at, next_phase, Action};

verus! {

/// The phase reached after `n` steps taken from phase `p`.
pub open spec fn phase_after(p: nat, n: nat) -> nat
    decreases n,
{
    if n == 0 {
        p
    } else {
        next_phase(phase_after(p, (n - 1) as nat))
    }
}

/// The actions performed by `n` consecutive steps taken from phase `p`, in order.
pub open spec fn actions_from(p: nat, n: nat) -> Seq<Action>
    decreases n,
{
    if n == 0 {
        Seq::empty()
    } else {
        actions_from(p, (n - 1) as nat).push(action_at(phase_after(p, (n - 1) as nat)))
    }
}

/// The four actions of one full cycle, in the order a fresh sequencer performs them.
pub open spec fn cycle() -> Seq<Action> {
    seq![Action::LedAOn, Action::LedBOn, Action::LedAOff, Action::LedBOff]
}

/// After `n` steps from a phase in `0..4`, the phase is `(p + n) % 4`.
pub proof fn lemma_phase_after(p: nat, n: nat)
    requires
        p < 4,
    ensures
        phase_after(p, n) == (p + n) % 4,
    decreases n,
{
    if n > 0 {
        lemma_phase_after(p, (n - 1) as nat);
    }
}

/// Step `i` of a run of `n` steps performs the action due in the phase reached
/// after `i` steps.
pub proof fn lemma_actions_from(p: nat, n: nat)
    ensures
        actions_from(p, n).len() == n,
        forall|i: int| 0 <= i < n ==> #[trigger] actions_from(p, n)[i] == action_at(phase_after(p, i as nat)),
    decreases n,
{
    if n > 0 {
        lemma_actions_from(p, (n - 1) as nat);
    }
}

/// Starting from the initial phase, every block of four consecutive calls
/// that begins at a multiple of four performs LED A on, LED B on, LED A off,
/// LED B off, in that order.
pub proof fn lemma_cycle(k: nat)
    ensures
        actions_from(0, 4 * k + 4).subrange(4 * k as int, 4 * k + 4 as int) == cycle(),
{
    let s = actions_from(0, 4 * k + 4);
    lemma_actions_from(0, 4 * k + 4);
    assert forall|i: int| 0 <= i < 4 implies s.subrange(4 * k as int, 4 * k + 4 as int)[i] == cycle()[i] by {
        lemma_phase_after(0, (4 * k + i) as nat);
    }
    assert(s.subrange(4 * k as int, 4 * k + 4 as int) =~= cycle());
}

/// Any four consecutive calls, from any phase, perform each of the four
/// actions exactly once.
pub proof fn lemma_each_once_per_cycle(p: nat)
    requires
        p < 4,
    ensures
        actions_from(p, 4).len() == 4,
        actions_from(p, 4).no_duplicates(),
        forall|a: Action| actions_from(p, 4).contains(a),
{
    let s = actions_from(p, 4);
    lemma_actions_from(p, 4);
    lemma_phase_after(p, 0);
    lemma_phase_after(p, 1);
    lemma_phase_after(p, 2);
    lemma_phase_after(p, 3);
    let (a0, a1, a2, a3) = (s[0], s[1], s[2], s[3]);
    assert(a0 != a1 && a0 != a2 && a0 != a3 && a1 != a2 && a1 != a3 && a2 != a3);
    assert forall|i: int, j: int| 0 <= i < 4 && 0 <= j < 4 && i != j implies s[i] != s[j] by {}
    assert forall|a: Action| s.contains(a) by {
        if a == a0 {
            assert(s[0] == a);
        } else if a == a1 {
            assert(s[1] == a);
        } else if a == a2 {
            assert(s[2] == a);
        } else {
            assert(s[3] == a);
        }
    }
}

/// The action performed on call `n` equals the one performed on call `n + 4`.
pub proof fn lemma_periodic(n: nat, m: nat)
    requires
        n + 4 < m,
    ensures
        actions_from(0, m)[n as int] == actions_from(0, m)[n + 4 as int],
{
    lemma_same_phase_same_action(n, (n + 4) as nat, m);
}

/// Calls made in the same phase perform the same action: which action is
/// chosen depends on the phase alone.
pub proof fn lemma_same_phase_same_action(n1: nat, n2: nat, m: nat)
    requires
        n1 < m,
        n2 < m,
        n1 % 4 == n2 % 4,
    ensures
        actions_from(0, m)[n1 as int] == actions_from(0, m)[n2 as int],
{
    lemma_actions_from(0, m);
    lemma_phase_after(0, n1);
    lemma_phase_after(0, n2);
}

} // verus!
