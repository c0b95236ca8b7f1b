//! The blocking wait: advance the session one tick at a time until a
//! condition on its state holds, or until an advance fails.
use vstd::prelude::*;

verus! {

/// What one advance of the session gave, as the wait sees it.
#[derive(Clone, Copy, Debug, PartialEq, Eq, Structural)]
pub enum TickOutcome {
    /// The advance failed; the session cannot go on.
    Failed,
    /// The advance succeeded, and the awaited condition was evaluated on
    /// the new state.
    Advanced { holds: bool },
}

/// What the wait does after an advance.
#[derive(Clone, Copy, Debug, PartialEq, Eq, Structural)]
pub enum WaitAction {
    /// The condition does not hold yet: run the per-tick housekeeping,
    /// advance the clock and advance the session again.
    Continue,
    /// The condition holds: return the events of this advance.
    Satisfied,
    /// The advance failed: return its error at once.
    Failed,
}

pub open spec fn wait_decision(o: TickOutcome) -> WaitAction {
    match o {
        TickOutcome::Failed => WaitAction::Failed,
        TickOutcome::Advanced { holds } => if holds {
            WaitAction::Satisfied
        } else {
            WaitAction::Continue
        },
    }
}

/// Drives the wait over a stream of advances: the action it ends with
/// (`Continue` if the stream runs out first) and how many advances it made.
pub open spec fn wait_run(s: Seq<TickOutcome>) -> (WaitAction, nat)
    decreases s.len(),
{
    if s.len() == 0 {
        (WaitAction::Continue, 0)
    } else {
        let a = wait_decision(s[0]);
        if a == WaitAction::Continue {
            let (r, n) = wait_run(s.drop_first());
            (r, n + 1)
        } else {
            (a, 1)
        }
    }
}

/// Decides what the wait does after one advance of the session.
pub fn wait_step(o: TickOutcome) -> (r: WaitAction)
    ensures
        r == wait_decision(o),
        o == TickOutcome::Failed <==> r == WaitAction::Failed,
        o == (TickOutcome::Advanced { holds: true }) <==> r == WaitAction::Satisfied,
        o == (TickOutcome::Advanced { holds: false }) <==> r == WaitAction::Continue,
{
    match o {
        TickOutcome::Failed => WaitAction::Failed,
        TickOutcome::Advanced { holds } => {
            if holds {
                WaitAction::Satisfied
            } else {
                WaitAction::Continue
            }
        },
    }
}

/// A run of advances that all succeed without the condition holding
/// leaves the wait going after each of them.
proof fn lemma_wait_run_skips_prefix(s: Seq<TickOutcome>, k: nat)
    requires
        k <= s.len(),
        forall|i: int| 0 <= i < k ==> s[i] == (TickOutcome::Advanced { holds: false }),
    ensures
        wait_run(s) == (wait_run(s.subrange(k as int, s.len() as int)).0, wait_run(
            s.subrange(k as int, s.len() as int),
        ).1 + k),
    decreases k,
{
    if k == 0 {
        assert(s.subrange(0, s.len() as int) =~= s);
    } else {
        let t = s.drop_first();
        assert forall|i: int| 0 <= i < k - 1 implies t[i] == (TickOutcome::Advanced {
            holds: false,
        }) by {
            assert(t[i] == s[i + 1]);
        }
        lemma_wait_run_skips_prefix(t, (k - 1) as nat);
        assert(t.subrange((k - 1) as int, t.len() as int) =~= s.subrange(k as int, s.len() as int));
    }
}

/// On a stream of advances that succeed, the wait returns success on the
/// first advance after which the condition holds, having made exactly that
/// many advances.
pub proof fn law_wait_succeeds_on_first_hold(s: Seq<TickOutcome>, k: nat)
    requires
        k < s.len(),
        s[k as int] == (TickOutcome::Advanced { holds: true }),
        forall|i: int| 0 <= i < k ==> s[i] == (TickOutcome::Advanced { holds: false }),
    ensures
        wait_run(s) == (WaitAction::Satisfied, k + 1),
{
    lemma_wait_run_skips_prefix(s, k);
    let rest = s.subrange(k as int, s.len() as int);
    assert(rest[0] == s[k as int]);
}

/// The wait returns failure on the first failing advance, whatever the
/// condition would say, and makes no advance after it: what the stream
/// holds beyond that advance does not matter.
pub proof fn law_wait_fails_on_first_failure(s: Seq<TickOutcome>, k: nat)
    requires
        k < s.len(),
        s[k as int] == TickOutcome::Failed,
        forall|i: int| 0 <= i < k ==> s[i] == (TickOutcome::Advanced { holds: false }),
    ensures
        wait_run(s) == (WaitAction::Failed, k + 1),
        wait_run(s) == wait_run(s.subrange(0, k + 1 as int)),
{
    lemma_wait_run_skips_prefix(s, k);
    let rest = s.subrange(k as int, s.len() as int);
    assert(rest[0] == s[k as int]);
    let p = s.subrange(0, k + 1 as int);
    lemma_wait_run_skips_prefix(p, k);
    let prest = p.subrange(k as int, p.len() as int);
    assert(prest[0] == s[k as int]);
}

} // verus!
