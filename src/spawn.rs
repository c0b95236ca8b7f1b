//! Getting a controlled character into the world: load the roster, then
//! enter with its first character, or create one when it is empty.
use crate::character::{default_character, is_default_character, CharacterSummary, NewCharacter};
use crate::wait::{law_wait_succeeds_on_first_hold, wait_run, wait_step, TickOutcome, WaitAction};
use vstd::prelude::*;

verus! {

/// What the spawn machine sees of the session after an advance.
#[derive(Clone, Debug, PartialEq, Eq)]
pub struct SpawnView {
    /// Whether the controlled character is in the world.
    pub present: bool,
    /// Whether the character roster is still being loaded.
    pub loading: bool,
    /// The character roster, in its own order.
    pub characters: Vec<CharacterSummary>,
}

/// One advance of the session, as the spawn machine sees it.
#[derive(Clone, Debug, PartialEq, Eq)]
pub enum SpawnReport {
    Failed,
    Advanced(SpawnView),
}

#[derive(Clone, Copy, Debug, PartialEq, Eq, Structural)]
pub enum SpawnPhase {
    NoRosterRequested,
    RosterLoading,
    /// A character was created; waiting for the server to confirm it.
    Creating,
    CharacterRequested,
    Present,
    Aborted,
}

/// Why spawning cannot go on.
#[derive(Clone, Copy, Debug, PartialEq, Eq, Structural)]
pub enum SpawnError {
    /// An advance of the session failed; the session cannot go on.
    AdvanceFailed,
    /// An advance failed while the creation of a character was awaited.
    CreationUnconfirmed,
    /// The loaded roster's first character has no identifier.
    MissingCharacterId,
}

/// What the session is to do after a step of the spawn machine.
#[derive(Clone, Debug, PartialEq, Eq)]
pub enum SpawnAction {
    Nothing,
    LoadRoster,
    RequestCharacter { id: i64, alias: String },
    CreateCharacter(NewCharacter),
    Abort(SpawnError),
}

pub struct SpawnMachine {
    pub phase: SpawnPhase,
}

/// The step on the roster once it is loaded, with the character absent.
pub open spec fn on_loaded_roster(characters: Seq<CharacterSummary>) -> (SpawnPhase, SpawnAction) {
    if characters.len() == 0 {
        (SpawnPhase::Creating, SpawnAction::CreateCharacter(arbitrary_default()))
    } else {
        match characters[0].id {
            Some(id) => (
                SpawnPhase::CharacterRequested,
                SpawnAction::RequestCharacter { id, alias: characters[0].alias },
            ),
            None => (SpawnPhase::Aborted, SpawnAction::Abort(SpawnError::MissingCharacterId)),
        }
    }
}

/// A default character as a spec value. `action_matches` compares a
/// creation by `is_default_character` alone, so which one is chosen does
/// not matter.
pub open spec fn arbitrary_default() -> NewCharacter {
    choose|c: NewCharacter| is_default_character(c)
}

/// Whether action `a` is the one that `spawn_next` gives, where creation
/// is compared up to the default character.
pub open spec fn action_matches(a: SpawnAction, expected: SpawnAction) -> bool {
    match expected {
        SpawnAction::CreateCharacter(_) => match a {
            SpawnAction::CreateCharacter(c) => is_default_character(c),
            _ => false,
        },
        _ => a == expected,
    }
}

/// One step of the spawn machine: the phase after an advance, and the
/// action that the session is to take.
pub open spec fn spawn_next(phase: SpawnPhase, report: SpawnReport) -> (SpawnPhase, SpawnAction) {
    match phase {
        SpawnPhase::RosterLoading => match report {
            SpawnReport::Failed => (SpawnPhase::Aborted, SpawnAction::Abort(SpawnError::AdvanceFailed)),
            SpawnReport::Advanced(v) => if v.present {
                (SpawnPhase::Present, SpawnAction::Nothing)
            } else if v.loading {
                (phase, SpawnAction::Nothing)
            } else {
                on_loaded_roster(v.characters@)
            },
        },
        SpawnPhase::Creating => match report {
            SpawnReport::Failed => (
                SpawnPhase::Aborted,
                SpawnAction::Abort(SpawnError::CreationUnconfirmed),
            ),
            SpawnReport::Advanced(v) => if v.loading {
                (phase, SpawnAction::Nothing)
            } else {
                (SpawnPhase::RosterLoading, SpawnAction::Nothing)
            },
        },
        SpawnPhase::CharacterRequested => match report {
            SpawnReport::Advanced(v) => if v.present {
                (SpawnPhase::Present, SpawnAction::Nothing)
            } else {
                (phase, SpawnAction::Nothing)
            },
            SpawnReport::Failed => (SpawnPhase::Aborted, SpawnAction::Abort(SpawnError::AdvanceFailed)),
        },
        _ => (phase, SpawnAction::Nothing),
    }
}

/// Drives the spawn machine from `phase` over a stream of advances: the
/// phase it ends in and the action taken after each advance.
pub open spec fn spawn_run(phase: SpawnPhase, s: Seq<SpawnReport>) -> (SpawnPhase, Seq<SpawnAction>)
    decreases s.len(),
{
    if s.len() == 0 {
        (phase, Seq::empty())
    } else {
        let (p1, a) = spawn_next(phase, s[0]);
        let (p2, acts) = spawn_run(p1, s.drop_first());
        (p2, seq![a] + acts)
    }
}

/// An advance after which the roster is loaded and empty, with the
/// character absent.
pub open spec fn loaded_empty(r: SpawnReport) -> bool {
    match r {
        SpawnReport::Advanced(v) => !v.present && !v.loading && v.characters@.len() == 0,
        SpawnReport::Failed => false,
    }
}

/// An advance after which the roster, if loaded, starts with `c`.
pub open spec fn loaded_starts_with(r: SpawnReport, c: CharacterSummary) -> bool {
    match r {
        SpawnReport::Advanced(v) => !v.loading ==> v.characters@.len() > 0 && v.characters@[0]
            == c,
        SpawnReport::Failed => true,
    }
}

/// An advance after which the roster, if loaded, is not empty.
pub open spec fn loaded_nonempty(r: SpawnReport) -> bool {
    match r {
        SpawnReport::Advanced(v) => !v.loading ==> v.characters@.len() > 0,
        SpawnReport::Failed => true,
    }
}

/// A successful advance after which the roster is still loading and the
/// character absent.
pub open spec fn before_roster(r: SpawnReport) -> bool {
    match r {
        SpawnReport::Advanced(v) => v.loading && !v.present,
        SpawnReport::Failed => false,
    }
}

/// A successful advance after which the roster is still loading.
pub open spec fn still_loading(r: SpawnReport) -> bool {
    match r {
        SpawnReport::Advanced(v) => v.loading,
        SpawnReport::Failed => false,
    }
}

/// A successful advance after which the roster is loaded.
pub open spec fn roster_loaded(r: SpawnReport) -> bool {
    match r {
        SpawnReport::Advanced(v) => !v.loading,
        SpawnReport::Failed => false,
    }
}

/// Whether spawning has ended in `phase`.
pub open spec fn is_terminal(phase: SpawnPhase) -> bool {
    phase == SpawnPhase::Present || phase == SpawnPhase::Aborted
}

/// The phase that a run from `phase` over `s` is in before its `i`-th
/// advance.
pub open spec fn phase_before(phase: SpawnPhase, s: Seq<SpawnReport>, i: nat) -> SpawnPhase
    decreases i,
{
    if i == 0 || s.len() == 0 {
        phase
    } else {
        phase_before(spawn_next(phase, s[0]).0, s.drop_first(), (i - 1) as nat)
    }
}

/// Each action of a run is the action of one step on its advance.
proof fn lemma_run_step(phase: SpawnPhase, s: Seq<SpawnReport>)
    ensures
        spawn_run(phase, s).1.len() == s.len(),
        forall|i: int|
            0 <= i < s.len() ==> #[trigger] spawn_run(phase, s).1[i] == spawn_next(
                phase_before(phase, s, i as nat),
                s[i],
            ).1,
    decreases s.len(),
{
    if s.len() > 0 {
        let (p1, a) = spawn_next(phase, s[0]);
        let t = s.drop_first();
        lemma_run_step(p1, t);
        let acts = spawn_run(phase, s).1;
        assert(acts =~= seq![a] + spawn_run(p1, t).1);
        assert forall|i: int| 0 <= i < s.len() implies #[trigger] acts[i] == spawn_next(
            phase_before(phase, s, i as nat),
            s[i],
        ).1 by {
            if i > 0 {
                assert(s[i] == t[i - 1]);
                assert(acts[i] == spawn_run(p1, t).1[i - 1]);
            }
        }
    }
}

/// Once a run sees only rosters that are loaded non-empty, it creates no
/// character.
proof fn lemma_no_creation(phase: SpawnPhase, s: Seq<SpawnReport>)
    requires
        forall|i: int| 0 <= i < s.len() ==> loaded_nonempty(#[trigger] s[i]),
    ensures
        forall|i: int| 0 <= i < s.len() ==> !(#[trigger] spawn_run(phase, s).1[i] is CreateCharacter),
{
    lemma_run_step(phase, s);
    assert forall|i: int| 0 <= i < s.len() implies !(#[trigger] spawn_run(phase, s).1[i] is CreateCharacter) by {
        assert(loaded_nonempty(s[i]));
    }
}

/// When the loaded roster is not empty, the spawn machine creates no
/// character, and every character it asks to enter with is the roster's
/// first.
pub proof fn law_spawn_enters_with_first_character(
    phase: SpawnPhase,
    s: Seq<SpawnReport>,
    c: CharacterSummary,
)
    requires
        c.id is Some,
        forall|i: int| 0 <= i < s.len() ==> loaded_starts_with(#[trigger] s[i], c),
    ensures
        forall|i: int| 0 <= i < s.len() ==> !(spawn_run(phase, s).1[i] is CreateCharacter),
        forall|i: int|
            0 <= i < s.len() && (#[trigger] spawn_run(phase, s).1[i] is RequestCharacter) ==> spawn_run(phase, s).1[i]
                == (SpawnAction::RequestCharacter { id: c.id.unwrap(), alias: c.alias }),
{
    lemma_run_step(phase, s);
    assert forall|i: int| 0 <= i < s.len() implies loaded_nonempty(#[trigger] s[i]) by {
        assert(loaded_starts_with(s[i], c));
    }
    lemma_no_creation(phase, s);
    assert forall|i: int|
        0 <= i < s.len() && (#[trigger] spawn_run(phase, s).1[i] is RequestCharacter) implies spawn_run(phase, s).1[i]
            == (SpawnAction::RequestCharacter { id: c.id.unwrap(), alias: c.alias }) by {
        assert(loaded_starts_with(s[i], c));
    }
}

/// When the roster loads empty, the spawn machine creates exactly one
/// character, on that advance, and asks to enter with none before it; as
/// long as the roster, once loaded again, is not empty, it creates no other.
pub proof fn law_spawn_creates_once_on_empty_roster(s: Seq<SpawnReport>, k: nat)
    requires
        k < s.len(),
        forall|i: int| 0 <= i < k ==> before_roster(#[trigger] s[i]),
        loaded_empty(s[k as int]),
        forall|i: int| k < i < s.len() ==> loaded_nonempty(#[trigger] s[i]),
    ensures
        spawn_run(SpawnPhase::RosterLoading, s).1[k as int] is CreateCharacter,
        forall|i: int|
            0 <= i < s.len() && i != k ==> !(#[trigger] spawn_run(SpawnPhase::RosterLoading, s).1[i] is CreateCharacter),
        forall|i: int|
            0 <= i <= k ==> !(#[trigger] spawn_run(SpawnPhase::RosterLoading, s).1[i] is RequestCharacter),
    decreases k,
{
    let (p1, a) = spawn_next(SpawnPhase::RosterLoading, s[0]);
    let t = s.drop_first();
    let acts = spawn_run(SpawnPhase::RosterLoading, s).1;
    lemma_run_step(p1, t);
    assert(acts =~= seq![a] + spawn_run(p1, t).1);
    if k == 0 {
        assert(loaded_empty(s[0]));
        assert forall|i: int| 0 <= i < t.len() implies loaded_nonempty(#[trigger] t[i]) by {
            assert(t[i] == s[i + 1]);
        }
        lemma_no_creation(p1, t);
        assert forall|i: int| 0 <= i < s.len() && i != k implies !(#[trigger] acts[i] is CreateCharacter) by {
            assert(acts[i] == spawn_run(p1, t).1[i - 1]);
        }
    } else {
        assert(before_roster(s[0]));
        assert(p1 == SpawnPhase::RosterLoading);
        assert forall|i: int| 0 <= i < k - 1 implies before_roster(#[trigger] t[i]) by {
            assert(t[i] == s[i + 1]);
        }
        assert forall|i: int| k - 1 < i < t.len() implies loaded_nonempty(#[trigger] t[i]) by {
            assert(t[i] == s[i + 1]);
        }
        assert(t[k - 1] == s[k as int]);
        law_spawn_creates_once_on_empty_roster(t, (k - 1) as nat);
        assert forall|i: int| 0 <= i < s.len() && i != k implies !(#[trigger] acts[i] is CreateCharacter) by {
            if i > 0 {
                assert(acts[i] == spawn_run(p1, t).1[i - 1]);
            }
        }
        assert forall|i: int| 0 <= i <= k implies !(#[trigger] acts[i] is RequestCharacter) by {
            if i > 0 {
                assert(acts[i] == spawn_run(p1, t).1[i - 1]);
            }
        }
    }
}

/// The phase before advance `i + 1` is the one that the step on advance
/// `i` leads to.
proof fn lemma_phase_step(phase: SpawnPhase, s: Seq<SpawnReport>, i: nat)
    requires
        i < s.len(),
    ensures
        phase_before(phase, s, i + 1) == spawn_next(phase_before(phase, s, i), s[i as int]).0,
    decreases i,
{
    if i > 0 {
        let t = s.drop_first();
        let p1 = spawn_next(phase, s[0]).0;
        lemma_phase_step(p1, t, (i - 1) as nat);
        assert(t[i - 1] == s[i as int]);
        assert(phase_before(phase, s, i + 1) == phase_before(p1, t, i));
        assert(phase_before(phase, s, i) == phase_before(p1, t, (i - 1) as nat));
    } else {
        let p1 = spawn_next(phase, s[0]).0;
        assert(phase_before(phase, s, 1) == phase_before(p1, s.drop_first(), 0));
    }
}

/// A run that has left the start phase never comes back to it, and one
/// that has ended stays ended.
proof fn lemma_phase_kept(phase: SpawnPhase, s: Seq<SpawnReport>, j: nat, i: nat)
    requires
        j <= i <= s.len(),
    ensures
        phase_before(phase, s, j) != SpawnPhase::NoRosterRequested ==> phase_before(phase, s, i)
            != SpawnPhase::NoRosterRequested,
        is_terminal(phase_before(phase, s, j)) ==> is_terminal(phase_before(phase, s, i)),
    decreases i - j,
{
    if j < i {
        lemma_phase_step(phase, s, j);
        lemma_phase_kept(phase, s, j + 1, i);
    }
}

/// A failed advance ends spawning: once spawning has begun, the machine is
/// finished right after the first failed advance and takes no action on
/// any later one.
pub proof fn law_spawn_stops_on_failed_advance(phase: SpawnPhase, s: Seq<SpawnReport>, k: nat)
    requires
        phase != SpawnPhase::NoRosterRequested,
        k < s.len(),
        s[k as int] == SpawnReport::Failed,
    ensures
        is_terminal(phase_before(phase, s, k + 1)),
        forall|i: int| k < i < s.len() ==> #[trigger] spawn_run(phase, s).1[i] == SpawnAction::Nothing,
{
    assert(phase_before(phase, s, 0) == phase);
    lemma_phase_kept(phase, s, 0, k);
    lemma_phase_step(phase, s, k);
    lemma_run_step(phase, s);
    assert forall|i: int| k < i < s.len() implies #[trigger] spawn_run(phase, s).1[i]
        == SpawnAction::Nothing by {
        lemma_phase_kept(phase, s, k + 1, i as nat);
    }
}

/// What an advance is to the wait for a created character: the awaited
/// condition is that the roster has stopped loading.
pub open spec fn creation_outcome(r: SpawnReport) -> TickOutcome {
    match r {
        SpawnReport::Failed => TickOutcome::Failed,
        SpawnReport::Advanced(v) => TickOutcome::Advanced { holds: !v.loading },
    }
}

/// After a creation request the machine waits, taking no action, for
/// exactly as many advances as the roster takes to stop loading, as the
/// blocking wait would, and then goes back to reading the roster.
pub proof fn law_creation_waits_for_roster(s: Seq<SpawnReport>, k: nat)
    requires
        k < s.len(),
        forall|i: int| 0 <= i < k ==> still_loading(#[trigger] s[i]),
        roster_loaded(s[k as int]),
    ensures
        forall|i: int| 0 <= i <= k ==> #[trigger] spawn_run(SpawnPhase::Creating, s).1[i] == SpawnAction::Nothing,
        forall|i: nat| i <= k ==> #[trigger] phase_before(SpawnPhase::Creating, s, i) == SpawnPhase::Creating,
        phase_before(SpawnPhase::Creating, s, k + 1) == SpawnPhase::RosterLoading,
        wait_run(s.map_values(|r: SpawnReport| creation_outcome(r))) == (WaitAction::Satisfied, k + 1),
{
    let c = SpawnPhase::Creating;
    assert forall|i: nat| i <= k implies #[trigger] phase_before(c, s, i) == c by {
        lemma_creating_prefix(s, k, i);
    }
    lemma_phase_step(c, s, k);
    lemma_run_step(c, s);
    assert forall|i: int| 0 <= i <= k implies #[trigger] spawn_run(c, s).1[i] == SpawnAction::Nothing by {
        assert(phase_before(c, s, i as nat) == c);
        if i < k {
            assert(still_loading(s[i]));
        }
    }
    let o = s.map_values(|r: SpawnReport| creation_outcome(r));
    assert forall|i: int| 0 <= i < k implies o[i] == (TickOutcome::Advanced { holds: false }) by {
        assert(still_loading(s[i]));
    }
    law_wait_succeeds_on_first_hold(o, k);
}

proof fn lemma_creating_prefix(s: Seq<SpawnReport>, k: nat, i: nat)
    requires
        k < s.len(),
        forall|j: int| 0 <= j < k ==> still_loading(#[trigger] s[j]),
        i <= k,
    ensures
        phase_before(SpawnPhase::Creating, s, i) == SpawnPhase::Creating,
    decreases i,
{
    if i > 0 {
        lemma_creating_prefix(s, k, (i - 1) as nat);
        lemma_phase_step(SpawnPhase::Creating, s, (i - 1) as nat);
        assert(still_loading(s[i - 1]));
    }
}

impl SpawnMachine {
    pub fn new() -> (r: SpawnMachine)
        ensures
            r.phase == SpawnPhase::NoRosterRequested,
    {
        SpawnMachine { phase: SpawnPhase::NoRosterRequested }
    }

    /// Whether spawning has ended, with the character present or aborted.
    pub fn is_finished(&self) -> (r: bool)
        ensures
            r == (self.phase == SpawnPhase::Present || self.phase == SpawnPhase::Aborted),
    {
        match self.phase {
            SpawnPhase::Present | SpawnPhase::Aborted => true,
            _ => false,
        }
    }

    /// Starts spawning: the roster is requested once, before any advance.
    pub fn begin(&mut self) -> (r: SpawnAction)
        ensures
            old(self).phase == SpawnPhase::NoRosterRequested ==> final(self).phase
                == SpawnPhase::RosterLoading && r == SpawnAction::LoadRoster,
            old(self).phase != SpawnPhase::NoRosterRequested ==> final(self).phase == old(
                self,
            ).phase && r == SpawnAction::Nothing,
    {
        match self.phase {
            SpawnPhase::NoRosterRequested => {
                self.phase = SpawnPhase::RosterLoading;
                SpawnAction::LoadRoster
            },
            _ => SpawnAction::Nothing,
        }
    }

    /// Takes one advance of the session; the per-tick housekeeping and the
    /// clock's tick follow it whatever the action.
    pub fn on_tick(&mut self, report: &SpawnReport) -> (r: SpawnAction)
        ensures
            final(self).phase == spawn_next(old(self).phase, *report).0,
            action_matches(r, spawn_next(old(self).phase, *report).1),
    {
        match self.phase {
            SpawnPhase::RosterLoading => match report {
                SpawnReport::Failed => {
                    self.phase = SpawnPhase::Aborted;
                    SpawnAction::Abort(SpawnError::AdvanceFailed)
                },
                SpawnReport::Advanced(v) => {
                    if v.present {
                        self.phase = SpawnPhase::Present;
                        SpawnAction::Nothing
                    } else if v.loading {
                        SpawnAction::Nothing
                    } else if v.characters.len() == 0 {
                        self.phase = SpawnPhase::Creating;
                        let c = default_character();
                        SpawnAction::CreateCharacter(c)
                    } else {
                        let first = &v.characters[0];
                        match first.id {
                            Some(id) => {
                                self.phase = SpawnPhase::CharacterRequested;
                                SpawnAction::RequestCharacter { id, alias: first.alias.clone() }
                            },
                            None => {
                                self.phase = SpawnPhase::Aborted;
                                SpawnAction::Abort(SpawnError::MissingCharacterId)
                            },
                        }
                    }
                },
            },
            SpawnPhase::Creating => {
                // the creation is confirmed once the roster stops loading
                let outcome = match report {
                    SpawnReport::Failed => TickOutcome::Failed,
                    SpawnReport::Advanced(v) => TickOutcome::Advanced { holds: !v.loading },
                };
                match wait_step(outcome) {
                    WaitAction::Failed => {
                        self.phase = SpawnPhase::Aborted;
                        SpawnAction::Abort(SpawnError::CreationUnconfirmed)
                    },
                    WaitAction::Satisfied => {
                        self.phase = SpawnPhase::RosterLoading;
                        SpawnAction::Nothing
                    },
                    WaitAction::Continue => SpawnAction::Nothing,
                }
            },
            SpawnPhase::CharacterRequested => match report {
                SpawnReport::Failed => {
                    self.phase = SpawnPhase::Aborted;
                    SpawnAction::Abort(SpawnError::AdvanceFailed)
                },
                SpawnReport::Advanced(v) => {
                    if v.present {
                        self.phase = SpawnPhase::Present;
                    }
                    SpawnAction::Nothing
                },
            },
            _ => SpawnAction::Nothing,
        }
    }
}

} // verus!
