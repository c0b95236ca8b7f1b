use inventory_bot::character::{default_character, Appearance, BodyType, CharacterSummary, Species};
use inventory_bot::negotiate::{
    answer_invite, answer_trade, decide, should_offer_trade, InviteAnswer, PendingTrade, Snapshot,
    TradePhase,
};
use inventory_bot::roster::{AliasOfUid, PlayerList};
use inventory_bot::session::{LoopAction, SessionLoop};
use inventory_bot::spawn::{SpawnAction, SpawnError, SpawnMachine, SpawnPhase, SpawnReport, SpawnView};
use inventory_bot::wait::{wait_step, TickOutcome, WaitAction};

const FRIEND: u64 = 10;
const BOT: u64 = 20;
const STRANGER: u64 = 30;

fn players() -> PlayerList {
    let mut p = PlayerList::new();
    p.insert(FRIEND, "Friend".to_string());
    p.insert(BOT, "Bot".to_string());
    p.insert(STRANGER, "Stranger".to_string());
    p
}

fn view(present: bool, loading: bool, characters: Vec<CharacterSummary>) -> SpawnReport {
    SpawnReport::Advanced(SpawnView { present, loading, characters })
}

fn hero() -> CharacterSummary {
    CharacterSummary { id: Some(7), alias: "Hero".to_string() }
}

/// Runs the wait over a stream of outcomes; returns how it ended and how
/// many advances it made.
fn run_wait(stream: &[TickOutcome]) -> (WaitAction, usize) {
    let mut advances = 0;
    for o in stream {
        advances += 1;
        let a = wait_step(*o);
        if a != WaitAction::Continue {
            return (a, advances);
        }
    }
    (WaitAction::Continue, advances)
}

/// Runs the spawn machine from its start over a stream of advances and
/// collects every action it asked for.
fn run_spawn(stream: Vec<SpawnReport>) -> (SpawnMachine, Vec<SpawnAction>) {
    let mut m = SpawnMachine::new();
    let mut actions = vec![m.begin()];
    for r in stream {
        if m.is_finished() {
            break;
        }
        actions.push(m.on_tick(&r));
    }
    (m, actions)
}

fn count_creations(actions: &[SpawnAction]) -> usize {
    actions.iter().filter(|a| matches!(a, SpawnAction::CreateCharacter(_))).count()
}

#[test]
fn wait_succeeds_on_first_tick_where_condition_holds() {
    let no = TickOutcome::Advanced { holds: false };
    let yes = TickOutcome::Advanced { holds: true };
    assert_eq!(run_wait(&[no, no, no, yes, no, yes]), (WaitAction::Satisfied, 4));
    assert_eq!(run_wait(&[yes]), (WaitAction::Satisfied, 1));
}

#[test]
fn wait_fails_on_first_failed_advance() {
    let no = TickOutcome::Advanced { holds: false };
    let yes = TickOutcome::Advanced { holds: true };
    assert_eq!(run_wait(&[no, no, TickOutcome::Failed, yes]), (WaitAction::Failed, 3));
    assert_eq!(run_wait(&[TickOutcome::Failed, yes]), (WaitAction::Failed, 1));
}

#[test]
fn alias_falls_back_to_unknown() {
    let p = players();
    assert_eq!(p.alias_of_uid(FRIEND), "Friend");
    assert_eq!(p.alias_of_uid(99), "Unknown");
    assert_eq!(PlayerList::new().alias_of_uid(FRIEND), "Unknown");
}

#[test]
fn default_character_is_fixed() {
    let c = default_character();
    assert_eq!(c.name, "Inventory Character");
    assert_eq!(
        c.appearance,
        Appearance {
            species: Species::Draugr,
            body_type: BodyType::Female,
            hair_style: 0,
            beard: 1,
            eyes: 0,
            accessory: 1,
            hair_color: 0,
            skin: 0,
            eye_color: 0,
        }
    );
}

#[test]
fn spawn_enters_with_existing_character() {
    let (m, actions) = run_spawn(vec![
        view(false, true, vec![]),
        view(false, true, vec![]),
        view(false, false, vec![hero()]),
        view(false, false, vec![hero()]),
        view(true, false, vec![hero()]),
    ]);
    assert_eq!(m.phase, SpawnPhase::Present);
    assert_eq!(actions[0], SpawnAction::LoadRoster);
    assert_eq!(count_creations(&actions), 0);
    let requests: Vec<&SpawnAction> =
        actions.iter().filter(|a| matches!(a, SpawnAction::RequestCharacter { .. })).collect();
    assert_eq!(requests, vec![&SpawnAction::RequestCharacter { id: 7, alias: "Hero".to_string() }]);
}

#[test]
fn spawn_picks_first_of_several_characters() {
    let second = CharacterSummary { id: Some(8), alias: "Second".to_string() };
    let (_, actions) = run_spawn(vec![view(false, false, vec![hero(), second])]);
    assert_eq!(actions[1], SpawnAction::RequestCharacter { id: 7, alias: "Hero".to_string() });
}

#[test]
fn spawn_creates_character_on_empty_roster() {
    let (m, actions) = run_spawn(vec![
        view(false, true, vec![]),
        view(false, false, vec![]),
        view(false, true, vec![]),
        view(false, true, vec![]),
        view(false, false, vec![hero()]),
        view(false, false, vec![hero()]),
        view(true, false, vec![hero()]),
    ]);
    assert_eq!(m.phase, SpawnPhase::Present);
    assert_eq!(count_creations(&actions), 1);
    assert_eq!(actions[2], SpawnAction::CreateCharacter(default_character()));
    // waiting for the roster to stop loading: nothing else is asked for
    assert_eq!(actions[3], SpawnAction::Nothing);
    assert_eq!(actions[4], SpawnAction::Nothing);
    assert_eq!(actions[5], SpawnAction::Nothing);
    assert_eq!(actions[6], SpawnAction::RequestCharacter { id: 7, alias: "Hero".to_string() });
    let first_request =
        actions.iter().position(|a| matches!(a, SpawnAction::RequestCharacter { .. })).unwrap();
    assert!(first_request > 2);
}

#[test]
fn spawn_aborts_when_creation_is_unconfirmed() {
    let (m, actions) = run_spawn(vec![
        view(false, false, vec![]),
        SpawnReport::Failed,
        view(false, false, vec![hero()]),
    ]);
    assert_eq!(m.phase, SpawnPhase::Aborted);
    assert!(m.is_finished());
    assert_eq!(actions.last(), Some(&SpawnAction::Abort(SpawnError::CreationUnconfirmed)));
    assert_eq!(actions.len(), 3);
}

#[test]
fn spawn_stops_on_failed_advance_while_loading() {
    let (m, actions) = run_spawn(vec![
        view(false, true, vec![]),
        view(false, true, vec![]),
        view(false, true, vec![]),
        view(false, true, vec![]),
        SpawnReport::Failed,
        view(false, false, vec![hero()]),
        view(true, false, vec![hero()]),
    ]);
    assert!(m.is_finished());
    assert_eq!(m.phase, SpawnPhase::Aborted);
    // the roster request, then one action per advance: five advances, no sixth
    assert_eq!(actions.len(), 6);
    assert_eq!(actions[5], SpawnAction::Abort(SpawnError::AdvanceFailed));
    assert!(!actions.iter().any(|a| matches!(a, SpawnAction::RequestCharacter { .. })));
    assert_eq!(count_creations(&actions), 0);
}

#[test]
fn spawn_stops_on_failed_advance_after_request() {
    let (m, actions) = run_spawn(vec![
        view(false, false, vec![hero()]),
        SpawnReport::Failed,
        view(true, false, vec![hero()]),
    ]);
    assert_eq!(m.phase, SpawnPhase::Aborted);
    assert_eq!(actions.len(), 3);
    assert_eq!(actions[2], SpawnAction::Abort(SpawnError::AdvanceFailed));
}

#[test]
fn spawn_aborts_on_character_without_id() {
    let unassigned = CharacterSummary { id: None, alias: "Hero".to_string() };
    let (m, actions) = run_spawn(vec![view(false, false, vec![unassigned])]);
    assert_eq!(m.phase, SpawnPhase::Aborted);
    assert_eq!(actions[1], SpawnAction::Abort(SpawnError::MissingCharacterId));
}

#[test]
fn spawn_begins_only_once() {
    let mut m = SpawnMachine::new();
    assert_eq!(m.begin(), SpawnAction::LoadRoster);
    assert_eq!(m.phase, SpawnPhase::RosterLoading);
    assert_eq!(m.begin(), SpawnAction::Nothing);
}

#[test]
fn invite_from_target_is_accepted() {
    assert_eq!(answer_invite(&players(), Some(FRIEND), "Friend"), InviteAnswer::Accept);
}

#[test]
fn invite_from_stranger_is_declined() {
    assert_eq!(answer_invite(&players(), Some(STRANGER), "Friend"), InviteAnswer::Decline);
    // aliases are compared case-sensitively
    assert_eq!(answer_invite(&players(), Some(FRIEND), "friend"), InviteAnswer::Decline);
    // an unknown inviter goes by the fallback alias
    assert_eq!(answer_invite(&players(), Some(99), "Friend"), InviteAnswer::Decline);
    assert_eq!(answer_invite(&players(), None, "Friend"), InviteAnswer::NoInvite);
}

#[test]
fn trade_from_target_is_accepted_every_tick() {
    let trade = Some(PendingTrade { phase: TradePhase::Review, parties: vec![FRIEND, BOT] });
    for _tick in 0..3 {
        assert_eq!(answer_trade(&players(), true, &trade, "Friend"), Some(TradePhase::Review));
    }
    let later = Some(PendingTrade { phase: TradePhase::Complete, parties: vec![FRIEND, BOT] });
    assert_eq!(answer_trade(&players(), true, &later, "Friend"), Some(TradePhase::Complete));
}

#[test]
fn trade_from_other_initiator_gets_no_action() {
    let trade = Some(PendingTrade { phase: TradePhase::Mutate, parties: vec![STRANGER, FRIEND] });
    for _tick in 0..3 {
        assert_eq!(answer_trade(&players(), true, &trade, "Friend"), None);
    }
    let empty = Some(PendingTrade { phase: TradePhase::Mutate, parties: vec![] });
    assert_eq!(answer_trade(&players(), true, &empty, "Friend"), None);
    let ours = Some(PendingTrade { phase: TradePhase::Mutate, parties: vec![FRIEND, BOT] });
    assert_eq!(answer_trade(&players(), false, &ours, "Friend"), None);
    assert_eq!(answer_trade(&players(), true, &None, "Friend"), None);
}

#[test]
fn decide_combines_invite_and_trade() {
    let snapshot = Snapshot {
        players: players(),
        invite: Some(STRANGER),
        trading: true,
        trade: Some(PendingTrade { phase: TradePhase::Review, parties: vec![FRIEND, BOT] }),
    };
    let d = decide(&snapshot, "Friend");
    assert_eq!(d.invite, InviteAnswer::Decline);
    assert_eq!(d.trade_accept, Some(TradePhase::Review));
}

#[test]
fn private_message_from_target_gets_trade_invite() {
    assert!(should_offer_trade(&players(), FRIEND, "Friend"));
    assert!(!should_offer_trade(&players(), STRANGER, "Friend"));
    assert!(!should_offer_trade(&players(), 99, "Friend"));
}

#[test]
fn loop_stops_after_failed_advance() {
    let outcomes = [true, true, true, true, false, true, true];
    let mut l = SessionLoop::new();
    let mut advances = 0;
    let mut actions = vec![];
    for ok in outcomes {
        if !l.may_advance() {
            break;
        }
        advances += 1;
        actions.push(l.on_advance(ok, true));
    }
    assert_eq!(advances, 5);
    assert_eq!(actions[3], LoopAction::Negotiate);
    assert_eq!(actions[4], LoopAction::Stop);
    assert!(!l.may_advance());
}

#[test]
fn loop_spawns_when_absent() {
    let mut l = SessionLoop::new();
    assert_eq!(l.on_advance(true, false), LoopAction::Spawn);
    assert_eq!(l.on_advance(true, true), LoopAction::Negotiate);
    assert_eq!(l.on_advance(false, true), LoopAction::Stop);
    assert_eq!(l.on_advance(true, true), LoopAction::Stop);
}
