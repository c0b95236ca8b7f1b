//! Invites and trades: accept what the trusted counterpart starts, turn
//! down everyone else's invites, and leave everyone else's trades alone.
use crate::roster::{alias_in, AliasOfUid, PlayerList, Uid};
use vstd::prelude::*;

verus! {

/// The step of a multi-round trade that an accept answers to.
#[derive(Clone, Copy, Debug, PartialEq, Eq, Structural)]
pub enum TradePhase {
    Mutate,
    Review,
    Complete,
}

/// A trade under way, as the session shows it.
#[derive(Clone, Debug, PartialEq, Eq)]
pub struct PendingTrade {
    pub phase: TradePhase,
    /// The parties in the session's order; the first is taken to be the
    /// one who started the trade.
    pub parties: Vec<Uid>,
}

/// What the negotiation reads of the session on one tick.
pub struct Snapshot {
    pub players: PlayerList,
    /// The identity of the inviter of the pending invite, if any.
    pub invite: Option<Uid>,
    /// Whether the session reports that a trade is active.
    pub trading: bool,
    pub trade: Option<PendingTrade>,
}

#[derive(Clone, Copy, Debug, PartialEq, Eq, Structural)]
pub enum InviteAnswer {
    NoInvite,
    Accept,
    Decline,
}

/// The actions of one tick: an answer to the pending invite, and the
/// phase to accept the pending trade at, if it is to be accepted.
#[derive(Clone, Copy, Debug, PartialEq, Eq, Structural)]
pub struct Decision {
    pub invite: InviteAnswer,
    pub trade_accept: Option<TradePhase>,
}

pub open spec fn invite_answer(
    players: Map<Uid, String>,
    invite: Option<Uid>,
    target: Seq<char>,
) -> InviteAnswer {
    match invite {
        None => InviteAnswer::NoInvite,
        Some(inviter) => if alias_in(players, inviter) == target {
            InviteAnswer::Accept
        } else {
            InviteAnswer::Decline
        },
    }
}

pub open spec fn trade_accept(
    players: Map<Uid, String>,
    trading: bool,
    trade: Option<PendingTrade>,
    target: Seq<char>,
) -> Option<TradePhase> {
    match trade {
        Some(t) => if trading && t.parties@.len() > 0 && alias_in(players, t.parties@[0])
            == target {
            Some(t.phase)
        } else {
            None
        },
        None => None,
    }
}

/// The decision of one tick: a function of that tick's snapshot and the
/// target alias alone.
pub open spec fn decision_of(snapshot: Snapshot, target: Seq<char>) -> Decision {
    Decision {
        invite: invite_answer(snapshot.players.view(), snapshot.invite, target),
        trade_accept: trade_accept(
            snapshot.players.view(),
            snapshot.trading,
            snapshot.trade,
            target,
        ),
    }
}

fn same_alias(alias: &String, target: &str) -> (r: bool)
    ensures
        r == (alias@ == target@),
{
    let target = target.to_owned();
    *alias == target
}

/// Answers a pending invite: accept it where the inviter's alias is the
/// target alias (compared case-sensitively), decline it otherwise.
pub fn answer_invite(players: &PlayerList, invite: Option<Uid>, target: &str) -> (r: InviteAnswer)
    ensures
        r == invite_answer(players.view(), invite, target@),
{
    match invite {
        None => InviteAnswer::NoInvite,
        Some(inviter) => {
            let alias = players.alias_of_uid(inviter);
            if same_alias(&alias, target) {
                InviteAnswer::Accept
            } else {
                InviteAnswer::Decline
            }
        },
    }
}

/// Decides on a pending trade: accept it at its current phase where its
/// first party's alias is the target alias, take no action otherwise.
pub fn answer_trade(
    players: &PlayerList,
    trading: bool,
    trade: &Option<PendingTrade>,
    target: &str,
) -> (r: Option<TradePhase>)
    ensures
        r == trade_accept(players.view(), trading, *trade, target@),
{
    if !trading {
        return None;
    }
    match trade {
        None => None,
        Some(t) => {
            if t.parties.len() == 0 {
                return None;
            }
            let alias = players.alias_of_uid(t.parties[0]);
            if same_alias(&alias, target) {
                Some(t.phase)
            } else {
                None
            }
        },
    }
}

/// Decides the invite and trade actions of one tick.
pub fn decide(snapshot: &Snapshot, target: &str) -> (r: Decision)
    ensures
        r == decision_of(*snapshot, target@),
{
    let invite = answer_invite(&snapshot.players, snapshot.invite, target);
    let trade_accept = answer_trade(&snapshot.players, snapshot.trading, &snapshot.trade, target);
    Decision { invite, trade_accept }
}

/// On every tick of a stretch in which the same trade stays pending at
/// the same phase, the trade is accepted at that phase where its first
/// party's alias is the target alias, and no trade action is taken on any
/// of those ticks where it is not.
pub proof fn law_trade_decided_every_tick(
    ticks: Seq<Snapshot>,
    trade: PendingTrade,
    target: Seq<char>,
)
    requires
        trade.parties@.len() > 0,
        forall|i: int|
            0 <= i < ticks.len() ==> (#[trigger] ticks[i]).trading && ticks[i].trade == Some(
                trade,
            ) && alias_in(ticks[i].players.view(), trade.parties@[0]) == alias_in(
                ticks[0].players.view(),
                trade.parties@[0],
            ),
    ensures
        alias_in(ticks[0].players.view(), trade.parties@[0]) == target ==> forall|i: int|
            0 <= i < ticks.len() ==> (#[trigger] decision_of(ticks[i], target)).trade_accept
                == Some(trade.phase),
        alias_in(ticks[0].players.view(), trade.parties@[0]) != target ==> forall|i: int|
            0 <= i < ticks.len() ==> (#[trigger] decision_of(ticks[i], target)).trade_accept
                == None::<TradePhase>,
{
}

/// Whether a private message from `sender` is answered with a trade
/// invite: it is where the sender's alias is the target alias.
pub fn should_offer_trade(players: &PlayerList, sender: Uid, target: &str) -> (r: bool)
    ensures
        r == (alias_in(players.view(), sender) == target@),
{
    let alias = players.alias_of_uid(sender);
    same_alias(&alias, target)
}

} // verus!
