//! Who is who in the world: the players' aliases by identity.
use std::collections::HashMap;
use vstd::prelude::*;

verus! {

broadcast use vstd::std_specs::hash::group_hash_axioms;

/// The identity of a participant in the world.
pub type Uid = u64;

/// The alias shown for an identity that the player list does not know.
pub open spec fn unknown_alias() -> Seq<char> {
    seq!['U', 'n', 'k', 'n', 'o', 'w', 'n']
}

/// The alias of `uid` in a player list, or the fallback alias.
pub open spec fn alias_in(players: Map<Uid, String>, uid: Uid) -> Seq<char> {
    if players.contains_key(uid) {
        players[uid]@
    } else {
        unknown_alias()
    }
}

/// Resolves an identity to the alias it is displayed under.
pub trait AliasOfUid {
    spec fn alias_view(&self, uid: Uid) -> Seq<char>;

    fn alias_of_uid(&self, uid: Uid) -> (r: String)
        ensures
            r@ == self.alias_view(uid),
    ;
}

/// The players of the world that the session knows, by identity.
pub struct PlayerList {
    pub aliases: HashMap<Uid, String>,
}

impl PlayerList {
    pub open spec fn view(&self) -> Map<Uid, String> {
        self.aliases@
    }

    pub fn new() -> (r: PlayerList)
        ensures
            r.view() == Map::<Uid, String>::empty(),
    {
        PlayerList { aliases: HashMap::new() }
    }

    /// Records the alias of a player, replacing any earlier one.
    pub fn insert(&mut self, uid: Uid, alias: String)
        ensures
            final(self).view() == old(self).view().insert(uid, alias),
    {
        self.aliases.insert(uid, alias);
    }
}

impl AliasOfUid for PlayerList {
    open spec fn alias_view(&self, uid: Uid) -> Seq<char> {
        alias_in(self.view(), uid)
    }

    fn alias_of_uid(&self, uid: Uid) -> (r: String) {
        match self.aliases.get(&uid) {
            Some(alias) => alias.clone(),
            None => {
                let r = "Unknown".to_owned();
                proof {
                    reveal_strlit("Unknown");
                }
                r
            },
        }
    }
}

} // verus!
