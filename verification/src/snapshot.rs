use vstd::prelude::*;
use crate::address::Address;
use crate::model::State;
use crate::records::LeaderboardEntry;
use crate::store::{lists_results, lists_sessions, StoredResult, StoredSession};

verus! {

/// Everything a game keeps, laid out as plain lists, so that it can be put
/// away and taken up again.
#[derive(Clone, Debug, PartialEq, Eq)]
pub struct Snapshot {
    pub contract: Address,
    pub admin: Option<Address>,
    pub game_hub: Option<Address>,
    pub session_counter: u32,
    /// One row for each player who has a session.
    pub sessions: Vec<StoredSession>,
    /// One row for each player and sense that has a result.
    pub results: Vec<StoredResult>,
    /// The winning attempts, in the order in which they were won.
    pub leaderboard: Vec<LeaderboardEntry>,
}

impl Snapshot {
    /// The lists say what the state says, no more and no less.
    pub open spec fn describes(&self, state: State) -> bool {
        &&& self.contract == state.contract
        &&& self.admin == state.admin
        &&& self.game_hub == state.game_hub
        &&& self.session_counter == state.session_counter
        &&& lists_sessions(self.sessions@, state.sessions)
        &&& lists_results(self.results@, state.results)
        &&& self.leaderboard@ == state.leaderboard
    }

    /// The lists can be the content of a game in good order: no player has
    /// two sessions and no sense of a player two results, every record is
    /// valid, and every entry of the leaderboard qualifies.
    pub open spec fn sound(&self) -> bool {
        &&& forall|i: int|
            0 <= i < self.sessions@.len() ==> (#[trigger] self.sessions@[i]).session.valid()
        &&& forall|i: int, j: int|
            0 <= i < j < self.sessions@.len() ==> (#[trigger] self.sessions@[i]).session.player != (
            #[trigger] self.sessions@[j]).session.player
        &&& forall|i: int|
            0 <= i < self.results@.len() ==> (#[trigger] self.results@[i]).result.valid()
        &&& forall|i: int, j: int|
            0 <= i < j < self.results@.len() ==> (#[trigger] self.results@[i]).key() != (
            #[trigger] self.results@[j]).key()
        &&& forall|i: int|
            0 <= i < self.leaderboard@.len() ==> (#[trigger] self.leaderboard@[i]).qualifies()
    }
}

/// A snapshot describes one state only.
pub proof fn snapshot_pins_the_state(snapshot: &Snapshot, a: State, b: State)
    requires
        snapshot.describes(a),
        snapshot.describes(b),
    ensures
        a == b,
{
    let sessions = snapshot.sessions@;
    assert forall|player: Address| a.sessions.contains_key(player) implies b.sessions.contains_key(
        player,
    ) && a.sessions[player] == b.sessions[player] by {
        let i = choose|i: int|
            0 <= i < sessions.len() && (#[trigger] sessions[i]).session.player == player;
        assert(b.sessions[sessions[i].session.player] == sessions[i]);
    }
    assert forall|player: Address| b.sessions.contains_key(player) implies a.sessions.contains_key(
        player,
    ) by {
        let i = choose|i: int|
            0 <= i < sessions.len() && (#[trigger] sessions[i]).session.player == player;
        assert(a.sessions[sessions[i].session.player] == sessions[i]);
    }
    assert(a.sessions =~= b.sessions);
    let results = snapshot.results@;
    assert forall|key: (Address, u32)| a.results.contains_key(key) implies b.results.contains_key(
        key,
    ) && a.results[key] == b.results[key] by {
        let i = choose|i: int| 0 <= i < results.len() && (#[trigger] results[i]).key() == key;
        assert(b.results[results[i].key()] == results[i]);
    }
    assert forall|key: (Address, u32)| b.results.contains_key(key) implies a.results.contains_key(
        key,
    ) by {
        let i = choose|i: int| 0 <= i < results.len() && (#[trigger] results[i]).key() == key;
        assert(a.results[results[i].key()] == results[i]);
    }
    assert(a.results =~= b.results);
}

} // verus!
