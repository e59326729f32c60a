use vstd::prelude::*;
use crate::address::Address;
use crate::error::Error;
use crate::events::{CompleteEvent, OverloadEvent, SenseCompletedEvent, StartEvent};
use crate::hub::{continues_with, Escrow, GameHub};
use crate::leaderboard::{ascending, ranked, Leaderboard};
use crate::model::{ExitNotice, State};
use crate::payload::{bytes_content, payload_len};
use crate::records::{
    CalibrationSession, DataKey, LeaderboardEntry, SenseResult, CHARACTER_COUNT, SCORE_CAP,
    SENSE_COUNT, SESSION_TTL_LEDGERS,
};
use crate::senses::marking_adds_one_sense;
use crate::snapshot::Snapshot;
use crate::store::{lists_results, lists_sessions, Store, StoredResult};
use crate::validator::validate;

verus! {

/// The game: one session for each player, the senses recorded in it, and
/// the leaderboard of those who won.
///
/// Every operation supposes that whoever it names as acting has been
/// authorised to act; establishing that is the caller's part.
pub struct SaBirthContract {
    contract: Address,
    admin: Option<Address>,
    game_hub: Option<Address>,
    session_counter: u32,
    store: Store,
    leaderboard: Leaderboard,
}

impl View for SaBirthContract {
    type V = State;

    closed spec fn view(&self) -> State {
        State {
            contract: self.contract,
            admin: self.admin,
            game_hub: self.game_hub,
            session_counter: self.session_counter,
            sessions: self.store.sessions(),
            results: self.store.results(),
            leaderboard: self.leaderboard@,
        }
    }
}

impl SaBirthContract {
    /// The records are held in good order.
    pub closed spec fn consistent(&self) -> bool {
        self.store.wf()
    }

    /// The game is in good order: its records are, and what they say is
    /// well formed.
    pub open spec fn wf(&self) -> bool {
        self.consistent() && self@.wf()
    }

    /// A game at the given address, run by `admin` and settling through
    /// the hub at `game_hub`, in which nothing has happened yet.
    pub fn new(contract: Address, admin: Address, game_hub: Address) -> (game: SaBirthContract)
        ensures
            game.wf(),
            game@ == (State {
                contract,
                admin: Some(admin),
                game_hub: Some(game_hub),
                session_counter: 0,
                sessions: Map::empty(),
                results: Map::empty(),
                leaderboard: Seq::empty(),
            }),
    {
        SaBirthContract {
            contract,
            admin: Some(admin),
            game_hub: Some(game_hub),
            session_counter: 0,
            store: Store::new(),
            leaderboard: Leaderboard::new(),
        }
    }

    /// Starts a session for `player1` against the house `player2`.
    ///
    /// Refused with `InvalidInput` where the two are the same. A session
    /// that the player left open is given up first: the hub is asked to
    /// release it to the house, and whatever it answers the start goes on.
    /// Then the hub is asked to lock both stakes. Where no hub is known or
    /// the hub does not lock, the start fails with `HubCallFailed` and
    /// nothing is written. Otherwise the new session takes the place of
    /// whatever the player had, and its lifetime is refreshed.
    pub fn start_game<H: GameHub>(
        &mut self,
        escrow: &mut Escrow<H>,
        session_id: u32,
        player1: Address,
        player2: Address,
        player1_points: i128,
        player2_points: i128,
    ) -> (result: Result<(), Error>)
        requires
            old(self).wf(),
        ensures
            final(self).wf(),
            continues_with(
                old(escrow).exchanges(),
                final(escrow).exchanges(),
                old(self)@.start_requests(
                    session_id,
                    player1,
                    player2,
                    player1_points,
                    player2_points,
                ),
            ),
            result == old(self)@.start_result(
                player1,
                player2,
                final(escrow).exchanges().last().accepted,
            ),
            final(self)@ == old(self)@.start_state(
                session_id,
                player1,
                player2,
                player1_points,
                player2_points,
                final(escrow).exchanges().last().accepted,
            ),
    {
        if player1 == player2 {
            return Err(Error::InvalidInput);
        }
        // A session left open is given up to the house; its fate at the
        // hub does not hold up the new one.
        if let Some(existing) = self.store.get_session(player1) {
            if existing.session.active {
                if let Some(hub) = self.game_hub {
                    let _ = escrow.release(hub, existing.session.session_id, false);
                }
            }
        }
        let hub = match self.game_hub {
            Some(hub) => hub,
            None => {
                return Err(Error::HubCallFailed);
            },
        };
        let locked = escrow.lock(
            hub,
            self.contract,
            session_id,
            player1,
            player2,
            player1_points,
            player2_points,
        );
        if !locked {
            return Err(Error::HubCallFailed);
        }
        let session = CalibrationSession {
            player: player1,
            player2,
            character: 0,
            completed_senses: 0,
            total_score: 0,
            session_id,
            player1_points,
            player2_points,
            active: true,
        };
        self.store.put_session(session);
        self.store.extend_session_ttl(player1, SESSION_TTL_LEDGERS, SESSION_TTL_LEDGERS);
        Ok(())
    }

    /// Records the character that a player chose for their open session.
    ///
    /// Refused with `InvalidCharacter` for a character not on offer, with
    /// `GameNotFound` where the player has no session and `SessionNotActive`
    /// where it is closed. Otherwise the session names the character, its
    /// lifetime is refreshed, and the count of sessions under way goes up
    /// by one, stopping at the largest value it can hold. Returns the
    /// session's id and the announcement to make.
    pub fn set_character(&mut self, player: Address, character: u32) -> (result: Result<
        (u32, StartEvent),
        Error,
    >)
        requires
            old(self).wf(),
        ensures
            final(self).wf(),
            result == old(self)@.character_result(player, character),
            final(self)@ == old(self)@.character_state(player, character),
    {
        if character >= CHARACTER_COUNT {
            return Err(Error::InvalidCharacter);
        }
        let stored = match self.store.get_session(player) {
            Some(stored) => stored,
            None => {
                return Err(Error::GameNotFound);
            },
        };
        if !stored.session.active {
            return Err(Error::SessionNotActive);
        }
        let mut session = stored.session;
        session.character = character;
        self.store.put_session(session);
        self.store.extend_session_ttl(player, SESSION_TTL_LEDGERS, SESSION_TTL_LEDGERS);
        self.session_counter = self.session_counter.saturating_add(1);
        Ok((session.session_id, StartEvent { character, session_id: session.session_id }))
    }

    /// Records one sense of a player's open session, given the length of
    /// the proof that came with it.
    ///
    /// The checks, the first failing one deciding: the sense is one of the
    /// six (`InvalidSense`); the player has a session (`GameNotFound`) and
    /// it is open (`SessionNotActive`); the sense is not yet recorded in it
    /// (`AlreadyGuessed`); the submission is valid for the session's
    /// character (`VerificationFailed`). A refused submission changes
    /// nothing. An accepted one keeps the result, marks the sense, adds the
    /// score to the total without wrapping, refreshes the lifetime of both
    /// records, and returns the announcement to make.
    pub fn record_sense(
        &mut self,
        player: Address,
        sense_id: u32,
        maze_id: u32,
        points: u64,
        time_ms: u64,
        score: u64,
        proof_len: u32,
    ) -> (result: Result<SenseCompletedEvent, Error>)
        requires
            old(self).wf(),
        ensures
            final(self).wf(),
            result == old(self)@.submit_result(
                player,
                sense_id,
                maze_id,
                points,
                time_ms,
                score,
                proof_len as nat,
            ),
            final(self)@ == old(self)@.submit_state(
                player,
                sense_id,
                maze_id,
                points,
                time_ms,
                score,
                proof_len as nat,
            ),
    {
        if sense_id >= SENSE_COUNT {
            return Err(Error::InvalidSense);
        }
        let stored = match self.store.get_session(player) {
            Some(stored) => stored,
            None => {
                return Err(Error::GameNotFound);
            },
        };
        if !stored.session.active {
            return Err(Error::SessionNotActive);
        }
        let mut session = stored.session;
        if session.is_completed(sense_id) {
            return Err(Error::AlreadyGuessed);
        }
        let verdict = validate(
            session.character,
            sense_id,
            maze_id,
            points,
            time_ms,
            score,
            proof_len,
        );
        if let Some(refusal) = verdict.refusal() {
            return Err(refusal);
        }
        let result = SenseResult { sense_id, points, time_ms, score };
        self.store.put_result(player, result);
        self.store.extend_result_ttl(player, sense_id, SESSION_TTL_LEDGERS, SESSION_TTL_LEDGERS);

        proof {
            marking_adds_one_sense(session.completed_senses, sense_id);
        }
        session.mark_completed(sense_id);
        session.total_score = session.total_score.saturating_add(score);
        self.store.put_session(session);
        self.store.extend_session_ttl(player, SESSION_TTL_LEDGERS, SESSION_TTL_LEDGERS);
        Ok(SenseCompletedEvent { sense_id, score, points, time_ms })
    }

    /// Records one sense of a player's open session.
    ///
    /// Does what [`SaBirthContract::record_sense`] does, with the length of
    /// `proof_hex` for the length of the proof. The proof itself is neither
    /// kept nor announced.
    pub fn submit_sense_completion(
        &mut self,
        player: Address,
        sense_id: u32,
        maze_id: u32,
        points: u64,
        time_ms: u64,
        score: u64,
        proof_hex: &soroban_sdk::Bytes,
    ) -> (result: Result<SenseCompletedEvent, Error>)
        requires
            old(self).wf(),
        ensures
            final(self).wf(),
            result == old(self)@.submit_result(
                player,
                sense_id,
                maze_id,
                points,
                time_ms,
                score,
                bytes_content(*proof_hex).len(),
            ),
            final(self)@ == old(self)@.submit_state(
                player,
                sense_id,
                maze_id,
                points,
                time_ms,
                score,
                bytes_content(*proof_hex).len(),
            ),
    {
        let proof_len = payload_len(proof_hex);
        self.record_sense(player, sense_id, maze_id, points, time_ms, score, proof_len)
    }

    /// Leaves a player's open session and settles it with the hub.
    ///
    /// Refused with `GameNotFound` where the player has no session and with
    /// `SessionNotActive` where it is closed already; then nothing changes
    /// and the hub is not asked. Otherwise the session is closed, whatever
    /// follows. The player wins with all six senses recorded and a total
    /// within the cap; the hub is asked to release the stakes accordingly.
    /// Where no hub is known or the hub does not release, the exit fails
    /// with `HubCallFailed`, the session staying closed. Where it does, a
    /// winning session is entered in the leaderboard with `timestamp`.
    /// Returns whether the player won, the total score, and the
    /// announcement to make.
    pub fn attempt_exit<H: GameHub>(
        &mut self,
        escrow: &mut Escrow<H>,
        player: Address,
        timestamp: u64,
    ) -> (result: Result<(bool, u64, ExitNotice), Error>)
        requires
            old(self).wf(),
        ensures
            final(self).wf(),
            continues_with(
                old(escrow).exchanges(),
                final(escrow).exchanges(),
                old(self)@.exit_requests(player),
            ),
            result == old(self)@.exit_result(player, final(escrow).exchanges().last().accepted),
            final(self)@ == old(self)@.exit_state(
                player,
                final(escrow).exchanges().last().accepted,
                timestamp,
            ),
    {
        let stored = match self.store.get_session(player) {
            Some(stored) => stored,
            None => {
                return Err(Error::GameNotFound);
            },
        };
        if !stored.session.active {
            return Err(Error::SessionNotActive);
        }
        // Closed before anything is decided, so that it is closed once.
        let mut session = stored.session;
        session.active = false;
        self.store.put_session(session);

        let hub = match self.game_hub {
            Some(hub) => hub,
            None => {
                return Err(Error::HubCallFailed);
            },
        };
        if !session.all_completed() {
            if !escrow.release(hub, session.session_id, false) {
                return Err(Error::HubCallFailed);
            }
            return Ok((false, session.total_score, ExitNotice::Silent));
        }
        if session.total_score > SCORE_CAP {
            if !escrow.release(hub, session.session_id, false) {
                return Err(Error::HubCallFailed);
            }
            return Ok(
                (
                    false,
                    session.total_score,
                    ExitNotice::Overload(
                        OverloadEvent {
                            character: session.character,
                            total_score: session.total_score,
                        },
                    ),
                ),
            );
        }
        if !escrow.release(hub, session.session_id, true) {
            return Err(Error::HubCallFailed);
        }
        self.leaderboard.record(
            LeaderboardEntry {
                player,
                character: session.character,
                total_score: session.total_score,
                timestamp,
            },
        );
        Ok(
            (
                true,
                session.total_score,
                ExitNotice::Complete(
                    CompleteEvent {
                        character: session.character,
                        total_score: session.total_score,
                    },
                ),
            ),
        )
    }

    /// Looks a session up by the id under which the hub knows it. Sessions
    /// are kept by player only, so this finds none.
    pub fn get_game(&self, session_id: u32) -> (found: Option<CalibrationSession>)
        ensures
            found is None,
    {
        None
    }

    /// The session of a player, open or closed, if there ever was one.
    pub fn get_session(&self, player: Address) -> (found: Option<CalibrationSession>)
        requires
            self.wf(),
        ensures
            found == self@.session_of(player),
    {
        match self.store.get_session(player) {
            Some(stored) => Some(stored.session),
            None => None,
        }
    }

    /// What a player's sense came to, if it was recorded. A sense id beyond
    /// the six finds nothing.
    pub fn get_sense_result(&self, player: Address, sense_id: u32) -> (found: Option<SenseResult>)
        requires
            self.wf(),
        ensures
            found == self@.result_of(player, sense_id),
    {
        if sense_id >= SENSE_COUNT {
            return None;
        }
        match self.store.get_result(player, sense_id) {
            Some(stored) => Some(stored.result),
            None => None,
        }
    }

    /// The winning attempts in ascending order of total score, the best
    /// first; attempts of equal score in the order in which they were won.
    pub fn get_leaderboard(&self) -> (entries: Vec<LeaderboardEntry>)
        ensures
            entries@ == ranked(self@.leaderboard),
            ascending(entries@),
            entries@.to_multiset() == self@.leaderboard.to_multiset(),
    {
        self.leaderboard.read()
    }

    /// Who runs the game. Only to be asked of a game that was set up with an
    /// administrator.
    pub fn get_admin(&self) -> (admin: Address)
        requires
            self@.admin is Some,
        ensures
            Some(admin) == self@.admin,
    {
        self.admin.unwrap()
    }

    /// Hands the game to a new administrator. Only the administrator in
    /// office may do so, so there has to be one.
    pub fn set_admin(&mut self, new_admin: Address)
        requires
            old(self).wf(),
            old(self)@.admin is Some,
        ensures
            final(self).wf(),
            final(self)@ == (State { admin: Some(new_admin), ..old(self)@ }),
    {
        self.admin = Some(new_admin);
    }

    /// Where the hub is. Only to be asked of a game that was set up with a hub.
    pub fn get_hub(&self) -> (hub: Address)
        requires
            self@.game_hub is Some,
        ensures
            Some(hub) == self@.game_hub,
    {
        self.game_hub.unwrap()
    }

    /// Points the game at another hub. Only the administrator may do so, so
    /// there has to be one.
    pub fn set_hub(&mut self, new_hub: Address)
        requires
            old(self).wf(),
            old(self)@.admin is Some,
        ensures
            final(self).wf(),
            final(self)@ == (State { game_hub: Some(new_hub), ..old(self)@ }),
    {
        self.game_hub = Some(new_hub);
    }

    /// The lifetime last granted to the record kept under a key. Only
    /// sessions and sense results have one; under any other key, and where
    /// no record is kept, there is none.
    pub fn lifetime(&self, key: DataKey) -> (ttl: Option<u32>)
        requires
            self.wf(),
        ensures
            ttl == self@.lifetime_of(key),
    {
        match key {
            DataKey::Session(player) => match self.store.get_session(player) {
                Some(stored) => Some(stored.ttl),
                None => None,
            },
            DataKey::SenseResult(player, sense_id) => match self.store.get_result(
                player,
                sense_id,
            ) {
                Some(stored) => Some(stored.ttl),
                None => None,
            },
            _ => None,
        }
    }

    /// Everything the game keeps, as plain lists.
    pub fn snapshot(&self) -> (snapshot: Snapshot)
        requires
            self.wf(),
        ensures
            snapshot.describes(self@),
            snapshot.sound(),
    {
        let snapshot = Snapshot {
            contract: self.contract,
            admin: self.admin,
            game_hub: self.game_hub,
            session_counter: self.session_counter,
            sessions: self.store.session_list(),
            results: self.store.result_list(),
            leaderboard: self.leaderboard.recorded(),
        };
        proof {
            let state = self@;
            assert forall|i: int| 0 <= i < snapshot.sessions@.len() implies (
            #[trigger] snapshot.sessions@[i]).session.valid() by {
                let row = snapshot.sessions@[i];
                assert(state.sessions.contains_key(row.session.player));
            }
            assert forall|i: int| 0 <= i < snapshot.results@.len() implies (
            #[trigger] snapshot.results@[i]).result.valid() by {
                let row = snapshot.results@[i];
                assert(state.results.contains_key(row.key()));
            }
        }
        snapshot
    }

    /// Takes a game up again from what a snapshot holds. Succeeds exactly
    /// when the snapshot is sound; the game then is in good order and is
    /// the one that the snapshot describes.
    pub fn restore(snapshot: &Snapshot) -> (restored: Option<SaBirthContract>)
        ensures
            match restored {
                Some(game) => snapshot.sound() && game.wf() && snapshot.describes(game@),
                None => !snapshot.sound(),
            },
    {
        let mut store = Store::new();
        let mut i: usize = 0;
        while i < snapshot.sessions.len()
            invariant
                i <= snapshot.sessions.len(),
                store.wf(),
                store.results() == Map::<(Address, u32), StoredResult>::empty(),
                lists_sessions(snapshot.sessions@.take(i as int), store.sessions()),
                forall|k: int| 0 <= k < i ==> (#[trigger] snapshot.sessions@[k]).session.valid(),
            decreases snapshot.sessions.len() - i,
        {
            let row = snapshot.sessions[i];
            let ghost seen = snapshot.sessions@.take(i as int);
            let ghost kept = store.sessions();
            if !row.session.is_valid() {
                return None;
            }
            if store.get_session(row.session.player).is_some() {
                proof {
                    let k = choose|k: int|
                        0 <= k < seen.len() && (#[trigger] seen[k]).session.player
                            == row.session.player;
                    assert(snapshot.sessions@[k] == seen[k]);
                    assert(snapshot.sessions@[k].session.player
                        == snapshot.sessions@[i as int].session.player);
                }
                return None;
            }
            store.keep_session(row);
            proof {
                let next = snapshot.sessions@.take(i + 1);
                assert forall|k: int| 0 <= k < next.len() implies store.sessions().contains_key(
                    (#[trigger] next[k]).session.player,
                ) && store.sessions()[next[k].session.player] == next[k] by {
                    if k < i {
                        assert(next[k] == seen[k]);
                        assert(kept.contains_key(seen[k].session.player));
                    }
                }
                assert forall|player: Address| #[trigger]
                    store.sessions().contains_key(player) implies exists|k: int|
                    0 <= k < next.len() && (#[trigger] next[k]).session.player == player by {
                    if player == row.session.player {
                        assert(next[i as int].session.player == player);
                    } else {
                        let k = choose|k: int|
                            0 <= k < seen.len() && (#[trigger] seen[k]).session.player == player;
                        assert(next[k] == seen[k]);
                    }
                }
                assert forall|a: int, b: int| 0 <= a < b < next.len() implies (
                #[trigger] next[a]).session.player != (#[trigger] next[b]).session.player by {
                    assert(next[a] == seen[a]);
                    if b < i {
                        assert(next[b] == seen[b]);
                    } else {
                        assert(kept.contains_key(seen[a].session.player));
                    }
                }
            }
            i += 1;
        }
        assert(snapshot.sessions@.take(i as int) =~= snapshot.sessions@);

        let mut j: usize = 0;
        while j < snapshot.results.len()
            invariant
                j <= snapshot.results.len(),
                store.wf(),
                lists_sessions(snapshot.sessions@, store.sessions()),
                lists_results(snapshot.results@.take(j as int), store.results()),
                forall|k: int| 0 <= k < j ==> (#[trigger] snapshot.results@[k]).result.valid(),
            decreases snapshot.results.len() - j,
        {
            let row = snapshot.results[j];
            let ghost seen = snapshot.results@.take(j as int);
            let ghost kept = store.results();
            if !row.result.is_valid() {
                return None;
            }
            if store.get_result(row.player, row.result.sense_id).is_some() {
                proof {
                    let k = choose|k: int|
                        0 <= k < seen.len() && (#[trigger] seen[k]).key() == row.key();
                    assert(snapshot.results@[k] == seen[k]);
                    assert(snapshot.results@[k].key() == snapshot.results@[j as int].key());
                }
                return None;
            }
            store.keep_result(row);
            proof {
                let next = snapshot.results@.take(j + 1);
                assert forall|k: int| 0 <= k < next.len() implies store.results().contains_key(
                    (#[trigger] next[k]).key(),
                ) && store.results()[next[k].key()] == next[k] by {
                    if k < j {
                        assert(next[k] == seen[k]);
                        assert(kept.contains_key(seen[k].key()));
                    }
                }
                assert forall|key: (Address, u32)| #[trigger]
                    store.results().contains_key(key) implies exists|k: int|
                    0 <= k < next.len() && (#[trigger] next[k]).key() == key by {
                    if key == row.key() {
                        assert(next[j as int].key() == key);
                    } else {
                        let k = choose|k: int|
                            0 <= k < seen.len() && (#[trigger] seen[k]).key() == key;
                        assert(next[k] == seen[k]);
                    }
                }
                assert forall|a: int, b: int| 0 <= a < b < next.len() implies (
                #[trigger] next[a]).key() != (#[trigger] next[b]).key() by {
                    assert(next[a] == seen[a]);
                    if b < j {
                        assert(next[b] == seen[b]);
                    } else {
                        assert(kept.contains_key(seen[a].key()));
                    }
                }
            }
            j += 1;
        }
        assert(snapshot.results@.take(j as int) =~= snapshot.results@);

        let mut leaderboard = Leaderboard::new();
        let mut n: usize = 0;
        while n < snapshot.leaderboard.len()
            invariant
                n <= snapshot.leaderboard.len(),
                leaderboard@ == snapshot.leaderboard@.take(n as int),
                forall|k: int| 0 <= k < n ==> (#[trigger] snapshot.leaderboard@[k]).qualifies(),
            decreases snapshot.leaderboard.len() - n,
        {
            let entry = snapshot.leaderboard[n];
            if !entry.is_qualified() {
                return None;
            }
            leaderboard.record(entry);
            assert(snapshot.leaderboard@.take(n as int).push(entry) =~= snapshot.leaderboard@.take(
                n + 1,
            ));
            n += 1;
        }
        assert(snapshot.leaderboard@.take(n as int) =~= snapshot.leaderboard@);

        let game = SaBirthContract {
            contract: snapshot.contract,
            admin: snapshot.admin,
            game_hub: snapshot.game_hub,
            session_counter: snapshot.session_counter,
            store,
            leaderboard,
        };
        proof {
            let state = game@;
            assert forall|player: Address| #[trigger]
                state.sessions.contains_key(player) implies state.sessions[player].session.player
                == player && state.sessions[player].session.valid() by {
                let k = choose|k: int|
                    0 <= k < snapshot.sessions@.len() && (
                    #[trigger] snapshot.sessions@[k]).session.player == player;
                assert(state.sessions[snapshot.sessions@[k].session.player]
                    == snapshot.sessions@[k]);
            }
            assert forall|key: (Address, u32)| #[trigger]
                state.results.contains_key(key) implies state.results[key].key() == key
                && state.results[key].result.valid() by {
                let k = choose|k: int|
                    0 <= k < snapshot.results@.len() && (#[trigger] snapshot.results@[k]).key()
                        == key;
                assert(state.results[snapshot.results@[k].key()] == snapshot.results@[k]);
            }
        }
        Some(game)
    }
}

} // verus!
