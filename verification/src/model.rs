use vstd::prelude::*;
use crate::address::Address;
use crate::error::Error;
use crate::events::{CompleteEvent, OverloadEvent, SenseCompletedEvent, StartEvent};
use crate::hub::HubRequest;
use crate::records::{
    has_sense, sense_bit, CalibrationSession, DataKey, LeaderboardEntry, SenseResult, ALL_SENSES,
    CHARACTER_COUNT, SCORE_CAP, SENSE_COUNT, SESSION_TTL_LEDGERS,
};
use crate::store::{extended, StoredResult, StoredSession};
use crate::validator::verdict_of;

verus! {

/// What leaving a session is announced with, if with anything.
#[derive(Clone, Copy, Debug, PartialEq, Eq, Structural)]
pub enum ExitNotice {
    /// Senses were missing: nothing is announced.
    Silent,
    Complete(CompleteEvent),
    Overload(OverloadEvent),
}

/// Everything the game keeps, as mathematics: who runs it, where the hub
/// is, how many sessions got under way, each player's session, each
/// recorded sense, and the winning attempts in the order they were won.
pub struct State {
    pub contract: Address,
    pub admin: Option<Address>,
    pub game_hub: Option<Address>,
    pub session_counter: u32,
    pub sessions: Map<Address, StoredSession>,
    pub results: Map<(Address, u32), StoredResult>,
    pub leaderboard: Seq<LeaderboardEntry>,
}

/// The session that `start` writes: no character chosen beyond the first,
/// no sense recorded, no score, open.
pub open spec fn fresh_session(
    session_id: u32,
    player1: Address,
    player2: Address,
    player1_points: i128,
    player2_points: i128,
) -> CalibrationSession {
    CalibrationSession {
        player: player1,
        player2,
        character: 0,
        completed_senses: 0,
        total_score: 0,
        session_id,
        player1_points,
        player2_points,
        active: true,
    }
}

/// A score with one more sense added, held at the largest value instead of
/// wrapping.
pub open spec fn score_sum(total: u64, score: u64) -> u64 {
    if total + score > u64::MAX {
        u64::MAX
    } else {
        (total + score) as u64
    }
}

/// A count with one more, held at the largest value instead of wrapping.
pub open spec fn count_up(counter: u32) -> u32 {
    if counter == u32::MAX {
        u32::MAX
    } else {
        (counter + 1) as u32
    }
}

/// A session wins on leaving when all six senses are recorded and the total
/// score is within the cap.
pub open spec fn wins(session: CalibrationSession) -> bool {
    session.completed_senses == ALL_SENSES && session.total_score <= SCORE_CAP
}

/// What is announced when a session is left and the hub has settled it.
pub open spec fn exit_notice(session: CalibrationSession) -> ExitNotice {
    if session.completed_senses != ALL_SENSES {
        ExitNotice::Silent
    } else if session.total_score > SCORE_CAP {
        ExitNotice::Overload(
            OverloadEvent { character: session.character, total_score: session.total_score },
        )
    } else {
        ExitNotice::Complete(
            CompleteEvent { character: session.character, total_score: session.total_score },
        )
    }
}

impl State {
    /// Every record is kept under its own key and is valid, and every
    /// leaderboard entry qualifies.
    pub open spec fn wf(self) -> bool {
        &&& forall|player: Address| #[trigger]
            self.sessions.contains_key(player) ==> self.sessions[player].session.player == player
                && self.sessions[player].session.valid()
        &&& forall|key: (Address, u32)| #[trigger]
            self.results.contains_key(key) ==> self.results[key].key() == key
                && self.results[key].result.valid()
        &&& forall|i: int|
            0 <= i < self.leaderboard.len() ==> (#[trigger] self.leaderboard[i]).qualifies()
    }

    /// The session of a player, if there is one.
    pub open spec fn session_of(self, player: Address) -> Option<CalibrationSession> {
        if self.sessions.contains_key(player) {
            Some(self.sessions[player].session)
        } else {
            None
        }
    }

    /// What a player's sense came to, if it was recorded. Nothing is kept
    /// under a sense id beyond the six.
    pub open spec fn result_of(self, player: Address, sense_id: u32) -> Option<SenseResult> {
        if sense_id < SENSE_COUNT && self.results.contains_key((player, sense_id)) {
            Some(self.results[(player, sense_id)].result)
        } else {
            None
        }
    }

    /// The lifetime last granted to the record kept under a key.
    pub open spec fn lifetime_of(self, key: DataKey) -> Option<u32> {
        match key {
            DataKey::Session(player) => if self.sessions.contains_key(player) {
                Some(self.sessions[player].ttl)
            } else {
                None
            },
            DataKey::SenseResult(player, sense_id) => if self.results.contains_key(
                (player, sense_id),
            ) {
                Some(self.results[(player, sense_id)].ttl)
            } else {
                None
            },
            _ => None,
        }
    }

    /// Whether a player has a session that is still open.
    pub open spec fn is_active(self, player: Address) -> bool {
        self.sessions.contains_key(player) && self.sessions[player].session.active
    }

    /// The state with a session written under its player. The record keeps
    /// the lifetime it had; a new one has none yet.
    pub open spec fn put_session(self, session: CalibrationSession) -> State {
        State {
            sessions: self.sessions.insert(
                session.player,
                StoredSession {
                    session,
                    ttl: if self.sessions.contains_key(session.player) {
                        self.sessions[session.player].ttl
                    } else {
                        0
                    },
                },
            ),
            ..self
        }
    }

    /// The state with the lifetime of a player's session refreshed.
    pub open spec fn refresh_session(self, player: Address) -> State {
        if self.sessions.contains_key(player) {
            State {
                sessions: self.sessions.insert(
                    player,
                    StoredSession {
                        ttl: extended(
                            self.sessions[player].ttl,
                            SESSION_TTL_LEDGERS,
                            SESSION_TTL_LEDGERS,
                        ),
                        ..self.sessions[player]
                    },
                ),
                ..self
            }
        } else {
            self
        }
    }

    /// The state with a sense result written under its player and sense.
    pub open spec fn put_result(self, player: Address, result: SenseResult) -> State {
        State {
            results: self.results.insert(
                (player, result.sense_id),
                StoredResult {
                    player,
                    result,
                    ttl: if self.results.contains_key((player, result.sense_id)) {
                        self.results[(player, result.sense_id)].ttl
                    } else {
                        0
                    },
                },
            ),
            ..self
        }
    }

    /// The state with the lifetime of a player's result for a sense refreshed.
    pub open spec fn refresh_result(self, player: Address, sense_id: u32) -> State {
        if self.results.contains_key((player, sense_id)) {
            State {
                results: self.results.insert(
                    (player, sense_id),
                    StoredResult {
                        ttl: extended(
                            self.results[(player, sense_id)].ttl,
                            SESSION_TTL_LEDGERS,
                            SESSION_TTL_LEDGERS,
                        ),
                        ..self.results[(player, sense_id)]
                    },
                ),
                ..self
            }
        } else {
            self
        }
    }

    /// Why an operation on a player's open session is refused, if it is:
    /// there is no session, or it has been closed.
    pub open spec fn session_refusal(self, player: Address) -> Option<Error> {
        if !self.sessions.contains_key(player) {
            Some(Error::GameNotFound)
        } else if !self.sessions[player].session.active {
            Some(Error::SessionNotActive)
        } else {
            None
        }
    }

    // ---- start ----
    /// Why a start is refused before the hub is asked to lock anything: the
    /// player faces themselves, or no hub is known.
    pub open spec fn start_refusal(self, player1: Address, player2: Address) -> Option<Error> {
        if player1 == player2 {
            Some(Error::InvalidInput)
        } else if self.game_hub is None {
            Some(Error::HubCallFailed)
        } else {
            None
        }
    }

    /// What a start asks of the hub, in order: to release the stakes of a
    /// session that the player left open, in favour of the house; then to
    /// lock the stakes of the new one. A refused start asks nothing.
    pub open spec fn start_requests(
        self,
        session_id: u32,
        player1: Address,
        player2: Address,
        player1_points: i128,
        player2_points: i128,
    ) -> Seq<HubRequest> {
        if self.start_refusal(player1, player2) is Some {
            Seq::empty()
        } else {
            let hub = self.game_hub->Some_0;
            let lock = HubRequest::StartGame {
                hub,
                game_id: self.contract,
                session_id,
                player1,
                player2,
                player1_points,
                player2_points,
            };
            if self.is_active(player1) {
                seq![
                    HubRequest::EndGame {
                        hub,
                        session_id: self.sessions[player1].session.session_id,
                        player1_won: false,
                    },
                    lock,
                ]
            } else {
                seq![lock]
            }
        }
    }

    /// How a start ends, given what the hub made of the request to lock.
    pub open spec fn start_result(
        self,
        player1: Address,
        player2: Address,
        locked: bool,
    ) -> Result<(), Error> {
        match self.start_refusal(player1, player2) {
            Some(refusal) => Err(refusal),
            None => if locked {
                Ok(())
            } else {
                Err(Error::HubCallFailed)
            },
        }
    }

    /// The state after a start: with the new session in place of whatever
    /// the player had, its lifetime refreshed, where the start succeeds;
    /// unchanged where it does not.
    pub open spec fn start_state(
        self,
        session_id: u32,
        player1: Address,
        player2: Address,
        player1_points: i128,
        player2_points: i128,
        locked: bool,
    ) -> State {
        if self.start_result(player1, player2, locked) is Ok {
            self.put_session(
                fresh_session(session_id, player1, player2, player1_points, player2_points),
            ).refresh_session(player1)
        } else {
            self
        }
    }

    // ---- set-character ----
    /// Why a choice of character is refused, if it is.
    pub open spec fn character_refusal(self, player: Address, character: u32) -> Option<Error> {
        if character >= CHARACTER_COUNT {
            Some(Error::InvalidCharacter)
        } else {
            self.session_refusal(player)
        }
    }

    /// What a choice of character returns: the session's id and the
    /// announcement that it is under way.
    pub open spec fn character_result(self, player: Address, character: u32) -> Result<
        (u32, StartEvent),
        Error,
    > {
        match self.character_refusal(player, character) {
            Some(refusal) => Err(refusal),
            None => {
                let session_id = self.sessions[player].session.session_id;
                Ok((session_id, StartEvent { character, session_id }))
            },
        }
    }

    /// The state after a choice of character: the session names it, its
    /// lifetime is refreshed, and one more session is counted as under way.
    pub open spec fn character_state(self, player: Address, character: u32) -> State {
        if self.character_refusal(player, character) is Some {
            self
        } else {
            let chosen = CalibrationSession { character, ..self.sessions[player].session };
            State {
                session_counter: count_up(self.session_counter),
                ..self.put_session(chosen).refresh_session(player)
            }
        }
    }

    // ---- submit-sense ----
    /// Why a submission is refused, if it is; the first failing check decides.
    pub open spec fn submit_refusal(
        self,
        player: Address,
        sense_id: u32,
        maze_id: u32,
        points: u64,
        time_ms: u64,
        score: u64,
        proof_len: nat,
    ) -> Option<Error> {
        if sense_id >= SENSE_COUNT {
            Some(Error::InvalidSense)
        } else if self.session_refusal(player) is Some {
            self.session_refusal(player)
        } else if has_sense(self.sessions[player].session.completed_senses, sense_id) {
            Some(Error::AlreadyGuessed)
        } else {
            verdict_of(
                self.sessions[player].session.character,
                sense_id,
                maze_id,
                points,
                time_ms,
                score,
                proof_len,
            ).spec_refusal()
        }
    }

    /// What a submission returns: the announcement of the recorded sense.
    pub open spec fn submit_result(
        self,
        player: Address,
        sense_id: u32,
        maze_id: u32,
        points: u64,
        time_ms: u64,
        score: u64,
        proof_len: nat,
    ) -> Result<SenseCompletedEvent, Error> {
        match self.submit_refusal(player, sense_id, maze_id, points, time_ms, score, proof_len) {
            Some(refusal) => Err(refusal),
            None => Ok(SenseCompletedEvent { sense_id, score, points, time_ms }),
        }
    }

    /// The state after a submission: where it is accepted, the result is
    /// kept, the sense is marked in the session and its score added, and
    /// both records have their lifetime refreshed.
    pub open spec fn submit_state(
        self,
        player: Address,
        sense_id: u32,
        maze_id: u32,
        points: u64,
        time_ms: u64,
        score: u64,
        proof_len: nat,
    ) -> State {
        if self.submit_refusal(player, sense_id, maze_id, points, time_ms, score, proof_len)
            is Some {
            self
        } else {
            let before = self.sessions[player].session;
            let after = CalibrationSession {
                completed_senses: before.completed_senses | sense_bit(sense_id),
                total_score: score_sum(before.total_score, score),
                ..before
            };
            self.put_result(player, SenseResult { sense_id, points, time_ms, score })
                .refresh_result(player, sense_id).put_session(after).refresh_session(player)
        }
    }

    // ---- attempt-exit ----
    /// The state with a player's session closed and nothing else touched.
    pub open spec fn closed(self, player: Address) -> State {
        self.put_session(CalibrationSession { active: false, ..self.sessions[player].session })
    }

    /// What an exit asks of the hub: to release the stakes, to the player
    /// if the session wins and to the house if not. A refused exit asks
    /// nothing, and nothing can be asked while no hub is known.
    pub open spec fn exit_requests(self, player: Address) -> Seq<HubRequest> {
        if self.session_refusal(player) is Some || self.game_hub is None {
            Seq::empty()
        } else {
            seq![
                HubRequest::EndGame {
                    hub: self.game_hub->Some_0,
                    session_id: self.sessions[player].session.session_id,
                    player1_won: wins(self.sessions[player].session),
                },
            ]
        }
    }

    /// How an exit ends, given what the hub made of the request to release.
    pub open spec fn exit_result(self, player: Address, released: bool) -> Result<
        (bool, u64, ExitNotice),
        Error,
    > {
        match self.session_refusal(player) {
            Some(refusal) => Err(refusal),
            None => {
                let session = self.sessions[player].session;
                if self.game_hub is None || !released {
                    Err(Error::HubCallFailed)
                } else {
                    Ok((wins(session), session.total_score, exit_notice(session)))
                }
            },
        }
    }

    /// The state after an exit: unchanged where it is refused; otherwise
    /// the session is closed, whatever the hub answers, and where the hub
    /// has settled a winning session it is entered in the leaderboard.
    pub open spec fn exit_state(self, player: Address, released: bool, timestamp: u64) -> State {
        if self.session_refusal(player) is Some {
            self
        } else {
            let session = self.sessions[player].session;
            let shut = self.closed(player);
            if self.game_hub is Some && released && wins(session) {
                State {
                    leaderboard: self.leaderboard.push(
                        LeaderboardEntry {
                            player,
                            character: session.character,
                            total_score: session.total_score,
                            timestamp,
                        },
                    ),
                    ..shut
                }
            } else {
                shut
            }
        }
    }
}

} // verus!
