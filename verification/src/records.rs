use vstd::prelude::*;
use crate::address::Address;

verus! {

/// How many senses a session has to record.
pub const SENSE_COUNT: u32 = 6;

/// The bit set in which every sense is recorded.
pub const ALL_SENSES: u32 = 0b11_1111;

/// How many characters are on offer.
pub const CHARACTER_COUNT: u32 = 3;

/// The highest total score with which a player still wins. Lower is better.
pub const SCORE_CAP: u64 = 20_000_000;

/// The highest score that a single sense may report.
pub const SENSE_SCORE_LIMIT: u64 = 10_000_000_000;

/// The lifetime, in ledgers, that a record is granted whenever it is
/// refreshed: thirty days at about five seconds a ledger.
pub const SESSION_TTL_LEDGERS: u32 = 518_400;

/// The bit that stands for a sense in a session's set of recorded senses.
pub open spec fn sense_bit(sense_id: u32) -> u32
    recommends
        sense_id < SENSE_COUNT,
{
    1u32 << sense_id
}

/// Whether a set of recorded senses, given as bits, holds a sense.
pub open spec fn has_sense(senses: u32, sense_id: u32) -> bool {
    sense_id < SENSE_COUNT && senses & sense_bit(sense_id) != 0
}

/// The senses that a bit set holds.
pub open spec fn sense_set(senses: u32) -> Set<u32> {
    Set::new(|sense_id: u32| has_sense(senses, sense_id))
}

/// One player's attempt, in progress or concluded.
#[derive(Clone, Copy, Debug, PartialEq, Eq, Structural)]
pub struct CalibrationSession {
    pub player: Address,
    /// The house, which wins whatever the player fails to win.
    pub player2: Address,
    pub character: u32,
    /// Bit `i` is set exactly when sense `i` has been recorded.
    pub completed_senses: u32,
    /// The sum of the recorded senses' scores, held at the largest value
    /// rather than wrapped should it ever exceed it.
    pub total_score: u64,
    /// The token under which the hub knows this session.
    pub session_id: u32,
    pub player1_points: i128,
    pub player2_points: i128,
    pub active: bool,
}

impl CalibrationSession {
    /// A session names one of the characters on offer and records no sense
    /// beyond the six.
    pub open spec fn valid(self) -> bool {
        self.character < CHARACTER_COUNT && self.completed_senses <= ALL_SENSES
    }

    /// The senses recorded so far.
    pub open spec fn senses(self) -> Set<u32> {
        sense_set(self.completed_senses)
    }

    /// Whether the session is valid.
    pub fn is_valid(&self) -> (r: bool)
        ensures
            r == self.valid(),
    {
        self.character < CHARACTER_COUNT && self.completed_senses <= ALL_SENSES
    }

    /// Whether a sense has been recorded. A sense id beyond the six never is.
    pub fn is_completed(&self, sense_id: u32) -> (r: bool)
        ensures
            r == has_sense(self.completed_senses, sense_id),
            r == self.senses().contains(sense_id),
    {
        sense_id < SENSE_COUNT && (self.completed_senses & (1u32 << sense_id)) != 0
    }

    /// Records a sense. A sense id beyond the six leaves the session as it is.
    pub fn mark_completed(&mut self, sense_id: u32)
        ensures
            sense_id < SENSE_COUNT ==> *final(self) == (CalibrationSession {
                completed_senses: old(self).completed_senses | sense_bit(sense_id),
                ..*old(self)
            }),
            sense_id >= SENSE_COUNT ==> *final(self) == *old(self),
    {
        if sense_id < SENSE_COUNT {
            self.completed_senses = self.completed_senses | (1u32 << sense_id);
        }
    }

    /// Whether all six senses have been recorded.
    pub fn all_completed(&self) -> (r: bool)
        ensures
            r == (self.completed_senses == ALL_SENSES),
    {
        self.completed_senses == ALL_SENSES
    }
}

/// What one sense of one player's session came to. Written once, then only read.
#[derive(Clone, Copy, Debug, PartialEq, Eq, Structural)]
pub struct SenseResult {
    pub sense_id: u32,
    pub points: u64,
    pub time_ms: u64,
    pub score: u64,
}

impl SenseResult {
    /// A result belongs to one of the six senses, and its score is exactly
    /// its points times its time, neither of them zero, within the limit.
    pub open spec fn valid(self) -> bool {
        &&& self.sense_id < SENSE_COUNT
        &&& self.score == self.points * self.time_ms
        &&& self.points != 0
        &&& self.time_ms != 0
        &&& self.score <= SENSE_SCORE_LIMIT
    }

    /// Whether the result is valid.
    pub fn is_valid(&self) -> (r: bool)
        ensures
            r == self.valid(),
    {
        self.sense_id < SENSE_COUNT && self.points.checked_mul(self.time_ms) == Some(self.score)
            && self.points != 0 && self.time_ms != 0 && self.score <= SENSE_SCORE_LIMIT
    }
}

/// One winning attempt, as the leaderboard keeps it.
#[derive(Clone, Copy, Debug, PartialEq, Eq, Structural)]
pub struct LeaderboardEntry {
    pub player: Address,
    pub character: u32,
    pub total_score: u64,
    pub timestamp: u64,
}

impl LeaderboardEntry {
    /// Only a score within the cap earns a place.
    pub open spec fn qualifies(self) -> bool {
        self.total_score <= SCORE_CAP
    }

    /// Whether the entry's score earns it a place.
    pub fn is_qualified(&self) -> (r: bool)
        ensures
            r == self.qualifies(),
    {
        self.total_score <= SCORE_CAP
    }
}

/// The name under which each record is kept.
#[derive(Clone, Copy, Debug, PartialEq, Eq, Structural)]
pub enum DataKey {
    /// The session of a player.
    Session(Address),
    GameHubAddress,
    Admin,
    SessionCounter,
    Leaderboard,
    /// What a player's sense came to.
    SenseResult(Address, u32),
}

} // verus!
