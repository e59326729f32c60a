use vstd::prelude::*;
use crate::error::Error;
use crate::records::{CHARACTER_COUNT, SENSE_COUNT, SENSE_SCORE_LIMIT};

verus! {

/// What the validator found: that a submission is in order, or the first
/// rule it breaks.
#[derive(Clone, Copy, Debug, PartialEq, Eq, Structural)]
pub enum Verdict {
    Valid,
    /// The maze is not the one that the session's character meets for this sense.
    MazeMismatch,
    /// Points times time does not fit the score's type.
    ScoreOverflow,
    /// The score is not points times time.
    ScoreMismatch,
    /// No points, or no time.
    DegenerateInput,
    /// The score is beyond what one sense may report.
    ScoreOutOfRange,
    /// Nothing came where the proof should be.
    MissingProof,
}

/// The maze that a character meets for a sense: the character in the bits
/// above the low eight, the sense in the low eight.
pub open spec fn maze_binding(character: u32, sense_id: u32) -> u32 {
    (character << 8) | sense_id
}

/// The verdict on a submission, rule by rule, the first broken rule deciding.
pub open spec fn verdict_of(
    character: u32,
    sense_id: u32,
    maze_id: u32,
    points: u64,
    time_ms: u64,
    score: u64,
    proof_len: nat,
) -> Verdict {
    if maze_id != maze_binding(character, sense_id) {
        Verdict::MazeMismatch
    } else if points * time_ms > u64::MAX {
        Verdict::ScoreOverflow
    } else if score != points * time_ms {
        Verdict::ScoreMismatch
    } else if points == 0 || time_ms == 0 {
        Verdict::DegenerateInput
    } else if score > SENSE_SCORE_LIMIT {
        Verdict::ScoreOutOfRange
    } else if proof_len == 0 {
        Verdict::MissingProof
    } else {
        Verdict::Valid
    }
}

impl Verdict {
    /// How a verdict is reported: every broken rule as the one refusal
    /// `VerificationFailed`, which rule it was being nobody's business outside.
    pub open spec fn spec_refusal(self) -> Option<Error> {
        if self == Verdict::Valid {
            None
        } else {
            Some(Error::VerificationFailed)
        }
    }

    /// The refusal that reports this verdict, if it is one.
    pub fn refusal(&self) -> (r: Option<Error>)
        ensures
            r == self.spec_refusal(),
    {
        match self {
            Verdict::Valid => None,
            _ => Some(Error::VerificationFailed),
        }
    }
}

/// Checks a submission against the session's character and against itself.
///
/// The rules, in order: the maze is the one bound to character and sense;
/// the score is exactly points times time, computed without wrapping;
/// neither points nor time is zero and the score is within the limit of one
/// sense; a proof came with it. Reads nothing but its arguments.
pub fn validate(
    character: u32,
    sense_id: u32,
    maze_id: u32,
    points: u64,
    time_ms: u64,
    score: u64,
    proof_len: u32,
) -> (verdict: Verdict)
    ensures
        verdict == verdict_of(
            character,
            sense_id,
            maze_id,
            points,
            time_ms,
            score,
            proof_len as nat,
        ),
{
    if maze_id != ((character << 8) | sense_id) {
        return Verdict::MazeMismatch;
    }
    match points.checked_mul(time_ms) {
        None => Verdict::ScoreOverflow,
        Some(expected) => {
            if score != expected {
                Verdict::ScoreMismatch
            } else if points == 0 || time_ms == 0 {
                Verdict::DegenerateInput
            } else if score > SENSE_SCORE_LIMIT {
                Verdict::ScoreOutOfRange
            } else if proof_len == 0 {
                Verdict::MissingProof
            } else {
                Verdict::Valid
            }
        },
    }
}

proof fn binding_is_positional(character: u32, sense_id: u32)
    by (bit_vector)
    requires
        character < 3,
        sense_id < 6,
    ensures
        (character << 8) | sense_id == character * 256 + sense_id,
{
}

/// For the characters on offer and the six senses, the maze is the
/// character times 256 plus the sense.
pub proof fn binding_of_valid_pair(character: u32, sense_id: u32)
    requires
        character < CHARACTER_COUNT,
        sense_id < SENSE_COUNT,
    ensures
        maze_binding(character, sense_id) == character * 256 + sense_id,
{
    binding_is_positional(character, sense_id);
}

/// A maze is bound to one character and one sense: two valid pairs that
/// meet the same maze are the same pair.
pub proof fn binding_names_one_pair(c1: u32, s1: u32, c2: u32, s2: u32)
    requires
        c1 < CHARACTER_COUNT,
        c2 < CHARACTER_COUNT,
        s1 < SENSE_COUNT,
        s2 < SENSE_COUNT,
        maze_binding(c1, s1) == maze_binding(c2, s2),
    ensures
        c1 == c2,
        s1 == s2,
{
    binding_is_positional(c1, s1);
    binding_is_positional(c2, s2);
}

/// A submission found valid has a score that is exactly its points times
/// its time, and any other score for the same points and time is refused.
pub proof fn valid_score_is_the_product(
    character: u32,
    sense_id: u32,
    maze_id: u32,
    points: u64,
    time_ms: u64,
    score: u64,
    proof_len: nat,
)
    ensures
        verdict_of(character, sense_id, maze_id, points, time_ms, score, proof_len)
            == Verdict::Valid ==> score == points * time_ms && 0 < score <= SENSE_SCORE_LIMIT,
        score != points * time_ms ==> verdict_of(
            character,
            sense_id,
            maze_id,
            points,
            time_ms,
            score,
            proof_len,
        ) != Verdict::Valid,
{
    if verdict_of(character, sense_id, maze_id, points, time_ms, score, proof_len)
        == Verdict::Valid {
        assert(points * time_ms > 0) by (nonlinear_arith)
            requires
                points > 0,
                time_ms > 0,
        ;
    }
}

} // verus!
