use vstd::prelude::*;

verus! {

/// Announces that a player has chosen a character and the session is under way.
#[derive(Clone, Copy, Debug, PartialEq, Eq, Structural)]
pub struct StartEvent {
    pub character: u32,
    pub session_id: u32,
}

/// Announces that one sense has been recorded.
///
/// The proof that came with the submission is deliberately absent: it is
/// meant for observers who fetch it elsewhere, and is far too large to announce.
#[derive(Clone, Copy, Debug, PartialEq, Eq, Structural)]
pub struct SenseCompletedEvent {
    pub sense_id: u32,
    pub score: u64,
    pub points: u64,
    pub time_ms: u64,
}

/// Announces that a player left with every sense recorded and a qualifying score.
#[derive(Clone, Copy, Debug, PartialEq, Eq, Structural)]
pub struct CompleteEvent {
    pub character: u32,
    pub total_score: u64,
}

/// Announces that a player left with every sense recorded but too high a score.
#[derive(Clone, Copy, Debug, PartialEq, Eq, Structural)]
pub struct OverloadEvent {
    pub character: u32,
    pub total_score: u64,
}

} // verus!
