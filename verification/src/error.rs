use vstd::prelude::*;

verus! {

/// Why an operation was refused.
///
/// The first five kinds are shared with other games that settle through the
/// same hub; the rest belong to this game.
#[derive(Clone, Copy, Debug, PartialEq, Eq, Structural)]
pub enum Error {
    /// The player has no session.
    GameNotFound,
    NotPlayer,
    /// The sense was already recorded in this session.
    AlreadyGuessed,
    BothPlayersNotGuessed,
    GameAlreadyEnded,
    SessionAlreadyActive,
    /// The character is not one of the three on offer.
    InvalidCharacter,
    /// The sense id is not one of the six.
    InvalidSense,
    /// The submitted result is not consistent with the session or with itself.
    VerificationFailed,
    /// The player's session has been closed.
    SessionNotActive,
    /// The hub could not be reached, or turned the request down.
    HubCallFailed,
    OverloadExceeded,
    /// The arguments cannot describe a game: the player faces themselves.
    InvalidInput,
}

impl Error {
    /// The number under which each kind is reported to callers.
    pub open spec fn spec_code(self) -> u32 {
        match self {
            Error::GameNotFound => 1,
            Error::NotPlayer => 2,
            Error::AlreadyGuessed => 3,
            Error::BothPlayersNotGuessed => 4,
            Error::GameAlreadyEnded => 5,
            Error::SessionAlreadyActive => 6,
            Error::InvalidCharacter => 7,
            Error::InvalidSense => 8,
            Error::VerificationFailed => 9,
            Error::SessionNotActive => 10,
            Error::HubCallFailed => 11,
            Error::OverloadExceeded => 12,
            Error::InvalidInput => 13,
        }
    }

    /// The number under which this kind is reported to callers.
    pub fn code(&self) -> (c: u32)
        ensures
            c == self.spec_code(),
            1 <= c <= 13,
    {
        match self {
            Error::GameNotFound => 1,
            Error::NotPlayer => 2,
            Error::AlreadyGuessed => 3,
            Error::BothPlayersNotGuessed => 4,
            Error::GameAlreadyEnded => 5,
            Error::SessionAlreadyActive => 6,
            Error::InvalidCharacter => 7,
            Error::InvalidSense => 8,
            Error::VerificationFailed => 9,
            Error::SessionNotActive => 10,
            Error::HubCallFailed => 11,
            Error::OverloadExceeded => 12,
            Error::InvalidInput => 13,
        }
    }
}

/// No two kinds of refusal share a number.
pub proof fn codes_are_distinct(a: Error, b: Error)
    ensures
        a.spec_code() == b.spec_code() ==> a == b,
{
}

} // verus!
