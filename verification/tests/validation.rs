use sa_birth::validator::{validate, Verdict};
use sa_birth::Error;

#[test]
fn a_submission_in_order_is_valid() {
    assert_eq!(validate(0, 0, 0, 100, 50, 5000, 1), Verdict::Valid);
    assert_eq!(validate(2, 5, 517, 1, 1, 1, 12_000), Verdict::Valid);
    assert_eq!(Verdict::Valid.refusal(), None);
}

#[test]
fn the_maze_is_the_character_above_the_sense() {
    // character 1, sense 3: 256 + 3
    assert_eq!(validate(1, 3, 259, 2, 2, 4, 1), Verdict::Valid);
    assert_eq!(validate(1, 3, 3, 2, 2, 4, 1), Verdict::MazeMismatch);
    assert_eq!(validate(1, 3, 258, 2, 2, 4, 1), Verdict::MazeMismatch);
    assert_eq!(validate(1, 3, 515, 2, 2, 4, 1), Verdict::MazeMismatch);
    assert_eq!(validate(0, 5, 5, 2, 2, 4, 1), Verdict::Valid);
    assert_eq!(validate(2, 0, 512, 2, 2, 4, 1), Verdict::Valid);
}

#[test]
fn the_first_broken_rule_decides() {
    // maze before everything
    assert_eq!(validate(0, 0, 1, u64::MAX, u64::MAX, 0, 0), Verdict::MazeMismatch);
    // overflow before mismatch
    assert_eq!(validate(0, 0, 0, u64::MAX, 2, 7, 0), Verdict::ScoreOverflow);
    // mismatch before the zero check
    assert_eq!(validate(0, 0, 0, 0, 9, 1, 0), Verdict::ScoreMismatch);
    // zero before the limit and the proof
    assert_eq!(validate(0, 0, 0, 0, 9, 0, 0), Verdict::DegenerateInput);
    assert_eq!(validate(0, 0, 0, 9, 0, 0, 1), Verdict::DegenerateInput);
    // the limit before the proof
    assert_eq!(
        validate(0, 0, 0, 10_000_000_001, 1, 10_000_000_001, 0),
        Verdict::ScoreOutOfRange
    );
    assert_eq!(validate(0, 0, 0, 3, 3, 9, 0), Verdict::MissingProof);
}

#[test]
fn the_product_is_computed_without_wrapping() {
    // 2^32 * 2^32 wraps to 0
    assert_eq!(validate(0, 0, 0, 1 << 32, 1 << 32, 0, 1), Verdict::ScoreOverflow);
    // the largest product that fits, far beyond the limit
    assert_eq!(
        validate(0, 0, 0, u64::MAX, 1, u64::MAX, 1),
        Verdict::ScoreOutOfRange
    );
    assert_eq!(validate(0, 0, 0, u64::MAX, 1, u64::MAX - 1, 1), Verdict::ScoreMismatch);
}

#[test]
fn the_limit_of_one_sense_is_ten_billion() {
    assert_eq!(
        validate(0, 0, 0, 10_000_000_000, 1, 10_000_000_000, 1),
        Verdict::Valid
    );
    assert_eq!(
        validate(0, 0, 0, 1, 10_000_000_001, 10_000_000_001, 1),
        Verdict::ScoreOutOfRange
    );
}

#[test]
fn every_broken_rule_is_reported_as_failed_verification() {
    for verdict in [
        Verdict::MazeMismatch,
        Verdict::ScoreOverflow,
        Verdict::ScoreMismatch,
        Verdict::DegenerateInput,
        Verdict::ScoreOutOfRange,
        Verdict::MissingProof,
    ] {
        assert_ne!(verdict, Verdict::Valid);
        assert_eq!(verdict.refusal(), Some(Error::VerificationFailed));
    }
}

#[test]
fn errors_keep_their_numbers() {
    assert_eq!(Error::GameNotFound.code(), 1);
    assert_eq!(Error::NotPlayer.code(), 2);
    assert_eq!(Error::AlreadyGuessed.code(), 3);
    assert_eq!(Error::BothPlayersNotGuessed.code(), 4);
    assert_eq!(Error::GameAlreadyEnded.code(), 5);
    assert_eq!(Error::SessionAlreadyActive.code(), 6);
    assert_eq!(Error::InvalidCharacter.code(), 7);
    assert_eq!(Error::InvalidSense.code(), 8);
    assert_eq!(Error::VerificationFailed.code(), 9);
    assert_eq!(Error::SessionNotActive.code(), 10);
    assert_eq!(Error::HubCallFailed.code(), 11);
    assert_eq!(Error::OverloadExceeded.code(), 12);
    assert_eq!(Error::InvalidInput.code(), 13);
}
