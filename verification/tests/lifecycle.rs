use sa_birth::records::SESSION_TTL_LEDGERS;
use sa_birth::{
    Address, CalibrationSession, DataKey, Error, Escrow, ExitNotice, HubRequest, RecordingHub,
    SaBirthContract, SenseCompletedEvent, SenseResult, StartEvent,
};
use soroban_sdk::testutils::EnvTestConfig;
use soroban_sdk::{Bytes, Env};

fn env() -> Env {
    Env::new_with_config(EnvTestConfig { capture_snapshot_at_drop: false })
}

fn game_id() -> Address {
    Address::contract(1, 1)
}

fn hub_at() -> Address {
    Address::contract(2, 2)
}

fn admin() -> Address {
    Address::account(3, 3)
}

fn alice() -> Address {
    Address::account(10, 10)
}

fn bob() -> Address {
    Address::account(11, 11)
}

fn house() -> Address {
    Address::account(20, 20)
}

fn new_game() -> SaBirthContract {
    SaBirthContract::new(game_id(), admin(), hub_at())
}

#[test]
fn start_writes_a_clean_open_session() {
    let mut game = new_game();
    let mut escrow = Escrow::new(RecordingHub::new(true, true));
    assert_eq!(game.start_game(&mut escrow, 7, alice(), house(), 123, 456), Ok(()));
    assert_eq!(
        game.get_session(alice()),
        Some(CalibrationSession {
            player: alice(),
            player2: house(),
            character: 0,
            completed_senses: 0,
            total_score: 0,
            session_id: 7,
            player1_points: 123,
            player2_points: 456,
            active: true,
        })
    );
    assert_eq!(game.lifetime(DataKey::Session(alice())), Some(SESSION_TTL_LEDGERS));
    assert_eq!(SESSION_TTL_LEDGERS, 518_400);
    let hub = escrow.into_hub();
    assert_eq!(hub.count(), 1);
    assert_eq!(
        hub.request(0),
        Some(HubRequest::StartGame {
            hub: hub_at(),
            game_id: game_id(),
            session_id: 7,
            player1: alice(),
            player2: house(),
            player1_points: 123,
            player2_points: 456,
        })
    );
}

#[test]
fn start_against_oneself_is_invalid_input() {
    let mut game = new_game();
    let mut escrow = Escrow::new(RecordingHub::new(true, true));
    assert_eq!(
        game.start_game(&mut escrow, 7, alice(), alice(), 1, 1),
        Err(Error::InvalidInput)
    );
    assert_eq!(game.get_session(alice()), None);
    assert_eq!(escrow.hub().count(), 0);
}

#[test]
fn start_fails_and_writes_nothing_when_the_hub_does_not_lock() {
    let mut game = new_game();
    let mut escrow = Escrow::new(RecordingHub::new(false, true));
    assert_eq!(
        game.start_game(&mut escrow, 7, alice(), house(), 1, 1),
        Err(Error::HubCallFailed)
    );
    assert_eq!(game.get_session(alice()), None);
    assert_eq!(game.lifetime(DataKey::Session(alice())), None);
    assert_eq!(escrow.hub().count(), 1);
}

#[test]
fn start_over_an_open_session_releases_it_to_the_house_first() {
    let mut game = new_game();
    let mut escrow = Escrow::new(RecordingHub::new(true, true));
    assert_eq!(game.start_game(&mut escrow, 7, alice(), house(), 1, 1), Ok(()));
    assert!(game.set_character(alice(), 2).is_ok());
    assert_eq!(game.start_game(&mut escrow, 8, alice(), house(), 5, 6), Ok(()));
    let hub = escrow.into_hub();
    assert_eq!(hub.count(), 3);
    assert_eq!(
        hub.request(1),
        Some(HubRequest::EndGame { hub: hub_at(), session_id: 7, player1_won: false })
    );
    assert_eq!(
        hub.request(2),
        Some(HubRequest::StartGame {
            hub: hub_at(),
            game_id: game_id(),
            session_id: 8,
            player1: alice(),
            player2: house(),
            player1_points: 5,
            player2_points: 6,
        })
    );
    let session = game.get_session(alice()).unwrap();
    assert_eq!(session.session_id, 8);
    assert_eq!(session.character, 0);
    assert!(session.active);
}

#[test]
fn start_over_an_open_session_succeeds_even_if_the_release_fails() {
    let mut game = new_game();
    let mut escrow = Escrow::new(RecordingHub::new(true, false));
    assert_eq!(game.start_game(&mut escrow, 7, alice(), house(), 1, 1), Ok(()));
    assert_eq!(game.start_game(&mut escrow, 8, alice(), house(), 1, 1), Ok(()));
    assert_eq!(game.get_session(alice()).unwrap().session_id, 8);
    let hub = escrow.into_hub();
    assert_eq!(hub.count(), 3);
    assert_eq!(
        hub.request(1),
        Some(HubRequest::EndGame { hub: hub_at(), session_id: 7, player1_won: false })
    );
}

#[test]
fn start_after_a_closed_session_releases_nothing() {
    let mut game = new_game();
    let mut escrow = Escrow::new(RecordingHub::new(true, true));
    assert_eq!(game.start_game(&mut escrow, 7, alice(), house(), 1, 1), Ok(()));
    assert!(game.attempt_exit(&mut escrow, alice(), 0).is_ok());
    assert_eq!(game.start_game(&mut escrow, 8, alice(), house(), 1, 1), Ok(()));
    let hub = escrow.into_hub();
    // lock, release on exit, lock
    assert_eq!(hub.count(), 3);
    assert!(matches!(hub.request(2), Some(HubRequest::StartGame { session_id: 8, .. })));
}

#[test]
fn start_over_an_open_session_keeps_it_when_the_lock_fails() {
    let mut game = new_game();
    let mut escrow = Escrow::new(RecordingHub::new(true, true));
    assert_eq!(game.start_game(&mut escrow, 7, alice(), house(), 1, 1), Ok(()));
    let mut hub = escrow.into_hub();
    hub.answer(false, true);
    let mut escrow = Escrow::new(hub);
    assert_eq!(
        game.start_game(&mut escrow, 8, alice(), house(), 1, 1),
        Err(Error::HubCallFailed)
    );
    assert_eq!(game.get_session(alice()).unwrap().session_id, 7);
}

#[test]
fn set_character_names_the_character_and_counts_the_session() {
    let mut game = new_game();
    let mut escrow = Escrow::new(RecordingHub::new(true, true));
    assert_eq!(game.start_game(&mut escrow, 7, alice(), house(), 1, 1), Ok(()));
    assert_eq!(game.snapshot().session_counter, 0);
    assert_eq!(
        game.set_character(alice(), 2),
        Ok((7, StartEvent { character: 2, session_id: 7 }))
    );
    assert_eq!(game.get_session(alice()).unwrap().character, 2);
    assert_eq!(game.snapshot().session_counter, 1);
    assert_eq!(
        game.set_character(alice(), 0),
        Ok((7, StartEvent { character: 0, session_id: 7 }))
    );
    assert_eq!(game.snapshot().session_counter, 2);
}

#[test]
fn set_character_refusals() {
    let mut game = new_game();
    let mut escrow = Escrow::new(RecordingHub::new(true, true));
    assert_eq!(game.set_character(alice(), 3), Err(Error::InvalidCharacter));
    assert_eq!(game.set_character(alice(), 2), Err(Error::GameNotFound));
    assert_eq!(game.start_game(&mut escrow, 7, alice(), house(), 1, 1), Ok(()));
    assert_eq!(game.set_character(alice(), 3), Err(Error::InvalidCharacter));
    assert_eq!(game.set_character(alice(), u32::MAX), Err(Error::InvalidCharacter));
    assert!(game.attempt_exit(&mut escrow, alice(), 0).is_ok());
    assert_eq!(game.set_character(alice(), 1), Err(Error::SessionNotActive));
    assert_eq!(game.get_session(alice()).unwrap().character, 0);
    assert_eq!(game.snapshot().session_counter, 0);
}

#[test]
fn the_session_counter_stops_at_its_largest_value() {
    let mut snapshot = new_game().snapshot();
    snapshot.session_counter = u32::MAX - 1;
    let mut game = SaBirthContract::restore(&snapshot).unwrap();
    let mut escrow = Escrow::new(RecordingHub::new(true, true));
    assert_eq!(game.start_game(&mut escrow, 7, alice(), house(), 1, 1), Ok(()));
    assert!(game.set_character(alice(), 1).is_ok());
    assert_eq!(game.snapshot().session_counter, u32::MAX);
    assert!(game.set_character(alice(), 1).is_ok());
    assert_eq!(game.snapshot().session_counter, u32::MAX);
}

#[test]
fn submit_records_the_sense() {
    let env = env();
    let proof = Bytes::from_slice(&env, &[1, 2, 3]);
    let mut game = new_game();
    let mut escrow = Escrow::new(RecordingHub::new(true, true));
    assert_eq!(game.start_game(&mut escrow, 7, alice(), house(), 1, 1), Ok(()));
    assert!(game.set_character(alice(), 2).is_ok());
    let done = game.submit_sense_completion(alice(), 3, 515, 12, 250, 3000, &proof);
    assert_eq!(
        done,
        Ok(SenseCompletedEvent { sense_id: 3, score: 3000, points: 12, time_ms: 250 })
    );
    assert_eq!(
        game.get_sense_result(alice(), 3),
        Some(SenseResult { sense_id: 3, points: 12, time_ms: 250, score: 3000 })
    );
    let session = game.get_session(alice()).unwrap();
    assert_eq!(session.completed_senses, 0b00_1000);
    assert_eq!(session.total_score, 3000);
    assert!(session.active);
    assert_eq!(game.lifetime(DataKey::SenseResult(alice(), 3)), Some(518_400));
    assert_eq!(game.lifetime(DataKey::SenseResult(alice(), 2)), None);
    assert_eq!(game.get_sense_result(alice(), 2), None);
    assert_eq!(game.get_sense_result(bob(), 3), None);
}

#[test]
fn senses_accumulate_as_the_or_of_their_bits() {
    let mut game = new_game();
    let mut escrow = Escrow::new(RecordingHub::new(true, true));
    assert_eq!(game.start_game(&mut escrow, 7, alice(), house(), 1, 1), Ok(()));
    let mut expected = 0u32;
    let mut total = 0u64;
    for sense in [4u32, 0, 5, 2] {
        assert!(game.record_sense(alice(), sense, sense, 3, 7, 21, 1).is_ok());
        expected |= 1 << sense;
        total += 21;
        let session = game.get_session(alice()).unwrap();
        assert_eq!(session.completed_senses, expected);
        assert_eq!(session.total_score, total);
    }
    assert_eq!(expected, 0b11_0101);
}

#[test]
fn a_sense_cannot_be_submitted_twice() {
    let mut game = new_game();
    let mut escrow = Escrow::new(RecordingHub::new(true, true));
    assert_eq!(game.start_game(&mut escrow, 7, alice(), house(), 1, 1), Ok(()));
    assert!(game.record_sense(alice(), 1, 1, 3, 7, 21, 1).is_ok());
    let before = game.snapshot();
    assert_eq!(game.record_sense(alice(), 1, 1, 4, 8, 32, 1), Err(Error::AlreadyGuessed));
    // even an invalid resubmission is told that the sense is taken
    assert_eq!(game.record_sense(alice(), 1, 99, 4, 8, 33, 0), Err(Error::AlreadyGuessed));
    assert_eq!(game.snapshot(), before);
    assert_eq!(game.get_sense_result(alice(), 1).unwrap().score, 21);
}

#[test]
fn submit_refusals_come_in_order() {
    let mut game = new_game();
    let mut escrow = Escrow::new(RecordingHub::new(true, true));
    // a bad sense id is reported before the missing session
    assert_eq!(game.record_sense(alice(), 6, 6, 1, 1, 1, 1), Err(Error::InvalidSense));
    assert_eq!(game.record_sense(alice(), 5, 5, 1, 1, 1, 1), Err(Error::GameNotFound));
    assert_eq!(game.start_game(&mut escrow, 7, alice(), house(), 1, 1), Ok(()));
    assert_eq!(game.record_sense(alice(), u32::MAX, 0, 1, 1, 1, 1), Err(Error::InvalidSense));
    assert_eq!(game.record_sense(bob(), 0, 0, 1, 1, 1, 1), Err(Error::GameNotFound));
    assert!(game.attempt_exit(&mut escrow, alice(), 0).is_ok());
    assert_eq!(game.record_sense(alice(), 0, 0, 1, 1, 1, 1), Err(Error::SessionNotActive));
    assert_eq!(game.record_sense(alice(), 6, 0, 1, 1, 1, 1), Err(Error::InvalidSense));
}

#[test]
fn submit_verification_failures_change_nothing() {
    let mut game = new_game();
    let mut escrow = Escrow::new(RecordingHub::new(true, true));
    assert_eq!(game.start_game(&mut escrow, 7, alice(), house(), 1, 1), Ok(()));
    assert!(game.set_character(alice(), 1).is_ok());
    let before = game.snapshot();
    let failed = Err(Error::VerificationFailed);
    // the maze of another character, and of another sense
    assert_eq!(game.record_sense(alice(), 2, 2, 10, 10, 100, 1), failed);
    assert_eq!(game.record_sense(alice(), 2, 257, 10, 10, 100, 1), failed);
    // the product does not fit
    assert_eq!(game.record_sense(alice(), 2, 258, u64::MAX, 2, u64::MAX, 1), failed);
    assert_eq!(game.record_sense(alice(), 2, 258, 1 << 32, 1 << 32, 0, 1), failed);
    // the score is not the product
    assert_eq!(game.record_sense(alice(), 2, 258, 10, 10, 99, 1), failed);
    assert_eq!(game.record_sense(alice(), 2, 258, 10, 10, 101, 1), failed);
    // nothing times something
    assert_eq!(game.record_sense(alice(), 2, 258, 0, 10, 0, 1), failed);
    assert_eq!(game.record_sense(alice(), 2, 258, 10, 0, 0, 1), failed);
    // beyond what one sense may report
    assert_eq!(game.record_sense(alice(), 2, 258, 10_000_000_001, 1, 10_000_000_001, 1), failed);
    // no proof
    assert_eq!(game.record_sense(alice(), 2, 258, 10, 10, 100, 0), failed);
    assert_eq!(game.snapshot(), before);
    assert_eq!(game.get_sense_result(alice(), 2), None);
    // and the same submission in order goes through
    assert!(game.record_sense(alice(), 2, 258, 10, 10, 100, 1).is_ok());
    // as does one exactly at the limit
    assert!(game.record_sense(alice(), 3, 259, 100_000, 100_000, 10_000_000_000, 1).is_ok());
}

#[test]
fn the_length_of_the_proof_is_what_counts() {
    let env = env();
    let mut game = new_game();
    let mut escrow = Escrow::new(RecordingHub::new(true, true));
    assert_eq!(game.start_game(&mut escrow, 7, alice(), house(), 1, 1), Ok(()));
    let empty = Bytes::new(&env);
    let one = Bytes::from_slice(&env, &[0]);
    assert_eq!(
        game.submit_sense_completion(alice(), 0, 0, 2, 3, 6, &empty),
        Err(Error::VerificationFailed)
    );
    assert_eq!(game.get_session(alice()).unwrap().completed_senses, 0);
    assert!(game.submit_sense_completion(alice(), 0, 0, 2, 3, 6, &one).is_ok());
    assert_eq!(game.get_session(alice()).unwrap().completed_senses, 1);
}

#[test]
fn the_total_score_stops_at_its_largest_value() {
    let mut game = new_game();
    let mut escrow = Escrow::new(RecordingHub::new(true, true));
    assert_eq!(game.start_game(&mut escrow, 7, alice(), house(), 1, 1), Ok(()));
    let mut snapshot = game.snapshot();
    snapshot.sessions[0].session.total_score = u64::MAX - 5;
    let mut game = SaBirthContract::restore(&snapshot).unwrap();
    assert!(game.record_sense(alice(), 0, 0, 2, 2, 4, 1).is_ok());
    assert_eq!(game.get_session(alice()).unwrap().total_score, u64::MAX - 1);
    assert!(game.record_sense(alice(), 1, 1, 2, 2, 4, 1).is_ok());
    assert_eq!(game.get_session(alice()).unwrap().total_score, u64::MAX);
}

#[test]
fn exit_refusals_ask_nothing_and_change_nothing() {
    let mut game = new_game();
    let mut escrow = Escrow::new(RecordingHub::new(true, true));
    assert_eq!(game.attempt_exit(&mut escrow, alice(), 0), Err(Error::GameNotFound));
    assert_eq!(escrow.hub().count(), 0);
    assert_eq!(game.start_game(&mut escrow, 7, alice(), house(), 1, 1), Ok(()));
    assert_eq!(game.attempt_exit(&mut escrow, bob(), 0), Err(Error::GameNotFound));
    assert_eq!(game.attempt_exit(&mut escrow, alice(), 0), Ok((false, 0, ExitNotice::Silent)));
    let before = game.snapshot();
    assert_eq!(game.attempt_exit(&mut escrow, alice(), 1), Err(Error::SessionNotActive));
    assert_eq!(game.attempt_exit(&mut escrow, alice(), 2), Err(Error::SessionNotActive));
    assert_eq!(game.snapshot(), before);
    // the lock and the one release
    assert_eq!(escrow.hub().count(), 2);
}

#[test]
fn exit_closes_the_session_even_when_the_hub_does_not_release() {
    let mut game = new_game();
    let mut escrow = Escrow::new(RecordingHub::new(true, false));
    assert_eq!(game.start_game(&mut escrow, 7, alice(), house(), 1, 1), Ok(()));
    for sense in 0u32..6 {
        assert!(game.record_sense(alice(), sense, sense, 5, 5, 25, 1).is_ok());
    }
    assert_eq!(game.attempt_exit(&mut escrow, alice(), 5), Err(Error::HubCallFailed));
    let session = game.get_session(alice()).unwrap();
    assert!(!session.active);
    assert_eq!(session.total_score, 150);
    assert_eq!(session.completed_senses, 0b11_1111);
    assert!(game.get_leaderboard().is_empty());
    let mut hub = escrow.into_hub();
    assert_eq!(
        hub.request(1),
        Some(HubRequest::EndGame { hub: hub_at(), session_id: 7, player1_won: true })
    );
    // a retry is not possible: the session is closed
    hub.answer(true, true);
    let mut escrow = Escrow::new(hub);
    assert_eq!(game.attempt_exit(&mut escrow, alice(), 6), Err(Error::SessionNotActive));
    assert_eq!(escrow.hub().count(), 2);
    assert!(game.get_leaderboard().is_empty());
}

#[test]
fn exit_does_not_refresh_the_lifetime() {
    let mut game = new_game();
    let mut escrow = Escrow::new(RecordingHub::new(true, true));
    assert_eq!(game.start_game(&mut escrow, 7, alice(), house(), 1, 1), Ok(()));
    let mut snapshot = game.snapshot();
    snapshot.sessions[0].ttl = 17;
    let mut game = SaBirthContract::restore(&snapshot).unwrap();
    assert!(game.attempt_exit(&mut escrow, alice(), 0).is_ok());
    assert_eq!(game.lifetime(DataKey::Session(alice())), Some(17));
}

#[test]
fn without_a_hub_nothing_can_be_settled() {
    let mut snapshot = new_game().snapshot();
    snapshot.game_hub = None;
    let mut game = SaBirthContract::restore(&snapshot).unwrap();
    let mut escrow = Escrow::new(RecordingHub::new(true, true));
    assert_eq!(
        game.start_game(&mut escrow, 7, alice(), house(), 1, 1),
        Err(Error::HubCallFailed)
    );
    assert_eq!(game.get_session(alice()), None);

    let mut open = new_game();
    assert_eq!(open.start_game(&mut escrow, 7, alice(), house(), 1, 1), Ok(()));
    let mut snapshot = open.snapshot();
    snapshot.game_hub = None;
    let mut game = SaBirthContract::restore(&snapshot).unwrap();
    // a start over the open session neither releases nor locks
    assert_eq!(
        game.start_game(&mut escrow, 8, alice(), house(), 1, 1),
        Err(Error::HubCallFailed)
    );
    assert_eq!(game.attempt_exit(&mut escrow, alice(), 0), Err(Error::HubCallFailed));
    assert!(!game.get_session(alice()).unwrap().active);
    assert_eq!(escrow.hub().count(), 1);
}

#[test]
fn players_do_not_touch_each_other() {
    let mut game = new_game();
    let mut escrow = Escrow::new(RecordingHub::new(true, true));
    assert_eq!(game.start_game(&mut escrow, 7, alice(), house(), 1, 1), Ok(()));
    assert_eq!(game.start_game(&mut escrow, 8, bob(), house(), 2, 2), Ok(()));
    assert!(game.set_character(bob(), 2).is_ok());
    assert!(game.record_sense(bob(), 0, 512, 5, 5, 25, 1).is_ok());
    let alice_session = game.get_session(alice()).unwrap();
    assert_eq!(alice_session.completed_senses, 0);
    assert_eq!(alice_session.character, 0);
    assert_eq!(alice_session.session_id, 7);
    assert_eq!(game.get_sense_result(alice(), 0), None);
    assert!(game.attempt_exit(&mut escrow, bob(), 0).is_ok());
    assert!(game.get_session(alice()).unwrap().active);
}

#[test]
fn get_game_finds_nothing() {
    let mut game = new_game();
    let mut escrow = Escrow::new(RecordingHub::new(true, true));
    assert_eq!(game.get_game(7), None);
    assert_eq!(game.start_game(&mut escrow, 7, alice(), house(), 1, 1), Ok(()));
    assert_eq!(game.get_game(7), None);
}

#[test]
fn get_sense_result_beyond_the_six_finds_nothing() {
    let mut game = new_game();
    let mut escrow = Escrow::new(RecordingHub::new(true, true));
    assert_eq!(game.start_game(&mut escrow, 7, alice(), house(), 1, 1), Ok(()));
    assert!(game.record_sense(alice(), 5, 5, 5, 5, 25, 1).is_ok());
    assert!(game.get_sense_result(alice(), 5).is_some());
    assert_eq!(game.get_sense_result(alice(), 6), None);
    assert_eq!(game.get_sense_result(alice(), u32::MAX), None);
}

#[test]
fn admin_and_hub_can_be_read_and_changed() {
    let mut game = new_game();
    assert_eq!(game.get_admin(), admin());
    assert_eq!(game.get_hub(), hub_at());
    game.set_admin(bob());
    assert_eq!(game.get_admin(), bob());
    assert_eq!(game.get_hub(), hub_at());
    let elsewhere = Address::contract(9, 9);
    game.set_hub(elsewhere);
    assert_eq!(game.get_hub(), elsewhere);
    assert_eq!(game.get_admin(), bob());
    let mut escrow = Escrow::new(RecordingHub::new(true, true));
    assert_eq!(game.start_game(&mut escrow, 7, alice(), house(), 1, 1), Ok(()));
    assert!(matches!(
        escrow.hub().request(0),
        Some(HubRequest::StartGame { hub, .. }) if hub == elsewhere
    ));
}

#[test]
fn lifetime_is_kept_for_sessions_and_results_only() {
    let mut game = new_game();
    let mut escrow = Escrow::new(RecordingHub::new(true, true));
    assert_eq!(game.start_game(&mut escrow, 7, alice(), house(), 1, 1), Ok(()));
    assert_eq!(game.lifetime(DataKey::Admin), None);
    assert_eq!(game.lifetime(DataKey::GameHubAddress), None);
    assert_eq!(game.lifetime(DataKey::SessionCounter), None);
    assert_eq!(game.lifetime(DataKey::Leaderboard), None);
    assert_eq!(game.lifetime(DataKey::Session(bob())), None);
    assert_eq!(game.lifetime(DataKey::Session(alice())), Some(518_400));
}
