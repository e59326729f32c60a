use vstd::prelude::*;
use crate::address::Address;
use crate::error::Error;
use crate::hub::HubRequest;
use crate::leaderboard::{ascending, ranked, ranking_keeps_every_entry};
use crate::model::{wins, State};
use crate::records::{has_sense, sense_bit, ALL_SENSES, SCORE_CAP, SENSE_COUNT};
use crate::senses::marking_adds_one_sense;

verus! {

/// One sense as a player submits it.
pub struct Submission {
    pub sense_id: u32,
    pub maze_id: u32,
    pub points: u64,
    pub time_ms: u64,
    pub score: u64,
    pub proof_len: nat,
}

/// One operation on the game, with what the hub answered where it was asked.
pub enum Step {
    Start {
        session_id: u32,
        player1: Address,
        player2: Address,
        player1_points: i128,
        player2_points: i128,
        locked: bool,
    },
    SetCharacter { player: Address, character: u32 },
    Submit { player: Address, submission: Submission },
    Exit { player: Address, released: bool, timestamp: u64 },
    SetAdmin { new_admin: Address },
    SetHub { new_hub: Address },
}

impl State {
    /// Whether a submission would be accepted.
    pub open spec fn accepts(self, player: Address, s: Submission) -> bool {
        self.submit_refusal(
            player,
            s.sense_id,
            s.maze_id,
            s.points,
            s.time_ms,
            s.score,
            s.proof_len,
        ) is None
    }

    /// The state after a submission.
    pub open spec fn submit(self, player: Address, s: Submission) -> State {
        self.submit_state(player, s.sense_id, s.maze_id, s.points, s.time_ms, s.score, s.proof_len)
    }

    /// The state after one operation.
    pub open spec fn step(self, step: Step) -> State {
        match step {
            Step::Start {
                session_id,
                player1,
                player2,
                player1_points,
                player2_points,
                locked,
            } => self.start_state(
                session_id,
                player1,
                player2,
                player1_points,
                player2_points,
                locked,
            ),
            Step::SetCharacter { player, character } => self.character_state(player, character),
            Step::Submit { player, submission } => self.submit(player, submission),
            Step::Exit { player, released, timestamp } => self.exit_state(
                player,
                released,
                timestamp,
            ),
            Step::SetAdmin { new_admin } => State { admin: Some(new_admin), ..self },
            Step::SetHub { new_hub } => State { game_hub: Some(new_hub), ..self },
        }
    }

    /// The state after a series of operations, the first applied first.
    pub open spec fn after(self, steps: Seq<Step>) -> State
        decreases steps.len(),
    {
        if steps.len() == 0 {
            self
        } else {
            self.after(steps.drop_last()).step(steps.last())
        }
    }

    /// The state after a series of submissions by one player.
    pub open spec fn after_submissions(self, player: Address, series: Seq<Submission>) -> State
        decreases series.len(),
    {
        if series.len() == 0 {
            self
        } else {
            self.after_submissions(player, series.drop_last()).submit(player, series.last())
        }
    }

    /// Whether each submission of a series is accepted when its turn comes.
    pub open spec fn accepts_all(self, player: Address, series: Seq<Submission>) -> bool
        decreases series.len(),
    {
        series.len() == 0 || (self.accepts_all(player, series.drop_last())
            && self.after_submissions(player, series.drop_last()).accepts(player, series.last()))
    }
}

/// Where a player stands: without a session, in an open one, or with a
/// closed one behind them.
pub enum Phase {
    NoSession,
    Active,
    Closed,
}

/// Where a player stands in a state.
pub open spec fn phase_of(state: State, player: Address) -> Phase {
    if !state.sessions.contains_key(player) {
        Phase::NoSession
    } else if state.sessions[player].session.active {
        Phase::Active
    } else {
        Phase::Closed
    }
}

/// The bits of the senses that a series of submissions names, put together.
pub open spec fn bits_of(series: Seq<Submission>) -> u32
    decreases series.len(),
{
    if series.len() == 0 {
        0
    } else {
        bits_of(series.drop_last()) | sense_bit(series.last().sense_id)
    }
}

/// The scores that a series of submissions reports, added up.
pub open spec fn scores_of(series: Seq<Submission>) -> nat
    decreases series.len(),
{
    if series.len() == 0 {
        0
    } else {
        scores_of(series.drop_last()) + series.last().score as nat
    }
}

/// A sum as a total score holds it: at most the largest value.
pub open spec fn held(sum: nat) -> u64 {
    if sum > u64::MAX {
        u64::MAX
    } else {
        sum as u64
    }
}

proof fn or_regroups(a: u32, b: u32, c: u32)
    by (bit_vector)
    ensures
        (a | b) | c == a | (b | c),
        a | 0 == a,
{
}

proof fn bit_joins_bits(bits: u32, sense_id: u32, asked: u32)
    by (bit_vector)
    requires
        sense_id < 6,
        asked < 6,
    ensures
        ((bits | (1u32 << sense_id)) & (1u32 << asked) != 0) == (asked == sense_id || bits & (1u32
            << asked) != 0),
{
}

// ---- the game stays in good order ----
/// A start leaves a game in good order in good order.
pub proof fn start_keeps_order(
    pre: State,
    session_id: u32,
    player1: Address,
    player2: Address,
    player1_points: i128,
    player2_points: i128,
    locked: bool,
)
    requires
        pre.wf(),
    ensures
        pre.start_state(session_id, player1, player2, player1_points, player2_points, locked).wf(),
{
}

/// A choice of character leaves a game in good order in good order.
pub proof fn character_keeps_order(pre: State, player: Address, character: u32)
    requires
        pre.wf(),
    ensures
        pre.character_state(player, character).wf(),
{
}

/// A submission leaves a game in good order in good order.
pub proof fn submission_keeps_order(pre: State, player: Address, s: Submission)
    requires
        pre.wf(),
    ensures
        pre.submit(player, s).wf(),
{
    if pre.accepts(player, s) {
        marking_adds_one_sense(pre.sessions[player].session.completed_senses, s.sense_id);
    }
}

/// An exit leaves a game in good order in good order.
pub proof fn exit_keeps_order(pre: State, player: Address, released: bool, timestamp: u64)
    requires
        pre.wf(),
    ensures
        pre.exit_state(player, released, timestamp).wf(),
{
}

/// Whatever is done to a game in good order, in whatever order and
/// whatever the hub answers, it stays in good order. In particular every
/// kept result has a score that is exactly its points times its time, and
/// every entry of the leaderboard has a total score within the cap.
pub proof fn order_is_kept(pre: State, steps: Seq<Step>)
    requires
        pre.wf(),
    ensures
        pre.after(steps).wf(),
        forall|key: (Address, u32)| #[trigger]
            pre.after(steps).results.contains_key(key) ==> ({
                let result = pre.after(steps).results[key].result;
                result.score == result.points * result.time_ms
            }),
        forall|i: int|
            0 <= i < pre.after(steps).leaderboard.len() ==> (
            #[trigger] pre.after(steps).leaderboard[i]).total_score <= SCORE_CAP,
    decreases steps.len(),
{
    if steps.len() > 0 {
        order_is_kept(pre, steps.drop_last());
        let mid = pre.after(steps.drop_last());
        match steps.last() {
            Step::Start {
                session_id,
                player1,
                player2,
                player1_points,
                player2_points,
                locked,
            } => {
                start_keeps_order(
                    mid,
                    session_id,
                    player1,
                    player2,
                    player1_points,
                    player2_points,
                    locked,
                );
            },
            Step::SetCharacter { player, character } => {
                character_keeps_order(mid, player, character);
            },
            Step::Submit { player, submission } => {
                submission_keeps_order(mid, player, submission);
            },
            Step::Exit { player, released, timestamp } => {
                exit_keeps_order(mid, player, released, timestamp);
            },
            Step::SetAdmin { new_admin } => {},
            Step::SetHub { new_hub } => {},
        }
    }
}

// ---- senses ----
/// An accepted submission sets the bit of its sense, which was not set
/// before, and no other; and the same sense submitted again is refused as
/// already recorded.
pub proof fn submission_marks_its_sense_once(
    pre: State,
    player: Address,
    s: Submission,
    again: Submission,
)
    requires
        pre.wf(),
        pre.accepts(player, s),
        again.sense_id == s.sense_id,
    ensures
        !has_sense(pre.sessions[player].session.completed_senses, s.sense_id),
        pre.submit(player, s).sessions[player].session.completed_senses
            == pre.sessions[player].session.completed_senses | sense_bit(s.sense_id),
        pre.submit(player, s).sessions[player].session.senses()
            == pre.sessions[player].session.senses().insert(s.sense_id),
        !pre.submit(player, s).accepts(player, again),
        pre.submit(player, s).submit_result(
            player,
            again.sense_id,
            again.maze_id,
            again.points,
            again.time_ms,
            again.score,
            again.proof_len,
        ) == Err::<crate::events::SenseCompletedEvent, Error>(Error::AlreadyGuessed),
{
    marking_adds_one_sense(pre.sessions[player].session.completed_senses, s.sense_id);
    let after = pre.submit(player, s).sessions[player].session;
    assert(after.senses().contains(s.sense_id));
}

/// After a series of submissions that were all accepted, the bits recorded
/// in the session are those it had before together with the bit of each
/// submitted sense. No sense occurs twice in the series, and none that was
/// recorded before occurs in it at all.
pub proof fn senses_are_what_was_submitted(pre: State, player: Address, series: Seq<Submission>)
    requires
        pre.wf(),
        pre.sessions.contains_key(player),
        pre.accepts_all(player, series),
    ensures
        pre.after_submissions(player, series).wf(),
        pre.after_submissions(player, series).sessions.contains_key(player),
        pre.after_submissions(player, series).sessions[player].session.completed_senses
            == pre.sessions[player].session.completed_senses | bits_of(series),
        forall|i: int|
            0 <= i < series.len() ==> !has_sense(
                pre.sessions[player].session.completed_senses,
                (#[trigger] series[i]).sense_id,
            ),
        forall|i: int, j: int|
            0 <= i < j < series.len() ==> (#[trigger] series[i]).sense_id != (
            #[trigger] series[j]).sense_id,
        forall|i: int|
            0 <= i < series.len() ==> has_sense(
                pre.after_submissions(player, series).sessions[player].session.completed_senses,
                (#[trigger] series[i]).sense_id,
            ),
    decreases series.len(),
{
    let before = pre.sessions[player].session.completed_senses;
    if series.len() == 0 {
        or_regroups(before, 0, 0);
    } else {
        let front = series.drop_last();
        let last = series.last();
        senses_are_what_was_submitted(pre, player, front);
        let mid = pre.after_submissions(player, front);
        let mid_bits = mid.sessions[player].session.completed_senses;
        submission_keeps_order(mid, player, last);
        marking_adds_one_sense(mid_bits, last.sense_id);
        or_regroups(before, bits_of(front), sense_bit(last.sense_id));
        let end_bits = mid.submit(player, last).sessions[player].session.completed_senses;
        assert(end_bits == mid_bits | sense_bit(last.sense_id));
        assert(!has_sense(mid_bits, last.sense_id));
        assert forall|i: int| 0 <= i < series.len() implies !has_sense(
            before,
            (#[trigger] series[i]).sense_id,
        ) && has_sense(end_bits, series[i].sense_id) && (i < front.len() ==> series[i].sense_id
            != last.sense_id) by {
            let asked = series[i].sense_id;
            if i < front.len() {
                assert(series[i] == front[i]);
                assert(has_sense(mid_bits, asked));
                bit_joins_bits(mid_bits, last.sense_id, asked);
            } else {
                bit_joins_bits(mid_bits, last.sense_id, asked);
                if has_sense(before, asked) {
                    sense_kept(before, bits_of(front), asked);
                }
            }
        }
        assert forall|i: int, j: int| 0 <= i < j < series.len() implies (
        #[trigger] series[i]).sense_id != (#[trigger] series[j]).sense_id by {
            if j < front.len() {
                assert(series[i] == front[i] && series[j] == front[j]);
            }
        }
    }
}

proof fn sense_kept(before: u32, more: u32, asked: u32)
    by (bit_vector)
    requires
        asked < 6,
        before & (1u32 << asked) != 0,
    ensures
        (before | more) & (1u32 << asked) != 0,
{
}

/// After a series of submissions that were all accepted, the total score
/// is what it was before plus every submitted score, or the largest value
/// that it can hold if that is less.
pub proof fn total_is_the_sum_of_what_was_submitted(
    pre: State,
    player: Address,
    series: Seq<Submission>,
)
    requires
        pre.wf(),
        pre.sessions.contains_key(player),
        pre.accepts_all(player, series),
    ensures
        pre.after_submissions(player, series).sessions.contains_key(player),
        pre.after_submissions(player, series).sessions[player].session.total_score == held(
            pre.sessions[player].session.total_score as nat + scores_of(series),
        ),
    decreases series.len(),
{
    if series.len() > 0 {
        let front = series.drop_last();
        senses_are_what_was_submitted(pre, player, front);
        total_is_the_sum_of_what_was_submitted(pre, player, front);
    }
}

// ---- scores ----
/// A submission whose score is not its points times its time is refused as
/// failing verification or earlier, and changes nothing.
pub proof fn wrong_score_changes_nothing(pre: State, player: Address, s: Submission)
    requires
        s.score != s.points * s.time_ms,
    ensures
        !pre.accepts(player, s),
        pre.submit(player, s) == pre,
        pre.sessions.contains_key(player) && pre.sessions[player].session.active
            && s.sense_id < SENSE_COUNT && !has_sense(
            pre.sessions[player].session.completed_senses,
            s.sense_id,
        ) ==> pre.submit_result(
            player,
            s.sense_id,
            s.maze_id,
            s.points,
            s.time_ms,
            s.score,
            s.proof_len,
        ) == Err::<crate::events::SenseCompletedEvent, Error>(Error::VerificationFailed),
{
}

/// Any refused submission changes nothing; an accepted one keeps a result
/// whose score is exactly its points times its time.
pub proof fn submission_is_all_or_nothing(pre: State, player: Address, s: Submission)
    ensures
        !pre.accepts(player, s) ==> pre.submit(player, s) == pre,
        pre.accepts(player, s) ==> pre.submit(player, s).result_of(player, s.sense_id) == Some(
            crate::records::SenseResult {
                sense_id: s.sense_id,
                points: s.points,
                time_ms: s.time_ms,
                score: s.score,
            },
        ) && s.score == s.points * s.time_ms,
{
}

/// While a player's session stands, its total score never goes down: no
/// operation but a successful new start by that player makes it less.
pub proof fn total_never_goes_down(pre: State, player: Address, step: Step)
    requires
        pre.wf(),
        pre.sessions.contains_key(player),
        !(step matches Step::Start { player1, .. } && player1 == player),
    ensures
        pre.step(step).sessions.contains_key(player),
        pre.step(step).sessions[player].session.total_score
            >= pre.sessions[player].session.total_score,
        pre.step(step).sessions[player].session.session_id
            == pre.sessions[player].session.session_id,
{
}

/// A closed session is history: until its player starts anew, nothing
/// changes it.
pub proof fn closed_session_is_fixed(pre: State, player: Address, step: Step)
    requires
        pre.wf(),
        pre.sessions.contains_key(player),
        !pre.sessions[player].session.active,
        !(step matches Step::Start { player1, .. } && player1 == player),
    ensures
        pre.step(step).sessions.contains_key(player),
        pre.step(step).sessions[player] == pre.sessions[player],
{
}

/// A session is never taken away, and no operation of one player changes
/// the session of another.
pub proof fn sessions_of_others_are_untouched(pre: State, player: Address, step: Step)
    requires
        pre.wf(),
        pre.sessions.contains_key(player),
        match step {
            Step::Start { player1, .. } => player1 != player,
            Step::SetCharacter { player: actor, .. } => actor != player,
            Step::Submit { player: actor, .. } => actor != player,
            Step::Exit { player: actor, .. } => actor != player,
            _ => true,
        },
    ensures
        pre.step(step).sessions.contains_key(player),
        pre.step(step).sessions[player] == pre.sessions[player],
{
}

// ---- the course of a session ----
/// A player's standing changes in two ways only. A start of theirs that
/// succeeds puts them in an open session, wherever they stood. An exit of
/// theirs from an open session closes it, whatever the hub answers. Nothing
/// else moves them, and nothing ever takes them back to having no session.
pub proof fn sessions_run_their_course(pre: State, player: Address, step: Step)
    requires
        pre.wf(),
    ensures
        phase_of(pre.step(step), player) == match step {
            Step::Start { player1, player2, locked, .. } => if player1 == player
                && pre.start_result(player1, player2, locked) is Ok {
                Phase::Active
            } else {
                phase_of(pre, player)
            },
            Step::Exit { player: leaving, .. } => if leaving == player && phase_of(pre, player)
                is Active {
                Phase::Closed
            } else {
                phase_of(pre, player)
            },
            _ => phase_of(pre, player),
        },
{
}

// ---- leaving ----
/// Once a session has been left, it cannot be left again: whatever the hub
/// answered the first time, a second exit is refused because the session
/// is not active, asks nothing of the hub and changes nothing, the
/// leaderboard included.
pub proof fn exit_happens_once(
    pre: State,
    player: Address,
    released: bool,
    timestamp: u64,
    released_again: bool,
    later: u64,
)
    requires
        pre.wf(),
        pre.session_refusal(player) is None,
    ensures
        ({
            let post = pre.exit_state(player, released, timestamp);
            &&& post.session_refusal(player) == Some(Error::SessionNotActive)
            &&& post.exit_result(player, released_again) == Err::<
                (bool, u64, crate::model::ExitNotice),
                Error,
            >(Error::SessionNotActive)
            &&& post.exit_requests(player) == Seq::<HubRequest>::empty()
            &&& post.exit_state(player, released_again, later) == post
        }),
{
}

/// An exit that is not refused asks the hub once, while a hub is known: to
/// release the stakes of this session, to the player exactly if the
/// session wins. It asks nothing else.
pub proof fn exit_settles_once(pre: State, player: Address)
    requires
        pre.session_refusal(player) is None,
        pre.game_hub is Some,
    ensures
        pre.exit_requests(player) == seq![
            HubRequest::EndGame {
                hub: pre.game_hub->Some_0,
                session_id: pre.sessions[player].session.session_id,
                player1_won: pre.sessions[player].session.completed_senses == ALL_SENSES
                    && pre.sessions[player].session.total_score <= SCORE_CAP,
            },
        ],
{
}

/// A refused exit asks nothing of the hub and changes nothing.
pub proof fn refused_exit_is_idle(pre: State, player: Address, released: bool, timestamp: u64)
    requires
        pre.session_refusal(player) is Some,
    ensures
        pre.exit_requests(player) == Seq::<HubRequest>::empty(),
        pre.exit_state(player, released, timestamp) == pre,
        pre.exit_result(player, released) is Err,
{
}

// ---- the leaderboard ----
/// An exit adds at most one entry to the leaderboard, and only for a
/// session with all six senses recorded and a total within the cap, which
/// the hub has settled in the player's favour.
pub proof fn only_winners_are_entered(pre: State, player: Address, released: bool, timestamp: u64)
    ensures
        ({
            let post = pre.exit_state(player, released, timestamp);
            let won = pre.exit_result(player, released) matches Ok(outcome) && outcome.0;
            &&& won ==> pre.sessions[player].session.completed_senses == ALL_SENSES
                && pre.sessions[player].session.total_score <= SCORE_CAP && post.leaderboard
                == pre.leaderboard.push(
                crate::records::LeaderboardEntry {
                    player,
                    character: pre.sessions[player].session.character,
                    total_score: pre.sessions[player].session.total_score,
                    timestamp,
                },
            )
            &&& !won ==> post.leaderboard == pre.leaderboard
        }),
{
}

/// Nothing but an exit touches the leaderboard.
pub proof fn other_steps_leave_the_leaderboard(pre: State, step: Step)
    requires
        !(step is Exit),
    ensures
        pre.step(step).leaderboard == pre.leaderboard,
{
}

/// The leaderboard only grows: whatever is done, the entries it held are
/// still there, in the same places.
pub proof fn leaderboard_only_grows(pre: State, steps: Seq<Step>)
    ensures
        pre.leaderboard.is_prefix_of(pre.after(steps).leaderboard),
    decreases steps.len(),
{
    if steps.len() > 0 {
        leaderboard_only_grows(pre, steps.drop_last());
        let mid = pre.after(steps.drop_last());
        let end = mid.step(steps.last());
        assert(mid.leaderboard.is_prefix_of(end.leaderboard));
    }
}

/// However the entries came to be recorded, read in rank they are in
/// non-decreasing order of total score, and they are the same entries.
pub proof fn leaderboard_reads_ascending(state: State)
    ensures
        ascending(ranked(state.leaderboard)),
        ranked(state.leaderboard).to_multiset() == state.leaderboard.to_multiset(),
{
    ranking_keeps_every_entry(state.leaderboard);
}

// ---- starting over ----
/// Starting while a session is still open asks the hub exactly twice:
/// first to release the open session to the house, under its own id, then
/// to lock the stakes of the new one. Whether the start succeeds hangs on
/// the answer to the second request alone; where the hub locks, the new
/// session is in place whatever became of the first request.
pub proof fn start_gives_up_the_open_session(
    pre: State,
    session_id: u32,
    player1: Address,
    player2: Address,
    player1_points: i128,
    player2_points: i128,
)
    requires
        pre.is_active(player1),
        player1 != player2,
        pre.game_hub is Some,
    ensures
        pre.start_requests(session_id, player1, player2, player1_points, player2_points) == seq![
            HubRequest::EndGame {
                hub: pre.game_hub->Some_0,
                session_id: pre.sessions[player1].session.session_id,
                player1_won: false,
            },
            HubRequest::StartGame {
                hub: pre.game_hub->Some_0,
                game_id: pre.contract,
                session_id,
                player1,
                player2,
                player1_points,
                player2_points,
            },
        ],
        pre.start_result(player1, player2, true) == Ok::<(), Error>(()),
        pre.start_state(
            session_id,
            player1,
            player2,
            player1_points,
            player2_points,
            true,
        ).session_of(player1) == Some(
            crate::model::fresh_session(
                session_id,
                player1,
                player2,
                player1_points,
                player2_points,
            ),
        ),
{
}

/// A player has at most one session, and a successful start makes it the
/// new one: open, with no sense recorded and no score.
pub proof fn start_opens_a_clean_session(
    pre: State,
    session_id: u32,
    player1: Address,
    player2: Address,
    player1_points: i128,
    player2_points: i128,
)
    requires
        pre.start_refusal(player1, player2) is None,
    ensures
        ({
            let post = pre.start_state(
                session_id,
                player1,
                player2,
                player1_points,
                player2_points,
                true,
            );
            &&& post.is_active(player1)
            &&& post.sessions[player1].session.completed_senses == 0
            &&& post.sessions[player1].session.senses() == Set::<u32>::empty()
            &&& post.sessions[player1].session.total_score == 0
            &&& post.sessions[player1].session.character == 0
            &&& forall|other: Address|
                other != player1 ==> post.session_of(other) == pre.session_of(other)
        }),
{
    crate::senses::nothing_recorded_at_first();
}

/// A session wins exactly when the set of its recorded senses is all six
/// and its total is within the cap.
pub proof fn winning_means_every_sense(pre: State, player: Address)
    requires
        pre.wf(),
        pre.sessions.contains_key(player),
    ensures
        wins(pre.sessions[player].session) == (pre.sessions[player].session.senses()
            == crate::senses::every_sense() && pre.sessions[player].session.total_score
            <= SCORE_CAP),
{
    crate::senses::full_set_holds_every_sense(pre.sessions[player].session.completed_senses);
}

} // verus!
