//! MatchEngine: point application, win finalization and its exact undo,
//! first-server selection, abandonment, and match-view assembly.
//!
//! Every mutating operation is a pure state transition on the match
//! aggregate; the counter updates a finalize (or its undo) owes the record
//! store are returned to the caller as explicit [`CounterDelta`] commands,
//! to be persisted atomically together with the match row. An operation
//! that fails leaves the match untouched.

use vstd::prelude::*;

use crate::models::{
    CounterDelta, DeltaView, EventType, EventView, Match, MatchError, MatchEvent, MatchRules,
    MatchStatus, MatchView, PopulatedMatch, RulesView, ScoreSnapshot, Side, User, GameMode,
    delta_views, event_views, opt_int,
};
use crate::win::{check_win_condition, winner_of};

verus! {

/// The four seat ids of a match: the part of the state that decides side
/// membership.
pub struct SeatsView {
    pub player1_id: int,
    pub player2_id: int,
    pub player3_id: Option<int>,
    pub player4_id: Option<int>,
}

/// The seats of a match view.
pub open spec fn seats(m: MatchView) -> SeatsView {
    SeatsView {
        player1_id: m.player1_id,
        player2_id: m.player2_id,
        player3_id: m.player3_id,
        player4_id: m.player4_id,
    }
}

/// The side a participant is seated on. Side A (primary seat `player1`,
/// partner `player3`) is checked before side B, so every seated participant
/// belongs to exactly one side.
pub open spec fn side_of(st: SeatsView, pid: int) -> Option<Side> {
    if pid == st.player1_id || st.player3_id == Some(pid) {
        Some(Side::A)
    } else if pid == st.player2_id || st.player4_id == Some(pid) {
        Some(Side::B)
    } else {
        None
    }
}

/// The other side.
pub open spec fn opposite(s: Side) -> Side {
    match s {
        Side::A => Side::B,
        Side::B => Side::A,
    }
}

/// The primary seat ("captain") of a side: the seat recorded as the match's
/// winner or loser of record.
pub open spec fn captain_of(m: MatchView, s: Side) -> int {
    match s {
        Side::A => m.player1_id,
        Side::B => m.player2_id,
    }
}

/// The optional partner seat of a side.
pub open spec fn partner_of(m: MatchView, s: Side) -> Option<int> {
    match s {
        Side::A => m.player3_id,
        Side::B => m.player4_id,
    }
}

/// How many of `events` were scored by side `s`.
pub open spec fn count_side(st: SeatsView, events: Seq<EventView>, s: Side) -> int
    decreases events.len(),
{
    if events.len() == 0 {
        0
    } else {
        count_side(st, events.drop_last(), s) + (if side_of(
            st,
            events.last().participant_id,
        ) == Some(s) {
            1int
        } else {
            0int
        })
    }
}

/// Well-formedness of one log entry: a point scored by a seated
/// participant, whose embedded snapshot equals the cumulative per-side
/// tally of the log up to and including itself.
pub open spec fn event_wf(m: MatchView, e: EventView, i: int) -> bool {
    &&& e.event_type == EventType::Point
    &&& side_of(seats(m), e.participant_id) is Some
    &&& e.p1 == count_side(seats(m), m.events.take(i + 1), Side::A)
    &&& e.p2 == count_side(seats(m), m.events.take(i + 1), Side::B)
}

/// Well-formedness of a match aggregate: each side's score equals its tally
/// over the event log, every log entry is well-formed, a winner is recorded
/// iff the match is finished (and then it is one of the two primary seats),
/// the end timestamp is set iff the match is finished, and a first server,
/// once set, is one of the four seats.
pub open spec fn match_wf(m: MatchView) -> bool {
    &&& m.score_p1 == count_side(seats(m), m.events, Side::A)
    &&& m.score_p2 == count_side(seats(m), m.events, Side::B)
    &&& forall|i: int| 0 <= i < m.events.len() ==> event_wf(m, #[trigger] m.events[i], i)
    &&& (m.status == MatchStatus::Finished <==> m.winner_id is Some)
    &&& (m.status == MatchStatus::Finished <==> m.end_time_ms is Some)
    &&& (m.winner_id is Some ==> m.winner_id == Some(m.player1_id) || m.winner_id == Some(
        m.player2_id,
    ))
    &&& (m.rules.first_server_id is Some ==> side_of(
        seats(m),
        m.rules.first_server_id->0,
    ) is Some)
}

/// Why a point application is rejected, if it is: the match must be in
/// progress and the acting participant must be seated.
pub open spec fn apply_point_error(m: MatchView, pid: int) -> Option<MatchError> {
    if m.status != MatchStatus::InProgress {
        Some(MatchError::InvalidState)
    } else if side_of(seats(m), pid) is None {
        Some(MatchError::NotAuthorizedParticipant)
    } else {
        None
    }
}

/// Side A's score after the acting side scored one point.
pub open spec fn bumped_p1(m: MatchView, side: Side) -> int {
    if side == Side::A {
        m.score_p1 + 1
    } else {
        m.score_p1
    }
}

/// Side B's score after the acting side scored one point.
pub open spec fn bumped_p2(m: MatchView, side: Side) -> int {
    if side == Side::B {
        m.score_p2 + 1
    } else {
        m.score_p2
    }
}

/// The event a point application appends: the acting participant, the
/// wall-clock timestamp, and the post-increment score snapshot.
pub open spec fn point_event(m: MatchView, pid: int, now: int) -> EventView {
    let side = side_of(seats(m), pid)->0;
    EventView {
        event_type: EventType::Point,
        participant_id: pid,
        timestamp: now,
        p1: bumped_p1(m, side),
        p2: bumped_p2(m, side),
    }
}

/// The match state after a successful point application: the acting side's
/// score is incremented, the event is appended, and if the new scores
/// decide a winner the match is finalized (finished, end time set, winner
/// recorded as the winning side's primary seat).
pub open spec fn apply_point_state(
    m: MatchView,
    pid: int,
    now: int,
    points_to_win: int,
    deuce: bool,
) -> MatchView
    recommends
        apply_point_error(m, pid) is None,
{
    let side = side_of(seats(m), pid)->0;
    let sp1: int = bumped_p1(m, side);
    let sp2: int = bumped_p2(m, side);
    let events2 = m.events.push(point_event(m, pid, now));
    match winner_of(sp1, sp2, points_to_win, deuce) {
        Some(ws) => MatchView {
            score_p1: sp1,
            score_p2: sp2,
            events: events2,
            status: MatchStatus::Finished,
            end_time_ms: Some(now),
            winner_id: Some(captain_of(m, ws)),
            ..m
        },
        None => MatchView { score_p1: sp1, score_p2: sp2, events: events2, ..m },
    }
}

/// The four counter updates a finalize owes the record store: winning
/// primary seat and (if present) partner each gain a win and a played
/// match; losing primary seat and (if present) partner each gain a played
/// match.
pub open spec fn finalize_deltas(m: MatchView, ws: Side) -> Seq<DeltaView> {
    let winner_partner: Seq<DeltaView> = match partner_of(m, ws) {
        Some(p) => seq![DeltaView { player_id: p, wins_delta: 1, matches_played_delta: 1 }],
        None => Seq::empty(),
    };
    let loser_partner: Seq<DeltaView> = match partner_of(m, opposite(ws)) {
        Some(p) => seq![DeltaView { player_id: p, wins_delta: 0, matches_played_delta: 1 }],
        None => Seq::empty(),
    };
    seq![
        DeltaView { player_id: captain_of(m, ws), wins_delta: 1, matches_played_delta: 1 },
    ] + winner_partner + seq![
        DeltaView {
            player_id: captain_of(m, opposite(ws)),
            wins_delta: 0,
            matches_played_delta: 1,
        },
    ] + loser_partner
}

/// The counter updates a successful point application issues: the finalize
/// updates if the point decided the match, none otherwise.
pub open spec fn apply_point_deltas(
    m: MatchView,
    pid: int,
    now: int,
    points_to_win: int,
    deuce: bool,
) -> Seq<DeltaView> {
    let side = side_of(seats(m), pid)->0;
    match winner_of(bumped_p1(m, side), bumped_p2(m, side), points_to_win, deuce) {
        Some(ws) => finalize_deltas(m, ws),
        None => Seq::empty(),
    }
}

/// Why an undo is rejected, if it is: an abandoned match is terminal, and
/// an empty log has nothing to undo.
pub open spec fn undo_error(m: MatchView) -> Option<MatchError> {
    if m.status == MatchStatus::Abandoned {
        Some(MatchError::InvalidState)
    } else if m.events.len() == 0 {
        Some(MatchError::InvalidState)
    } else {
        None
    }
}

/// Decrement floored at zero (defensive; a consistent log never hits the
/// floor).
pub open spec fn dec_floor(x: int) -> int {
    if x > 0 {
        x - 1
    } else {
        0
    }
}

/// The winning side of record of a finished match: side A iff the recorded
/// winner is side A's primary seat.
pub open spec fn winner_side(m: MatchView) -> Side
    recommends
        m.winner_id is Some,
{
    if m.winner_id == Some(m.player1_id) {
        Side::A
    } else {
        Side::B
    }
}

/// The match state after a successful undo: the most recent event is
/// popped, the side that scored it loses one point (floored at zero), and
/// if the match was finished the finalize is reversed — back in progress,
/// end time cleared, winner cleared.
pub open spec fn undo_state(m: MatchView) -> MatchView
    recommends
        undo_error(m) is None,
{
    let e = m.events.last();
    let events2 = m.events.drop_last();
    let sp1: int = if side_of(seats(m), e.participant_id) == Some(Side::A) {
        dec_floor(m.score_p1)
    } else {
        m.score_p1
    };
    let sp2: int = if side_of(seats(m), e.participant_id) == Some(Side::B) {
        dec_floor(m.score_p2)
    } else {
        m.score_p2
    };
    if m.status == MatchStatus::Finished {
        MatchView {
            score_p1: sp1,
            score_p2: sp2,
            events: events2,
            status: MatchStatus::InProgress,
            end_time_ms: None,
            winner_id: None,
            ..m
        }
    } else {
        MatchView { score_p1: sp1, score_p2: sp2, events: events2, ..m }
    }
}

/// The exact inverses of a sequence of counter updates.
pub open spec fn neg_deltas(ds: Seq<DeltaView>) -> Seq<DeltaView> {
    ds.map_values(
        |d: DeltaView|
            DeltaView {
                player_id: d.player_id,
                wins_delta: -d.wins_delta,
                matches_played_delta: -d.matches_played_delta,
            },
    )
}

/// The counter updates a successful undo issues: the exact inverses of the
/// finalize updates if the match was finished, none otherwise.
pub open spec fn undo_deltas(m: MatchView) -> Seq<DeltaView> {
    if m.status == MatchStatus::Finished {
        neg_deltas(finalize_deltas(m, winner_side(m)))
    } else {
        Seq::empty()
    }
}

/// A per-side tally is never negative.
pub proof fn lemma_count_side_nonneg(st: SeatsView, events: Seq<EventView>, s: Side)
    ensures
        count_side(st, events, s) >= 0,
    decreases events.len(),
{
    if events.len() > 0 {
        lemma_count_side_nonneg(st, events.drop_last(), s);
    }
}

/// Mapping the event view over a pushed element distributes over the push.
pub proof fn lemma_event_views_push(s: Seq<MatchEvent>, e: MatchEvent)
    ensures
        event_views(s.push(e)) == event_views(s).push(e@),
{
    assert(event_views(s.push(e)) =~= event_views(s).push(e@));
}

/// Mapping the event view over a popped sequence drops the last image.
pub proof fn lemma_event_views_drop_last(s: Seq<MatchEvent>)
    requires
        s.len() > 0,
    ensures
        event_views(s.subrange(0, s.len() - 1)) == event_views(s).drop_last(),
{
    assert(event_views(s.subrange(0, s.len() - 1)) =~= event_views(s).drop_last());
}

/// A successful point application preserves well-formedness, and the state
/// it produces always has an event to undo.
pub proof fn lemma_apply_point_state_wf(
    m: MatchView,
    pid: int,
    now: int,
    points_to_win: int,
    deuce: bool,
)
    requires
        match_wf(m),
        apply_point_error(m, pid) is None,
    ensures
        match_wf(apply_point_state(m, pid, now, points_to_win, deuce)),
        undo_error(apply_point_state(m, pid, now, points_to_win, deuce)) is None,
{
    let m2 = apply_point_state(m, pid, now, points_to_win, deuce);
    let ev = point_event(m, pid, now);
    let st = seats(m);
    assert(seats(m2) == st);
    assert(m2.events == m.events.push(ev));
    assert(m.events.push(ev).drop_last() =~= m.events);
    assert(m.events.push(ev).last() == ev);
    assert forall|s: Side| true implies count_side(st, m2.events, s) == count_side(
        st,
        m.events,
        s,
    ) + (if side_of(st, pid) == Some(s) {
        1int
    } else {
        0int
    }) by {
        assert(count_side(st, m2.events, s) == count_side(st, m2.events.drop_last(), s) + (
        if side_of(st, m2.events.last().participant_id) == Some(s) {
            1int
        } else {
            0int
        }));
    }
    assert forall|i: int| 0 <= i < m2.events.len() implies event_wf(m2, #[trigger] m2.events[i], i) by {
        if i < m.events.len() {
            assert(event_wf(m, m.events[i], i));
            assert(m2.events[i] == m.events[i]);
            assert(m2.events.take(i + 1) =~= m.events.take(i + 1));
        } else {
            assert(m2.events[i] == ev);
            assert(m2.events.take(i + 1) =~= m2.events);
        }
    }
}

/// A successful undo preserves well-formedness.
pub proof fn lemma_undo_state_wf(m: MatchView)
    requires
        match_wf(m),
        undo_error(m) is None,
    ensures
        match_wf(undo_state(m)),
{
    let m2 = undo_state(m);
    let st = seats(m);
    let e = m.events.last();
    let n = m.events.len() as int;
    assert(seats(m2) == st);
    assert(event_wf(m, m.events[n - 1], n - 1));
    let side = side_of(st, e.participant_id)->0;
    assert(m2.events == m.events.drop_last());
    lemma_count_side_nonneg(st, m2.events, Side::A);
    lemma_count_side_nonneg(st, m2.events, Side::B);
    assert(count_side(st, m.events, side) == count_side(st, m2.events, side) + 1);
    assert forall|i: int| 0 <= i < m2.events.len() implies event_wf(m2, #[trigger] m2.events[i], i) by {
        assert(event_wf(m, m.events[i], i));
        assert(m2.events[i] == m.events[i]);
        assert(m2.events.take(i + 1) =~= m.events.take(i + 1));
    }
}

/// Whether an optional seat is held by the given participant.
fn seat_matches(seat: Option<i64>, pid: i64) -> (b: bool)
    ensures
        b == (opt_int(seat) == Some(pid as int)),
{
    match seat {
        Some(x) => x == pid,
        None => false,
    }
}

/// Decides well-formedness of a match aggregate at run time: replays the
/// event log and checks every invariant the engine relies on. Lets a
/// caller validate state read from an untrusted store before handing it to
/// the mutating operations.
#[verifier::loop_isolation(false)]
pub fn check_match_wf(m: &Match) -> (ok: bool)
    ensures
        ok == match_wf(m@),
{
    let mut cnt_a: u64 = 0;
    let mut cnt_b: u64 = 0;
    let mut i: usize = 0;
    while i < m.events.len()
        invariant
            i <= m.events.len(),
            cnt_a == count_side(seats(m@), m@.events.take(i as int), Side::A),
            cnt_b == count_side(seats(m@), m@.events.take(i as int), Side::B),
            cnt_a + cnt_b <= i,
            forall|q: int| 0 <= q < i ==> event_wf(m@, #[trigger] m@.events[q], q),
        decreases m.events.len() - i,
    {
        let e = m.events[i];
        proof {
            assert(m@.events.take(i + 1).drop_last() =~= m@.events.take(i as int));
            assert(m@.events.take(i + 1).last() == m@.events[i as int]);
        }
        let is_a = m.player1_id == e.participant_id || seat_matches(m.player3_id, e.participant_id);
        let is_b = m.player2_id == e.participant_id || seat_matches(m.player4_id, e.participant_id);
        if !is_a && !is_b {
            proof {
                assert(!event_wf(m@, m@.events[i as int], i as int));
            }
            return false;
        }
        if is_a {
            cnt_a = cnt_a + 1;
        } else {
            cnt_b = cnt_b + 1;
        }
        if !(e.score_snapshot.p1 >= 0 && e.score_snapshot.p2 >= 0 && e.score_snapshot.p1 as u64
            == cnt_a && e.score_snapshot.p2 as u64 == cnt_b) {
            proof {
                assert(!event_wf(m@, m@.events[i as int], i as int));
            }
            return false;
        }
        i = i + 1;
    }
    proof {
        assert(m@.events.take(m@.events.len() as int) =~= m@.events);
    }
    if !(m.score_p1 >= 0 && m.score_p2 >= 0 && m.score_p1 as u64 == cnt_a && m.score_p2 as u64
        == cnt_b) {
        return false;
    }
    let status_ok: bool = match m.status {
        MatchStatus::Finished => match (m.winner_id, m.end_time_ms) {
            (Some(w), Some(_)) => w == m.player1_id || w == m.player2_id,
            _ => false,
        },
        _ => m.winner_id.is_none() && m.end_time_ms.is_none(),
    };
    if !status_ok {
        return false;
    }
    match m.match_rules.first_server_id {
        Some(f) => {
            m.player1_id == f || seat_matches(m.player3_id, f) || m.player2_id == f
                || seat_matches(m.player4_id, f)
        },
        None => true,
    }
}

/// Applies one point scored by `participant_id` to the match, against the
/// given mode's rules, at wall-clock time `now_ms`.
///
/// On success the acting side's score is incremented by exactly one, the
/// event is appended to the log, and — if the new scores decide a winner —
/// the match is finalized and the four counter updates owed to the record
/// store are returned. On failure the match is left exactly as it was.
pub fn apply_point(m: &mut Match, game_mode: &GameMode, participant_id: i64, now_ms: i64) -> (result:
    Result<Vec<CounterDelta>, MatchError>)
    requires
        match_wf(old(m)@),
        game_mode.id == old(m).game_mode_id,
        old(m).score_p1 < i64::MAX,
        old(m).score_p2 < i64::MAX,
    ensures
        match result {
            Ok(deltas) => {
                &&& apply_point_error(old(m)@, participant_id as int) is None
                &&& final(m)@ == apply_point_state(
                    old(m)@,
                    participant_id as int,
                    now_ms as int,
                    game_mode.points_to_win as int,
                    game_mode.is_deuce_enabled,
                )
                &&& delta_views(deltas@) == apply_point_deltas(
                    old(m)@,
                    participant_id as int,
                    now_ms as int,
                    game_mode.points_to_win as int,
                    game_mode.is_deuce_enabled,
                )
                &&& match_wf(final(m)@)
            },
            Err(e) => {
                &&& Some(e) == apply_point_error(old(m)@, participant_id as int)
                &&& *final(m) == *old(m)
            },
        },
{
    if !(m.status == MatchStatus::InProgress) {
        return Err(MatchError::InvalidState);
    }
    let is_p1_side = m.player1_id == participant_id || seat_matches(m.player3_id, participant_id);
    let is_p2_side = m.player2_id == participant_id || seat_matches(m.player4_id, participant_id);
    if !is_p1_side && !is_p2_side {
        return Err(MatchError::NotAuthorizedParticipant);
    }
    proof {
        lemma_count_side_nonneg(seats(old(m)@), old(m)@.events, Side::A);
        lemma_count_side_nonneg(seats(old(m)@), old(m)@.events, Side::B);
    }
    if is_p1_side {
        m.score_p1 = m.score_p1 + 1;
    } else {
        m.score_p2 = m.score_p2 + 1;
    }
    let ev = MatchEvent {
        event_type: EventType::Point,
        participant_id,
        timestamp: now_ms,
        score_snapshot: ScoreSnapshot { p1: m.score_p1, p2: m.score_p2 },
    };
    m.events.push(ev);
    proof {
        lemma_event_views_push(old(m).events@, ev);
    }
    let winner = check_win_condition(
        m.score_p1,
        m.score_p2,
        game_mode.points_to_win,
        game_mode.is_deuce_enabled,
    );
    let mut deltas: Vec<CounterDelta> = Vec::new();
    match winner {
        Some(ws) => {
            m.status = MatchStatus::Finished;
            m.end_time_ms = Some(now_ms);
            let winner_captain: i64 = if ws == Side::A {
                m.player1_id
            } else {
                m.player2_id
            };
            m.winner_id = Some(winner_captain);
            deltas.push(
                CounterDelta { player_id: winner_captain, wins_delta: 1, matches_played_delta: 1 },
            );
            let winner_partner: Option<i64> = if ws == Side::A {
                m.player3_id
            } else {
                m.player4_id
            };
            if let Some(p) = winner_partner {
                deltas.push(CounterDelta { player_id: p, wins_delta: 1, matches_played_delta: 1 });
            }
            let loser_captain: i64 = if ws == Side::A {
                m.player2_id
            } else {
                m.player1_id
            };
            deltas.push(
                CounterDelta { player_id: loser_captain, wins_delta: 0, matches_played_delta: 1 },
            );
            let loser_partner: Option<i64> = if ws == Side::A {
                m.player4_id
            } else {
                m.player3_id
            };
            if let Some(p) = loser_partner {
                deltas.push(CounterDelta { player_id: p, wins_delta: 0, matches_played_delta: 1 });
            }
        },
        None => {},
    }
    proof {
        let mv = old(m)@;
        let pid = participant_id as int;
        let t = game_mode.points_to_win as int;
        let deuce = game_mode.is_deuce_enabled;
        assert(m@ =~= apply_point_state(mv, pid, now_ms as int, t, deuce));
        assert(delta_views(deltas@) =~= apply_point_deltas(mv, pid, now_ms as int, t, deuce));
        lemma_apply_point_state_wf(mv, pid, now_ms as int, t, deuce);
    }
    Ok(deltas)
}

/// Undoes the single most recent event of the match.
///
/// On success the event is popped from the log and the side that scored it
/// loses that point; if the match was finished, the finalize is reversed —
/// status back to in progress, end time and winner cleared — and the exact
/// inverses of the finalize counter updates are returned. On failure
/// (abandoned match, or empty log) the match is left exactly as it was.
pub fn undo_last(m: &mut Match) -> (result: Result<Vec<CounterDelta>, MatchError>)
    requires
        match_wf(old(m)@),
    ensures
        match result {
            Ok(deltas) => {
                &&& undo_error(old(m)@) is None
                &&& final(m)@ == undo_state(old(m)@)
                &&& delta_views(deltas@) == undo_deltas(old(m)@)
                &&& match_wf(final(m)@)
            },
            Err(e) => {
                &&& Some(e) == undo_error(old(m)@)
                &&& *final(m) == *old(m)
            },
        },
{
    if m.status == MatchStatus::Abandoned {
        return Err(MatchError::InvalidState);
    }
    if m.events.len() == 0 {
        return Err(MatchError::InvalidState);
    }
    proof {
        let n = old(m)@.events.len() as int;
        assert(event_wf(old(m)@, old(m)@.events[n - 1], n - 1));
        lemma_event_views_drop_last(old(m).events@);
        lemma_count_side_nonneg(seats(old(m)@), old(m)@.events.drop_last(), Side::A);
        lemma_count_side_nonneg(seats(old(m)@), old(m)@.events.drop_last(), Side::B);
    }
    let last_event = match m.events.pop() {
        Some(e) => e,
        None => {
            return Err(MatchError::InvalidState);
        },
    };
    let is_p1_side = m.player1_id == last_event.participant_id || seat_matches(
        m.player3_id,
        last_event.participant_id,
    );
    let is_p2_side = m.player2_id == last_event.participant_id || seat_matches(
        m.player4_id,
        last_event.participant_id,
    );
    if is_p1_side {
        m.score_p1 = if m.score_p1 > 0 {
            m.score_p1 - 1
        } else {
            0
        };
    } else if is_p2_side {
        m.score_p2 = if m.score_p2 > 0 {
            m.score_p2 - 1
        } else {
            0
        };
    }
    let mut deltas: Vec<CounterDelta> = Vec::new();
    if m.status == MatchStatus::Finished {
        m.status = MatchStatus::InProgress;
        m.end_time_ms = None;
        match m.winner_id {
            Some(winner_captain) => {
                let winner_is_a = winner_captain == m.player1_id;
                deltas.push(
                    CounterDelta {
                        player_id: winner_captain,
                        wins_delta: -1,
                        matches_played_delta: -1,
                    },
                );
                let winner_partner: Option<i64> = if winner_is_a {
                    m.player3_id
                } else {
                    m.player4_id
                };
                if let Some(p) = winner_partner {
                    deltas.push(
                        CounterDelta { player_id: p, wins_delta: -1, matches_played_delta: -1 },
                    );
                }
                let loser_captain: i64 = if winner_is_a {
                    m.player2_id
                } else {
                    m.player1_id
                };
                deltas.push(
                    CounterDelta {
                        player_id: loser_captain,
                        wins_delta: 0,
                        matches_played_delta: -1,
                    },
                );
                let loser_partner: Option<i64> = if winner_is_a {
                    m.player4_id
                } else {
                    m.player3_id
                };
                if let Some(p) = loser_partner {
                    deltas.push(
                        CounterDelta { player_id: p, wins_delta: 0, matches_played_delta: -1 },
                    );
                }
            },
            None => {},
        }
        m.winner_id = None;
    }
    proof {
        assert(m@ =~= undo_state(old(m)@));
        assert(delta_views(deltas@) =~= undo_deltas(old(m)@));
        lemma_undo_state_wf(old(m)@);
    }
    Ok(deltas)
}

/// Records the given participant as the match's first server. A pure
/// metadata update on the match rules: no score or status effect. Any of
/// the four seat ids is accepted; any other id is rejected.
pub fn set_first_server(m: &mut Match, participant_id: i64) -> (result: Result<(), MatchError>)
    requires
        match_wf(old(m)@),
    ensures
        match result {
            Ok(_) => {
                &&& side_of(seats(old(m)@), participant_id as int) is Some
                &&& final(m)@ == MatchView {
                    rules: RulesView {
                        first_server_id: Some(participant_id as int),
                        ..old(m)@.rules
                    },
                    ..old(m)@
                }
                &&& match_wf(final(m)@)
            },
            Err(e) => {
                &&& e == MatchError::NotAuthorizedParticipant
                &&& side_of(seats(old(m)@), participant_id as int) is None
                &&& *final(m) == *old(m)
            },
        },
{
    let is_p1_side = m.player1_id == participant_id || seat_matches(m.player3_id, participant_id);
    let is_p2_side = m.player2_id == participant_id || seat_matches(m.player4_id, participant_id);
    if !is_p1_side && !is_p2_side {
        return Err(MatchError::NotAuthorizedParticipant);
    }
    m.match_rules.first_server_id = Some(participant_id);
    proof {
        assert(m@ =~= MatchView {
            rules: RulesView { first_server_id: Some(participant_id as int), ..old(m)@.rules },
            ..old(m)@
        });
        assert forall|i: int| 0 <= i < m@.events.len() implies event_wf(m@, #[trigger] m@.events[i], i) by {
            assert(event_wf(old(m)@, old(m)@.events[i], i));
        }
    }
    Ok(())
}

/// Abandons an in-progress match. Terminal: an abandoned match accepts no
/// further points and no undo. A match that is not in progress cannot be
/// abandoned.
pub fn cancel_match(m: &mut Match) -> (result: Result<(), MatchError>)
    requires
        match_wf(old(m)@),
    ensures
        match result {
            Ok(_) => {
                &&& old(m).status == MatchStatus::InProgress
                &&& final(m)@ == MatchView { status: MatchStatus::Abandoned, ..old(m)@ }
                &&& match_wf(final(m)@)
            },
            Err(e) => {
                &&& e == MatchError::InvalidState
                &&& old(m).status != MatchStatus::InProgress
                &&& *final(m) == *old(m)
            },
        },
{
    if !(m.status == MatchStatus::InProgress) {
        return Err(MatchError::InvalidState);
    }
    m.status = MatchStatus::Abandoned;
    proof {
        assert(m@ =~= MatchView { status: MatchStatus::Abandoned, ..old(m)@ });
        assert forall|i: int| 0 <= i < m@.events.len() implies event_wf(m@, #[trigger] m@.events[i], i) by {
            assert(event_wf(old(m)@, old(m)@.events[i], i));
        }
    }
    Ok(())
}

/// Creates a fresh match: empty log, scores zero, in progress, no winner,
/// rules copied from the mode with the caller's overrides applied (serve
/// type falls back to "free" when neither an override nor the mode gives
/// one), and no first server chosen yet.
pub fn start_match(
    id: i64,
    player1_id: i64,
    player2_id: i64,
    player3_id: Option<i64>,
    player4_id: Option<i64>,
    game_mode: &GameMode,
    serves_in_deuce: Option<i64>,
    serve_type: Option<String>,
    start_time_ms: i64,
) -> (m: Match)
    ensures
        m.id == id,
        m.player1_id == player1_id,
        m.player2_id == player2_id,
        m.player3_id == player3_id,
        m.player4_id == player4_id,
        m.game_mode_id == game_mode.id,
        m.status == MatchStatus::InProgress,
        m.score_p1 == 0,
        m.score_p2 == 0,
        m.events@.len() == 0,
        m.start_time_ms == start_time_ms,
        m.end_time_ms is None,
        m.winner_id is None,
        m.match_rules.serves_in_deuce == (match serves_in_deuce {
            Some(s) => s,
            None => game_mode.serves_in_deuce,
        }),
        m.match_rules.serve_type@ == (match serve_type {
            Some(s) => s@,
            None => match game_mode.serve_type {
                Some(g) => g@,
                None => "free"@,
            },
        }),
        m.match_rules.first_server_id is None,
        match_wf(m@),
{
    let effective_serves: i64 = match serves_in_deuce {
        Some(s) => s,
        None => game_mode.serves_in_deuce,
    };
    let effective_serve_type: String = match serve_type {
        Some(s) => s,
        None => match &game_mode.serve_type {
            Some(g) => g.clone(),
            None => String::from_str("free"),
        },
    };
    let m = Match {
        id,
        player1_id,
        player2_id,
        player3_id,
        player4_id,
        game_mode_id: game_mode.id,
        status: MatchStatus::InProgress,
        score_p1: 0,
        score_p2: 0,
        events: Vec::new(),
        start_time_ms,
        end_time_ms: None,
        winner_id: None,
        match_rules: MatchRules {
            serves_in_deuce: effective_serves,
            serve_type: effective_serve_type,
            first_server_id: None,
        },
    };
    proof {
        assert(m@.events =~= Seq::<EventView>::empty());
    }
    m
}

/// The rules a match falls back to when its stored ruleset is absent or
/// unreadable: one serve in deuce, free serve type, no first server.
pub fn default_match_rules() -> (r: MatchRules)
    ensures
        r.serves_in_deuce == 1,
        r.serve_type@ == "free"@,
        r.first_server_id is None,
{
    MatchRules {
        serves_in_deuce: 1,
        serve_type: String::from_str("free"),
        first_server_id: None,
    }
}

/// Copies a vector of scoring events.
fn clone_events(v: &Vec<MatchEvent>) -> (r: Vec<MatchEvent>)
    ensures
        r@ == v@,
{
    let mut r: Vec<MatchEvent> = Vec::new();
    let mut i: usize = 0;
    while i < v.len()
        invariant
            i <= v.len(),
            r@ == v@.take(i as int),
        decreases v.len() - i,
    {
        r.push(v[i]);
        i = i + 1;
        proof {
            assert(v@.take(i as int) =~= v@.take(i as int - 1).push(v@[i as int - 1]));
        }
    }
    proof {
        assert(v@.take(v@.len() as int) =~= v@);
    }
    r
}

/// Copies the per-match rules.
fn clone_rules(r: &MatchRules) -> (c: MatchRules)
    ensures
        c == *r,
{
    MatchRules {
        serves_in_deuce: r.serves_in_deuce,
        serve_type: r.serve_type.clone(),
        first_server_id: r.first_server_id,
    }
}

/// Whether an optional referenced record is consistent with the id
/// recorded on the match: a present record must carry that id; an absent
/// record is accepted (the referenced row may have been deleted).
pub open spec fn ref_matches(id: Option<i64>, record: Option<User>) -> bool {
    match (id, record) {
        (Some(i), Some(u)) => u.id == i,
        (_, None) => true,
        (None, Some(_)) => false,
    }
}

/// Joins a match with the records it references into the view handed back
/// to the caller. The caller supplies the referenced records; this function
/// only assembles, so every output field is pinned to its source.
pub fn populate_match(
    m: &Match,
    player1: User,
    player2: User,
    player3: Option<User>,
    player4: Option<User>,
    game_mode: GameMode,
    winner: Option<User>,
) -> (p: PopulatedMatch)
    requires
        player1.id == m.player1_id,
        player2.id == m.player2_id,
        ref_matches(m.player3_id, player3),
        ref_matches(m.player4_id, player4),
        game_mode.id == m.game_mode_id,
        ref_matches(m.winner_id, winner),
    ensures
        p.id == m.id,
        p.player1 == player1,
        p.player2 == player2,
        p.player3 == player3,
        p.player4 == player4,
        p.game_mode == game_mode,
        p.status == m.status,
        p.score == (ScoreSnapshot { p1: m.score_p1, p2: m.score_p2 }),
        p.events@ == m.events@,
        p.match_rules == m.match_rules,
        p.winner == winner,
        p.first_server == m.match_rules.first_server_id,
{
    PopulatedMatch {
        id: m.id,
        player1,
        player2,
        player3,
        player4,
        game_mode,
        status: m.status,
        score: ScoreSnapshot { p1: m.score_p1, p2: m.score_p2 },
        events: clone_events(&m.events),
        match_rules: clone_rules(&m.match_rules),
        winner,
        first_server: m.match_rules.first_server_id,
    }
}

/// Applies one counter update to a player record: wins and matches-played
/// move by exactly the delta, everything else is untouched.
pub fn apply_counter_delta(user: &mut User, delta: &CounterDelta)
    requires
        old(user).id == delta.player_id,
        i64::MIN <= old(user).wins + delta.wins_delta <= i64::MAX,
        i64::MIN <= old(user).matches_played + delta.matches_played_delta <= i64::MAX,
    ensures
        final(user).wins == old(user).wins + delta.wins_delta,
        final(user).matches_played == old(user).matches_played + delta.matches_played_delta,
        final(user).id == old(user).id,
        final(user).name == old(user).name,
        final(user).fun_nickname == old(user).fun_nickname,
        final(user).avatar == old(user).avatar,
        final(user).color == old(user).color,
        final(user).icon == old(user).icon,
{
    user.wins = user.wins + delta.wins_delta;
    user.matches_played = user.matches_played + delta.matches_played_delta;
}

} // verus!
