use pingpong::engine::{
    apply_counter_delta, apply_point, cancel_match, check_match_wf, populate_match,
    set_first_server, start_match, undo_last,
};
use pingpong::models::{
    CounterDelta, GameMode, Match, MatchError, MatchStatus, User,
};
use pingpong::time::apply_point_now;

fn mode(id: i64, points_to_win: i64, deuce: bool) -> GameMode {
    GameMode {
        id,
        name: "Standard 11".to_string(),
        points_to_win,
        serves_before_change: 2,
        rules_description: None,
        is_deuce_enabled: deuce,
        serves_in_deuce: 1,
        serve_type: Some("free".to_string()),
    }
}

fn singles(gm: &GameMode) -> Match {
    start_match(1, 10, 20, None, None, gm, None, None, 1_700_000_000_000)
}

fn doubles(gm: &GameMode) -> Match {
    start_match(2, 10, 20, Some(30), Some(40), gm, None, None, 1_700_000_000_000)
}

fn user(id: i64, name: &str, wins: i64, played: i64) -> User {
    User {
        id,
        name: name.to_string(),
        fun_nickname: None,
        avatar: None,
        color: None,
        icon: None,
        wins,
        matches_played: played,
    }
}

#[test]
fn start_match_is_fresh_and_in_progress() {
    let gm = mode(5, 11, true);
    let m = start_match(9, 1, 2, Some(3), None, &gm, Some(2), None, 123);
    assert_eq!(m.id, 9);
    assert_eq!(m.player1_id, 1);
    assert_eq!(m.player2_id, 2);
    assert_eq!(m.player3_id, Some(3));
    assert_eq!(m.player4_id, None);
    assert_eq!(m.game_mode_id, 5);
    assert_eq!(m.status, MatchStatus::InProgress);
    assert_eq!(m.score_p1, 0);
    assert_eq!(m.score_p2, 0);
    assert!(m.events.is_empty());
    assert_eq!(m.start_time_ms, 123);
    assert_eq!(m.end_time_ms, None);
    assert_eq!(m.winner_id, None);
    assert_eq!(m.match_rules.serves_in_deuce, 2);
    assert_eq!(m.match_rules.serve_type, "free");
    assert_eq!(m.match_rules.first_server_id, None);
}

#[test]
fn start_match_serve_type_falls_back_to_free() {
    let mut gm = mode(5, 11, true);
    gm.serve_type = None;
    let m = start_match(9, 1, 2, None, None, &gm, None, None, 0);
    assert_eq!(m.match_rules.serve_type, "free");
    let m2 = start_match(9, 1, 2, None, None, &gm, None, Some("volley".to_string()), 0);
    assert_eq!(m2.match_rules.serve_type, "volley");
}

#[test]
fn apply_point_increments_acting_side_and_logs_event() {
    let gm = mode(1, 11, false);
    let mut m = singles(&gm);
    let deltas = apply_point(&mut m, &gm, 10, 1000).unwrap();
    assert!(deltas.is_empty());
    assert_eq!(m.score_p1, 1);
    assert_eq!(m.score_p2, 0);
    assert_eq!(m.events.len(), 1);
    assert_eq!(m.events[0].participant_id, 10);
    assert_eq!(m.events[0].timestamp, 1000);
    assert_eq!(m.events[0].score_snapshot.p1, 1);
    assert_eq!(m.events[0].score_snapshot.p2, 0);
    assert_eq!(m.status, MatchStatus::InProgress);

    let deltas = apply_point(&mut m, &gm, 20, 1001).unwrap();
    assert!(deltas.is_empty());
    assert_eq!(m.score_p1, 1);
    assert_eq!(m.score_p2, 1);
    assert_eq!(m.events.len(), 2);
}

#[test]
fn apply_point_partner_scores_for_their_side() {
    let gm = mode(1, 11, false);
    let mut m = doubles(&gm);
    apply_point(&mut m, &gm, 30, 1000).unwrap();
    assert_eq!(m.score_p1, 1);
    assert_eq!(m.score_p2, 0);
    apply_point(&mut m, &gm, 40, 1001).unwrap();
    assert_eq!(m.score_p1, 1);
    assert_eq!(m.score_p2, 1);
}

#[test]
fn apply_point_by_stranger_fails_and_leaves_state_unchanged() {
    let gm = mode(1, 11, false);
    let mut m = singles(&gm);
    apply_point(&mut m, &gm, 10, 1000).unwrap();
    let snapshot = m.clone();
    let result = apply_point(&mut m, &gm, 99, 2000);
    assert_eq!(result, Err(MatchError::NotAuthorizedParticipant));
    assert_eq!(m, snapshot);
}

#[test]
fn apply_point_on_finished_match_fails() {
    let gm = mode(1, 2, false);
    let mut m = singles(&gm);
    apply_point(&mut m, &gm, 10, 1).unwrap();
    let deltas = apply_point(&mut m, &gm, 10, 2).unwrap();
    assert_eq!(m.status, MatchStatus::Finished);
    assert_eq!(deltas.len(), 2);
    let snapshot = m.clone();
    let result = apply_point(&mut m, &gm, 10, 3);
    assert_eq!(result, Err(MatchError::InvalidState));
    assert_eq!(m, snapshot);
}

#[test]
fn finalize_records_captain_and_issues_four_counter_updates() {
    let gm = mode(1, 3, false);
    let mut m = doubles(&gm);
    // Partner of side B scores every point: the winner of record is still
    // the primary seat of side B.
    apply_point(&mut m, &gm, 40, 1).unwrap();
    apply_point(&mut m, &gm, 40, 2).unwrap();
    let deltas = apply_point(&mut m, &gm, 40, 3).unwrap();
    assert_eq!(m.status, MatchStatus::Finished);
    assert_eq!(m.winner_id, Some(20));
    assert_eq!(m.end_time_ms, Some(3));
    assert_eq!(
        deltas,
        vec![
            CounterDelta { player_id: 20, wins_delta: 1, matches_played_delta: 1 },
            CounterDelta { player_id: 40, wins_delta: 1, matches_played_delta: 1 },
            CounterDelta { player_id: 10, wins_delta: 0, matches_played_delta: 1 },
            CounterDelta { player_id: 30, wins_delta: 0, matches_played_delta: 1 },
        ]
    );
}

#[test]
fn point_then_undo_restores_state_exactly() {
    let gm = mode(1, 11, false);
    let mut m = singles(&gm);
    apply_point(&mut m, &gm, 10, 1).unwrap();
    apply_point(&mut m, &gm, 20, 2).unwrap();
    let snapshot = m.clone();
    let deltas = apply_point(&mut m, &gm, 10, 3).unwrap();
    assert!(deltas.is_empty());
    let undo_deltas = undo_last(&mut m).unwrap();
    assert!(undo_deltas.is_empty());
    assert_eq!(m, snapshot);
}

#[test]
fn undo_of_finalizing_point_reverts_counters_exactly() {
    let gm = mode(1, 3, false);
    let mut m = doubles(&gm);
    apply_point(&mut m, &gm, 10, 1).unwrap();
    apply_point(&mut m, &gm, 10, 2).unwrap();
    let snapshot = m.clone();
    let deltas = apply_point(&mut m, &gm, 30, 3).unwrap();
    assert_eq!(m.status, MatchStatus::Finished);
    assert_eq!(m.winner_id, Some(10));
    let undo_deltas = undo_last(&mut m).unwrap();
    assert_eq!(m, snapshot);
    assert_eq!(deltas.len(), 4);
    assert_eq!(undo_deltas.len(), 4);
    for (d, u) in deltas.iter().zip(undo_deltas.iter()) {
        assert_eq!(d.player_id, u.player_id);
        assert_eq!(d.wins_delta, -u.wins_delta);
        assert_eq!(d.matches_played_delta, -u.matches_played_delta);
    }
}

#[test]
fn n_points_then_n_undos_restore_the_initial_state() {
    let gm = mode(1, 11, true);
    let mut m = singles(&gm);
    let initial = m.clone();
    let seats = [10, 20, 10, 10, 20, 10, 20, 20, 10, 10];
    for (k, seat) in seats.iter().enumerate() {
        apply_point(&mut m, &gm, *seat, k as i64).unwrap();
    }
    assert_eq!(m.events.len(), seats.len());
    for _ in 0..seats.len() {
        undo_last(&mut m).unwrap();
    }
    assert_eq!(m, initial);
    assert_eq!(m.score_p1, 0);
    assert_eq!(m.score_p2, 0);
    assert!(m.events.is_empty());
    assert_eq!(m.status, MatchStatus::InProgress);
    assert_eq!(m.winner_id, None);
}

#[test]
fn undo_on_empty_log_fails_and_leaves_state_unchanged() {
    let gm = mode(1, 11, false);
    let mut m = singles(&gm);
    let snapshot = m.clone();
    let result = undo_last(&mut m);
    assert_eq!(result, Err(MatchError::InvalidState));
    assert_eq!(m, snapshot);
}

#[test]
fn undo_on_abandoned_match_fails() {
    let gm = mode(1, 11, false);
    let mut m = singles(&gm);
    apply_point(&mut m, &gm, 10, 1).unwrap();
    cancel_match(&mut m).unwrap();
    let snapshot = m.clone();
    assert_eq!(undo_last(&mut m), Err(MatchError::InvalidState));
    assert_eq!(m, snapshot);
}

#[test]
fn serialized_point_run_yields_per_side_counts_and_full_log() {
    let gm = mode(1, 100, false);
    let mut m = doubles(&gm);
    let seats = [10, 30, 20, 10, 40, 10, 30, 20];
    for (k, seat) in seats.iter().enumerate() {
        apply_point(&mut m, &gm, *seat, k as i64).unwrap();
    }
    // Side A holds seats 10 and 30, side B holds 20 and 40.
    assert_eq!(m.score_p1, 5);
    assert_eq!(m.score_p2, 3);
    assert_eq!(m.events.len(), seats.len());
    for (k, seat) in seats.iter().enumerate() {
        assert_eq!(m.events[k].participant_id, *seat);
    }
}

#[test]
fn deuce_scenario_finishes_only_on_a_two_point_lead() {
    let gm = mode(1, 11, true);

    // Straight run to 11-9: finished, winner is the side at 11.
    let mut m = singles(&gm);
    let mut t = 0i64;
    for _ in 0..9 {
        apply_point(&mut m, &gm, 10, t).unwrap();
        t += 1;
        apply_point(&mut m, &gm, 20, t).unwrap();
        t += 1;
    }
    // 9-9; two more points for side A.
    apply_point(&mut m, &gm, 10, t).unwrap();
    t += 1;
    assert_eq!(m.status, MatchStatus::InProgress);
    apply_point(&mut m, &gm, 10, t).unwrap();
    assert_eq!((m.score_p1, m.score_p2), (11, 9));
    assert_eq!(m.status, MatchStatus::Finished);
    assert_eq!(m.winner_id, Some(10));

    // 10-10, play alternating: 12-11 does not finish, 13-11 does.
    let mut m = singles(&gm);
    let mut t = 0i64;
    for _ in 0..10 {
        apply_point(&mut m, &gm, 10, t).unwrap();
        t += 1;
        apply_point(&mut m, &gm, 20, t).unwrap();
        t += 1;
    }
    assert_eq!((m.score_p1, m.score_p2), (10, 10));
    apply_point(&mut m, &gm, 10, t).unwrap();
    t += 1;
    assert_eq!(m.status, MatchStatus::InProgress); // 11-10
    apply_point(&mut m, &gm, 20, t).unwrap();
    t += 1;
    assert_eq!(m.status, MatchStatus::InProgress); // 11-11
    apply_point(&mut m, &gm, 10, t).unwrap();
    t += 1;
    assert_eq!(m.status, MatchStatus::InProgress); // 12-11
    apply_point(&mut m, &gm, 10, t).unwrap();
    assert_eq!((m.score_p1, m.score_p2), (13, 11));
    assert_eq!(m.status, MatchStatus::Finished);
    assert_eq!(m.winner_id, Some(10));
}

#[test]
fn set_first_server_accepts_any_seat_and_rejects_strangers() {
    let gm = mode(1, 11, false);
    let mut m = doubles(&gm);
    assert_eq!(set_first_server(&mut m, 40), Ok(()));
    assert_eq!(m.match_rules.first_server_id, Some(40));
    assert_eq!(m.score_p1, 0);
    assert_eq!(m.status, MatchStatus::InProgress);
    let snapshot = m.clone();
    assert_eq!(set_first_server(&mut m, 99), Err(MatchError::NotAuthorizedParticipant));
    assert_eq!(m, snapshot);
}

#[test]
fn cancel_match_abandons_only_in_progress_matches() {
    let gm = mode(1, 2, false);
    let mut m = singles(&gm);
    assert_eq!(cancel_match(&mut m), Ok(()));
    assert_eq!(m.status, MatchStatus::Abandoned);
    assert_eq!(cancel_match(&mut m), Err(MatchError::InvalidState));

    let mut m2 = singles(&gm);
    apply_point(&mut m2, &gm, 10, 1).unwrap();
    apply_point(&mut m2, &gm, 10, 2).unwrap();
    assert_eq!(m2.status, MatchStatus::Finished);
    assert_eq!(cancel_match(&mut m2), Err(MatchError::InvalidState));
}

#[test]
fn apply_point_now_uses_the_wall_clock() {
    let gm = mode(1, 11, false);
    let mut m = singles(&gm);
    let deltas = apply_point_now(&mut m, &gm, 10).unwrap();
    assert!(deltas.is_empty());
    assert_eq!(m.score_p1, 1);
    assert_eq!(m.events.len(), 1);
    assert!(m.events[0].timestamp > 0);
    assert_eq!(
        apply_point_now(&mut m, &gm, 99),
        Err(MatchError::NotAuthorizedParticipant)
    );
}

#[test]
fn populate_match_assembles_the_referenced_records() {
    let gm = mode(1, 3, false);
    let mut m = doubles(&gm);
    apply_point(&mut m, &gm, 10, 1).unwrap();
    apply_point(&mut m, &gm, 10, 2).unwrap();
    apply_point(&mut m, &gm, 10, 3).unwrap();
    assert_eq!(m.winner_id, Some(10));
    let p1 = user(10, "Ada", 1, 1);
    let p2 = user(20, "Ben", 0, 1);
    let p3 = user(30, "Cleo", 1, 1);
    let p4 = user(40, "Dan", 0, 1);
    let winner = Some(p1.clone());
    let populated = populate_match(
        &m,
        p1.clone(),
        p2.clone(),
        Some(p3.clone()),
        Some(p4.clone()),
        gm.clone(),
        winner.clone(),
    );
    assert_eq!(populated.id, m.id);
    assert_eq!(populated.player1, p1);
    assert_eq!(populated.player2, p2);
    assert_eq!(populated.player3, Some(p3));
    assert_eq!(populated.player4, Some(p4));
    assert_eq!(populated.game_mode, gm);
    assert_eq!(populated.status, MatchStatus::Finished);
    assert_eq!(populated.score.p1, 3);
    assert_eq!(populated.score.p2, 0);
    assert_eq!(populated.events, m.events);
    assert_eq!(populated.match_rules, m.match_rules);
    assert_eq!(populated.winner, winner);
    assert_eq!(populated.first_server, None);
}

#[test]
fn check_match_wf_accepts_engine_state_and_rejects_corruption() {
    let gm = mode(1, 11, false);
    let mut m = singles(&gm);
    assert!(check_match_wf(&m));
    apply_point(&mut m, &gm, 10, 1).unwrap();
    apply_point(&mut m, &gm, 20, 2).unwrap();
    assert!(check_match_wf(&m));

    // A score that disagrees with the replayed log is rejected.
    let mut corrupt = m.clone();
    corrupt.score_p1 = 5;
    assert!(!check_match_wf(&corrupt));

    // A snapshot that disagrees with the tally up to its event is rejected.
    let mut corrupt = m.clone();
    corrupt.events[0].score_snapshot.p1 = 7;
    assert!(!check_match_wf(&corrupt));

    // An event by a participant who holds no seat is rejected.
    let mut corrupt = m.clone();
    corrupt.events[1].participant_id = 99;
    assert!(!check_match_wf(&corrupt));

    // A winner on a match that is still in progress is rejected.
    let mut corrupt = m.clone();
    corrupt.winner_id = Some(10);
    assert!(!check_match_wf(&corrupt));
}

#[test]
fn apply_counter_delta_moves_exactly_the_deltas() {
    let mut u = user(10, "Ada", 5, 9);
    apply_counter_delta(&mut u, &CounterDelta { player_id: 10, wins_delta: 1, matches_played_delta: 1 });
    assert_eq!(u.wins, 6);
    assert_eq!(u.matches_played, 10);
    apply_counter_delta(&mut u, &CounterDelta { player_id: 10, wins_delta: -1, matches_played_delta: -1 });
    assert_eq!(u.wins, 5);
    assert_eq!(u.matches_played, 9);
    assert_eq!(u.name, "Ada");
}
