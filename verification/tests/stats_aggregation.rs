use pingpong::models::{GameMode, Match, MatchRules, MatchStatus, User};
use pingpong::stats::{get_user_statistics, lookup_mode_name, lookup_user_name};

fn user(id: i64, name: &str) -> User {
    User {
        id,
        name: name.to_string(),
        fun_nickname: None,
        avatar: None,
        color: None,
        icon: None,
        wins: 0,
        matches_played: 0,
    }
}

fn mode(id: i64, name: &str) -> GameMode {
    GameMode {
        id,
        name: name.to_string(),
        points_to_win: 11,
        serves_before_change: 2,
        rules_description: None,
        is_deuce_enabled: true,
        serves_in_deuce: 1,
        serve_type: Some("free".to_string()),
    }
}

fn finished(
    id: i64,
    p1: i64,
    p2: i64,
    winner: i64,
    s1: i64,
    s2: i64,
    mode_id: i64,
    start: i64,
) -> Match {
    Match {
        id,
        player1_id: p1,
        player2_id: p2,
        player3_id: None,
        player4_id: None,
        game_mode_id: mode_id,
        status: MatchStatus::Finished,
        score_p1: s1,
        score_p2: s2,
        events: Vec::new(),
        start_time_ms: start,
        end_time_ms: Some(start + 1),
        winner_id: Some(winner),
        match_rules: MatchRules {
            serves_in_deuce: 1,
            serve_type: "free".to_string(),
            first_server_id: None,
        },
    }
}

#[test]
fn stats_of_empty_history_are_all_zero() {
    let stats = get_user_statistics(1, &Vec::new(), &Vec::new(), &Vec::new());
    assert_eq!(stats.user_id, 1);
    assert_eq!(stats.wins, 0);
    assert_eq!(stats.losses, 0);
    assert_eq!(stats.matches_played, 0);
    assert_eq!(stats.current_streak, 0);
    assert_eq!(stats.best_streak, 0);
    assert_eq!(stats.points_scored, 0);
    assert_eq!(stats.points_conceded, 0);
    assert!(stats.mode_stats.is_empty());
    assert!(stats.recent_matches.is_empty());
    assert!(stats.nemesis.is_none());
    assert!(stats.victim.is_none());
}

#[test]
fn streaks_follow_the_ordered_walk() {
    // Results in order: W, W, L, W, W, W.
    let users = vec![user(1, "Ada"), user(2, "Ben")];
    let modes = vec![mode(1, "Standard 11")];
    let matches = vec![
        finished(1, 1, 2, 1, 11, 5, 1, 100),
        finished(2, 1, 2, 1, 11, 7, 1, 200),
        finished(3, 1, 2, 2, 9, 11, 1, 300),
        finished(4, 1, 2, 1, 11, 3, 1, 400),
        finished(5, 1, 2, 1, 12, 10, 1, 500),
        finished(6, 1, 2, 1, 11, 0, 1, 600),
    ];
    let stats = get_user_statistics(1, &matches, &users, &modes);
    assert_eq!(stats.current_streak, 3);
    assert_eq!(stats.best_streak, 3);
    assert_eq!(stats.wins, 5);
    assert_eq!(stats.losses, 1);
    assert_eq!(stats.matches_played, 6);
    assert_eq!(stats.points_scored, 11 + 11 + 9 + 11 + 12 + 11);
    assert_eq!(stats.points_conceded, 5 + 7 + 11 + 3 + 10 + 0);
}

#[test]
fn best_streak_is_the_maximum_observed_not_the_final_one() {
    // Results: W, W, W, L, W.
    let users = vec![user(1, "Ada"), user(2, "Ben")];
    let modes = vec![mode(1, "Standard 11")];
    let matches = vec![
        finished(1, 1, 2, 1, 11, 5, 1, 100),
        finished(2, 1, 2, 1, 11, 5, 1, 200),
        finished(3, 1, 2, 1, 11, 5, 1, 300),
        finished(4, 1, 2, 2, 5, 11, 1, 400),
        finished(5, 1, 2, 1, 11, 5, 1, 500),
    ];
    let stats = get_user_statistics(1, &matches, &users, &modes);
    assert_eq!(stats.best_streak, 3);
    assert_eq!(stats.current_streak, 1);
}

#[test]
fn partner_inherits_the_captains_classification() {
    // User 3 is the partner on side A; side A's captain is seat 1.
    let users = vec![user(1, "Ada"), user(2, "Ben"), user(3, "Cleo")];
    let modes = vec![mode(1, "Standard 11")];
    let mut m = finished(1, 1, 2, 1, 11, 5, 1, 100);
    m.player3_id = Some(3);
    let stats = get_user_statistics(3, &vec![m], &users, &modes);
    assert_eq!(stats.wins, 1);
    assert_eq!(stats.losses, 0);
    // The opponent of record is the other side's primary seat.
    assert_eq!(stats.victim.as_ref().unwrap().opponent_id, 2);
    assert_eq!(stats.victim.as_ref().unwrap().opponent_name, "Ben");
}

#[test]
fn mode_stats_are_keyed_by_mode_name() {
    // Two distinct mode records share one name: their tallies merge.
    let users = vec![user(1, "Ada"), user(2, "Ben")];
    let modes = vec![mode(1, "Standard 11"), mode(2, "Standard 11"), mode(3, "Classic 21")];
    let matches = vec![
        finished(1, 1, 2, 1, 11, 5, 1, 100),
        finished(2, 1, 2, 2, 5, 11, 2, 200),
        finished(3, 1, 2, 1, 21, 15, 3, 300),
    ];
    let stats = get_user_statistics(1, &matches, &users, &modes);
    assert_eq!(stats.mode_stats.len(), 2);
    assert_eq!(stats.mode_stats[0].mode_name, "Standard 11");
    assert_eq!(stats.mode_stats[0].wins, 1);
    assert_eq!(stats.mode_stats[0].losses, 1);
    assert_eq!(stats.mode_stats[1].mode_name, "Classic 21");
    assert_eq!(stats.mode_stats[1].wins, 1);
    assert_eq!(stats.mode_stats[1].losses, 0);
}

#[test]
fn nemesis_and_victim_take_the_first_maximal_opponent() {
    let users = vec![user(1, "Ada"), user(2, "Ben"), user(3, "Cleo")];
    let modes = vec![mode(1, "Standard 11")];
    let matches = vec![
        // One loss against 2, one loss against 3: the tie goes to the
        // first opponent encountered.
        finished(1, 1, 2, 2, 5, 11, 1, 100),
        finished(2, 1, 3, 3, 7, 11, 1, 200),
        // Two wins against 3, one against 2.
        finished(3, 1, 3, 1, 11, 7, 1, 300),
        finished(4, 1, 3, 1, 11, 9, 1, 400),
        finished(5, 1, 2, 1, 11, 2, 1, 500),
    ];
    let stats = get_user_statistics(1, &matches, &users, &modes);
    let nemesis = stats.nemesis.unwrap();
    assert_eq!(nemesis.opponent_id, 2);
    assert_eq!(nemesis.opponent_name, "Ben");
    assert_eq!(nemesis.count, 1);
    let victim = stats.victim.unwrap();
    assert_eq!(victim.opponent_id, 3);
    assert_eq!(victim.opponent_name, "Cleo");
    assert_eq!(victim.count, 2);
}

#[test]
fn recent_matches_are_the_last_ten_most_recent_first() {
    let users = vec![user(1, "Ada"), user(2, "Ben")];
    let modes = vec![mode(1, "Standard 11")];
    let mut matches = Vec::new();
    for k in 0..12i64 {
        matches.push(finished(k, 1, 2, 1, 11, 5, 1, 1000 * k));
    }
    let stats = get_user_statistics(1, &matches, &users, &modes);
    assert_eq!(stats.recent_matches.len(), 10);
    assert_eq!(stats.recent_matches[0].match_id, 11);
    assert_eq!(stats.recent_matches[9].match_id, 2);
    assert_eq!(stats.recent_matches[0].result, "Win");
    assert_eq!(stats.recent_matches[0].opponent_name, "Ben");
    assert_eq!(stats.recent_matches[0].score_user, 11);
    assert_eq!(stats.recent_matches[0].score_opponent, 5);
    assert_eq!(stats.recent_matches[0].mode_name, "Standard 11");
}

#[test]
fn recent_match_dates_render_the_start_time_as_rfc3339() {
    let users = vec![user(1, "Ada"), user(2, "Ben")];
    let modes = vec![mode(1, "Standard 11")];
    let matches = vec![finished(1, 1, 2, 1, 11, 5, 1, 947_638_923_004)];
    let stats = get_user_statistics(1, &matches, &users, &modes);
    assert_eq!(stats.recent_matches.len(), 1);
    assert_eq!(stats.recent_matches[0].date, "2000-01-12T01:02:03.004+00:00");
}

#[test]
fn missing_records_fall_back_to_unknown() {
    let users = vec![user(1, "Ada")];
    let modes: Vec<GameMode> = Vec::new();
    let matches = vec![finished(1, 1, 2, 2, 5, 11, 77, 100)];
    let stats = get_user_statistics(1, &matches, &users, &modes);
    assert_eq!(stats.recent_matches[0].opponent_name, "Unknown");
    assert_eq!(stats.recent_matches[0].mode_name, "Unknown");
    assert_eq!(stats.recent_matches[0].result, "Loss");
    assert_eq!(stats.mode_stats[0].mode_name, "Unknown");
    assert_eq!(stats.nemesis.unwrap().opponent_name, "Unknown");
}

#[test]
fn lookups_return_the_first_matching_record_or_unknown() {
    let users = vec![user(5, "Ada"), user(5, "Shadow"), user(6, "Ben")];
    assert_eq!(lookup_user_name(&users, 5), "Ada");
    assert_eq!(lookup_user_name(&users, 6), "Ben");
    assert_eq!(lookup_user_name(&users, 7), "Unknown");
    let modes = vec![mode(3, "Classic 21")];
    assert_eq!(lookup_mode_name(&modes, 3), "Classic 21");
    assert_eq!(lookup_mode_name(&modes, 4), "Unknown");
}
