//! Data model: players, game modes, matches, scoring events, and the ghost
//! views that contracts and lemmas speak of.

use vstd::prelude::*;

verus! {

/// One of the two competing sides of a match. Side A is seated by the
/// primary seat `player1` (and the optional partner `player3`); side B by
/// `player2` (and optionally `player4`).
#[derive(Clone, Copy, Debug, PartialEq, Eq, Structural)]
pub enum Side {
    A,
    B,
}

/// Lifecycle state of a match. `Finished` is reversible only by undoing the
/// final scoring event; `Abandoned` is terminal.
#[derive(Clone, Copy, Debug, PartialEq, Eq, Structural)]
pub enum MatchStatus {
    InProgress,
    Finished,
    Abandoned,
}

/// Kind of a scoring event. Every event appended by the engine is a point.
#[derive(Clone, Copy, Debug, PartialEq, Eq, Structural)]
pub enum EventType {
    Point,
}

/// Typed failure conditions surfaced by the engine; none of them leaves a
/// partially mutated match behind.
#[derive(Clone, Copy, Debug, PartialEq, Eq, Structural)]
pub enum MatchError {
    /// A referenced record (match, player, mode) is missing.
    NotFound,
    /// The operation was attempted against the wrong match status, e.g. a
    /// point on a finished match or an undo with an empty log.
    InvalidState,
    /// The acting participant id is not seated in the match.
    NotAuthorizedParticipant,
    /// The record store failed to read or write.
    PersistenceFailure,
}

/// A participant identity with its cumulative win/played counters.
#[derive(Clone, Debug, PartialEq)]
pub struct User {
    pub id: i64,
    pub name: String,
    pub fun_nickname: Option<String>,
    pub avatar: Option<String>,
    pub color: Option<String>,
    pub icon: Option<String>,
    pub wins: i64,
    pub matches_played: i64,
}

/// Payload for creating a new player record.
#[derive(Clone, Debug, PartialEq)]
pub struct CreateUserDto {
    pub name: String,
    pub fun_nickname: Option<String>,
    pub avatar: Option<String>,
    pub color: String,
    pub icon: String,
}

/// A ruleset template a match is started from.
#[derive(Clone, Debug, PartialEq)]
pub struct GameMode {
    pub id: i64,
    pub name: String,
    pub points_to_win: i64,
    pub serves_before_change: i64,
    pub rules_description: Option<String>,
    pub is_deuce_enabled: bool,
    pub serves_in_deuce: i64,
    pub serve_type: Option<String>,
}

/// Payload for creating a new game-mode record.
#[derive(Clone, Debug, PartialEq)]
pub struct CreateGameModeDto {
    pub name: String,
    pub points_to_win: i64,
    pub serves_before_change: i64,
    pub rules_description: Option<String>,
    pub is_deuce_enabled: bool,
    pub serves_in_deuce: i64,
    pub serve_type: String,
}

/// The score of a match after some event: side A's points, then side B's.
#[derive(Clone, Copy, Debug, PartialEq, Eq, Structural)]
pub struct ScoreSnapshot {
    pub p1: i64,
    pub p2: i64,
}

/// One atomic change to a match: the acting participant, the wall-clock
/// timestamp, and the score immediately *after* the event.
#[derive(Clone, Copy, Debug, PartialEq, Eq, Structural)]
pub struct MatchEvent {
    pub event_type: EventType,
    pub participant_id: i64,
    pub timestamp: i64,
    pub score_snapshot: ScoreSnapshot,
}

/// Per-match effective ruleset, copied from the mode and possibly overridden
/// at match start.
#[derive(Clone, Debug, PartialEq)]
pub struct MatchRules {
    pub serves_in_deuce: i64,
    pub serve_type: String,
    pub first_server_id: Option<i64>,
}

/// One scoring session: up to four seats (side A = player1 + optional
/// player3, side B = player2 + optional player4), the running score, the
/// ordered event log, and the lifecycle state.
#[derive(Clone, Debug, PartialEq)]
pub struct Match {
    pub id: i64,
    pub player1_id: i64,
    pub player2_id: i64,
    pub player3_id: Option<i64>,
    pub player4_id: Option<i64>,
    pub game_mode_id: i64,
    pub status: MatchStatus,
    pub score_p1: i64,
    pub score_p2: i64,
    pub events: Vec<MatchEvent>,
    pub start_time_ms: i64,
    pub end_time_ms: Option<i64>,
    pub winner_id: Option<i64>,
    pub match_rules: MatchRules,
}

/// A counter update for one player record, issued by the engine at a
/// finalize (or its undo) and applied by the record store as part of the
/// same atomic unit as the match row.
#[derive(Clone, Copy, Debug, PartialEq, Eq, Structural)]
pub struct CounterDelta {
    pub player_id: i64,
    pub wins_delta: i64,
    pub matches_played_delta: i64,
}

/// A match joined with the records it references, the shape handed back to
/// the caller after every engine operation.
#[derive(Clone, Debug, PartialEq)]
pub struct PopulatedMatch {
    pub id: i64,
    pub player1: User,
    pub player2: User,
    pub player3: Option<User>,
    pub player4: Option<User>,
    pub game_mode: GameMode,
    pub status: MatchStatus,
    pub score: ScoreSnapshot,
    pub events: Vec<MatchEvent>,
    pub match_rules: MatchRules,
    pub winner: Option<User>,
    pub first_server: Option<i64>,
}

/// Win/loss tally against one opponent (always the other side's primary
/// seat).
#[derive(Clone, Debug, PartialEq)]
pub struct OpponentStat {
    pub opponent_id: i64,
    pub opponent_name: String,
    pub count: i64,
}

/// Win/loss tally for one game mode, keyed by mode name.
#[derive(Clone, Debug, PartialEq)]
pub struct ModeStat {
    pub mode_name: String,
    pub wins: i64,
    pub losses: i64,
}

/// One line of a player's recent-match history, most recent first.
#[derive(Clone, Debug, PartialEq)]
pub struct RecentMatch {
    pub match_id: i64,
    pub date: String,
    pub opponent_name: String,
    pub result: String,
    pub score_user: i64,
    pub score_opponent: i64,
    pub mode_name: String,
}

/// Aggregate statistics derived from a player's finished-match history.
#[derive(Clone, Debug, PartialEq)]
pub struct UserStatistics {
    pub user_id: i64,
    pub wins: i64,
    pub losses: i64,
    pub matches_played: i64,
    pub current_streak: i64,
    pub best_streak: i64,
    pub points_scored: i64,
    pub points_conceded: i64,
    pub mode_stats: Vec<ModeStat>,
    pub recent_matches: Vec<RecentMatch>,
    pub nemesis: Option<OpponentStat>,
    pub victim: Option<OpponentStat>,
}

/// A key-to-action mapping record; managed by the caller, modelled here so
/// stored bindings can cross the library boundary as plain values.
#[derive(Clone, Debug, PartialEq)]
pub struct KeyBinding {
    pub id: i64,
    pub action: String,
    pub key_code: String,
    pub label: String,
    pub is_default: bool,
}

/// Mathematical image of an `Option<i64>`.
pub open spec fn opt_int(o: Option<i64>) -> Option<int> {
    match o {
        Some(v) => Some(v as int),
        None => None,
    }
}

/// Mathematical view of a scoring event: the snapshot is flattened into the
/// two per-side tallies.
pub struct EventView {
    pub event_type: EventType,
    pub participant_id: int,
    pub timestamp: int,
    pub p1: int,
    pub p2: int,
}

impl View for MatchEvent {
    type V = EventView;

    open spec fn view(&self) -> EventView {
        EventView {
            event_type: self.event_type,
            participant_id: self.participant_id as int,
            timestamp: self.timestamp as int,
            p1: self.score_snapshot.p1 as int,
            p2: self.score_snapshot.p2 as int,
        }
    }
}

/// Mathematical view of the per-match ruleset.
#[verifier::ext_equal]
pub struct RulesView {
    pub serves_in_deuce: int,
    pub serve_type: Seq<char>,
    pub first_server_id: Option<int>,
}

impl View for MatchRules {
    type V = RulesView;

    open spec fn view(&self) -> RulesView {
        RulesView {
            serves_in_deuce: self.serves_in_deuce as int,
            serve_type: self.serve_type@,
            first_server_id: opt_int(self.first_server_id),
        }
    }
}

/// The image of an event sequence under the event view.
pub open spec fn event_views(s: Seq<MatchEvent>) -> Seq<EventView> {
    s.map_values(|e: MatchEvent| e@)
}

/// Mathematical view of a whole match aggregate.
#[verifier::ext_equal]
pub struct MatchView {
    pub id: int,
    pub player1_id: int,
    pub player2_id: int,
    pub player3_id: Option<int>,
    pub player4_id: Option<int>,
    pub game_mode_id: int,
    pub status: MatchStatus,
    pub score_p1: int,
    pub score_p2: int,
    pub events: Seq<EventView>,
    pub start_time_ms: int,
    pub end_time_ms: Option<int>,
    pub winner_id: Option<int>,
    pub rules: RulesView,
}

impl View for Match {
    type V = MatchView;

    open spec fn view(&self) -> MatchView {
        MatchView {
            id: self.id as int,
            player1_id: self.player1_id as int,
            player2_id: self.player2_id as int,
            player3_id: opt_int(self.player3_id),
            player4_id: opt_int(self.player4_id),
            game_mode_id: self.game_mode_id as int,
            status: self.status,
            score_p1: self.score_p1 as int,
            score_p2: self.score_p2 as int,
            events: event_views(self.events@),
            start_time_ms: self.start_time_ms as int,
            end_time_ms: opt_int(self.end_time_ms),
            winner_id: opt_int(self.winner_id),
            rules: self.match_rules@,
        }
    }
}

/// Mathematical view of a counter update.
pub struct DeltaView {
    pub player_id: int,
    pub wins_delta: int,
    pub matches_played_delta: int,
}

impl View for CounterDelta {
    type V = DeltaView;

    open spec fn view(&self) -> DeltaView {
        DeltaView {
            player_id: self.player_id as int,
            wins_delta: self.wins_delta as int,
            matches_played_delta: self.matches_played_delta as int,
        }
    }
}

/// The image of a delta sequence under the delta view.
pub open spec fn delta_views(s: Seq<CounterDelta>) -> Seq<DeltaView> {
    s.map_values(|d: CounterDelta| d@)
}

/// Mathematical view of a per-mode tally.
#[verifier::ext_equal]
pub struct ModeStatView {
    pub mode_name: Seq<char>,
    pub wins: int,
    pub losses: int,
}

impl View for ModeStat {
    type V = ModeStatView;

    open spec fn view(&self) -> ModeStatView {
        ModeStatView {
            mode_name: self.mode_name@,
            wins: self.wins as int,
            losses: self.losses as int,
        }
    }
}

/// Mathematical view of an opponent tally.
#[verifier::ext_equal]
pub struct OpponentStatView {
    pub opponent_id: i64,
    pub opponent_name: Seq<char>,
    pub count: int,
}

impl View for OpponentStat {
    type V = OpponentStatView;

    open spec fn view(&self) -> OpponentStatView {
        OpponentStatView {
            opponent_id: self.opponent_id,
            opponent_name: self.opponent_name@,
            count: self.count as int,
        }
    }
}

/// Mathematical view of a recent-match line.
#[verifier::ext_equal]
pub struct RecentMatchView {
    pub match_id: i64,
    pub date: Seq<char>,
    pub opponent_name: Seq<char>,
    pub result: Seq<char>,
    pub score_user: i64,
    pub score_opponent: i64,
    pub mode_name: Seq<char>,
}

impl View for RecentMatch {
    type V = RecentMatchView;

    open spec fn view(&self) -> RecentMatchView {
        RecentMatchView {
            match_id: self.match_id,
            date: self.date@,
            opponent_name: self.opponent_name@,
            result: self.result@,
            score_user: self.score_user,
            score_opponent: self.score_opponent,
            mode_name: self.mode_name@,
        }
    }
}

} // verus!
