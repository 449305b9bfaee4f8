//! StatsAggregator: a read-only pass over a player's finished-match
//! history, in ascending start-time order, deriving win/loss totals,
//! streaks, points, per-mode and per-opponent tallies, nemesis and victim
//! opponents, and the recent-match lines.
//!
//! Classification uses captain parity: a match counts as a win for the
//! player iff the recorded winner seat is the player's side's primary
//! seat, and the opponent of record is always the other side's primary
//! seat.

use vstd::prelude::*;

use crate::models::{
    GameMode, Match, MatchStatus, ModeStat, ModeStatView, OpponentStat, OpponentStatView,
    RecentMatch, RecentMatchView, User, UserStatistics,
};
use crate::time::{format_rfc3339_ms, rfc3339_of};

verus! {

/// Whether the player holds any of the four seats of this match.
pub open spec fn involves(m: Match, uid: i64) -> bool {
    ||| m.player1_id == uid
    ||| m.player2_id == uid
    ||| m.player3_id == Some(uid)
    ||| m.player4_id == Some(uid)
}

/// Whether the player sits on side A of this match; side A membership is
/// checked first, as the engine does.
pub open spec fn on_side_a(m: Match, uid: i64) -> bool {
    m.player1_id == uid || m.player3_id == Some(uid)
}

/// The player's side's score in this match.
pub open spec fn user_score(m: Match, uid: i64) -> i64 {
    if on_side_a(m, uid) {
        m.score_p1
    } else {
        m.score_p2
    }
}

/// The other side's score in this match.
pub open spec fn opponent_score(m: Match, uid: i64) -> i64 {
    if on_side_a(m, uid) {
        m.score_p2
    } else {
        m.score_p1
    }
}

/// The opponent of record: the other side's primary seat, never the
/// partner.
pub open spec fn opponent_of(m: Match, uid: i64) -> i64 {
    if on_side_a(m, uid) {
        m.player2_id
    } else {
        m.player1_id
    }
}

/// Captain parity: the match is a win for the player iff the recorded
/// winner seat is the player's side's primary seat.
pub open spec fn is_win(m: Match, uid: i64) -> bool {
    if on_side_a(m, uid) {
        m.winner_id == Some(m.player1_id)
    } else {
        m.winner_id == Some(m.player2_id)
    }
}

/// The player's win/loss results over a match history, in order.
pub open spec fn results_of(ms: Seq<Match>, uid: i64) -> Seq<bool>
    decreases ms.len(),
{
    if ms.len() == 0 {
        Seq::empty()
    } else {
        results_of(ms.drop_last(), uid).push(is_win(ms.last(), uid))
    }
}

/// The number of wins in a result sequence.
pub open spec fn wins_of(rs: Seq<bool>) -> int
    decreases rs.len(),
{
    if rs.len() == 0 {
        0
    } else {
        wins_of(rs.drop_last()) + (if rs.last() {
            1int
        } else {
            0int
        })
    }
}

/// The running streak: the number of consecutive wins at the end of the
/// result sequence.
pub open spec fn current_streak_of(rs: Seq<bool>) -> int
    decreases rs.len(),
{
    if rs.len() == 0 {
        0
    } else if rs.last() {
        1 + current_streak_of(rs.drop_last())
    } else {
        0
    }
}

/// The best streak: the maximum running streak observed at any point of
/// the ordered walk.
pub open spec fn best_streak_of(rs: Seq<bool>) -> int
    decreases rs.len(),
{
    if rs.len() == 0 {
        0
    } else {
        let b = best_streak_of(rs.drop_last());
        let c = current_streak_of(rs);
        if c > b {
            c
        } else {
            b
        }
    }
}

/// Total points the player's side scored over the history.
pub open spec fn points_scored_of(ms: Seq<Match>, uid: i64) -> int
    decreases ms.len(),
{
    if ms.len() == 0 {
        0
    } else {
        points_scored_of(ms.drop_last(), uid) + user_score(ms.last(), uid)
    }
}

/// Total points the opposing sides scored over the history.
pub open spec fn points_conceded_of(ms: Seq<Match>, uid: i64) -> int
    decreases ms.len(),
{
    if ms.len() == 0 {
        0
    } else {
        points_conceded_of(ms.drop_last(), uid) + opponent_score(ms.last(), uid)
    }
}

/// The name of the first player record with the given id, from index `i`
/// on; "Unknown" when there is none.
pub open spec fn user_name_from(users: Seq<User>, id: i64, i: int) -> Seq<char>
    decreases users.len() - i,
{
    if i < 0 || i >= users.len() {
        "Unknown"@
    } else if users[i].id == id {
        users[i].name@
    } else {
        user_name_from(users, id, i + 1)
    }
}

/// The display name for a player id: the first record with that id, or
/// "Unknown".
pub open spec fn user_name_of(users: Seq<User>, id: i64) -> Seq<char> {
    user_name_from(users, id, 0)
}

/// The name of the first mode record with the given id, from index `i` on;
/// "Unknown" when there is none.
pub open spec fn mode_name_from(modes: Seq<GameMode>, id: i64, i: int) -> Seq<char>
    decreases modes.len() - i,
{
    if i < 0 || i >= modes.len() {
        "Unknown"@
    } else if modes[i].id == id {
        modes[i].name@
    } else {
        mode_name_from(modes, id, i + 1)
    }
}

/// The display name for a mode id: the first record with that id, or
/// "Unknown".
pub open spec fn mode_name_of(modes: Seq<GameMode>, id: i64) -> Seq<char> {
    mode_name_from(modes, id, 0)
}

/// A fresh per-mode tally after one match.
pub open spec fn new_mode_entry(name: Seq<char>, win: bool) -> ModeStatView {
    ModeStatView {
        mode_name: name,
        wins: if win {
            1int
        } else {
            0int
        },
        losses: if win {
            0int
        } else {
            1int
        },
    }
}

/// A per-mode tally with one more result recorded.
pub open spec fn mode_entry_bumped(e: ModeStatView, win: bool) -> ModeStatView {
    ModeStatView {
        wins: e.wins + (if win {
            1int
        } else {
            0int
        }),
        losses: e.losses + (if win {
            0int
        } else {
            1int
        }),
        ..e
    }
}

/// Records one result under the given mode name: the first entry with that
/// name is bumped, and a new entry is appended when there is none. Entries
/// keep first-appearance order.
pub open spec fn bump_mode(entries: Seq<ModeStatView>, name: Seq<char>, win: bool) -> Seq<
    ModeStatView,
>
    decreases entries.len(),
{
    if entries.len() == 0 {
        seq![new_mode_entry(name, win)]
    } else if entries.first().mode_name == name {
        seq![mode_entry_bumped(entries.first(), win)] + entries.drop_first()
    } else {
        seq![entries.first()] + bump_mode(entries.drop_first(), name, win)
    }
}

/// The per-mode tallies of a match history, keyed by mode name, in
/// first-appearance order.
pub open spec fn mode_stats_of(ms: Seq<Match>, modes: Seq<GameMode>, uid: i64) -> Seq<ModeStatView>
    decreases ms.len(),
{
    if ms.len() == 0 {
        Seq::empty()
    } else {
        bump_mode(
            mode_stats_of(ms.drop_last(), modes, uid),
            mode_name_of(modes, ms.last().game_mode_id),
            is_win(ms.last(), uid),
        )
    }
}

/// A win/loss tally against one opponent id.
#[derive(Clone, Copy, Debug, PartialEq, Eq, Structural)]
pub struct OpponentTally {
    pub opponent_id: i64,
    pub wins_against: i64,
    pub losses_against: i64,
}

/// Mathematical view of an opponent tally.
pub struct OppTallyView {
    pub opponent_id: i64,
    pub wins_against: int,
    pub losses_against: int,
}

impl View for OpponentTally {
    type V = OppTallyView;

    open spec fn view(&self) -> OppTallyView {
        OppTallyView {
            opponent_id: self.opponent_id,
            wins_against: self.wins_against as int,
            losses_against: self.losses_against as int,
        }
    }
}

/// A fresh opponent tally after one match.
pub open spec fn new_opp_entry(opp: i64, win: bool) -> OppTallyView {
    OppTallyView {
        opponent_id: opp,
        wins_against: if win {
            1int
        } else {
            0int
        },
        losses_against: if win {
            0int
        } else {
            1int
        },
    }
}

/// An opponent tally with one more result recorded.
pub open spec fn opp_entry_bumped(e: OppTallyView, win: bool) -> OppTallyView {
    OppTallyView {
        wins_against: e.wins_against + (if win {
            1int
        } else {
            0int
        }),
        losses_against: e.losses_against + (if win {
            0int
        } else {
            1int
        }),
        ..e
    }
}

/// Records one result against the given opponent id: the first entry with
/// that id is bumped, and a new entry is appended when there is none.
pub open spec fn bump_opp(entries: Seq<OppTallyView>, opp: i64, win: bool) -> Seq<OppTallyView>
    decreases entries.len(),
{
    if entries.len() == 0 {
        seq![new_opp_entry(opp, win)]
    } else if entries.first().opponent_id == opp {
        seq![opp_entry_bumped(entries.first(), win)] + entries.drop_first()
    } else {
        seq![entries.first()] + bump_opp(entries.drop_first(), opp, win)
    }
}

/// The per-opponent tallies of a match history, keyed by the opponent of
/// record, in first-appearance order.
pub open spec fn opp_tallies_of(ms: Seq<Match>, uid: i64) -> Seq<OppTallyView>
    decreases ms.len(),
{
    if ms.len() == 0 {
        Seq::empty()
    } else {
        bump_opp(
            opp_tallies_of(ms.drop_last(), uid),
            opponent_of(ms.last(), uid),
            is_win(ms.last(), uid),
        )
    }
}

/// The first entry with the greatest loss count, scanning in order; later
/// entries replace it only when strictly greater.
pub open spec fn max_by_losses(entries: Seq<OppTallyView>) -> Option<OppTallyView>
    decreases entries.len(),
{
    if entries.len() == 0 {
        None
    } else {
        match max_by_losses(entries.drop_last()) {
            None => Some(entries.last()),
            Some(b) => if entries.last().losses_against > b.losses_against {
                Some(entries.last())
            } else {
                Some(b)
            },
        }
    }
}

/// The first entry with the greatest win count, scanning in order; later
/// entries replace it only when strictly greater.
pub open spec fn max_by_wins(entries: Seq<OppTallyView>) -> Option<OppTallyView>
    decreases entries.len(),
{
    if entries.len() == 0 {
        None
    } else {
        match max_by_wins(entries.drop_last()) {
            None => Some(entries.last()),
            Some(b) => if entries.last().wins_against > b.wins_against {
                Some(entries.last())
            } else {
                Some(b)
            },
        }
    }
}

/// The recent-match line derived from one match of the history.
pub open spec fn recent_line_of(m: Match, uid: i64, users: Seq<User>, modes: Seq<GameMode>) -> RecentMatchView {
    RecentMatchView {
        match_id: m.id,
        date: rfc3339_of(m.start_time_ms as int),
        opponent_name: user_name_of(users, opponent_of(m, uid)),
        result: if is_win(m, uid) {
            "Win"@
        } else {
            "Loss"@
        },
        score_user: user_score(m, uid),
        score_opponent: opponent_score(m, uid),
        mode_name: mode_name_of(modes, m.game_mode_id),
    }
}

/// The domain of the aggregation: every match of the history is finished,
/// involves the player, and carries non-negative scores.
pub open spec fn stats_input_ok(uid: i64, ms: Seq<Match>) -> bool {
    forall|i: int|
        0 <= i < ms.len() ==> {
            &&& (#[trigger] ms[i]).status == MatchStatus::Finished
            &&& involves(ms[i], uid)
            &&& ms[i].score_p1 >= 0
            &&& ms[i].score_p2 >= 0
        }
}

/// Recording under a name that already has an entry bumps exactly that
/// entry.
proof fn lemma_bump_mode_found(entries: Seq<ModeStatView>, name: Seq<char>, win: bool, j: int)
    requires
        0 <= j < entries.len(),
        entries[j].mode_name == name,
        forall|k: int| 0 <= k < j ==> (#[trigger] entries[k]).mode_name != name,
    ensures
        bump_mode(entries, name, win) == entries.update(j, mode_entry_bumped(entries[j], win)),
    decreases j,
{
    if j == 0 {
        assert(bump_mode(entries, name, win) =~= entries.update(
            0,
            mode_entry_bumped(entries[0], win),
        ));
    } else {
        assert(forall|k: int|
            0 <= k < j - 1 ==> (#[trigger] entries.drop_first()[k]).mode_name != name);
        lemma_bump_mode_found(entries.drop_first(), name, win, j - 1);
        assert(bump_mode(entries, name, win) =~= entries.update(
            j,
            mode_entry_bumped(entries[j], win),
        ));
    }
}

/// Recording under a name with no entry appends a fresh entry.
proof fn lemma_bump_mode_missing(entries: Seq<ModeStatView>, name: Seq<char>, win: bool)
    requires
        forall|k: int| 0 <= k < entries.len() ==> (#[trigger] entries[k]).mode_name != name,
    ensures
        bump_mode(entries, name, win) == entries.push(new_mode_entry(name, win)),
    decreases entries.len(),
{
    if entries.len() == 0 {
        assert(bump_mode(entries, name, win) =~= entries.push(new_mode_entry(name, win)));
    } else {
        assert(forall|k: int|
            0 <= k < entries.drop_first().len() ==> (#[trigger] entries.drop_first()[k]).mode_name
                != name);
        lemma_bump_mode_missing(entries.drop_first(), name, win);
        assert(bump_mode(entries, name, win) =~= entries.push(new_mode_entry(name, win)));
    }
}

/// Recording against an opponent that already has an entry bumps exactly
/// that entry.
proof fn lemma_bump_opp_found(entries: Seq<OppTallyView>, opp: i64, win: bool, j: int)
    requires
        0 <= j < entries.len(),
        entries[j].opponent_id == opp,
        forall|k: int| 0 <= k < j ==> (#[trigger] entries[k]).opponent_id != opp,
    ensures
        bump_opp(entries, opp, win) == entries.update(j, opp_entry_bumped(entries[j], win)),
    decreases j,
{
    if j == 0 {
        assert(bump_opp(entries, opp, win) =~= entries.update(
            0,
            opp_entry_bumped(entries[0], win),
        ));
    } else {
        assert(forall|k: int|
            0 <= k < j - 1 ==> (#[trigger] entries.drop_first()[k]).opponent_id != opp);
        lemma_bump_opp_found(entries.drop_first(), opp, win, j - 1);
        assert(bump_opp(entries, opp, win) =~= entries.update(
            j,
            opp_entry_bumped(entries[j], win),
        ));
    }
}

/// Recording against an opponent with no entry appends a fresh entry.
proof fn lemma_bump_opp_missing(entries: Seq<OppTallyView>, opp: i64, win: bool)
    requires
        forall|k: int| 0 <= k < entries.len() ==> (#[trigger] entries[k]).opponent_id != opp,
    ensures
        bump_opp(entries, opp, win) == entries.push(new_opp_entry(opp, win)),
    decreases entries.len(),
{
    if entries.len() == 0 {
        assert(bump_opp(entries, opp, win) =~= entries.push(new_opp_entry(opp, win)));
    } else {
        assert(forall|k: int|
            0 <= k < entries.drop_first().len() ==> (#[trigger] entries.drop_first()[k]).opponent_id
                != opp);
        lemma_bump_opp_missing(entries.drop_first(), opp, win);
        assert(bump_opp(entries, opp, win) =~= entries.push(new_opp_entry(opp, win)));
    }
}

/// Point totals over a history with non-negative scores are non-negative.
proof fn lemma_points_nonneg(ms: Seq<Match>, uid: i64)
    requires
        forall|i: int|
            0 <= i < ms.len() ==> (#[trigger] ms[i]).score_p1 >= 0 && ms[i].score_p2 >= 0,
    ensures
        points_scored_of(ms, uid) >= 0,
        points_conceded_of(ms, uid) >= 0,
    decreases ms.len(),
{
    if ms.len() > 0 {
        assert(forall|i: int|
            0 <= i < ms.drop_last().len() ==> (#[trigger] ms.drop_last()[i]).score_p1 >= 0
                && ms.drop_last()[i].score_p2 >= 0);
        lemma_points_nonneg(ms.drop_last(), uid);
    }
}

/// A prefix's point totals never exceed the whole history's.
proof fn lemma_points_prefix_le(ms: Seq<Match>, uid: i64, i: int)
    requires
        0 <= i <= ms.len(),
        forall|k: int|
            0 <= k < ms.len() ==> (#[trigger] ms[k]).score_p1 >= 0 && ms[k].score_p2 >= 0,
    ensures
        points_scored_of(ms.take(i), uid) <= points_scored_of(ms, uid),
        points_conceded_of(ms.take(i), uid) <= points_conceded_of(ms, uid),
    decreases ms.len() - i,
{
    if i == ms.len() {
        assert(ms.take(i) =~= ms);
    } else {
        lemma_points_prefix_le(ms, uid, i + 1);
        assert(ms.take(i + 1).drop_last() =~= ms.take(i));
        assert(ms.take(i + 1).last() == ms[i]);
    }
}

/// Whether an optional seat id equals the given id.
fn opt_eq(seat: Option<i64>, pid: i64) -> (b: bool)
    ensures
        b == (seat == Some(pid)),
{
    match seat {
        Some(x) => x == pid,
        None => false,
    }
}

/// Looks up the display name for a player id: the first record with that
/// id, or "Unknown".
#[verifier::loop_isolation(false)]
pub fn lookup_user_name(users: &Vec<User>, id: i64) -> (name: String)
    ensures
        name@ == user_name_of(users@, id),
{
    let mut i: usize = 0;
    while i < users.len()
        invariant
            i <= users.len(),
            user_name_of(users@, id) == user_name_from(users@, id, i as int),
        decreases users.len() - i,
    {
        if users[i].id == id {
            return users[i].name.clone();
        }
        i = i + 1;
    }
    String::from_str("Unknown")
}

/// Looks up the display name for a mode id: the first record with that id,
/// or "Unknown".
#[verifier::loop_isolation(false)]
pub fn lookup_mode_name(modes: &Vec<GameMode>, id: i64) -> (name: String)
    ensures
        name@ == mode_name_of(modes@, id),
{
    let mut i: usize = 0;
    while i < modes.len()
        invariant
            i <= modes.len(),
            mode_name_of(modes@, id) == mode_name_from(modes@, id, i as int),
        decreases modes.len() - i,
    {
        if modes[i].id == id {
            return modes[i].name.clone();
        }
        i = i + 1;
    }
    String::from_str("Unknown")
}

/// Computes the player's statistics from their finished-match history
/// (ascending by start time), with the player records for name lookups and
/// the mode records for mode names. Read-only: everything is derived from
/// the values handed in.
///
/// Wins, losses, streaks, points and the per-mode and per-opponent tallies
/// walk the history in order; the nemesis (most losses against) and victim
/// (most wins against) take the first maximal tally in first-appearance
/// order; the recent lines are the last ten matches, most recent first.
#[verifier::loop_isolation(false)]
pub fn get_user_statistics(
    user_id: i64,
    matches: &Vec<Match>,
    users: &Vec<User>,
    modes: &Vec<GameMode>,
) -> (stats: UserStatistics)
    requires
        stats_input_ok(user_id, matches@),
        matches@.len() <= i64::MAX,
        points_scored_of(matches@, user_id) <= i64::MAX,
        points_conceded_of(matches@, user_id) <= i64::MAX,
    ensures
        stats.user_id == user_id,
        stats.wins == wins_of(results_of(matches@, user_id)),
        stats.losses == matches@.len() - wins_of(results_of(matches@, user_id)),
        stats.matches_played == matches@.len(),
        stats.current_streak == current_streak_of(results_of(matches@, user_id)),
        stats.best_streak == best_streak_of(results_of(matches@, user_id)),
        stats.points_scored == points_scored_of(matches@, user_id),
        stats.points_conceded == points_conceded_of(matches@, user_id),
        ({
            let entries = mode_stats_of(matches@, modes@, user_id);
            &&& stats.mode_stats@.len() == entries.len()
            &&& forall|j: int|
                0 <= j < entries.len() ==> (#[trigger] stats.mode_stats@[j])@ == entries[j]
        }),
        ({
            let tallies = opp_tallies_of(matches@, user_id);
            &&& match max_by_losses(tallies) {
                Some(t) => stats.nemesis is Some && stats.nemesis->0@ == (OpponentStatView {
                    opponent_id: t.opponent_id,
                    opponent_name: user_name_of(users@, t.opponent_id),
                    count: t.losses_against,
                }),
                None => stats.nemesis is None,
            }
            &&& match max_by_wins(tallies) {
                Some(t) => stats.victim is Some && stats.victim->0@ == (OpponentStatView {
                    opponent_id: t.opponent_id,
                    opponent_name: user_name_of(users@, t.opponent_id),
                    count: t.wins_against,
                }),
                None => stats.victim is None,
            }
        }),
        ({
            let n = matches@.len() as int;
            let k = if n > 10 {
                10int
            } else {
                n
            };
            &&& stats.recent_matches@.len() == k
            &&& forall|j: int|
                0 <= j < k ==> (#[trigger] stats.recent_matches@[j])@ == recent_line_of(
                    matches@[n - 1 - j],
                    user_id,
                    users@,
                    modes@,
                )
        }),
{
    let ghost ms = matches@;
    let mut wins: i64 = 0;
    let mut losses: i64 = 0;
    let mut current_streak: i64 = 0;
    let mut best_streak: i64 = 0;
    let mut points_scored: i64 = 0;
    let mut points_conceded: i64 = 0;
    let mut mode_stats: Vec<ModeStat> = Vec::new();
    let mut opp_tallies: Vec<OpponentTally> = Vec::new();
    let mut i: usize = 0;
    while i < matches.len()
        invariant
            i <= ms.len(),
            wins == wins_of(results_of(ms.take(i as int), user_id)),
            0 <= wins <= i,
            losses == i - wins,
            current_streak == current_streak_of(results_of(ms.take(i as int), user_id)),
            0 <= current_streak <= i,
            best_streak == best_streak_of(results_of(ms.take(i as int), user_id)),
            0 <= best_streak <= i,
            points_scored == points_scored_of(ms.take(i as int), user_id),
            points_conceded == points_conceded_of(ms.take(i as int), user_id),
            mode_stats@.len() == mode_stats_of(ms.take(i as int), modes@, user_id).len(),
            forall|j: int|
                0 <= j < mode_stats@.len() ==> (#[trigger] mode_stats@[j])@ == mode_stats_of(
                    ms.take(i as int),
                    modes@,
                    user_id,
                )[j],
            forall|j: int|
                0 <= j < mode_stats@.len() ==> 0 <= (#[trigger] mode_stats@[j]).wins <= i && 0 <= (
                mode_stats@[j]).losses <= i,
            opp_tallies@.len() == opp_tallies_of(ms.take(i as int), user_id).len(),
            forall|j: int|
                0 <= j < opp_tallies@.len() ==> (#[trigger] opp_tallies@[j])@ == opp_tallies_of(
                    ms.take(i as int),
                    user_id,
                )[j],
            forall|j: int|
                0 <= j < opp_tallies@.len() ==> 0 <= (#[trigger] opp_tallies@[j]).wins_against <= i
                    && 0 <= (opp_tallies@[j]).losses_against <= i,
        decreases ms.len() - i,
    {
        let m_is_a = matches[i].player1_id == user_id || opt_eq(matches[i].player3_id, user_id);
        let win = if m_is_a {
            opt_eq(matches[i].winner_id, matches[i].player1_id)
        } else {
            opt_eq(matches[i].winner_id, matches[i].player2_id)
        };
        let ps: i64 = if m_is_a {
            matches[i].score_p1
        } else {
            matches[i].score_p2
        };
        let os: i64 = if m_is_a {
            matches[i].score_p2
        } else {
            matches[i].score_p1
        };
        proof {
            assert(ms.take(i + 1).drop_last() =~= ms.take(i as int));
            assert(ms.take(i + 1).last() == ms[i as int]);
            assert(win == is_win(ms[i as int], user_id));
            assert(results_of(ms.take(i as int), user_id).push(
                is_win(ms[i as int], user_id),
            ).drop_last() =~= results_of(ms.take(i as int), user_id));
            lemma_points_prefix_le(ms, user_id, i + 1);
            assert(forall|q: int|
                0 <= q < ms.take(i as int).len() ==> (#[trigger] ms.take(
                    i as int,
                )[q]).score_p1 >= 0 && ms.take(i as int)[q].score_p2 >= 0);
            lemma_points_nonneg(ms.take(i as int), user_id);
        }
        let mode_name = lookup_mode_name(modes, matches[i].game_mode_id);
        let mut j: usize = 0;
        let mut found: Option<usize> = None;
        while j < mode_stats.len()
            invariant
                j <= mode_stats@.len(),
                match found {
                    Some(jj) => jj < j && mode_stats@[jj as int].mode_name@ == mode_name@ && (
                    forall|k: int|
                        0 <= k < jj ==> (#[trigger] mode_stats@[k]).mode_name@ != mode_name@),
                    None => forall|k: int|
                        0 <= k < j ==> (#[trigger] mode_stats@[k]).mode_name@ != mode_name@,
                },
            decreases mode_stats@.len() - j,
        {
            if found.is_none() && mode_stats[j].mode_name == mode_name {
                found = Some(j);
            }
            j = j + 1;
        }
        match found {
            Some(jj) => {
                proof {
                    let entries = mode_stats_of(ms.take(i as int), modes@, user_id);
                    assert forall|k: int| 0 <= k < jj implies (#[trigger] entries[k]).mode_name
                        != mode_name@ by {
                        assert(mode_stats@[k]@ == entries[k]);
                    }
                    assert(mode_stats@[jj as int]@ == entries[jj as int]);
                    lemma_bump_mode_found(
                        entries,
                        mode_name@,
                        is_win(ms[i as int], user_id),
                        jj as int,
                    );
                }
                let w = mode_stats[jj].wins;
                let l = mode_stats[jj].losses;
                let nm = mode_stats[jj].mode_name.clone();
                let bumped = ModeStat {
                    mode_name: nm,
                    wins: if win {
                        w + 1
                    } else {
                        w
                    },
                    losses: if win {
                        l
                    } else {
                        l + 1
                    },
                };
                mode_stats[jj] = bumped;
            },
            None => {
                proof {
                    let entries = mode_stats_of(ms.take(i as int), modes@, user_id);
                    assert forall|k: int|
                        0 <= k < entries.len() implies (#[trigger] entries[k]).mode_name
                        != mode_name@ by {
                        assert(mode_stats@[k]@ == entries[k]);
                    }
                    lemma_bump_mode_missing(entries, mode_name@, is_win(ms[i as int], user_id));
                }
                let fresh = ModeStat {
                    mode_name,
                    wins: if win {
                        1
                    } else {
                        0
                    },
                    losses: if win {
                        0
                    } else {
                        1
                    },
                };
                mode_stats.push(fresh);
            },
        }
        let opp: i64 = if m_is_a {
            matches[i].player2_id
        } else {
            matches[i].player1_id
        };
        let mut j2: usize = 0;
        let mut found2: Option<usize> = None;
        while j2 < opp_tallies.len()
            invariant
                j2 <= opp_tallies@.len(),
                match found2 {
                    Some(jj) => jj < j2 && opp_tallies@[jj as int].opponent_id == opp && (forall|
                        k: int,
                    |
                        0 <= k < jj ==> (#[trigger] opp_tallies@[k]).opponent_id != opp),
                    None => forall|k: int|
                        0 <= k < j2 ==> (#[trigger] opp_tallies@[k]).opponent_id != opp,
                },
            decreases opp_tallies@.len() - j2,
        {
            if found2.is_none() && opp_tallies[j2].opponent_id == opp {
                found2 = Some(j2);
            }
            j2 = j2 + 1;
        }
        match found2 {
            Some(jj) => {
                proof {
                    let prev_tallies = opp_tallies_of(ms.take(i as int), user_id);
                    assert forall|k: int| 0 <= k < jj implies (#[trigger] prev_tallies[k]).opponent_id
                        != opp by {
                        assert(opp_tallies@[k]@ == prev_tallies[k]);
                    }
                    assert(opp_tallies@[jj as int]@ == prev_tallies[jj as int]);
                    lemma_bump_opp_found(prev_tallies, opp, is_win(ms[i as int], user_id), jj as int);
                }
                let t = opp_tallies[jj];
                let bumped = OpponentTally {
                    opponent_id: t.opponent_id,
                    wins_against: if win {
                        t.wins_against + 1
                    } else {
                        t.wins_against
                    },
                    losses_against: if win {
                        t.losses_against
                    } else {
                        t.losses_against + 1
                    },
                };
                opp_tallies[jj] = bumped;
            },
            None => {
                proof {
                    let prev_tallies = opp_tallies_of(ms.take(i as int), user_id);
                    assert forall|k: int|
                        0 <= k < prev_tallies.len() implies (#[trigger] prev_tallies[k]).opponent_id
                        != opp by {
                        assert(opp_tallies@[k]@ == prev_tallies[k]);
                    }
                    lemma_bump_opp_missing(prev_tallies, opp, is_win(ms[i as int], user_id));
                }
                let fresh = OpponentTally {
                    opponent_id: opp,
                    wins_against: if win {
                        1
                    } else {
                        0
                    },
                    losses_against: if win {
                        0
                    } else {
                        1
                    },
                };
                opp_tallies.push(fresh);
            },
        }
        if win {
            wins = wins + 1;
            current_streak = current_streak + 1;
            if current_streak > best_streak {
                best_streak = current_streak;
            }
        } else {
            losses = losses + 1;
            current_streak = 0;
        }
        points_scored = points_scored + ps;
        points_conceded = points_conceded + os;
        i = i + 1;
    }
    proof {
        assert(ms.take(ms.len() as int) =~= ms);
    }
    let ghost tallies = opp_tallies_of(ms, user_id);
    let mut nem: Option<OpponentTally> = None;
    let mut vic: Option<OpponentTally> = None;
    let mut j: usize = 0;
    while j < opp_tallies.len()
        invariant
            j <= opp_tallies@.len(),
            match nem {
                Some(b) => max_by_losses(tallies.take(j as int)) == Some(b@),
                None => max_by_losses(tallies.take(j as int)) is None,
            },
            match vic {
                Some(b) => max_by_wins(tallies.take(j as int)) == Some(b@),
                None => max_by_wins(tallies.take(j as int)) is None,
            },
        decreases opp_tallies@.len() - j,
    {
        proof {
            assert(tallies.take(j + 1).drop_last() =~= tallies.take(j as int));
            assert(tallies.take(j + 1).last() == tallies[j as int]);
        }
        let t = opp_tallies[j];
        nem = match nem {
            None => Some(t),
            Some(b) => if t.losses_against > b.losses_against {
                Some(t)
            } else {
                Some(b)
            },
        };
        vic = match vic {
            None => Some(t),
            Some(b) => if t.wins_against > b.wins_against {
                Some(t)
            } else {
                Some(b)
            },
        };
        j = j + 1;
    }
    proof {
        assert(tallies.take(tallies.len() as int) =~= tallies);
    }
    let nemesis: Option<OpponentStat> = match nem {
        Some(t) => Some(
            OpponentStat {
                opponent_id: t.opponent_id,
                opponent_name: lookup_user_name(users, t.opponent_id),
                count: t.losses_against,
            },
        ),
        None => None,
    };
    let victim: Option<OpponentStat> = match vic {
        Some(t) => Some(
            OpponentStat {
                opponent_id: t.opponent_id,
                opponent_name: lookup_user_name(users, t.opponent_id),
                count: t.wins_against,
            },
        ),
        None => None,
    };
    let n = matches.len();
    let k: usize = if n > 10 {
        10
    } else {
        n
    };
    let mut recent: Vec<RecentMatch> = Vec::new();
    let mut r: usize = 0;
    while r < k
        invariant
            r <= k,
            recent@.len() == r,
            forall|jj: int|
                0 <= jj < r ==> (#[trigger] recent@[jj])@ == recent_line_of(
                    ms[ms.len() - 1 - jj],
                    user_id,
                    users@,
                    modes@,
                ),
        decreases k - r,
    {
        let idx = n - 1 - r;
        let m_is_a = matches[idx].player1_id == user_id || opt_eq(matches[idx].player3_id, user_id);
        let win = if m_is_a {
            opt_eq(matches[idx].winner_id, matches[idx].player1_id)
        } else {
            opt_eq(matches[idx].winner_id, matches[idx].player2_id)
        };
        let line = RecentMatch {
            match_id: matches[idx].id,
            date: format_rfc3339_ms(matches[idx].start_time_ms),
            opponent_name: lookup_user_name(
                users,
                if m_is_a {
                    matches[idx].player2_id
                } else {
                    matches[idx].player1_id
                },
            ),
            result: if win {
                String::from_str("Win")
            } else {
                String::from_str("Loss")
            },
            score_user: if m_is_a {
                matches[idx].score_p1
            } else {
                matches[idx].score_p2
            },
            score_opponent: if m_is_a {
                matches[idx].score_p2
            } else {
                matches[idx].score_p1
            },
            mode_name: lookup_mode_name(modes, matches[idx].game_mode_id),
        };
        recent.push(line);
        r = r + 1;
    }
    UserStatistics {
        user_id,
        wins,
        losses,
        matches_played: wins + losses,
        current_streak,
        best_streak,
        points_scored,
        points_conceded,
        mode_stats,
        recent_matches: recent,
        nemesis,
        victim,
    }
}

} // verus!
