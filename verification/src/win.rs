//! Win-condition evaluation: given the current scores and the mode's rules,
//! decide whether the match has ended and which side won. Pure: no state,
//! and the result is a function of the arguments alone, so repeated
//! evaluation on identical inputs yields identical results.

use vstd::prelude::*;

use crate::models::Side;

verus! {

/// What the evaluator returns, as a mathematical function of the inputs.
///
/// The three rules of the ruleset (basic win when deuce is disabled, deuce
/// win, and the lead-by-two fallback) all collapse on whole points to the
/// same bound — score at or past the threshold and a lead of at least two —
/// so the decision does not depend on the deuce flag. Side A is decided
/// before side B.
pub open spec fn winner_of(
    p1_score: int,
    p2_score: int,
    points_to_win: int,
    is_deuce_enabled: bool,
) -> Option<Side> {
    if p1_score >= points_to_win && p1_score - p2_score >= 2 {
        Some(Side::A)
    } else if p2_score >= points_to_win && p2_score - p1_score >= 2 {
        Some(Side::B)
    } else {
        None
    }
}

/// Decides whether a side has won at the given scores.
///
/// The three rules are checked in order, first match wins: the basic win
/// (threshold reached, lead of more than one point) when deuce is disabled;
/// the deuce win (threshold reached, lead of at least two); and the
/// lead-by-two fallback regardless of the flag.
pub fn check_win_condition(
    p1_score: i64,
    p2_score: i64,
    points_to_win: i64,
    is_deuce_enabled: bool,
) -> (winner: Option<Side>)
    requires
        p1_score >= 0,
        p2_score >= 0,
    ensures
        winner == winner_of(p1_score as int, p2_score as int, points_to_win as int, is_deuce_enabled),
{
    // Basic win
    if !is_deuce_enabled {
        if p1_score >= points_to_win && p1_score - p2_score > 1 {
            return Some(Side::A);
        }
        if p2_score >= points_to_win && p2_score - p1_score > 1 {
            return Some(Side::B);
        }
    }

    // Deuce logic (requires a 2 point lead)
    if is_deuce_enabled {
        if p1_score >= points_to_win && p1_score - p2_score >= 2 {
            return Some(Side::A);
        }
        if p2_score >= points_to_win && p2_score - p1_score >= 2 {
            return Some(Side::B);
        }
    }

    // Fallback: win by 2 is enforced either way
    if p1_score >= points_to_win && p1_score - p2_score >= 2 {
        return Some(Side::A);
    }
    if p2_score >= points_to_win && p2_score - p1_score >= 2 {
        return Some(Side::B);
    }

    None
}

/// Law: a winner is returned iff the winning side's score has reached the
/// threshold and its lead is at least two points (on whole points, "leads
/// by more than one" and "leads by at least two" are the same bound, so the
/// characterization holds with and without deuce). Side A is decided before
/// side B, so B wins only when A does not.
pub proof fn lemma_winner_characterization(
    p1_score: int,
    p2_score: int,
    points_to_win: int,
    is_deuce_enabled: bool,
)
    ensures
        (winner_of(p1_score, p2_score, points_to_win, is_deuce_enabled) == Some(Side::A)) <==> (
        p1_score >= points_to_win && p1_score - p2_score >= 2),
        (winner_of(p1_score, p2_score, points_to_win, is_deuce_enabled) == Some(Side::B)) <==> (
        !(p1_score >= points_to_win && p1_score - p2_score >= 2) && p2_score >= points_to_win
            && p2_score - p1_score >= 2),
        (winner_of(p1_score, p2_score, points_to_win, is_deuce_enabled) is None) <==> (!(p1_score
            >= points_to_win && p1_score - p2_score >= 2) && !(p2_score >= points_to_win
            && p2_score - p1_score >= 2)),
{
}

/// Law: the decision is the same with deuce enabled and disabled — every
/// rule of the ruleset reduces to the lead-by-two bound.
pub proof fn lemma_winner_deuce_independent(p1_score: int, p2_score: int, points_to_win: int)
    ensures
        winner_of(p1_score, p2_score, points_to_win, true) == winner_of(
            p1_score,
            p2_score,
            points_to_win,
            false,
        ),
{
}

} // verus!
