//! Laws of the match engine, stated and proved over the spec-level
//! transitions that the executable operations are verified against.

use vstd::prelude::*;

use crate::engine::{
    apply_point_deltas, apply_point_error, apply_point_state, finalize_deltas,
    lemma_apply_point_state_wf, lemma_count_side_nonneg, match_wf, neg_deltas, point_event, seats,
    side_of, undo_deltas, undo_error, undo_state, winner_side, SeatsView,
};
use crate::models::{DeltaView, MatchStatus, MatchView, Side};

verus! {

/// Law: a point application followed by an undo restores the match exactly
/// — score, status, winner, end time, rules and log — to its pre-point
/// state. In particular a point that finalized the match is fully reversed.
pub proof fn lemma_point_then_undo_restores(
    m: MatchView,
    pid: int,
    now: int,
    points_to_win: int,
    deuce: bool,
)
    requires
        match_wf(m),
        apply_point_error(m, pid) is None,
    ensures
        undo_error(apply_point_state(m, pid, now, points_to_win, deuce)) is None,
        undo_state(apply_point_state(m, pid, now, points_to_win, deuce)) == m,
{
    let m1 = apply_point_state(m, pid, now, points_to_win, deuce);
    let ev = point_event(m, pid, now);
    lemma_apply_point_state_wf(m, pid, now, points_to_win, deuce);
    lemma_count_side_nonneg(seats(m), m.events, Side::A);
    lemma_count_side_nonneg(seats(m), m.events, Side::B);
    assert(m1.events.last() == ev);
    assert(m1.events.drop_last() =~= m.events);
    assert(undo_state(m1) =~= m);
}

/// Law: the counter updates of the undo are the exact inverses of the
/// counter updates of the point application it reverses. Stated for
/// matches whose two primary seats are distinct ids: when both sides share
/// one primary seat the recorded winner id cannot tell the sides apart.
pub proof fn lemma_point_then_undo_counters(
    m: MatchView,
    pid: int,
    now: int,
    points_to_win: int,
    deuce: bool,
)
    requires
        match_wf(m),
        apply_point_error(m, pid) is None,
        m.player1_id != m.player2_id,
    ensures
        undo_deltas(apply_point_state(m, pid, now, points_to_win, deuce)) == neg_deltas(
            apply_point_deltas(m, pid, now, points_to_win, deuce),
        ),
{
    let m1 = apply_point_state(m, pid, now, points_to_win, deuce);
    if m1.status == MatchStatus::Finished {
        assert(finalize_deltas(m1, winner_side(m1)) =~= finalize_deltas(m, winner_side(m1)));
    } else {
        assert(neg_deltas(Seq::empty()) =~= Seq::<DeltaView>::empty());
    }
}

/// The match state after a run of point applications, applied in order.
pub open spec fn apply_seq_state(
    m: MatchView,
    pids: Seq<int>,
    nows: Seq<int>,
    points_to_win: int,
    deuce: bool,
) -> MatchView
    recommends
        pids.len() == nows.len(),
    decreases pids.len(),
{
    if pids.len() == 0 {
        m
    } else {
        apply_point_state(
            apply_seq_state(m, pids.drop_last(), nows.drop_last(), points_to_win, deuce),
            pids.last(),
            nows.last(),
            points_to_win,
            deuce,
        )
    }
}

/// Whether every point application of the run is accepted: at each step the
/// match is still in progress and the acting participant is seated.
pub open spec fn apply_seq_ok(
    m: MatchView,
    pids: Seq<int>,
    nows: Seq<int>,
    points_to_win: int,
    deuce: bool,
) -> bool
    recommends
        pids.len() == nows.len(),
    decreases pids.len(),
{
    if pids.len() == 0 {
        true
    } else {
        apply_seq_ok(m, pids.drop_last(), nows.drop_last(), points_to_win, deuce)
            && apply_point_error(
            apply_seq_state(m, pids.drop_last(), nows.drop_last(), points_to_win, deuce),
            pids.last(),
        ) is None
    }
}

/// The match state after undoing the most recent event `n` times.
pub open spec fn undo_n_state(m: MatchView, n: nat) -> MatchView
    decreases n,
{
    if n == 0 {
        m
    } else {
        undo_n_state(undo_state(m), (n - 1) as nat)
    }
}

/// Well-formedness is preserved along any accepted run of point
/// applications.
pub proof fn lemma_apply_seq_wf(
    m: MatchView,
    pids: Seq<int>,
    nows: Seq<int>,
    points_to_win: int,
    deuce: bool,
)
    requires
        match_wf(m),
        pids.len() == nows.len(),
        apply_seq_ok(m, pids, nows, points_to_win, deuce),
    ensures
        match_wf(apply_seq_state(m, pids, nows, points_to_win, deuce)),
    decreases pids.len(),
{
    if pids.len() > 0 {
        lemma_apply_seq_wf(m, pids.drop_last(), nows.drop_last(), points_to_win, deuce);
        lemma_apply_point_state_wf(
            apply_seq_state(m, pids.drop_last(), nows.drop_last(), points_to_win, deuce),
            pids.last(),
            nows.last(),
            points_to_win,
            deuce,
        );
    }
}

/// Law: any accepted run of N point applications followed by N undos
/// restores the initial state exactly — same score, empty of everything the
/// run added, same status, same winner.
pub proof fn lemma_points_then_undo_all(
    m: MatchView,
    pids: Seq<int>,
    nows: Seq<int>,
    points_to_win: int,
    deuce: bool,
)
    requires
        match_wf(m),
        pids.len() == nows.len(),
        apply_seq_ok(m, pids, nows, points_to_win, deuce),
    ensures
        undo_n_state(apply_seq_state(m, pids, nows, points_to_win, deuce), pids.len()) == m,
    decreases pids.len(),
{
    if pids.len() > 0 {
        let prev = apply_seq_state(m, pids.drop_last(), nows.drop_last(), points_to_win, deuce);
        let m1 = apply_point_state(prev, pids.last(), nows.last(), points_to_win, deuce);
        lemma_apply_seq_wf(m, pids.drop_last(), nows.drop_last(), points_to_win, deuce);
        lemma_point_then_undo_restores(prev, pids.last(), nows.last(), points_to_win, deuce);
        assert(undo_n_state(m1, pids.len() as nat) == undo_n_state(
            undo_state(m1),
            (pids.len() - 1) as nat,
        ));
        lemma_points_then_undo_all(m, pids.drop_last(), nows.drop_last(), points_to_win, deuce);
    }
}

/// How many of the acting participants of a run are seated on side `s`.
pub open spec fn count_pids(st: SeatsView, pids: Seq<int>, s: Side) -> int
    decreases pids.len(),
{
    if pids.len() == 0 {
        0
    } else {
        count_pids(st, pids.drop_last(), s) + (if side_of(st, pids.last()) == Some(s) {
            1int
        } else {
            0int
        })
    }
}

/// Law: an accepted run of N point applications against one match —
/// serialized, as all mutating operations on one match id must be — grows
/// the log by exactly N, the i-th added event records the i-th acting
/// participant (no event is dropped), and each side's final score is its
/// starting score plus the number of points scored by its members.
pub proof fn lemma_point_run_counts(
    m: MatchView,
    pids: Seq<int>,
    nows: Seq<int>,
    points_to_win: int,
    deuce: bool,
)
    requires
        match_wf(m),
        pids.len() == nows.len(),
        apply_seq_ok(m, pids, nows, points_to_win, deuce),
    ensures
        ({
            let mn = apply_seq_state(m, pids, nows, points_to_win, deuce);
            &&& seats(mn) == seats(m)
            &&& mn.events.len() == m.events.len() + pids.len()
            &&& forall|i: int|
                0 <= i < pids.len() ==> #[trigger] mn.events[m.events.len() + i].participant_id
                    == pids[i]
            &&& mn.score_p1 == m.score_p1 + count_pids(seats(m), pids, Side::A)
            &&& mn.score_p2 == m.score_p2 + count_pids(seats(m), pids, Side::B)
        }),
    decreases pids.len(),
{
    if pids.len() > 0 {
        let prev = apply_seq_state(m, pids.drop_last(), nows.drop_last(), points_to_win, deuce);
        let mn = apply_seq_state(m, pids, nows, points_to_win, deuce);
        lemma_point_run_counts(m, pids.drop_last(), nows.drop_last(), points_to_win, deuce);
        lemma_apply_seq_wf(m, pids.drop_last(), nows.drop_last(), points_to_win, deuce);
        assert(mn.events == prev.events.push(
            point_event(prev, pids.last(), nows.last()),
        ));
        assert forall|i: int| 0 <= i < pids.len() implies #[trigger] mn.events[m.events.len()
            + i].participant_id == pids[i] by {
            if i < pids.len() - 1 {
                assert(prev.events[m.events.len() + i].participant_id == pids.drop_last()[i]);
            }
        }
    }
}

} // verus!
