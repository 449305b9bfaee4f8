//! Wall-clock reads and timestamp rendering, through chrono, behind
//! trusted wrappers. Everything that depends on a clock value is verified
//! for every value the clock can return.

use vstd::prelude::*;

use crate::engine::{
    apply_point, apply_point_deltas, apply_point_error, apply_point_state, match_wf,
};
use crate::models::{delta_views, CounterDelta, GameMode, Match, MatchError};

verus! {

/// The RFC 3339 rendering of a millisecond Unix timestamp, in UTC.
pub uninterp spec fn rfc3339_of(ms: int) -> Seq<char>;

/// Relies on chrono's `DateTime::<Utc>::from_timestamp_millis` and
/// `DateTime::to_rfc3339`: the rendered string is a function of the
/// timestamp alone (the zone is fixed to UTC); a timestamp outside
/// chrono's representable range has no date and is rendered empty.
#[verifier::external_body]
pub(crate) fn format_rfc3339_ms(ms: i64) -> (r: String)
    ensures
        r@ == rfc3339_of(ms as int),
{
    match chrono::DateTime::<chrono::Utc>::from_timestamp_millis(ms) {
        Some(d) => d.to_rfc3339(),
        None => String::new(),
    }
}

/// Relies on chrono's `Utc::now` and `DateTime::timestamp_millis` to read
/// the wall clock as milliseconds since the Unix epoch; nothing is assumed
/// of the value.
#[verifier::external_body]
fn now_millis() -> i64 {
    chrono::Utc::now().timestamp_millis()
}

/// Applies one point at the current wall-clock time: reads the clock once
/// and hands the timestamp to [`apply_point`], whose contract then holds
/// for whatever instant the clock returned.
pub fn apply_point_now(m: &mut Match, game_mode: &GameMode, participant_id: i64) -> (result:
    Result<Vec<CounterDelta>, MatchError>)
    requires
        match_wf(old(m)@),
        game_mode.id == old(m).game_mode_id,
        old(m).score_p1 < i64::MAX,
        old(m).score_p2 < i64::MAX,
    ensures
        match result {
            Ok(deltas) => {
                &&& apply_point_error(old(m)@, participant_id as int) is None
                &&& exists|now: int|
                    {
                        &&& final(m)@ == #[trigger] apply_point_state(
                            old(m)@,
                            participant_id as int,
                            now,
                            game_mode.points_to_win as int,
                            game_mode.is_deuce_enabled,
                        )
                        &&& delta_views(deltas@) == apply_point_deltas(
                            old(m)@,
                            participant_id as int,
                            now,
                            game_mode.points_to_win as int,
                            game_mode.is_deuce_enabled,
                        )
                    }
                &&& match_wf(final(m)@)
            },
            Err(e) => {
                &&& Some(e) == apply_point_error(old(m)@, participant_id as int)
                &&& *final(m) == *old(m)
            },
        },
{
    let now_ms = now_millis();
    let result = apply_point(m, game_mode, participant_id, now_ms);
    proof {
        match result {
            Ok(_) => {
                assert(m@ == apply_point_state(
                    old(m)@,
                    participant_id as int,
                    now_ms as int,
                    game_mode.points_to_win as int,
                    game_mode.is_deuce_enabled,
                ));
            },
            Err(_) => {},
        }
    }
    result
}

} // verus!
