//! Properties of the playback state machine, proved over its model.
use vstd::prelude::*;

use vstd::arithmetic::div_mod::lemma_mod_self_0;

use crate::model::{clamp_u64, elapsed, PlayerModel};

verus! {

/// While the clock runs, the position never decreases as the clock reading
/// grows, and between two readings at or after the anchor it grows by
/// exactly the time between them (short of the `u64` ceiling).
pub proof fn law_position_tracks_time(m: PlayerModel, t1: u64, t2: u64)
    requires
        t1 <= t2,
    ensures
        m.position_at(t1) <= m.position_at(t2),
        m.playing && m.anchor <= t1 && m.baseline + (t2 - m.anchor) <= u64::MAX ==> m.position_at(
            t2,
        ) - m.position_at(t1) == t2 - t1,
{
}

/// After a pause the position stays at the value it had when paused, at
/// every later reading; starting again resumes from that value.
pub proof fn law_pause_freezes_and_play_resumes(
    m: PlayerModel,
    t_pause: u64,
    t_read: u64,
    t_play: u64,
    t_after: u64,
)
    ensures
        m.set_playing_at(false, t_pause).position_at(t_read) == m.position_at(t_pause),
        m.set_playing_at(false, t_pause).set_playing_at(true, t_play).position_at(t_after)
            == clamp_u64(m.position_at(t_pause) + elapsed(t_play, t_after)),
{
}

/// Right after `seek(d)` the position is the old baseline plus `d`, kept
/// within `[0, u64::MAX]`.
pub proof fn law_seek_moves_baseline(m: PlayerModel, d: i64, t: u64)
    ensures
        m.seek_at(d, t).position_at(t) == clamp_u64(m.baseline + d),
        0 <= m.baseline + d <= u64::MAX ==> m.seek_at(d, t).position_at(t) == m.baseline + d,
{
}

/// `next` and `previous` keep the cursor within the queue, wrapping from the
/// last track to the first and from the first to the last.
pub proof fn law_navigation_wraps(m: PlayerModel, t: u64)
    requires
        m.wf(),
    ensures
        m.next_at(t).wf(),
        m.previous_at(t).wf(),
        m.cursor == m.count() - 1 ==> m.next_at(t).cursor == 0,
        m.cursor == 0 ==> m.previous_at(t).cursor == m.count() - 1,
        m.cursor < m.count() - 1 ==> m.next_at(t).cursor == m.cursor + 1,
        m.cursor > 0 ==> m.previous_at(t).cursor == m.cursor - 1,
        m.next_at(t).position_at(t) == 0,
        m.previous_at(t).position_at(t) == 0,
{
    m.lemma_step_is_select(t);
    let n = m.count();
    if m.cursor == n - 1 {
        lemma_mod_self_0(n);
    }
}

/// Setting a position at or past the current track's end is the same as
/// `next`, and the position then reads 0.
pub proof fn law_set_position_past_end(m: PlayerModel, x: u64, t: u64)
    requires
        m.wf(),
        x >= m.current_length(),
    ensures
        m.set_position_at(x, t) == m.next_at(t),
        m.set_position_at(x, t).position_at(t) == 0,
{
}

/// A scheduler tick at which the position has reached the current track's
/// duration is `next`; any other tick changes nothing.
pub proof fn law_tick_advances_when_done(m: PlayerModel, t: u64)
    requires
        m.wf(),
    ensures
        m.position_at(t) >= m.current_length() ==> m.tick_at(t) == m.next_at(t)
            && m.tick_at(t).position_at(t) == 0,
        m.position_at(t) < m.current_length() ==> m.tick_at(t) == m,
        m.tick_at(t).wf(),
{
    law_navigation_wraps(m, t);
}

/// Pausing a paused player changes nothing, so repeated pauses never change
/// the position.
pub proof fn law_pause_idempotent(m: PlayerModel, t1: u64, t2: u64, t_read: u64)
    ensures
        m.set_playing_at(false, t1).set_playing_at(false, t2) == m.set_playing_at(false, t1),
        m.set_playing_at(false, t1).set_playing_at(false, t2).position_at(t_read)
            == m.position_at(t1),
{
}

} // verus!
