//! The abstract playback state and its transitions, as spec functions over
//! millisecond clock readings.
use vstd::prelude::*;

use vstd::arithmetic::div_mod::{lemma_mod_add_multiples_vanish, lemma_mod_self_0, lemma_small_mod};

verus! {

/// Milliseconds from `anchor` to `now`; a reading earlier than the anchor
/// counts as no time at all.
pub open spec fn elapsed(anchor: u64, now: u64) -> int {
    if now >= anchor {
        now - anchor
    } else {
        0
    }
}

/// `v` brought into the range of `u64`.
pub open spec fn clamp_u64(v: int) -> u64 {
    if v < 0 {
        0
    } else if v > u64::MAX {
        u64::MAX
    } else {
        v as u64
    }
}

/// What a player is, abstractly: whether the clock runs, the frozen offset,
/// the clock reading at which the clock was last anchored, the current queue
/// position and the durations of the queued tracks.
pub struct PlayerModel {
    pub playing: bool,
    pub baseline: u64,
    pub anchor: u64,
    pub cursor: int,
    pub lengths: Seq<u64>,
}

impl PlayerModel {
    pub open spec fn wf(self) -> bool {
        &&& self.lengths.len() >= 1
        &&& 0 <= self.cursor < self.lengths.len()
    }

    pub open spec fn count(self) -> int {
        self.lengths.len() as int
    }

    pub open spec fn current_length(self) -> u64 {
        self.lengths[self.cursor]
    }

    /// The playback offset at clock reading `now`.
    pub open spec fn position_at(self, now: u64) -> u64 {
        if self.playing {
            clamp_u64(self.baseline + elapsed(self.anchor, now))
        } else {
            self.baseline
        }
    }

    /// Starting folds nothing and re-anchors; pausing folds the elapsed time
    /// into the baseline. Asking for the state already in force changes
    /// nothing.
    pub open spec fn set_playing_at(self, playing: bool, now: u64) -> PlayerModel {
        if self.playing && !playing {
            PlayerModel { playing: false, baseline: self.position_at(now), ..self }
        } else if !self.playing && playing {
            PlayerModel { playing: true, anchor: now, ..self }
        } else {
            self
        }
    }

    pub open spec fn toggle_at(self, now: u64) -> PlayerModel {
        self.set_playing_at(!self.playing, now)
    }

    /// The offset set to `pos`, counted from `now`.
    pub open spec fn restart_at(self, pos: u64, now: u64) -> PlayerModel {
        PlayerModel { baseline: pos, anchor: now, ..self }
    }

    /// The baseline moved by `offset`, kept within `[0, u64::MAX]`.
    pub open spec fn seek_at(self, offset: i64, now: u64) -> PlayerModel {
        self.restart_at(clamp_u64(self.baseline + offset), now)
    }

    /// The queue position chosen by `track`: past the end wraps to the first
    /// track, before the start to the last.
    pub open spec fn select_track(self, track: int) -> PlayerModel {
        let c = if track >= self.count() {
            0
        } else if track < 0 {
            self.count() - 1
        } else {
            track
        };
        PlayerModel { cursor: c, ..self }
    }

    pub open spec fn next_at(self, now: u64) -> PlayerModel {
        PlayerModel {
            cursor: (self.cursor + 1) % self.count(),
            ..self.restart_at(0, now)
        }
    }

    pub open spec fn previous_at(self, now: u64) -> PlayerModel {
        PlayerModel {
            cursor: (self.cursor - 1 + self.count()) % self.count(),
            ..self.restart_at(0, now)
        }
    }

    /// An absolute position at or past the current track's end completes
    /// the track.
    pub open spec fn set_position_at(self, pos: u64, now: u64) -> PlayerModel {
        if pos >= self.current_length() {
            self.next_at(now)
        } else {
            self.restart_at(pos, now)
        }
    }

    /// One scheduler tick: once the position has reached the duration of the
    /// current track, move on to the next one.
    pub open spec fn tick_at(self, now: u64) -> PlayerModel {
        if self.position_at(now) >= self.current_length() {
            self.next_at(now)
        } else {
            self
        }
    }

    /// Stepping the cursor by one with wrap-around is choosing the track one
    /// further on, past the end taken as the first and before the start as
    /// the last.
    pub proof fn lemma_step_is_select(self, now: u64)
        requires
            self.wf(),
        ensures
            self.next_at(now) == self.select_track(self.cursor + 1).restart_at(0, now),
            self.previous_at(now) == self.select_track(self.cursor - 1).restart_at(0, now),
    {
        let n = self.count();
        let c = self.cursor;
        if c + 1 < n {
            lemma_small_mod((c + 1) as nat, n as nat);
        } else {
            lemma_mod_self_0(n);
        }
        if c == 0 {
            lemma_small_mod((n - 1) as nat, n as nat);
        } else {
            lemma_mod_add_multiples_vanish(c - 1, n);
            lemma_small_mod((c - 1) as nat, n as nat);
        }
    }
}

} // verus!
