//! The player: a queue of tracks, a playback clock and the passthrough
//! properties of the remote-control surface.
use vstd::prelude::*;

use std::collections::VecDeque;
use std::time::Instant;

use crate::clock::{instant_now, millis_since};
use crate::metadata::Metadata;
use crate::model::PlayerModel;
use crate::queue_index::{create_index, indexes_ids, track_ids};

verus! {

/// Bit pattern of the double 1.0, the initial rate and volume.
pub const UNIT_BITS: u64 = 0x3FF0_0000_0000_0000;

/// The durations of the tracks of a queue, in queue order.
pub open spec fn track_lengths(q: Seq<Metadata>) -> Seq<u64> {
    q.map_values(|m: Metadata| m.length)
}

/// Two queues whose tracks carry the same field values, position by position.
pub open spec fn same_tracks(a: Seq<Metadata>, b: Seq<Metadata>) -> bool {
    &&& a.len() == b.len()
    &&& forall|i: int| 0 <= i < a.len() ==> (#[trigger] a[i]).same_as(&b[i])
}

/// Properties that the player stores and reports but does not act upon.
/// Rate and volume are held as the bit patterns of their doubles.
pub struct Settings {
    pub shuffle: bool,
    pub rate_bits: u64,
    pub volume_bits: u64,
    pub loop_status: String,
}

/// The player. Time is read in whole milliseconds since `origin`, the
/// instant at which the player was built.
pub struct Player {
    pub settings: Settings,
    playing: bool,
    queue: VecDeque<Metadata>,
    index: Vec<(String, usize)>,
    playing_from_timestamp: u64,
    playing_from_millis: u64,
    origin: Instant,
    current_track: usize,
}

impl Player {
    pub closed spec fn model(&self) -> PlayerModel {
        PlayerModel {
            playing: self.playing,
            baseline: self.playing_from_timestamp,
            anchor: self.playing_from_millis,
            cursor: self.current_track as int,
            lengths: track_lengths(self.queue@),
        }
    }

    /// The stored properties.
    pub closed spec fn settings_of(&self) -> Settings {
        self.settings
    }

    /// The queued tracks.
    pub closed spec fn tracks(&self) -> Seq<Metadata> {
        self.queue@
    }

    /// The table from track identity to queue position.
    pub closed spec fn id_index(&self) -> Seq<(String, usize)> {
        self.index@
    }

    pub closed spec fn wf(&self) -> bool {
        &&& 1 <= self.queue@.len() <= isize::MAX
        &&& self.current_track < self.queue@.len()
        &&& indexes_ids(self.index@, track_ids(self.queue@))
    }

    /// The instant from which clock readings are counted.
    pub closed spec fn clock_origin(&self) -> Instant {
        self.origin
    }

    /// Everything but the playback state is as in `o`: the same tracks, the
    /// same identity table, the same stored properties and the same clock.
    pub open spec fn same_setup(&self, o: &Player) -> bool {
        &&& self.tracks() == o.tracks()
        &&& self.id_index() == o.id_index()
        &&& self.settings_of() == o.settings_of()
        &&& self.clock_origin() == o.clock_origin()
    }

    pub proof fn lemma_wf(&self)
        requires
            self.wf(),
        ensures
            self.model().wf(),
            self.model().count() == self.tracks().len(),
            self.model().lengths == track_lengths(self.tracks()),
            self.model().count() <= isize::MAX,
            self.model().current_length() == self.tracks()[self.model().cursor].length,
            indexes_ids(self.id_index(), track_ids(self.tracks())),
    {
    }

    /// A player over a copy of `queue`, playing from offset 0 at the first
    /// track; shuffle off, rate and volume 1.0, loop status "None".
    pub fn new(queue: &[Metadata]) -> (r: Player)
        requires
            1 <= queue@.len() <= isize::MAX,
        ensures
            r.wf(),
            same_tracks(r.tracks(), queue@),
            r.model() == (PlayerModel {
                playing: true,
                baseline: 0,
                anchor: 0,
                cursor: 0,
                lengths: track_lengths(queue@),
            }),
            !r.settings_of().shuffle,
            r.settings_of().rate_bits == UNIT_BITS,
            r.settings_of().volume_bits == UNIT_BITS,
            r.settings_of().loop_status@ == "None"@,
    {
        let mut tracks: VecDeque<Metadata> = VecDeque::new();
        let mut i: usize = 0;
        while i < queue.len()
            invariant
                0 <= i <= queue@.len(),
                same_tracks(tracks@, queue@.take(i as int)),
            decreases queue@.len() - i,
        {
            tracks.push_back(queue[i].duplicate());
            i = i + 1;
        }
        assert(queue@.take(queue@.len() as int) =~= queue@);
        let index = create_index(queue);
        assert(track_ids(tracks@) =~= track_ids(queue@));
        assert(track_lengths(tracks@) =~= track_lengths(queue@));
        Player {
            settings: Settings {
                shuffle: false,
                rate_bits: UNIT_BITS,
                volume_bits: UNIT_BITS,
                loop_status: "None".to_string(),
            },
            playing: true,
            queue: tracks,
            index,
            playing_from_timestamp: 0,
            playing_from_millis: 0,
            origin: instant_now(),
            current_track: 0,
        }
    }

    /// "Playing" while the clock runs, else "Paused".
    pub fn playback_status(&self) -> (r: String)
        ensures
            r@ == (if self.model().playing {
                "Playing"@
            } else {
                "Paused"@
            }),
    {
        if self.playing {
            return "Playing".to_string();
        }
        "Paused".to_string()
    }

    /// A copy of the current track.
    pub fn current_metadata(&self) -> (r: Metadata)
        requires
            self.wf(),
        ensures
            r.same_as(&self.tracks()[self.model().cursor]),
    {
        self.queue[self.current_track].duplicate()
    }

    /// The queue position of the current track.
    pub fn current_index(&self) -> (r: usize)
        ensures
            r == self.model().cursor,
    {
        self.current_track
    }

    pub fn get_playing(&self) -> (r: bool)
        ensures
            r == self.model().playing,
    {
        self.playing
    }

    /// The playback offset at clock reading `now`.
    pub fn position_at(&self, now: u64) -> (r: u64)
        ensures
            r == self.model().position_at(now),
    {
        if !self.playing {
            return self.playing_from_timestamp;
        }
        let e: u64 = if now >= self.playing_from_millis {
            now - self.playing_from_millis
        } else {
            0
        };
        self.playing_from_timestamp.saturating_add(e)
    }

    /// The playback offset now.
    pub fn get_position(&self) -> (r: u64)
        ensures
            exists|t: u64| r == #[trigger] self.model().position_at(t),
            !self.model().playing ==> r == self.model().baseline,
            r >= self.model().baseline,
    {
        let now = millis_since(&self.origin);
        self.position_at(now)
    }

    /// Starts or pauses the clock as of clock reading `now`.
    pub fn set_playing_at(&mut self, playing: bool, now: u64)
        requires
            old(self).wf(),
        ensures
            final(self).wf(),
            final(self).same_setup(old(self)),
            final(self).model() == old(self).model().set_playing_at(playing, now),
    {
        if self.playing && !playing {
            self.playing_from_timestamp = self.position_at(now);
        } else if !self.playing && playing {
            self.playing_from_millis = now;
        }
        self.playing = playing;
    }

    /// Starts or pauses the clock now.
    pub fn set_playing(&mut self, playing: bool)
        requires
            old(self).wf(),
        ensures
            final(self).wf(),
            final(self).same_setup(old(self)),
            exists|t: u64|
                final(self).model() == #[trigger] old(self).model().set_playing_at(playing, t),
    {
        let now = millis_since(&self.origin);
        self.set_playing_at(playing, now);
    }

    /// Pauses if playing, else starts.
    pub fn play_pause(&mut self)
        requires
            old(self).wf(),
        ensures
            final(self).wf(),
            final(self).same_setup(old(self)),
            exists|t: u64|
                final(self).model() == #[trigger] old(self).model().toggle_at(t),
    {
        let now = millis_since(&self.origin);
        let p = !self.get_playing();
        self.set_playing_at(p, now);
        assert(self.model() == old(self).model().toggle_at(now));
    }

    /// Makes `track` the current queue position: past the end wraps to the
    /// first track, before the start to the last. The clock is untouched.
    pub fn set_track(&mut self, track: isize)
        requires
            old(self).wf(),
        ensures
            final(self).wf(),
            final(self).same_setup(old(self)),
            final(self).model() == old(self).model().select_track(track as int),
    {
        let n = self.queue.len() as isize;
        if track >= n {
            self.current_track = 0;
        } else if track < 0 {
            self.current_track = (n - 1) as usize;
        } else {
            self.current_track = track as usize;
        }
    }

    /// Sets the offset to `pos`, counted from clock reading `now`.
    fn restart_at(&mut self, pos: u64, now: u64)
        requires
            old(self).wf(),
        ensures
            final(self).wf(),
            final(self).same_setup(old(self)),
            final(self).model() == old(self).model().restart_at(pos, now),
    {
        self.playing_from_timestamp = pos;
        self.playing_from_millis = now;
    }

    /// Moves to the following track, wrapping at the end, and restarts it
    /// at offset 0 as of clock reading `now`.
    pub fn next_at(&mut self, now: u64)
        requires
            old(self).wf(),
        ensures
            final(self).wf(),
            final(self).same_setup(old(self)),
            final(self).model() == old(self).model().next_at(now),
            final(self).model().cursor == (if old(self).model().cursor + 1 == old(self).model().count() {
                0
            } else {
                old(self).model().cursor + 1
            }),
    {
        proof {
            self.lemma_wf();
        }
        proof {
            self.model().lemma_step_is_select(now);
        }
        self.set_track(self.current_track as isize + 1);
        self.restart_at(0, now);
        assert(self.model() == old(self).model().next_at(now));
    }

    /// Moves to the preceding track, wrapping at the start, and restarts it
    /// at offset 0 as of clock reading `now`.
    pub fn previous_at(&mut self, now: u64)
        requires
            old(self).wf(),
        ensures
            final(self).wf(),
            final(self).same_setup(old(self)),
            final(self).model() == old(self).model().previous_at(now),
            final(self).model().cursor == (if old(self).model().cursor == 0 {
                old(self).model().count() - 1
            } else {
                old(self).model().cursor - 1
            }),
    {
        proof {
            self.lemma_wf();
        }
        proof {
            self.model().lemma_step_is_select(now);
        }
        self.set_track(self.current_track as isize - 1);
        self.restart_at(0, now);
        assert(self.model() == old(self).model().previous_at(now));
    }

    /// Sets the offset to `position` as of clock reading `now`; a position at
    /// or past the current track's end moves to the next track instead.
    pub fn set_position_at(&mut self, position: u64, now: u64)
        requires
            old(self).wf(),
        ensures
            final(self).wf(),
            final(self).same_setup(old(self)),
            final(self).model() == old(self).model().set_position_at(position, now),
    {
        proof {
            self.lemma_wf();
        }
        if position >= self.queue[self.current_track].length {
            self.next_at(now);
            return;
        }
        self.restart_at(position, now);
    }

    /// Moves the baseline offset by `offset` milliseconds, kept within
    /// `[0, u64::MAX]`, and re-anchors the clock at reading `now`.
    pub fn seek_at(&mut self, offset: i64, now: u64)
        requires
            old(self).wf(),
        ensures
            final(self).wf(),
            final(self).same_setup(old(self)),
            final(self).model() == old(self).model().seek_at(offset, now),
    {
        let v: i128 = self.playing_from_timestamp as i128 + offset as i128;
        let b: u64 = if v < 0 {
            0
        } else if v > u64::MAX as i128 {
            u64::MAX
        } else {
            v as u64
        };
        self.restart_at(b, now);
    }

    /// One scheduler tick at clock reading `now`: once the position has
    /// reached the current track's duration, moves to the next track.
    pub fn tick_at(&mut self, now: u64)
        requires
            old(self).wf(),
        ensures
            final(self).wf(),
            final(self).same_setup(old(self)),
            final(self).model() == old(self).model().tick_at(now),
    {
        proof {
            self.lemma_wf();
        }
        if self.position_at(now) >= self.queue[self.current_track].length {
            self.next_at(now);
        }
    }

    /// `next_at` with the clock read now.
    pub fn next(&mut self)
        requires
            old(self).wf(),
        ensures
            final(self).wf(),
            final(self).same_setup(old(self)),
            final(self).model() == old(self).model().next_at(final(self).model().anchor),
            final(self).model().cursor == (if old(self).model().cursor + 1 == old(self).model().count() {
                0
            } else {
                old(self).model().cursor + 1
            }),
    {
        let now = millis_since(&self.origin);
        self.next_at(now);
    }

    /// `previous_at` with the clock read now.
    pub fn previous(&mut self)
        requires
            old(self).wf(),
        ensures
            final(self).wf(),
            final(self).same_setup(old(self)),
            final(self).model() == old(self).model().previous_at(final(self).model().anchor),
            final(self).model().cursor == (if old(self).model().cursor == 0 {
                old(self).model().count() - 1
            } else {
                old(self).model().cursor - 1
            }),
    {
        let now = millis_since(&self.origin);
        self.previous_at(now);
    }

    /// `set_position_at` with the clock read now.
    pub fn set_position(&mut self, position: u64)
        requires
            old(self).wf(),
        ensures
            final(self).wf(),
            final(self).same_setup(old(self)),
            final(self).model() == old(self).model().set_position_at(
                position,
                final(self).model().anchor,
            ),
    {
        let now = millis_since(&self.origin);
        self.set_position_at(position, now);
    }

    /// `seek_at` with the clock read now.
    pub fn seek(&mut self, offset: i64)
        requires
            old(self).wf(),
        ensures
            final(self).wf(),
            final(self).same_setup(old(self)),
            final(self).model() == old(self).model().seek_at(offset, final(self).model().anchor),
    {
        let now = millis_since(&self.origin);
        self.seek_at(offset, now);
    }

    /// `tick_at` with the clock read now.
    pub fn tick(&mut self)
        requires
            old(self).wf(),
        ensures
            final(self).wf(),
            final(self).same_setup(old(self)),
            exists|t: u64| final(self).model() == #[trigger] old(self).model().tick_at(t),
    {
        let now = millis_since(&self.origin);
        self.tick_at(now);
    }
}

} // verus!
