//! Model of a media player's control surface: a fixed queue of tracks with a
//! wrap-around cursor, a playback clock that derives the position from a time
//! anchor, and the auto-advance decision taken on each scheduler tick.
mod clock;
pub mod laws;
pub mod metadata;
pub mod model;
pub mod player;
pub mod queue_index;
