use std::time::{Duration, Instant};

use media_player::metadata::{Metadata, MetadataValue};
use media_player::player::{Player, UNIT_BITS};
use media_player::queue_index::create_index;

fn track(id: &str, length: u64) -> Metadata {
    Metadata {
        trackid: id.to_string(),
        length,
        art_url: format!("https://img.example/{}", id),
        album: "Fractured Life".to_string(),
        album_artist: vec!["Air Traffic".to_string()],
        artist: vec!["Air Traffic".to_string(), "Guest".to_string()],
        auto_rating_bits: 0.36f64.to_bits(),
        disc_number: 1,
        title: "Charlotte".to_string(),
        track_number: 2,
        url: format!("https://open.example/{}", id),
    }
}

fn wait_ms(ms: u64) {
    let start = Instant::now();
    while start.elapsed() < Duration::from_millis(ms) {}
}

#[test]
fn new_player_starts_playing_at_first_track() {
    let p = Player::new(&[track("a", 2000), track("b", 144040000)]);
    assert!(p.get_playing());
    assert_eq!(p.current_index(), 0);
    assert_eq!(p.playback_status(), "Playing");
    assert_eq!(p.current_metadata().trackid, "a");
    assert!(!p.settings.shuffle);
    assert_eq!(p.settings.rate_bits, UNIT_BITS);
    assert_eq!(f64::from_bits(p.settings.volume_bits), 1.0);
    assert_eq!(p.settings.loop_status, "None");
    assert_eq!(p.position_at(0), 0);
    assert_eq!(p.position_at(250), 250);
}

#[test]
fn set_position_at_length_moves_to_next_track() {
    let mut p = Player::new(&[track("a", 2000), track("b", 144040000)]);
    p.set_position(2000);
    assert_eq!(p.current_index(), 1);
    assert_eq!(p.current_metadata().length, 144040000);
    assert!(p.get_position() < 50);
}

#[test]
fn set_position_past_end_equals_next() {
    let mut a = Player::new(&[track("a", 2000), track("b", 3000)]);
    let mut b = Player::new(&[track("a", 2000), track("b", 3000)]);
    a.set_position_at(5000, 70);
    b.next_at(70);
    assert_eq!(a.current_index(), b.current_index());
    assert_eq!(a.position_at(70), 0);
    assert_eq!(a.position_at(90), b.position_at(90));
    assert_eq!(a.position_at(90), 20);
}

#[test]
fn set_position_within_track_sets_offset() {
    let mut p = Player::new(&[track("a", 2000), track("b", 3000)]);
    p.set_position_at(1999, 10);
    assert_eq!(p.current_index(), 0);
    assert_eq!(p.position_at(10), 1999);
    assert_eq!(p.position_at(15), 2004);
}

#[test]
fn navigation_wraps_on_two_tracks() {
    let mut p = Player::new(&[track("a", 2000), track("b", 3000)]);
    p.previous();
    assert_eq!(p.current_index(), 1);
    p.next();
    assert_eq!(p.current_index(), 0);
    p.next();
    assert_eq!(p.current_index(), 1);
    p.next();
    assert_eq!(p.current_index(), 0);
}

#[test]
fn previous_steps_back_one_on_three_tracks() {
    let mut p = Player::new(&[track("a", 10), track("b", 20), track("c", 30)]);
    p.next();
    assert_eq!(p.current_index(), 1);
    p.previous();
    assert_eq!(p.current_index(), 0);
    p.previous();
    assert_eq!(p.current_index(), 2);
}

#[test]
fn navigation_on_single_track_stays() {
    let mut p = Player::new(&[track("only", 10)]);
    p.next();
    assert_eq!(p.current_index(), 0);
    p.previous();
    assert_eq!(p.current_index(), 0);
}

#[test]
fn next_resets_position() {
    let mut p = Player::new(&[track("a", 100000), track("b", 100000)]);
    p.seek_at(5000, 10);
    assert_eq!(p.position_at(10), 5000);
    p.next_at(20);
    assert_eq!(p.position_at(20), 0);
    p.previous_at(40);
    assert_eq!(p.current_index(), 0);
    assert_eq!(p.position_at(45), 5);
}

#[test]
fn set_track_wraps_out_of_range() {
    let mut p = Player::new(&[track("a", 10), track("b", 20), track("c", 30)]);
    p.set_track(5);
    assert_eq!(p.current_index(), 0);
    p.set_track(-1);
    assert_eq!(p.current_index(), 2);
    p.set_track(1);
    assert_eq!(p.current_index(), 1);
    p.set_track(0);
    assert_eq!(p.current_index(), 0);
    p.set_track(3);
    assert_eq!(p.current_index(), 0);
}

#[test]
fn seek_moves_baseline() {
    let mut p = Player::new(&[track("a", 100000)]);
    p.set_playing_at(false, 1000);
    assert_eq!(p.position_at(1000), 1000);
    p.seek_at(500, 1200);
    assert_eq!(p.position_at(1200), 1500);
    p.seek_at(-300, 1300);
    assert_eq!(p.position_at(5000), 1200);
}

#[test]
fn seek_below_zero_clamps() {
    let mut p = Player::new(&[track("a", 100000)]);
    p.seek_at(-10000, 30);
    assert_eq!(p.position_at(30), 0);
    p.seek_at(i64::MAX, 30);
    p.seek_at(i64::MAX, 30);
    p.seek_at(i64::MAX, 30);
    assert_eq!(p.position_at(30), u64::MAX);
    assert_eq!(p.position_at(60), u64::MAX);
}

#[test]
fn seek_while_playing_counts_from_new_anchor() {
    let mut p = Player::new(&[track("a", 100000)]);
    p.seek(3000);
    let pos = p.get_position();
    assert!(pos >= 3000 && pos < 3050, "position {}", pos);
}

#[test]
fn pause_freezes_position() {
    let mut p = Player::new(&[track("a", 100000)]);
    wait_ms(20);
    p.set_playing(false);
    assert_eq!(p.playback_status(), "Paused");
    let frozen = p.get_position();
    assert!(frozen >= 20);
    wait_ms(30);
    assert_eq!(p.get_position(), frozen);
    assert_eq!(p.get_position(), frozen);
}

#[test]
fn play_resumes_from_frozen_value() {
    let mut p = Player::new(&[track("a", 100000)]);
    p.set_playing_at(false, 400);
    assert_eq!(p.position_at(900), 400);
    p.set_playing_at(true, 1000);
    assert_eq!(p.position_at(1000), 400);
    assert_eq!(p.position_at(1250), 650);
}

#[test]
fn repeated_pause_keeps_position() {
    let mut p = Player::new(&[track("a", 100000)]);
    p.set_playing_at(false, 300);
    p.set_playing_at(false, 700);
    p.set_playing_at(false, 900);
    assert_eq!(p.position_at(1000), 300);
    p.set_playing(false);
    assert_eq!(p.get_position(), 300);
}

#[test]
fn play_when_playing_keeps_anchor() {
    let mut p = Player::new(&[track("a", 100000)]);
    p.set_playing_at(true, 500);
    assert_eq!(p.position_at(600), 600);
}

#[test]
fn play_pause_toggles() {
    let mut p = Player::new(&[track("a", 100000)]);
    p.play_pause();
    assert!(!p.get_playing());
    assert_eq!(p.playback_status(), "Paused");
    p.play_pause();
    assert!(p.get_playing());
    assert_eq!(p.playback_status(), "Playing");
}

#[test]
fn position_grows_while_playing() {
    let p = Player::new(&[track("a", 100000)]);
    let first = p.get_position();
    wait_ms(40);
    let second = p.get_position();
    assert!(second >= first + 40, "{} then {}", first, second);
    assert!(second < first + 1000);
}

#[test]
fn tick_advances_after_track_end() {
    let mut p = Player::new(&[track("short", 100), track("long", 144040000)]);
    wait_ms(150);
    p.tick();
    assert_eq!(p.current_index(), 1);
    assert!(p.get_position() < 50);
    p.tick();
    assert_eq!(p.current_index(), 1);
}

#[test]
fn tick_at_before_end_changes_nothing() {
    let mut p = Player::new(&[track("a", 100), track("b", 200)]);
    p.tick_at(99);
    assert_eq!(p.current_index(), 0);
    assert_eq!(p.position_at(99), 99);
    p.tick_at(100);
    assert_eq!(p.current_index(), 1);
    assert_eq!(p.position_at(100), 0);
}

#[test]
fn tick_does_not_advance_while_paused_early() {
    let mut p = Player::new(&[track("a", 100), track("b", 200)]);
    p.set_playing_at(false, 50);
    p.tick_at(10000);
    assert_eq!(p.current_index(), 0);
    assert_eq!(p.position_at(10000), 50);
}

#[test]
fn current_metadata_copies_fields() {
    let p = Player::new(&[track("a", 2000)]);
    assert_eq!(p.current_metadata(), track("a", 2000));
}

#[test]
fn entries_list_keys_and_values() {
    let m = track("spotify:track:x", 2000);
    let e = m.entries();
    let keys: Vec<&str> = e.iter().map(|(k, _)| k.as_str()).collect();
    assert_eq!(
        keys,
        vec![
            "mpris:trackid",
            "mpris:length",
            "mpris:artUrl",
            "xesam:album",
            "xesam:albumArtist",
            "xesam:artist",
            "xesam:autoRating",
            "xesam:discNumber",
            "xesam:title",
            "xesam:trackNumber",
            "xesam:url",
        ]
    );
    assert!(matches!(&e[0].1, MetadataValue::Text(s) if s == "spotify:track:x"));
    assert!(matches!(e[1].1, MetadataValue::Millis(2000)));
    assert!(matches!(&e[5].1, MetadataValue::Names(v) if v.len() == 2 && v[1] == "Guest"));
    assert!(matches!(e[6].1, MetadataValue::RatingBits(b) if f64::from_bits(b) == 0.36));
    assert!(matches!(e[7].1, MetadataValue::Number(1)));
    assert!(matches!(e[9].1, MetadataValue::Number(2)));
    assert!(matches!(&e[10].1, MetadataValue::Text(s) if s == "https://open.example/spotify:track:x"));
}

#[test]
fn duplicate_keeps_fields() {
    let m = track("a", 42);
    assert_eq!(m.duplicate(), m);
}

#[test]
fn index_maps_ids_to_last_position() {
    let q = [track("a", 1), track("b", 2), track("a", 3), track("c", 4)];
    let mut idx = create_index(&q);
    idx.sort();
    assert_eq!(
        idx,
        vec![
            ("a".to_string(), 2),
            ("b".to_string(), 1),
            ("c".to_string(), 3)
        ]
    );
}
