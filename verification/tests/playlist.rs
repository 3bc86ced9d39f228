use aiwinamp::media::{merge_metadata, settle_duration, MediaMetadata};
use std::io::Cursor;
use aiwinamp::playlist::{Playlist, Track};

/// Appending demo tracks keeps their count and auto-selects the first.
#[test]
fn adds_tracks_and_auto_selects() {
    let mut playlist = Playlist::new();
    playlist.add_track(Track::demo("One", 1));
    playlist.add_track(Track::demo("Two", 2));
    assert_eq!(playlist.len(), 2);
    assert_eq!(playlist.active_index(), Some(0));
}

/// Removal keeps the cursor consistent.
#[test]
fn removal_shifts_cursor() {
    let mut playlist = Playlist::new();
    let mut ids = Vec::new();
    for i in 0..3 {
        playlist.add_track(Track::demo(&format!("T{}", i), i as u64));
        ids.push(playlist.tracks().last().unwrap().id);
    }
    // Remove the first element and expect the cursor to clamp to zero.
    assert!(playlist.remove_track(0));
    assert_eq!(playlist.active_index(), Some(0));
    // Removing an id that is not there answers false.
    assert!(!playlist.remove_track(999));
    // Clearing the remaining tracks resets the cursor to None.
    for id in ids.into_iter().skip(1) {
        playlist.remove_track(id);
    }
    assert!(playlist.active_index().is_none());
}

/// Forward and backward traversal wrap around.
#[test]
fn navigation_wraps() {
    let mut playlist = Playlist::new();
    for idx in 0..3 {
        playlist.add_track(Track::demo(&format!("Demo {}", idx), idx as u64 + 1));
    }
    playlist.advance();
    playlist.advance();
    playlist.advance();
    assert_eq!(playlist.active_index(), Some(0));
    playlist.rewind();
    assert_eq!(playlist.active_index(), Some(2));
}

fn chunk(id: &[u8], body: &[u8]) -> Vec<u8> {
    let mut out = id.to_vec();
    out.extend_from_slice(&(body.len() as u32).to_le_bytes());
    out.extend_from_slice(body);
    out
}

/// A one-second mono 16-bit PCM WAV sample at 8 kHz.
fn sample_wav() -> Vec<u8> {
    let mut fmt = Vec::new();
    for part in [&1u16.to_le_bytes()[..], &1u16.to_le_bytes(), &8000u32.to_le_bytes(), &16000u32.to_le_bytes(), &2u16.to_le_bytes(), &16u16.to_le_bytes()] {
        fmt.extend_from_slice(part);
    }
    let mut body = b"WAVE".to_vec();
    body.extend(chunk(b"fmt ", &fmt));
    body.extend(chunk(b"data", &vec![0u8; 16000]));
    chunk(b"RIFF", &body)
}

/// A file-backed track keeps its id and path and always has a positive duration.
#[test]
fn from_path_reads_metadata() {
    let stream = symphonia::core::io::MediaSourceStream::new(Box::new(Cursor::new(sample_wav())), Default::default());
    let mut hint = symphonia::core::probe::Hint::new();
    hint.with_extension("wav");
    let mut found = symphonia::default::get_probe()
        .format(&hint, stream, &Default::default(), &Default::default())
        .unwrap();
    // The sample carries no tags.
    assert!(found.format.metadata().current().is_none());
    let meta = merge_metadata(&[], &[]);
    let params = found.format.default_track().unwrap().codec_params.clone();
    let measured = match (params.n_frames, params.sample_rate) {
        (Some(n), Some(rate)) if rate > 0 => Some(((n + rate as u64 - 1) / rate as u64) as u32),
        _ => None,
    };
    let probed = settle_duration(meta, measured);
    let track = Track::from_path(String::from("assets/audio/sample.wav"), 99, Some(probed));
    assert_eq!(track.id, 99);
    assert!(track.duration_secs >= 1);
    assert!(track.path.is_some());
    assert_eq!(track.title, "sample");
    assert_eq!(track.duration_secs, 1);
}

#[test]
fn from_path_without_metadata_uses_file_stem_and_defaults() {
    let track = Track::from_path(String::from("/music/night drive.flac"), 7, None);
    assert_eq!(track.title, "night drive");
    assert_eq!(track.artist, "Local File");
    assert_eq!(track.duration_secs, 120);
    assert_eq!(track.path, Some(String::from("/music/night drive.flac")));
}

#[test]
fn from_path_without_stem_is_unknown() {
    let track = Track::from_path(String::from("/"), 8, None);
    assert_eq!(track.title, "Unknown");
}

#[test]
fn from_path_prefers_probed_metadata() {
    let probed = MediaMetadata {
        title: Some(String::from("Tagged Title")),
        artist: Some(String::from("Tagged Artist")),
        duration_secs: Some(215),
    };
    let track = Track::from_path(String::from("/music/file.mp3"), 3, Some(probed));
    assert_eq!(track.title, "Tagged Title");
    assert_eq!(track.artist, "Tagged Artist");
    assert_eq!(track.duration_secs, 215);
}

#[test]
fn from_path_partial_metadata_and_zero_duration() {
    let probed = MediaMetadata { title: None, artist: Some(String::from("Solo")), duration_secs: Some(0) };
    let track = Track::from_path(String::from("clip.wav"), 4, Some(probed));
    assert_eq!(track.title, "clip");
    assert_eq!(track.artist, "Solo");
    assert_eq!(track.duration_secs, 1);
}

#[test]
fn demo_track_fields_are_in_range() {
    for seed in 0..50u64 {
        let track = Track::demo("Label", seed);
        assert_eq!(track.id, seed);
        assert_eq!(track.title, "Label");
        assert!(track.path.is_none());
        assert!(track.duration_secs >= 90 && track.duration_secs < 180);
        assert!(track.artist.starts_with("AI Ensemble "));
        let n: u32 = track.artist["AI Ensemble ".len()..].parse().unwrap();
        assert!((1..=5).contains(&n));
    }
}

#[test]
fn demo_tracks_vary_with_seed() {
    let mut durations = Vec::new();
    let mut artists = Vec::new();
    for seed in 0..50u64 {
        let track = Track::demo("Label", seed);
        if !durations.contains(&track.duration_secs) {
            durations.push(track.duration_secs);
        }
        if !artists.contains(&track.artist) {
            artists.push(track.artist);
        }
    }
    assert!(durations.len() > 1);
    assert!(artists.len() > 1);
}

#[test]
fn demo_track_is_deterministic_per_seed() {
    assert_eq!(Track::demo("Same", 42), Track::demo("Same", 42));
}

#[test]
fn add_track_returns_index_and_keeps_cursor() {
    let mut playlist = Playlist::new();
    assert!(playlist.is_empty());
    assert_eq!(playlist.active_index(), None);
    assert!(playlist.active().is_none());
    assert_eq!(playlist.add_track(Track::demo("A", 1)), 0);
    playlist.set_active(0);
    assert_eq!(playlist.add_track(Track::demo("B", 2)), 1);
    assert_eq!(playlist.add_track(Track::demo("C", 3)), 2);
    assert_eq!(playlist.active_index(), Some(0));
    assert_eq!(playlist.active().unwrap().title, "A");
    assert_eq!(playlist.tracks().len(), 3);
}

#[test]
fn set_active_ignores_out_of_range() {
    let mut playlist = Playlist::new();
    playlist.add_track(Track::demo("A", 1));
    playlist.add_track(Track::demo("B", 2));
    playlist.set_active(1);
    assert_eq!(playlist.active_index(), Some(1));
    playlist.set_active(5);
    assert_eq!(playlist.active_index(), Some(1));
}

#[test]
fn remove_before_cursor_shifts_back_and_after_cursor_keeps() {
    let mut playlist = Playlist::new();
    for id in 10..14u64 {
        playlist.add_track(Track::demo("X", id));
    }
    playlist.set_active(2);
    assert!(playlist.remove_track(13));
    assert_eq!(playlist.active_index(), Some(2));
    assert!(playlist.remove_track(10));
    assert_eq!(playlist.active_index(), Some(1));
    assert_eq!(playlist.active().unwrap().id, 12);
}

#[test]
fn remove_takes_only_first_duplicate() {
    let mut playlist = Playlist::new();
    playlist.add_track(Track::demo("first", 5));
    playlist.add_track(Track::demo("other", 6));
    let mut dup = Track::demo("second", 5);
    dup.title = String::from("second");
    playlist.add_track(dup);
    assert!(playlist.remove_track(5));
    assert_eq!(playlist.len(), 2);
    assert_eq!(playlist.tracks()[0].id, 6);
    assert_eq!(playlist.tracks()[1].title, "second");
}

#[test]
fn navigation_on_empty_playlist_is_noop() {
    let mut playlist = Playlist::new();
    playlist.advance();
    playlist.rewind();
    assert_eq!(playlist.active_index(), None);
    assert!(!playlist.remove_track(1));
}

#[test]
fn active_mut_edits_the_selected_track() {
    let mut playlist = Playlist::new();
    playlist.add_track(Track::demo("A", 1));
    playlist.add_track(Track::demo("B", 2));
    playlist.advance();
    if let Some(track) = playlist.active_mut() {
        track.title = String::from("Renamed");
    }
    assert_eq!(playlist.tracks()[1].title, "Renamed");
    assert_eq!(playlist.tracks()[0].title, "A");
    assert_eq!(playlist.active_index(), Some(1));
}

/// Rewind undoes advance, and advancing once per track returns to the start.
#[test]
fn laws_of_cursor_movement_on_concrete_playlist() {
    let mut playlist = Playlist::new();
    for id in 0..4u64 {
        playlist.add_track(Track::demo("L", id));
    }
    for start in 0..4usize {
        playlist.set_active(start);
        playlist.advance();
        assert_eq!(playlist.active_index(), Some((start + 1) % 4));
        playlist.rewind();
        assert_eq!(playlist.active_index(), Some(start));
        playlist.rewind();
        assert_eq!(playlist.active_index(), Some((start + 3) % 4));
        playlist.advance();
        assert_eq!(playlist.active_index(), Some(start));
        for _ in 0..4 {
            playlist.advance();
        }
        assert_eq!(playlist.active_index(), Some(start));
    }
}

/// Adding a fresh track and removing it again restores the playlist.
#[test]
fn remove_undoes_add_on_concrete_playlist() {
    let mut playlist = Playlist::new();
    assert!(playlist.add_track(Track::demo("A", 1)) == 0);
    assert!(playlist.remove_track(1));
    assert!(playlist.is_empty());
    assert_eq!(playlist.active_index(), None);

    playlist.add_track(Track::demo("A", 1));
    playlist.add_track(Track::demo("B", 2));
    playlist.set_active(1);
    let before: Vec<Track> = playlist.tracks().to_vec();
    playlist.add_track(Track::demo("C", 3));
    assert!(playlist.remove_track(3));
    assert_eq!(playlist.tracks().to_vec(), before);
    assert_eq!(playlist.active_index(), Some(1));
}
