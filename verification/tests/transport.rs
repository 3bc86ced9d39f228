use aiwinamp::playlist::{Playlist, Track};
use aiwinamp::transport::{Deck, PlayRequest, TransportMode};

fn deck_with(labels: &[(&str, u64)]) -> Deck {
    let mut playlist = Playlist::new();
    for (label, seed) in labels {
        playlist.add_track(Track::demo(label, *seed));
    }
    Deck::new(playlist)
}

/// Play on a stopped deck asks for the active track from the top, then plays.
#[test]
fn play_starts_transport() {
    let mut deck = deck_with(&[("Demo", 1)]);
    let request = deck.play_request().unwrap();
    assert_eq!(request, PlayRequest { index: 0, resume: false });
    deck.started();
    assert_eq!(deck.mode(), TransportMode::Playing);
}

/// A track that has run past its length loops on to the next one.
#[test]
fn tick_wraps_tracks() {
    let mut deck = deck_with(&[("One", 1), ("Two", 2)]);
    deck.play_request().unwrap();
    deck.started();
    let elapsed: f32 = 10_000.0;
    let duration = deck.playlist().active().unwrap().duration_secs as f32;
    if elapsed >= duration {
        assert_eq!(deck.finish_track(), Some(1));
    }
    assert_eq!(deck.playlist().active_index(), Some(1));
    assert_eq!(deck.mode(), TransportMode::Playing);
}

/// Next and previous honour the autoplay flag.
#[test]
fn navigation_respects_autoplay() {
    let mut deck = deck_with(&[("One", 1), ("Two", 2)]);
    assert!(!deck.next(false));
    assert_eq!(deck.playlist().active_index(), Some(1));
    assert_eq!(deck.mode(), TransportMode::Stopped);
    assert!(!deck.previous(false));
    assert_eq!(deck.playlist().active_index(), Some(0));
}

/// The deck boots stopped over a populated playlist.
#[test]
fn r1_boot_is_ready_for_render() {
    let deck = deck_with(&[("Boot Track", 123)]);
    assert!(deck.playlist().len() >= 1);
    assert_eq!(deck.mode(), TransportMode::Stopped);
}

#[test]
fn play_on_empty_playlist_does_nothing() {
    let deck = Deck::new(Playlist::new());
    assert_eq!(deck.play_request(), None);
    assert_eq!(deck.mode(), TransportMode::Stopped);
}

#[test]
fn pause_then_play_resumes_and_stop_restarts() {
    let mut deck = deck_with(&[("A", 1), ("B", 2)]);
    assert!(!deck.pause());
    assert_eq!(deck.mode(), TransportMode::Stopped);
    deck.play_request().unwrap();
    deck.started();
    assert!(deck.pause());
    assert_eq!(deck.mode(), TransportMode::Paused);
    assert!(!deck.pause());
    assert_eq!(deck.mode(), TransportMode::Paused);
    assert_eq!(deck.play_request(), Some(PlayRequest { index: 0, resume: true }));
    deck.stop();
    assert_eq!(deck.mode(), TransportMode::Stopped);
    assert_eq!(deck.play_request(), Some(PlayRequest { index: 0, resume: false }));
}

#[test]
fn autoplay_navigation_keeps_mode_and_asks_to_play() {
    let mut deck = deck_with(&[("A", 1), ("B", 2), ("C", 3)]);
    deck.play_request().unwrap();
    deck.started();
    deck.pause();
    assert!(deck.previous(true));
    assert_eq!(deck.playlist().active_index(), Some(2));
    assert_eq!(deck.mode(), TransportMode::Paused);
    assert_eq!(deck.play_request(), Some(PlayRequest { index: 2, resume: true }));
    assert!(deck.next(true));
    assert_eq!(deck.playlist().active_index(), Some(0));
}

#[test]
fn navigation_on_empty_deck_changes_nothing() {
    let mut deck = Deck::new(Playlist::new());
    assert!(!deck.next(true));
    assert!(!deck.previous(false));
    assert_eq!(deck.mode(), TransportMode::Stopped);
    assert_eq!(deck.playlist().active_index(), None);
}

#[test]
fn playlist_edits_through_the_deck() {
    let mut deck = Deck::new(Playlist::new());
    deck.playlist_mut().add_track(Track::demo("Late", 9));
    assert_eq!(deck.playlist().len(), 1);
    assert_eq!(deck.play_request(), Some(PlayRequest { index: 0, resume: false }));
}
