# aiwinamp

A Winamp-style music player whose core is verified with Verus.

- `src/playlist.rs` — tracks and the playlist with its wrapping cursor; demo
  tracks drawn from a seeded `rand` generator; file-backed tracks built from
  probed metadata.
- `src/media.rs` — the tag rules that turn probed metadata revisions into a
  title, an artist and a duration.
- `src/transport.rs` — the play/pause/stop/next/previous decisions (`Deck`).
- `src/signal.rs` — the integer side of the audio pipeline: sample windows,
  the spectrum schedule, band spans and channel counting.
- `app/` — the egui window, reading and probing files with symphonia, the audio
  backends, the equalizer, the visual meter and every floating-point
  computation, built on the library.
