//! Verified core of a small Winamp-style player: the playlist, the metadata
//! rules applied to probed audio files, and the transport state machine.

pub mod media;
pub mod playlist;
pub mod signal;
pub mod transport;
