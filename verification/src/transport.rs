use crate::playlist::{next_index, prev_index, Playlist};
use vstd::prelude::*;

verus! {

/// Winamp's classic play/pause/stop triad, without the elapsed time that the
/// player keeps beside it while playing or paused.
#[derive(Clone, Copy, Debug, PartialEq, Eq, Structural)]
pub enum TransportMode {
    /// Nothing is playing and progress is reset.
    Stopped,
    /// Audio is playing.
    Playing,
    /// Playback is paused and progress is remembered for resume.
    Paused,
}

/// What the audio backend is asked to start: the track at `index`, and whether
/// the elapsed time remembered while paused carries over (`resume`) or playback
/// starts from the top.
#[derive(Clone, Copy, Debug, PartialEq, Eq, Structural)]
pub struct PlayRequest {
    pub index: usize,
    pub resume: bool,
}

/// The mode that pausing leaves behind: only playback can be paused.
pub open spec fn paused_mode(mode: TransportMode) -> TransportMode {
    if mode == TransportMode::Playing {
        TransportMode::Paused
    } else {
        mode
    }
}

/// Starting playback from `mode` keeps the elapsed time exactly when paused.
pub open spec fn resumes_from(mode: TransportMode) -> bool {
    mode == TransportMode::Paused
}

/// The decisions of the transport bar: which track to start, when audio has to
/// stop, and how the playlist cursor moves. The audio backend and the elapsed
/// time are the caller's; the deck tells it what to do with them.
#[derive(Clone, Debug)]
pub struct Deck {
    /// Playlist provides deterministic ordering and metadata.
    playlist: Playlist,
    /// Current transport mode powering buttons and the progress bar.
    mode: TransportMode,
}

impl Deck {
    /// The playlist the deck plays from.
    pub closed spec fn queue(&self) -> Playlist {
        self.playlist
    }

    /// The current transport mode.
    pub closed spec fn state(&self) -> TransportMode {
        self.mode
    }

    /// The deck's playlist is well formed.
    pub open spec fn wf(&self) -> bool {
        self.queue().wf()
    }

    /// Builds a stopped deck over `playlist`, as the player boots.
    pub fn new(playlist: Playlist) -> (deck: Self)
        ensures
            deck.queue() == playlist,
            deck.state() == TransportMode::Stopped,
    {
        Deck { playlist, mode: TransportMode::Stopped }
    }

    /// Exposes the playlist for rendering.
    pub fn playlist(&self) -> (p: &Playlist)
        ensures
            *p == self.queue(),
    {
        &self.playlist
    }

    /// Exposes the playlist for editing; the mode stays as it is.
    pub fn playlist_mut(&mut self) -> (p: &mut Playlist)
        ensures
            *p == old(self).queue(),
            final(self).queue() == *final(p),
            final(self).state() == old(self).state(),
    {
        &mut self.playlist
    }

    /// Returns the current transport mode.
    pub fn mode(&self) -> (m: TransportMode)
        ensures
            m == self.state(),
    {
        self.mode
    }

    /// What pressing Play asks of the audio backend: nothing on an empty
    /// playlist, else the active track, resumed when paused.
    pub fn play_request(&self) -> (r: Option<PlayRequest>)
        requires
            self.wf(),
        ensures
            self.queue().entries().len() == 0 ==> r is None,
            self.queue().entries().len() > 0 ==> r == Some(
                PlayRequest {
                    index: self.queue().cursor()->0 as usize,
                    resume: resumes_from(self.state()),
                },
            ),
            r is Some ==> (r->0.resume <==> self.state() == TransportMode::Paused),
            r is Some ==> r->0.index as int == self.queue().cursor()->0,
    {
        if self.playlist.is_empty() {
            return None;
        }
        match self.playlist.active_index() {
            Some(index) => Some(PlayRequest { index, resume: self.mode == TransportMode::Paused }),
            None => None,
        }
    }

    /// Records that the backend started the requested track; there is one only
    /// when the playlist has tracks.
    pub fn started(&mut self)
        requires
            old(self).queue().entries().len() > 0,
        ensures
            final(self).queue() == old(self).queue(),
            final(self).state() == TransportMode::Playing,
    {
        self.mode = TransportMode::Playing;
    }

    /// Pauses playback; returns whether the backend has to stop (only when it was playing).
    pub fn pause(&mut self) -> (halt: bool)
        ensures
            halt == (old(self).state() == TransportMode::Playing),
            final(self).state() == paused_mode(old(self).state()),
            old(self).state() == TransportMode::Playing ==> final(self).state()
                == TransportMode::Paused,
            old(self).state() != TransportMode::Playing ==> final(self).state() == old(self).state(),
            final(self).queue() == old(self).queue(),
    {
        if self.mode == TransportMode::Playing {
            self.mode = TransportMode::Paused;
            true
        } else {
            false
        }
    }

    /// Stops playback and forgets the elapsed time.
    pub fn stop(&mut self)
        ensures
            final(self).state() == TransportMode::Stopped,
            final(self).queue() == old(self).queue(),
    {
        self.mode = TransportMode::Stopped;
    }

    /// Advances to the next track; returns whether Play should follow
    /// (`autoplay` on a non-empty playlist). Without autoplay the deck stops.
    pub fn next(&mut self, autoplay: bool) -> (play_now: bool)
        requires
            old(self).wf(),
        ensures
            final(self).wf(),
            final(self).queue().entries() == old(self).queue().entries(),
            old(self).queue().entries().len() == 0 ==> {
                &&& !play_now
                &&& final(self).queue().cursor() == old(self).queue().cursor()
                &&& final(self).state() == old(self).state()
            },
            old(self).queue().entries().len() > 0 ==> {
                &&& play_now == autoplay
                &&& final(self).queue().cursor() == Some(
                    next_index(
                        old(self).queue().cursor()->0,
                        old(self).queue().entries().len() as int,
                    ),
                )
                &&& final(self).state() == (if autoplay {
                    old(self).state()
                } else {
                    TransportMode::Stopped
                })
            },
    {
        if self.playlist.is_empty() {
            return false;
        }
        self.playlist.advance();
        if !autoplay {
            self.mode = TransportMode::Stopped;
        }
        autoplay
    }

    /// Rewinds to the previous track; returns whether Play should follow
    /// (`autoplay` on a non-empty playlist). Without autoplay the deck stops.
    pub fn previous(&mut self, autoplay: bool) -> (play_now: bool)
        requires
            old(self).wf(),
        ensures
            final(self).wf(),
            final(self).queue().entries() == old(self).queue().entries(),
            old(self).queue().entries().len() == 0 ==> {
                &&& !play_now
                &&& final(self).queue().cursor() == old(self).queue().cursor()
                &&& final(self).state() == old(self).state()
            },
            old(self).queue().entries().len() > 0 ==> {
                &&& play_now == autoplay
                &&& final(self).queue().cursor() == Some(
                    prev_index(
                        old(self).queue().cursor()->0,
                        old(self).queue().entries().len() as int,
                    ),
                )
                &&& final(self).state() == (if autoplay {
                    old(self).state()
                } else {
                    TransportMode::Stopped
                })
            },
    {
        if self.playlist.is_empty() {
            return false;
        }
        self.playlist.rewind();
        if !autoplay {
            self.mode = TransportMode::Stopped;
        }
        autoplay
    }

    /// The playing track ran to its end: loop on to the next track, keep playing
    /// from the top, and return the track the backend should start.
    pub fn finish_track(&mut self) -> (start: Option<usize>)
        requires
            old(self).wf(),
            old(self).queue().entries().len() > 0,
        ensures
            final(self).wf(),
            final(self).state() == TransportMode::Playing,
            final(self).queue().entries() == old(self).queue().entries(),
            ({
                let next: int = next_index(
                    old(self).queue().cursor()->0,
                    old(self).queue().entries().len() as int,
                );
                &&& final(self).queue().cursor() == Some(next)
                &&& start == Some(next as usize)
            }),
    {
        self.playlist.advance();
        self.mode = TransportMode::Playing;
        self.playlist.active_index()
    }
}

/// Pausing playback and pressing Play again resumes where playback left off.
pub proof fn law_pause_then_play_resumes()
    ensures
        resumes_from(paused_mode(TransportMode::Playing)),
{
}

/// Play carries the elapsed time over only out of a pause: never while playing
/// (a track reached by Next or Previous starts from the top) and never after Stop.
pub proof fn law_resume_only_from_pause(mode: TransportMode)
    ensures
        resumes_from(mode) <==> mode == TransportMode::Paused,
        !resumes_from(TransportMode::Playing),
        !resumes_from(TransportMode::Stopped),
{
}

/// Pausing twice is pausing once.
pub proof fn law_pause_idempotent(mode: TransportMode)
    ensures
        paused_mode(paused_mode(mode)) == paused_mode(mode),
{
}

/// After Stop, Play starts the track from the top.
pub proof fn law_stop_then_play_restarts()
    ensures
        !resumes_from(TransportMode::Stopped),
{
}

} // verus!
