use crate::media::MediaMetadata;
use rand::rngs::StdRng;
use rand::Rng;
use rand::SeedableRng;
use vstd::prelude::*;

verus! {

/// The two draws that a `StdRng` seeded with `seed` makes, in this order:
/// `gen_range(first_low..=first_high)` on `i32`, then
/// `gen_range(second_low..second_high)` on `u32`.
pub uninterp spec fn seeded_draws(
    seed: u64,
    first_low: i32,
    first_high: i32,
    second_low: u32,
    second_high: u32,
) -> (i32, u32);

/// Wraps `rand::SeedableRng::seed_from_u64` on `StdRng` followed by two calls of
/// `rand::Rng::gen_range`: the draws lie in their ranges and, `StdRng` being
/// deterministic, depend on the seed and the ranges alone, as `seeded_draws`
/// names them. Which values come out is left open. Neither range may be empty,
/// on which `gen_range` panics.
#[verifier::external_body]
fn draw_seeded(seed: u64, first_low: i32, first_high: i32, second_low: u32, second_high: u32) -> (draws: (i32, u32))
    requires
        first_low <= first_high,
        second_low < second_high,
    ensures
        draws == seeded_draws(seed, first_low, first_high, second_low, second_high),
        first_low <= draws.0 <= first_high,
        second_low <= draws.1 < second_high,
{
    let mut rng = StdRng::seed_from_u64(seed);
    let first = rng.gen_range(first_low..=first_high);
    (first, rng.gen_range(second_low..second_high))
}

/// The ensemble number a demo track with seed `seed` is credited to.
pub open spec fn demo_ensemble(seed: u64) -> int {
    seeded_draws(seed, 1, 5, 90, 180).0 as int
}

/// The length in seconds of a demo track with seed `seed`.
pub open spec fn demo_duration(seed: u64) -> u32 {
    seeded_draws(seed, 1, 5, 90, 180).1
}

/// What `std::path::Path::file_stem` gives for a path spelled `path`, read as text.
pub uninterp spec fn file_stem_of(path: Seq<char>) -> Option<Seq<char>>;

/// Wraps `std::path::Path::file_stem` (with `OsStr::to_str`, which cannot fail on a
/// stem cut out of UTF-8 text): the stem of the path's final component, named by
/// `file_stem_of`.
#[verifier::external_body]
fn path_file_stem(path: &str) -> (stem: Option<String>)
    ensures
        stem is Some <==> file_stem_of(path@) is Some,
        stem matches Some(s) ==> s@ == file_stem_of(path@)->0,
{
    std::path::Path::new(path).file_stem().and_then(|s| s.to_str()).map(|s| s.to_string())
}

/// Artist label given to a demo track from its drawn ensemble number.
pub open spec fn ensemble_artist(n: int) -> Seq<char> {
    "AI Ensemble "@.push((48 + n) as char)
}

/// Title given to a file-backed track: the probed tag, else the file stem, else "Unknown".
pub open spec fn title_for_file(path: Seq<char>, probed: Option<MediaMetadata>) -> Seq<char> {
    match probed {
        Some(MediaMetadata { title: Some(t), .. }) => t@,
        _ => match file_stem_of(path) {
            Some(stem) => stem,
            None => "Unknown"@,
        },
    }
}

/// Artist given to a file-backed track: the probed tag, else "Local File".
pub open spec fn artist_for_file(probed: Option<MediaMetadata>) -> Seq<char> {
    match probed {
        Some(MediaMetadata { artist: Some(a), .. }) => a@,
        _ => "Local File"@,
    }
}

/// Duration given to a file-backed track: the probed length, at least one second,
/// else two minutes.
pub open spec fn duration_for_file(probed: Option<MediaMetadata>) -> u32 {
    match probed {
        Some(MediaMetadata { duration_secs: Some(d), .. }) => if d < 1 {
            1
        } else {
            d
        },
        _ => 120,
    }
}

/// Represents the metadata needed to render and play a single track entry.
#[derive(Clone, Debug, PartialEq, Eq)]
pub struct Track {
    /// Unique monotonic id that lets us diff playlists quickly.
    pub id: u64,
    /// Display friendly title used throughout the UI.
    pub title: String,
    /// Artist label kept short to mirror classic Winamp.
    pub artist: String,
    /// Track duration in seconds for progress calculations.
    pub duration_secs: u32,
    /// Optional audio path when the asset exists locally.
    pub path: Option<String>,
}

impl Track {
    /// Factory building demo tracks when only a label is known: the seed fixes
    /// the artist and the length.
    pub fn demo(label: &str, seed: u64) -> (t: Self)
        ensures
            t.id == seed,
            t.title@ == label@,
            1 <= demo_ensemble(seed) <= 5,
            t.artist@ == ensemble_artist(demo_ensemble(seed)),
            90 <= demo_duration(seed) < 180,
            t.duration_secs == demo_duration(seed),
            t.path is None,
    {
        let draws: (i32, u32) = draw_seeded(seed, 1, 5, 90, 180);
        let artist = ensemble_label(draws.0);
        Track { id: seed, title: label.to_string(), artist, duration_secs: draws.1, path: None }
    }

    /// Builds a track for the audio file at `path`, from what probing the file
    /// found (`None` where probing failed).
    pub fn from_path(path: String, id: u64, probed: Option<MediaMetadata>) -> (t: Self)
        ensures
            t.id == id,
            t.path == Some(path),
            t.title@ == title_for_file(path@, probed),
            t.artist@ == artist_for_file(probed),
            t.duration_secs == duration_for_file(probed),
            (probed is Some && probed->0.title is Some) ==> t.title@ == probed->0.title->0@,
            (probed is Some && probed->0.artist is Some) ==> t.artist@ == probed->0.artist->0@,
            (probed is Some && probed->0.duration_secs is Some) ==> t.duration_secs == (if probed->0.duration_secs->0
                == 0 {
                1
            } else {
                probed->0.duration_secs->0
            }),
            probed is None ==> t.artist@ == "Local File"@ && t.duration_secs == 120,
            t.duration_secs >= 1,
    {
        proof {
            law_probed_fields_win(path@, probed);
        }
        let mut title = match path_file_stem(path.as_str()) {
            Some(stem) => stem,
            None => "Unknown".to_string(),
        };
        let mut artist = "Local File".to_string();
        let mut duration_secs: u32 = 120;
        if let Some(meta) = probed {
            if let Some(found_title) = meta.title {
                title = found_title;
            }
            if let Some(found_artist) = meta.artist {
                artist = found_artist;
            }
            if let Some(found_duration) = meta.duration_secs {
                duration_secs = if found_duration < 1 { 1 } else { found_duration };
            }
        }
        Track { id, title, artist, duration_secs, path: Some(path) }
    }
}

/// "AI Ensemble N" for an ensemble number N between one and five.
fn ensemble_label(n: i32) -> (s: String)
    requires
        1 <= n <= 5,
    ensures
        s@ == ensemble_artist(n as int),
{
    let digit = if n == 1 {
        "1"
    } else if n == 2 {
        "2"
    } else if n == 3 {
        "3"
    } else if n == 4 {
        "4"
    } else {
        "5"
    };
    let mut s = "AI Ensemble ".to_string();
    s.append(digit);
    proof {
        reveal_strlit("1");
        reveal_strlit("2");
        reveal_strlit("3");
        reveal_strlit("4");
        reveal_strlit("5");
        assert(s@ =~= ensemble_artist(n as int));
    }
    s
}

/// Cursor position after stepping forward through a playlist of `len` tracks.
pub open spec fn next_index(i: int, len: int) -> int {
    if i + 1 < len {
        i + 1
    } else {
        0
    }
}

/// Cursor position after stepping backward through a playlist of `len` tracks.
pub open spec fn prev_index(i: int, len: int) -> int {
    if i > 0 {
        i - 1
    } else {
        len - 1
    }
}

/// Where the cursor lands once a track has been appended: the first track is
/// selected automatically, otherwise the cursor stays.
pub open spec fn cursor_after_add(cursor: Option<int>) -> Option<int> {
    if cursor is None {
        Some(0)
    } else {
        cursor
    }
}

/// The cursor after stepping forward `k` times from `i` in a playlist of `len` tracks.
pub open spec fn advanced_by(i: int, k: nat, len: int) -> int
    decreases k,
{
    if k == 0 {
        i
    } else {
        next_index(advanced_by(i, (k - 1) as nat, len), len)
    }
}

/// `after` is `before` stepped forward once: the same tracks, and the cursor on
/// the next track (unchanged when there are none).
pub open spec fn advanced_once(before: Playlist, after: Playlist) -> bool {
    &&& after.wf()
    &&& after.entries() == before.entries()
    &&& before.entries().len() == 0 ==> after.cursor() == before.cursor()
    &&& before.entries().len() > 0 ==> after.cursor() == Some(
        next_index(before.cursor()->0, before.entries().len() as int),
    )
}

/// The tracks after a call that either appends `added` or leaves the tracks as
/// they were (`None`).
pub open spec fn tracks_after(before: Seq<Track>, added: Option<Track>) -> Seq<Track> {
    match added {
        Some(t) => before.push(t),
        None => before,
    }
}

/// The tracks that a run of calls appended, in the order of the calls.
pub open spec fn appended_tracks(added: Seq<Option<Track>>) -> Seq<Track>
    decreases added.len(),
{
    if added.len() == 0 {
        Seq::empty()
    } else {
        tracks_after(appended_tracks(added.drop_last()), added.last())
    }
}

/// `pos` is the first position in `tracks` whose id is `id`.
pub open spec fn is_first_with_id(tracks: Seq<Track>, id: u64, pos: int) -> bool {
    &&& 0 <= pos < tracks.len()
    &&& tracks[pos].id == id
    &&& forall|j: int| 0 <= j < pos ==> tracks[j].id != id
}

/// Some track in `tracks` carries `id`.
pub open spec fn has_id(tracks: Seq<Track>, id: u64) -> bool {
    exists|j: int| 0 <= j < tracks.len() && tracks[j].id == id
}

/// The first position in `tracks` whose id is `id` (meaningful when `has_id` holds).
pub open spec fn first_with_id(tracks: Seq<Track>, id: u64) -> int {
    choose|pos: int| is_first_with_id(tracks, id, pos)
}

/// Where the cursor lands once the track at `pos` has been taken out,
/// leaving `new_len` tracks behind.
pub open spec fn cursor_after_removal(cursor: Option<int>, pos: int, new_len: int) -> Option<int> {
    match cursor {
        None => None,
        Some(a) => if new_len == 0 {
            None
        } else if pos <= a && a > 0 {
            Some(a - 1)
        } else {
            Some(a)
        },
    }
}

/// Playlist keeps deterministic ordering plus the active cursor.
#[derive(Clone, Debug)]
pub struct Playlist {
    /// Tracks are stored in insertion order to mimic Winamp behavior.
    tracks: Vec<Track>,
    /// Optional pointer to the currently focused track index.
    active: Option<usize>,
}

impl Default for Playlist {
    /// An empty playlist with no cursor.
    fn default() -> (p: Self)
        ensures
            p.wf(),
            p.entries() == Seq::<Track>::empty(),
            p.cursor() is None,
    {
        Playlist { tracks: Vec::new(), active: None }
    }
}

impl Playlist {
    /// The tracks in playlist order.
    pub closed spec fn entries(&self) -> Seq<Track> {
        self.tracks@
    }

    /// The index of the active track, if any.
    pub closed spec fn cursor(&self) -> Option<int> {
        match self.active {
            Some(i) => Some(i as int),
            None => None,
        }
    }

    /// The cursor is set exactly when there are tracks, and then points at one.
    pub open spec fn wf(&self) -> bool {
        &&& (self.entries().len() == 0 <==> self.cursor() is None)
        &&& (self.cursor() matches Some(i) ==> 0 <= i < self.entries().len())
    }

    /// Creates an empty playlist for dependency injection.
    pub fn new() -> (p: Self)
        ensures
            p.wf(),
            p.entries() == Seq::<Track>::empty(),
            p.cursor() is None,
    {
        Self::default()
    }

    /// Adds a track and returns its index for convenience.
    pub fn add_track(&mut self, track: Track) -> (index: usize)
        requires
            old(self).wf(),
            old(self).entries().len() < usize::MAX,
        ensures
            final(self).wf(),
            final(self).entries() == old(self).entries().push(track),
            index == old(self).entries().len(),
            final(self).cursor() == cursor_after_add(old(self).cursor()),
            old(self).cursor() is None ==> final(self).cursor() == Some(0int),
            old(self).cursor() is Some ==> final(self).cursor() == old(self).cursor(),
    {
        self.tracks.push(track);
        if self.active.is_none() {
            self.active = Some(0);
        }
        self.tracks.len() - 1
    }

    /// Removes a track by id and keeps the cursor in a valid state.
    pub fn remove_track(&mut self, id: u64) -> (removed: bool)
        requires
            old(self).wf(),
        ensures
            final(self).wf(),
            removed == has_id(old(self).entries(), id),
            removed ==> {
                let pos: int = first_with_id(old(self).entries(), id);
                &&& final(self).entries() == old(self).entries().remove(pos)
                &&& final(self).cursor() == cursor_after_removal(
                    old(self).cursor(),
                    pos,
                    old(self).entries().len() - 1,
                )
            },
            !removed ==> final(self).entries() == old(self).entries() && final(self).cursor()
                == old(self).cursor(),
            removed ==> {
                let pos: int = first_with_id(old(self).entries(), id);
                &&& 0 <= pos < old(self).entries().len()
                &&& old(self).entries()[pos].id == id
                &&& forall|j: int| 0 <= j < pos ==> old(self).entries()[j].id != id
            },
            removed && old(self).cursor() is Some ==> ({
                let pos: int = first_with_id(old(self).entries(), id);
                let a: int = old(self).cursor()->0;
                let c: Option<int> = final(self).cursor();
                &&& pos > a ==> c == Some(a)
                &&& pos < a ==> c == Some(a - 1)
                &&& pos != a ==> c is Some && final(self).entries()[c->0] == old(self).entries()[a]
                &&& (pos == a && old(self).entries().len() > 1) ==> c == Some(
                    if a > 0 {
                        a - 1
                    } else {
                        0
                    },
                )
            }),
            (removed && old(self).entries().len() == 1) ==> final(self).cursor() is None,
    {
        proof {
            if old(self).cursor() is Some && has_id(old(self).entries(), id) {
                let w = choose|j: int| 0 <= j < old(self).entries().len() && old(self).entries()[j].id
                    == id;
                lemma_has_id_has_first(old(self).entries(), id, w);
                law_removal_keeps_active_track(
                    old(self).entries(),
                    old(self).cursor()->0,
                    first_with_id(old(self).entries(), id),
                );
            }
        }
        match position_of_id(&self.tracks, id) {
            Some(pos) => {
                self.tracks.remove(pos);
                if let Some(active) = self.active {
                    if self.tracks.len() == 0 {
                        self.active = None;
                    } else if pos <= active && active > 0 {
                        self.active = Some(active - 1);
                    }
                }
                true
            },
            None => false,
        }
    }

    /// Moves the play head to the next track with wrap-around.
    pub fn advance(&mut self)
        requires
            old(self).wf(),
        ensures
            advanced_once(*old(self), *final(self)),
    {
        if self.tracks.len() == 0 {
            return;
        }
        self.active = Some(
            match self.active {
                Some(idx) if idx + 1 < self.tracks.len() => idx + 1,
                _ => 0,
            },
        );
    }

    /// Moves the play head backwards while wrapping to the tail.
    pub fn rewind(&mut self)
        requires
            old(self).wf(),
        ensures
            final(self).wf(),
            final(self).entries() == old(self).entries(),
            old(self).entries().len() == 0 ==> final(self).cursor() == old(self).cursor(),
            old(self).entries().len() > 0 ==> final(self).cursor() == Some(
                prev_index(old(self).cursor()->0, old(self).entries().len() as int),
            ),
    {
        if self.tracks.len() == 0 {
            return;
        }
        self.active = Some(
            match self.active {
                Some(idx) if idx > 0 => idx - 1,
                _ => self.tracks.len() - 1,
            },
        );
    }

    /// Exposes an immutable slice for UI rendering efficiency.
    pub fn tracks(&self) -> (s: &[Track])
        ensures
            s@ == self.entries(),
    {
        self.tracks.as_slice()
    }

    /// Returns the currently active track for easy highlighting.
    pub fn active(&self) -> (t: Option<&Track>)
        requires
            self.wf(),
        ensures
            match self.cursor() {
                Some(i) => t == Some(&self.entries()[i]),
                None => t is None,
            },
    {
        match self.active {
            Some(idx) => Some(&self.tracks[idx]),
            None => None,
        }
    }

    /// Returns the current index when the UI needs to custom paint rows.
    pub fn active_index(&self) -> (i: Option<usize>)
        ensures
            match i {
                Some(k) => self.cursor() == Some(k as int),
                None => self.cursor() is None,
            },
    {
        self.active
    }

    /// Supplies a mutable reference for playback logic needing mutation.
    pub fn active_mut(&mut self) -> (t: Option<&mut Track>)
        requires
            old(self).wf(),
        ensures
            final(self).wf(),
            final(self).cursor() == old(self).cursor(),
            old(self).cursor() is None ==> t is None && final(self).entries() == old(self).entries(),
            old(self).cursor() matches Some(i) ==> {
                &&& t is Some
                &&& *t->0 == old(self).entries()[i]
                &&& final(self).entries() == old(self).entries().update(i, *final(t->0))
            },
    {
        match self.active {
            Some(idx) => Some(&mut self.tracks[idx]),
            None => None,
        }
    }

    /// Reports playlist length for diagnostics and button enablement.
    pub fn len(&self) -> (n: usize)
        ensures
            n == self.entries().len(),
    {
        self.tracks.len()
    }

    /// Convenience predicate used to disable controls on empty playlists.
    pub fn is_empty(&self) -> (b: bool)
        ensures
            b == (self.entries().len() == 0),
    {
        self.tracks.is_empty()
    }

    /// Allows explicit selection by index which helps table clicks.
    pub fn set_active(&mut self, index: usize)
        requires
            old(self).wf(),
        ensures
            final(self).wf(),
            final(self).entries() == old(self).entries(),
            final(self).cursor() == (if index < old(self).entries().len() {
                Some(index as int)
            } else {
                old(self).cursor()
            }),
    {
        if index < self.tracks.len() {
            self.active = Some(index);
        }
    }
}

/// Taking out any track other than the active one leaves the cursor on that
/// same track; taking out the active track selects the one before it (the first
/// one when it was first), and emptying the playlist clears the cursor.
pub proof fn law_removal_keeps_active_track(tracks: Seq<Track>, active: int, pos: int)
    requires
        0 <= active < tracks.len(),
        0 <= pos < tracks.len(),
    ensures
        pos != active ==> ({
            let c = cursor_after_removal(Some(active), pos, tracks.len() - 1);
            &&& c is Some
            &&& 0 <= c->0 < tracks.len() - 1
            &&& tracks.remove(pos)[c->0] == tracks[active]
        }),
        pos == active && tracks.len() > 1 ==> cursor_after_removal(
            Some(active),
            pos,
            tracks.len() - 1,
        ) == Some(if active > 0 { active - 1 } else { 0 }),
        tracks.len() == 1 ==> cursor_after_removal(Some(active), pos, tracks.len() - 1) is None,
{
}

/// Some track carries `id`, so a first such position exists.
proof fn lemma_has_id_has_first(tracks: Seq<Track>, id: u64, witness: int)
    requires
        0 <= witness < tracks.len(),
        tracks[witness].id == id,
    ensures
        is_first_with_id(tracks, id, first_with_id(tracks, id)),
    decreases witness,
{
    if exists|j: int| 0 <= j < witness && tracks[j].id == id {
        let j = choose|j: int| 0 <= j < witness && tracks[j].id == id;
        lemma_has_id_has_first(tracks, id, j);
    } else {
        assert(is_first_with_id(tracks, id, witness));
    }
}

/// Each field that probing found decides the track's field on its own, whatever
/// else was or was not found; with nothing found the defaults apply.
pub proof fn law_probed_fields_win(path: Seq<char>, probed: Option<MediaMetadata>)
    ensures
        (probed is Some && probed->0.title is Some) ==> title_for_file(path, probed) == probed->0.title->0@,
        (probed is Some && probed->0.artist is Some) ==> artist_for_file(probed) == probed->0.artist->0@,
        (probed is Some && probed->0.duration_secs is Some) ==> duration_for_file(probed) == (if probed->0.duration_secs->0
            == 0 {
            1
        } else {
            probed->0.duration_secs->0
        }),
        (probed is Some && probed->0.title is None) ==> title_for_file(path, probed)
            == title_for_file(path, None),
        (probed is Some && probed->0.artist is None) ==> artist_for_file(probed) == "Local File"@,
        (probed is Some && probed->0.duration_secs is None) ==> duration_for_file(probed) == 120,
        artist_for_file(None) == "Local File"@,
        duration_for_file(None) == 120,
        title_for_file(path, None) == (if file_stem_of(path) is Some {
            file_stem_of(path)->0
        } else {
            "Unknown"@
        }),
{
}

/// A file-backed track always lasts at least a second, whatever probing found.
pub proof fn law_file_track_duration_positive(probed: Option<MediaMetadata>)
    ensures
        duration_for_file(probed) >= 1,
{
}

/// Stepping forward moves the cursor to its successor modulo the playlist length.
pub proof fn law_advance_is_successor(i: int, len: int)
    requires
        0 <= i < len,
    ensures
        next_index(i, len) == (i + 1) % len,
{
    if i + 1 < len {
        vstd::arithmetic::div_mod::lemma_small_mod((i + 1) as nat, len as nat);
    } else {
        vstd::arithmetic::div_mod::lemma_mod_self_0(len);
    }
}

/// Stepping backward moves the cursor to its predecessor modulo the playlist length.
pub proof fn law_rewind_is_predecessor(i: int, len: int)
    requires
        0 <= i < len,
    ensures
        prev_index(i, len) == (i + len - 1) % len,
{
    if i > 0 {
        vstd::arithmetic::div_mod::lemma_mod_add_multiples_vanish(i - 1, len);
        vstd::arithmetic::div_mod::lemma_small_mod((i - 1) as nat, len as nat);
    } else {
        vstd::arithmetic::div_mod::lemma_small_mod((len - 1) as nat, len as nat);
    }
}

/// Rewinding right after advancing comes back to the same track.
pub proof fn law_rewind_undoes_advance(i: int, len: int)
    requires
        0 <= i < len,
    ensures
        prev_index(next_index(i, len), len) == i,
{
}

/// Advancing right after rewinding comes back to the same track.
pub proof fn law_advance_undoes_rewind(i: int, len: int)
    requires
        0 <= i < len,
    ensures
        next_index(prev_index(i, len), len) == i,
{
}

/// Advancing `k` times from `i` lands on `(i + k) mod len`.
pub proof fn law_advance_k_times(i: int, k: nat, len: int)
    requires
        0 <= i < len,
    ensures
        advanced_by(i, k, len) == (i + k) % len,
    decreases k,
{
    if k == 0 {
        vstd::arithmetic::div_mod::lemma_small_mod(i as nat, len as nat);
    } else {
        law_advance_k_times(i, (k - 1) as nat, len);
        let prev: int = (i + k - 1) % len;
        vstd::arithmetic::div_mod::lemma_mod_bound(i + k - 1, len);
        law_advance_is_successor(prev, len);
        vstd::arithmetic::div_mod::lemma_add_mod_noop_right(1, i + k - 1, len);
    }
}

/// Advancing once per track walks the whole playlist round to where it started.
pub proof fn law_full_cycle(i: int, len: int)
    requires
        0 <= i < len,
    ensures
        advanced_by(i, len as nat, len) == i,
{
    law_advance_k_times(i, len as nat, len);
    vstd::arithmetic::div_mod::lemma_mod_add_multiples_vanish(i, len);
    vstd::arithmetic::div_mod::lemma_small_mod(i as nat, len as nat);
}

/// Advancing once per track, call after call, walks round to the track where
/// the run started, with the tracks unchanged.
pub proof fn law_advance_run_cycles(run: Seq<Playlist>)
    requires
        run.len() > 0,
        run[0].wf(),
        run[0].entries().len() > 0,
        run.len() == run[0].entries().len() + 1,
        forall|k: int| 0 <= k < run.len() - 1 ==> advanced_once(#[trigger] run[k], run[k + 1]),
    ensures
        run.last().entries() == run[0].entries(),
        run.last().cursor() == run[0].cursor(),
{
    let len: int = run[0].entries().len() as int;
    let start: int = run[0].cursor()->0;
    lemma_advance_run_prefix(run, (run.len() - 1) as nat);
    law_full_cycle(start, len);
}

proof fn lemma_advance_run_prefix(run: Seq<Playlist>, k: nat)
    requires
        run.len() > 0,
        run[0].wf(),
        run[0].entries().len() > 0,
        k < run.len(),
        forall|j: int| 0 <= j < run.len() - 1 ==> advanced_once(#[trigger] run[j], run[j + 1]),
    ensures
        run[k as int].entries() == run[0].entries(),
        run[k as int].cursor() == Some(
            advanced_by(run[0].cursor()->0, k, run[0].entries().len() as int),
        ),
    decreases k,
{
    if k > 0 {
        lemma_advance_run_prefix(run, (k - 1) as nat);
        assert(advanced_once(run[k - 1], run[k as int]));
    }
}

/// Across any run of calls that each append a track or keep the tracks as they
/// are (adding, stepping, selecting), a playlist that started empty holds
/// exactly the added tracks, in the order they were added.
pub proof fn law_insertion_order(run: Seq<Playlist>, added: Seq<Option<Track>>)
    requires
        run.len() == added.len() + 1,
        run[0].entries() == Seq::<Track>::empty(),
        forall|k: int|
            0 <= k < added.len() ==> #[trigger] run[k + 1].entries() == tracks_after(
                run[k].entries(),
                added[k],
            ),
    ensures
        run.last().entries() == appended_tracks(added),
{
    lemma_insertion_prefix(run, added, added.len());
    assert(added.take(added.len() as int) =~= added);
}

proof fn lemma_insertion_prefix(run: Seq<Playlist>, added: Seq<Option<Track>>, k: nat)
    requires
        run.len() == added.len() + 1,
        run[0].entries() == Seq::<Track>::empty(),
        forall|j: int|
            0 <= j < added.len() ==> #[trigger] run[j + 1].entries() == tracks_after(
                run[j].entries(),
                added[j],
            ),
        k <= added.len(),
    ensures
        run[k as int].entries() == appended_tracks(added.take(k as int)),
    decreases k,
{
    if k == 0 {
        assert(added.take(0) =~= Seq::<Option<Track>>::empty());
    } else {
        lemma_insertion_prefix(run, added, (k - 1) as nat);
        assert(added.take(k as int).drop_last() =~= added.take(k - 1));
        assert(added.take(k as int).last() == added[k - 1]);
        assert(run[(k - 1) + 1].entries() == tracks_after(run[k - 1].entries(), added[k - 1]));
    }
}

/// Adding a track whose id is new and then removing that id gives back the
/// playlist as it was: the same tracks and the same cursor.
pub proof fn law_remove_undoes_add(p: Playlist, track: Track)
    requires
        p.wf(),
        !has_id(p.entries(), track.id),
    ensures
        has_id(p.entries().push(track), track.id),
        p.entries().push(track).remove(first_with_id(p.entries().push(track), track.id))
            == p.entries(),
        cursor_after_removal(
            cursor_after_add(p.cursor()),
            first_with_id(p.entries().push(track), track.id),
            p.entries().len() as int,
        ) == p.cursor(),
{
    let grown = p.entries().push(track);
    let n: int = p.entries().len() as int;
    assert forall|j: int| 0 <= j < n implies grown[j].id != track.id by {
        assert(grown[j] == p.entries()[j]);
    }
    assert(is_first_with_id(grown, track.id, n));
    lemma_first_with_id_unique(grown, track.id, n);
    assert(grown.remove(n) =~= p.entries());
}

/// Position search keeps the API stable even if ids are sparse.
fn position_of_id(tracks: &Vec<Track>, id: u64) -> (pos: Option<usize>)
    ensures
        match pos {
            Some(p) => is_first_with_id(tracks@, id, p as int) && first_with_id(tracks@, id) == p,
            None => !has_id(tracks@, id),
        },
{
    let len: usize = tracks.len();
    let mut i: usize = 0;
    while i < len
        invariant
            len == tracks@.len(),
            i <= len,
            forall|j: int| 0 <= j < i ==> tracks@[j].id != id,
        decreases len - i,
    {
        if tracks[i].id == id {
            proof {
                lemma_first_with_id_unique(tracks@, id, i as int);
            }
            return Some(i);
        }
        i = i + 1;
    }
    None
}

/// A position found by a front-to-back scan is the one `first_with_id` names.
pub proof fn lemma_first_with_id_unique(tracks: Seq<Track>, id: u64, pos: int)
    requires
        is_first_with_id(tracks, id, pos),
    ensures
        has_id(tracks, id),
        first_with_id(tracks, id) == pos,
{
    let other: int = first_with_id(tracks, id);
    assert(is_first_with_id(tracks, id, other));
    if other < pos {
        assert(tracks[other].id != id);
    } else if other > pos {
        assert(tracks[pos].id != id);
    }
}

} // verus!
