use vstd::prelude::*;

verus! {

/// Metadata extracted from an audio file.
#[derive(Debug, Clone)]
pub struct MediaMetadata {
    /// Optional title identified in file tags.
    pub title: Option<String>,
    /// Optional artist or album-artist tag.
    pub artist: Option<String>,
    /// Duration in seconds if derivable from the encoded frames.
    pub duration_secs: Option<u32>,
}

impl Default for MediaMetadata {
    /// Metadata with nothing found yet.
    fn default() -> (m: Self)
        ensures
            m.title is None,
            m.artist is None,
            m.duration_secs is None,
    {
        MediaMetadata { title: None, artist: None, duration_secs: None }
    }
}

/// The standard tag keys that metadata extraction tells apart; every other
/// standard key is `Other`.
#[derive(Clone, Copy, Debug, PartialEq, Eq, Structural)]
pub enum StandardKey {
    TrackTitle,
    Artist,
    AlbumArtist,
    Other,
}

/// One tag of a metadata revision: its standard key when the container knows
/// one, its raw key and its value rendered as text.
#[derive(Clone, Debug)]
pub struct TagEntry {
    pub std_key: Option<StandardKey>,
    pub key: String,
    pub value: String,
}

/// What `str::to_lowercase` gives for `s`.
pub uninterp spec fn lowercase_of(s: Seq<char>) -> Seq<char>;

/// Text made of ASCII characters only.
pub open spec fn is_ascii_text(s: Seq<char>) -> bool {
    forall|i: int| 0 <= i < s.len() ==> (#[trigger] s[i] as int) < 128
}

/// The ASCII lowercase of one character: `A`..`Z` become `a`..`z`, all else stays.
pub open spec fn ascii_lower_char(c: char) -> char {
    if 65 <= (c as int) <= 90 {
        ((c as int) + 32) as char
    } else {
        c
    }
}

/// The ASCII lowercase of a text, character by character.
pub open spec fn ascii_lowercase(s: Seq<char>) -> Seq<char> {
    Seq::new(s.len(), |i: int| ascii_lower_char(s[i]))
}

/// Wraps `str::to_lowercase`: the Unicode lowercase of `s`, named by
/// `lowercase_of`; on ASCII text, Unicode lowercasing maps `A`..`Z` to
/// `a`..`z` and leaves every other character as it is.
#[verifier::external_body]
fn lowercase(s: &str) -> (lower: String)
    ensures
        lower@ == lowercase_of(s@),
        is_ascii_text(s@) ==> lower@ == ascii_lowercase(s@),
{
    s.to_lowercase()
}

/// The standard key that a raw, lowercased tag name stands for.
pub open spec fn key_for_name(lower: Seq<char>) -> Option<StandardKey> {
    if lower == "title"@ || lower == "tracktitle"@ {
        Some(StandardKey::TrackTitle)
    } else if lower == "artist"@ {
        Some(StandardKey::Artist)
    } else if lower == "albumartist"@ {
        Some(StandardKey::AlbumArtist)
    } else {
        None
    }
}

/// The key a tag counts under: its standard key, else the one its raw name implies.
pub open spec fn inferred_key(tag: TagEntry) -> Option<StandardKey> {
    match tag.std_key {
        Some(k) => Some(k),
        None => key_for_name(lowercase_of(tag.key@)),
    }
}

/// The tag carries a track title.
pub open spec fn names_title(tag: TagEntry) -> bool {
    inferred_key(tag) == Some(StandardKey::TrackTitle)
}

/// The tag carries an artist or an album artist.
pub open spec fn names_artist(tag: TagEntry) -> bool {
    inferred_key(tag) == Some(StandardKey::Artist) || inferred_key(tag) == Some(
        StandardKey::AlbumArtist,
    )
}

/// The value of the first tag in `tags` that carries a title.
pub open spec fn first_title(tags: Seq<TagEntry>) -> Option<String>
    decreases tags.len(),
{
    if tags.len() == 0 {
        None
    } else if names_title(tags[0]) {
        Some(tags[0].value)
    } else {
        first_title(tags.drop_first())
    }
}

/// The value of the first tag in `tags` that carries an artist.
pub open spec fn first_artist(tags: Seq<TagEntry>) -> Option<String>
    decreases tags.len(),
{
    if tags.len() == 0 {
        None
    } else if names_artist(tags[0]) {
        Some(tags[0].value)
    } else {
        first_artist(tags.drop_first())
    }
}

/// A field already found stays; an empty one takes what comes next.
pub open spec fn keep_first(found: Option<String>, next: Option<String>) -> Option<String> {
    if found is Some {
        found
    } else {
        next
    }
}

/// The standard key that a lowercased raw tag name stands for.
pub fn key_for_lowercase_name(lower: &String) -> (k: Option<StandardKey>)
    ensures
        k == key_for_name(lower@),
{
    if *lower == "title".to_string() || *lower == "tracktitle".to_string() {
        Some(StandardKey::TrackTitle)
    } else if *lower == "artist".to_string() {
        Some(StandardKey::Artist)
    } else if *lower == "albumartist".to_string() {
        Some(StandardKey::AlbumArtist)
    } else {
        None
    }
}

/// The key a tag counts under: its standard key, else the one its raw name implies.
pub fn infer_key(tag: &TagEntry) -> (k: Option<StandardKey>)
    ensures
        k == inferred_key(*tag),
        tag.std_key is None && is_ascii_text(tag.key@) ==> k == key_for_name(
            ascii_lowercase(tag.key@),
        ),
{
    match tag.std_key {
        Some(k) => Some(k),
        None => {
            let lower = lowercase(tag.key.as_str());
            key_for_lowercase_name(&lower)
        },
    }
}

/// Records one tag: the first title and the first artist (or album artist) win.
pub fn attach_tag(meta: &mut MediaMetadata, tag: &TagEntry)
    ensures
        final(meta).title == (if names_title(*tag) {
            keep_first(old(meta).title, Some(tag.value))
        } else {
            old(meta).title
        }),
        final(meta).artist == (if names_artist(*tag) {
            keep_first(old(meta).artist, Some(tag.value))
        } else {
            old(meta).artist
        }),
        final(meta).duration_secs == old(meta).duration_secs,
        tag.std_key == Some(StandardKey::Other) ==> final(meta).title == old(meta).title
            && final(meta).artist == old(meta).artist,
        tag.std_key == Some(StandardKey::TrackTitle) ==> final(meta).artist == old(meta).artist
            && final(meta).title == (if old(meta).title is None {
            Some(tag.value)
        } else {
            old(meta).title
        }),
        (tag.std_key == Some(StandardKey::Artist) || tag.std_key == Some(StandardKey::AlbumArtist))
            ==> final(meta).title == old(meta).title && final(meta).artist == (if old(
            meta,
        ).artist is None {
            Some(tag.value)
        } else {
            old(meta).artist
        }),
{
    proof {
        law_standard_key_decides(*tag);
    }
    match infer_key(tag) {
        Some(StandardKey::TrackTitle) => {
            if meta.title.is_none() {
                meta.title = Some(tag.value.clone());
            }
        },
        Some(StandardKey::Artist) | Some(StandardKey::AlbumArtist) => {
            if meta.artist.is_none() {
                meta.artist = Some(tag.value.clone());
            }
        },
        _ => {},
    }
}

/// A tag that carries a standard key counts under exactly that key, whatever its raw name.
pub proof fn law_standard_key_decides(tag: TagEntry)
    ensures
        tag.std_key matches Some(k) ==> inferred_key(tag) == Some(k),
        tag.std_key == Some(StandardKey::TrackTitle) ==> names_title(tag) && !names_artist(tag),
        tag.std_key == Some(StandardKey::Artist) ==> names_artist(tag) && !names_title(tag),
        tag.std_key == Some(StandardKey::AlbumArtist) ==> names_artist(tag) && !names_title(tag),
        tag.std_key == Some(StandardKey::Other) ==> !names_title(tag) && !names_artist(tag),
{
}

/// The merged title is the value of the first tag whose key is the track
/// title, and there is none exactly when no tag carries a track title.
pub proof fn law_first_title_is_first_title_tag(tags: Seq<TagEntry>)
    ensures
        first_title(tags) is None <==> forall|i: int|
            0 <= i < tags.len() ==> inferred_key(#[trigger] tags[i]) != Some(
                StandardKey::TrackTitle,
            ),
        first_title(tags) matches Some(v) ==> exists|i: int|
            0 <= i < tags.len() && #[trigger] tags[i].value == v && inferred_key(tags[i]) == Some(
                StandardKey::TrackTitle,
            ) && forall|j: int|
                0 <= j < i ==> inferred_key(#[trigger] tags[j]) != Some(StandardKey::TrackTitle),
    decreases tags.len(),
{
    if tags.len() > 0 {
        let rest = tags.drop_first();
        law_first_title_is_first_title_tag(rest);
        assert forall|i: int| 0 < i < tags.len() implies #[trigger] tags[i] == rest[i - 1] by {}
        if inferred_key(tags[0]) == Some(StandardKey::TrackTitle) {
            assert(tags[0].value == first_title(tags)->0);
        } else if first_title(rest) is Some {
            let v = first_title(rest)->0;
            let k = choose|k: int|
                0 <= k < rest.len() && #[trigger] rest[k].value == v && inferred_key(rest[k])
                    == Some(StandardKey::TrackTitle) && forall|j: int|
                    0 <= j < k ==> inferred_key(#[trigger] rest[j]) != Some(
                        StandardKey::TrackTitle,
                    );
            assert(tags[k + 1] == rest[k]);
            assert forall|j: int| 0 <= j < k + 1 implies inferred_key(#[trigger] tags[j]) != Some(
                StandardKey::TrackTitle,
            ) by {
                if j > 0 {
                    assert(tags[j] == rest[j - 1]);
                }
            }
        } else {
            assert forall|i: int| 0 <= i < tags.len() implies inferred_key(#[trigger] tags[i])
                != Some(StandardKey::TrackTitle) by {
                if i > 0 {
                    assert(tags[i] == rest[i - 1]);
                }
            }
        }
    }
}

/// The merged artist is the value of the first tag whose key is an artist or an
/// album artist, and there is none exactly when no tag carries either.
pub proof fn law_first_artist_is_first_artist_tag(tags: Seq<TagEntry>)
    ensures
        first_artist(tags) is None <==> forall|i: int|
            0 <= i < tags.len() ==> !is_artist_key(inferred_key(#[trigger] tags[i])),
        first_artist(tags) matches Some(v) ==> exists|i: int|
            0 <= i < tags.len() && #[trigger] tags[i].value == v && is_artist_key(
                inferred_key(tags[i]),
            ) && forall|j: int| 0 <= j < i ==> !is_artist_key(inferred_key(#[trigger] tags[j])),
    decreases tags.len(),
{
    if tags.len() > 0 {
        let rest = tags.drop_first();
        law_first_artist_is_first_artist_tag(rest);
        assert forall|i: int| 0 < i < tags.len() implies #[trigger] tags[i] == rest[i - 1] by {}
        if is_artist_key(inferred_key(tags[0])) {
            assert(tags[0].value == first_artist(tags)->0);
        } else if first_artist(rest) is Some {
            let v = first_artist(rest)->0;
            let k = choose|k: int|
                0 <= k < rest.len() && #[trigger] rest[k].value == v && is_artist_key(
                    inferred_key(rest[k]),
                ) && forall|j: int| 0 <= j < k ==> !is_artist_key(inferred_key(#[trigger] rest[j]));
            assert(tags[k + 1] == rest[k]);
            assert forall|j: int| 0 <= j < k + 1 implies !is_artist_key(
                inferred_key(#[trigger] tags[j]),
            ) by {
                if j > 0 {
                    assert(tags[j] == rest[j - 1]);
                }
            }
        } else {
            assert forall|i: int| 0 <= i < tags.len() implies !is_artist_key(
                inferred_key(#[trigger] tags[i]),
            ) by {
                if i > 0 {
                    assert(tags[i] == rest[i - 1]);
                }
            }
        }
    }
}

/// The key is an artist or an album artist.
pub open spec fn is_artist_key(k: Option<StandardKey>) -> bool {
    k == Some(StandardKey::Artist) || k == Some(StandardKey::AlbumArtist)
}

/// Records every tag of `tags` in order.
fn attach_tags(meta: &mut MediaMetadata, tags: &[TagEntry])
    ensures
        final(meta).title == keep_first(old(meta).title, first_title(tags@)),
        final(meta).artist == keep_first(old(meta).artist, first_artist(tags@)),
        final(meta).duration_secs == old(meta).duration_secs,
{
    let n: usize = tags.len();
    let mut i: usize = 0;
    proof {
        assert(tags@.take(0) =~= Seq::<TagEntry>::empty());
    }
    while i < n
        invariant
            n == tags@.len(),
            i <= n,
            meta.title == keep_first(old(meta).title, first_title(tags@.take(i as int))),
            meta.artist == keep_first(old(meta).artist, first_artist(tags@.take(i as int))),
            meta.duration_secs == old(meta).duration_secs,
        decreases n - i,
    {
        proof {
            assert(tags@.take(i + 1) =~= tags@.take(i as int).push(tags@[i as int]));
            lemma_first_title_push(tags@.take(i as int), tags@[i as int]);
            lemma_first_artist_push(tags@.take(i as int), tags@[i as int]);
        }
        attach_tag(meta, &tags[i]);
        i = i + 1;
    }
    proof {
        assert(tags@.take(n as int) =~= tags@);
    }
}

/// Folds the tags of the primary revision, then of the secondary one, into metadata.
pub fn merge_metadata(primary: &[TagEntry], secondary: &[TagEntry]) -> (meta: MediaMetadata)
    ensures
        meta.title == first_title(primary@ + secondary@),
        meta.artist == first_artist(primary@ + secondary@),
        meta.duration_secs is None,
{
    let mut meta = MediaMetadata::default();
    attach_tags(&mut meta, primary);
    attach_tags(&mut meta, secondary);
    proof {
        lemma_first_title_concat(primary@, secondary@);
        lemma_first_artist_concat(primary@, secondary@);
    }
    meta
}

/// Fills in a duration measured from the encoded frames when the tags gave none;
/// a measured duration counts as at least one second.
pub fn settle_duration(meta: MediaMetadata, measured: Option<u32>) -> (settled: MediaMetadata)
    ensures
        settled.title == meta.title,
        settled.artist == meta.artist,
        settled.duration_secs == (match (meta.duration_secs, measured) {
            (Some(d), _) => Some(d),
            (None, Some(m)) => Some(if m < 1 { 1u32 } else { m }),
            (None, None) => None,
        }),
{
    let mut meta = meta;
    if meta.duration_secs.is_none() {
        if let Some(secs) = measured {
            meta.duration_secs = Some(if secs < 1 { 1 } else { secs });
        }
    }
    meta
}

proof fn lemma_first_title_push(tags: Seq<TagEntry>, tag: TagEntry)
    ensures
        first_title(tags.push(tag)) == keep_first(
            first_title(tags),
            if names_title(tag) {
                Some(tag.value)
            } else {
                None
            },
        ),
    decreases tags.len(),
{
    if tags.len() > 0 {
        assert(tags.push(tag)[0] == tags[0]);
        assert(tags.push(tag).drop_first() =~= tags.drop_first().push(tag));
        lemma_first_title_push(tags.drop_first(), tag);
    } else {
        assert(tags.push(tag)[0] == tag);
        assert(tags.push(tag).drop_first() =~= Seq::<TagEntry>::empty());
        assert(first_title(Seq::<TagEntry>::empty()) == None::<String>);
        assert(first_title(tags) == None::<String>);
    }
}

proof fn lemma_first_artist_push(tags: Seq<TagEntry>, tag: TagEntry)
    ensures
        first_artist(tags.push(tag)) == keep_first(
            first_artist(tags),
            if names_artist(tag) {
                Some(tag.value)
            } else {
                None
            },
        ),
    decreases tags.len(),
{
    if tags.len() > 0 {
        assert(tags.push(tag)[0] == tags[0]);
        assert(tags.push(tag).drop_first() =~= tags.drop_first().push(tag));
        lemma_first_artist_push(tags.drop_first(), tag);
    } else {
        assert(tags.push(tag)[0] == tag);
        assert(tags.push(tag).drop_first() =~= Seq::<TagEntry>::empty());
        assert(first_artist(Seq::<TagEntry>::empty()) == None::<String>);
        assert(first_artist(tags) == None::<String>);
    }
}

proof fn lemma_first_title_concat(a: Seq<TagEntry>, b: Seq<TagEntry>)
    ensures
        first_title(a + b) == keep_first(first_title(a), first_title(b)),
    decreases a.len(),
{
    if a.len() > 0 {
        assert((a + b).drop_first() =~= a.drop_first() + b);
        lemma_first_title_concat(a.drop_first(), b);
    } else {
        assert(a + b =~= b);
    }
}

proof fn lemma_first_artist_concat(a: Seq<TagEntry>, b: Seq<TagEntry>)
    ensures
        first_artist(a + b) == keep_first(first_artist(a), first_artist(b)),
    decreases a.len(),
{
    if a.len() > 0 {
        assert((a + b).drop_first() =~= a.drop_first() + b);
        lemma_first_artist_concat(a.drop_first(), b);
    } else {
        assert(a + b =~= b);
    }
}

} // verus!
