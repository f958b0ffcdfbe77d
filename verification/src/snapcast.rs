//! Snapcast now-playing widget: which stream is shown, the track text, and
//! the album-art cache that avoids fetching the same picture twice.

use vstd::prelude::*;
use crate::text::{copy_opt_string, copy_strings, join, owned, seq_join};

verus! {

/// Track metadata of a playing stream.
#[derive(Debug, Clone)]
pub struct NowPlayingInfo {
    pub title: Option<String>,
    pub artist: Option<Vec<String>>,
    pub album: Option<String>,
    pub art_url: Option<String>,
}

/// Two track records hold the same metadata.
pub open spec fn same_info(a: NowPlayingInfo, b: NowPlayingInfo) -> bool {
    &&& a.title == b.title
    &&& a.artist.deep_view() == b.artist.deep_view()
    &&& a.album == b.album
    &&& a.art_url == b.art_url
}

/// Both absent, or both present with the same metadata.
pub open spec fn same_track(a: Option<NowPlayingInfo>, b: Option<NowPlayingInfo>) -> bool {
    match (a, b) {
        (Some(x), Some(y)) => same_info(x, y),
        (None, None) => true,
        _ => false,
    }
}

impl NowPlayingInfo {
    /// A field-by-field copy.
    pub fn duplicate(&self) -> (r: NowPlayingInfo)
        ensures
            same_info(r, *self),
            r.title == self.title,
            r.artist.deep_view() == self.artist.deep_view(),
            r.album == self.album,
            r.art_url == self.art_url,
    {
        let artist = match &self.artist {
            Some(a) => Some(copy_strings(a)),
            None => None,
        };
        NowPlayingInfo {
            title: copy_opt_string(&self.title),
            artist,
            album: copy_opt_string(&self.album),
            art_url: copy_opt_string(&self.art_url),
        }
    }
}

/// What the widget needs to know of a Snapcast stream: whether it is
/// playing, and its metadata when the stream has some that reads as track
/// metadata.
#[derive(Debug, Clone)]
pub struct StreamSnapshot {
    pub playing: bool,
    pub metadata: Option<NowPlayingInfo>,
}

/// The track a stream contributes: its metadata when it is playing.
pub open spec fn stream_track(stream: Option<StreamSnapshot>) -> Option<NowPlayingInfo> {
    match stream {
        Some(s) => if s.playing {
            s.metadata
        } else {
            None
        },
        None => None,
    }
}

/// The now-playing information of a stream, if it is playing and has
/// metadata.
pub fn get_now_playing_info(stream: Option<&StreamSnapshot>) -> (r: Option<NowPlayingInfo>)
    ensures
        same_track(
            r,
            stream_track(
                match stream {
                    Some(s) => Some(*s),
                    None => None,
                },
            ),
        ),
        r is Some <==> (stream matches Some(s) && s.playing && s.metadata is Some),
        r matches Some(info) ==> {
            let m = stream.unwrap().metadata.unwrap();
            &&& info.title == m.title
            &&& info.artist.deep_view() == m.artist.deep_view()
            &&& info.album == m.album
            &&& info.art_url == m.art_url
        },
{
    match stream {
        Some(s) => {
            if !s.playing {
                return None;
            }
            match &s.metadata {
                Some(m) => Some(m.duplicate()),
                None => None,
            }
        },
        None => None,
    }
}

/// The now-playing information of the first stream, in the given order,
/// that is playing with metadata.
pub fn extract_now_playing(streams: &Vec<Option<StreamSnapshot>>) -> (r: Option<NowPlayingInfo>)
    ensures
        match r {
            Some(info) => exists|i: int|
                0 <= i < streams@.len() && same_track(Some(info), stream_track(#[trigger] streams@[i]))
                    && forall|j: int| 0 <= j < i ==> stream_track(#[trigger] streams@[j]) is None,
            None => forall|i: int| 0 <= i < streams@.len() ==> stream_track(#[trigger] streams@[i]) is None,
        },
{
    let mut i: usize = 0;
    while i < streams.len()
        invariant
            i <= streams@.len(),
            forall|j: int| 0 <= j < i ==> stream_track(#[trigger] streams@[j]) is None,
        decreases streams@.len() - i,
    {
        let found = get_now_playing_info(streams[i].as_ref());
        if found.is_some() {
            assert(same_track(found, stream_track(streams@[i as int])));
            return found;
        }
        i = i + 1;
    }
    None
}

/// Two records with the same metadata agree on every field: title,
/// artists, album and art address.
pub proof fn lemma_same_info_fields(a: NowPlayingInfo, b: NowPlayingInfo)
    requires
        same_info(a, b),
    ensures
        a.title == b.title,
        a.artist.deep_view() == b.artist.deep_view(),
        a.album == b.album,
        a.art_url == b.art_url,
{
}

/// The track found for a list of streams carries, field for field, the
/// metadata of the first playing stream that has metadata.
pub proof fn lemma_now_playing_is_stream_metadata(
    streams: Seq<Option<StreamSnapshot>>,
    info: NowPlayingInfo,
    i: int,
)
    requires
        0 <= i < streams.len(),
        same_track(Some(info), stream_track(streams[i])),
    ensures
        streams[i] is Some,
        streams[i].unwrap().playing,
        streams[i].unwrap().metadata is Some,
        info.title == streams[i].unwrap().metadata.unwrap().title,
        info.artist.deep_view() == streams[i].unwrap().metadata.unwrap().artist.deep_view(),
        info.album == streams[i].unwrap().metadata.unwrap().album,
        info.art_url == streams[i].unwrap().metadata.unwrap().art_url,
{
}

/// Track text as displayed.
pub struct TrackDisplay {
    pub title: String,
    pub artist: String,
    pub album: String,
}

/// Title, artists joined by `", "` (or `Unknown Artist`) and album (or
/// `Unknown Album`) of a track; a missing title shows empty.
pub fn track_display(info: &NowPlayingInfo) -> (d: TrackDisplay)
    ensures
        d.title@ == match info.title {
            Some(t) => t@,
            None => Seq::<char>::empty(),
        },
        d.artist@ == match info.artist {
            Some(a) => seq_join(a.deep_view(), ", "@),
            None => "Unknown Artist"@,
        },
        d.album@ == match info.album {
            Some(a) => a@,
            None => "Unknown Album"@,
        },
{
    let title = match &info.title {
        Some(t) => t.clone(),
        None => String::new(),
    };
    let artist = match &info.artist {
        Some(a) => join(a, ", "),
        None => owned("Unknown Artist"),
    };
    let album = match &info.album {
        Some(a) => a.clone(),
        None => owned("Unknown Album"),
    };
    TrackDisplay { title, artist, album }
}

/// Album art kept for the last art address, so that it is fetched again
/// only when the address changes.
pub struct ArtCache {
    entry: Option<(String, Vec<u8>)>,
}

/// Whether a fetch is needed for `url` given the cached entry.
pub open spec fn art_needs_fetch(cached: Option<(Seq<char>, Seq<u8>)>, url: Seq<char>) -> bool {
    match cached {
        Some(e) => e.0 != url,
        None => true,
    }
}

/// The cached entry after a fetch for `url` gave `fetched`.
pub open spec fn art_after_fetch(url: Seq<char>, fetched: Option<Seq<u8>>) -> Option<(Seq<char>, Seq<u8>)> {
    match fetched {
        Some(b) => Some((url, b)),
        None => None,
    }
}

impl View for ArtCache {
    type V = Option<(Seq<char>, Seq<u8>)>;

    closed spec fn view(&self) -> Option<(Seq<char>, Seq<u8>)> {
        match self.entry {
            Some(e) => Some((e.0@, e.1@)),
            None => None,
        }
    }
}

impl ArtCache {
    /// An empty cache.
    pub fn new() -> (c: ArtCache)
        ensures
            c@ is None,
    {
        ArtCache { entry: None }
    }

    /// Start handling a track whose art is at `art_url`.  Without an address
    /// the cache is emptied; with one, returns whether the art must be
    /// fetched (the address differs from the cached one).
    pub fn begin(&mut self, art_url: Option<&str>) -> (fetch: bool)
        ensures
            match art_url {
                Some(u) => {
                    &&& fetch == art_needs_fetch(old(self)@, u@)
                    &&& final(self)@ == old(self)@
                },
                None => {
                    &&& !fetch
                    &&& final(self)@ is None
                },
            },
    {
        match art_url {
            Some(u) => {
                match &self.entry {
                    Some(e) => !crate::text::str_eq(e.0.as_str(), u),
                    None => true,
                }
            },
            None => {
                self.entry = None;
                false
            },
        }
    }

    /// Record the outcome of fetching the art at `url`: the bytes when the
    /// fetch succeeded, nothing otherwise.
    pub fn finish(&mut self, url: &str, fetched: Option<Vec<u8>>)
        ensures
            final(self)@ == art_after_fetch(
                url@,
                match fetched {
                    Some(b) => Some(b@),
                    None => None,
                },
            ),
    {
        self.entry = match fetched {
            Some(b) => Some((owned(url), b)),
            None => None,
        };
    }

    /// The cached art bytes, if any.
    pub fn bytes(&self) -> (b: Option<&Vec<u8>>)
        ensures
            match self@ {
                Some(e) => b matches Some(v) && v@ == e.1,
                None => b is None,
            },
    {
        match &self.entry {
            Some(e) => Some(&e.1),
            None => None,
        }
    }
}

/// After the art at `url` was fetched, the same address needs no new fetch
/// and the cache holds the fetched bytes; a different address does need one.
pub proof fn lemma_art_fetched_once(url: Seq<char>, other: Seq<char>, bytes: Seq<u8>)
    ensures
        !art_needs_fetch(art_after_fetch(url, Some(bytes)), url),
        art_after_fetch(url, Some(bytes)) == Some((url, bytes)),
        other != url ==> art_needs_fetch(art_after_fetch(url, Some(bytes)), other),
{
}

/// A failed fetch leaves nothing cached, so the next track with the same
/// address tries again.
pub proof fn lemma_art_failed_fetch_retried(url: Seq<char>)
    ensures
        art_needs_fetch(art_after_fetch(url, None), url),
{
}

} // verus!
