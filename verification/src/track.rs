use vstd::prelude::*;

use crate::text::decode_apos;
use crate::text::decode_html_apostrophes;

verus! {

/// Where the audio for a song can be fetched from. Currently a single
/// provider: a remote video identified by a stable id and a canonical URL.
pub enum SongSource {
    YouTube { id: String, url: String },
}

/// Spec-level image of a song source.
#[verifier::ext_equal]
pub enum SourceModel {
    YouTube { id: Seq<char>, url: Seq<char> },
}

impl View for SongSource {
    type V = SourceModel;

    open spec fn view(&self) -> SourceModel {
        match self {
            SongSource::YouTube { id, url } => SourceModel::YouTube { id: id@, url: url@ },
        }
    }
}

impl SongSource {
    /// A fresh source naming the same remote video.
    pub fn duplicate(&self) -> (r: SongSource)
        ensures
            r@ == self@,
    {
        match self {
            SongSource::YouTube { id, url } => SongSource::YouTube {
                id: id.clone(),
                url: url.clone(),
            },
        }
    }
}

/// Whether a song has been handed to the audio transport. The session
/// number stands for the live playback handle, owned by the transport;
/// it is set exactly once, when the song becomes the current track.
#[derive(Clone, Copy, PartialEq, Eq, Structural)]
pub enum PlaybackState {
    Pending,
    Playing { session: u64 },
}

/// One playable audio item: immutable display metadata, a source
/// reference, and the playback state of its live session.
pub struct Song {
    pub title: String,
    pub artist: String,
    pub author: String,
    pub duration_secs: u64,
    pub source: SongSource,
    pub playback: PlaybackState,
}

/// Spec-level image of a song.
#[verifier::ext_equal]
pub struct SongModel {
    pub title: Seq<char>,
    pub artist: Seq<char>,
    pub author: Seq<char>,
    pub duration_secs: u64,
    pub source: SourceModel,
    pub playback: PlaybackState,
}

impl View for Song {
    type V = SongModel;

    open spec fn view(&self) -> SongModel {
        SongModel {
            title: self.title@,
            artist: self.artist@,
            author: self.author@,
            duration_secs: self.duration_secs,
            source: self.source@,
            playback: self.playback,
        }
    }
}

/// The canonical watch URL for a remote video id.
pub open spec fn spec_watch_url(id: Seq<char>) -> Seq<char> {
    "https://youtube.com/watch?v="@ + id
}

/// Build the canonical watch URL for a video id.
pub fn watch_url(id: &str) -> (url: String)
    ensures
        url@ == spec_watch_url(id@),
{
    let mut url = String::from_str("https://youtube.com/watch?v=");
    url.append(id);
    url
}

impl Song {
    /// Build a song from a remote video's metadata, on behalf of a
    /// requester. The raw title has its HTML apostrophe references
    /// decoded; the playback session starts out unattached.
    pub fn from_video(name: &str, channel: &str, author: String, duration_secs: u64, id: &str) -> (s: Song)
        ensures
            s@.title == decode_apos(name@),
            s@.artist == channel@,
            s@.author == author@,
            s@.duration_secs == duration_secs,
            s@.source == (SourceModel::YouTube { id: id@, url: spec_watch_url(id@) }),
            s@.playback == PlaybackState::Pending,
    {
        Song {
            title: decode_html_apostrophes(name),
            artist: channel.to_owned(),
            author,
            duration_secs,
            source: SongSource::YouTube { id: id.to_owned(), url: watch_url(id) },
            playback: PlaybackState::Pending,
        }
    }

    /// The song's title rendered as a chat link to its source URL.
    pub fn title_with_link(&self) -> (r: String)
        ensures
            (match self@.source {
                SourceModel::YouTube { id, url } => r@ == "["@ + self@.title + "]("@ + url + ")"@,
            }),
    {
        match &self.source {
            SongSource::YouTube { id: _, url } => {
                let mut r = String::from_str("[");
                r.append(self.title.as_str());
                r.append("](");
                r.append(url.as_str());
                r.append(")");
                proof {
                    assert(r@ =~= "["@ + self@.title + "]("@ + self.source@->url + ")"@);
                }
                r
            }
        }
    }

    /// A fresh song equal to this one in every field.
    pub fn duplicate(&self) -> (r: Song)
        ensures
            r@ == self@,
    {
        Song {
            title: self.title.clone(),
            artist: self.artist.clone(),
            author: self.author.clone(),
            duration_secs: self.duration_secs,
            source: self.source.duplicate(),
            playback: self.playback,
        }
    }
}

} // verus!
