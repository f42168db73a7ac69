use vstd::prelude::*;

use crate::text::contains_seq;
use crate::text::find_first;
use crate::text::first_match;
use crate::text::lemma_first_match_none;
use crate::text::lemma_first_match_some;
use crate::text::matches_at;
use crate::text::starts_with;

verus! {

/// How a raw track request must be resolved. A request is either a bare
/// search phrase, or a link: to the primary video platform (carrying an
/// 11-character video id), to the external music catalog (carrying a
/// 22-character track id to be looked up and turned into a search
/// phrase), or to a provider the resolver does not support.
pub enum TrackRequest {
    Search,
    CatalogTrack { track_id: String },
    VideoLink { video_id: String },
    UnsupportedLink,
    MalformedLink,
}

/// Spec-level image of a classified track request.
#[verifier::ext_equal]
pub enum RequestModel {
    Search,
    CatalogTrack { track_id: Seq<char> },
    VideoLink { video_id: Seq<char> },
    UnsupportedLink,
    MalformedLink,
}

impl View for TrackRequest {
    type V = RequestModel;

    open spec fn view(&self) -> RequestModel {
        match self {
            TrackRequest::Search => RequestModel::Search,
            TrackRequest::CatalogTrack { track_id } => RequestModel::CatalogTrack {
                track_id: track_id@,
            },
            TrackRequest::VideoLink { video_id } => RequestModel::VideoLink {
                video_id: video_id@,
            },
            TrackRequest::UnsupportedLink => RequestModel::UnsupportedLink,
            TrackRequest::MalformedLink => RequestModel::MalformedLink,
        }
    }
}

/// How a request message is classified. Anything that is not a link is a
/// search phrase. A catalog link yields the 22 characters after the
/// first `track/`; a video link yields the first 11 characters after the
/// first `?v=`; links that should carry an id but are too short to are
/// malformed.
pub open spec fn spec_classify(m: Seq<char>) -> RequestModel {
    if !starts_with(m, "http"@) {
        RequestModel::Search
    } else if contains_seq(m, "spotify.com/track/"@) {
        match first_match(m, "track/"@) {
            Some(i) => {
                let rest = m.skip(i + 6);
                if rest.len() < 22 {
                    RequestModel::MalformedLink
                } else {
                    RequestModel::CatalogTrack { track_id: rest.take(22) }
                }
            },
            None => RequestModel::MalformedLink,
        }
    } else if contains_seq(m, "soundcloud"@) {
        RequestModel::UnsupportedLink
    } else {
        match first_match(m, "?v="@) {
            Some(i) => {
                let rest = m.skip(i + 3);
                if rest.len() < 11 {
                    RequestModel::MalformedLink
                } else {
                    RequestModel::VideoLink { video_id: rest.take(11) }
                }
            },
            None => RequestModel::MalformedLink,
        }
    }
}

/// Classify a raw request message.
pub fn classify_request(message: &str) -> (r: TrackRequest)
    ensures
        r@ == spec_classify(message@),
{
    proof {
        reveal_strlit("http");
        reveal_strlit("spotify.com/track/");
        reveal_strlit("track/");
        reveal_strlit("soundcloud");
        reveal_strlit("?v=");
    }
    let n = message.unicode_len();
    if !matches_at(message, 0, "http") {
        return TrackRequest::Search;
    }
    match find_first(message, "spotify.com/track/") {
        Some(j) => {
            proof {
                lemma_first_match_some(message@, "spotify.com/track/"@, 0, j as int);
            }
            match find_first(message, "track/") {
                Some(i) => {
                    proof {
                        lemma_first_match_some(message@, "track/"@, 0, i as int);
                    }
                    if n - (i + 6) < 22 {
                        TrackRequest::MalformedLink
                    } else {
                        let id = message.substring_char(i + 6, i + 6 + 22).to_owned();
                        proof {
                            assert(id@ =~= message@.skip(i + 6).take(22));
                        }
                        TrackRequest::CatalogTrack { track_id: id }
                    }
                },
                None => {
                    // The full catalog pattern ends in `track/`, so its
                    // occurrence at j puts `track/` at j + 12.
                    proof {
                        let ghost pat = "spotify.com/track/"@;
                        let ghost msg = message@;
                        assert(msg.subrange(j as int, j as int + 18) == pat);
                        assert forall|t: int|
                            0 <= t < 6 implies msg.subrange(j + 12, j + 18)[t] == "track/"@[t] by {
                            assert(msg.subrange(j + 12, j + 18)[t] == msg[j + 12 + t]);
                            assert(msg.subrange(j as int, j as int + 18)[12 + t] == msg[j + 12 + t]);
                            assert(pat[12 + t] == "track/"@[t]);
                        }
                        assert(msg.subrange(j + 12, j + 18) =~= "track/"@);
                        lemma_first_match_none(msg, "track/"@, 0, j + 12);
                    }
                    TrackRequest::MalformedLink
                },
            }
        },
        None => {
            if find_first(message, "soundcloud").is_some() {
                TrackRequest::UnsupportedLink
            } else {
                match find_first(message, "?v=") {
                    Some(i) => {
                        proof {
                            lemma_first_match_some(message@, "?v="@, 0, i as int);
                        }
                        if n - (i + 3) < 11 {
                            TrackRequest::MalformedLink
                        } else {
                            let id = message.substring_char(i + 3, i + 3 + 11).to_owned();
                            proof {
                                assert(id@ =~= message@.skip(i + 3).take(11));
                            }
                            TrackRequest::VideoLink { video_id: id }
                        }
                    },
                    None => TrackRequest::MalformedLink,
                }
            }
        },
    }
}

/// The search phrase used to look a catalog track up on the video
/// platform: the track's name, its lead artist, and two fixed
/// refinement words.
pub open spec fn spec_catalog_phrase(name: Seq<char>, artist: Seq<char>) -> Seq<char> {
    name + " "@ + artist + " lyrics explicit"@
}

/// The artist credited for a catalog track: the first listed, or nobody.
pub open spec fn spec_lead_artist(artists: Seq<Seq<char>>) -> Seq<char> {
    if artists.len() == 0 {
        Seq::empty()
    } else {
        artists[0]
    }
}

/// Build the video-platform search phrase for a catalog track from its
/// name and its credited artists.
pub fn catalog_search_phrase(name: &str, artists: &Vec<String>) -> (r: String)
    ensures
        r@ == spec_catalog_phrase(
            name@,
            spec_lead_artist(artists@.map_values(|a: String| a@)),
        ),
{
    let artist = if artists.len() > 0 {
        artists[0].as_str()
    } else {
        ""
    };
    proof {
        reveal_strlit("");
        assert(artist@ =~= spec_lead_artist(artists@.map_values(|a: String| a@)));
    }
    let mut r = name.to_owned();
    r.append(" ");
    r.append(artist);
    r.append(" lyrics explicit");
    proof {
        assert(r@ =~= spec_catalog_phrase(name@, artist@));
    }
    r
}

} // verus!
