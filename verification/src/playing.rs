//! The "currently playing" read path: resolve the stored credential,
//! query the remote API, and read the track out of the body defensively —
//! a missing or oddly shaped field renders a generic error, never a
//! fault.

use vstd::prelude::*;
use crate::api::{ApiError, User};
use crate::json::JsonValue;

verus! {

/// What the query renders for the invoking user.
#[derive(Debug, Clone, PartialEq)]
pub enum NowPlayingRender {
    /// No credential is stored: an expected unauthenticated state, not an
    /// error.
    NotLinked,
    /// The service answered that nothing currently matches.
    NotListening { username: String },
    /// A track is playing; the URLs point at the service's track and
    /// artist pages.
    Listening {
        username: String,
        track_name: String,
        track_url: String,
        artist_name: String,
        artist_url: String,
    },
    /// The query failed, or the body lacked an expected field.
    QueryFailed,
}

/// The resource path the query requests for a linked user.
pub fn playing_now_endpoint(username: &str) -> (p: String)
    ensures
        p@ == "user/"@ + username@ + "/playing-now"@,
{
    let mut p = String::from_str("user/");
    p.append(username);
    p.append("/playing-now");
    p
}

/// What the query asks the remote side, given what the store returned:
/// nothing when the user is not linked, else the playing-now resource for
/// the stored username.
pub fn nowplaying_request(user: &Option<User>) -> (r: Option<String>)
    ensures
        r is Some <==> user is Some,
        r matches Some(p) ==> user matches Some(u) && p@ == "user/"@ + u.username@
            + "/playing-now"@,
{
    match user {
        Some(u) => Some(playing_now_endpoint(u.username.as_str())),
        None => None,
    }
}

/// The track-metadata object of a playing-now body:
/// `payload.listens[0].track_metadata`.
pub open spec fn spec_track_metadata(body: JsonValue) -> Option<JsonValue> {
    match body.spec_get("payload"@) {
        None => None,
        Some(payload) => match payload.spec_get("listens"@) {
            None => None,
            Some(listens) => match listens.spec_at(0) {
                None => None,
                Some(first) => first.spec_get("track_metadata"@),
            },
        },
    }
}

/// A string member of an object, if it is there and is a string.
pub open spec fn spec_str_member(v: JsonValue, key: Seq<char>) -> Option<Seq<char>> {
    match v.spec_get(key) {
        None => None,
        Some(m) => m.spec_as_str(),
    }
}

/// The four fields the render needs, when the body holds them all: the
/// track's name and recording identifier, and the artist's name and first
/// identifier.
pub open spec fn spec_track_fields(body: JsonValue) -> Option<(Seq<char>, Seq<char>, Seq<char>, Seq<
    char,
>)> {
    match spec_track_metadata(body) {
        None => None,
        Some(md) => match (
            spec_str_member(md, "track_name"@),
            spec_str_member(md, "recording_mbid"@),
            spec_str_member(md, "artist_name"@),
        ) {
            (Some(track), Some(recording), Some(artist)) => match md.spec_get("artist_mbids"@) {
                None => None,
                Some(mbids) => match mbids.spec_at(0) {
                    None => None,
                    Some(first) => match first.spec_as_str() {
                        None => None,
                        Some(artist_mbid) => Some((track, recording, artist, artist_mbid)),
                    },
                },
            },
            _ => None,
        },
    }
}

/// Reads a string member of the track metadata.
fn str_member<'a>(md: &'a JsonValue, key: &str) -> (r: Option<&'a str>)
    ensures
        r is Some <==> spec_str_member(*md, key@) is Some,
        r matches Some(s) ==> spec_str_member(*md, key@) == Some(s@),
{
    match md.get(key) {
        None => None,
        Some(m) => m.as_str(),
    }
}

/// Renders the classified response of the playing-now query for a linked
/// user: "not listening" on a legitimate absence, the track and artist
/// with their service URLs when every expected field is present, and a
/// generic failure on any error or on a body that lacks one.
pub fn nowplaying_render(username: &str, response: Result<Option<JsonValue>, ApiError>) -> (r:
    NowPlayingRender)
    ensures
        response is Err ==> r is QueryFailed,
        response matches Ok(None) ==> r matches NowPlayingRender::NotListening { username: u } && u@
            == username@,
        response matches Ok(Some(body)) && spec_track_fields(body) is None ==> r is QueryFailed,
        response matches Ok(Some(body)) ==> (spec_track_fields(body) matches Some(fields) ==> (
        r matches NowPlayingRender::Listening {
            username: u,
            track_name,
            track_url,
            artist_name,
            artist_url,
        } && u@ == username@ && track_name@ == fields.0 && track_url@
            == "https://listenbrainz.org/track/"@ + fields.1 && artist_name@ == fields.2
            && artist_url@ == "https://listenbrainz.org/artist/"@ + fields.3)),
{
    let body = match response {
        Err(_) => {
            return NowPlayingRender::QueryFailed;
        },
        Ok(None) => {
            return NowPlayingRender::NotListening { username: username.to_owned() };
        },
        Ok(Some(body)) => body,
    };
    let payload = match body.get("payload") {
        Some(p) => p,
        None => {
            return NowPlayingRender::QueryFailed;
        },
    };
    let listens = match payload.get("listens") {
        Some(l) => l,
        None => {
            return NowPlayingRender::QueryFailed;
        },
    };
    let first = match listens.at(0) {
        Some(f) => f,
        None => {
            return NowPlayingRender::QueryFailed;
        },
    };
    let md = match first.get("track_metadata") {
        Some(m) => m,
        None => {
            return NowPlayingRender::QueryFailed;
        },
    };
    let track = match str_member(md, "track_name") {
        Some(t) => t,
        None => {
            return NowPlayingRender::QueryFailed;
        },
    };
    let recording = match str_member(md, "recording_mbid") {
        Some(m) => m,
        None => {
            return NowPlayingRender::QueryFailed;
        },
    };
    let artist = match str_member(md, "artist_name") {
        Some(a) => a,
        None => {
            return NowPlayingRender::QueryFailed;
        },
    };
    let mbids = match md.get("artist_mbids") {
        Some(m) => m,
        None => {
            return NowPlayingRender::QueryFailed;
        },
    };
    let first_mbid = match mbids.at(0) {
        Some(m) => m,
        None => {
            return NowPlayingRender::QueryFailed;
        },
    };
    let artist_mbid = match first_mbid.as_str() {
        Some(m) => m,
        None => {
            return NowPlayingRender::QueryFailed;
        },
    };
    let mut track_url = String::from_str("https://listenbrainz.org/track/");
    track_url.append(recording);
    let mut artist_url = String::from_str("https://listenbrainz.org/artist/");
    artist_url.append(artist_mbid);
    NowPlayingRender::Listening {
        username: username.to_owned(),
        track_name: track.to_owned(),
        track_url,
        artist_name: artist.to_owned(),
        artist_url,
    }
}

} // verus!
