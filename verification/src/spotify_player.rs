use vstd::prelude::*;
use vstd::slice::slice_subrange;
use vstd::string::StringSliceAdditionalSpecFns;
use vstd::std_specs::convert::FromSpecImpl;
use vstd::utf8::is_char_boundary;

use crate::access_token_provider::{bearer, bearer_from, AtpError};

verus! {

/// A failed HTTP exchange: the status code, if the server answered, and
/// the description of the failure.
#[derive(Debug, Clone)]
pub struct HttpFailure {
    pub status: Option<u16>,
    pub message: String,
}

/// Why the Spotify player could not do what was asked.
#[derive(Debug)]
pub enum Error {
    HTTP(HttpFailure),
    NoSpotifyDevice,
    NoToken,
}

impl From<AtpError> for Error {
    fn from(err: AtpError) -> (r: Self) {
        match err {
            AtpError::NoTokenReceivedYet => Error::NoToken,
        }
    }
}

impl FromSpecImpl<AtpError> for Error {
    open spec fn obeys_from_spec() -> bool {
        true
    }

    open spec fn from_spec(v: AtpError) -> Self {
        match v {
            AtpError::NoTokenReceivedYet => Error::NoToken,
        }
    }
}

/// The body of a request to start a playback: an album plays as a context,
/// anything else as a list of one track.
#[derive(Debug, Clone)]
pub struct StartPlayback {
    pub context_uri: Option<String>,
    pub uris: Option<Vec<String>>,
}

/// The UTF-8 bytes that start the URI of an album.
pub open spec fn album_prefix() -> Seq<u8> {
    "spotify:album:".spec_bytes()
}

/// Whether the URI is that of an album: its first fourteen bytes are
/// `spotify:album:`.
pub open spec fn is_album_uri(spotify_uri: &str) -> bool {
    spotify_uri.spec_bytes().subrange(0, 14) == album_prefix()
}

/// Whether the first fourteen bytes of the URI can be compared: there are
/// that many, and they end on a character boundary.
pub open spec fn has_uri_head(spotify_uri: &str) -> bool {
    spotify_uri.spec_bytes().len() >= 14 && is_char_boundary(spotify_uri.spec_bytes(), 14)
}

/// Whether the first fourteen bytes of the URI can be compared.
pub fn uri_head_available(spotify_uri: &str) -> (r: bool)
    ensures
        r == has_uri_head(spotify_uri),
{
    spotify_uri.as_bytes().len() >= 14 && spotify_uri.is_char_boundary(14)
}

/// Whether `body` is the body that starts playing `spotify_uri`.
pub open spec fn is_payload_for(spotify_uri: &str, body: StartPlayback) -> bool {
    if is_album_uri(spotify_uri) {
        &&& body.uris is None
        &&& body.context_uri matches Some(c) && c@ == spotify_uri@
    } else {
        &&& body.context_uri is None
        &&& body.uris matches Some(v) && v@.len() == 1 && v@[0]@ == spotify_uri@
    }
}

/// Whether two byte strings are equal.
pub fn bytes_equal(a: &[u8], b: &[u8]) -> (r: bool)
    ensures
        r == (a@ == b@),
{
    if a.len() != b.len() {
        return false;
    }
    let mut i: usize = 0;
    while i < a.len()
        invariant
            a@.len() == b@.len(),
            i <= a@.len(),
            forall|j: int| 0 <= j < i ==> a@[j] == b@[j],
        decreases a@.len() - i,
    {
        if a[i] != b[i] {
            return false;
        }
        i = i + 1;
    }
    proof {
        assert(a@ =~= b@);
    }
    true
}

/// The body that starts playing `spotify_uri`.
pub fn derive_start_playback_payload_from_spotify_uri(spotify_uri: &str) -> (r: StartPlayback)
    requires
        has_uri_head(spotify_uri),
    ensures
        is_payload_for(spotify_uri, r),
{
    let head = slice_subrange(spotify_uri.as_bytes(), 0, 14);
    if bytes_equal(head, "spotify:album:".as_bytes()) {
        StartPlayback { uris: None, context_uri: Some(spotify_uri.to_owned()) }
    } else {
        let mut uris: Vec<String> = Vec::new();
        uris.push(spotify_uri.to_owned());
        StartPlayback { uris: Some(uris), context_uri: None }
    }
}

/// The target and authorization of a request to the Spotify player API.
#[derive(Debug, Clone)]
pub struct PlayerCall {
    pub device_id: String,
    pub authorization: String,
}

/// The call that stops the playback, given the token and the device that
/// are at hand.  A missing token is reported before a missing device.
pub fn prepare_stop_playback(token: Result<String, AtpError>, device_id: Option<String>) -> (r:
    Result<PlayerCall, Error>)
    ensures
        match token {
            Err(_) => r matches Err(Error::NoToken),
            Ok(t) => match device_id {
                None => r matches Err(Error::NoSpotifyDevice),
                Some(d) => r matches Ok(call) && call.device_id == d && call.authorization@ == bearer(
                    t@,
                ),
            },
        },
{
    let authorization = match bearer_from(token) {
        Ok(b) => b,
        Err(e) => return Err(Error::from(e)),
    };
    match device_id {
        Some(device_id) => Ok(PlayerCall { device_id, authorization }),
        None => Err(Error::NoSpotifyDevice),
    }
}

/// The call and body that start playing `spotify_uri`, given the token and
/// the device that are at hand.
pub fn prepare_start_playback(
    token: Result<String, AtpError>,
    device_id: Option<String>,
    spotify_uri: &str,
) -> (r: Result<(PlayerCall, StartPlayback), Error>)
    requires
        token is Ok && device_id is Some ==> has_uri_head(spotify_uri),
    ensures
        match token {
            Err(_) => r matches Err(Error::NoToken),
            Ok(t) => match device_id {
                None => r matches Err(Error::NoSpotifyDevice),
                Some(d) => r matches Ok((call, body)) && call.device_id == d && call.authorization@
                    == bearer(t@) && is_payload_for(spotify_uri, body),
            },
        },
{
    match prepare_stop_playback(token, device_id) {
        Ok(call) => Ok((call, derive_start_playback_payload_from_spotify_uri(spotify_uri))),
        Err(e) => Err(e),
    }
}

} // verus!
