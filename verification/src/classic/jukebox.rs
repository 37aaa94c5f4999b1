use vstd::prelude::*;

use crate::playback_requests::PlaybackRequest;

verus! {

/// What the standalone daemon does about a request from the tag reader.
#[derive(Debug, Clone, PartialEq, Eq)]
pub enum PlaybackAction {
    /// Start playing the URI.
    Start(String),
    /// Stop the playback.
    Stop,
}

/// The action for the request of the tag on the reader: its URI is played,
/// and a removed tag stops the playback.
pub fn playback_action(req: Option<PlaybackRequest>) -> (r: PlaybackAction)
    ensures
        r == match req {
            Some(PlaybackRequest::SpotifyUri(uri)) => PlaybackAction::Start(uri),
            None => PlaybackAction::Stop,
        },
{
    match req {
        Some(PlaybackRequest::SpotifyUri(uri)) => PlaybackAction::Start(uri),
        None => PlaybackAction::Stop,
    }
}

} // verus!
