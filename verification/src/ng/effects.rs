use vstd::prelude::*;

verus! {

/// An observable effect of the event-driven jukebox.
#[derive(Debug, Clone, PartialEq, Eq)]
pub enum Effects {
    PlayHttp { url: String },
    StopHttp,
    PlaySpotify { spotify_uri: String },
    NewPlaySpotify { spotify_uri: String },
    NewStopSpotify,
    StopSpotify,
    LedOn,
    LedOff,
    VolumeUp,
    VolumeDown,
    GenericCommand(String),
}

} // verus!
