use vstd::prelude::*;

use crate::player::{PauseState, PlaybackHandle};

verus! {

/// An observable effect of the jukebox.
#[derive(Debug, Clone, PartialEq, Eq)]
pub enum Effects {
    PlayHttp { url: String },
    StopHttp,
    PlaySpotify { spotify_uri: String },
    StopSpotify,
    LedOn,
    LedOff,
    GenericCommand(String),
}

/// The component that performs effects on behalf of the player.
///
/// Implementations live with the hardware and network code; the player only
/// ever sees the results they report.  An error is reported as a message.
pub trait Interpreter {
    type Handle: PlaybackHandle;

    fn wait_until_ready(&self) -> Result<(), String>;

    fn play_http(&self, url: &String, pause_state: Option<PauseState>) -> Result<Self::Handle, String>;

    fn stop_http(&self) -> Result<(), String>;

    fn play_spotify(&self, spotify_uri: &String, pause_state: Option<PauseState>) -> Result<Self::Handle, String>;

    fn stop_spotify(&self) -> Result<(), String>;

    fn led_on(&self) -> Result<(), String>;

    fn led_off(&self) -> Result<(), String>;

    fn generic_command(&self, cmd: String) -> Result<(), String>;
}

} // verus!
