use vstd::prelude::*;
use vstd::std_specs::convert::FromSpecImpl;

use crate::access_token_provider::AtpError;
use crate::spotify_player::HttpFailure;

verus! {

/// Why a Spotify playback command failed.
#[derive(Debug)]
pub enum Error {
    HTTP(HttpFailure),
    NoToken,
    NoDevice,
    SendError(String),
}

impl From<AtpError> for Error {
    fn from(err: AtpError) -> (r: Error) {
        match err {
            AtpError::NoTokenReceivedYet => Error::NoToken,
        }
    }
}

impl FromSpecImpl<AtpError> for Error {
    open spec fn obeys_from_spec() -> bool {
        true
    }

    open spec fn from_spec(v: AtpError) -> Error {
        match v {
            AtpError::NoTokenReceivedYet => Error::NoToken,
        }
    }
}

/// Whether an HTTP status code reports a client error (4xx).
pub open spec fn is_client_error_status(status: u16) -> bool {
    400 <= status < 500
}

impl Error {
    /// Whether the failure lies with the request rather than the service: a
    /// 4xx answer, or a missing token or device.
    pub fn is_client_error(&self) -> (r: bool)
        ensures
            r == match self {
                Error::HTTP(failure) => failure.status matches Some(s) && is_client_error_status(s),
                Error::NoToken => true,
                Error::NoDevice => true,
                Error::SendError(_) => false,
            },
    {
        match self {
            Error::HTTP(failure) => match failure.status {
                Some(s) => 400 <= s && s < 500,
                None => false,
            },
            Error::NoToken => true,
            Error::NoDevice => true,
            Error::SendError(_) => false,
        }
    }

    /// Whether the failure is that no Spotify device was known.
    pub fn is_device_missing_error(&self) -> (r: bool)
        ensures
            r == (self is NoDevice),
    {
        match self {
            Error::NoDevice => true,
            _ => false,
        }
    }
}

/// A command for the Spotify player thread.
#[derive(Debug, Clone)]
pub enum PlayerCommand {
    StartPlayback { spotify_uri: String },
    StopPlayback,
    Terminate,
    NewDeviceId(String),
}

/// What the Spotify player thread does about a command.
#[derive(Debug, Clone, PartialEq, Eq)]
pub enum PlayerDirective {
    /// Start playing the URI on the device.
    Start { device_id: String, spotify_uri: String },
    /// Stop the playback on the device.
    Stop { device_id: String },
    /// Nothing, for want of a device.
    Skip,
    /// End the thread.
    Terminate,
}

/// The state of the Spotify player thread: the device it plays on.
#[derive(Debug, Clone)]
pub struct PlayerDevice {
    device_id: Option<String>,
}

impl PlayerDevice {
    pub closed spec fn device_id(&self) -> Option<String> {
        self.device_id
    }

    pub fn new() -> (r: Self)
        ensures
            r.device_id() is None,
    {
        PlayerDevice { device_id: None }
    }

    /// Decides about a command: playback commands go to the known device
    /// and are skipped while none is known; a new device ID replaces the
    /// known one.
    pub fn on_command(&mut self, cmd: PlayerCommand) -> (r: PlayerDirective)
        ensures
            match cmd {
                PlayerCommand::StartPlayback { spotify_uri } => final(self).device_id() == old(self).device_id() && r == match old(self).device_id() {
                    Some(device_id) => PlayerDirective::Start { device_id, spotify_uri },
                    None => PlayerDirective::Skip,
                },
                PlayerCommand::StopPlayback => final(self).device_id() == old(self).device_id() && r
                    == match old(self).device_id() {
                    Some(device_id) => PlayerDirective::Stop { device_id },
                    None => PlayerDirective::Skip,
                },
                PlayerCommand::Terminate => final(self).device_id() == old(self).device_id() && r
                    == PlayerDirective::Terminate,
                PlayerCommand::NewDeviceId(id) => final(self).device_id() == Some(id) && r
                    == PlayerDirective::Skip,
            },
    {
        match cmd {
            PlayerCommand::StartPlayback { spotify_uri } => match &self.device_id {
                Some(device_id) => PlayerDirective::Start { device_id: device_id.clone(), spotify_uri },
                None => PlayerDirective::Skip,
            },
            PlayerCommand::StopPlayback => match &self.device_id {
                Some(device_id) => PlayerDirective::Stop { device_id: device_id.clone() },
                None => PlayerDirective::Skip,
            },
            PlayerCommand::Terminate => PlayerDirective::Terminate,
            PlayerCommand::NewDeviceId(new_device_id) => {
                self.device_id = Some(new_device_id);
                PlayerDirective::Skip
            },
        }
    }
}

} // verus!
