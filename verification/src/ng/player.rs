use vstd::prelude::*;

use crate::ng::effects::Effects;

pub use crate::player::{PlaybackRequest, PlaybackResource};
pub use crate::spotify_play::Error;

verus! {

/// A command for the player thread.
#[derive(Debug, Clone)]
pub enum PlayerCommand {
    PlaybackRequest(PlaybackRequest),
    Terminate,
    NewDeviceId(String),
}

/// What the player thread does about a command.
#[derive(Debug, Clone, PartialEq, Eq)]
pub enum PlayerStep {
    /// Emit the effect.
    Emit(Effects),
    /// Nothing.
    Continue,
    /// End the thread.
    Terminate,
}

/// The state of the player thread: the effect that stops the current
/// playback, and the Spotify device last reported.
#[derive(Debug, Clone)]
pub struct PlayerThread {
    stop_effect: Option<Effects>,
    device_id: Option<String>,
}

/// Whether the command can be handled: a stop needs a playback started
/// before it.
pub open spec fn can_handle(thread: PlayerThread, cmd: PlayerCommand) -> bool {
    cmd matches PlayerCommand::PlaybackRequest(PlaybackRequest::Stop) ==> thread.stop_effect() is Some
}

/// What the player thread does about `cmd`, given the stop effect and the
/// device it knows, and what it knows afterwards.
pub open spec fn thread_step(
    stop_effect: Option<Effects>,
    device_id: Option<String>,
    cmd: PlayerCommand,
) -> (PlayerStep, Option<Effects>, Option<String>) {
    match cmd {
        PlayerCommand::PlaybackRequest(PlaybackRequest::Start(
            PlaybackResource::SpotifyUri(spotify_uri),
        )) => (
            PlayerStep::Emit(Effects::NewPlaySpotify { spotify_uri }),
            Some(Effects::NewStopSpotify),
            device_id,
        ),
        PlayerCommand::PlaybackRequest(PlaybackRequest::Start(PlaybackResource::Http(url))) => (
            PlayerStep::Emit(Effects::PlayHttp { url }),
            Some(Effects::StopHttp),
            device_id,
        ),
        PlayerCommand::PlaybackRequest(PlaybackRequest::Stop) => (
            PlayerStep::Emit(stop_effect.unwrap()),
            stop_effect,
            device_id,
        ),
        PlayerCommand::Terminate => (PlayerStep::Terminate, stop_effect, device_id),
        PlayerCommand::NewDeviceId(id) => (PlayerStep::Continue, stop_effect, Some(id)),
    }
}

/// A stop after a start emits the effect that stops what was started: a
/// Spotify playback is stopped through Spotify, an HTTP stream as such.
pub proof fn stop_matches_start(
    stop_effect: Option<Effects>,
    device_id: Option<String>,
    resource: PlaybackResource,
)
    ensures
        ({
            let after = thread_step(
                stop_effect,
                device_id,
                PlayerCommand::PlaybackRequest(PlaybackRequest::Start(resource)),
            );
            let stopped = thread_step(
                after.1,
                after.2,
                PlayerCommand::PlaybackRequest(PlaybackRequest::Stop),
            );
            stopped.0 == PlayerStep::Emit(
                match resource {
                    PlaybackResource::SpotifyUri(_) => Effects::NewStopSpotify,
                    PlaybackResource::Http(_) => Effects::StopHttp,
                },
            )
        }),
{
}

impl PlayerThread {
    pub closed spec fn stop_effect(&self) -> Option<Effects> {
        self.stop_effect
    }

    pub closed spec fn device_id(&self) -> Option<String> {
        self.device_id
    }

    pub fn new() -> (r: Self)
        ensures
            r.stop_effect() is None,
            r.device_id() is None,
    {
        PlayerThread { stop_effect: None, device_id: None }
    }

    /// Whether a stop request can be handled now.
    pub fn can_stop(&self) -> (r: bool)
        ensures
            r == (self.stop_effect() is Some),
    {
        self.stop_effect.is_some()
    }

    /// Decides about a command: a start emits the effect that plays the
    /// resource and remembers the effect that stops it, a stop emits that
    /// effect.
    pub fn on_command(&mut self, cmd: PlayerCommand) -> (r: PlayerStep)
        requires
            can_handle(*old(self), cmd),
        ensures
            (r, final(self).stop_effect(), final(self).device_id()) == thread_step(
                old(self).stop_effect(),
                old(self).device_id(),
                cmd,
            ),
    {
        match cmd {
            PlayerCommand::PlaybackRequest(req) => match req {
                PlaybackRequest::Start(resource) => match resource {
                    PlaybackResource::SpotifyUri(spotify_uri) => {
                        self.stop_effect = Some(Effects::NewStopSpotify);
                        PlayerStep::Emit(Effects::NewPlaySpotify { spotify_uri })
                    },
                    PlaybackResource::Http(url) => {
                        self.stop_effect = Some(Effects::StopHttp);
                        PlayerStep::Emit(Effects::PlayHttp { url })
                    },
                },
                PlaybackRequest::Stop => {
                    let eff = match &self.stop_effect {
                        Some(e) => copy_effect(e),
                        None => Effects::StopHttp,
                    };
                    PlayerStep::Emit(eff)
                },
            },
            PlayerCommand::Terminate => PlayerStep::Terminate,
            PlayerCommand::NewDeviceId(new_device_id) => {
                self.device_id = Some(new_device_id);
                PlayerStep::Continue
            },
        }
    }
}

/// A copy of an effect.
pub fn copy_effect(e: &Effects) -> (r: Effects)
    ensures
        r == *e,
{
    match e {
        Effects::PlayHttp { url } => Effects::PlayHttp { url: url.clone() },
        Effects::StopHttp => Effects::StopHttp,
        Effects::PlaySpotify { spotify_uri } => Effects::PlaySpotify { spotify_uri: spotify_uri.clone() },
        Effects::NewPlaySpotify { spotify_uri } => Effects::NewPlaySpotify {
            spotify_uri: spotify_uri.clone(),
        },
        Effects::NewStopSpotify => Effects::NewStopSpotify,
        Effects::StopSpotify => Effects::StopSpotify,
        Effects::LedOn => Effects::LedOn,
        Effects::LedOff => Effects::LedOff,
        Effects::VolumeUp => Effects::VolumeUp,
        Effects::VolumeDown => Effects::VolumeDown,
        Effects::GenericCommand(c) => Effects::GenericCommand(c.clone()),
    }
}

} // verus!
