use vstd::prelude::*;

use crate::config::{command_or, configured_command_or, Config};
use crate::effects::Effects;
use crate::input_controller::{button, Input};
use crate::playback_requests;
use crate::player::{PlaybackRequest, PlaybackResource};

verus! {

/// What the jukebox does about one input.
#[derive(Debug)]
pub enum Reaction {
    /// Perform an effect.
    Effect(Effects),
    /// Hand a playback request to the player.
    Playback(PlaybackRequest),
}

/// The command a button runs when the configuration names none.
pub open spec fn default_command(cmd: button::Command) -> Seq<char> {
    match cmd {
        button::Command::Shutdown => "sudo shutdown -h now"@,
        button::Command::VolumeUp => "amixer -q -M set PCM 10%+"@,
        button::Command::VolumeDown => "amixer -q -M set PCM 10%-"@,
    }
}

/// The configured command for a button.  Volume down reads the volume up
/// setting.
pub open spec fn configured_command(config: Config, cmd: button::Command) -> Option<String> {
    match cmd {
        button::Command::Shutdown => config.shutdown_command,
        button::Command::VolumeUp => config.volume_up_command,
        button::Command::VolumeDown => config.volume_up_command,
    }
}

/// The player request for the request of the tag on the reader: its URI is
/// started, and a removed tag stops the playback.
pub open spec fn spec_player_request(req: Option<playback_requests::PlaybackRequest>) -> PlaybackRequest {
    match req {
        Some(playback_requests::PlaybackRequest::SpotifyUri(uri)) => PlaybackRequest::Start(
            PlaybackResource::SpotifyUri(uri),
        ),
        None => PlaybackRequest::Stop,
    }
}

/// The input for the request of the tag on the reader.
pub fn tag_input(req: Option<playback_requests::PlaybackRequest>) -> (r: Input)
    ensures
        r == Input::Playback(spec_player_request(req)),
{
    match req {
        Some(playback_requests::PlaybackRequest::SpotifyUri(uri)) => Input::Playback(
            PlaybackRequest::Start(PlaybackResource::SpotifyUri(uri)),
        ),
        None => Input::Playback(PlaybackRequest::Stop),
    }
}

/// The application logic of the jukebox.
pub struct App {
    config: Config,
}

impl App {
    pub closed spec fn config(&self) -> Config {
        self.config
    }

    pub fn new(config: Config) -> (app: Self)
        ensures
            app.config() == config,
    {
        App { config }
    }

    /// The reaction to an input: a button runs its shell command, a playback
    /// request goes to the player.
    pub fn react(&self, input: Input) -> (r: Reaction)
        ensures
            match input {
                Input::Button(cmd) => r matches Reaction::Effect(Effects::GenericCommand(c)) && c@
                    == command_or(configured_command(self.config(), cmd), default_command(cmd)),
                Input::Playback(req) => r == Reaction::Playback(req),
            },
    {
        match input {
            Input::Button(cmd) => {
                let c = match cmd {
                    button::Command::Shutdown => configured_command_or(
                        &self.config.shutdown_command,
                        "sudo shutdown -h now",
                    ),
                    button::Command::VolumeUp => configured_command_or(
                        &self.config.volume_up_command,
                        "amixer -q -M set PCM 10%+",
                    ),
                    button::Command::VolumeDown => configured_command_or(
                        &self.config.volume_up_command,
                        "amixer -q -M set PCM 10%-",
                    ),
                };
                Reaction::Effect(Effects::GenericCommand(c))
            },
            Input::Playback(req) => Reaction::Playback(req),
        }
    }
}

} // verus!
