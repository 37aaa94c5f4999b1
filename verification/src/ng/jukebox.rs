use vstd::prelude::*;

use crate::config::{command_or, configured_command_or, Config};
use crate::ng::effects::Effects;
use crate::ng::input_controller::{button, playback, Input};
use crate::jukebox::spec_player_request;
use crate::player::{PlaybackRequest, PlaybackResource};

verus! {

/// What the event-driven jukebox does about one input.
#[derive(Debug)]
pub enum Reaction {
    /// Perform an effect.
    Effect(Effects),
    /// Hand a playback request to the player thread.
    Playback(PlaybackRequest),
}

/// The command a button runs when the configuration names none.
pub open spec fn default_command(cmd: button::Command) -> Seq<char> {
    match cmd {
        button::Command::Shutdown => "shutdown -h now"@,
        button::Command::VolumeUp => "amixer -q -M set PCM 10%+"@,
        button::Command::VolumeDown => "amixer -q -M set PCM 10%-"@,
    }
}

/// The configured command for a button; volume down reads the volume up
/// setting.
pub open spec fn configured_command(config: Config, cmd: button::Command) -> Option<String> {
    match cmd {
        button::Command::Shutdown => config.shutdown_command,
        button::Command::VolumeUp => config.volume_up_command,
        button::Command::VolumeDown => config.volume_up_command,
    }
}

/// The reaction to an input.
pub fn run_application_step(config: &Config, input: Input) -> (r: Reaction)
    ensures
        match input {
            Input::Button(cmd) => r matches Reaction::Effect(Effects::GenericCommand(c)) && c@
                == command_or(configured_command(*config, cmd), default_command(cmd)),
            Input::Playback(req) => r == Reaction::Playback(spec_player_request(req)),
        },
{
    match input {
        Input::Button(cmd) => {
            let c = match cmd {
                button::Command::Shutdown => configured_command_or(
                    &config.shutdown_command,
                    "shutdown -h now",
                ),
                button::Command::VolumeUp => configured_command_or(
                    &config.volume_up_command,
                    "amixer -q -M set PCM 10%+",
                ),
                button::Command::VolumeDown => configured_command_or(
                    &config.volume_up_command,
                    "amixer -q -M set PCM 10%-",
                ),
            };
            Reaction::Effect(Effects::GenericCommand(c))
        },
        Input::Playback(req) => match req {
            Some(playback::PlaybackRequest::SpotifyUri(uri)) => Reaction::Playback(
                PlaybackRequest::Start(PlaybackResource::SpotifyUri(uri)),
            ),
            None => Reaction::Playback(PlaybackRequest::Stop),
        },
    }
}

} // verus!
