pub mod button;
pub mod playback;

use vstd::prelude::*;

use crate::player::PlaybackRequest;

verus! {

/// An input event of the jukebox.
#[derive(Clone, Debug)]
pub enum Input {
    Button(button::Command),
    Playback(PlaybackRequest),
}

} // verus!
