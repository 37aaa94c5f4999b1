use vstd::prelude::*;

pub use crate::input_controller::button;
pub use crate::playback_requests as playback;

verus! {

/// An input event of the event-driven jukebox: a button press, or the
/// request of the tag on the reader (`None` once it is removed).
#[derive(Clone, Debug)]
pub enum Input {
    Button(button::Command),
    Playback(Option<playback::PlaybackRequest>),
}

} // verus!
