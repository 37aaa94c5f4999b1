pub use crate::playback_requests::{
    PlaybackRequest, RequestDedup, TagAction, TagEvent, TagTracker,
};
