//! Decision logic of the Rustberry jukebox: the playback state machine, the
//! mapping from user input to effects, RFID tag tracking, button debouncing,
//! Spotify Connect supervision and the small parsers and buffers around them.
//! Everything that talks to hardware, the network or the operating system
//! lives in the application crate next to this library.

pub mod access_token_provider;
pub mod button_controller;
pub mod cache;
pub mod channel;
pub mod classic;
pub mod clock;
pub mod config;
pub mod effects;
pub mod gpio;
pub mod input_controller;
pub mod jukebox;
pub mod led_controller;
pub mod ng;
pub mod playback_requests;
pub mod spotify_connect;
pub mod spotify_play;
pub mod spotify_player;
pub mod spotify_uri;
pub mod spotify_util;
pub mod stream;
pub mod player;
