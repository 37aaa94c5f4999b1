//! The standalone daemon: RFID requests drive a Spotify player directly and
//! a GPIO button shuts the device down.

pub mod gpio;
pub mod gpio_sysfs;
pub mod jukebox;
pub mod rfid;
