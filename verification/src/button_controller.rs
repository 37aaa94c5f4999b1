use vstd::prelude::*;

use crate::channel::share_receiver;
use crate::clock::clock_start;

pub use crate::input_controller::button::{command_map, Command, Config, ShutdownGuard};

verus! {

/// The button lines as configured in the environment.
#[derive(Debug, Clone)]
pub struct EnvConfig {
    pub shutdown_pin: Option<u32>,
    pub volume_up_pin: Option<u32>,
    pub volume_down_pin: Option<u32>,
}

impl Config {
    /// The configuration for the lines of `env_config`, started now.
    pub fn from_env_config(env_config: EnvConfig) -> (c: Config)
        ensures
            c.shutdown_pin == env_config.shutdown_pin,
            c.volume_up_pin == env_config.volume_up_pin,
            c.volume_down_pin == env_config.volume_down_pin,
            c.start_time is Some,
    {
        let start_time = Some(clock_start());
        Config {
            shutdown_pin: env_config.shutdown_pin,
            volume_up_pin: env_config.volume_up_pin,
            volume_down_pin: env_config.volume_down_pin,
            start_time,
        }
    }
}

/// A failure of the GPIO device.
#[derive(Debug)]
pub enum Error {
    IO(String),
}

/// A message from the button listeners.
#[derive(Debug, Clone, Copy, PartialEq, Eq, Structural)]
pub enum TransmitterMessage {
    Command(Command),
}

/// The receiving end of the messages of the button listeners.
#[verifier::reject_recursive_types(T)]
pub struct UserControlTransmitter<T> {
    channel: crossbeam_channel::Receiver<T>,
}

impl<T> UserControlTransmitter<T> {
    pub closed spec fn receiver(&self) -> crossbeam_channel::Receiver<T> {
        self.channel
    }

    /// The transmitter whose messages arrive on `channel`.
    pub fn new(channel: crossbeam_channel::Receiver<T>) -> (t: Self)
        ensures
            t.receiver() == channel,
    {
        UserControlTransmitter { channel }
    }

    /// A handle on the channel the messages arrive on.
    pub fn channel(&self) -> (r: crossbeam_channel::Receiver<T>)
        ensures
            r == self.receiver(),
    {
        share_receiver(&self.channel)
    }
}

} // verus!
