use std::collections::HashMap;
use std::sync::mpsc::Sender;
use std::time::Instant;

use vstd::prelude::*;
use vstd::std_specs::convert::FromSpecImpl;

pub use crate::classic::gpio::{
    command_of, spec_line_map, Command, Error, GpioController, TransmitterMessage,
};

verus! {

broadcast use vstd::std_specs::hash::group_hash_axioms;

/// The GPIO line of the shutdown button as configured in the environment.
#[derive(Debug, Clone)]
pub struct EnvConfig {
    pub shutdown_pin: Option<u32>,
}

/// The GPIO line of the shutdown button and when the jukebox started.
#[derive(Debug, Clone)]
pub struct Config {
    pub shutdown_pin: Option<u32>,
    pub start_time: Option<Instant>,
}

impl From<EnvConfig> for Config {
    fn from(env_config: EnvConfig) -> (r: Config) {
        Config { shutdown_pin: env_config.shutdown_pin, start_time: None }
    }
}

impl FromSpecImpl<EnvConfig> for Config {
    open spec fn obeys_from_spec() -> bool {
        true
    }

    open spec fn from_spec(v: EnvConfig) -> Config {
        Config { shutdown_pin: v.shutdown_pin, start_time: None }
    }
}

/// Sends a message for each press of a button on the configured lines.
pub struct GpioTransmitter {
    start_time: Option<Instant>,
    map: HashMap<u32, Command>,
    tx: Sender<TransmitterMessage>,
}

impl GpioTransmitter {
    pub closed spec fn lines(&self) -> Map<u32, Command> {
        self.map@
    }

    pub closed spec fn started(&self) -> Option<Instant> {
        self.start_time
    }

    /// A transmitter for the configured lines that sends on `tx`.
    pub fn new(tx: Sender<TransmitterMessage>, config: &Config) -> (t: Self)
        ensures
            t.lines() == spec_line_map(config.shutdown_pin),
            t.started() == config.start_time,
            t.spec_sender() == tx,
    {
        let mut map: HashMap<u32, Command> = HashMap::new();
        if let Some(shutdown_pin) = config.shutdown_pin {
            map.insert(shutdown_pin, Command::Shutdown);
        }
        GpioTransmitter { tx, map, start_time: config.start_time }
    }

    /// The lines listened to, and their commands.
    pub fn line_map(&self) -> (r: &HashMap<u32, Command>)
        ensures
            r@ == self.lines(),
    {
        &self.map
    }

    /// When the jukebox started, if known.
    pub fn start_time(&self) -> (r: Option<Instant>)
        ensures
            r == self.started(),
    {
        self.start_time
    }

    pub closed spec fn spec_sender(&self) -> Sender<TransmitterMessage> {
        self.tx
    }

    /// The channel the messages go to.
    pub fn sender(&self) -> (r: &Sender<TransmitterMessage>)
        ensures
            *r == self.spec_sender(),
    {
        &self.tx
    }
}

} // verus!
