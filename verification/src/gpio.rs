use std::collections::HashMap;
use std::sync::mpsc::{Receiver, Sender};

use vstd::prelude::*;

use crate::channel::{lemma_received, receive, received};

verus! {

broadcast use vstd::std_specs::hash::group_hash_axioms;

/// The GPIO line of the shutdown button.
#[derive(Debug, Clone)]
pub struct Config {
    pub shutdown_pin: Option<u32>,
}

/// A failure of the GPIO device.
#[derive(Debug)]
pub enum Error {
    IO(String),
}

/// A command given by a button.
#[derive(Debug, Clone, Copy, PartialEq, Eq, Structural)]
pub enum Command {
    Shutdown,
}

/// A message from the GPIO listeners.
#[derive(Debug, Clone, Copy, PartialEq, Eq, Structural)]
pub enum TransmitterMessage {
    Command(Command),
}

/// The mapping from GPIO line to command that a configuration describes.
pub open spec fn spec_line_map(shutdown_pin: Option<u32>) -> Map<u32, Command> {
    match shutdown_pin {
        Some(p) => Map::<u32, Command>::empty().insert(p, Command::Shutdown),
        None => Map::<u32, Command>::empty(),
    }
}

/// Sends a message for each button press on the configured lines.
pub struct GpioTransmitter {
    map: HashMap<u32, Command>,
    tx: Sender<TransmitterMessage>,
}

impl GpioTransmitter {
    /// The lines listened to, and their commands.
    pub closed spec fn lines(&self) -> Map<u32, Command> {
        self.map@
    }

    /// A transmitter for the configured lines that sends on `tx`.
    pub fn new(tx: Sender<TransmitterMessage>, config: &Config) -> (t: Self)
        ensures
            t.spec_sender() == tx,
            t.lines() == spec_line_map(config.shutdown_pin),
    {
        let mut map: HashMap<u32, Command> = HashMap::new();
        if let Some(shutdown_pin) = config.shutdown_pin {
            map.insert(shutdown_pin, Command::Shutdown);
        }
        GpioTransmitter { tx, map }
    }

    /// The lines listened to, and their commands.
    pub fn line_map(&self) -> (r: &HashMap<u32, Command>)
        ensures
            r@ == self.lines(),
    {
        &self.map
    }

    pub closed spec fn spec_sender(&self) -> Sender<TransmitterMessage> {
        self.tx
    }

    /// The channel the messages go to.
    pub fn sender(&self) -> (r: &Sender<TransmitterMessage>)
        ensures
            *r == self.spec_sender(),
    {
        &self.tx
    }
}

/// The commands given by the buttons.
pub struct GpioController {
    rx: Receiver<TransmitterMessage>,
}

/// The command that a received message carries, if any.
pub open spec fn message_command(msg: Option<TransmitterMessage>) -> Option<Command> {
    match msg {
        Some(TransmitterMessage::Command(c)) => Some(c),
        None => None,
    }
}

/// The command that a received message carries.
pub fn command_of(msg: Option<TransmitterMessage>) -> (r: Option<Command>)
    ensures
        r == message_command(msg),
{
    match msg {
        Some(TransmitterMessage::Command(c)) => Some(c),
        None => None,
    }
}

impl GpioController {
    pub closed spec fn receiver(&self) -> Receiver<TransmitterMessage> {
        self.rx
    }

    /// A controller that takes the messages of the transmitter sending on
    /// the other end of `rx`.
    pub fn new(rx: Receiver<TransmitterMessage>) -> (c: Self)
        ensures
            c.receiver() == rx,
    {
        GpioController { rx }
    }

    /// The next command, or `None` once the transmitter is gone.
    pub fn next(&mut self) -> (r: Option<Command>)
        ensures
            final(self).receiver() == old(self).receiver(),
            exists|msg: Option<TransmitterMessage>|
                received(old(self).receiver(), msg) && r == message_command(msg),
    {
        let msg = receive(&self.rx);
        proof {
            lemma_received(&self.rx, msg);
        }
        command_of(msg)
    }
}

} // verus!
