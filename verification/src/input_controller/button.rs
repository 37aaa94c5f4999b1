use std::collections::HashMap;
use std::time::Instant;

use vstd::prelude::*;

use crate::clock::{clock_millis, lemma_measured, measured_since};

verus! {

broadcast use vstd::std_specs::hash::group_hash_axioms;

/// A command given by pressing a button.
#[derive(Debug, Clone, Copy, PartialEq, Eq, Structural)]
pub enum Command {
    Shutdown,
    VolumeUp,
    VolumeDown,
}

/// The GPIO lines that the buttons are wired to, and when the jukebox
/// started.
#[derive(Debug, Clone)]
pub struct Config {
    pub shutdown_pin: Option<u32>,
    pub volume_up_pin: Option<u32>,
    pub volume_down_pin: Option<u32>,
    pub start_time: Option<Instant>,
}

/// How long after the start shutdown presses are ignored, in milliseconds.
pub const DELAY_BEFORE_ACCEPTING_SHUTDOWN_COMMANDS: u64 = 10000;

/// How many shutdown presses during the start-up delay disable shutdown.
pub const MAX_SHUTDOWN_PRESSES_DURING_DELAY: u64 = 10;

/// The mapping from GPIO line to command that a configuration describes;
/// a later button wins where two share a line.
pub open spec fn spec_command_map(
    shutdown_pin: Option<u32>,
    volume_up_pin: Option<u32>,
    volume_down_pin: Option<u32>,
) -> Map<u32, Command> {
    let m0 = Map::<u32, Command>::empty();
    let m1 = match shutdown_pin {
        Some(p) => m0.insert(p, Command::Shutdown),
        None => m0,
    };
    let m2 = match volume_up_pin {
        Some(p) => m1.insert(p, Command::VolumeUp),
        None => m1,
    };
    match volume_down_pin {
        Some(p) => m2.insert(p, Command::VolumeDown),
        None => m2,
    }
}

/// The commands to listen for, keyed by GPIO line.
pub fn command_map(config: &Config) -> (map: HashMap<u32, Command>)
    ensures
        map@ == spec_command_map(config.shutdown_pin, config.volume_up_pin, config.volume_down_pin),
{
    let mut map: HashMap<u32, Command> = HashMap::new();
    if let Some(shutdown_pin) = config.shutdown_pin {
        map.insert(shutdown_pin, Command::Shutdown);
    }
    if let Some(pin) = config.volume_up_pin {
        map.insert(pin, Command::VolumeUp);
    }
    if let Some(pin) = config.volume_down_pin {
        map.insert(pin, Command::VolumeDown);
    }
    map
}

/// Whether a press of `cmd` at `elapsed` milliseconds after the start is
/// forwarded, after `ignored` shutdown presses were ignored, and how many
/// are ignored afterwards.
pub open spec fn guard_step(ignored: u64, cmd: Command, elapsed: Option<u64>) -> (bool, u64) {
    if cmd != Command::Shutdown {
        (true, ignored)
    } else {
        match elapsed {
            Some(dt) if dt < DELAY_BEFORE_ACCEPTING_SHUTDOWN_COMMANDS => (
                false,
                if ignored < u64::MAX {
                    (ignored + 1) as u64
                } else {
                    ignored
                },
            ),
            _ => (ignored <= MAX_SHUTDOWN_PRESSES_DURING_DELAY, ignored),
        }
    }
}

/// Presses of other buttons always pass.
pub proof fn other_buttons_pass(ignored: u64, cmd: Command, elapsed: Option<u64>)
    requires
        cmd != Command::Shutdown,
    ensures
        guard_step(ignored, cmd, elapsed) == (true, ignored),
{
}

/// Shutdown presses during the start-up delay are never forwarded.
pub proof fn early_shutdown_is_ignored(ignored: u64, elapsed: u64)
    requires
        elapsed < DELAY_BEFORE_ACCEPTING_SHUTDOWN_COMMANDS,
    ensures
        !guard_step(ignored, Command::Shutdown, Some(elapsed)).0,
{
}

/// Once too many shutdown presses came during the start-up delay, shutdown
/// stays disabled: no later press of any button re-enables it.
pub proof fn disabled_shutdown_stays_disabled(ignored: u64, cmd: Command, elapsed: Option<u64>)
    requires
        ignored > MAX_SHUTDOWN_PRESSES_DURING_DELAY,
    ensures
        guard_step(ignored, cmd, elapsed).1 > MAX_SHUTDOWN_PRESSES_DURING_DELAY,
        cmd == Command::Shutdown ==> !guard_step(ignored, cmd, elapsed).0,
{
}

/// Filters button presses: shutdown presses in the first seconds after the
/// start are ignored, and too many of them disable shutdown altogether.
#[derive(Debug, Clone)]
pub struct ShutdownGuard {
    n_received_during_shutdown_delay: u64,
}

impl ShutdownGuard {
    /// How many shutdown presses were ignored during the start-up delay.
    pub closed spec fn ignored(&self) -> u64 {
        self.n_received_during_shutdown_delay
    }

    /// Whether shutdown presses are no longer forwarded.
    pub open spec fn shutdown_disabled(&self) -> bool {
        self.ignored() > MAX_SHUTDOWN_PRESSES_DURING_DELAY
    }

    pub fn new() -> (r: Self)
        ensures
            r.ignored() == 0,
    {
        ShutdownGuard { n_received_during_shutdown_delay: 0 }
    }

    /// The number of shutdown presses ignored so far.
    pub fn ignored_presses(&self) -> (r: u64)
        ensures
            r == self.ignored(),
    {
        self.n_received_during_shutdown_delay
    }

    /// Decides whether a press of `cmd` is forwarded, where `elapsed` is the
    /// time since the start in milliseconds, if the start time is known.
    pub fn accept_at(&mut self, cmd: Command, elapsed: Option<u64>) -> (r: bool)
        ensures
            (r, final(self).ignored()) == guard_step(old(self).ignored(), cmd, elapsed),
    {
        match cmd {
            Command::Shutdown => {
                if let Some(dt) = elapsed {
                    if dt < DELAY_BEFORE_ACCEPTING_SHUTDOWN_COMMANDS {
                        self.n_received_during_shutdown_delay =
                            self.n_received_during_shutdown_delay.saturating_add(1);
                        return false;
                    }
                }
                self.n_received_during_shutdown_delay <= MAX_SHUTDOWN_PRESSES_DURING_DELAY
            },
            _ => true,
        }
    }

    /// Decides whether a press of `cmd` is forwarded now, given the start
    /// time from the configuration.
    pub fn accept(&mut self, cmd: Command, start_time: &Option<Instant>) -> (r: bool)
        ensures
            exists|elapsed: Option<u64>|
                (r, final(self).ignored()) == guard_step(old(self).ignored(), cmd, elapsed)
                    && (elapsed is Some <==> start_time is Some),
            match start_time {
                Some(start) => exists|ms: u64|
                    measured_since(*start, ms) && (r, final(self).ignored()) == guard_step(
                        old(self).ignored(),
                        cmd,
                        Some(ms),
                    ),
                None => (r, final(self).ignored()) == guard_step(old(self).ignored(), cmd, None),
            },
    {
        let elapsed = match start_time {
            Some(start) => {
                let ms = clock_millis(start);
                proof {
                    lemma_measured(start, ms);
                }
                Some(ms)
            },
            None => None,
        };
        self.accept_at(cmd, elapsed)
    }
}

/// A shutdown press that the clock measures at least the start-up delay
/// after the start is forwarded, as long as shutdown was not disabled by too
/// many early presses, and nothing is counted for it.
pub proof fn late_shutdown_is_forwarded(ignored: u64, elapsed: u64)
    requires
        elapsed >= DELAY_BEFORE_ACCEPTING_SHUTDOWN_COMMANDS,
        ignored <= MAX_SHUTDOWN_PRESSES_DURING_DELAY,
    ensures
        guard_step(ignored, Command::Shutdown, Some(elapsed)) == (true, ignored),
{
}

/// Where every reading of the clock since `start` is past the start-up
/// delay, a shutdown press that `accept` decides with that clock is
/// forwarded unless shutdown was disabled, and counts nothing.
pub proof fn accept_forwards_shutdown_after_delay(start: Instant, ignored: u64, r: bool, after: u64)
    requires
        forall|ms: u64| #[trigger] measured_since(start, ms) ==> ms >= DELAY_BEFORE_ACCEPTING_SHUTDOWN_COMMANDS,
        ignored <= MAX_SHUTDOWN_PRESSES_DURING_DELAY,
        exists|ms: u64|
            #[trigger] measured_since(start, ms) && (r, after) == guard_step(
                ignored,
                Command::Shutdown,
                Some(ms),
            ),
    ensures
        r,
        after == ignored,
{
}

} // verus!
