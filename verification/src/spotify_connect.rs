use vstd::prelude::*;

use crate::playback_requests::uid_view;

verus! {

/// A command for the supervisor of the Spotify Connect process.
#[derive(Debug, Clone, Copy, PartialEq, Eq, Structural)]
pub enum SupervisorCommands {
    Terminate,
}

/// A report of the supervisor of the Spotify Connect process.
#[derive(Debug, Clone)]
pub enum SupervisorStatus {
    NewDeviceId(String),
    Failure(String),
}

/// A process that provides a Spotify Connect device.
pub trait SpotifyConnector {
    fn device_id(&self) -> Option<String>;

    fn request_restart(&self);
}

/// Whether the supervised process is still running.
#[derive(Debug, Clone, Copy, PartialEq, Eq, Structural)]
pub enum ChildStatus {
    /// The process has exited.
    Exited,
    /// The process is running.
    Running,
    /// Its state could not be determined.
    Unknown,
}

/// What the supervisor does after checking the process.
#[derive(Debug, Clone, Copy, PartialEq, Eq, Structural)]
pub enum ChildAction {
    /// Start the process again.
    Respawn,
    /// Look up the Spotify device that the process provides.
    LookupDevice,
    /// Nothing.
    Nothing,
}

/// The result of looking up the Spotify device by its name.
#[derive(Debug, Clone)]
pub enum DeviceLookup {
    /// The device exists and has this ID.
    Found(String),
    /// No device has the name.
    NotFound,
    /// The lookup failed.
    Failed,
}

/// What the supervisor does after looking up the device.
#[derive(Debug, Clone, PartialEq, Eq)]
pub enum DeviceAction {
    /// Report the device's new ID.
    Announce(String),
    /// The device ID is unchanged.
    Keep,
    /// Kill the process and start it again.
    Restart,
}

/// What the device ID watcher does after looking up the device.
#[derive(Debug, Clone, PartialEq, Eq)]
pub enum WatchAction {
    /// Remember the device ID.
    Record(String),
    /// Kill the process, so that it gets restarted.
    KillChild,
    /// Nothing.
    Ignore,
}

/// What the supervisor does after waiting for a command.
#[derive(Debug, Clone, Copy, PartialEq, Eq, Structural)]
pub enum CommandReceipt {
    /// A command arrived.
    Received(SupervisorCommands),
    /// No command arrived in time.
    Timeout,
    /// The command channel is closed.
    Disconnected,
}

/// The decision after checking the supervised process: an exited process is
/// respawned, a running one has its device looked up.
pub fn on_child_status(status: ChildStatus) -> (action: ChildAction)
    ensures
        action == match status {
            ChildStatus::Exited => ChildAction::Respawn,
            ChildStatus::Running => ChildAction::LookupDevice,
            ChildStatus::Unknown => ChildAction::Nothing,
        },
{
    match status {
        ChildStatus::Exited => ChildAction::Respawn,
        ChildStatus::Running => ChildAction::LookupDevice,
        ChildStatus::Unknown => ChildAction::Nothing,
    }
}

/// Whether the supervisor keeps running after waiting for a command.
pub fn keeps_running(receipt: CommandReceipt) -> (r: bool)
    ensures
        r == (receipt == CommandReceipt::Timeout),
{
    match receipt {
        CommandReceipt::Received(SupervisorCommands::Terminate) => false,
        CommandReceipt::Timeout => true,
        CommandReceipt::Disconnected => false,
    }
}

/// The decision of the device ID watcher: a found device's ID is recorded,
/// a missing device gets its process killed.
pub fn on_watched_device(lookup: DeviceLookup) -> (action: WatchAction)
    ensures
        action == match lookup {
            DeviceLookup::Found(id) => WatchAction::Record(id),
            DeviceLookup::NotFound => WatchAction::KillChild,
            DeviceLookup::Failed => WatchAction::Ignore,
        },
{
    match lookup {
        DeviceLookup::Found(id) => WatchAction::Record(id),
        DeviceLookup::NotFound => WatchAction::KillChild,
        DeviceLookup::Failed => WatchAction::Ignore,
    }
}

/// The decision after a device lookup when `device_id` was reported last,
/// and the device ID reported last afterwards.
pub open spec fn device_step(device_id: Option<String>, lookup: DeviceLookup) -> (
    DeviceAction,
    Option<String>,
) {
    match lookup {
        DeviceLookup::Found(id) => if uid_view(device_id) == Some(id@) {
            (DeviceAction::Keep, device_id)
        } else {
            (DeviceAction::Announce(id), Some(id))
        },
        _ => (DeviceAction::Restart, device_id),
    }
}

/// A device ID is reported once: finding the same device again reports
/// nothing.
pub proof fn device_reported_once(device_id: Option<String>, id: String, again: String)
    requires
        again@ == id@,
    ensures
        device_step(device_step(device_id, DeviceLookup::Found(id)).1, DeviceLookup::Found(again)).0
            == DeviceAction::Keep,
{
}

/// A device that cannot be found gets its process restarted, and the
/// device ID reported last stays.
pub proof fn missing_device_restarts(device_id: Option<String>, lookup: DeviceLookup)
    requires
        !(lookup is Found),
    ensures
        device_step(device_id, lookup) == (DeviceAction::Restart, device_id),
{
}

/// The state of the supervisor of the Spotify Connect process: the device
/// ID it reported last.
#[derive(Debug, Clone)]
pub struct Supervisor {
    device_id: Option<String>,
}

impl Supervisor {
    /// The device ID reported last.
    pub closed spec fn device_id(&self) -> Option<String> {
        self.device_id
    }

    pub fn new() -> (r: Self)
        ensures
            r.device_id() is None,
    {
        Supervisor { device_id: None }
    }

    /// The decision after looking up the device: a changed ID is reported
    /// and remembered, a device that cannot be found gets its process
    /// restarted.
    pub fn on_device_lookup(&mut self, lookup: DeviceLookup) -> (action: DeviceAction)
        ensures
            (action, final(self).device_id()) == device_step(old(self).device_id(), lookup),
    {
        match lookup {
            DeviceLookup::Found(id) => {
                let unchanged = match &self.device_id {
                    Some(known) => *known == id,
                    None => false,
                };
                if unchanged {
                    DeviceAction::Keep
                } else {
                    self.device_id = Some(id.clone());
                    DeviceAction::Announce(id)
                }
            },
            _ => DeviceAction::Restart,
        }
    }
}

} // verus!
