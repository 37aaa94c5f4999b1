use std::sync::mpsc;

use rustberry::button_controller::{Config as ButtonConfig, EnvConfig, UserControlTransmitter};
use rustberry::classic::gpio_sysfs;
use rustberry::classic::rfid::TagCursor;
use rustberry::gpio::{self, GpioController, GpioTransmitter, TransmitterMessage};
use rustberry::input_controller::button::{command_map, Command, Config, ShutdownGuard};
use rustberry::led_controller::{led_to_line, Config as LedConfig, Led};
use rustberry::ng::effects::Effects as NgEffects;
use rustberry::ng::input_controller::Input as NgInput;
use rustberry::ng::jukebox::{run_application_step, Reaction as NgReaction};
use rustberry::ng::player::{PlayerCommand as NgCommand, PlayerStep, PlayerThread};
use rustberry::playback_requests::{
    PlaybackRequest, PlaybackRequests, RequestDedup, TagAction, TagEvent, TagTracker,
};
use rustberry::player::{PlaybackRequest as PlayerRequest, PlaybackResource};
use rustberry::spotify_connect::{
    keeps_running, on_child_status, on_watched_device, ChildAction, ChildStatus, CommandReceipt,
    DeviceAction, DeviceLookup, Supervisor, SupervisorCommands, WatchAction,
};

#[test]
fn shutdown_is_ignored_during_the_start_up_delay() {
    let mut guard = ShutdownGuard::new();
    assert!(!guard.accept_at(Command::Shutdown, Some(9_999)));
    assert_eq!(guard.ignored_presses(), 1);
    assert!(guard.accept_at(Command::Shutdown, Some(10_000)));
    assert!(guard.accept_at(Command::VolumeUp, Some(5)));
    assert!(guard.accept_at(Command::Shutdown, None));
}

#[test]
fn too_many_early_presses_disable_shutdown() {
    let mut guard = ShutdownGuard::new();
    for _ in 0..11 {
        assert!(!guard.accept_at(Command::Shutdown, Some(100)));
    }
    assert_eq!(guard.ignored_presses(), 11);
    assert!(!guard.accept_at(Command::Shutdown, Some(60_000)));
    assert!(guard.accept_at(Command::VolumeDown, Some(60_000)));
    let mut guard = ShutdownGuard::new();
    for _ in 0..10 {
        guard.accept_at(Command::Shutdown, Some(100));
    }
    assert!(guard.accept_at(Command::Shutdown, Some(60_000)));
}

#[test]
fn guard_without_start_time_accepts_shutdown() {
    let mut guard = ShutdownGuard::new();
    assert!(guard.accept(Command::Shutdown, &None));
    let config = ButtonConfig::from_env_config(EnvConfig {
        shutdown_pin: Some(3),
        volume_up_pin: None,
        volume_down_pin: None,
    });
    assert!(config.start_time.is_some());
    // Just started: the press falls within the delay.
    assert!(!guard.accept(Command::Shutdown, &config.start_time));
}

#[test]
fn buttons_map_to_their_lines() {
    let config = Config { shutdown_pin: Some(3), volume_up_pin: Some(5), volume_down_pin: None, start_time: None };
    let map = command_map(&config);
    assert_eq!(map.len(), 2);
    assert_eq!(map.get(&3), Some(&Command::Shutdown));
    assert_eq!(map.get(&5), Some(&Command::VolumeUp));
    let shared = Config { shutdown_pin: Some(3), volume_up_pin: Some(3), volume_down_pin: Some(3), start_time: None };
    let map = command_map(&shared);
    assert_eq!(map.len(), 1);
    assert_eq!(map.get(&3), Some(&Command::VolumeDown));
}

#[test]
fn gpio_transmitter_listens_on_the_shutdown_line() {
    let (tx, rx) = mpsc::channel();
    let t = GpioTransmitter::new(tx, &gpio::Config { shutdown_pin: Some(17) });
    assert_eq!(t.line_map().get(&17), Some(&gpio::Command::Shutdown));
    let t2 = GpioTransmitter::new(t.sender().clone(), &gpio::Config { shutdown_pin: None });
    assert!(t2.line_map().is_empty());
    t.sender().send(TransmitterMessage::Command(gpio::Command::Shutdown)).unwrap();
    drop(t);
    drop(t2);
    let mut controller = GpioController::new(rx);
    assert_eq!(controller.next(), Some(gpio::Command::Shutdown));
    assert_eq!(controller.next(), None);
}

#[test]
fn sysfs_config_has_no_start_time() {
    let config: gpio_sysfs::Config = gpio_sysfs::EnvConfig { shutdown_pin: Some(4) }.into();
    assert_eq!(config.shutdown_pin, Some(4));
    assert!(config.start_time.is_none());
    let (tx, _rx) = mpsc::channel();
    let t = gpio_sysfs::GpioTransmitter::new(tx, &config);
    assert_eq!(t.line_map().len(), 1);
    assert!(t.start_time().is_none());
}

#[test]
fn user_control_channel_is_shared() {
    let (tx, rx) = crossbeam_channel::bounded(1);
    let t = UserControlTransmitter::new(rx);
    tx.send(7).unwrap();
    assert_eq!(t.channel().recv().unwrap(), 7);
}

#[test]
fn playback_requests_come_in_order() {
    let (tx, rx) = mpsc::channel();
    let mut reqs = PlaybackRequests::new(rx);
    tx.send(Some(PlaybackRequest::SpotifyUri("a".to_string()))).unwrap();
    tx.send(None).unwrap();
    drop(tx);
    assert_eq!(reqs.next(), Some(Some(PlaybackRequest::SpotifyUri("a".to_string()))));
    assert_eq!(reqs.next(), Some(None));
    assert_eq!(reqs.next(), None);
}

#[test]
fn led_lines() {
    assert_eq!(led_to_line(&LedConfig { playback_led_gpio_line: Some(22) }, Led::Playback), Some(22));
    assert_eq!(led_to_line(&LedConfig { playback_led_gpio_line: None }, Led::Playback), None);
}

fn uri(u: &str) -> Option<PlaybackRequest> {
    Some(PlaybackRequest::SpotifyUri(u.to_string()))
}

#[test]
fn repeated_requests_are_sent_once() {
    let mut dedup = RequestDedup::new();
    assert!(!dedup.observe(None));
    assert!(dedup.observe(uri("a")));
    assert!(!dedup.observe(uri("a")));
    assert!(dedup.observe(uri("b")));
    assert!(dedup.observe(None));
    assert!(!dedup.observe(None));
}

#[test]
fn tags_are_read_once_while_they_stay() {
    let mut tracker = TagTracker::new();
    assert_eq!(tracker.observe(TagEvent::Absent), TagAction::Retry);
    assert_eq!(tracker.observe(TagEvent::Present("t1".to_string())), TagAction::ReadTag("t1".to_string()));
    tracker.tag_handled("t1".to_string(), true);
    assert_eq!(tracker.observe(TagEvent::Present("t1".to_string())), TagAction::AwaitRemoval);
    assert_eq!(tracker.observe(TagEvent::Unreadable), TagAction::Retry);
    assert_eq!(tracker.observe(TagEvent::Absent), TagAction::TagRemoved);
    assert_eq!(tracker.observe(TagEvent::Absent), TagAction::Retry);
    assert_eq!(tracker.observe(TagEvent::Present("t1".to_string())), TagAction::ReadTag("t1".to_string()));
}

#[test]
fn unhandled_tags_are_read_again() {
    let mut tracker = TagTracker::new();
    assert_eq!(tracker.observe(TagEvent::Present("t".to_string())), TagAction::ReadTag("t".to_string()));
    tracker.tag_handled("t".to_string(), false);
    assert_eq!(tracker.observe(TagEvent::Present("t".to_string())), TagAction::ReadTag("t".to_string()));
    assert_eq!(tracker.observe(TagEvent::Absent), TagAction::Retry);
}

#[test]
fn supervisor_decisions() {
    assert_eq!(on_child_status(ChildStatus::Exited), ChildAction::Respawn);
    assert_eq!(on_child_status(ChildStatus::Running), ChildAction::LookupDevice);
    assert_eq!(on_child_status(ChildStatus::Unknown), ChildAction::Nothing);
    assert!(keeps_running(CommandReceipt::Timeout));
    assert!(!keeps_running(CommandReceipt::Disconnected));
    assert!(!keeps_running(CommandReceipt::Received(SupervisorCommands::Terminate)));
    let mut sup = Supervisor::new();
    assert_eq!(sup.on_device_lookup(DeviceLookup::Found("d".to_string())), DeviceAction::Announce("d".to_string()));
    assert_eq!(sup.on_device_lookup(DeviceLookup::Found("d".to_string())), DeviceAction::Keep);
    assert_eq!(sup.on_device_lookup(DeviceLookup::NotFound), DeviceAction::Restart);
    assert_eq!(sup.on_device_lookup(DeviceLookup::Failed), DeviceAction::Restart);
    assert_eq!(sup.on_device_lookup(DeviceLookup::Found("e".to_string())), DeviceAction::Announce("e".to_string()));
    assert_eq!(on_watched_device(DeviceLookup::Found("x".to_string())), WatchAction::Record("x".to_string()));
    assert_eq!(on_watched_device(DeviceLookup::NotFound), WatchAction::KillChild);
    assert_eq!(on_watched_device(DeviceLookup::Failed), WatchAction::Ignore);
}

#[test]
fn event_driven_player_emits_matching_stops() {
    let mut thread = PlayerThread::new();
    assert!(!thread.can_stop());
    let start = NgCommand::PlaybackRequest(PlayerRequest::Start(PlaybackResource::SpotifyUri("u".to_string())));
    assert_eq!(thread.on_command(start), PlayerStep::Emit(NgEffects::NewPlaySpotify { spotify_uri: "u".to_string() }));
    let stop = NgCommand::PlaybackRequest(PlayerRequest::Stop);
    assert_eq!(thread.on_command(stop.clone()), PlayerStep::Emit(NgEffects::NewStopSpotify));
    let start = NgCommand::PlaybackRequest(PlayerRequest::Start(PlaybackResource::Http("h".to_string())));
    assert_eq!(thread.on_command(start), PlayerStep::Emit(NgEffects::PlayHttp { url: "h".to_string() }));
    assert_eq!(thread.on_command(stop.clone()), PlayerStep::Emit(NgEffects::StopHttp));
    assert_eq!(thread.on_command(stop), PlayerStep::Emit(NgEffects::StopHttp));
    assert_eq!(thread.on_command(NgCommand::NewDeviceId("d".to_string())), PlayerStep::Continue);
    assert_eq!(thread.on_command(NgCommand::Terminate), PlayerStep::Terminate);
}

#[test]
fn event_driven_jukebox_reactions() {
    let config = rustberry::config::Config {
        refresh_token: "r".to_string(),
        client_id: "c".to_string(),
        client_secret: "s".to_string(),
        device_name: "d".to_string(),
        post_init_command: None,
        shutdown_command: None,
        volume_up_command: None,
        volume_down_command: None,
    };
    match run_application_step(&config, NgInput::Button(Command::Shutdown)) {
        NgReaction::Effect(e) => assert_eq!(e, NgEffects::GenericCommand("shutdown -h now".to_string())),
        _ => panic!(),
    }
    match run_application_step(&config, NgInput::Playback(uri("spotify:track:t"))) {
        NgReaction::Playback(r) => {
            assert_eq!(r, PlayerRequest::Start(PlaybackResource::SpotifyUri("spotify:track:t".to_string())))
        }
        _ => panic!(),
    }
    match run_application_step(&config, NgInput::Playback(None)) {
        NgReaction::Playback(r) => assert_eq!(r, PlayerRequest::Stop),
        _ => panic!(),
    }
}

#[test]
fn tag_blocks_are_read_from_the_cursor() {
    let mut cursor = TagCursor::new();
    let block: Vec<u8> = (0u8..18).collect();
    let mut buf = [0u8; 5];
    assert!(!cursor.at_end());
    assert_eq!(cursor.copy_block(&block, &mut buf), 5);
    assert_eq!(buf, [0, 1, 2, 3, 4]);
    assert_eq!(cursor.block_to_read(), 1);
    let mut big = [0u8; 32];
    assert_eq!(cursor.copy_block(&block, &mut big), 11);
    assert_eq!(&big[..11], &[5, 6, 7, 8, 9, 10, 11, 12, 13, 14, 15]);
    let mut buf = [0u8; 16];
    assert_eq!(cursor.copy_block(&block, &mut buf), 16);
    assert_eq!(cursor.copy_block(&block, &mut buf), 16);
    assert!(cursor.at_end());
}
