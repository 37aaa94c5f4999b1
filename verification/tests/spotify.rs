use rustberry::access_token_provider::AtpError;
use rustberry::spotify_play::{Error as PlayError, PlayerCommand, PlayerDevice, PlayerDirective};
use rustberry::spotify_player::{
    derive_start_playback_payload_from_spotify_uri, prepare_start_playback, prepare_stop_playback,
    Error, HttpFailure,
};
use rustberry::spotify_uri::derive_spotify_uri_from_url;
use rustberry::spotify_util::{find_device_by_name, Device, JukeboxError};

#[test]
fn albums_play_as_context() {
    let body = derive_start_playback_payload_from_spotify_uri("spotify:album:abc");
    assert_eq!(body.context_uri, Some("spotify:album:abc".to_string()));
    assert!(body.uris.is_none());
}

#[test]
fn tracks_play_as_list() {
    let body = derive_start_playback_payload_from_spotify_uri("spotify:track:abc");
    assert!(body.context_uri.is_none());
    assert_eq!(body.uris, Some(vec!["spotify:track:abc".to_string()]));
}

#[test]
fn playback_calls_need_token_then_device() {
    assert!(matches!(
        prepare_stop_playback(Err(AtpError::NoTokenReceivedYet), None),
        Err(Error::NoToken)
    ));
    assert!(matches!(prepare_stop_playback(Ok("t".to_string()), None), Err(Error::NoSpotifyDevice)));
    let call = prepare_stop_playback(Ok("t".to_string()), Some("dev".to_string())).unwrap();
    assert_eq!(call.device_id, "dev");
    assert_eq!(call.authorization, "Bearer t");
    let (call, body) =
        prepare_start_playback(Ok("t".to_string()), Some("dev".to_string()), "spotify:album:q").unwrap();
    assert_eq!(call.authorization, "Bearer t");
    assert_eq!(body.context_uri, Some("spotify:album:q".to_string()));
    assert!(matches!(
        prepare_start_playback(Err(AtpError::NoTokenReceivedYet), Some("d".to_string()), "spotify:track:x"),
        Err(Error::NoToken)
    ));
}

#[test]
fn token_errors_convert() {
    assert!(matches!(Error::from(AtpError::NoTokenReceivedYet), Error::NoToken));
    assert!(matches!(PlayError::from(AtpError::NoTokenReceivedYet), PlayError::NoToken));
    assert!(matches!(
        JukeboxError::from(AtpError::NoTokenReceivedYet),
        JukeboxError::TokenRetrieval { err: AtpError::NoTokenReceivedYet }
    ));
}

#[test]
fn client_errors_are_classified() {
    let http = |status| PlayError::HTTP(HttpFailure { status, message: "m".to_string() });
    assert!(http(Some(404)).is_client_error());
    assert!(http(Some(400)).is_client_error());
    assert!(!http(Some(500)).is_client_error());
    assert!(!http(Some(399)).is_client_error());
    assert!(!http(None).is_client_error());
    assert!(PlayError::NoToken.is_client_error());
    assert!(PlayError::NoDevice.is_client_error());
    assert!(!PlayError::SendError("x".to_string()).is_client_error());
    assert!(PlayError::NoDevice.is_device_missing_error());
    assert!(!PlayError::NoToken.is_device_missing_error());
}

#[test]
fn player_thread_needs_a_device() {
    let mut device = PlayerDevice::new();
    let start = PlayerCommand::StartPlayback { spotify_uri: "spotify:track:a".to_string() };
    assert_eq!(device.on_command(start.clone()), PlayerDirective::Skip);
    assert_eq!(device.on_command(PlayerCommand::NewDeviceId("d1".to_string())), PlayerDirective::Skip);
    assert_eq!(
        device.on_command(start),
        PlayerDirective::Start { device_id: "d1".to_string(), spotify_uri: "spotify:track:a".to_string() }
    );
    assert_eq!(
        device.on_command(PlayerCommand::StopPlayback),
        PlayerDirective::Stop { device_id: "d1".to_string() }
    );
    assert_eq!(device.on_command(PlayerCommand::Terminate), PlayerDirective::Terminate);
}

fn device(id: &str, name: &str) -> Device {
    Device { id: id.to_string(), name: name.to_string(), is_active: false }
}

#[test]
fn first_device_with_the_name_is_found() {
    let devices = vec![device("1", "kitchen"), device("2", "jukebox"), device("3", "jukebox")];
    assert_eq!(find_device_by_name(devices.clone(), "jukebox").unwrap(), device("2", "jukebox"));
    match find_device_by_name(devices, "garage") {
        Err(JukeboxError::DeviceNotFound { device_name }) => assert_eq!(device_name, "garage"),
        _ => panic!("found a device"),
    }
}

#[test]
fn spotify_urls_become_uris() {
    assert_eq!(
        derive_spotify_uri_from_url("https://open.spotify.com/track/5j6ZZwA9BnxZi5Bk0Ng4jB?si=abc"),
        Some("spotify:track:5j6ZZwA9BnxZi5Bk0Ng4jB".to_string())
    );
    assert_eq!(
        derive_spotify_uri_from_url("see https://open.spotify.com/album/XYZ09"),
        Some("spotify:album:XYZ09".to_string())
    );
    assert_eq!(derive_spotify_uri_from_url("https://open.spotify.com/artist/abc"), None);
    assert_eq!(derive_spotify_uri_from_url("https://open.spotify.com/track/"), None);
    assert_eq!(derive_spotify_uri_from_url(""), None);
    // The dots of the pattern stand for any character.
    assert_eq!(
        derive_spotify_uri_from_url("https://openXspotifyYcom/track/a1"),
        Some("spotify:track:a1".to_string())
    );
}
