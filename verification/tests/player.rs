use std::cell::RefCell;
use std::rc::Rc;

use rustberry::effects::{Effects, Interpreter};
use rustberry::player::{
    completion_of, state_machine, Error, Failure, PauseState, PlaybackHandle, PlaybackRequest,
    PlaybackResource, Player, PlayerState,
};

/// Records the effects that the player asks for.
struct TestInterpreter {
    effects: Rc<RefCell<Vec<Effects>>>,
}

/// A playback that records its effects with its interpreter.
struct TestHandle {
    effects: Rc<RefCell<Vec<Effects>>>,
    stop_effect: Effects,
}

impl PlaybackHandle for TestHandle {
    fn stop(&self) -> Result<(), String> {
        self.effects.borrow_mut().push(self.stop_effect.clone());
        Ok(())
    }
    fn is_complete(&self) -> Result<bool, String> {
        Ok(false)
    }
    fn pause(&self) -> Result<(), String> {
        self.effects.borrow_mut().push(self.stop_effect.clone());
        Ok(())
    }
    fn cont(&self) -> Result<(), String> {
        Ok(())
    }
    fn replay(&self) -> Result<(), String> {
        Ok(())
    }
}

impl TestInterpreter {
    fn new() -> (TestInterpreter, Rc<RefCell<Vec<Effects>>>) {
        let effects = Rc::new(RefCell::new(Vec::new()));
        (TestInterpreter { effects: effects.clone() }, effects)
    }
}

impl Interpreter for TestInterpreter {
    type Handle = TestHandle;

    fn wait_until_ready(&self) -> Result<(), String> {
        Ok(())
    }
    fn play_http(&self, url: &String, _pause_state: Option<PauseState>) -> Result<TestHandle, String> {
        self.effects.borrow_mut().push(Effects::PlayHttp { url: url.clone() });
        Ok(TestHandle { effects: self.effects.clone(), stop_effect: Effects::StopHttp })
    }
    fn stop_http(&self) -> Result<(), String> {
        self.effects.borrow_mut().push(Effects::StopHttp);
        Ok(())
    }
    fn play_spotify(
        &self,
        spotify_uri: &String,
        _pause_state: Option<PauseState>,
    ) -> Result<TestHandle, String> {
        self.effects.borrow_mut().push(Effects::PlaySpotify { spotify_uri: spotify_uri.clone() });
        Ok(TestHandle { effects: self.effects.clone(), stop_effect: Effects::StopSpotify })
    }
    fn stop_spotify(&self) -> Result<(), String> {
        self.effects.borrow_mut().push(Effects::StopSpotify);
        Ok(())
    }
    fn led_on(&self) -> Result<(), String> {
        self.effects.borrow_mut().push(Effects::LedOn);
        Ok(())
    }
    fn led_off(&self) -> Result<(), String> {
        self.effects.borrow_mut().push(Effects::LedOff);
        Ok(())
    }
    fn generic_command(&self, cmd: String) -> Result<(), String> {
        self.effects.borrow_mut().push(Effects::GenericCommand(cmd));
        Ok(())
    }
}

#[test]
fn player_plays_resource_on_playback_request() {
    let (interpreter, effects) = TestInterpreter::new();
    let mut player_handle = Player::new(interpreter);
    let playback_requests = vec![
        PlaybackRequest::Start(PlaybackResource::SpotifyUri(
            "spotify:track:5j6ZZwA9BnxZi5Bk0Ng4jB".to_string(),
        )),
        PlaybackRequest::Stop,
    ];
    let effects_expected = vec![
        Effects::PlaySpotify { spotify_uri: "spotify:track:5j6ZZwA9BnxZi5Bk0Ng4jB".to_string() },
        Effects::StopSpotify,
    ];
    for req in playback_requests.iter() {
        player_handle.playback(req.clone()).unwrap();
    }
    let produced_effects: Vec<_> = effects.borrow().clone();

    assert_eq!(produced_effects, effects_expected);
}

/// A handle whose operations all fail.
struct BrokenHandle;

impl PlaybackHandle for BrokenHandle {
    fn stop(&self) -> Result<(), String> {
        Err("stop".to_string())
    }
    fn is_complete(&self) -> Result<bool, String> {
        Err("is_complete".to_string())
    }
    fn pause(&self) -> Result<(), String> {
        Err("pause".to_string())
    }
    fn cont(&self) -> Result<(), String> {
        Err("cont".to_string())
    }
    fn replay(&self) -> Result<(), String> {
        Err("replay".to_string())
    }
}

/// An interpreter that refuses Spotify and hands out broken handles for HTTP.
struct PickyInterpreter;

impl Interpreter for PickyInterpreter {
    type Handle = BrokenHandle;

    fn wait_until_ready(&self) -> Result<(), String> {
        Ok(())
    }
    fn play_http(&self, _url: &String, _p: Option<PauseState>) -> Result<BrokenHandle, String> {
        Ok(BrokenHandle)
    }
    fn stop_http(&self) -> Result<(), String> {
        Ok(())
    }
    fn play_spotify(&self, _uri: &String, _p: Option<PauseState>) -> Result<BrokenHandle, String> {
        Err("no device".to_string())
    }
    fn stop_spotify(&self) -> Result<(), String> {
        Ok(())
    }
    fn led_on(&self) -> Result<(), String> {
        Ok(())
    }
    fn led_off(&self) -> Result<(), String> {
        Ok(())
    }
    fn generic_command(&self, _cmd: String) -> Result<(), String> {
        Ok(())
    }
}

fn spotify(uri: &str) -> PlaybackResource {
    PlaybackResource::SpotifyUri(uri.to_string())
}

fn http(url: &str) -> PlaybackResource {
    PlaybackResource::Http(url.to_string())
}

#[test]
fn stop_while_idle_is_accepted() {
    let (interpreter, effects) = TestInterpreter::new();
    let (res, state) = state_machine(&interpreter, PlaybackRequest::Stop, PlayerState::Idle, 5);
    assert!(res.is_ok());
    assert!(matches!(state, PlayerState::Idle));
    assert!(effects.borrow().is_empty());
}

#[test]
fn start_while_idle_plays_from_the_start() {
    let (interpreter, effects) = TestInterpreter::new();
    let (res, state) =
        state_machine(&interpreter, PlaybackRequest::Start(http("http://a")), PlayerState::Idle, 7);
    assert!(res.is_ok());
    match state {
        PlayerState::Playing { resource, playing_since, offset, .. } => {
            assert_eq!(resource, http("http://a"));
            assert_eq!(playing_since, 7);
            assert_eq!(offset, 0);
        }
        _ => panic!("not playing"),
    }
    assert_eq!(*effects.borrow(), vec![Effects::PlayHttp { url: "http://a".to_string() }]);
}

#[test]
fn stop_pauses_at_the_played_time() {
    let (interpreter, effects) = TestInterpreter::new();
    let (_, state) =
        state_machine(&interpreter, PlaybackRequest::Start(spotify("spotify:track:x")), PlayerState::Idle, 100);
    let (res, state) = state_machine(&interpreter, PlaybackRequest::Stop, state, 1600);
    assert!(res.is_ok());
    match state {
        PlayerState::Paused { at, prev_resource, .. } => {
            assert_eq!(at, 1500);
            assert_eq!(prev_resource, spotify("spotify:track:x"));
        }
        _ => panic!("not paused"),
    }
    assert_eq!(
        *effects.borrow(),
        vec![Effects::PlaySpotify { spotify_uri: "spotify:track:x".to_string() }, Effects::StopSpotify]
    );
}

#[test]
fn start_of_paused_resource_continues_where_it_stopped() {
    let (interpreter, effects) = TestInterpreter::new();
    let (_, state) =
        state_machine(&interpreter, PlaybackRequest::Start(spotify("spotify:track:x")), PlayerState::Idle, 0);
    let (_, state) = state_machine(&interpreter, PlaybackRequest::Stop, state, 3000);
    let (res, state) =
        state_machine(&interpreter, PlaybackRequest::Start(spotify("spotify:track:x")), state, 9000);
    assert!(res.is_ok());
    match state {
        PlayerState::Playing { offset, playing_since, .. } => {
            assert_eq!(offset, 3000);
            assert_eq!(playing_since, 9000);
        }
        _ => panic!("not playing"),
    }
    // Continuing does not start a new playback.
    assert_eq!(effects.borrow().len(), 2);
}

#[test]
fn start_of_other_resource_while_paused_replaces_it() {
    let (interpreter, effects) = TestInterpreter::new();
    let (_, state) =
        state_machine(&interpreter, PlaybackRequest::Start(spotify("spotify:track:x")), PlayerState::Idle, 0);
    let (_, state) = state_machine(&interpreter, PlaybackRequest::Stop, state, 10);
    let (res, state) = state_machine(&interpreter, PlaybackRequest::Start(http("http://b")), state, 20);
    assert!(res.is_ok());
    match state {
        PlayerState::Playing { resource, offset, playing_since, .. } => {
            assert_eq!(resource, http("http://b"));
            assert_eq!(offset, 0);
            assert_eq!(playing_since, 20);
        }
        _ => panic!("not playing"),
    }
    assert_eq!(
        *effects.borrow(),
        vec![
            Effects::PlaySpotify { spotify_uri: "spotify:track:x".to_string() },
            Effects::StopSpotify,
            Effects::StopSpotify,
            Effects::PlayHttp { url: "http://b".to_string() },
        ]
    );
}

#[test]
fn start_while_playing_keeps_the_start_time() {
    let (interpreter, _effects) = TestInterpreter::new();
    let (_, state) = state_machine(&interpreter, PlaybackRequest::Start(http("http://a")), PlayerState::Idle, 4);
    let (res, state) = state_machine(&interpreter, PlaybackRequest::Start(http("http://b")), state, 50);
    assert!(res.is_ok());
    match state {
        PlayerState::Playing { resource, playing_since, offset, .. } => {
            assert_eq!(resource, http("http://b"));
            assert_eq!(playing_since, 4);
            assert_eq!(offset, 0);
        }
        _ => panic!("not playing"),
    }
}

#[test]
fn refused_start_reports_the_resource_kind() {
    let (res, state) =
        state_machine(&PickyInterpreter, PlaybackRequest::Start(spotify("spotify:track:x")), PlayerState::Idle, 0);
    assert!(matches!(state, PlayerState::Idle));
    match res {
        Err(Failure::Player(Error::Spotify(msg))) => assert_eq!(msg, "no device"),
        _ => panic!("unexpected result"),
    }
}

#[test]
fn failing_pause_idles_the_player() {
    let (_, state) = state_machine(&PickyInterpreter, PlaybackRequest::Start(http("http://a")), PlayerState::Idle, 0);
    assert!(matches!(state, PlayerState::Playing { .. }));
    let (res, state) = state_machine(&PickyInterpreter, PlaybackRequest::Stop, state, 5);
    assert!(matches!(state, PlayerState::Idle));
    match res {
        Err(Failure::Handle(msg)) => assert_eq!(msg, "pause"),
        _ => panic!("unexpected result"),
    }
}

#[test]
fn failing_stop_keeps_playing_with_reset_offset() {
    let state = PlayerState::Playing {
        resource: http("http://a"),
        playing_since: 3,
        offset: 77,
        handle: BrokenHandle,
    };
    let (res, state) = state_machine(&PickyInterpreter, PlaybackRequest::Start(http("http://b")), state, 9);
    assert!(matches!(res, Err(Failure::Handle(_))));
    match state {
        PlayerState::Playing { resource, playing_since, offset, .. } => {
            assert_eq!(resource, http("http://a"));
            assert_eq!(playing_since, 3);
            assert_eq!(offset, 0);
        }
        _ => panic!("not playing"),
    }
}

#[test]
fn paused_resource_that_cannot_tell_completion_is_replayed() {
    let state = PlayerState::Paused { handle: BrokenHandle, at: 40, prev_resource: http("http://a") };
    // The handle cannot tell whether it completed, so it counts as complete
    // and is replayed; the replay fails and the pause stays.
    let (res, state) = state_machine(&PickyInterpreter, PlaybackRequest::Start(http("http://a")), state, 9);
    match res {
        Err(Failure::Handle(msg)) => assert_eq!(msg, "replay"),
        _ => panic!("unexpected result"),
    }
    assert!(matches!(state, PlayerState::Paused { at: 40, .. }));
}

#[test]
fn completion_defaults_to_complete() {
    assert!(completion_of(Err("x".to_string())));
    assert!(!completion_of(Ok(false)));
    assert!(completion_of(Ok(true)));
}

#[test]
fn same_as_compares_kind_and_text() {
    assert!(spotify("a").same_as(&spotify("a")));
    assert!(!spotify("a").same_as(&http("a")));
    assert!(!http("a").same_as(&http("b")));
}
