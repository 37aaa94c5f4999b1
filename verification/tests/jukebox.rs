use rustberry::config::Config;
use rustberry::effects::Effects;
use rustberry::input_controller::{button, Input};
use rustberry::jukebox::{App, Reaction};
use rustberry::player::{PlaybackRequest, PlaybackResource};

fn test_config() -> Config {
    Config {
        refresh_token: "token".to_string(),
        client_id: "client".to_string(),
        client_secret: "secret".to_string(),
        device_name: "device".to_string(),
        post_init_command: None,
        shutdown_command: None,
        volume_up_command: None,
        volume_down_command: None,
    }
}

fn effects_for(app: &App, inputs: Vec<Input>) -> Vec<Effects> {
    let mut produced = Vec::new();
    for input in inputs {
        if let Reaction::Effect(effect) = app.react(input) {
            produced.push(effect);
        }
    }
    produced
}

#[test]
fn jukebox_can_be_shut_down() {
    let config = test_config();
    let inputs = vec![Input::Button(button::Command::Shutdown)];
    let effects_expected = vec![Effects::GenericCommand("sudo shutdown -h now".to_string())];
    let app = App::new(config);
    let produced_effects = effects_for(&app, inputs);

    assert_eq!(produced_effects, effects_expected);
}

#[test]
fn configured_shutdown_command_is_used() {
    let mut config = test_config();
    config.shutdown_command = Some("poweroff".to_string());
    let app = App::new(config);
    let produced = effects_for(&app, vec![Input::Button(button::Command::Shutdown)]);
    assert_eq!(produced, vec![Effects::GenericCommand("poweroff".to_string())]);
}

#[test]
fn volume_buttons_run_amixer_by_default() {
    let app = App::new(test_config());
    let produced = effects_for(
        &app,
        vec![Input::Button(button::Command::VolumeUp), Input::Button(button::Command::VolumeDown)],
    );
    assert_eq!(
        produced,
        vec![
            Effects::GenericCommand("amixer -q -M set PCM 10%+".to_string()),
            Effects::GenericCommand("amixer -q -M set PCM 10%-".to_string()),
        ]
    );
}

#[test]
fn volume_down_reads_the_volume_up_setting() {
    let mut config = test_config();
    config.volume_up_command = Some("louder".to_string());
    config.volume_down_command = Some("quieter".to_string());
    let app = App::new(config);
    let produced = effects_for(&app, vec![Input::Button(button::Command::VolumeDown)]);
    assert_eq!(produced, vec![Effects::GenericCommand("louder".to_string())]);
}

#[test]
fn playback_inputs_go_to_the_player() {
    let app = App::new(test_config());
    let req = PlaybackRequest::Start(PlaybackResource::Http("http://x".to_string()));
    match app.react(Input::Playback(req.clone())) {
        Reaction::Playback(r) => assert_eq!(r, req),
        _ => panic!("not a playback"),
    }
}
