use vstd::prelude::*;

verus! {

/// The jukebox configuration, as read from the environment.
#[derive(Debug, Clone)]
pub struct Config {
    pub refresh_token: String,
    pub client_id: String,
    pub client_secret: String,
    pub device_name: String,
    pub post_init_command: Option<String>,
    pub shutdown_command: Option<String>,
    pub volume_up_command: Option<String>,
    pub volume_down_command: Option<String>,
}

/// The configured command, or `default` when none is configured.
pub open spec fn command_or(configured: Option<String>, default: Seq<char>) -> Seq<char> {
    match configured {
        Some(cmd) => cmd@,
        None => default,
    }
}

/// The configured command, or a copy of `default` when none is configured.
pub fn configured_command_or(configured: &Option<String>, default: &str) -> (r: String)
    ensures
        r@ == command_or(*configured, default@),
{
    match configured {
        Some(cmd) => cmd.clone(),
        None => default.to_owned(),
    }
}

} // verus!
