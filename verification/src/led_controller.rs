use vstd::prelude::*;

verus! {

/// A light of the jukebox.
#[derive(Debug, Clone, Copy, PartialEq, Eq, Hash, Structural)]
pub enum Led {
    Playback,
}

/// The GPIO lines that the lights are wired to.
#[derive(Debug, Clone)]
pub struct Config {
    pub playback_led_gpio_line: Option<u32>,
}

/// The GPIO line of a light, if one is configured.
pub fn led_to_line(config: &Config, led: Led) -> (r: Option<u32>)
    ensures
        r == match led {
            Led::Playback => config.playback_led_gpio_line,
        },
{
    match led {
        Led::Playback => config.playback_led_gpio_line,
    }
}

} // verus!
