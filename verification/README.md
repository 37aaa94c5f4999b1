# rustberry

The decision logic of an RFID-driven jukebox for the Raspberry Pi, proved
with Verus.

- `src/` is the verified library: the playback state machine (`player`),
  the mapping from user input to effects (`jukebox`, `ng`), RFID tag
  tracking and request de-duplication (`playback_requests`, `classic::rfid`),
  button handling with the early-shutdown guard (`input_controller`,
  `button_controller`, `gpio`, `classic`), the supervisor of the Spotify
  Connect process (`spotify_connect`), the Spotify Web API request building
  (`spotify_player`, `spotify_play`, `spotify_util`, `spotify_uri`), the
  access-token bookkeeping (`access_token_provider`), the refresh-token cache
  (`cache`) and the seekable download buffer (`stream`).
  Calls into `std` and outside crates that the logic makes go through small
  trusted wrappers, each documented with what it claims.
- `app/` is the daemon around it: configuration from the environment, the
  threads that talk to the RFID reader, the GPIO lines, the Spotify Web API,
  the Spotify Connect process and the audio output.  It runs the jukebox
  daemon (requests from the RFID reader, or from standard input with the
  argument `stdin`), the standalone daemon (`classic`) and the tag writer
  (`write-spotify-uri`).
- `tests/` runs the library on concrete scenarios.
