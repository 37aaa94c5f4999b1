use std::time::Instant;

use vstd::prelude::*;

use crate::clock::{clock_millis, clock_start, lemma_measured, measured_since};
use crate::effects::Interpreter;

verus! {

/// A playback in progress, as started by an [`Interpreter`].
///
/// Implementations perform the actual audio work; an error is reported as a
/// message.
pub trait PlaybackHandle {
    fn stop(&self) -> Result<(), String>;

    fn is_complete(&self) -> Result<bool, String>;

    fn pause(&self) -> Result<(), String>;

    fn cont(&self) -> Result<(), String>;

    fn replay(&self) -> Result<(), String>;
}

/// Where a paused playback stopped, in milliseconds from its start.
#[derive(Debug, Clone)]
pub struct PauseState {
    pub pos: u64,
}

/// Something that can be played.
#[derive(Debug, Clone, PartialEq, Eq)]
pub enum PlaybackResource {
    SpotifyUri(String),
    Http(String),
}

/// The mathematical value of a [`PlaybackResource`].
pub enum ResourceView {
    SpotifyUri(Seq<char>),
    Http(Seq<char>),
}

impl View for PlaybackResource {
    type V = ResourceView;

    open spec fn view(&self) -> ResourceView {
        match self {
            PlaybackResource::SpotifyUri(uri) => ResourceView::SpotifyUri(uri@),
            PlaybackResource::Http(url) => ResourceView::Http(url@),
        }
    }
}

impl PlaybackResource {
    /// Whether two resources name the same thing.
    pub fn same_as(&self, other: &PlaybackResource) -> (r: bool)
        ensures
            r == (self@ == other@),
    {
        match (self, other) {
            (PlaybackResource::SpotifyUri(a), PlaybackResource::SpotifyUri(b)) => *a == *b,
            (PlaybackResource::Http(a), PlaybackResource::Http(b)) => *a == *b,
            _ => false,
        }
    }
}

/// A request to the player.
#[derive(Debug, Clone, PartialEq, Eq)]
pub enum PlaybackRequest {
    Start(PlaybackResource),
    Stop,
}

/// A command for a player running in its own thread.
#[derive(Debug, Clone)]
pub enum PlayerCommand {
    PlaybackRequest(PlaybackRequest),
    Terminate,
}

/// Why a playback could not be started.
#[derive(Debug)]
pub enum Error {
    Spotify(String),
    HTTP(String),
    SendError(String),
}

/// Why a playback request failed: either an operation on the current
/// playback handle failed, or a new playback could not be started.
#[derive(Debug)]
pub enum Failure {
    Handle(String),
    Player(Error),
}

/// The state of the player.  Times are milliseconds on the player's clock.
pub enum PlayerState<H> {
    Idle,
    Playing { resource: PlaybackResource, playing_since: u64, offset: u64, handle: H },
    Paused { handle: H, at: u64, prev_resource: PlaybackResource },
}

/// How far a playback got when it was paused at `now`.
pub open spec fn played_until(playing_since: u64, now: u64) -> u64 {
    if now >= playing_since {
        (now - playing_since) as u64
    } else {
        0
    }
}

/// The error that starting `resource` reports when the interpreter refuses it.
pub open spec fn start_error(resource: PlaybackResource, msg: String) -> Error {
    match resource {
        PlaybackResource::SpotifyUri(_) => Error::Spotify(msg),
        PlaybackResource::Http(_) => Error::HTTP(msg),
    }
}

/// The state is playing `resource`, since `since`, from `offset`.
pub open spec fn is_playing<H>(
    state: PlayerState<H>,
    resource: PlaybackResource,
    since: u64,
    offset: u64,
) -> bool {
    state matches PlayerState::Playing { resource: r, playing_since: t, offset: o, .. } && r
        == resource && t == since && o == offset
}

/// Every outcome that a start request may have, whatever the handle and the
/// interpreter report.
pub open spec fn start_outcome<H>(
    resource: PlaybackResource,
    state: PlayerState<H>,
    now: u64,
    res: Result<(), Failure>,
    new_state: PlayerState<H>,
) -> bool {
    match state {
        PlayerState::Idle => match res {
            Ok(()) => is_playing(new_state, resource, now, 0),
            Err(f) => new_state is Idle && exists|msg: String|
                f == Failure::Player(start_error(resource, msg)),
        },
        PlayerState::Playing { resource: current, playing_since, offset, handle } => match res {
            Ok(()) => is_playing(new_state, resource, playing_since, 0),
            Err(Failure::Handle(_)) => new_state == PlayerState::Playing {
                resource: current,
                playing_since,
                offset: 0,
                handle,
            },
            Err(Failure::Player(e)) => new_state is Idle && exists|msg: String|
                e == start_error(resource, msg),
        },
        PlayerState::Paused { handle, at, prev_resource } => {
            if resource@ == prev_resource@ {
                match res {
                    Ok(()) => new_state == PlayerState::Playing {
                        resource,
                        playing_since: now,
                        offset: 0,
                        handle,
                    } || new_state == PlayerState::Playing {
                        resource,
                        playing_since: now,
                        offset: at,
                        handle,
                    },
                    Err(Failure::Handle(_)) => new_state == PlayerState::Paused {
                        handle,
                        at,
                        prev_resource,
                    },
                    Err(Failure::Player(_)) => false,
                }
            } else {
                match res {
                    Ok(()) => is_playing(new_state, resource, now, 0),
                    Err(Failure::Handle(_)) => new_state == PlayerState::Paused {
                        handle,
                        at,
                        prev_resource,
                    },
                    Err(Failure::Player(e)) => new_state is Idle && exists|msg: String|
                        e == start_error(resource, msg),
                }
            }
        },
    }
}

/// Every outcome that a stop request may have, whatever the handle reports.
pub open spec fn stop_outcome<H>(
    state: PlayerState<H>,
    now: u64,
    res: Result<(), Failure>,
    new_state: PlayerState<H>,
) -> bool {
    match state {
        PlayerState::Playing { resource, playing_since, handle, .. } => match res {
            Ok(()) => new_state == PlayerState::Paused {
                handle,
                at: played_until(playing_since, now),
                prev_resource: resource,
            },
            Err(f) => new_state is Idle && f is Handle,
        },
        _ => res is Ok && new_state is Idle,
    }
}

/// Every outcome that a playback request may have at time `now`.
pub open spec fn request_outcome<H>(
    req: PlaybackRequest,
    state: PlayerState<H>,
    now: u64,
    res: Result<(), Failure>,
    new_state: PlayerState<H>,
) -> bool {
    match req {
        PlaybackRequest::Start(resource) => start_outcome(resource, state, now, res, new_state),
        PlaybackRequest::Stop => stop_outcome(state, now, res, new_state),
    }
}

/// Whether a handle that reported `reported` counts as completed: a handle
/// that cannot tell counts as complete.
pub open spec fn completion(reported: Result<bool, String>) -> bool {
    match reported {
        Ok(b) => b,
        Err(_) => true,
    }
}

/// The outcome of starting `resource` at `since`, where the start gave
/// `reported`.
pub open spec fn started_state<H>(reported: Result<H, Error>, resource: PlaybackResource, since: u64) -> (
    Result<(), Failure>,
    PlayerState<H>,
) {
    match reported {
        Ok(handle) => (Ok(()), PlayerState::Playing { resource, playing_since: since, offset: 0, handle }),
        Err(e) => (Err(Failure::Player(e)), PlayerState::Idle),
    }
}

/// The outcome of resuming a paused playback of `resource` from `offset` at
/// `now`, where the handle reported `reported`; on failure the pause stays.
pub open spec fn resumed_state<H>(
    reported: Result<(), String>,
    handle: H,
    resource: PlaybackResource,
    now: u64,
    offset: u64,
    at: u64,
    prev_resource: PlaybackResource,
) -> (Result<(), Failure>, PlayerState<H>) {
    match reported {
        Ok(()) => (Ok(()), PlayerState::Playing { resource, playing_since: now, offset, handle }),
        Err(msg) => (Err(Failure::Handle(msg)), PlayerState::Paused { handle, at, prev_resource }),
    }
}

/// The outcome of pausing the playback of `resource`, running since
/// `playing_since`, at `now`, where the handle reported `reported`.
pub open spec fn paused_state<H>(
    reported: Result<(), String>,
    handle: H,
    resource: PlaybackResource,
    playing_since: u64,
    now: u64,
) -> (Result<(), Failure>, PlayerState<H>) {
    match reported {
        Ok(()) => (
            Ok(()),
            PlayerState::Paused { handle, at: played_until(playing_since, now), prev_resource: resource },
        ),
        Err(msg) => (Err(Failure::Handle(msg)), PlayerState::Idle),
    }
}

/// The result of asking a handle whether its playback has completed; a
/// handle that cannot tell counts as complete.
pub fn completion_of(reported: Result<bool, String>) -> (r: bool)
    ensures
        r == completion(reported),
{
    match reported {
        Ok(b) => b,
        Err(_) => true,
    }
}

/// The outcome of starting `resource` at `since`, given what the interpreter
/// reported.
pub fn started<H>(reported: Result<H, Error>, resource: PlaybackResource, since: u64) -> (r: (
    Result<(), Failure>,
    PlayerState<H>,
))
    ensures
        r == started_state(reported, resource, since),
{
    match reported {
        Ok(handle) => (Ok(()), PlayerState::Playing { resource, playing_since: since, offset: 0, handle }),
        Err(e) => (Err(Failure::Player(e)), PlayerState::Idle),
    }
}

/// The outcome of resuming a paused playback of `resource` from `offset` at
/// `now`, given what the handle reported; on failure the pause stays.
pub fn resumed<H>(
    reported: Result<(), String>,
    handle: H,
    resource: PlaybackResource,
    now: u64,
    offset: u64,
    at: u64,
    prev_resource: PlaybackResource,
) -> (r: (Result<(), Failure>, PlayerState<H>))
    ensures
        r == resumed_state(reported, handle, resource, now, offset, at, prev_resource),
{
    match reported {
        Ok(()) => (Ok(()), PlayerState::Playing { resource, playing_since: now, offset, handle }),
        Err(msg) => (Err(Failure::Handle(msg)), PlayerState::Paused { handle, at, prev_resource }),
    }
}

/// The outcome of pausing the playback of `resource` that has been running
/// since `playing_since`, at `now`, given what the handle reported.
pub fn paused<H>(
    reported: Result<(), String>,
    handle: H,
    resource: PlaybackResource,
    playing_since: u64,
    now: u64,
) -> (r: (Result<(), Failure>, PlayerState<H>))
    ensures
        r == paused_state(reported, handle, resource, playing_since, now),
{
    match reported {
        Ok(()) => {
            let at = now.saturating_sub(playing_since);
            (Ok(()), PlayerState::Paused { handle, at, prev_resource: resource })
        },
        Err(msg) => (Err(Failure::Handle(msg)), PlayerState::Idle),
    }
}

/// Whether `reported` is a result that the handle's `stop` may return.
pub open spec fn handle_stopped<H: PlaybackHandle>(handle: H, reported: Result<(), String>) -> bool {
    call_ensures(H::stop, (&handle,), reported)
}

/// Whether `reported` is a result that the handle's `pause` may return.
pub open spec fn handle_paused<H: PlaybackHandle>(handle: H, reported: Result<(), String>) -> bool {
    call_ensures(H::pause, (&handle,), reported)
}

/// Whether `reported` is a result that the handle's `cont` may return.
pub open spec fn handle_continued<H: PlaybackHandle>(handle: H, reported: Result<(), String>) -> bool {
    call_ensures(H::cont, (&handle,), reported)
}

/// Whether `reported` is a result that the handle's `replay` may return.
pub open spec fn handle_replayed<H: PlaybackHandle>(handle: H, reported: Result<(), String>) -> bool {
    call_ensures(H::replay, (&handle,), reported)
}

/// Whether `reported` is a result that the handle's `is_complete` may
/// return.
pub open spec fn handle_completion<H: PlaybackHandle>(handle: H, reported: Result<bool, String>) -> bool {
    call_ensures(H::is_complete, (&handle,), reported)
}

/// What starting `resource` gives, where the interpreter reported `reported`:
/// its handle, or its message as the error of the resource's kind.
pub open spec fn start_result<H>(resource: PlaybackResource, reported: Result<H, String>) -> Result<
    H,
    Error,
> {
    match reported {
        Ok(handle) => Ok(handle),
        Err(msg) => Err(start_error(resource, msg)),
    }
}

/// Whether `reported` is a result that the interpreter's `play_spotify`
/// (for a Spotify URI) or `play_http` (for a URL) may return when called
/// with the resource and `pause_state`.
pub open spec fn interpreter_started<I: Interpreter>(
    interpreter: I,
    resource: PlaybackResource,
    pause_state: Option<PauseState>,
    reported: Result<I::Handle, String>,
) -> bool {
    match resource {
        PlaybackResource::SpotifyUri(uri) => call_ensures(I::play_spotify, (&interpreter, &uri, pause_state), reported),
        PlaybackResource::Http(url) => call_ensures(I::play_http, (&interpreter, &url, pause_state), reported),
    }
}

/// The result of starting `resource`, given what the interpreter reported.
pub fn started_with<H>(reported: Result<H, String>, resource: &PlaybackResource) -> (r: Result<H, Error>)
    ensures
        r == start_result(*resource, reported),
{
    match reported {
        Ok(handle) => Ok(handle),
        Err(msg) => match resource {
            PlaybackResource::SpotifyUri(_) => Err(Error::Spotify(msg)),
            PlaybackResource::Http(_) => Err(Error::HTTP(msg)),
        },
    }
}

/// Starts playing `resource` through the interpreter: a Spotify URI with its
/// Spotify player, a URL with its HTTP player, from `pause_state`.
pub fn play_resource<I: Interpreter>(
    interpreter: &I,
    resource: &PlaybackResource,
    pause_state: Option<PauseState>,
) -> (r: Result<I::Handle, Error>)
    ensures
        exists|reported: Result<I::Handle, String>|
            interpreter_started(*interpreter, *resource, pause_state, reported) && r
                == start_result(*resource, reported),
        r is Ok || exists|msg: String| r == Err::<I::Handle, Error>(start_error(*resource, msg)),
{
    let ghost pause = pause_state;
    let reported = match resource {
        PlaybackResource::SpotifyUri(spotify_uri) => interpreter.play_spotify(spotify_uri, pause_state),
        PlaybackResource::Http(url) => interpreter.play_http(url, pause_state),
    };
    let ghost rep = reported;
    assert(interpreter_started(*interpreter, *resource, pause, rep));
    let r = started_with(reported, resource);
    proof {
        if let Err(msg) = rep {
            assert(r == Err::<I::Handle, Error>(start_error(*resource, msg)));
        }
    }
    r
}

/// Whether `r` is the outcome of starting `resource` at `since` through the
/// interpreter, asked with no pause state.
pub open spec fn start_through<I: Interpreter>(
    interpreter: I,
    resource: PlaybackResource,
    since: u64,
    r: (Result<(), Failure>, PlayerState<I::Handle>),
) -> bool {
    exists|rep: Result<I::Handle, String>|
        interpreter_started(interpreter, resource, None, rep) && r == started_state(
            start_result(resource, rep),
            resource,
            since,
        )
}

/// Whether `r` is what handling `req` in `state` at `now` gives, for what
/// the interpreter and the current handle report on the calls made:
///
/// - a start while idle asks the interpreter to play the resource;
/// - a start while playing stops the handle, and on success asks the
///   interpreter to play the new resource, keeping the start time;
/// - a start of the paused resource asks the handle whether it completed,
///   and replays it if so and continues it where it stopped otherwise;
/// - a start of another resource while paused stops the handle and on
///   success asks the interpreter to play the new resource;
/// - a stop while playing pauses the handle; otherwise it makes no call.
///
/// The interpreter is always asked with no pause state.
pub open spec fn request_handled<I: Interpreter>(
    interpreter: I,
    req: PlaybackRequest,
    state: PlayerState<I::Handle>,
    now: u64,
    r: (Result<(), Failure>, PlayerState<I::Handle>),
) -> bool {
    match req {
        PlaybackRequest::Start(resource) => match state {
            PlayerState::Idle => start_through(interpreter, resource, now, r),
            PlayerState::Playing { resource: current, playing_since, handle, .. } => exists|
                s: Result<(), String>,
            |
                handle_stopped(handle, s) && match s {
                    Err(msg) => r == (
                        Err::<(), Failure>(Failure::Handle(msg)),
                        PlayerState::Playing { resource: current, playing_since, offset: 0, handle },
                    ),
                    Ok(()) => start_through(interpreter, resource, playing_since, r),
                },
            PlayerState::Paused { handle, at, prev_resource } => if resource@ == prev_resource@ {
                exists|c: Result<bool, String>|
                    handle_completion(handle, c) && if completion(c) {
                        exists|rep: Result<(), String>|
                            handle_replayed(handle, rep) && r == resumed_state(
                                rep,
                                handle,
                                resource,
                                now,
                                0,
                                at,
                                prev_resource,
                            )
                    } else {
                        exists|rep: Result<(), String>|
                            handle_continued(handle, rep) && r == resumed_state(
                                rep,
                                handle,
                                resource,
                                now,
                                at,
                                at,
                                prev_resource,
                            )
                    }
            } else {
                exists|s: Result<(), String>|
                    handle_stopped(handle, s) && match s {
                        Err(msg) => r == (
                            Err::<(), Failure>(Failure::Handle(msg)),
                            PlayerState::Paused { handle, at, prev_resource },
                        ),
                        Ok(()) => start_through(interpreter, resource, now, r),
                    }
            },
        },
        PlaybackRequest::Stop => match state {
            PlayerState::Playing { resource, playing_since, handle, .. } => exists|
                rep: Result<(), String>,
            | handle_paused(handle, rep) && r == paused_state(rep, handle, resource, playing_since, now),
            _ => r == (Ok::<(), Failure>(()), PlayerState::<I::Handle>::Idle),
        },
    }
}

/// Handles one playback request at time `now`.
///
/// A start request while idle starts the resource.  While playing, the
/// current playback is stopped and the new one started, keeping the start
/// time.  While paused, the same resource is replayed from the beginning if
/// its playback has completed and continued where it stopped otherwise; a
/// different resource replaces the paused one.  A stop request pauses a
/// playback and is accepted without effect otherwise.
pub fn state_machine<I: Interpreter>(
    interpreter: &I,
    req: PlaybackRequest,
    state: PlayerState<I::Handle>,
    now: u64,
) -> (r: (Result<(), Failure>, PlayerState<I::Handle>))
    ensures
        request_handled(*interpreter, req, state, now, r),
        request_outcome(req, state, now, r.0, r.1),
{
    match req {
        PlaybackRequest::Start(resource) => {
            let ghost res = resource;
            match state {
                PlayerState::Idle => {
                    let reported = play_resource(interpreter, &resource, None);
                    started(reported, resource, now)
                },
                PlayerState::Playing { resource: current_resource, playing_since, offset, handle } => {
                    let stop_reported = handle.stop();
                    let ghost s = stop_reported;
                    assert(handle_stopped(handle, s));
                    match stop_reported {
                        Err(msg) => (
                            Err(Failure::Handle(msg)),
                            PlayerState::Playing {
                                resource: current_resource,
                                playing_since,
                                offset: 0,
                                handle,
                            },
                        ),
                        Ok(()) => {
                            let reported = play_resource(interpreter, &resource, None);
                            let r = started(reported, resource, playing_since);
                            assert(start_through(*interpreter, res, playing_since, r));
                            r
                        },
                    }
                },
                PlayerState::Paused { handle, at, prev_resource } => {
                    if resource.same_as(&prev_resource) {
                        let completion_reported = handle.is_complete();
                        let ghost c = completion_reported;
                        assert(handle_completion(handle, c));
                        if completion_of(completion_reported) {
                            let reported = handle.replay();
                            assert(handle_replayed(handle, reported));
                            resumed(reported, handle, resource, now, 0, at, prev_resource)
                        } else {
                            let reported = handle.cont();
                            assert(handle_continued(handle, reported));
                            resumed(reported, handle, resource, now, at, at, prev_resource)
                        }
                    } else {
                        let stop_reported = handle.stop();
                        let ghost s = stop_reported;
                        assert(handle_stopped(handle, s));
                        match stop_reported {
                            Err(msg) => (
                                Err(Failure::Handle(msg)),
                                PlayerState::Paused { handle, at, prev_resource },
                            ),
                            Ok(()) => {
                                let reported = play_resource(interpreter, &resource, None);
                                let r = started(reported, resource, now);
                                assert(start_through(*interpreter, res, now, r));
                                r
                            },
                        }
                    }
                },
            }
        },
        PlaybackRequest::Stop => {
            match state {
                PlayerState::Playing { resource, playing_since, handle, .. } => {
                    let reported = handle.pause();
                    assert(handle_paused(handle, reported));
                    paused(reported, handle, resource, playing_since, now)
                },
                _ => (Ok(()), PlayerState::Idle),
            }
        },
    }
}

/// A player that turns playback requests into work for an [`Interpreter`].
pub struct Player<I: Interpreter> {
    interpreter: I,
    state: PlayerState<I::Handle>,
    clock: Instant,
}

impl<I: Interpreter> Player<I> {
    /// The current state of the player.
    pub closed spec fn spec_state(&self) -> PlayerState<I::Handle> {
        self.state
    }

    /// The interpreter the player works with.
    pub closed spec fn spec_interpreter(&self) -> I {
        self.interpreter
    }

    /// When the player's clock started.
    pub closed spec fn spec_clock(&self) -> Instant {
        self.clock
    }

    /// A new, idle player.
    pub fn new(interpreter: I) -> (player: Self)
        ensures
            player.spec_state() is Idle,
            player.spec_interpreter() == interpreter,
    {
        Player { interpreter, state: PlayerState::Idle, clock: clock_start() }
    }

    /// The interpreter the player works with.
    pub fn interpreter(&self) -> (r: &I)
        ensures
            *r == self.spec_interpreter(),
    {
        &self.interpreter
    }

    /// Handles a playback request at the current time of the player's clock.
    pub fn playback(&mut self, req: PlaybackRequest) -> (r: Result<(), Failure>)
        ensures
            final(self).spec_interpreter() == old(self).spec_interpreter(),
            final(self).spec_clock() == old(self).spec_clock(),
            exists|now: u64|
                #![trigger measured_since(old(self).spec_clock(), now)]
                measured_since(old(self).spec_clock(), now) && request_handled(
                    old(self).spec_interpreter(),
                    req,
                    old(self).spec_state(),
                    now,
                    (r, final(self).spec_state()),
                ) && request_outcome(req, old(self).spec_state(), now, r, final(self).spec_state()),
    {
        let now = clock_millis(&self.clock);
        proof {
            lemma_measured(&self.clock, now);
        }
        let ghost req0 = req;
        let mut state = PlayerState::Idle;
        std::mem::swap(&mut state, &mut self.state);
        let ghost state0 = state;
        let (res, new_state) = state_machine(&self.interpreter, req, state, now);
        self.state = new_state;
        assert(measured_since(self.spec_clock(), now) && request_handled(
            self.interpreter,
            req0,
            state0,
            now,
            (res, self.state),
        ) && request_outcome(req0, state0, now, res, self.state));
        res
    }
}

} // verus!

verus! {

/// The resource that a state plays or holds paused.
pub open spec fn resource_of<H>(state: PlayerState<H>) -> Option<PlaybackResource> {
    match state {
        PlayerState::Idle => None,
        PlayerState::Playing { resource, .. } => Some(resource),
        PlayerState::Paused { prev_resource, .. } => Some(prev_resource),
    }
}

/// A successful start request leaves the player playing the requested
/// resource, whatever it was doing before.
pub proof fn start_success_plays_resource<H>(
    resource: PlaybackResource,
    state: PlayerState<H>,
    now: u64,
    new_state: PlayerState<H>,
)
    requires
        start_outcome(resource, state, now, Ok(()), new_state),
    ensures
        new_state is Playing,
        resource_of(new_state) == Some(resource),
{
}

/// A failed request never moves the player to another resource: it keeps
/// the resource it had, or becomes idle.
pub proof fn failure_keeps_resource_or_idles<H>(
    req: PlaybackRequest,
    state: PlayerState<H>,
    now: u64,
    f: Failure,
    new_state: PlayerState<H>,
)
    requires
        request_outcome(req, state, now, Err(f), new_state),
    ensures
        new_state is Idle || resource_of(new_state) == resource_of(state),
{
}

/// A stop request succeeds and idles the player whenever nothing is playing.
pub proof fn stop_without_playback_is_accepted<H>(
    state: PlayerState<H>,
    now: u64,
    res: Result<(), Failure>,
    new_state: PlayerState<H>,
)
    requires
        !(state is Playing),
        stop_outcome(state, now, res, new_state),
    ensures
        res is Ok,
        new_state is Idle,
{
}

/// Starting a resource and then stopping it, both successfully, pauses that
/// resource where it was stopped.
pub proof fn start_then_stop_pauses<H>(
    resource: PlaybackResource,
    s0: PlayerState<H>,
    t0: u64,
    s1: PlayerState<H>,
    t1: u64,
    s2: PlayerState<H>,
)
    requires
        request_outcome(PlaybackRequest::Start(resource), s0, t0, Ok(()), s1),
        request_outcome(PlaybackRequest::Stop, s1, t1, Ok(()), s2),
    ensures
        s2 matches PlayerState::Paused { prev_resource, at, .. } && prev_resource == resource
            && at == played_until(s1->playing_since, t1),
{
}

/// Starting a paused resource again resumes the same playback: the handle
/// is kept, and the playback continues either from where it was paused or
/// from the beginning.
pub proof fn restart_of_paused_resource_resumes<H>(
    resource: PlaybackResource,
    handle: H,
    at: u64,
    prev_resource: PlaybackResource,
    now: u64,
    new_state: PlayerState<H>,
)
    requires
        resource@ == prev_resource@,
        start_outcome(
            resource,
            PlayerState::Paused { handle, at, prev_resource },
            now,
            Ok(()),
            new_state,
        ),
    ensures
        new_state matches PlayerState::Playing { handle: h, offset, playing_since, .. } && h
            == handle && (offset == at || offset == 0) && playing_since == now,
{
}

/// Whether `state` plays `resource` with `handle` from `offset`, started at
/// `since`.
pub open spec fn plays<H>(state: PlayerState<H>, resource: PlaybackResource, since: u64, offset: u64, handle: H) -> bool {
    state == PlayerState::Playing { resource, playing_since: since, offset, handle }
}

/// Whether every result that the handle's `is_complete` may give satisfies
/// `p`.
pub open spec fn completion_always<H: PlaybackHandle>(handle: H, p: spec_fn(Result<bool, String>) -> bool) -> bool {
    forall|c: Result<bool, String>| #[trigger] handle_completion(handle, c) ==> p(c)
}

/// Starting the paused resource again asks its handle whether the playback
/// completed.  Where the handle can only report it complete, or can only
/// fail to tell, the playback is replayed from the beginning; where it can
/// only report it unfinished, the playback continues where it was paused.
/// Either way the same handle plays, from now on.
pub proof fn restart_replays_completed_and_continues_unfinished<I: Interpreter>(
    interpreter: I,
    resource: PlaybackResource,
    handle: I::Handle,
    at: u64,
    prev_resource: PlaybackResource,
    now: u64,
    r: (Result<(), Failure>, PlayerState<I::Handle>),
)
    requires
        resource@ == prev_resource@,
        request_handled(
            interpreter,
            PlaybackRequest::Start(resource),
            (PlayerState::Paused { handle, at, prev_resource }),
            now,
            r,
        ),
        r.0 is Ok,
    ensures
        completion_always(handle, |c: Result<bool, String>| c != Ok::<bool, String>(false)) ==> (
        plays(r.1, resource, now, 0, handle) && exists|rep: Result<(), String>|
            handle_replayed(handle, rep)),
        completion_always(handle, |c: Result<bool, String>| c == Ok::<bool, String>(false)) ==> (
        plays(r.1, resource, now, at, handle) && exists|rep: Result<(), String>|
            handle_continued(handle, rep)),
{
}

} // verus!
