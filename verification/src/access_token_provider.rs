use std::sync::{Arc, RwLock};

use vstd::prelude::*;
use vstd::utf8::encode_utf8;

verus! {

#[verifier::external_type_specification]
#[verifier::external_body]
#[verifier::reject_recursive_types(T)]
pub struct ExRwLock<T: ?Sized>(RwLock<T>);

/// The shared place where the current access token is kept.
pub type TokenCell = Arc<RwLock<Option<String>>>;

/// Calls `RwLock::new` on `token`.  Nothing is claimed of the result: the
/// lock is opaque.
#[verifier::external_body]
fn new_token_lock(token: Option<String>) -> RwLock<Option<String>> {
    RwLock::new(token)
}


/// Calls `Arc::clone` on the cell.  Claims that the clone is the same
/// shared cell as the one cloned, as `Arc::clone` documents.
#[verifier::external_body]
fn share_token_cell(cell: &TokenCell) -> (r: TokenCell)
    ensures
        r == *cell,
{
    Arc::clone(cell)
}

/// Calls `RwLock::read` on the cell and clones the token inside.  Nothing
/// is claimed of the result: another thread may store a token at any time.
/// The lock is only ever held to copy or assign a value, so it is never
/// poisoned and the `unwrap` does not fail.
#[verifier::external_body]
fn read_token(cell: &TokenCell) -> Option<String> {
    cell.read().unwrap().clone()
}

/// Whether `stored` is a value that reading `cell` may give: the token that
/// was last stored there, by this or another thread.
pub closed spec fn read_gives(cell: TokenCell, stored: Option<String>) -> bool {
    call_ensures(read_token, (&cell,), stored)
}

/// Reads the token cell for the attempt `attempt` of a wait.  The number
/// only tells the reads of one wait apart.
fn read_for_attempt(cell: &TokenCell, attempt: u32) -> (r: Option<String>)
    ensures
        read_gives(*cell, r),
{
    read_token(cell)
}

/// Whether the read of `cell` for the attempt `attempt` of a wait gave
/// `stored`.
pub closed spec fn attempt_read(cell: TokenCell, attempt: u32, stored: Option<String>) -> bool {
    call_ensures(read_for_attempt, (&cell, attempt), stored)
}

/// Whether `token` was stored in `cell` by a write.
pub closed spec fn wrote(cell: TokenCell, token: Option<String>) -> bool {
    call_ensures(store_token, (&cell, token), ())
}

/// Calls `RwLock::write` on the cell and stores `token` in it.
#[verifier::external_body]
fn store_token(cell: &TokenCell, token: Option<String>) {
    *cell.write().unwrap() = token;
}

/// The digit for the six-bit value `v` in the standard Base64 alphabet:
/// `A`-`Z`, `a`-`z`, `0`-`9`, `+` and `/`.
pub open spec fn base64_digit(v: int) -> char {
    if v < 26 {
        (65 + v) as char
    } else if v < 52 {
        (97 + v - 26) as char
    } else if v < 62 {
        (48 + v - 52) as char
    } else if v == 62 {
        '+'
    } else {
        '/'
    }
}

/// The standard Base64 encoding of `bytes` with padding: every three bytes
/// become four digits, and a last group of one or two bytes becomes two or
/// three digits followed by `=` up to four.
pub open spec fn spec_base64_encode(bytes: Seq<u8>) -> Seq<char>
    decreases bytes.len(),
{
    if bytes.len() == 0 {
        Seq::empty()
    } else if bytes.len() == 1 {
        let a = bytes[0] as int;
        seq![base64_digit(a / 4), base64_digit((a % 4) * 16), '=', '=']
    } else if bytes.len() == 2 {
        let a = bytes[0] as int;
        let b = bytes[1] as int;
        seq![base64_digit(a / 4), base64_digit((a % 4) * 16 + b / 16), base64_digit((b % 16) * 4), '=']
    } else {
        let a = bytes[0] as int;
        let b = bytes[1] as int;
        let c = bytes[2] as int;
        seq![
            base64_digit(a / 4),
            base64_digit((a % 4) * 16 + b / 16),
            base64_digit((b % 16) * 4 + c / 64),
            base64_digit(c % 64),
        ] + spec_base64_encode(bytes.subrange(3, bytes.len() as int))
    }
}

/// Calls `base64::encode`, which uses the standard alphabet with padding.
/// Claims that the result is that encoding of the bytes given.
#[verifier::external_body]
fn base64_encode(bytes: &[u8]) -> (r: String)
    ensures
        r@ == spec_base64_encode(bytes@),
{
    base64::encode(bytes)
}

/// Why no access token can be handed out.
#[derive(Clone, Copy, Debug, PartialEq, Eq, Structural)]
pub enum AtpError {
    NoTokenReceivedYet,
}

/// The answer of the Spotify accounts service to an authorization.
#[derive(Debug, Clone)]
pub struct AuthResponse {
    pub access_token: String,
    pub token_type: String,
    pub scope: String,
    pub expires_in: i32,
    pub refresh_token: String,
}

/// The answer of the Spotify accounts service to a token refresh.
#[derive(Debug, Clone)]
pub struct RefreshTokenResponse {
    pub access_token: String,
    pub token_type: String,
    pub scope: String,
    pub expires_in: i32,
}

/// The token that a request for the current token yields where the cell
/// holds `stored`.
pub open spec fn token_result(stored: Option<String>) -> Result<String, AtpError> {
    match stored {
        Some(token) => Ok(token),
        None => Err(AtpError::NoTokenReceivedYet),
    }
}

/// The token that a request for the current token yields, given what the
/// cell holds.
pub fn token_from(stored: Option<String>) -> (r: Result<String, AtpError>)
    ensures
        r == token_result(stored),
{
    match stored {
        Some(token) => Ok(token),
        None => Err(AtpError::NoTokenReceivedYet),
    }
}

/// The text "Bearer " followed by the token.
pub open spec fn bearer(token: Seq<char>) -> Seq<char> {
    "Bearer "@ + token
}

/// The bearer authorization for a token result.
pub fn bearer_from(token: Result<String, AtpError>) -> (r: Result<String, AtpError>)
    ensures
        match token {
            Ok(t) => r matches Ok(b) && b@ == bearer(t@),
            Err(e) => r == Err::<String, AtpError>(e),
        },
{
    match token {
        Ok(t) => {
            let mut b = String::from_str("Bearer ");
            b.append(t.as_str());
            Ok(b)
        },
        Err(e) => Err(e),
    }
}

/// The client ID and secret joined by a colon, as sent to the accounts
/// service.
pub open spec fn client_credentials(client_id: Seq<char>, client_secret: Seq<char>) -> Seq<char> {
    client_id + ":"@ + client_secret
}

/// The client ID and secret joined by a colon and encoded in Base64.
pub fn encode_client_id_and_secret(client_id: &str, client_secret: &str) -> (r: String)
    ensures
        r@ == spec_base64_encode(encode_utf8(client_credentials(client_id@, client_secret@))),
{
    let mut concat = client_id.to_owned();
    concat.append(":");
    concat.append(client_secret);
    base64_encode(concat.as_str().as_bytes())
}

/// The basic authorization that a token refresh request carries.
pub fn refresh_request_authorization(client_id: &str, client_secret: &str) -> (r: String)
    ensures
        r@ == "Basic "@ + spec_base64_encode(
            encode_utf8(client_credentials(client_id@, client_secret@)),
        ),
{
    let encoded = encode_client_id_and_secret(client_id, client_secret);
    let mut auth = String::from_str("Basic ");
    auth.append(encoded.as_str());
    auth
}

/// Hands out the Spotify access token that a refresh loop keeps current.
#[derive(Debug, Clone)]
pub struct AccessTokenProvider {
    client_id: String,
    client_secret: String,
    refresh_token: String,
    access_token: TokenCell,
}

/// How many times the provider looks for a token before giving up.
pub const TOKEN_WAIT_ATTEMPTS: u32 = 20;

/// What waiting for a token does after a read of the token cell.
#[derive(Debug, Clone, Copy, PartialEq, Eq, Structural)]
pub enum WaitStep {
    /// The read found a token: the wait succeeds.
    Found,
    /// The read found none: pause, then read again.
    PauseAndRetry,
    /// The read found none and was the last attempt: pause, then give up.
    PauseAndGiveUp,
}

/// What waiting does after the read of attempt `attempt`, counting from 0,
/// found a token (`found`) or not.
pub open spec fn spec_wait_step(found: bool, attempt: u32) -> WaitStep {
    if found {
        WaitStep::Found
    } else if attempt + 1 < TOKEN_WAIT_ATTEMPTS {
        WaitStep::PauseAndRetry
    } else {
        WaitStep::PauseAndGiveUp
    }
}

/// Decides what waiting does after the read of attempt `attempt` gave
/// `stored`: a token ends the wait; no token means a pause, after which
/// the wait reads again, or gives up once twenty reads found nothing.
pub fn wait_step(stored: &Option<String>, attempt: u32) -> (r: WaitStep)
    requires
        attempt < TOKEN_WAIT_ATTEMPTS,
    ensures
        r == spec_wait_step(stored is Some, attempt),
{
    if stored.is_some() {
        WaitStep::Found
    } else if attempt + 1 < TOKEN_WAIT_ATTEMPTS {
        WaitStep::PauseAndRetry
    } else {
        WaitStep::PauseAndGiveUp
    }
}

impl AccessTokenProvider {
    pub closed spec fn spec_client_id(&self) -> Seq<char> {
        self.client_id@
    }

    pub closed spec fn spec_client_secret(&self) -> Seq<char> {
        self.client_secret@
    }

    pub closed spec fn spec_refresh_token(&self) -> Seq<char> {
        self.refresh_token@
    }

    pub closed spec fn cell(&self) -> TokenCell {
        self.access_token
    }

    /// A provider for the given credentials that has no token yet.
    pub fn new(client_id: &str, client_secret: &str, refresh_token: &str) -> (r: Self)
        ensures
            r.spec_client_id() == client_id@,
            r.spec_client_secret() == client_secret@,
            r.spec_refresh_token() == refresh_token@,
    {
        AccessTokenProvider {
            client_id: client_id.to_owned(),
            client_secret: client_secret.to_owned(),
            refresh_token: refresh_token.to_owned(),
            access_token: Arc::new(new_token_lock(None)),
        }
    }

    /// The cell that the refresh loop stores fresh tokens in.
    pub fn shared_token(&self) -> (r: TokenCell)
        ensures
            r == self.cell(),
    {
        share_token_cell(&self.access_token)
    }

    /// Stores the token of a successful refresh in the shared cell; a failed
    /// refresh keeps the token there is.
    pub fn refreshed(&self, response: Result<RefreshTokenResponse, String>) -> (stored: Option<
        String,
    >)
        ensures
            stored == match response {
                Ok(rsp) => Some(rsp.access_token),
                Err(_) => None::<String>,
            },
            stored matches Some(t) ==> wrote(self.cell(), Some(t)),
    {
        match response {
            Ok(rsp) => {
                let token = rsp.access_token;
                let copy = token.clone();
                store_token(&self.access_token, Some(copy));
                assert(wrote(self.cell(), Some(token)));
                Some(token)
            },
            Err(_) => None,
        }
    }

    /// The current access token: the one the cell holds, or an error while
    /// it holds none.
    pub fn get_token(&self) -> (r: Result<String, AtpError>)
        ensures
            r is Ok || r == Err::<String, AtpError>(AtpError::NoTokenReceivedYet),
            exists|stored: Option<String>| read_gives(self.cell(), stored) && r == token_result(stored),
    {
        let stored = read_token(&self.access_token);
        assert(read_gives(self.cell(), stored));
        token_from(stored)
    }

    /// The current access token as a bearer authorization.
    pub fn get_bearer_token(&self) -> (r: Result<String, AtpError>)
        ensures
            r is Ok || r == Err::<String, AtpError>(AtpError::NoTokenReceivedYet),
            r matches Ok(b) ==> exists|t: Seq<char>| b@ == bearer(t),
            exists|stored: Option<String>|
                read_gives(self.cell(), stored) && match stored {
                    Some(t) => r matches Ok(b) && b@ == bearer(t@),
                    None => r == Err::<String, AtpError>(AtpError::NoTokenReceivedYet),
                },
    {
        bearer_from(self.get_token())
    }

    /// Looks for a token up to twenty times, deciding after each read with
    /// [`wait_step`].  After each read that finds no token, `pause` is
    /// called with the number of that attempt, counting from 0.  It succeeds
    /// at the first read of the cell that finds a token, and fails when all
    /// twenty reads found none.
    pub fn wait_for_token<F: Fn(u32)>(&self, pause: F) -> (r: Result<(), AtpError>)
        requires
            forall|i: u32| i < TOKEN_WAIT_ATTEMPTS ==> pause.requires((i,)),
        ensures
            r is Ok || r == Err::<(), AtpError>(AtpError::NoTokenReceivedYet),
            r is Ok ==> exists|t: String| read_gives(self.cell(), Some(t)),
            r is Err ==> read_gives(self.cell(), None),
            r is Err ==> forall|i: u32| i < TOKEN_WAIT_ATTEMPTS ==> call_ensures(pause, (i,), ()),
            r is Err ==> forall|i: u32|
                i < TOKEN_WAIT_ATTEMPTS ==> #[trigger] attempt_read(self.cell(), i, None),
            r is Ok ==> exists|k: u32, t: String|
                #![trigger attempt_read(self.cell(), k, Some(t))]
                k < TOKEN_WAIT_ATTEMPTS && attempt_read(self.cell(), k, Some(t)) && forall|i: u32|
                    i < k ==> #[trigger] attempt_read(self.cell(), i, None) && call_ensures(
                        pause,
                        (i,),
                        (),
                    ),
    {
        let mut idx: u32 = 0;
        while idx < TOKEN_WAIT_ATTEMPTS
            invariant
                idx <= TOKEN_WAIT_ATTEMPTS,
                forall|i: u32| i < TOKEN_WAIT_ATTEMPTS ==> pause.requires((i,)),
                idx > 0 ==> read_gives(self.cell(), None),
                forall|i: u32| i < idx ==> call_ensures(pause, (i,), ()),
                forall|i: u32| i < idx ==> #[trigger] attempt_read(self.cell(), i, None),
            decreases TOKEN_WAIT_ATTEMPTS - idx,
        {
            let stored = read_for_attempt(&self.access_token, idx);
            assert(attempt_read(self.cell(), idx, stored));
            assert(read_gives(self.cell(), stored));
            match wait_step(&stored, idx) {
                WaitStep::Found => {
                    assert(read_gives(self.cell(), Some(stored->0)));
                    assert(attempt_read(self.cell(), idx, Some(stored->0)));
                    return Ok(());
                },
                WaitStep::PauseAndRetry => {
                    pause(idx);
                    idx = idx + 1;
                },
                WaitStep::PauseAndGiveUp => {
                    pause(idx);
                    return Err(AtpError::NoTokenReceivedYet);
                },
            }
        }
        Err(AtpError::NoTokenReceivedYet)
    }
}

/// Along the reads of a wait, the wait succeeds at the first read that
/// finds a token, after pausing once after each earlier read.
pub proof fn wait_ends_at_first_token(found: Seq<bool>, k: u32)
    requires
        k < TOKEN_WAIT_ATTEMPTS,
        k < found.len(),
        found[k as int],
        forall|i: int| 0 <= i < k ==> !found[i],
    ensures
        spec_wait_step(found[k as int], k) == WaitStep::Found,
        forall|i: u32| i < k ==> spec_wait_step(#[trigger] found[i as int], i) == WaitStep::PauseAndRetry,
{
}

/// A read decides the wait exactly by whether it found a token: a token
/// always ends it with success, and the wait gives up only after the
/// twentieth read that found none.
pub proof fn wait_gives_up_only_after_twenty_empty_reads(found: bool, attempt: u32)
    requires
        attempt < TOKEN_WAIT_ATTEMPTS,
    ensures
        (spec_wait_step(found, attempt) == WaitStep::Found) == found,
        (spec_wait_step(found, attempt) == WaitStep::PauseAndGiveUp) == (!found && attempt + 1
            == TOKEN_WAIT_ATTEMPTS),
{
}

} // verus!
