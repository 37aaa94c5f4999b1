use std::cell::Cell;

use rustberry::access_token_provider::{
    bearer_from, encode_client_id_and_secret, refresh_request_authorization, token_from,
    wait_step, AccessTokenProvider, AtpError, RefreshTokenResponse, WaitStep,
};

fn response(token: &str) -> RefreshTokenResponse {
    RefreshTokenResponse {
        access_token: token.to_string(),
        token_type: "Bearer".to_string(),
        scope: "".to_string(),
        expires_in: 3600,
    }
}

#[test]
fn client_credentials_are_base64_encoded() {
    assert_eq!(encode_client_id_and_secret("a", "b"), "YTpi");
    assert_eq!(encode_client_id_and_secret("client", "secret"), "Y2xpZW50OnNlY3JldA==");
}

#[test]
fn refresh_requests_use_basic_authorization() {
    assert_eq!(refresh_request_authorization("a", "b"), "Basic YTpi");
}

#[test]
fn bearer_token_is_prefixed() {
    assert_eq!(bearer_from(Ok("tok".to_string())), Ok("Bearer tok".to_string()));
    assert_eq!(bearer_from(Err(AtpError::NoTokenReceivedYet)), Err(AtpError::NoTokenReceivedYet));
    assert_eq!(token_from(None), Err(AtpError::NoTokenReceivedYet));
    assert_eq!(token_from(Some("t".to_string())), Ok("t".to_string()));
}

#[test]
fn provider_has_no_token_before_the_first_refresh() {
    let provider = AccessTokenProvider::new("client", "secret", "refresh");
    assert_eq!(provider.get_token(), Err(AtpError::NoTokenReceivedYet));
    assert_eq!(provider.get_bearer_token(), Err(AtpError::NoTokenReceivedYet));
}

#[test]
fn refresh_stores_the_new_token_and_failures_keep_it() {
    let provider = AccessTokenProvider::new("client", "secret", "refresh");
    assert_eq!(provider.refreshed(Ok(response("one"))), Some("one".to_string()));
    assert_eq!(provider.get_token(), Ok("one".to_string()));
    assert_eq!(provider.refreshed(Err("offline".to_string())), None);
    assert_eq!(provider.get_bearer_token(), Ok("Bearer one".to_string()));
}

#[test]
fn clones_share_the_token() {
    let provider = AccessTokenProvider::new("client", "secret", "refresh");
    let clone = provider.clone();
    provider.refreshed(Ok(response("shared")));
    assert_eq!(clone.get_token(), Ok("shared".to_string()));
}

#[test]
fn waiting_gives_up_after_twenty_attempts() {
    let provider = AccessTokenProvider::new("client", "secret", "refresh");
    let pauses = std::cell::RefCell::new(Vec::new());
    let res = provider.wait_for_token(|i| pauses.borrow_mut().push(i));
    assert_eq!(res, Err(AtpError::NoTokenReceivedYet));
    assert_eq!(*pauses.borrow(), (0..20).collect::<Vec<u32>>());
}

#[test]
fn waiting_ends_once_a_token_is_there() {
    let provider = AccessTokenProvider::new("client", "secret", "refresh");
    provider.refreshed(Ok(response("t")));
    let pauses = Cell::new(0);
    assert_eq!(provider.wait_for_token(|_| pauses.set(pauses.get() + 1)), Ok(()));
    assert_eq!(pauses.get(), 0);
}

#[test]
fn a_read_that_finds_a_token_ends_the_wait() {
    assert_eq!(wait_step(&Some("t".to_string()), 0), WaitStep::Found);
    assert_eq!(wait_step(&Some("t".to_string()), 19), WaitStep::Found);
}

#[test]
fn an_empty_read_pauses_and_the_twentieth_gives_up() {
    assert_eq!(wait_step(&None, 0), WaitStep::PauseAndRetry);
    assert_eq!(wait_step(&None, 18), WaitStep::PauseAndRetry);
    assert_eq!(wait_step(&None, 19), WaitStep::PauseAndGiveUp);
}
