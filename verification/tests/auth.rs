use rocade::twitch::{
    AuthAction, AuthError, AuthEvent, AuthSignal, AuthStage, AuthorizedRequest, TwitchApiClient,
    TwitchAuthResponse,
};

/// Runs one request against a catalog that answers with `statuses`, one
/// after the other; returns the tokens fetched, the tokens sent, the end.
fn run(cached: Option<&str>, statuses: &[u16]) -> (usize, Vec<String>, AuthAction) {
    let mut request = AuthorizedRequest::new(cached.map(|t| t.to_string()));
    let mut fetched = 0;
    let mut sent = Vec::new();
    loop {
        match request.action() {
            AuthAction::FetchToken => {
                fetched += 1;
                request.advance(AuthEvent::Token(format!("fresh{}", fetched)));
            }
            AuthAction::Send { token } => {
                let status = statuses[sent.len()];
                sent.push(token);
                request.advance(AuthEvent::Status(status));
            }
            end => return (fetched, sent, end),
        }
    }
}

#[test]
fn a_request_with_a_good_token_is_sent_once() {
    let (fetched, sent, end) = run(Some("cached"), &[200]);
    assert_eq!(fetched, 0);
    assert_eq!(sent, vec!["cached"]);
    assert_eq!(end, AuthAction::Deliver);
}

#[test]
fn a_request_without_a_token_asks_for_one_first() {
    let (fetched, sent, end) = run(None, &[200]);
    assert_eq!(fetched, 1);
    assert_eq!(sent, vec!["fresh1"]);
    assert_eq!(end, AuthAction::Deliver);
}

#[test]
fn a_401_is_followed_by_one_refresh_and_one_retry() {
    let (fetched, sent, end) = run(Some("stale"), &[401, 200]);
    assert_eq!(fetched, 1);
    assert_eq!(sent, vec!["stale", "fresh1"]);
    assert_eq!(end, AuthAction::Deliver);
}

#[test]
fn a_second_401_is_an_error_after_one_refresh() {
    let (fetched, sent, end) = run(Some("stale"), &[401, 401]);
    assert_eq!(fetched, 1);
    assert_eq!(sent.len(), 2);
    assert_eq!(end, AuthAction::Fail(AuthError::Unauthorized));
}

#[test]
fn a_status_of_success_is_handed_on() {
    for status in [200u16, 201, 204, 299] {
        let (fetched, sent, end) = run(Some("t"), &[status]);
        assert_eq!((fetched, sent.len()), (0, 1));
        assert_eq!(end, AuthAction::Deliver);
        let (fetched, sent, end) = run(Some("t"), &[401, status]);
        assert_eq!((fetched, sent.len()), (1, 2));
        assert_eq!(end, AuthAction::Deliver);
    }
}

#[test]
fn a_status_that_is_no_success_is_an_error_without_a_retry() {
    for status in [100u16, 199, 300, 400, 403, 404, 429, 500, 503] {
        let (fetched, sent, end) = run(Some("t"), &[status]);
        assert_eq!((fetched, sent.len()), (0, 1));
        assert_eq!(end, AuthAction::Fail(AuthError::Status(status)));
        let (fetched, sent, end) = run(Some("t"), &[401, status]);
        assert_eq!((fetched, sent.len()), (1, 2));
        assert_eq!(end, AuthAction::Fail(AuthError::Status(status)));
    }
}

#[test]
fn a_token_that_cannot_be_had_ends_the_request_at_once() {
    let mut request = AuthorizedRequest::new(None);
    assert_eq!(request.action(), AuthAction::FetchToken);
    request.advance(AuthEvent::TokenFailed("invalid client".to_string()));
    assert_eq!(request.current_stage(), AuthStage::TokenFailed);
    assert_eq!(request.action(), AuthAction::Fail(AuthError::Token("invalid client".to_string())));
    request.advance(AuthEvent::Token("late".to_string()));
    assert_eq!(request.action(), AuthAction::Fail(AuthError::Token("invalid client".to_string())));

    let mut request = AuthorizedRequest::new(Some("stale".to_string()));
    request.advance(AuthEvent::Status(401));
    assert_eq!(request.current_stage(), AuthStage::Refreshing);
    request.advance(AuthEvent::TokenFailed("down".to_string()));
    assert_eq!(request.action(), AuthAction::Fail(AuthError::Token("down".to_string())));
}

#[test]
fn a_request_that_cannot_be_sent_is_a_transport_error() {
    let mut request = AuthorizedRequest::new(Some("t".to_string()));
    request.advance(AuthEvent::TransportFailed("timeout".to_string()));
    assert_eq!(request.current_stage(), AuthStage::TransportFailed);
    assert_eq!(request.action(), AuthAction::Fail(AuthError::Transport("timeout".to_string())));

    let mut request = AuthorizedRequest::new(Some("t".to_string()));
    request.advance(AuthEvent::Status(401));
    request.advance(AuthEvent::Token("new".to_string()));
    assert_eq!(request.current_stage(), AuthStage::RetryingAfterRefresh);
    assert_eq!(request.current_token(), "new");
    request.advance(AuthEvent::TransportFailed("reset".to_string()));
    assert_eq!(request.action(), AuthAction::Fail(AuthError::Transport("reset".to_string())));
}

#[test]
fn a_token_that_was_not_asked_for_is_not_taken() {
    let mut request = AuthorizedRequest::new(Some("mine".to_string()));
    request.advance(AuthEvent::Token("other".to_string()));
    assert_eq!(request.current_token(), "mine");
    assert_eq!(request.current_stage(), AuthStage::TransportFailed);
}

#[test]
fn events_have_their_kind() {
    assert_eq!(AuthEvent::Token("t".to_string()).kind(), AuthSignal::Token);
    assert_eq!(AuthEvent::TokenFailed("t".to_string()).kind(), AuthSignal::TokenFailed);
    assert_eq!(AuthEvent::Status(401).kind(), AuthSignal::Status(401));
    assert_eq!(AuthEvent::TransportFailed("t".to_string()).kind(), AuthSignal::TransportFailed);
}

#[test]
fn the_provider_client_caches_the_token() {
    let mut client = TwitchApiClient::new("my-id".to_string(), "my-secret".to_string());
    assert_eq!(client.get_client_id(), "my-id");
    assert_eq!(client.get_access_token(), None);
    assert_eq!(client.request_with_retry().current_stage(), AuthStage::NoToken);
    assert_eq!(
        client.token_url(),
        "https://id.twitch.tv/oauth2/token?client_id=my-id&client_secret=my-secret&grant_type=client_credentials"
    );
    client.refresh_access_token(TwitchAuthResponse { access_token: "abc".to_string() });
    assert_eq!(client.get_access_token(), Some("abc".to_string()));
    let request = client.request_with_retry();
    assert_eq!(request.current_stage(), AuthStage::Valid);
    assert_eq!(request.action(), AuthAction::Send { token: "abc".to_string() });
}
