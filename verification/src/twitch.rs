//! The OAuth provider of the catalog: the token request, the cached token,
//! and the protocol by which a request is retried once after a 401.

use vstd::prelude::*;
use vstd::string::StringExecFns;

verus! {

/// Where a token is asked for; the client's id and secret follow as query
/// parameters.
pub const TOKEN_URL: &'static str = "https://id.twitch.tv/oauth2/token?client_id=";

pub const TOKEN_URL_SECRET: &'static str = "&client_secret=";

pub const TOKEN_URL_GRANT: &'static str = "&grant_type=client_credentials";

/// The status with which the catalog refuses a token.
pub const UNAUTHORIZED: u16 = 401;

/// What the provider answers to a token request.
#[derive(Debug, PartialEq, Eq)]
pub struct TwitchAuthResponse {
    pub access_token: String,
}

/// Why an authorized request did not give a response.
#[derive(Debug, PartialEq, Eq)]
pub enum AuthError {
    /// No token could be had; the text says why.
    Token(String),
    /// The request could not be sent or answered; the text says why.
    Transport(String),
    /// The catalog refused the fresh token too.
    Unauthorized,
    /// The catalog answered with this status, which is no success.
    Status(u16),
}

/// What an [`AuthError`] stands for.
pub enum AuthErrorView {
    Token(Seq<char>),
    Transport(Seq<char>),
    Unauthorized,
    Status(u16),
}

impl View for AuthError {
    type V = AuthErrorView;

    open spec fn view(&self) -> AuthErrorView {
        match self {
            AuthError::Token(s) => AuthErrorView::Token(s@),
            AuthError::Transport(s) => AuthErrorView::Transport(s@),
            AuthError::Unauthorized => AuthErrorView::Unauthorized,
            AuthError::Status(s) => AuthErrorView::Status(*s),
        }
    }
}

/// Where one authorized request stands.
#[derive(Clone, Copy, Debug, PartialEq, Eq, Structural)]
pub enum AuthStage {
    /// No token is cached: one is to be asked for.
    NoToken,
    /// A token is there: the request is to be sent with it.
    Valid,
    /// The request came back with a 401: a fresh token is to be asked for.
    Refreshing,
    /// The fresh token is there: the request is to be sent once more.
    RetryingAfterRefresh,
    /// A response came with a status of success: it is the result.
    Delivered,
    /// A response came with this status, which is neither a success nor a
    /// 401 that can be retried.
    Rejected(u16),
    /// The request with the fresh token came back with a 401 too.
    Refused,
    /// No token could be had.
    TokenFailed,
    /// The request could not be sent or answered.
    TransportFailed,
}

/// What happened to the last action of an authorized request.
#[derive(Debug, PartialEq, Eq)]
pub enum AuthEvent {
    /// The provider gave this token.
    Token(String),
    /// The provider gave no token; the text says why.
    TokenFailed(String),
    /// The catalog answered with this status.
    Status(u16),
    /// The request could not be sent or answered; the text says why.
    TransportFailed(String),
}

/// The kinds of [`AuthEvent`].
#[derive(Clone, Copy, Debug, PartialEq, Eq, Structural)]
pub enum AuthSignal {
    Token,
    TokenFailed,
    Status(u16),
    TransportFailed,
}

impl AuthEvent {
    /// The kind of the event.
    pub open spec fn signal(self) -> AuthSignal {
        match self {
            AuthEvent::Token(_) => AuthSignal::Token,
            AuthEvent::TokenFailed(_) => AuthSignal::TokenFailed,
            AuthEvent::Status(s) => AuthSignal::Status(s),
            AuthEvent::TransportFailed(_) => AuthSignal::TransportFailed,
        }
    }

    /// Executable form of [`AuthEvent::signal`].
    pub fn kind(&self) -> (s: AuthSignal)
        ensures
            s == self.signal(),
    {
        match self {
            AuthEvent::Token(_) => AuthSignal::Token,
            AuthEvent::TokenFailed(_) => AuthSignal::TokenFailed,
            AuthEvent::Status(s) => AuthSignal::Status(*s),
            AuthEvent::TransportFailed(_) => AuthSignal::TransportFailed,
        }
    }
}

/// Whether `status` is a status of success: one from 200 to 299.
pub open spec fn is_success(status: u16) -> bool {
    200 <= status <= 299
}

/// The stage that follows the first sending of a request when the catalog
/// answers with `status`.
pub open spec fn after_first(status: u16) -> AuthStage {
    if status == UNAUTHORIZED {
        AuthStage::Refreshing
    } else if is_success(status) {
        AuthStage::Delivered
    } else {
        AuthStage::Rejected(status)
    }
}

/// The stage that follows the second sending of a request when the catalog
/// answers with `status`.
pub open spec fn after_retry(status: u16) -> AuthStage {
    if status == UNAUTHORIZED {
        AuthStage::Refused
    } else if is_success(status) {
        AuthStage::Delivered
    } else {
        AuthStage::Rejected(status)
    }
}

/// The stage that follows `stage` when an event of the kind `signal` comes.
///
/// A token is asked for where none is cached, and once more after the first
/// 401, never again. While a token is awaited, anything but a token ends the
/// request; while a response is awaited, anything but a status does. A
/// status that is neither a success nor a 401 ends the request as rejected.
pub open spec fn auth_step(stage: AuthStage, signal: AuthSignal) -> AuthStage {
    match stage {
        AuthStage::NoToken => match signal {
            AuthSignal::Token => AuthStage::Valid,
            _ => AuthStage::TokenFailed,
        },
        AuthStage::Valid => match signal {
            AuthSignal::Status(s) => after_first(s),
            _ => AuthStage::TransportFailed,
        },
        AuthStage::Refreshing => match signal {
            AuthSignal::Token => AuthStage::RetryingAfterRefresh,
            _ => AuthStage::TokenFailed,
        },
        AuthStage::RetryingAfterRefresh => match signal {
            AuthSignal::Status(s) => after_retry(s),
            _ => AuthStage::TransportFailed,
        },
        _ => stage,
    }
}

/// What the caller of an authorized request is to do next.
#[derive(Debug, PartialEq, Eq)]
pub enum AuthAction {
    /// Ask the provider for a token.
    FetchToken,
    /// Send the request with this bearer token.
    Send { token: String },
    /// Hand the last response on: it is the result.
    Deliver,
    /// Give up with this error.
    Fail(AuthError),
}

/// What an [`AuthAction`] stands for.
pub enum AuthActionView {
    FetchToken,
    Send { token: Seq<char> },
    Deliver,
    Fail(AuthErrorView),
}

impl View for AuthAction {
    type V = AuthActionView;

    open spec fn view(&self) -> AuthActionView {
        match self {
            AuthAction::FetchToken => AuthActionView::FetchToken,
            AuthAction::Send { token } => AuthActionView::Send { token: token@ },
            AuthAction::Deliver => AuthActionView::Deliver,
            AuthAction::Fail(e) => AuthActionView::Fail(e@),
        }
    }
}

/// The action of an authorized request in `stage`, with the token `token` and
/// the text `failure` of the last failure.
pub open spec fn auth_action(stage: AuthStage, token: Seq<char>, failure: Seq<char>) -> AuthActionView {
    match stage {
        AuthStage::NoToken | AuthStage::Refreshing => AuthActionView::FetchToken,
        AuthStage::Valid | AuthStage::RetryingAfterRefresh => AuthActionView::Send { token },
        AuthStage::Delivered => AuthActionView::Deliver,
        AuthStage::Refused => AuthActionView::Fail(AuthErrorView::Unauthorized),
        AuthStage::Rejected(status) => AuthActionView::Fail(AuthErrorView::Status(status)),
        AuthStage::TokenFailed => AuthActionView::Fail(AuthErrorView::Token(failure)),
        AuthStage::TransportFailed => AuthActionView::Fail(AuthErrorView::Transport(failure)),
    }
}

/// How often a token is asked for from `stage` on, while events of the kinds
/// `signals` come in.
pub open spec fn token_requests(stage: AuthStage, signals: Seq<AuthSignal>) -> nat
    decreases signals.len(),
{
    let now: nat = if stage is NoToken || stage is Refreshing {
        1
    } else {
        0
    };
    if signals.len() == 0 {
        now
    } else {
        now + token_requests(auth_step(stage, signals.first()), signals.drop_first())
    }
}

/// How often a fresh token is asked for after a 401, from `stage` on.
pub open spec fn refreshes(stage: AuthStage, signals: Seq<AuthSignal>) -> nat
    decreases signals.len(),
{
    let now: nat = if stage is Refreshing {
        1
    } else {
        0
    };
    if signals.len() == 0 {
        now
    } else {
        now + refreshes(auth_step(stage, signals.first()), signals.drop_first())
    }
}

/// How often the request is sent from `stage` on.
pub open spec fn sends(stage: AuthStage, signals: Seq<AuthSignal>) -> nat
    decreases signals.len(),
{
    let now: nat = if stage is Valid || stage is RetryingAfterRefresh {
        1
    } else {
        0
    };
    if signals.len() == 0 {
        now
    } else {
        now + sends(auth_step(stage, signals.first()), signals.drop_first())
    }
}

/// How many refreshes a request in `stage` may still make.
pub open spec fn refreshes_left(stage: AuthStage) -> nat {
    match stage {
        AuthStage::NoToken | AuthStage::Valid | AuthStage::Refreshing => 1,
        _ => 0,
    }
}

/// How many times a request in `stage` may still be sent.
pub open spec fn sends_left(stage: AuthStage) -> nat {
    match stage {
        AuthStage::NoToken | AuthStage::Valid => 2,
        AuthStage::Refreshing | AuthStage::RetryingAfterRefresh => 1,
        _ => 0,
    }
}

/// Whatever the provider and the catalog answer, one request asks for a
/// fresh token once at most, and is sent twice at most.
pub proof fn lemma_refresh_at_most_once(stage: AuthStage, signals: Seq<AuthSignal>)
    ensures
        refreshes(stage, signals) <= refreshes_left(stage) <= 1,
        sends(stage, signals) <= sends_left(stage) <= 2,
        token_requests(stage, signals) <= refreshes_left(stage) + (if stage is NoToken {
            1nat
        } else {
            0
        }),
    decreases signals.len(),
{
    if signals.len() > 0 {
        lemma_refresh_at_most_once(auth_step(stage, signals.first()), signals.drop_first());
    }
}

/// One request to the catalog, with the token it is sent with.
#[derive(Debug)]
pub struct AuthorizedRequest {
    stage: AuthStage,
    token: String,
    failure: String,
}

impl AuthorizedRequest {
    pub closed spec fn stage(&self) -> AuthStage {
        self.stage
    }

    /// The token that the request is sent with; the last one that came.
    pub closed spec fn token(&self) -> Seq<char> {
        self.token@
    }

    /// What the last failure reported.
    pub closed spec fn failure(&self) -> Seq<char> {
        self.failure@
    }

    /// A request that starts with the token `cached`, or with none.
    pub fn new(cached: Option<String>) -> (r: AuthorizedRequest)
        ensures
            r.stage() == (if cached is Some {
                AuthStage::Valid
            } else {
                AuthStage::NoToken
            }),
            r.token() == (match cached {
                Some(token) => token@,
                None => Seq::empty(),
            }),
            r.failure() == Seq::<char>::empty(),
    {
        match cached {
            Some(token) => AuthorizedRequest {
                stage: AuthStage::Valid,
                token,
                failure: String::new(),
            },
            None => AuthorizedRequest {
                stage: AuthStage::NoToken,
                token: String::new(),
                failure: String::new(),
            },
        }
    }

    /// Where the request stands.
    pub fn current_stage(&self) -> (s: AuthStage)
        ensures
            s == self.stage(),
    {
        self.stage
    }

    /// The token that the request is sent with.
    pub fn current_token(&self) -> (t: String)
        ensures
            t@ == self.token(),
    {
        self.token.clone()
    }

    /// What the caller is to do next.
    pub fn action(&self) -> (a: AuthAction)
        ensures
            a@ == auth_action(self.stage(), self.token(), self.failure()),
    {
        match self.stage {
            AuthStage::NoToken | AuthStage::Refreshing => AuthAction::FetchToken,
            AuthStage::Valid | AuthStage::RetryingAfterRefresh => AuthAction::Send {
                token: self.token.clone(),
            },
            AuthStage::Delivered => AuthAction::Deliver,
            AuthStage::Refused => AuthAction::Fail(AuthError::Unauthorized),
            AuthStage::Rejected(status) => AuthAction::Fail(AuthError::Status(status)),
            AuthStage::TokenFailed => AuthAction::Fail(AuthError::Token(self.failure.clone())),
            AuthStage::TransportFailed => AuthAction::Fail(
                AuthError::Transport(self.failure.clone()),
            ),
        }
    }

    /// Takes in what happened to the last action. A token that comes while
    /// one is awaited becomes the token of the request.
    pub fn advance(&mut self, event: AuthEvent)
        ensures
            final(self).stage() == auth_step(old(self).stage(), event.signal()),
            final(self).token() == (match event {
                AuthEvent::Token(t) => if old(self).stage() is NoToken || old(self).stage()
                    is Refreshing {
                    t@
                } else {
                    old(self).token()
                },
                _ => old(self).token(),
            }),
            final(self).failure() == (match event {
                AuthEvent::TokenFailed(text) => text@,
                AuthEvent::TransportFailed(text) => text@,
                _ => old(self).failure(),
            }),
    {
        let signal = event.kind();
        let awaiting_token = match self.stage {
            AuthStage::NoToken | AuthStage::Refreshing => true,
            _ => false,
        };
        let next = match self.stage {
            AuthStage::NoToken => match signal {
                AuthSignal::Token => AuthStage::Valid,
                _ => AuthStage::TokenFailed,
            },
            AuthStage::Valid => match signal {
                AuthSignal::Status(s) => if s == UNAUTHORIZED {
                    AuthStage::Refreshing
                } else if 200 <= s && s <= 299 {
                    AuthStage::Delivered
                } else {
                    AuthStage::Rejected(s)
                },
                _ => AuthStage::TransportFailed,
            },
            AuthStage::Refreshing => match signal {
                AuthSignal::Token => AuthStage::RetryingAfterRefresh,
                _ => AuthStage::TokenFailed,
            },
            AuthStage::RetryingAfterRefresh => match signal {
                AuthSignal::Status(s) => if s == UNAUTHORIZED {
                    AuthStage::Refused
                } else if 200 <= s && s <= 299 {
                    AuthStage::Delivered
                } else {
                    AuthStage::Rejected(s)
                },
                _ => AuthStage::TransportFailed,
            },
            other => other,
        };
        self.stage = next;
        match event {
            AuthEvent::Token(t) => {
                if awaiting_token {
                    self.token = t;
                }
            },
            AuthEvent::TokenFailed(text) => {
                self.failure = text;
            },
            AuthEvent::TransportFailed(text) => {
                self.failure = text;
            },
            AuthEvent::Status(_) => {},
        }
    }
}

/// The client of the OAuth provider, with the token it has cached.
#[derive(Debug)]
pub struct TwitchApiClient {
    client_id: String,
    client_secret: String,
    access_token: Option<String>,
}

impl TwitchApiClient {
    pub closed spec fn client_id(&self) -> Seq<char> {
        self.client_id@
    }

    pub closed spec fn client_secret(&self) -> Seq<char> {
        self.client_secret@
    }

    /// The token that is cached, if one is.
    pub closed spec fn access_token(&self) -> Option<Seq<char>> {
        crate::text::opt_text(self.access_token)
    }

    /// A client with these credentials and no token yet.
    pub fn new(client_id: String, client_secret: String) -> (c: TwitchApiClient)
        ensures
            c.client_id() == client_id@,
            c.client_secret() == client_secret@,
            c.access_token() is None,
    {
        TwitchApiClient { client_id, client_secret, access_token: None }
    }

    pub fn get_client_id(&self) -> (s: String)
        ensures
            s@ == self.client_id(),
    {
        self.client_id.clone()
    }

    /// The token that is cached, if one is.
    pub fn get_access_token(&self) -> (t: Option<String>)
        ensures
            crate::text::opt_text(t) == self.access_token(),
    {
        self.access_token.clone()
    }

    /// The URL to which a token request is posted.
    pub fn token_url(&self) -> (url: String)
        ensures
            url@ == TOKEN_URL@ + self.client_id() + TOKEN_URL_SECRET@ + self.client_secret()
                + TOKEN_URL_GRANT@,
    {
        let mut url = String::from_str(TOKEN_URL);
        url.append(self.client_id.as_str());
        url.append(TOKEN_URL_SECRET);
        url.append(self.client_secret.as_str());
        url.append(TOKEN_URL_GRANT);
        url
    }

    /// Caches the token of the provider's answer `response`.
    pub fn refresh_access_token(&mut self, response: TwitchAuthResponse)
        ensures
            final(self).client_id() == old(self).client_id(),
            final(self).client_secret() == old(self).client_secret(),
            final(self).access_token() == Some(response.access_token@),
    {
        self.access_token = Some(response.access_token);
    }

    /// A request that starts with the cached token, or with none.
    pub fn request_with_retry(&self) -> (r: AuthorizedRequest)
        ensures
            r.stage() == (if self.access_token() is Some {
                AuthStage::Valid
            } else {
                AuthStage::NoToken
            }),
            r.token() == (match self.access_token() {
                Some(token) => token,
                None => Seq::empty(),
            }),
            r.failure() == Seq::<char>::empty(),
    {
        AuthorizedRequest::new(self.access_token.clone())
    }
}

} // verus!
