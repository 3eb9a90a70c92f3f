//! The authentication state machine and the authorized client around it.
//!
//! The client drives a two-step negotiation against the brokerage API:
//! credential submission, then one-time-code submission. Each step is split
//! into a pure request builder and a pure response handler, so the whole
//! decision logic is verified here while the caller's transport layer only
//! carries requests and responses back and forth.

use vstd::prelude::*;

use crate::error::RequestError;

verus! {

/// Static configuration: the three credential strings, supplied at
/// construction time and never mutated afterwards.
#[derive(Clone, Debug)]
pub struct Config {
    pub avanza_username: String,
    pub avanza_password: String,
    pub avanza_totp_secret: String,
}

/// The challenge produced by the credentials step: which two-factor method the
/// server demands, and the transaction id correlating the challenge.
#[derive(Clone, Debug)]
pub struct TwoFactorLogin {
    pub method: String,
    pub transaction_id: String,
}

/// Body of the credentials-step response.
#[derive(Clone, Debug)]
pub struct AuthenticateResponse {
    pub two_factor_login: TwoFactorLogin,
}

/// Body of the one-time-code-step response. The session identifier lives in
/// `authentication_session`; the security token arrives separately, in a
/// response header.
#[derive(Clone, Debug)]
pub struct AuthenticateTOTPResponse {
    pub authentication_session: String,
    pub push_subscription_id: String,
    pub customer_id: String,
    pub registration_complete: bool,
}

/// The client: base URL and user agent, the session credential pair (both
/// empty until authentication succeeds), and the static configuration.
#[derive(Clone)]
pub struct Client {
    pub api_url: String,
    pub user_agent: String,
    pub x_security_token: String,
    pub session: String,
    pub config: Config,
}

/// Mathematical model of a client: every string field as a sequence of
/// characters. All contracts are stated over this view.
pub struct ClientView {
    pub api_url: Seq<char>,
    pub user_agent: Seq<char>,
    pub x_security_token: Seq<char>,
    pub session: Seq<char>,
    pub username: Seq<char>,
    pub password: Seq<char>,
    pub totp_secret: Seq<char>,
}

impl View for Client {
    type V = ClientView;

    open spec fn view(&self) -> ClientView {
        ClientView {
            api_url: self.api_url@,
            user_agent: self.user_agent@,
            x_security_token: self.x_security_token@,
            session: self.session@,
            username: self.config.avanza_username@,
            password: self.config.avanza_password@,
            totp_secret: self.config.avanza_totp_secret@,
        }
    }
}

/// A client is authenticated exactly when both session credentials are
/// non-empty.
pub open spec fn authenticated(cv: ClientView) -> bool {
    cv.x_security_token.len() > 0 && cv.session.len() > 0
}

/// The model of a successful one-time-code completion: both session fields are
/// replaced together — never one without the other — and everything else is
/// kept.
pub open spec fn with_session(cv: ClientView, token: Seq<char>, session_id: Seq<char>) -> ClientView {
    ClientView { x_security_token: token, session: session_id, ..cv }
}

/// A request the state machine asks the transport to send: the absolute URI
/// and the key/value pairs of the JSON form body, in order.
pub struct AuthRequest {
    pub uri: String,
    pub fields: Vec<(String, String)>,
}

/// An authorized business request: the absolute URI and the security token to
/// attach to it.
pub struct AuthorizedRequest {
    pub uri: String,
    pub security_token: String,
}

impl Client {
    /// A fresh client against the production origin. The session starts fully
    /// empty: no credential input ever pre-populates it.
    pub fn new(config: Config) -> (r: Self)
        ensures
            r@.api_url == "https://www.avanza.se"@,
            r@.user_agent == "Avanza API client"@,
            r@.x_security_token == Seq::<char>::empty(),
            r@.session == Seq::<char>::empty(),
            r@.username == config.avanza_username@,
            r@.password == config.avanza_password@,
            r@.totp_secret == config.avanza_totp_secret@,
            !authenticated(r@),
    {
        Self {
            api_url: String::from_str("https://www.avanza.se"),
            user_agent: String::from_str("Avanza API client"),
            session: String::new(),
            x_security_token: String::new(),
            config,
        }
    }

    /// Builder-style override of the base URL; every other field is kept.
    pub fn api_url(self, value: String) -> (r: Self)
        ensures
            r@ == (ClientView { api_url: value@, ..self@ }),
    {
        Self { api_url: value, ..self }
    }

    /// Builder-style override of the user agent; every other field is kept.
    pub fn user_agent(self, value: String) -> (r: Self)
        ensures
            r@ == (ClientView { user_agent: value@, ..self@ }),
    {
        Self { user_agent: value, ..self }
    }

    /// Pure query: both session credentials are populated.
    pub fn is_authenticated(&self) -> (r: bool)
        ensures
            r == authenticated(self@),
    {
        !self.x_security_token.as_str().is_empty() && !self.session.as_str().is_empty()
    }

    /// First transition of the flow: the credentials-step request, carrying
    /// exactly the username, the password and the fixed maximum-inactivity
    /// value of 3600 seconds.
    pub fn credentials_request(&self) -> (r: AuthRequest)
        ensures
            r.uri@ == self@.api_url + "/_api/authentication/sessions/usercredentials"@,
            r.fields@.len() == 3,
            r.fields@[0].0@ == "username"@,
            r.fields@[0].1@ == self@.username,
            r.fields@[1].0@ == "password"@,
            r.fields@[1].1@ == self@.password,
            r.fields@[2].0@ == "maxInactiveMinutes"@,
            r.fields@[2].1@ == "3600"@,
    {
        let uri = self.api_url.clone().concat("/_api/authentication/sessions/usercredentials");
        let mut fields: Vec<(String, String)> = Vec::new();
        fields.push((String::from_str("username"), self.config.avanza_username.clone()));
        fields.push((String::from_str("password"), self.config.avanza_password.clone()));
        fields.push((String::from_str("maxInactiveMinutes"), String::from_str("3600")));
        AuthRequest { uri, fields }
    }

    /// Guard between the two steps: the declared method must be exactly
    /// "TOTP". Any other method is a terminal failure — the flow must not
    /// proceed to the one-time-code request. On success the transaction id of
    /// the challenge is handed on.
    pub fn validate_challenge(resp: &AuthenticateResponse) -> (r: Result<String, RequestError>)
        ensures
            r is Ok <==> resp.two_factor_login.method@ == "TOTP"@,
            r matches Ok(tid) ==> tid@ == resp.two_factor_login.transaction_id@,
            r matches Err(e) ==> e is UnknownAuthenticationMethod,
    {
        if resp.two_factor_login.method == String::from_str("TOTP") {
            Ok(resp.two_factor_login.transaction_id.clone())
        } else {
            Err(RequestError::UnknownAuthenticationMethod())
        }
    }

    /// Second transition of the flow: the one-time-code request, carrying the
    /// current one-time code and the literal method name. The code is taken as
    /// already computed, so code generation stays an injected capability.
    pub fn totp_request(&self, code: &String) -> (r: AuthRequest)
        ensures
            r.uri@ == self@.api_url + "/_api/authentication/sessions/totp"@,
            r.fields@.len() == 2,
            r.fields@[0].0@ == "totpCode"@,
            r.fields@[0].1@ == code@,
            r.fields@[1].0@ == "method"@,
            r.fields@[1].1@ == "TOTP"@,
    {
        let uri = self.api_url.clone().concat("/_api/authentication/sessions/totp");
        let mut fields: Vec<(String, String)> = Vec::new();
        fields.push((String::from_str("totpCode"), code.clone()));
        fields.push((String::from_str("method"), String::from_str("TOTP")));
        AuthRequest { uri, fields }
    }

    /// Last transition of the flow. The security token comes from the
    /// mandatory `x-securitytoken` response header — `None` means the header
    /// was absent, which is a terminal failure that leaves the session exactly
    /// as it was. With the header present, both session fields are set
    /// together from the header value and the body's session identifier. No
    /// prior state is assumed: a re-run overwrites whatever was there.
    pub fn complete_authentication(
        &mut self,
        security_token: Option<String>,
        response: AuthenticateTOTPResponse,
    ) -> (r: Result<(), RequestError>)
        ensures
            r is Ok <==> security_token is Some,
            security_token matches Some(t) ==> final(self)@ == with_session(
                old(self)@,
                t@,
                response.authentication_session@,
            ),
            security_token matches Some(t) ==> (authenticated(final(self)@) <==> (t@.len() > 0
                && response.authentication_session@.len() > 0)),
            security_token is None ==> final(self)@ == old(self)@,
            r matches Err(e) ==> e is MissingSecurityToken,
    {
        match security_token {
            Some(token) => {
                self.x_security_token = token;
                self.session = response.authentication_session;
                Ok(())
            },
            None => Err(RequestError::MissingSecurityToken()),
        }
    }

    /// Gate in front of every business request: with an unauthenticated
    /// session the request is refused outright — no URI is built, nothing is
    /// sent. Otherwise the absolute URI and the security token to attach are
    /// handed to the transport.
    pub fn authorized_request(&self, path: &str) -> (r: Result<AuthorizedRequest, RequestError>)
        ensures
            r is Ok <==> authenticated(self@),
            r matches Ok(a) ==> a.uri@ == self@.api_url + path@ && a.security_token@
                == self@.x_security_token,
            r matches Err(e) ==> e is NotAuthenticatedError,
    {
        if !self.is_authenticated() {
            return Err(RequestError::NotAuthenticatedError());
        }
        let uri = self.api_url.clone().concat(path);
        Ok(AuthorizedRequest { uri, security_token: self.x_security_token.clone() })
    }
}

/// Re-running the flow is not idempotent and nothing of a prior success is
/// cached: a second successful completion overwrites the session with the new
/// credential pair, and the outcome is the same as if the first had never
/// happened.
pub proof fn lemma_reauthentication_overwrites(
    cv: ClientView,
    t1: Seq<char>,
    s1: Seq<char>,
    t2: Seq<char>,
    s2: Seq<char>,
)
    ensures
        with_session(with_session(cv, t1, s1), t2, s2) == with_session(cv, t2, s2),
{
}

/// A completed flow never leaves a half-updated session: whatever held before,
/// after a successful completion the authenticated predicate depends on the
/// new pair alone.
pub proof fn lemma_session_update_atomic(cv: ClientView, token: Seq<char>, session_id: Seq<char>)
    ensures
        authenticated(with_session(cv, token, session_id)) <==> (token.len() > 0
            && session_id.len() > 0),
{
}

} // verus!
