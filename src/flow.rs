//! The two-hop authorization flow as a state machine. The browser side
//! classifies navigations and posts messages; the worker side checks each
//! redirect's CSRF state, asks for the network exchange that follows, and
//! reacts to its outcome. The network work itself happens outside: each
//! method here takes its outcome as an argument.

use vstd::prelude::*;

use crate::auth_url::{
    consent_url_fails, create_consent_url, is_fresh_consent_url, AuthConfig, AuthOptions,
    AuthOptionsView,
};
use crate::client::Tokens;
use crate::error::AuthError;
use crate::redirect::{parse_redirect, redirect_spec, RedirectView, Redirects};

verus! {

/// Reported when the launcher redirect's state is not the attempt's.
pub const AUTH_STATE_MISMATCH: &'static str = "Auth state parameter mismatch - possible CSRF attack";

/// Reported when a launcher redirect arrives while none is awaited.
pub const UNEXPECTED_AUTH_REDIRECT: &'static str = "Unexpected auth redirect";

/// Reported when tokens arrive while no code exchange is due.
pub const UNEXPECTED_TOKENS: &'static str = "Unexpected token response";

/// Reported when the consent redirect's state is not the kept one.
pub const CONSENT_STATE_MISMATCH: &'static str =
    "Consent state parameter mismatch - possible CSRF attack";

/// Reported when a consent redirect arrives with no consent state kept.
pub const NO_CONSENT_STATE: &'static str = "No consent state found - possible CSRF attack";

/// Where an authorization attempt stands.
#[derive(Debug, PartialEq, Eq, Structural)]
pub enum Phase {
    AwaitingAuthRedirect,
    ExchangingToken,
    AwaitingConsentRedirect,
    ExchangingConsent,
    Closed { success: bool },
}

/// A signal from the worker to the UI loop.
#[derive(Debug)]
pub enum CustomEvent {
    /// Close the window; the flow is over.
    Close,
    /// Navigate the browser surface to this URL.
    LoadUrl(String),
}

/// A classified redirect, as posted by the navigation handler to the worker.
#[derive(Debug)]
pub enum Message {
    AuthRedirect { code: String, state: String, options: AuthOptions },
    ConsentRedirect { id_token: String, state: String },
}

pub ghost enum MessageView {
    AuthRedirect { code: Seq<char>, state: Seq<char>, options: AuthOptionsView },
    ConsentRedirect { id_token: Seq<char>, state: Seq<char> },
}

impl View for Message {
    type V = MessageView;

    open spec fn view(&self) -> MessageView {
        match self {
            Message::AuthRedirect { code, state, options } => MessageView::AuthRedirect {
                code: code@,
                state: state@,
                options: options@,
            },
            Message::ConsentRedirect { id_token, state } => MessageView::ConsentRedirect {
                id_token: id_token@,
                state: state@,
            },
        }
    }
}

/// The message that a recognized redirect becomes, with the attempt's values.
pub open spec fn message_for(r: RedirectView, options: AuthOptionsView) -> MessageView {
    match r {
        RedirectView::Auth { code, state } => MessageView::AuthRedirect { code, state, options },
        RedirectView::Consent { id_token, state } => MessageView::ConsentRedirect {
            id_token,
            state,
        },
    }
}

/// What the authorization-code exchange is to be called with.
#[derive(Debug)]
pub struct TokenRequest {
    pub code: String,
    pub verifier: String,
}

/// Decides a navigation of the browser surface: a recognized redirect is
/// handed on as a message and the navigation is suppressed (`false`); any
/// other URL loads normally (`true`).
pub fn on_navigation(url: &str, options: &AuthOptions) -> (r: (bool, Option<Message>))
    ensures
        r.0 == (redirect_spec(url@) is None),
        match r.1 {
            Some(m) => redirect_spec(url@) matches Some(x) && m@ == message_for(x, options@),
            None => redirect_spec(url@) is None,
        },
{
    match parse_redirect(url) {
        Some(Redirects::Auth { code, state }) => {
            (false, Some(Message::AuthRedirect { code, state, options: options.snapshot() }))
        },
        Some(Redirects::Consent { id_token, state }) => {
            (false, Some(Message::ConsentRedirect { id_token, state }))
        },
        None => (true, None),
    }
}

/// The state of one authorization attempt on the worker side.
pub struct AuthFlow {
    pub phase: Phase,
    /// The state that the consent redirect must carry: set once the token
    /// exchange succeeded, and taken when the consent redirect is checked.
    pub consent_state: Option<String>,
}

impl AuthFlow {
    /// The consent state is held while the consent redirect is awaited; it
    /// may outlast that only in a closed flow. It is set once per attempt,
    /// and used up by its one check.
    pub open spec fn wf(&self) -> bool {
        &&& self.phase == Phase::AwaitingConsentRedirect ==> self.consent_state is Some
        &&& self.consent_state is Some ==> (self.phase == Phase::AwaitingConsentRedirect
            || self.phase is Closed)
    }

    /// A flow waiting for the first redirect.
    pub fn new() -> (r: AuthFlow)
        ensures
            r.phase == Phase::AwaitingAuthRedirect,
            r.consent_state is None,
            r.wf(),
    {
        AuthFlow { phase: Phase::AwaitingAuthRedirect, consent_state: None }
    }

    /// Ends the attempt with an error; the consent state is left as it is.
    fn fail(&mut self, message: &str) -> (r: AuthError)
        ensures
            final(self).phase == (Phase::Closed { success: false }),
            final(self).consent_state == old(self).consent_state,
            r matches AuthError::InvalidResponse(m) && m@ == message@,
    {
        self.phase = Phase::Closed { success: false };
        AuthError::InvalidResponse(message.to_owned())
    }

    /// Checks the launcher redirect against the attempt's state. While that
    /// redirect is awaited and the states match, the code exchange is due
    /// with the attempt's verifier; otherwise the flow closes with an error
    /// and no exchange is asked for. The consent state is never touched.
    pub fn handle_auth_redirect(&mut self, code: String, state: String, options: &AuthOptions) -> (r:
        Result<TokenRequest, AuthError>)
        ensures
            r is Ok <==> (old(self).phase == Phase::AwaitingAuthRedirect && state@
                == options.state@),
            final(self).consent_state == old(self).consent_state,
            old(self).wf() ==> final(self).wf(),
            match r {
                Ok(req) => req.code@ == code@ && req.verifier@ == options.verifier@
                    && final(self).phase == Phase::ExchangingToken,
                Err(e) => final(self).phase == (Phase::Closed { success: false })
                    && if old(self).phase != Phase::AwaitingAuthRedirect {
                    e matches AuthError::InvalidResponse(m) && m@ == UNEXPECTED_AUTH_REDIRECT@
                } else {
                    e matches AuthError::InvalidResponse(m) && m@ == AUTH_STATE_MISMATCH@
                },
            },
    {
        if self.phase != Phase::AwaitingAuthRedirect {
            return Err(self.fail(UNEXPECTED_AUTH_REDIRECT));
        }
        if !(state == options.state) {
            return Err(self.fail(AUTH_STATE_MISMATCH));
        }
        self.phase = Phase::ExchangingToken;
        Ok(TokenRequest { code, verifier: options.verifier.clone() })
    }

    /// Reacts to the outcome of the code exchange: on success the consent
    /// URL is built with a fresh state, which is kept for the consent check,
    /// and the browser is sent there; any failure, or tokens that no
    /// exchange was due for, closes the flow.
    pub fn token_received(&mut self, config: &AuthConfig, tokens: Result<Tokens, AuthError>) -> (r:
        Result<CustomEvent, AuthError>)
        ensures
            final(self).wf(),
            (tokens matches Ok(t) && old(self).phase == Phase::ExchangingToken
                && !consent_url_fails(config, t.id_token@)) ==> r matches Ok(
                CustomEvent::LoadUrl(_),
            ),
            match r {
                Ok(CustomEvent::LoadUrl(u)) => {
                    &&& old(self).phase == Phase::ExchangingToken
                    &&& final(self).phase == Phase::AwaitingConsentRedirect
                    &&& tokens matches Ok(t) && final(self).consent_state matches Some(st)
                        && is_fresh_consent_url(config, t.id_token@, st@, u@)
                },
                Ok(CustomEvent::Close) => false,
                Err(e) => final(self).phase == (Phase::Closed { success: false })
                    && final(self).consent_state == old(self).consent_state && match tokens {
                    Ok(t) => if old(self).phase == Phase::ExchangingToken {
                        e is InvalidUrl && consent_url_fails(config, t.id_token@)
                    } else {
                        e matches AuthError::InvalidResponse(m) && m@ == UNEXPECTED_TOKENS@
                    },
                    Err(te) => e == te,
                },
            },
    {
        let token_response = match tokens {
            Ok(t) => t,
            Err(e) => {
                self.phase = Phase::Closed { success: false };
                return Err(e);
            },
        };
        if self.phase != Phase::ExchangingToken {
            return Err(self.fail(UNEXPECTED_TOKENS));
        }
        match create_consent_url(config, token_response.id_token.as_str()) {
            Ok((consent_url, new_consent_state)) => {
                self.consent_state = Some(new_consent_state);
                self.phase = Phase::AwaitingConsentRedirect;
                Ok(CustomEvent::LoadUrl(consent_url))
            },
            Err(e) => {
                self.phase = Phase::Closed { success: false };
                Err(e)
            },
        }
    }

    /// Checks the consent redirect against the kept consent state, which is
    /// used up by the check. On a match the session exchange is due with the
    /// id token; with no kept state, or another one, the flow closes with an
    /// error and no session is asked for.
    pub fn handle_consent_redirect(&mut self, id_token: String, state: String) -> (r: Result<
        String,
        AuthError,
    >)
        ensures
            r is Ok <==> (old(self).consent_state matches Some(s) && s@ == state@),
            final(self).consent_state is None,
            final(self).wf(),
            match r {
                Ok(t) => t@ == id_token@ && final(self).phase == Phase::ExchangingConsent,
                Err(e) => final(self).phase == (Phase::Closed { success: false })
                    && match old(self).consent_state {
                    Some(_) => e matches AuthError::InvalidResponse(m) && m@
                        == CONSENT_STATE_MISMATCH@,
                    None => e matches AuthError::InvalidResponse(m) && m@ == NO_CONSENT_STATE@,
                },
            },
    {
        let expected_state = self.consent_state.take();
        match expected_state {
            Some(expected) => {
                if expected == state {
                    self.phase = Phase::ExchangingConsent;
                    Ok(id_token)
                } else {
                    Err(self.fail(CONSENT_STATE_MISMATCH))
                }
            },
            None => Err(self.fail(NO_CONSENT_STATE)),
        }
    }

    /// Reacts to the outcome of the session exchange, whose session has been
    /// persisted: success closes the window and ends the flow successfully.
    pub fn session_created(&mut self, outcome: Result<(), AuthError>) -> (r: Result<
        CustomEvent,
        AuthError,
    >)
        ensures
            final(self).consent_state == old(self).consent_state,
            final(self).wf(),
            match outcome {
                Ok(()) => r matches Ok(CustomEvent::Close) && final(self).phase == (Phase::Closed {
                    success: true,
                }),
                Err(e) => r == Err::<CustomEvent, AuthError>(e) && final(self).phase == (
                Phase::Closed { success: false }),
            },
    {
        match outcome {
            Ok(()) => {
                self.phase = Phase::Closed { success: true };
                Ok(CustomEvent::Close)
            },
            Err(e) => {
                self.phase = Phase::Closed { success: false };
                Err(e)
            },
        }
    }
}

/// What the worker sends to the UI loop after handling a message, and
/// whether it stops: an error always becomes `Close` and ends the worker.
pub fn reply_to_ui(result: Result<CustomEvent, AuthError>) -> (r: (CustomEvent, bool))
    ensures
        match result {
            Ok(CustomEvent::LoadUrl(u)) => r.0 matches CustomEvent::LoadUrl(v) && v@ == u@ && !r.1,
            Ok(CustomEvent::Close) => r.0 is Close && !r.1,
            Err(_) => r.0 is Close && r.1,
        },
{
    match result {
        Ok(event) => (event, false),
        Err(_) => (CustomEvent::Close, true),
    }
}

/// An event seen by the UI loop.
pub enum UiEvent {
    CloseRequested,
    Resized { width: u32, height: u32 },
    User(CustomEvent),
}

/// What the UI loop does about an event.
#[derive(Debug)]
pub enum UiCommand {
    Exit,
    SetBounds { width: u32, height: u32 },
    LoadUrl(String),
}

/// The UI loop's reaction: a close request or a close signal ends it, a
/// resize keeps the browser surface's bounds on the window, and a load
/// signal navigates the surface.
pub fn on_ui_event(event: UiEvent) -> (r: UiCommand)
    ensures
        match event {
            UiEvent::CloseRequested => r is Exit,
            UiEvent::User(CustomEvent::Close) => r is Exit,
            UiEvent::Resized { width, height } => r == (UiCommand::SetBounds { width, height }),
            UiEvent::User(CustomEvent::LoadUrl(u)) => r matches UiCommand::LoadUrl(v) && v@ == u@,
        },
{
    match event {
        UiEvent::CloseRequested => UiCommand::Exit,
        UiEvent::User(CustomEvent::Close) => UiCommand::Exit,
        UiEvent::Resized { width, height } => UiCommand::SetBounds { width, height },
        UiEvent::User(CustomEvent::LoadUrl(u)) => UiCommand::LoadUrl(u),
    }
}

} // verus!
