use vstd::prelude::*;
use crate::AuthError;
use crate::query::{callback_code, code_of, form_decoded, query_part};
use crate::text::{decimal, push_decimal};

verus! {

/// The port that the callback listener uses when the redirect URI names none.
pub const DEFAULT_CALLBACK_PORT: u16 = 8888;

/// The page sent back to the browser once the callback has been handled.
pub const CONFIRMATION_PAGE: &'static str = "<h1>Authorization complete</h1><p>You can close this window.</p>";

/// What parsing a text as an absolute URL gives: `None` where it is not one, else the
/// port that the URL names explicitly (`None` where it names none or the scheme's default).
pub uninterp spec fn url_port(s: Seq<char>) -> Option<Option<u16>>;

/// Relies on url::Url::parse, which accepts absolute URLs only, and url::Url::port,
/// which gives the explicit non-default port.
#[verifier::external_body]
fn parse_url_port(s: &str) -> (r: Option<Option<u16>>)
    ensures
        r == url_port(s@),
{
    match url::Url::parse(s) {
        Ok(u) => Some(u.port()),
        Err(_) => None,
    }
}

/// The callback port for a parsed redirect URI: a URI that did not parse is a
/// configuration error; one without an explicit port gets the default.
pub open spec fn port_spec(parsed: Option<Option<u16>>) -> Result<u16, AuthError> {
    match parsed {
        None => Err(AuthError::Config),
        Some(None) => Ok(DEFAULT_CALLBACK_PORT),
        Some(Some(p)) => Ok(p),
    }
}

/// The callback port for the result of parsing the redirect URI.
pub fn port_from_parsed(parsed: Option<Option<u16>>) -> (r: Result<u16, AuthError>)
    ensures
        r == port_spec(parsed),
{
    match parsed {
        None => Err(AuthError::Config),
        Some(None) => Ok(DEFAULT_CALLBACK_PORT),
        Some(Some(p)) => Ok(p),
    }
}

/// The port that the callback listener binds for `redirect_uri`.
pub fn callback_port(redirect_uri: &str) -> (r: Result<u16, AuthError>)
    ensures
        r == port_spec(url_port(redirect_uri@)),
{
    port_from_parsed(parse_url_port(redirect_uri))
}

/// The loopback address `127.0.0.1:<port>` that the callback listener binds.
pub open spec fn address_spec(port: u16) -> Seq<char> {
    "127.0.0.1:"@ + decimal(port as nat)
}

/// The loopback address that the callback listener binds for `port`.
pub fn listen_address(port: u16) -> (r: String)
    ensures
        r@ == address_spec(port),
{
    let mut out = String::from_str("127.0.0.1:");
    push_decimal(&mut out, port as u64);
    out
}

/// The states of the single-shot callback listener.
#[derive(Debug)]
pub enum ListenerState {
    /// Not bound yet.
    Idle,
    /// Bound and waiting for the one request.
    Listening,
    /// The request carried this authorization code.
    CodeCaptured(String),
    /// The request carried no `code` parameter.
    NoCode,
    /// Released; nothing more is handled.
    Stopped,
}

/// The single-shot callback listener: it is bound once, handles at most one
/// request, and is stopped afterwards.
pub struct CallbackListener {
    pub state: ListenerState,
}

/// The mathematical view of a listener state.
pub enum Phase {
    Idle,
    Listening,
    CodeCaptured(Seq<char>),
    NoCode,
    Stopped,
}

impl View for ListenerState {
    type V = Phase;

    open spec fn view(&self) -> Phase {
        match self {
            ListenerState::Idle => Phase::Idle,
            ListenerState::Listening => Phase::Listening,
            ListenerState::CodeCaptured(c) => Phase::CodeCaptured(c@),
            ListenerState::NoCode => Phase::NoCode,
            ListenerState::Stopped => Phase::Stopped,
        }
    }
}

impl View for CallbackListener {
    type V = Phase;

    open spec fn view(&self) -> Phase {
        self.state@
    }
}

/// Binding: an idle listener whose bind succeeded starts listening; a failed bind
/// stops it. Any other state is left as it is.
pub open spec fn bind_spec(p: Phase, bound: bool) -> Phase {
    match p {
        Phase::Idle => if bound { Phase::Listening } else { Phase::Stopped },
        _ => p,
    }
}

/// Handling a request to `target`: only a listening listener takes it, and it records
/// the first `code` parameter of the query, or that there was none. Any other state
/// ignores the request.
pub open spec fn receive_spec(p: Phase, target: Seq<char>) -> Phase {
    match p {
        Phase::Listening => match code_of(form_decoded(query_part(target))) {
            Some(c) => Phase::CodeCaptured(c),
            None => Phase::NoCode,
        },
        _ => p,
    }
}

/// The outcome of the callback step once the listener stops: the captured code, or
/// an authorization-flow error where no code was captured.
pub open spec fn outcome_spec(p: Phase) -> Result<Seq<char>, AuthError> {
    match p {
        Phase::CodeCaptured(c) => Ok(c),
        _ => Err(AuthError::AuthFlow),
    }
}

impl CallbackListener {
    /// A listener that is not bound yet.
    pub fn new() -> (r: CallbackListener)
        ensures
            r@ == Phase::Idle,
    {
        CallbackListener { state: ListenerState::Idle }
    }

    /// Records the result of binding the listener's port. A failed bind is a bind error.
    pub fn bound(&mut self, ok: bool) -> (r: Result<(), AuthError>)
        ensures
            final(self)@ == bind_spec(old(self)@, ok),
            r == (if old(self)@ is Idle && !ok { Err(AuthError::Bind) } else { Ok::<(), AuthError>(()) }),
    {
        match self.state {
            ListenerState::Idle => {
                if ok {
                    self.state = ListenerState::Listening;
                    Ok(())
                } else {
                    self.state = ListenerState::Stopped;
                    Err(AuthError::Bind)
                }
            },
            _ => Ok(()),
        }
    }

    /// Handles a request to `target`. Returns whether the request was taken: only the
    /// first request that reaches a listening listener is.
    pub fn receive(&mut self, target: &str) -> (r: bool)
        ensures
            final(self)@ == receive_spec(old(self)@, target@),
            r == (old(self)@ is Listening),
    {
        match self.state {
            ListenerState::Listening => {
                match callback_code(target) {
                    Some(c) => {
                        self.state = ListenerState::CodeCaptured(c);
                    },
                    None => {
                        self.state = ListenerState::NoCode;
                    },
                }
                true
            },
            _ => false,
        }
    }

    /// Stops the listener and hands out the captured code, or an authorization-flow
    /// error where none was captured.
    pub fn finish(&mut self) -> (r: Result<String, AuthError>)
        ensures
            final(self)@ == Phase::Stopped,
            match r {
                Ok(c) => outcome_spec(old(self)@) == Ok::<Seq<char>, AuthError>(c@),
                Err(e) => outcome_spec(old(self)@) == Err::<Seq<char>, AuthError>(e),
            },
    {
        let r = match &self.state {
            ListenerState::CodeCaptured(c) => Ok(c.clone()),
            _ => Err(AuthError::AuthFlow),
        };
        self.state = ListenerState::Stopped;
        r
    }
}

/// Once a listener has taken a request, a second request changes nothing: at most
/// one authorization code is accepted per run.
pub proof fn lemma_single_request(p: Phase, first: Seq<char>, second: Seq<char>)
    requires
        p is Listening,
    ensures
        receive_spec(receive_spec(p, first), second) == receive_spec(p, first),
        !(receive_spec(p, first) is Listening),
{
}

/// A callback whose query has no `code` parameter ends the flow with an
/// authorization-flow error, so no token exchange follows.
pub proof fn lemma_no_code_fails(target: Seq<char>)
    requires
        code_of(form_decoded(query_part(target))) is None,
    ensures
        outcome_spec(receive_spec(Phase::Listening, target)) == Err::<Seq<char>, AuthError>(AuthError::AuthFlow),
{
}

/// A callback whose query has a `code` parameter hands that code to the token exchange.
pub proof fn lemma_code_captured(target: Seq<char>, code: Seq<char>)
    requires
        code_of(form_decoded(query_part(target))) == Some(code),
    ensures
        outcome_spec(receive_spec(Phase::Listening, target)) == Ok::<Seq<char>, AuthError>(code),
{
}

} // verus!
