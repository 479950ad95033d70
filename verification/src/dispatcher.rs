//! The dispatcher: one attempt at logging in by one choice.
//!
//! An attempt is an exchange with two collaborators: the server endpoint,
//! which judges credentials and starts single sign-on, and the credentials
//! provider, which supplies secrets and follows redirects. The dispatcher
//! decides what to ask next; the caller asks it and brings the answer back.
//! The state of an attempt is the request that is outstanding.

use vstd::prelude::*;
use crate::choice::{ChoiceView, LoginChoice};
use crate::error::LoginError;
use crate::session::{Session, SessionView};

verus! {

/// What the dispatcher asks of a collaborator.
#[derive(Debug)]
pub enum Request {
    /// Of the credentials provider: an identifier and its secret.
    Credentials,
    /// Of the endpoint: authenticate with this identifier and secret.
    PasswordAuth { identifier: String, secret: String },
    /// Of the endpoint: start the single sign-on redirect, towards the
    /// given provider if one is named.
    SsoInitiation { provider: Option<String> },
    /// Of the credentials provider: follow the redirect and return the
    /// token that the callback delivers.
    SsoCallback { redirect: String },
    /// Of the endpoint: exchange this token for a session.
    TokenExchange { token: String },
}

/// The mathematical value of a [`Request`].
pub enum RequestView {
    Credentials,
    PasswordAuth { identifier: Seq<char>, secret: Seq<char> },
    SsoInitiation { provider: Option<Seq<char>> },
    SsoCallback { redirect: Seq<char> },
    TokenExchange { token: Seq<char> },
}

/// What a collaborator answered.
#[derive(Debug)]
pub enum Reply {
    /// The credentials provider supplied an identifier and its secret.
    Credentials { identifier: String, secret: String },
    /// The endpoint started single sign-on at this address.
    Redirect { url: String },
    /// The credentials provider obtained this token from the callback.
    Token { token: String },
    /// The endpoint accepted the login.
    Session { session: Session },
    /// The endpoint declined the submitted credential.
    Rejected,
    /// The transport failed.
    NetworkFailure,
}

/// The mathematical value of a [`Reply`].
pub enum ReplyView {
    Credentials { identifier: Seq<char>, secret: Seq<char> },
    Redirect { url: Seq<char> },
    Token { token: Seq<char> },
    Session { session: SessionView },
    Rejected,
    NetworkFailure,
}

/// Where an attempt stands after a reply.
#[derive(Debug)]
pub enum Progress {
    /// The attempt goes on: this request is now outstanding.
    Pending(Request),
    /// The attempt is over, with a session or with the reason it failed.
    Finished(Result<Session, LoginError>),
}

/// The mathematical value of a [`Progress`].
pub enum ProgressView {
    Pending(RequestView),
    Finished(Result<SessionView, LoginError>),
}

impl View for Request {
    type V = RequestView;

    open spec fn view(&self) -> RequestView {
        match self {
            Request::Credentials => RequestView::Credentials,
            Request::PasswordAuth { identifier, secret } => RequestView::PasswordAuth {
                identifier: identifier@,
                secret: secret@,
            },
            Request::SsoInitiation { provider } => RequestView::SsoInitiation {
                provider: match provider {
                    Some(id) => Some(id@),
                    None => None,
                },
            },
            Request::SsoCallback { redirect } => RequestView::SsoCallback { redirect: redirect@ },
            Request::TokenExchange { token } => RequestView::TokenExchange { token: token@ },
        }
    }
}

impl View for Reply {
    type V = ReplyView;

    open spec fn view(&self) -> ReplyView {
        match self {
            Reply::Credentials { identifier, secret } => ReplyView::Credentials {
                identifier: identifier@,
                secret: secret@,
            },
            Reply::Redirect { url } => ReplyView::Redirect { url: url@ },
            Reply::Token { token } => ReplyView::Token { token: token@ },
            Reply::Session { session } => ReplyView::Session { session: session@ },
            Reply::Rejected => ReplyView::Rejected,
            Reply::NetworkFailure => ReplyView::NetworkFailure,
        }
    }
}

impl View for Progress {
    type V = ProgressView;

    open spec fn view(&self) -> ProgressView {
        match self {
            Progress::Pending(request) => ProgressView::Pending(request@),
            Progress::Finished(Ok(session)) => ProgressView::Finished(Ok(session@)),
            Progress::Finished(Err(reason)) => ProgressView::Finished(Err(*reason)),
        }
    }
}

impl ChoiceView {
    /// The request that opens an attempt by this choice.
    ///
    /// A password login begins by asking for credentials. Single sign-on
    /// begins at the endpoint, and passes the provider's identifier along
    /// when the choice names a provider.
    pub open spec fn first_request(self) -> RequestView {
        match self {
            ChoiceView::Password => RequestView::Credentials,
            ChoiceView::GenericSso => RequestView::SsoInitiation { provider: None },
            ChoiceView::SsoVia(provider) => RequestView::SsoInitiation {
                provider: Some(provider.id),
            },
        }
    }
}

impl ReplyView {
    /// The failure that this reply reports, if it reports one.
    pub open spec fn failure(self) -> Option<LoginError> {
        match self {
            ReplyView::Rejected => Some(LoginError::Rejected),
            ReplyView::NetworkFailure => Some(LoginError::Network),
            _ => None,
        }
    }
}

impl RequestView {
    /// Where the attempt stands once `reply` has come in while this request
    /// was outstanding.
    ///
    /// A reply that reports a failure ends the attempt with that failure,
    /// whatever was outstanding: there is no retry and no other choice is
    /// tried. Otherwise a reply that answers the outstanding request moves
    /// the attempt on, and a session ends it when it answers an
    /// authentication. Any other reply is dropped and the request stays
    /// outstanding.
    pub open spec fn answered_by(self, reply: ReplyView) -> ProgressView {
        match (self, reply) {
            (_, ReplyView::Rejected) => ProgressView::Finished(Err(LoginError::Rejected)),
            (_, ReplyView::NetworkFailure) => ProgressView::Finished(Err(LoginError::Network)),
            (RequestView::Credentials, ReplyView::Credentials { identifier, secret }) => {
                ProgressView::Pending(RequestView::PasswordAuth { identifier, secret })
            },
            (RequestView::PasswordAuth { .. }, ReplyView::Session { session }) => {
                ProgressView::Finished(Ok(session))
            },
            (RequestView::SsoInitiation { .. }, ReplyView::Redirect { url }) => {
                ProgressView::Pending(RequestView::SsoCallback { redirect: url })
            },
            (RequestView::SsoCallback { .. }, ReplyView::Token { token }) => {
                ProgressView::Pending(RequestView::TokenExchange { token })
            },
            (RequestView::TokenExchange { .. }, ReplyView::Session { session }) => {
                ProgressView::Finished(Ok(session))
            },
            _ => ProgressView::Pending(self),
        }
    }

    /// Whether the outstanding request submits a credential to the
    /// endpoint, so that a session can answer it.
    pub open spec fn authenticates(self) -> bool {
        self is PasswordAuth || self is TokenExchange
    }

    /// Whether `reply` is the kind of answer this request waits for.
    pub open spec fn expects(self, reply: ReplyView) -> bool {
        match self {
            RequestView::Credentials => reply is Credentials,
            RequestView::PasswordAuth { .. } => reply is Session,
            RequestView::SsoInitiation { .. } => reply is Redirect,
            RequestView::SsoCallback { .. } => reply is Token,
            RequestView::TokenExchange { .. } => reply is Session,
        }
    }
}

/// Dispatching single sign-on through a provider passes that provider's
/// identifier to the endpoint's initiation call; the generic choice passes
/// none.
pub proof fn lemma_sso_initiation_names_provider(choice: ChoiceView)
    ensures
        choice matches ChoiceView::SsoVia(provider) ==> choice.first_request() == (
        RequestView::SsoInitiation { provider: Some(provider.id) }),
        choice is GenericSso ==> choice.first_request() == (RequestView::SsoInitiation {
            provider: None,
        }),
        choice is Password ==> choice.first_request() == RequestView::Credentials,
{
}

/// A password attempt asks for credentials, submits exactly what the
/// provider supplied, and ends with what the endpoint decides: the session
/// when they are accepted, a rejection when they are wrong. A rejected
/// attempt is never authenticated.
pub proof fn lemma_password_attempt(
    identifier: Seq<char>,
    secret: Seq<char>,
    session: SessionView,
)
    ensures
        ({
            let asked = ChoiceView::Password.first_request();
            let submitted = RequestView::PasswordAuth { identifier, secret };
            &&& asked == RequestView::Credentials
            &&& asked.answered_by(ReplyView::Credentials { identifier, secret })
                == ProgressView::Pending(submitted)
            &&& submitted.answered_by(ReplyView::Session { session }) == ProgressView::Finished(
                Ok(session),
            )
            &&& submitted.answered_by(ReplyView::Rejected) == ProgressView::Finished(
                Err(LoginError::Rejected),
            )
            &&& submitted.answered_by(ReplyView::NetworkFailure) == ProgressView::Finished(
                Err(LoginError::Network),
            )
        }),
{
}

/// A single sign-on attempt starts the redirect at the endpoint, hands the
/// redirect to the credentials provider, and exchanges the token that
/// comes back for a session.
pub proof fn lemma_sso_attempt(
    choice: ChoiceView,
    url: Seq<char>,
    token: Seq<char>,
    session: SessionView,
)
    requires
        choice is GenericSso || choice is SsoVia,
    ensures
        ({
            let started = choice.first_request();
            let followed = RequestView::SsoCallback { redirect: url };
            let exchanged = RequestView::TokenExchange { token };
            &&& started is SsoInitiation
            &&& started.answered_by(ReplyView::Redirect { url }) == ProgressView::Pending(followed)
            &&& followed.answered_by(ReplyView::Token { token }) == ProgressView::Pending(exchanged)
            &&& exchanged.answered_by(ReplyView::Session { session }) == ProgressView::Finished(
                Ok(session),
            )
            &&& exchanged.answered_by(ReplyView::Rejected) == ProgressView::Finished(
                Err(LoginError::Rejected),
            )
        }),
{
}

/// An attempt is a single attempt: a reply that reports a failure ends it
/// with that failure whatever was outstanding, and it fails in no other
/// way. So an attempt only ever fails as rejected or for the network.
pub proof fn lemma_attempt_fails_by_reply(request: RequestView, reply: ReplyView)
    ensures
        reply.failure() matches Some(reason) ==> request.answered_by(reply)
            == ProgressView::Finished(Err(reason)),
        request.answered_by(reply) matches ProgressView::Finished(Err(reason)) ==> reply.failure()
            == Some(reason) && reason.recoverable(),
{
}

/// An attempt succeeds only when a session answers an authentication
/// request, and then with that very session.
pub proof fn lemma_attempt_succeeds_by_session(request: RequestView, reply: ReplyView)
    ensures
        request.answered_by(reply) matches ProgressView::Finished(Ok(session))
            ==> request.authenticates() && reply == (ReplyView::Session { session }),
        request.authenticates() && reply is Session ==> request.answered_by(reply)
            == ProgressView::Finished(Ok(reply->session)),
{
}

/// A reply that neither reports a failure nor answers the outstanding
/// request is dropped: the request stays outstanding.
pub proof fn lemma_stray_reply_is_dropped(request: RequestView, reply: ReplyView)
    ensures
        request.answered_by(reply) is Pending ==> (request.answered_by(reply)->Pending_0 == request
            || request.expects(reply)),
        !request.expects(reply) && reply.failure() is None ==> request.answered_by(reply)
            == ProgressView::Pending(request),
{
}

impl LoginChoice {
    /// Begins an attempt to log in by this choice: returns the first
    /// request to make.
    pub fn login(&self) -> (request: Request)
        ensures
            request@ == self@.first_request(),
    {
        match self {
            LoginChoice::Password => Request::Credentials,
            LoginChoice::GenericSso => Request::SsoInitiation { provider: None },
            LoginChoice::SsoVia(provider) => Request::SsoInitiation {
                provider: Some(provider.id.clone()),
            },
        }
    }
}

impl Request {
    /// Takes the reply that came in while this request was outstanding and
    /// says where the attempt stands now.
    pub fn answer(self, reply: Reply) -> (progress: Progress)
        ensures
            progress@ == self@.answered_by(reply@),
    {
        match (self, reply) {
            (_, Reply::Rejected) => Progress::Finished(Err(LoginError::Rejected)),
            (_, Reply::NetworkFailure) => Progress::Finished(Err(LoginError::Network)),
            (Request::Credentials, Reply::Credentials { identifier, secret }) => {
                Progress::Pending(Request::PasswordAuth { identifier, secret })
            },
            (Request::PasswordAuth { .. }, Reply::Session { session }) => {
                Progress::Finished(Ok(session))
            },
            (Request::SsoInitiation { .. }, Reply::Redirect { url }) => {
                Progress::Pending(Request::SsoCallback { redirect: url })
            },
            (Request::SsoCallback { .. }, Reply::Token { token }) => {
                Progress::Pending(Request::TokenExchange { token })
            },
            (Request::TokenExchange { .. }, Reply::Session { session }) => {
                Progress::Finished(Ok(session))
            },
            (request, _) => Progress::Pending(request),
        }
    }
}

} // verus!
