//! The guard in front of the writing side of the service: a request passes
//! only with a token that a session answers for.

use crate::database::Session;
use crate::text::optional_text;
use vstd::prelude::*;
use vstd::string::StringExecFns;

verus! {

/// The status with which the guard turns a request away.
pub const UNAUTHORIZED: u16 = 401;

/// Why the guard turned a request away.
#[derive(Clone, Copy, Debug, PartialEq, Eq, Structural)]
pub enum AuthError {
    /// The request carried no authorization header.
    MissingHeader,
    /// The session store could not be asked. The cause goes to the log, not
    /// to the caller.
    LookupFailed,
    /// No session answers for the token. Nothing tells the caller whether
    /// the token was malformed, unknown or expired.
    InvalidToken,
}

/// What the caller is told of a refusal.
pub open spec fn error_text(error: AuthError) -> Seq<char> {
    match error {
        AuthError::MissingHeader => "Authorization header required"@,
        AuthError::LookupFailed => "Token validation error"@,
        AuthError::InvalidToken => "Invalid or expired token"@,
    }
}

impl AuthError {
    /// What the caller is told.
    pub fn message(&self) -> (text: String)
        ensures
            text@ == error_text(*self),
    {
        match self {
            AuthError::MissingHeader => String::from_str("Authorization header required"),
            AuthError::LookupFailed => String::from_str("Token validation error"),
            AuthError::InvalidToken => String::from_str("Invalid or expired token"),
        }
    }

    /// The status of the response: the same for every refusal.
    pub fn status(&self) -> (code: u16)
        ensures
            code == UNAUTHORIZED,
    {
        UNAUTHORIZED
    }
}

/// What the session store answered when asked for a token.
#[derive(Debug)]
pub enum SessionLookup {
    /// The store could not be asked.
    Failed,
    /// No session has the token.
    NotFound,
    /// The session that has the token.
    Found(Session),
}

/// What the guard does with a request once it has looked at its header.
#[derive(Debug)]
pub enum AuthStep {
    /// Turn the request away; nothing behind the guard sees it.
    Reject(AuthError),
    /// Ask the session store for this token.
    Resolve(String),
}

/// The first step for a request with this authorization header.
pub open spec fn first_step(authorization: Option<Seq<char>>) -> Result<Seq<char>, AuthError> {
    match authorization {
        None => Err(AuthError::MissingHeader),
        Some(token) => Ok(token),
    }
}

/// The user that a token stands for, by the store's answer.
pub open spec fn resolved_user(lookup: SessionLookup) -> Result<Seq<char>, AuthError> {
    match lookup {
        SessionLookup::Failed => Err(AuthError::LookupFailed),
        SessionLookup::NotFound => Err(AuthError::InvalidToken),
        SessionLookup::Found(session) => Ok(session.user_id@),
    }
}

/// The user under whose name a request goes on behind the guard, or the
/// refusal. The store is asked only for a request that carries a token.
pub open spec fn admitted_user(authorization: Option<Seq<char>>, lookup: SessionLookup) -> Result<
    Seq<char>,
    AuthError,
> {
    match first_step(authorization) {
        Err(error) => Err(error),
        Ok(_) => resolved_user(lookup),
    }
}

/// Turns the store's answer for a token into the user that the request
/// acts for, or into the refusal.
pub fn validate_token(lookup: SessionLookup) -> (user: Result<String, AuthError>)
    ensures
        match user {
            Ok(user_id) => resolved_user(lookup) == Ok::<Seq<char>, AuthError>(user_id@),
            Err(error) => resolved_user(lookup) == Err::<Seq<char>, AuthError>(error),
        },
{
    match lookup {
        SessionLookup::Failed => Err(AuthError::LookupFailed),
        SessionLookup::NotFound => Err(AuthError::InvalidToken),
        SessionLookup::Found(session) => Ok(session.user_id),
    }
}

/// The guard, before it is put in front of a service.
#[derive(Clone, Copy, Debug)]
pub struct AuthenticationMiddleware;

/// The guard in front of `service`.
pub struct AuthenticationMiddlewareService<S> {
    pub service: S,
}

impl AuthenticationMiddleware {
    /// Puts the guard in front of `service`.
    pub fn new_transform<S>(&self, service: S) -> (guard: AuthenticationMiddlewareService<S>)
        ensures
            guard.service == service,
    {
        AuthenticationMiddlewareService { service }
    }
}

impl<S> AuthenticationMiddlewareService<S> {
    /// Looks at the authorization header of a request. Without one the
    /// request is turned away at once; with one, the whole of it is the
    /// token to resolve.
    pub fn call(&self, authorization: Option<String>) -> (step: AuthStep)
        ensures
            match step {
                AuthStep::Reject(error) => first_step(optional_text(authorization)) == Err::<
                    Seq<char>,
                    AuthError,
                >(error),
                AuthStep::Resolve(token) => first_step(optional_text(authorization)) == Ok::<
                    Seq<char>,
                    AuthError,
                >(token@),
            },
    {
        match authorization {
            Some(token) => AuthStep::Resolve(token),
            None => AuthStep::Reject(AuthError::MissingHeader),
        }
    }

    /// Decides on a request whose token the store has answered for: the
    /// user that it goes on as, or the refusal.
    pub fn resolve(&self, lookup: SessionLookup) -> (user: Result<String, AuthError>)
        ensures
            match user {
                Ok(user_id) => resolved_user(lookup) == Ok::<Seq<char>, AuthError>(user_id@),
                Err(error) => resolved_user(lookup) == Err::<Seq<char>, AuthError>(error),
            },
    {
        validate_token(lookup)
    }
}

/// A request without an authorization header is turned away, whatever the
/// session store would have said.
pub proof fn law_missing_header_is_rejected(lookup: SessionLookup)
    ensures
        admitted_user(None, lookup) == Err::<Seq<char>, AuthError>(AuthError::MissingHeader),
{
}

/// A token that no session answers for is turned away, and the refusal is
/// the same for every such token.
pub proof fn law_unknown_token_is_rejected(token: Seq<char>, other: Seq<char>)
    ensures
        admitted_user(Some(token), SessionLookup::NotFound) == Err::<Seq<char>, AuthError>(
            AuthError::InvalidToken,
        ),
        admitted_user(Some(token), SessionLookup::NotFound) == admitted_user(
            Some(other),
            SessionLookup::NotFound,
        ),
{
}

/// A request goes on behind the guard only with a header and a session, and
/// then as the user of that session.
pub proof fn law_admission_needs_a_session(
    authorization: Option<Seq<char>>,
    lookup: SessionLookup,
)
    requires
        admitted_user(authorization, lookup) is Ok,
    ensures
        authorization is Some,
        lookup is Found,
        admitted_user(authorization, lookup) == Ok::<Seq<char>, AuthError>(lookup->Found_0.user_id@),
{
}

} // verus!
