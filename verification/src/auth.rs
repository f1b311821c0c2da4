//! The user that a request's bearer token belongs to.

use vstd::pervasive::unreached;
use vstd::prelude::*;

use crate::model::{outcome, User, UserView};
use crate::text::{header_bytes, optional_header_text, read_header, strip_prefix, stripped};

verus! {

/// What the access keys say of a token.
#[derive(Debug, PartialEq, Eq)]
pub enum ClaimLookup {
    /// There are no keys to hold it against.
    KeysUnavailable,
    /// It is not valid.
    Rejected,
    /// It claims nothing.
    Unclaimed,
    /// It is that of a user.
    Claimed { name: String, email: String },
}

/// The model of a `ClaimLookup`.
pub enum ClaimLookupView {
    KeysUnavailable,
    Rejected,
    Unclaimed,
    Claimed { name: Seq<char>, email: Seq<char> },
}

impl DeepView for ClaimLookup {
    type V = ClaimLookupView;

    open spec fn deep_view(&self) -> ClaimLookupView {
        match self {
            ClaimLookup::KeysUnavailable => ClaimLookupView::KeysUnavailable,
            ClaimLookup::Rejected => ClaimLookupView::Rejected,
            ClaimLookup::Unclaimed => ClaimLookupView::Unclaimed,
            ClaimLookup::Claimed { name, email } => ClaimLookupView::Claimed {
                name: name@,
                email: email@,
            },
        }
    }
}

/// How far an authentication has come.
#[derive(Debug, PartialEq, Eq)]
pub enum AuthState {
    Start,
    AwaitClaim,
    Done,
}

/// What an authentication is told.
#[derive(Debug, PartialEq, Eq)]
pub enum AuthEvent<E> {
    /// The `authorization` header of the request.
    Received(Option<Vec<u8>>),
    Claim(Result<ClaimLookup, E>),
}

/// The model of an `AuthEvent`.
pub enum AuthEventView<E> {
    Received(Option<Seq<u8>>),
    Claim(Result<ClaimLookupView, E>),
}

impl<E> DeepView for AuthEvent<E> {
    type V = AuthEventView<E>;

    open spec fn deep_view(&self) -> AuthEventView<E> {
        match self {
            AuthEvent::Received(header) => AuthEventView::Received(header_bytes(*header)),
            AuthEvent::Claim(lookup) => AuthEventView::Claim(outcome(*lookup)),
        }
    }
}

/// What an authentication asks for next; `Finish` ends it.
#[derive(Debug, PartialEq, Eq)]
pub enum AuthAction<E> {
    /// Hold the token against the access keys.
    LookUpClaim { token: String },
    Finish(Result<Option<User>, E>),
}

/// The model of an `AuthAction`.
pub enum AuthActionView<E> {
    LookUpClaim { token: Seq<char> },
    Finish(Result<Option<UserView>, E>),
}

impl<E> DeepView for AuthAction<E> {
    type V = AuthActionView<E>;

    open spec fn deep_view(&self) -> AuthActionView<E> {
        match self {
            AuthAction::LookUpClaim { token } => AuthActionView::LookUpClaim { token: token@ },
            AuthAction::Finish(user) => AuthActionView::Finish(outcome(*user)),
        }
    }
}

/// The bearer token in an `authorization` header.
pub open spec fn bearer_token(header: Option<Seq<u8>>) -> Option<Seq<char>> {
    match optional_header_text(header) {
        Some(text) => stripped(text, "Bearer "@),
        None => None,
    }
}

/// Reads the bearer token of an `authorization` header.
pub fn read_bearer_token(header: &Option<Vec<u8>>) -> (token: Option<String>)
    ensures
        token.deep_view() == bearer_token(header_bytes(*header)),
{
    match read_header(header) {
        Some(text) => strip_prefix(text.as_str(), "Bearer "),
        None => None,
    }
}

/// The user that a lookup found. Without keys there is no authentication, so that is no
/// error; nor is a token that is not valid.
pub open spec fn claimed_user(lookup: ClaimLookupView) -> Option<UserView> {
    match lookup {
        ClaimLookupView::Claimed { name, email } => Some(UserView { name, email }),
        _ => None,
    }
}

/// Whether an event can follow in a state: it is the one that the last action asked for.
pub open spec fn auth_expects<E>(state: AuthState, event: AuthEventView<E>) -> bool {
    match state {
        AuthState::Start => event is Received,
        AuthState::AwaitClaim => event is Claim,
        AuthState::Done => false,
    }
}

/// What an authentication does on an event.
pub open spec fn auth_step<E>(state: AuthState, event: AuthEventView<E>) -> (
    AuthState,
    AuthActionView<E>,
) {
    match (state, event) {
        (AuthState::Start, AuthEventView::Received(header)) => match bearer_token(header) {
            Some(token) => (AuthState::AwaitClaim, AuthActionView::LookUpClaim { token }),
            None => (AuthState::Done, AuthActionView::Finish(Ok(None))),
        },
        (AuthState::AwaitClaim, AuthEventView::Claim(lookup)) => (
            AuthState::Done,
            AuthActionView::Finish(
                match lookup {
                    Err(error) => Err(error),
                    Ok(lookup) => Ok(claimed_user(lookup)),
                },
            ),
        ),
        _ => arbitrary(),
    }
}

/// Finds the authenticated user of a request: takes the authentication one event further.
pub fn get_authenticated_user<E>(state: AuthState, event: AuthEvent<E>) -> (step: (
    AuthState,
    AuthAction<E>,
))
    requires
        auth_expects(state, event.deep_view()),
    ensures
        (step.0, step.1.deep_view()) == auth_step(state, event.deep_view()),
{
    match (state, event) {
        (AuthState::Start, AuthEvent::Received(header)) => match read_bearer_token(&header) {
            Some(token) => (AuthState::AwaitClaim, AuthAction::LookUpClaim { token }),
            None => (AuthState::Done, AuthAction::Finish(Ok(None))),
        },
        (AuthState::AwaitClaim, AuthEvent::Claim(lookup)) => match lookup {
            Err(error) => (AuthState::Done, AuthAction::Finish(Err(error))),
            Ok(ClaimLookup::Claimed { name, email }) => (
                AuthState::Done,
                AuthAction::Finish(Ok(Some(User { name, email }))),
            ),
            Ok(_) => (AuthState::Done, AuthAction::Finish(Ok(None))),
        },
        _ => unreached(),
    }
}

/// What the authentication of a request ends with, where `claims` says what the access keys
/// say of each token.
pub open spec fn auth_result<E>(
    claims: spec_fn(Seq<char>) -> Result<ClaimLookupView, E>,
    header: Option<Seq<u8>>,
) -> AuthActionView<E> {
    let (state, action) = auth_step::<E>(AuthState::Start, AuthEventView::Received(header));
    match action {
        AuthActionView::LookUpClaim { token } => auth_step(
            state,
            AuthEventView::Claim(claims(token)),
        ).1,
        _ => action,
    }
}

/// A request has an authenticated user exactly where its `authorization` header is `Bearer `
/// and a token that the access keys know as a user's, and then that is the user. A request
/// without a token is never held against the keys and never fails.
pub proof fn law_user_is_the_one_of_the_token<E>(
    claims: spec_fn(Seq<char>) -> Result<ClaimLookupView, E>,
    header: Option<Seq<u8>>,
)
    ensures
        auth_result(claims, header) == AuthActionView::Finish(
            match bearer_token(header) {
                None => Ok(None),
                Some(token) => match claims(token) {
                    Err(error) => Err(error),
                    Ok(ClaimLookupView::Claimed { name, email }) => Ok(
                        Some(UserView { name, email }),
                    ),
                    Ok(_) => Ok(None),
                },
            },
        ),
        bearer_token(header) matches Some(token) ==> optional_header_text(header) == Some(
            "Bearer "@ + token,
        ),
{
    if let Some(text) = optional_header_text(header) {
        if let Some(token) = stripped(text, "Bearer "@) {
            assert(text == "Bearer "@ + token);
        }
    }
}

} // verus!
