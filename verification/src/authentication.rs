//! The authentication stage: it reads the `Authorization` header of a request,
//! checks the presented key against the registry, and either binds the
//! resolved username into the request context or rejects the request.

use crate::registry::AppState;
use crate::text::{header_text, header_to_text, strip_prefix, trimmed};
use vstd::prelude::*;

verus! {

/// The status of every rejected request.
pub const UNAUTHORIZED: u16 = 401;

/// Why a request was turned away. The reason is for the operator's log; the
/// client sees the same status whatever it is.
#[derive(Debug, Clone, Copy, PartialEq, Eq, Structural)]
pub enum AuthError {
    /// The request carries no readable `Authorization` header.
    MissingCredential,
    /// The header is not `Bearer ` followed by a key.
    MalformedCredential,
    /// The presented key is not in the registry.
    InvalidCredential,
    /// A handler asked for the identity of a request that never passed the
    /// authentication stage.
    Unauthenticated,
}

impl AuthError {
    /// The status that the client sees: the same for every reason.
    pub fn status_code(&self) -> (code: u16)
        ensures
            code == UNAUTHORIZED,
    {
        UNAUTHORIZED
    }

    /// The line that the operator's log gets for this reason.
    pub fn log_line(&self) -> (line: &'static str)
        ensures
            line@ == match *self {
                AuthError::MissingCredential => "Missing Authorization header"@,
                AuthError::MalformedCredential => "Malformed Authorization header"@,
                AuthError::InvalidCredential => "Invalid API key"@,
                AuthError::Unauthenticated => "No authenticated identity"@,
            },
    {
        match self {
            AuthError::MissingCredential => "Missing Authorization header",
            AuthError::MalformedCredential => "Malformed Authorization header",
            AuthError::InvalidCredential => "Invalid API key",
            AuthError::Unauthenticated => "No authenticated identity",
        }
    }
}

/// What the pipeline knows of one request: the raw value of its
/// `Authorization` header, if it has one, and the identity that the
/// authentication stage bound, if it did.
#[derive(Debug)]
pub struct RequestContext {
    pub authorization: Option<Vec<u8>>,
    pub identity: Option<String>,
}

/// What a `RequestContext` stands for.
pub struct RequestView {
    pub authorization: Option<Seq<u8>>,
    pub identity: Option<Seq<char>>,
}

impl View for RequestContext {
    type V = RequestView;

    open spec fn view(&self) -> RequestView {
        RequestView {
            authorization: match self.authorization {
                Some(raw) => Some(raw@),
                None => None,
            },
            identity: match self.identity {
                Some(name) => Some(name@),
                None => None,
            },
        }
    }
}

impl RequestContext {
    /// The context of a request as it arrives: no identity is bound yet.
    pub fn new(authorization: Option<Vec<u8>>) -> (req: RequestContext)
        ensures
            req.authorization == authorization,
            req@.identity is None,
    {
        RequestContext { authorization, identity: None }
    }
}

/// The scheme that a header must open with, single space included.
pub open spec fn bearer() -> Seq<char> {
    "Bearer "@
}

/// The key that a header text presents: what follows the scheme, with
/// surrounding white space removed. There is none when the text does not open
/// with the scheme.
pub open spec fn presented_key(text: Seq<char>) -> Option<Seq<char>> {
    if bearer().is_prefix_of(text) {
        Some(trimmed(text.skip(bearer().len() as int)))
    } else {
        None
    }
}

/// The verdict on a presented key: an empty key is malformed, a key outside
/// the registry is invalid, and any other key resolves to its username.
pub open spec fn resolve(registry: Map<Seq<char>, Seq<char>>, key: Seq<char>) -> Result<
    Seq<char>,
    AuthError,
> {
    if key.len() == 0 {
        Err(AuthError::MalformedCredential)
    } else if registry.contains_key(key) {
        Ok(registry[key])
    } else {
        Err(AuthError::InvalidCredential)
    }
}

/// The verdict on a request, from the raw value of its `Authorization` header.
pub open spec fn authenticate(
    registry: Map<Seq<char>, Seq<char>>,
    authorization: Option<Seq<u8>>,
) -> Result<Seq<char>, AuthError> {
    match authorization {
        None => Err(AuthError::MissingCredential),
        Some(raw) => match header_text(raw) {
            None => Err(AuthError::MissingCredential),
            Some(text) => match presented_key(text) {
                None => Err(AuthError::MalformedCredential),
                Some(key) => resolve(registry, key),
            },
        },
    }
}

/// Checks a presented key, already stripped of scheme and white space,
/// against the registry.
pub fn resolve_credential(state: &AppState, key: &str) -> (verdict: Result<String, AuthError>)
    ensures
        match resolve(state@, key@) {
            Ok(name) => verdict matches Ok(found) && found@ == name,
            Err(reason) => verdict == Err::<String, AuthError>(reason),
        },
{
    if key.is_empty() {
        return Err(AuthError::MalformedCredential);
    }
    match state.lookup(key) {
        Some(name) => Ok(name.clone()),
        None => Err(AuthError::InvalidCredential),
    }
}

/// The authentication stage. On success the request goes on with the resolved
/// username bound into its context and its header untouched; on failure the
/// request ends here with the reason.
pub fn auth_middleware(state: &AppState, req: RequestContext) -> (outcome: Result<
    RequestContext,
    AuthError,
>)
    ensures
        match authenticate(state@, req@.authorization) {
            Ok(name) => outcome matches Ok(next) && next@ == (RequestView {
                authorization: req@.authorization,
                identity: Some(name),
            }),
            Err(reason) => outcome matches Err(given) && given == reason,
        },
        req@.authorization is None ==> outcome matches Err(AuthError::MissingCredential),
        req@.authorization matches Some(raw) ==> header_text(raw) is None ==> outcome matches Err(
            AuthError::MissingCredential,
        ),
        req@.authorization matches Some(raw) ==> header_text(raw) matches Some(text)
            ==> presented_key(text) is None ==> outcome matches Err(
            AuthError::MalformedCredential,
        ),
        req@.authorization matches Some(raw) ==> header_text(raw) matches Some(text)
            ==> presented_key(text) matches Some(key) ==> key.len() == 0 ==> outcome matches Err(
            AuthError::MalformedCredential,
        ),
        req@.authorization matches Some(raw) ==> header_text(raw) matches Some(text)
            ==> presented_key(text) matches Some(key) ==> key.len() > 0 && !state@.contains_key(key)
            ==> outcome matches Err(AuthError::InvalidCredential),
        req@.authorization matches Some(raw) ==> header_text(raw) matches Some(text)
            ==> presented_key(text) matches Some(key) ==> key.len() > 0 && state@.contains_key(key)
            ==> (outcome matches Ok(next) && next@.identity == Some(state@[key])),
{
    let text = match &req.authorization {
        Some(raw) => match header_to_text(raw.as_slice()) {
            Some(text) => text,
            None => {
                return Err(AuthError::MissingCredential);
            },
        },
        None => {
            return Err(AuthError::MissingCredential);
        },
    };
    let key = match strip_prefix(text.as_str(), "Bearer ") {
        Some(rest) => {
            assert(text@.skip(bearer().len() as int) =~= rest@);
            rest.trim()
        },
        None => {
            return Err(AuthError::MalformedCredential);
        },
    };
    match resolve_credential(state, key) {
        Ok(name) => Ok(RequestContext { authorization: req.authorization, identity: Some(name) }),
        Err(reason) => Err(reason),
    }
}

/// The identity that the authentication stage bound to a request.
#[derive(Debug)]
pub struct AuthenticatedUser(pub String);

impl View for AuthenticatedUser {
    type V = Seq<char>;

    open spec fn view(&self) -> Seq<char> {
        self.0@
    }
}

impl AuthenticatedUser {
    /// Reads the bound identity out of a request context. A request that never
    /// passed the authentication stage has none, and gets `Unauthenticated`:
    /// no placeholder identity is ever made up.
    pub fn from_request_parts(parts: &RequestContext) -> (identity: Result<
        AuthenticatedUser,
        AuthError,
    >)
        ensures
            match parts@.identity {
                Some(name) => identity matches Ok(user) && user@ == name,
                None => identity matches Err(AuthError::Unauthenticated),
            },
    {
        match &parts.identity {
            Some(name) => Ok(AuthenticatedUser(name.clone())),
            None => Err(AuthError::Unauthenticated),
        }
    }
}

} // verus!
