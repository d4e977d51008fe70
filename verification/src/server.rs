//! The protected resource and the pipeline that a request runs through to
//! reach it.

use crate::authentication::{
    auth_middleware, authenticate, presented_key, AuthError, AuthenticatedUser, RequestContext,
    UNAUTHORIZED,
};
use crate::registry::AppState;
use crate::text::header_text;
use vstd::prelude::*;
use vstd::string::StringExecFns;

verus! {

/// The status of a request that reached the protected resource.
pub const OK: u16 = 200;

/// The body that the protected resource answers with.
#[derive(Debug)]
pub struct ProtectedData {
    pub message: String,
    pub data: Vec<u64>,
}

/// What a `ProtectedData` stands for.
pub struct ProtectedDataView {
    pub message: Seq<char>,
    pub data: Seq<u64>,
}

impl View for ProtectedData {
    type V = ProtectedDataView;

    open spec fn view(&self) -> ProtectedDataView {
        ProtectedDataView { message: self.message@, data: self.data@ }
    }
}

/// The message that greets `name`.
pub open spec fn greeting(name: Seq<char>) -> Seq<char> {
    "Hello, "@ + name + "! Here is your protected data."@
}

/// The body that the protected resource gives to `name`.
pub open spec fn payload_for(name: Seq<char>) -> ProtectedDataView {
    ProtectedDataView { message: greeting(name), data: seq![1u64, 2u64, 3u64, 4u64] }
}

/// The protected resource: a greeting keyed to the authenticated identity,
/// and the data.
pub fn protected_data(username: &AuthenticatedUser) -> (body: ProtectedData)
    ensures
        body@ == payload_for(username@),
{
    let mut message = String::from_str("Hello, ");
    message.append(username.0.as_str());
    message.append("! Here is your protected data.");
    let data: Vec<u64> = vec![1, 2, 3, 4];
    ProtectedData { message, data }
}

/// What the client gets back: a status, and a body when the request was
/// admitted.
#[derive(Debug)]
pub struct Response {
    pub status: u16,
    pub body: Option<ProtectedData>,
}

/// What a `Response` stands for.
pub struct ResponseView {
    pub status: u16,
    pub body: Option<ProtectedDataView>,
}

impl View for Response {
    type V = ResponseView;

    open spec fn view(&self) -> ResponseView {
        ResponseView {
            status: self.status,
            body: match self.body {
                Some(body) => Some(body@),
                None => None,
            },
        }
    }
}

/// The answer to every rejected request: the status alone, with nothing that
/// tells the client which check failed.
pub open spec fn rejected() -> ResponseView {
    ResponseView { status: UNAUTHORIZED, body: None }
}

/// The answer to an admitted request of `name`.
pub open spec fn admitted(name: Seq<char>) -> ResponseView {
    ResponseView { status: OK, body: Some(payload_for(name)) }
}

/// The answer that a registry owes to a request with the given raw header.
pub open spec fn response_for(
    registry: Map<Seq<char>, Seq<char>>,
    authorization: Option<Seq<u8>>,
) -> ResponseView {
    match authenticate(registry, authorization) {
        Ok(name) => admitted(name),
        Err(_) => rejected(),
    }
}

/// Turns a rejection into the answer that the client sees.
pub fn reject(reason: AuthError) -> (resp: Response)
    ensures
        resp@ == rejected(),
{
    Response { status: reason.status_code(), body: None }
}

/// Runs one request through the pipeline: the authentication stage, then the
/// identity accessor, then the protected resource.
///
/// A request without a readable `Authorization` header, one whose header is
/// not `Bearer ` and a key, and one whose key the registry does not hold all
/// get the same bare 401. A request whose key the registry holds gets 200 and
/// the greeting of the username bound to that key.
pub fn handle_request(state: &AppState, req: RequestContext) -> (resp: Response)
    ensures
        resp@ == response_for(state@, req@.authorization),
        req@.authorization is None ==> resp@ == rejected(),
        req@.authorization matches Some(raw) ==> header_text(raw) is None ==> resp@ == rejected(),
        req@.authorization matches Some(raw) ==> header_text(raw) matches Some(text)
            ==> presented_key(text) is None ==> resp@ == rejected(),
        req@.authorization matches Some(raw) ==> header_text(raw) matches Some(text)
            ==> presented_key(text) matches Some(key) ==> key.len() == 0 ==> resp@ == rejected(),
        req@.authorization matches Some(raw) ==> header_text(raw) matches Some(text)
            ==> presented_key(text) matches Some(key) ==> !state@.contains_key(key) ==> resp@
            == rejected(),
        req@.authorization matches Some(raw) ==> header_text(raw) matches Some(text)
            ==> presented_key(text) matches Some(key) ==> key.len() > 0 && state@.contains_key(key)
            ==> resp@ == admitted(state@[key]),
{
    match auth_middleware(state, req) {
        Ok(next) => match AuthenticatedUser::from_request_parts(&next) {
            Ok(username) => Response { status: OK, body: Some(protected_data(&username)) },
            Err(reason) => reject(reason),
        },
        Err(reason) => reject(reason),
    }
}

} // verus!
