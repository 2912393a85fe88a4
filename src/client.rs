use vstd::prelude::*;

use crate::error::Error;
use crate::form::{encode_form, fields_view, form_text, FormField};
use crate::json::{member, member_pointer};
use crate::payment_intents::PaymentError;

verus! {

/// What the transport brought back: the HTTP status and the body.
#[derive(Clone, Debug)]
pub struct Response {
    pub status: u16,
    pub body: Vec<u8>,
}

/// The HTTP method of a request.
#[derive(Clone, Copy, Debug, PartialEq, Eq, Structural)]
pub enum Method {
    Get,
    Post,
}

/// A request to the API: a method, a path with its query string, and a form body for a
/// `POST` that has one.
#[derive(Clone, Debug)]
pub struct Request {
    pub method: Method,
    pub path: String,
    pub body: Option<String>,
}

/// The transport that carries requests to the API: authentication, connections and retries
/// are its own concern. Each call blocks until a response comes or the transport fails.
pub trait Client {
    /// Sends `GET path`.
    fn get(&self, path: &str) -> Result<Response, String>;

    /// Sends `POST path` with a form-encoded body.
    fn post(&self, path: &str, body: &str) -> Result<Response, String>;

    /// Sends `POST path` without a body.
    fn post_empty(&self, path: &str) -> Result<Response, String>;
}

/// A record with an identifier that the API assigned to it.
pub trait Identifiable {
    spec fn spec_id(&self) -> Seq<char>;

    /// The record's identifier.
    fn id(&self) -> (r: &str)
        ensures
            r@ == self.spec_id(),
    ;
}

/// A value that can be read from a JSON response.
pub trait Readable: Sized {
    /// Whether the value at `at` in `doc` holds what a record needs.
    spec fn readable(doc: Seq<u8>, at: Seq<char>) -> bool;

    /// Whether `self` holds what the value at `at` in `doc` says.
    spec fn read_as(&self, doc: Seq<u8>, at: Seq<char>) -> bool;

    /// Reads a record from the value at `at` in `doc`.
    fn read(doc: &[u8], at: &str) -> (r: Result<Self, Error>)
        ensures
            match r {
                Ok(v) => Self::readable(doc@, at@) && v.read_as(doc@, at@),
                Err(e) => !Self::readable(doc@, at@) && e is Decode,
            },
    ;
}

pub open spec fn is_success(status: u16) -> bool {
    200 <= status < 300
}

/// The pointer to the error envelope of an error response.
pub open spec fn envelope() -> Seq<char> {
    member(Seq::empty(), "error"@)
}

/// The error that a response with a failure status gives: the envelope's error where it can
/// be read, else `Decode`.
pub open spec fn error_outcome(x: Response, e: Error) -> bool {
    match e {
        Error::Api { status, error } => status == x.status && PaymentError::decodable(
            x.body@,
            envelope(),
        ) && error.decodes_to(x.body@, envelope()),
        Error::Decode => !PaymentError::decodable(x.body@, envelope()),
        _ => false,
    }
}

/// What a call gives for what the transport returned: its failure as `Transport`; for a
/// success status the record read from the whole body; for any other status the error that
/// the body reports.
pub open spec fn response_outcome<T: Readable>(
    resp: Result<Response, String>,
    r: Result<T, Error>,
) -> bool {
    match resp {
        Err(m) => r matches Err(Error::Transport(m2)) && m2 == m,
        Ok(x) => if is_success(x.status) {
            match r {
                Ok(v) => T::readable(x.body@, Seq::empty()) && v.read_as(x.body@, Seq::empty()),
                Err(e) => !T::readable(x.body@, Seq::empty()) && e is Decode,
            }
        } else {
            match r {
                Ok(_) => false,
                Err(e) => error_outcome(x, e),
            }
        },
    }
}

/// That `r` is what the call gives for some response of the transport.
pub open spec fn send_outcome<T: Readable>(r: Result<T, Error>) -> bool {
    exists|resp: Result<Response, String>| response_outcome(resp, r)
}

/// Reads the error from a response with a failure status.
pub fn read_error(x: &Response) -> (e: Error)
    ensures
        error_outcome(*x, e),
{
    let p = member_pointer("", "error");
    proof {
        reveal_strlit("");
        assert(""@ =~= Seq::<char>::empty());
    }
    match PaymentError::decode(x.body.as_slice(), p.as_str()) {
        Ok(error) => Error::Api { status: x.status, error },
        Err(_) => Error::Decode,
    }
}

/// Turns what the transport returned into the call's result.
pub fn read_response<T: Readable>(resp: Result<Response, String>) -> (r: Result<T, Error>)
    ensures
        response_outcome(resp, r),
{
    match resp {
        Err(m) => Err(Error::Transport(m)),
        Ok(x) => {
            if 200 <= x.status && x.status < 300 {
                let r = T::read(x.body.as_slice(), "");
                proof {
                    reveal_strlit("");
                    assert(""@ =~= Seq::<char>::empty());
                }
                r
            } else {
                Err(read_error(&x))
            }
        },
    }
}

/// Hands `req` to the transport.
pub fn send<C: Client>(client: &C, req: &Request) -> Result<Response, String> {
    match req.method {
        Method::Get => client.get(req.path.as_str()),
        Method::Post => match &req.body {
            Some(b) => client.post(req.path.as_str(), b.as_str()),
            None => client.post_empty(req.path.as_str()),
        },
    }
}

/// Sends `req` and reads the record that comes back.
pub fn call<C: Client, T: Readable>(client: &C, req: &Request) -> (r: Result<T, Error>)
    ensures
        send_outcome(r),
{
    let resp = send(client, req);
    let ghost g = resp;
    let r = read_response(resp);
    assert(response_outcome(g, r));
    r
}

/// A `POST` to `path` with `fields` as its form body.
pub fn post_form(path: String, fields: &Vec<FormField>) -> (r: Request)
    ensures
        r.method == Method::Post,
        r.path@ == path@,
        r.body matches Some(b) && b@ == form_text(fields_view(fields@)),
{
    Request { method: Method::Post, path, body: Some(encode_form(fields)) }
}

/// `base`, a `/`, then `segment`.
pub open spec fn join(base: Seq<char>, segment: Seq<char>) -> Seq<char> {
    base + seq!['/'] + segment
}

/// The path `base/segment`.
pub fn join_path(base: &str, segment: &str) -> (r: String)
    ensures
        r@ == join(base@, segment@),
{
    let mut r = String::from_str(base);
    r.append("/");
    r.append(segment);
    proof {
        reveal_strlit("/");
    }
    assert(r@ =~= join(base@, segment@));
    r
}

/// A `GET` of `path` with no query string.
pub fn get_path(path: String) -> (r: Request)
    ensures
        r.method == Method::Get,
        r.path@ == path@,
        r.body is None,
{
    Request { method: Method::Get, path, body: None }
}

/// A `GET` of `path`, with the form encoding of `fields` as its query string.
pub fn get_query(path: &str, fields: &Vec<FormField>) -> (r: Request)
    ensures
        r.method == Method::Get,
        r.path@ == path@ + seq!['?'] + form_text(fields_view(fields@)),
        r.body is None,
{
    let mut p = String::from_str(path);
    p.append("?");
    let q = encode_form(fields);
    p.append(q.as_str());
    proof {
        reveal_strlit("?");
    }
    assert(p@ =~= path@ + seq!['?'] + form_text(fields_view(fields@)));
    Request { method: Method::Get, path: p, body: None }
}

} // verus!
