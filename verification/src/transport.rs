//! The transport adapter: one blocking HTTP exchange per call, behind
//! trusted wrappers around the HTTP library.
//!
//! Nothing can be promised about what a remote service answers, so each
//! wrapper's contract only sorts its failures into the transport and
//! local-read kinds of the error taxonomy; the verified pipeline takes the
//! status and body as they come.

use vstd::prelude::*;

use hyper::header::Authorization;
use hyper::header::Bearer;
use hyper::header::ContentType;
use hyper::mime::Attr;
use hyper::mime::Mime;
use hyper::mime::SubLevel;
use hyper::mime::TopLevel;
use hyper::mime::Value as MimeValue;

use crate::error::Error;

verus! {

/// Relies on `hyper::Client`: one blocking GET exchange against the URL,
/// with a bearer-authentication header built from the token. Returns the
/// status code with the drained body; a failed exchange is a
/// `NetworkFailure` and a failed drain an `IOFailure`.
#[verifier::external_body]
pub(crate) fn http_get(url: &str, token: &str) -> (r: Result<(u16, String), Error>)
    ensures
        r matches Err(e) ==> (e is NetworkFailure || e is IOFailure),
{
    let auth = Authorization(Bearer { token: token.to_string() });
    match hyper::Client::new().get(url).header(auth).send() {
        Ok(mut res) => {
            let status = res.status.to_u16();
            let mut text = String::new();
            match std::io::Read::read_to_string(&mut res, &mut text) {
                Ok(_) => Ok((status, text)),
                Err(e) => Err(Error::IOFailure(e.to_string())),
            }
        },
        Err(e) => Err(Error::NetworkFailure(e.to_string())),
    }
}

/// Relies on `hyper::Client`: one blocking POST exchange carrying the given
/// body, with bearer authentication and the JSON content type with UTF-8
/// charset. Failures sort as in the GET wrapper.
#[verifier::external_body]
pub(crate) fn http_post_json(url: &str, token: &str, body: &str) -> (r: Result<
    (u16, String),
    Error,
>)
    ensures
        r matches Err(e) ==> (e is NetworkFailure || e is IOFailure),
{
    let mime = Mime(TopLevel::Application, SubLevel::Json, vec![(Attr::Charset, MimeValue::Utf8)]);
    let auth = Authorization(Bearer { token: token.to_string() });
    match hyper::Client::new().post(url).header(auth).header(ContentType(mime)).body(body).send() {
        Ok(mut res) => {
            let status = res.status.to_u16();
            let mut text = String::new();
            match std::io::Read::read_to_string(&mut res, &mut text) {
                Ok(_) => Ok((status, text)),
                Err(e) => Err(Error::IOFailure(e.to_string())),
            }
        },
        Err(e) => Err(Error::NetworkFailure(e.to_string())),
    }
}

/// Relies on `hyper::Client`: one blocking DELETE exchange with bearer
/// authentication. Only the status code is read; the delete operation has
/// no body to decode.
#[verifier::external_body]
pub(crate) fn http_delete(url: &str, token: &str) -> (r: Result<u16, Error>)
    ensures
        r matches Err(e) ==> e is NetworkFailure,
{
    let auth = Authorization(Bearer { token: token.to_string() });
    match hyper::Client::new().delete(url).header(auth).send() {
        Ok(res) => Ok(res.status.to_u16()),
        Err(e) => Err(Error::NetworkFailure(e.to_string())),
    }
}

} // verus!
