//! Trusted wrappers around the outside crates that carry HTTP traffic and
//! encode credentials.  Everything decided from their results is verified
//! elsewhere; nothing is promised of a network outcome.

use vstd::prelude::*;

verus! {

/// What an outbound HTTP call came back with: either an answer from the
/// server, whatever its status, or a transport failure with no answer.
pub(crate) enum HttpReply {
    /// The server answered with a status code and a body.
    Response { status: u16, body: String },
    /// The request never completed: a timeout, a connection failure, a
    /// name that does not resolve.
    Transport { message: String },
}

/// The base64 rendering, standard alphabet with padding, of the UTF-8
/// bytes of a character sequence.  The wrapper below relates the outside
/// encoder to this name.
pub uninterp spec fn base64_of(s: Seq<char>) -> Seq<char>;

/// Relies on base64's `Engine::encode` with the `BASE64_STANDARD` engine:
/// the result depends on the input bytes alone.
#[verifier::external_body]
pub(crate) fn base64_encode(s: &str) -> (r: String)
    ensures
        r@ == base64_of(s@),
{
    base64::Engine::encode(&base64::prelude::BASE64_STANDARD, s)
}

/// Relies on ureq's `get`, `Request::set`, `Request::call` and
/// `Response::into_string`: one GET with one header.  A server answer,
/// whatever its status, becomes `Response`; everything else `Transport`.
#[verifier::external_body]
pub(crate) fn http_get(url: &str, header_name: &str, header_value: &str) -> HttpReply {
    match ureq::get(url).set(header_name, header_value).call() {
        Ok(res) | Err(ureq::Error::Status(_, res)) => {
            let status = res.status();
            match res.into_string() {
                Ok(body) => HttpReply::Response { status, body },
                Err(e) => HttpReply::Transport { message: e.to_string() },
            }
        },
        Err(e) => HttpReply::Transport { message: e.to_string() },
    }
}

/// Relies on ureq's `post`, `Request::set`, `Request::send_form` and
/// `Response::into_string`: one POST with one header and the given pairs
/// as the form-encoded body.  A server answer, whatever its status,
/// becomes `Response`; everything else `Transport`.
#[verifier::external_body]
pub(crate) fn http_post_form(
    url: &str,
    header_name: &str,
    header_value: &str,
    form: &Vec<(String, String)>,
) -> HttpReply {
    let mut pairs: Vec<(&str, &str)> = Vec::new();
    for p in form.iter() {
        pairs.push((p.0.as_str(), p.1.as_str()));
    }
    match ureq::post(url).set(header_name, header_value).send_form(&pairs) {
        Ok(res) | Err(ureq::Error::Status(_, res)) => {
            let status = res.status();
            match res.into_string() {
                Ok(body) => HttpReply::Response { status, body },
                Err(e) => HttpReply::Transport { message: e.to_string() },
            }
        },
        Err(e) => HttpReply::Transport { message: e.to_string() },
    }
}

} // verus!
