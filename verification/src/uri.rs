//! Reading the host and the port out of a request target, as `hyper` reads
//! them.

use vstd::prelude::*;
use crate::target::{resolve, resolve_spec, resolved_view, TargetAddress, TargetError};

verus! {

/// The host that `hyper::Uri` reports for the text `target`: `None` where
/// the text is no URI or the URI has no authority.
pub uninterp spec fn uri_host(target: Seq<char>) -> Option<Seq<char>>;

/// The port that `hyper::Uri` reports for the text `target`: `None` where
/// the text is no URI, the URI has no authority, or what follows the last
/// colon of the authority is no decimal `u16`.
pub uninterp spec fn uri_port(target: Seq<char>) -> Option<u16>;

/// Parses `target` with `hyper::Uri`'s `FromStr` and returns a copy of what
/// `Uri::host` gives. Not proved: that the result is the same function of
/// the text on every call, which is all the contract claims.
#[verifier::external_body]
pub(crate) fn target_host(target: &str) -> (host: Option<String>)
    ensures
        crate::target::text_view(host) == uri_host(target@),
{
    match target.parse::<hyper::Uri>() {
        Ok(uri) => uri.host().map(String::from),
        Err(_) => None,
    }
}

/// Parses `target` with `hyper::Uri`'s `FromStr` and returns what
/// `Uri::port_u16` gives. Not proved: that the result is the same function
/// of the text on every call, which is all the contract claims.
#[verifier::external_body]
pub(crate) fn target_port(target: &str) -> (port: Option<u16>)
    ensures
        port == uri_port(target@),
{
    match target.parse::<hyper::Uri>() {
        Ok(uri) => uri.port_u16(),
        Err(_) => None,
    }
}

/// The destination named by a request target such as `example.com:443`.
///
/// The host and the port are those that `hyper` finds in the text; what is
/// made of them is [`resolve`]'s decision.
pub fn parse_target(target: &str) -> (r: Result<TargetAddress, TargetError>)
    ensures
        resolved_view(r) == resolve_spec(uri_host(target@), uri_port(target@)),
{
    let host = target_host(target);
    let port = target_port(target);
    resolve(host, port)
}

} // verus!
