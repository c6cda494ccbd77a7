//! How the upstream SOCKS5 proxy is named to the forwarding client.

use vstd::prelude::*;
use vstd::string::StringExecFns;

verus! {

/// The scheme that marks an address as that of a SOCKS5 proxy.
pub open spec fn socks5_scheme() -> Seq<char> {
    "socks5://"@
}

/// The URI of the SOCKS5 proxy at `address`, which is a host and a port
/// joined by a colon. Every connection that the forwarding client opens is
/// made through the proxy that this URI names.
pub fn proxy_uri(address: &str) -> (uri: String)
    ensures
        uri@ == socks5_scheme() + address@,
{
    let scheme: String = "socks5://".to_owned();
    scheme.concat(address)
}

} // verus!
