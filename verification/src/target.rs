//! The destination of a tunnel: a host name and a port.

use vstd::prelude::*;

verus! {

/// Why a request target names no destination.
#[derive(Clone, Copy, Debug, PartialEq, Eq, Structural)]
pub enum TargetError {
    /// The target has no host, or an empty one.
    MissingHost,
    /// The target has a host but no port.
    MissingPort,
}

/// What a [`TargetAddress`] stands for in contracts.
pub struct TargetView {
    pub host: Seq<char>,
    pub port: u16,
}

/// A destination `(host, port)`. The host is never empty, and neither part
/// changes once the value exists.
#[derive(Debug, PartialEq, Eq)]
pub struct TargetAddress {
    host: String,
    port: u16,
}

impl View for TargetAddress {
    type V = TargetView;

    closed spec fn view(&self) -> TargetView {
        TargetView { host: self.host@, port: self.port }
    }
}

/// The destination that a host and a port give, either of which may be
/// absent. The host is looked at first.
pub open spec fn resolve_spec(host: Option<Seq<char>>, port: Option<u16>) -> Result<
    TargetView,
    TargetError,
> {
    match (host, port) {
        (None, _) => Err(TargetError::MissingHost),
        (Some(h), _) if h.len() == 0 => Err(TargetError::MissingHost),
        (Some(_), None) => Err(TargetError::MissingPort),
        (Some(h), Some(p)) => Ok(TargetView { host: h, port: p }),
    }
}

/// The view of an optional string.
pub open spec fn text_view(text: Option<String>) -> Option<Seq<char>> {
    match text {
        Some(s) => Some(s@),
        None => None,
    }
}

/// The view of the outcome of [`resolve`].
pub open spec fn resolved_view(r: Result<TargetAddress, TargetError>) -> Result<
    TargetView,
    TargetError,
> {
    match r {
        Ok(t) => Ok(t@),
        Err(e) => Err(e),
    }
}

impl TargetError {
    /// The words that explain the refusal to the client.
    pub open spec fn text(self) -> Seq<char> {
        match self {
            TargetError::MissingHost => "Parse host error"@,
            TargetError::MissingPort => "Parse port error"@,
        }
    }

    /// The words that explain the refusal to the client.
    pub fn message(&self) -> (m: String)
        ensures
            m@ == self.text(),
    {
        match self {
            TargetError::MissingHost => "Parse host error".to_owned(),
            TargetError::MissingPort => "Parse port error".to_owned(),
        }
    }
}

impl TargetAddress {
    #[verifier::type_invariant]
    spec fn nonempty_host(&self) -> bool {
        self.host@.len() > 0
    }

    /// The host name.
    pub fn host(&self) -> (h: &str)
        ensures
            h@ == self@.host,
            h@.len() > 0,
    {
        proof {
            use_type_invariant(self);
        }
        self.host.as_str()
    }

    /// The port.
    pub fn port(&self) -> (p: u16)
        ensures
            p == self@.port,
    {
        self.port
    }
}

impl Clone for TargetAddress {
    fn clone(&self) -> (t: TargetAddress)
        ensures
            t@ == self@,
    {
        proof {
            use_type_invariant(self);
        }
        TargetAddress { host: self.host.clone(), port: self.port }
    }
}

/// Builds the destination from the host and the port of a request target.
/// A target without a host, or with an empty one, is refused before the port
/// is looked at.
pub fn resolve(host: Option<String>, port: Option<u16>) -> (r: Result<TargetAddress, TargetError>)
    ensures
        resolved_view(r) == resolve_spec(text_view(host), port),
{
    match host {
        None => Err(TargetError::MissingHost),
        Some(h) => {
            if h.as_str().is_empty() {
                Err(TargetError::MissingHost)
            } else {
                match port {
                    None => Err(TargetError::MissingPort),
                    Some(p) => Ok(TargetAddress { host: h, port: p }),
                }
            }
        },
    }
}

} // verus!
