//! The connector's synchronous decisions: accept only the websocket variant
//! of the transport configuration, validate and normalize its endpoint, and
//! word the handshake-failure report.

use vstd::prelude::*;

use crate::url::{normalize_ws_url, normalize_ws_url_spec};

verus! {

/// The tagged transport configuration handed to the connector. Only the
/// websocket variant is accepted here; every other tag is a configuration
/// error, and no socket is attempted for it.
pub enum RemoteTransportConfig {
    /// The websocket transport, carrying its endpoint.
    OrbitWs { ws_url: String },
    /// Any other transport tag.
    Other,
}

/// The error reported when the configuration carries the wrong tag.
pub open spec fn err_config_mismatch() -> Seq<char> {
    "invalid transport config for orbit websocket transport"@
}

/// Validate the configuration and produce the URL the socket layer should
/// dial: the wrong variant is rejected outright; otherwise the endpoint is
/// normalized and its failure, if any, is passed on verbatim.
pub fn prepare_connect(config: &RemoteTransportConfig) -> (r: Result<String, String>)
    ensures
        match config {
            RemoteTransportConfig::OrbitWs { ws_url } => match r {
                Ok(u) => normalize_ws_url_spec(ws_url@) == Ok::<Seq<char>, Seq<char>>(u@),
                Err(e) => normalize_ws_url_spec(ws_url@) == Err::<Seq<char>, Seq<char>>(e@),
            },
            RemoteTransportConfig::Other => r matches Err(e) && e@ == err_config_mismatch(),
        },
{
    match config {
        RemoteTransportConfig::OrbitWs { ws_url } => normalize_ws_url(ws_url.as_str()),
        RemoteTransportConfig::Other => Err(
            String::from_str("invalid transport config for orbit websocket transport"),
        ),
    }
}

/// The report for a failed socket handshake, naming the target URL and the
/// underlying cause.
pub fn connect_error_message(ws_url: &str, cause: &str) -> (r: String)
    ensures
        r@ == "Failed to connect to Orbit relay at "@ + ws_url@ + ": "@ + cause@,
{
    let mut m = String::from_str("Failed to connect to Orbit relay at ");
    m.append(ws_url);
    m.append(": ");
    m.append(cause);
    proof {
        assert(m@ =~= "Failed to connect to Orbit relay at "@ + ws_url@ + ": "@ + cause@);
    }
    m
}

} // verus!
