//! Validation of a fetch target before a hop.
//!
//! Every hop of the redirect loop opens a fresh connection, so the target
//! string must first yield the pieces the transport needs: the host to
//! resolve, the port (explicit, or the default of the encrypted
//! transport), and the authority carried in the `Host` header.  The
//! parsing itself is hyper's; this module pins how its result is used.

use vstd::prelude::*;
use crate::errors::ProtocolError;

verus! {

/// The components a request hop reads out of a fetch target.
pub struct UrlParts {
    pub host: String,
    pub port: Option<u16>,
    pub authority: String,
}

/// What parsing a URL string yields: host, optional explicit port and
/// authority of a well-formed target, or `None` where the string does not
/// parse or carries no host or authority.  The result depends on the
/// string alone.
pub uninterp spec fn url_parts_of(s: Seq<char>) -> Option<(Seq<char>, Option<u16>, Seq<char>)>;

/// Relies on hyper::Uri (http::Uri): parsing a URL string and reading its
/// host, port and authority components.
#[verifier::external_body]
fn split_url(s: &str) -> (r: Option<UrlParts>)
    ensures
        r matches Some(p) ==> url_parts_of(s@) == Some((p.host@, p.port, p.authority@)),
        r is None ==> url_parts_of(s@) is None,
{
    let uri: hyper::Uri = match s.parse() {
        Ok(u) => u,
        Err(_) => return None,
    };
    let host = match uri.host() {
        Some(h) => h.to_string(),
        None => return None,
    };
    let authority = match uri.authority() {
        Some(a) => a.as_str().to_string(),
        None => return None,
    };
    Some(UrlParts { host, port: uri.port_u16(), authority })
}

/// Everything one request hop needs: the target itself, the host to
/// connect to, the effective port, and the authority for the `Host`
/// header.
#[derive(Debug)]
pub struct RequestPlan {
    pub url: String,
    pub host: String,
    pub port: u16,
    pub authority: String,
}

/// The port a hop connects to: the explicit one where the target names
/// one, else the default port of the encrypted transport.
pub open spec fn spec_effective_port(p: Option<u16>) -> u16 {
    match p {
        Some(x) => x,
        None => 443,
    }
}

/// Validates a fetch target before a hop.  A target with a host yields
/// the connection plan; anything else fails with the malformed-URL error
/// naming the target, and the loop gives up before touching the network.
pub fn prepare_request(url: &str) -> (r: Result<RequestPlan, ProtocolError>)
    ensures
        (r is Ok) == (url_parts_of(url@) is Some),
        r matches Ok(plan) ==> (url_parts_of(url@) matches Some(p) && plan.host@ == p.0
            && plan.port == spec_effective_port(p.1) && plan.authority@ == p.2 && plan.url@
            == url@),
        r matches Err(e) ==> (e matches ProtocolError::MalformedUrl { url: u } && u@ == url@),
{
    match split_url(url) {
        None => Err(ProtocolError::MalformedUrl { url: url.to_owned() }),
        Some(parts) => {
            let port = match parts.port {
                Some(p) => p,
                None => 443,
            };
            Ok(
                RequestPlan {
                    url: url.to_owned(),
                    host: parts.host,
                    port,
                    authority: parts.authority,
                },
            )
        },
    }
}

} // verus!
