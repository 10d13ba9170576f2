//! Reaching daemons from the server: the SSRF guard on daemon URLs in cloud
//! deployments, and the reachability test an operator runs before saving a URL.

use vstd::prelude::*;

use crate::net::IpAddress;
use crate::text::decimal;

verus! {

/// How the server is deployed. Only a cloud deployment guards against
/// internal addresses; self-hosted servers legitimately reach LAN daemons.
#[derive(Clone, Copy, Debug, PartialEq, Eq, Structural)]
pub enum DeploymentType {
    Cloud,
    SelfHosted,
}

/// The parts of a URL the server uses: scheme, host, explicit port, and the
/// port with the scheme's known default filled in.
#[derive(Debug)]
pub struct UrlParts {
    pub scheme: String,
    pub host: Option<String>,
    pub port: Option<u16>,
    pub port_or_default: Option<u16>,
}

pub open spec fn url_view(u: UrlParts) -> (Seq<char>, Option<Seq<char>>, Option<u16>, Option<u16>) {
    (u.scheme@, match u.host {
        Some(h) => Some(h@),
        None => None,
    }, u.port, u.port_or_default)
}

/// What the url crate makes of `text`: its scheme, host, explicit port and
/// port with the scheme's default, or `None` when it does not parse.
pub uninterp spec fn url_parse(text: Seq<char>) -> Option<(Seq<char>, Option<Seq<char>>, Option<u16>, Option<u16>)>;

/// `url::Url::parse(text)`, read through `scheme()`, `host_str()`, `port()` and
/// `port_or_known_default()`. The result is named by `url_parse`, a function of
/// the text alone; nothing else is claimed of the parser.
#[verifier::external_body]
pub(crate) fn parse_url(text: &str) -> (r: Option<UrlParts>)
    ensures
        match r {
            Some(u) => url_parse(text@) == Some(url_view(u)),
            None => url_parse(text@) is None,
        },
{
    match url::Url::parse(text) {
        Ok(u) => Some(
            UrlParts {
                scheme: u.scheme().to_string(),
                host: u.host_str().map(|h| h.to_string()),
                port: u.port(),
                port_or_default: u.port_or_known_default(),
            },
        ),
        Err(_) => None,
    }
}

/// Whether a daemon URL deserves the plaintext warning: it parses, its scheme
/// is not `https`, and its host is not `localhost`, `127.0.0.1` or `::1`.
pub open spec fn insecure_url(url: Seq<char>) -> bool {
    match url_parse(url) {
        Some((scheme, Some(h), _, _)) => scheme != "https"@ && h != "localhost"@ && h != "127.0.0.1"@ && h != "::1"@,
        _ => false,
    }
}

/// Whether credentials sent to this daemon URL would travel unencrypted to a
/// host other than this machine, which the server warns about (without
/// refusing it).
pub fn insecure_daemon_url(url: &str) -> (r: bool)
    ensures
        r == insecure_url(url@),
{
    match parse_url(url) {
        None => false,
        Some(parts) => match &parts.host {
            None => false,
            Some(h) => !crate::text::same_text(parts.scheme.as_str(), "https") && !crate::text::same_text(
                h.as_str(),
                "localhost",
            ) && !crate::text::same_text(h.as_str(), "127.0.0.1") && !crate::text::same_text(h.as_str(), "::1"),
        },
    }
}

/// Why a daemon URL is refused.
#[derive(Debug)]
pub struct GuardError {
    pub message: String,
}

/// Where the guard must resolve a daemon URL: `None` when the deployment needs
/// no guard, else the URL's host and port (the scheme's default, or 80).
pub open spec fn guard_plan(url: Seq<char>, deployment: DeploymentType) -> Result<Option<(Seq<char>, u16)>, Seq<char>> {
    if deployment != DeploymentType::Cloud {
        Ok(None)
    } else {
        match url_parse(url) {
            None => Err("Invalid daemon URL"@),
            Some((_, None, _, _)) => Err("Daemon URL has no host"@),
            Some((_, Some(h), _, p)) => Ok(Some((h, match p {
                Some(x) => x,
                None => 80u16,
            }))),
        }
    }
}

/// The first step of the SSRF guard: in a cloud deployment, the host and port
/// the daemon URL must be resolved at; nothing to do elsewhere.
pub fn guard_target(url: &str, deployment: DeploymentType) -> (r: Result<Option<(String, u16)>, GuardError>)
    ensures
        match (r, guard_plan(url@, deployment)) {
            (Ok(Some((h, p))), Ok(Some((h2, p2)))) => h@ == h2 && p == p2,
            (Ok(None), Ok(None)) => true,
            (Err(e), Err(m)) => e.message@ == m,
            _ => false,
        },
{
    if deployment != DeploymentType::Cloud {
        return Ok(None);
    }
    match parse_url(url) {
        None => Err(GuardError { message: String::from_str("Invalid daemon URL") }),
        Some(parts) => match parts.host {
            None => Err(GuardError { message: String::from_str("Daemon URL has no host") }),
            Some(h) => {
                let port = match parts.port_or_default {
                    Some(p) => p,
                    None => 80,
                };
                Ok(Some((h, port)))
            },
        },
    }
}

/// Whether some address in `addrs` is internal.
pub open spec fn any_internal(addrs: Seq<IpAddress>) -> bool {
    exists|i: int| 0 <= i < addrs.len() && (#[trigger] addrs[i]).internal()
}

fn first_internal(addrs: &Vec<IpAddress>) -> (r: bool)
    ensures
        r == any_internal(addrs@),
{
    let mut i: usize = 0;
    while i < addrs.len()
        invariant
            i <= addrs@.len(),
            forall|j: int| 0 <= j < i ==> !(#[trigger] addrs@[j]).internal(),
        decreases addrs@.len() - i,
    {
        if crate::net::is_private_ip(&addrs[i]) {
            return true;
        }
        i = i + 1;
    }
    false
}

/// The second step of the SSRF guard: refuse the URL when any address its
/// host resolved to is internal.
pub fn check_resolved(addrs: &Vec<IpAddress>) -> (r: Result<(), GuardError>)
    ensures
        r is Err <==> any_internal(addrs@),
        r matches Err(e) ==> e.message@ == "Daemon URL resolves to a private/internal address (blocked in cloud mode)"@,
{
    if first_internal(addrs) {
        Err(GuardError { message: String::from_str("Daemon URL resolves to a private/internal address (blocked in cloud mode)") })
    } else {
        Ok(())
    }
}

// ---------------------------------------------------------------------------
// Reachability test
// ---------------------------------------------------------------------------

/// A request to test whether the server can reach a daemon URL.
#[derive(Debug)]
pub struct TestReachabilityRequest {
    /// The daemon's full URL.
    pub url: String,
    /// Also send an HTTP GET to `{url}/health` once the TCP connection succeeds.
    pub check_health: bool,
}

/// The outcome of a reachability test.
#[derive(Debug)]
pub struct TestReachabilityResponse {
    pub reachable: bool,
    pub error: Option<String>,
    /// Whether the daemon's health endpoint answered with success, when asked.
    pub health: Option<bool>,
}

/// Where a reachability test connects: the URL's host and its port, or the
/// scheme's usual port (443 for https, else 80); or why the URL is refused.
pub open spec fn test_target_of(url: Seq<char>) -> Result<(Seq<char>, u16), Seq<char>> {
    match url_parse(url) {
        None => Err("Invalid URL format"@),
        Some((_, None, _, _)) => Err("URL must contain a host"@),
        Some((scheme, Some(h), p, _)) => Ok((h, match p {
            Some(x) => x,
            None => if scheme == "https"@ {
                443u16
            } else {
                80u16
            },
        })),
    }
}

/// Where a reachability test connects.
pub fn reachability_target(url: &str) -> (r: Result<(String, u16), String>)
    ensures
        match (r, test_target_of(url@)) {
            (Ok((h, p)), Ok((h2, p2))) => h@ == h2 && p == p2,
            (Err(e), Err(m)) => e@ == m,
            _ => false,
        },
{
    match parse_url(url) {
        None => Err(String::from_str("Invalid URL format")),
        Some(parts) => match parts.host {
            None => Err(String::from_str("URL must contain a host")),
            Some(h) => {
                let port = match parts.port {
                    Some(p) => p,
                    None => if crate::text::same_text(parts.scheme.as_str(), "https") {
                        443
                    } else {
                        80
                    },
                };
                Ok((h, port))
            },
        },
    }
}

/// Refuse a reachability test whose host resolved to nothing, or, in a cloud
/// deployment, to an internal address.
pub fn check_test_addresses(addrs: &Vec<IpAddress>, host: &str, deployment: DeploymentType) -> (r: Result<(), String>)
    ensures
        addrs@.len() == 0 ==> (r matches Err(m) && m@ == "Could not resolve host: "@ + host@),
        addrs@.len() > 0 ==> (r is Err <==> (deployment == DeploymentType::Cloud && any_internal(addrs@))),
        addrs@.len() > 0 && r is Err ==> (r matches Err(m) && m@ == "Cannot test reachability to private/loopback addresses"@),
{
    if addrs.len() == 0 {
        return Err(crate::text::join2("Could not resolve host: ", host));
    }
    if deployment == DeploymentType::Cloud && first_internal(addrs) {
        return Err(String::from_str("Cannot test reachability to private/loopback addresses"));
    }
    Ok(())
}

/// How a TCP connection attempt ended.
#[derive(Debug)]
pub enum ConnectOutcome {
    Connected,
    Refused,
    TimedOut,
    AddrNotAvailable,
    /// Another connection error, with its text.
    Failed(String),
    /// The 5-second limit ran out.
    Deadline,
}

pub open spec fn failure_text(o: ConnectOutcome, host: Seq<char>, port: u16) -> Option<Seq<char>> {
    match o {
        ConnectOutcome::Connected => None,
        ConnectOutcome::Refused => Some(
            "Connection refused — no service is listening on port "@ + decimal(port as nat) + " at "@ + host,
        ),
        ConnectOutcome::TimedOut => Some(
            "Connection timed out — "@ + host + ":"@ + decimal(port as nat)
                + " may be unreachable or a firewall is blocking the port"@,
        ),
        ConnectOutcome::AddrNotAvailable => Some("Address not available — "@ + host),
        ConnectOutcome::Failed(e) => Some("Connection failed: "@ + e@),
        ConnectOutcome::Deadline => Some(
            "Connection timed out after 5 seconds — could not reach "@ + host + ":"@ + decimal(port as nat),
        ),
    }
}

/// The failed test for a connection attempt that did not connect, with the
/// message explaining it; `None` when it connected.
pub fn connection_failure(outcome: &ConnectOutcome, host: &str, port: u16) -> (r: Option<TestReachabilityResponse>)
    ensures
        match (r, failure_text(*outcome, host@, port)) {
            (None, None) => true,
            (Some(resp), Some(m)) => !resp.reachable && resp.health is None && (resp.error matches Some(e) && e@ == m),
            _ => false,
        },
{
    let p = crate::text::decimal_text(port as u64);
    let message = match outcome {
        ConnectOutcome::Connected => return None,
        ConnectOutcome::Refused => {
            let mut m = crate::text::join2("Connection refused — no service is listening on port ", p.as_str());
            m.append(" at ");
            m.append(host);
            m
        },
        ConnectOutcome::TimedOut => {
            let mut m = crate::text::join3("Connection timed out — ", host, ":");
            m.append(p.as_str());
            m.append(" may be unreachable or a firewall is blocking the port");
            m
        },
        ConnectOutcome::AddrNotAvailable => crate::text::join2("Address not available — ", host),
        ConnectOutcome::Failed(e) => crate::text::join2("Connection failed: ", e.as_str()),
        ConnectOutcome::Deadline => {
            let mut m = crate::text::join3("Connection timed out after 5 seconds — could not reach ", host, ":");
            m.append(p.as_str());
            m
        },
    };
    Some(TestReachabilityResponse { reachable: false, error: Some(message), health: None })
}

/// The health endpoint probed after a successful connection: the request's
/// URL followed by `/health`.
pub fn health_url(url: &str) -> (r: String)
    ensures
        r@ == url@ + "/health"@,
{
    crate::text::join2(url, "/health")
}

/// The successful test of a reachable daemon, with the health check's answer if one was made.
pub fn reachable_response(health: Option<bool>) -> (r: TestReachabilityResponse)
    ensures
        r.reachable && r.error is None && r.health == health,
{
    TestReachabilityResponse { reachable: true, error: None, health }
}

} // verus!
