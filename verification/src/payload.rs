//! Credential payloads as a daemon receives them: the scan ports they need,
//! the banner lines they log, and the resolution of file-path fields into
//! inline values with PEM validation.

use vstd::prelude::*;

use crate::fields::{FieldError, InlineFormat, outcome};
use crate::mapping::{
    BannerField, BannerFieldValue, BannerSource, Resolvable, ResolvableSecret, ResolvableValue,
    banner_matches,
};
use crate::snmp::{SnmpQueryCredential, SnmpView};
use crate::text::{decimal, decimal_text};

verus! {

/// A container-runtime API proxy (Docker or Podman): port, optional path
/// prefix, and optional TLS material.
#[derive(Clone, PartialEq, Eq)]
pub struct DockerProxyQueryCredential {
    pub port: u16,
    pub path: Option<String>,
    pub ssl_cert: Option<ResolvableValue>,
    pub ssl_key: Option<ResolvableSecret>,
    pub ssl_chain: Option<ResolvableValue>,
}

/// A local container-runtime socket; `None` lets the daemon find it.
#[derive(Debug, Clone, PartialEq, Eq)]
pub struct ContainerSocketQueryCredential {
    pub socket_path: Option<String>,
}

/// A gNMI device credential.
#[derive(Clone, PartialEq, Eq)]
pub struct GnmiQueryCredential {
    pub port: u16,
    pub username: String,
    pub password: ResolvableSecret,
    pub tls: bool,
    pub skip_verify: bool,
}

/// The credential payload sent to a daemon, one variant per wire type.
#[derive(Clone, PartialEq, Eq)]
pub enum CredentialQueryPayload {
    Snmp(SnmpQueryCredential),
    DockerProxy(DockerProxyQueryCredential),
    DockerSocket(ContainerSocketQueryCredential),
    PodmanProxy(DockerProxyQueryCredential),
    PodmanSocket(ContainerSocketQueryCredential),
    Gnmi(GnmiQueryCredential),
    /// A type from a newer server that this build does not know.
    Unknown,
}

// ---------------------------------------------------------------------------
// Views
// ---------------------------------------------------------------------------

pub open spec fn opt_text(s: Option<String>) -> Option<Seq<char>> {
    match s {
        Some(t) => Some(t@),
        None => None,
    }
}

pub open spec fn opt_value(v: Option<ResolvableValue>) -> Option<Resolvable> {
    match v {
        Some(x) => Some(x.view()),
        None => None,
    }
}

pub open spec fn opt_secret(v: Option<ResolvableSecret>) -> Option<Resolvable> {
    match v {
        Some(x) => Some(x.view()),
        None => None,
    }
}

pub struct ProxyView {
    pub port: u16,
    pub path: Option<Seq<char>>,
    pub ssl_cert: Option<Resolvable>,
    pub ssl_key: Option<Resolvable>,
    pub ssl_chain: Option<Resolvable>,
}

pub struct GnmiView {
    pub port: u16,
    pub username: Seq<char>,
    pub password: Resolvable,
    pub tls: bool,
    pub skip_verify: bool,
}

/// A payload as plain values.
pub enum PayloadView {
    Snmp(SnmpView),
    DockerProxy(ProxyView),
    DockerSocket(Option<Seq<char>>),
    PodmanProxy(ProxyView),
    PodmanSocket(Option<Seq<char>>),
    Gnmi(GnmiView),
    Unknown,
}

impl DockerProxyQueryCredential {
    pub open spec fn view(self) -> ProxyView {
        ProxyView {
            port: self.port,
            path: opt_text(self.path),
            ssl_cert: opt_value(self.ssl_cert),
            ssl_key: opt_secret(self.ssl_key),
            ssl_chain: opt_value(self.ssl_chain),
        }
    }

    /// What the banner lines of this credential report: the port, then the
    /// path, certificate, key and chain that are set.
    pub open spec fn banner_spec(self) -> Seq<(Seq<char>, BannerSource)> {
        let port = seq![("Port"@, BannerSource::Text(decimal(self.port as nat)))];
        let path = match self.path {
            Some(p) => seq![("Path"@, BannerSource::Text(p@))],
            None => Seq::empty(),
        };
        let cert = match self.ssl_cert {
            Some(c) => seq![("SSL cert"@, BannerSource::Value(c))],
            None => Seq::empty(),
        };
        let key = match self.ssl_key {
            Some(k) => seq![("SSL key"@, BannerSource::Secret(k))],
            None => Seq::empty(),
        };
        let chain = match self.ssl_chain {
            Some(c) => seq![("SSL chain"@, BannerSource::Value(c))],
            None => Seq::empty(),
        };
        port + path + cert + key + chain
    }

    /// The banner lines logged for this credential.
    pub fn banner_lines(&self) -> (r: Vec<BannerField>)
        ensures
            banner_matches(r@, self.banner_spec()),
    {
        let mut lines: Vec<BannerField> = Vec::new();
        lines.push(BannerField { label: "Port", value: BannerFieldValue::Plain(decimal_text(self.port as u64)) });
        let ghost s0 = seq![("Port"@, BannerSource::Text(decimal(self.port as nat)))];
        proof {
            assert(banner_matches(lines@, s0));
        }
        let ghost mut spec = s0;
        if let Some(path) = &self.path {
            lines.push(BannerField { label: "Path", value: BannerFieldValue::Plain(path.clone()) });
            proof {
                spec = spec + seq![("Path"@, BannerSource::Text(path@))];
            }
        }
        proof {
            assert(spec =~= s0 + match self.path {
                Some(p) => seq![("Path"@, BannerSource::Text(p@))],
                None => Seq::empty(),
            });
        }
        let ghost s1 = spec;
        if let Some(cert) = &self.ssl_cert {
            lines.push(BannerField { label: "SSL cert", value: cert.banner_value() });
            proof {
                spec = spec + seq![("SSL cert"@, BannerSource::Value(*cert))];
            }
        }
        proof {
            assert(spec =~= s1 + match self.ssl_cert {
                Some(c) => seq![("SSL cert"@, BannerSource::Value(c))],
                None => Seq::empty(),
            });
        }
        let ghost s2 = spec;
        if let Some(key) = &self.ssl_key {
            lines.push(BannerField { label: "SSL key", value: key.banner_value() });
            proof {
                spec = spec + seq![("SSL key"@, BannerSource::Secret(*key))];
            }
        }
        proof {
            assert(spec =~= s2 + match self.ssl_key {
                Some(k) => seq![("SSL key"@, BannerSource::Secret(k))],
                None => Seq::empty(),
            });
        }
        let ghost s3 = spec;
        if let Some(chain) = &self.ssl_chain {
            lines.push(BannerField { label: "SSL chain", value: chain.banner_value() });
            proof {
                spec = spec + seq![("SSL chain"@, BannerSource::Value(*chain))];
            }
        }
        proof {
            assert(spec =~= s3 + match self.ssl_chain {
                Some(c) => seq![("SSL chain"@, BannerSource::Value(c))],
                None => Seq::empty(),
            });
            assert(spec =~= self.banner_spec());
        }
        lines
    }
}

impl GnmiQueryCredential {
    pub open spec fn view(self) -> GnmiView {
        GnmiView {
            port: self.port,
            username: self.username@,
            password: self.password.view(),
            tls: self.tls,
            skip_verify: self.skip_verify,
        }
    }
}

/// Which wire type a payload is.
#[derive(Clone, Copy, Debug, PartialEq, Eq, Structural)]
pub enum PayloadKind {
    Snmp,
    DockerProxy,
    DockerSocket,
    PodmanProxy,
    PodmanSocket,
    Gnmi,
    Unknown,
}

impl PayloadKind {
    /// What discovery says it is doing with a credential of this type.
    pub open spec fn label(self) -> Seq<char> {
        match self {
            PayloadKind::Snmp => "SNMP queries"@,
            PayloadKind::Gnmi => "gNMI queries"@,
            PayloadKind::DockerProxy => "Docker proxy connection"@,
            PayloadKind::DockerSocket => "Docker socket connection"@,
            PayloadKind::PodmanProxy => "Podman proxy connection"@,
            PayloadKind::PodmanSocket => "Podman socket connection"@,
            PayloadKind::Unknown => "unknown credential"@,
        }
    }

    /// The name of the integration, as warnings phrase "the NAME credential".
    pub open spec fn display_name(self) -> Seq<char> {
        match self {
            PayloadKind::Snmp => "SNMP"@,
            PayloadKind::DockerProxy => "Docker proxy"@,
            PayloadKind::DockerSocket => "Docker socket"@,
            PayloadKind::PodmanProxy => "Podman proxy"@,
            PayloadKind::PodmanSocket => "Podman socket"@,
            PayloadKind::Gnmi => "gNMI"@,
            PayloadKind::Unknown => "unrecognised"@,
        }
    }

    /// The name of the integration, as warnings phrase "the NAME credential".
    pub fn name(&self) -> (r: &'static str)
        ensures
            r@ == self.display_name(),
    {
        match self {
            PayloadKind::Snmp => "SNMP",
            PayloadKind::DockerProxy => "Docker proxy",
            PayloadKind::DockerSocket => "Docker socket",
            PayloadKind::PodmanProxy => "Podman proxy",
            PayloadKind::PodmanSocket => "Podman socket",
            PayloadKind::Gnmi => "gNMI",
            PayloadKind::Unknown => "unrecognised",
        }
    }
}

impl CredentialQueryPayload {
    pub open spec fn view(self) -> PayloadView {
        match self {
            CredentialQueryPayload::Snmp(c) => PayloadView::Snmp(c.view()),
            CredentialQueryPayload::DockerProxy(c) => PayloadView::DockerProxy(c.view()),
            CredentialQueryPayload::DockerSocket(c) => PayloadView::DockerSocket(opt_text(c.socket_path)),
            CredentialQueryPayload::PodmanProxy(c) => PayloadView::PodmanProxy(c.view()),
            CredentialQueryPayload::PodmanSocket(c) => PayloadView::PodmanSocket(opt_text(c.socket_path)),
            CredentialQueryPayload::Gnmi(c) => PayloadView::Gnmi(c.view()),
            CredentialQueryPayload::Unknown => PayloadView::Unknown,
        }
    }

    pub open spec fn kind_of(self) -> PayloadKind {
        match self {
            CredentialQueryPayload::Snmp(_) => PayloadKind::Snmp,
            CredentialQueryPayload::DockerProxy(_) => PayloadKind::DockerProxy,
            CredentialQueryPayload::DockerSocket(_) => PayloadKind::DockerSocket,
            CredentialQueryPayload::PodmanProxy(_) => PayloadKind::PodmanProxy,
            CredentialQueryPayload::PodmanSocket(_) => PayloadKind::PodmanSocket,
            CredentialQueryPayload::Gnmi(_) => PayloadKind::Gnmi,
            CredentialQueryPayload::Unknown => PayloadKind::Unknown,
        }
    }

    /// Which wire type this payload is.
    pub fn kind(&self) -> (r: PayloadKind)
        ensures
            r == self.kind_of(),
    {
        match self {
            CredentialQueryPayload::Snmp(_) => PayloadKind::Snmp,
            CredentialQueryPayload::DockerProxy(_) => PayloadKind::DockerProxy,
            CredentialQueryPayload::DockerSocket(_) => PayloadKind::DockerSocket,
            CredentialQueryPayload::PodmanProxy(_) => PayloadKind::PodmanProxy,
            CredentialQueryPayload::PodmanSocket(_) => PayloadKind::PodmanSocket,
            CredentialQueryPayload::Gnmi(_) => PayloadKind::Gnmi,
            CredentialQueryPayload::Unknown => PayloadKind::Unknown,
        }
    }

    /// The proxy credential of either container-runtime proxy variant.
    pub fn as_container_proxy(&self) -> (r: Option<&DockerProxyQueryCredential>)
        ensures
            match self {
                CredentialQueryPayload::DockerProxy(c) => r == Some(c),
                CredentialQueryPayload::PodmanProxy(c) => r == Some(c),
                _ => r is None,
            },
    {
        match self {
            CredentialQueryPayload::DockerProxy(c) => Some(c),
            CredentialQueryPayload::PodmanProxy(c) => Some(c),
            _ => None,
        }
    }

    pub open spec fn scan_ports(self) -> Seq<u16> {
        match self {
            CredentialQueryPayload::Snmp(_) => seq![161u16, 1161u16],
            CredentialQueryPayload::Gnmi(g) => seq![g.port],
            CredentialQueryPayload::DockerProxy(d) => seq![d.port],
            CredentialQueryPayload::PodmanProxy(d) => seq![d.port],
            _ => Seq::empty(),
        }
    }

    /// Ports a light scan must include so this credential's endpoint is found.
    pub fn required_scan_ports(&self) -> (r: Vec<u16>)
        ensures
            r@ == self.scan_ports(),
    {
        match self {
            CredentialQueryPayload::Snmp(_) => vec![161, 1161],
            CredentialQueryPayload::Gnmi(g) => vec![g.port],
            CredentialQueryPayload::DockerProxy(d) => vec![d.port],
            CredentialQueryPayload::PodmanProxy(d) => vec![d.port],
            _ => Vec::new(),
        }
    }

    /// What discovery says it is doing with this credential.
    pub fn discovery_label(&self) -> (r: &'static str)
        ensures
            r@ == self.kind_of().label(),
    {
        match self {
            CredentialQueryPayload::Snmp(_) => "SNMP queries",
            CredentialQueryPayload::Gnmi(_) => "gNMI queries",
            CredentialQueryPayload::DockerProxy(_) => "Docker proxy connection",
            CredentialQueryPayload::DockerSocket(_) => "Docker socket connection",
            CredentialQueryPayload::PodmanProxy(_) => "Podman proxy connection",
            CredentialQueryPayload::PodmanSocket(_) => "Podman socket connection",
            CredentialQueryPayload::Unknown => "unknown credential",
        }
    }

    pub open spec fn banner_spec(self) -> Seq<(Seq<char>, BannerSource)> {
        match self {
            CredentialQueryPayload::Snmp(c) => c.banner_spec(),
            CredentialQueryPayload::DockerProxy(c) => c.banner_spec(),
            CredentialQueryPayload::PodmanProxy(c) => c.banner_spec(),
            _ => Seq::empty(),
        }
    }

    /// The banner lines logged for this credential.
    pub fn banner_lines(&self) -> (r: Vec<BannerField>)
        ensures
            banner_matches(r@, self.banner_spec()),
    {
        match self {
            CredentialQueryPayload::Snmp(c) => c.banner_lines(),
            CredentialQueryPayload::DockerProxy(c) => c.banner_lines(),
            CredentialQueryPayload::PodmanProxy(c) => c.banner_lines(),
            _ => Vec::new(),
        }
    }
}

// ---------------------------------------------------------------------------
// Resolving file paths on the daemon host
// ---------------------------------------------------------------------------

pub open spec fn read_view(r: Result<String, String>) -> Result<Seq<char>, Seq<char>> {
    match r {
        Ok(c) => Ok(c@),
        Err(e) => Err(e@),
    }
}

pub open spec fn reads_view(r: Seq<Result<String, String>>) -> Seq<Result<Seq<char>, Seq<char>>> {
    r.map_values(|x: Result<String, String>| read_view(x))
}

/// The path of a file-path value, as a one-element list; empty otherwise.
pub open spec fn path_of(v: Option<Resolvable>) -> Seq<Seq<char>> {
    match v {
        Some(Resolvable::FilePath(p)) => seq![p],
        _ => Seq::empty(),
    }
}

/// The file paths a payload's fields name, in field order.
pub open spec fn payload_paths(p: PayloadView) -> Seq<Seq<char>> {
    match p {
        PayloadView::Snmp(c) => path_of(Some(c.community)),
        PayloadView::DockerProxy(d) => path_of(d.ssl_cert) + path_of(d.ssl_key) + path_of(d.ssl_chain),
        PayloadView::PodmanProxy(d) => path_of(d.ssl_cert) + path_of(d.ssl_key) + path_of(d.ssl_chain),
        PayloadView::Gnmi(g) => path_of(Some(g.password)),
        _ => Seq::empty(),
    }
}

/// The message for a file that could not be read.
pub open spec fn read_failure(field: Seq<char>, path: Seq<char>, label: Seq<char>, e: Seq<char>) -> Seq<char> {
    "Failed to read "@ + field + " from "@ + path + " for "@ + label + ": "@ + e
}

/// A value with its file path replaced by the `k`-th read, or the read's failure.
pub open spec fn resolve_at(v: Resolvable, reads: Seq<Result<Seq<char>, Seq<char>>>, k: int, field: Seq<char>, label: Seq<char>) -> Result<Resolvable, Seq<char>> {
    match v {
        Resolvable::Value(x) => Ok(Resolvable::Value(x)),
        Resolvable::FilePath(p) => match reads[k] {
            Ok(c) => Ok(Resolvable::Value(c)),
            Err(e) => Err(read_failure(field, p, label, e)),
        },
    }
}

pub open spec fn resolve_opt_at(v: Option<Resolvable>, reads: Seq<Result<Seq<char>, Seq<char>>>, k: int, field: Seq<char>, label: Seq<char>) -> Result<Option<Resolvable>, Seq<char>> {
    match v {
        None => Ok(None),
        Some(x) => match resolve_at(x, reads, k, field, label) {
            Ok(y) => Ok(Some(y)),
            Err(e) => Err(e),
        },
    }
}

/// The PEM verdict on a resolved inline value, if it is one.
pub open spec fn pem_check(v: Option<Resolvable>, format: InlineFormat, field: Seq<char>) -> Option<Seq<char>> {
    match v {
        Some(Resolvable::Value(x)) => format.verdict(x, field),
        _ => None,
    }
}

/// A proxy credential with its TLS files read, then its PEM material checked.
pub open spec fn resolve_proxy(d: ProxyView, reads: Seq<Result<Seq<char>, Seq<char>>>, label: Seq<char>) -> Result<ProxyView, Seq<char>> {
    let k_key = path_of(d.ssl_cert).len() as int;
    let k_chain = k_key + path_of(d.ssl_key).len();
    let cert = resolve_opt_at(d.ssl_cert, reads, 0, "ssl_cert"@, label);
    let key = resolve_opt_at(d.ssl_key, reads, k_key, "ssl_key"@, label);
    let chain = resolve_opt_at(d.ssl_chain, reads, k_chain, "ssl_chain"@, label);
    if cert is Err {
        Err(cert->Err_0)
    } else if key is Err {
        Err(key->Err_0)
    } else if chain is Err {
        Err(chain->Err_0)
    } else if pem_check(cert->Ok_0, InlineFormat::PemCertificate, "SSL Certificate"@) is Some {
        Err(pem_check(cert->Ok_0, InlineFormat::PemCertificate, "SSL Certificate"@)->0)
    } else if pem_check(key->Ok_0, InlineFormat::PemPrivateKey, "SSL Private Key"@) is Some {
        Err(pem_check(key->Ok_0, InlineFormat::PemPrivateKey, "SSL Private Key"@)->0)
    } else if pem_check(chain->Ok_0, InlineFormat::PemCertificate, "SSL CA Chain"@) is Some {
        Err(pem_check(chain->Ok_0, InlineFormat::PemCertificate, "SSL CA Chain"@)->0)
    } else {
        Ok(ProxyView { port: d.port, path: d.path, ssl_cert: cert->Ok_0, ssl_key: key->Ok_0, ssl_chain: chain->Ok_0 })
    }
}

/// A payload with every file-path field replaced by what reading the file
/// gave, `reads` holding those reads in the order `payload_paths` lists the
/// paths; the first failed read, then the first PEM field that fails
/// validation, is the error.
pub open spec fn resolved(p: PayloadView, reads: Seq<Result<Seq<char>, Seq<char>>>, label: Seq<char>) -> Result<PayloadView, Seq<char>> {
    match p {
        PayloadView::Snmp(c) => match resolve_at(c.community, reads, 0, "community"@, label) {
            Ok(v) => Ok(PayloadView::Snmp(SnmpView { version: c.version, community: v })),
            Err(e) => Err(e),
        },
        PayloadView::DockerProxy(d) => match resolve_proxy(d, reads, label) {
            Ok(v) => Ok(PayloadView::DockerProxy(v)),
            Err(e) => Err(e),
        },
        PayloadView::PodmanProxy(d) => match resolve_proxy(d, reads, label) {
            Ok(v) => Ok(PayloadView::PodmanProxy(v)),
            Err(e) => Err(e),
        },
        PayloadView::Gnmi(g) => match resolve_at(g.password, reads, 0, "password"@, label) {
            Ok(v) => Ok(PayloadView::Gnmi(GnmiView { password: v, ..g })),
            Err(e) => Err(e),
        },
        other => Ok(other),
    }
}

fn failure(field: &str, path: &String, label: &str, e: &String) -> (r: FieldError)
    ensures
        r.message@ == read_failure(field@, path@, label@, e@),
{
    let mut m = crate::text::join3("Failed to read ", field, " from ");
    m.append(path.as_str());
    m.append(" for ");
    m.append(label);
    m.append(": ");
    m.append(e.as_str());
    FieldError { message: m }
}

fn resolve_value_at(v: &ResolvableValue, reads: &Vec<Result<String, String>>, k: usize, field: &str, label: &str) -> (r: Result<ResolvableValue, FieldError>)
    requires
        v.view() is FilePath ==> k < reads@.len(),
    ensures
        match (r, resolve_at(v.view(), reads_view(reads@), k as int, field@, label@)) {
            (Ok(x), Ok(y)) => x.view() == y,
            (Err(x), Err(y)) => x.message@ == y,
            _ => false,
        },
{
    match v {
        ResolvableValue::Value { value } => Ok(ResolvableValue::Value { value: value.clone() }),
        ResolvableValue::FilePath { path } => match &reads[k] {
            Ok(c) => Ok(ResolvableValue::Value { value: c.clone() }),
            Err(e) => Err(failure(field, path, label, e)),
        },
    }
}

fn resolve_secret_at(v: &ResolvableSecret, reads: &Vec<Result<String, String>>, k: usize, field: &str, label: &str) -> (r: Result<ResolvableSecret, FieldError>)
    requires
        v.view() is FilePath ==> k < reads@.len(),
    ensures
        match (r, resolve_at(v.view(), reads_view(reads@), k as int, field@, label@)) {
            (Ok(x), Ok(y)) => x.view() == y,
            (Err(x), Err(y)) => x.message@ == y,
            _ => false,
        },
{
    match v {
        ResolvableSecret::Value { value } => Ok(ResolvableSecret::Value { value: value.clone() }),
        ResolvableSecret::FilePath { path } => match &reads[k] {
            Ok(c) => Ok(ResolvableSecret::Value { value: c.clone() }),
            Err(e) => Err(failure(field, path, label, e)),
        },
    }
}

fn path_count_value(v: &Option<ResolvableValue>) -> (r: usize)
    ensures
        r == path_of(opt_value(*v)).len(),
{
    match v {
        Some(ResolvableValue::FilePath { .. }) => 1,
        _ => 0,
    }
}

fn check_pem_value(v: &Option<ResolvableValue>, format: InlineFormat, field: &str) -> (r: Result<(), FieldError>)
    ensures
        outcome(r) == pem_check(opt_value(*v), format, field@),
{
    match v {
        Some(ResolvableValue::Value { value }) => format.validate(value.as_str(), field),
        _ => Ok(()),
    }
}

fn check_pem_secret(v: &Option<ResolvableSecret>, format: InlineFormat, field: &str) -> (r: Result<(), FieldError>)
    ensures
        outcome(r) == pem_check(opt_secret(*v), format, field@),
{
    match v {
        Some(ResolvableSecret::Value { value }) => format.validate(value.as_str(), field),
        _ => Ok(()),
    }
}

impl DockerProxyQueryCredential {
    fn resolve_files(&self, reads: &Vec<Result<String, String>>, label: &str) -> (r: Result<DockerProxyQueryCredential, FieldError>)
        requires
            reads@.len() == payload_paths(PayloadView::DockerProxy(self.view())).len(),
        ensures
            match (r, resolve_proxy(self.view(), reads_view(reads@), label@)) {
                (Ok(x), Ok(y)) => x.view() == y,
                (Err(x), Err(y)) => x.message@ == y,
                _ => false,
            },
    {
        let k_key = path_count_value(&self.ssl_cert);
        let k_chain = k_key + match &self.ssl_key {
            Some(ResolvableSecret::FilePath { .. }) => 1,
            _ => 0,
        };
        let ssl_cert = match &self.ssl_cert {
            Some(c) => match resolve_value_at(c, reads, 0, "ssl_cert", label) {
                Ok(v) => Some(v),
                Err(e) => return Err(e),
            },
            None => None,
        };
        let ssl_key = match &self.ssl_key {
            Some(c) => match resolve_secret_at(c, reads, k_key, "ssl_key", label) {
                Ok(v) => Some(v),
                Err(e) => return Err(e),
            },
            None => None,
        };
        let ssl_chain = match &self.ssl_chain {
            Some(c) => match resolve_value_at(c, reads, k_chain, "ssl_chain", label) {
                Ok(v) => Some(v),
                Err(e) => return Err(e),
            },
            None => None,
        };
        match check_pem_value(&ssl_cert, InlineFormat::PemCertificate, "SSL Certificate") {
            Err(e) => return Err(e),
            Ok(_) => {},
        }
        match check_pem_secret(&ssl_key, InlineFormat::PemPrivateKey, "SSL Private Key") {
            Err(e) => return Err(e),
            Ok(_) => {},
        }
        match check_pem_value(&ssl_chain, InlineFormat::PemCertificate, "SSL CA Chain") {
            Err(e) => return Err(e),
            Ok(_) => {},
        }
        let path = match &self.path {
            Some(p) => Some(p.clone()),
            None => None,
        };
        Ok(DockerProxyQueryCredential { port: self.port, path, ssl_cert, ssl_key, ssl_chain })
    }
}

impl CredentialQueryPayload {
    /// The file paths this payload's fields name, in field order: the files a
    /// daemon reads to resolve it.
    pub fn file_paths(&self) -> (r: Vec<String>)
        ensures
            crate::text::texts(r@) == payload_paths(self.view()),
    {
        let mut out: Vec<String> = Vec::new();
        match self {
            CredentialQueryPayload::Snmp(c) => {
                if let ResolvableSecret::FilePath { path } = &c.community {
                    out.push(path.clone());
                }
            },
            CredentialQueryPayload::DockerProxy(d) | CredentialQueryPayload::PodmanProxy(d) => {
                if let Some(ResolvableValue::FilePath { path }) = &d.ssl_cert {
                    out.push(path.clone());
                }
                if let Some(ResolvableSecret::FilePath { path }) = &d.ssl_key {
                    out.push(path.clone());
                }
                if let Some(ResolvableValue::FilePath { path }) = &d.ssl_chain {
                    out.push(path.clone());
                }
            },
            CredentialQueryPayload::Gnmi(g) => {
                if let ResolvableSecret::FilePath { path } = &g.password {
                    out.push(path.clone());
                }
            },
            _ => {},
        }
        proof {
            assert(crate::text::texts(out@) =~= payload_paths(self.view()));
        }
        out
    }

    /// This payload with every file-path field replaced by the file's contents,
    /// `reads` holding what reading each of `file_paths()` gave, in that order;
    /// TLS material is then checked to be PEM of the right kind.
    pub fn resolve_file_paths(&self, reads: &Vec<Result<String, String>>) -> (r: Result<CredentialQueryPayload, FieldError>)
        requires
            reads@.len() == payload_paths(self.view()).len(),
        ensures
            match (r, resolved(self.view(), reads_view(reads@), self.kind_of().label())) {
                (Ok(x), Ok(y)) => x.view() == y,
                (Err(x), Err(y)) => x.message@ == y,
                _ => false,
            },
    {
        let label = self.discovery_label();
        match self {
            CredentialQueryPayload::Snmp(c) => match resolve_secret_at(&c.community, reads, 0, "community", label) {
                Ok(v) => Ok(CredentialQueryPayload::Snmp(SnmpQueryCredential { version: c.version, community: v })),
                Err(e) => Err(e),
            },
            CredentialQueryPayload::DockerProxy(d) => match d.resolve_files(reads, label) {
                Ok(v) => Ok(CredentialQueryPayload::DockerProxy(v)),
                Err(e) => Err(e),
            },
            CredentialQueryPayload::PodmanProxy(d) => match d.resolve_files(reads, label) {
                Ok(v) => Ok(CredentialQueryPayload::PodmanProxy(v)),
                Err(e) => Err(e),
            },
            CredentialQueryPayload::DockerSocket(d) => Ok(CredentialQueryPayload::DockerSocket(
                ContainerSocketQueryCredential { socket_path: opt_clone(&d.socket_path) },
            )),
            CredentialQueryPayload::PodmanSocket(d) => Ok(CredentialQueryPayload::PodmanSocket(
                ContainerSocketQueryCredential { socket_path: opt_clone(&d.socket_path) },
            )),
            CredentialQueryPayload::Gnmi(g) => match resolve_secret_at(&g.password, reads, 0, "password", label) {
                Ok(v) => Ok(
                    CredentialQueryPayload::Gnmi(
                        GnmiQueryCredential {
                            port: g.port,
                            username: g.username.clone(),
                            password: v,
                            tls: g.tls,
                            skip_verify: g.skip_verify,
                        },
                    ),
                ),
                Err(e) => Err(e),
            },
            CredentialQueryPayload::Unknown => Ok(CredentialQueryPayload::Unknown),
        }
    }
}

fn opt_clone(s: &Option<String>) -> (r: Option<String>)
    ensures
        opt_text(r) == opt_text(*s),
{
    match s {
        Some(t) => Some(t.clone()),
        None => None,
    }
}

} // verus!
