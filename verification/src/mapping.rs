//! Credential mappings for discovery dispatch: a network default credential
//! plus per-address overrides, the per-daemon integration targets, and the
//! credential payloads sent to daemons with their banner lines.

use vstd::prelude::*;

use crate::ids::Uuid;
use crate::net::IpAddress;

verus! {

// ---------------------------------------------------------------------------
// Identifier text
// ---------------------------------------------------------------------------

/// The lowest `n` hexadecimal digits of `v`, most significant first, zero-padded.
pub open spec fn hex_fixed(v: nat, n: nat) -> Seq<char>
    decreases n,
{
    if n == 0 {
        Seq::empty()
    } else {
        hex_fixed(v / 16, (n - 1) as nat).push(crate::text::hex_digit(v % 16))
    }
}

/// The hyphenated lowercase form of a UUID, `xxxxxxxx-xxxx-xxxx-xxxx-xxxxxxxxxxxx`,
/// its 32 hexadecimal digits being the 128-bit value most significant first.
pub open spec fn uuid_hyphenated(v: u128) -> Seq<char> {
    let d = hex_fixed(v as nat, 32);
    d.subrange(0, 8) + seq!['-'] + d.subrange(8, 12) + seq!['-'] + d.subrange(12, 16) + seq!['-']
        + d.subrange(16, 20) + seq!['-'] + d.subrange(20, 32)
}

/// `uuid::Uuid::from_u128(v).to_string()`: the uuid crate builds the identifier
/// from the big-endian bytes of `v` and displays it hyphenated in lowercase
/// hexadecimal, which the contract states.
#[verifier::external_body]
pub(crate) fn uuid_text(id: Uuid) -> (r: String)
    ensures
        r@ == uuid_hyphenated(id.value),
{
    uuid::Uuid::from_u128(id.value).to_string()
}

// ---------------------------------------------------------------------------
// Credential mapping
// ---------------------------------------------------------------------------

/// A credential for one specific address.
#[derive(Debug)]
pub struct IpOverride<T> {
    pub ip: IpAddress,
    pub credential: T,
    /// The server-side credential this override came from; nil when there is none.
    pub credential_id: Uuid,
}

impl<T> IpOverride<T> {
    /// Whether this override targets the local host (exactly 127.0.0.1 or `::1`).
    pub fn is_localhost(&self) -> (r: bool)
        ensures
            r == self.ip.localhost(),
    {
        self.ip.is_localhost()
    }
}

/// A default credential for a network plus per-address overrides.
#[derive(Debug)]
pub struct CredentialMapping<T> {
    pub default_credential: Option<T>,
    pub ip_overrides: Vec<IpOverride<T>>,
}

/// Override `i` is the first in `ovs` for `ip`.
pub open spec fn first_override_at<T>(ovs: Seq<IpOverride<T>>, ip: IpAddress, i: int) -> bool {
    &&& 0 <= i < ovs.len()
    &&& ovs[i].ip == ip
    &&& forall|j: int| 0 <= j < i ==> (#[trigger] ovs[j]).ip != ip
}

/// No override in `ovs` is for `ip`.
pub open spec fn no_override<T>(ovs: Seq<IpOverride<T>>, ip: IpAddress) -> bool {
    forall|j: int| 0 <= j < ovs.len() ==> (#[trigger] ovs[j]).ip != ip
}

/// The credential ids of the overrides in `ovs` that are not nil.
pub open spec fn override_ids<T>(ovs: Seq<IpOverride<T>>) -> Set<Uuid> {
    Set::new(|id: Uuid| !id.nil_spec() && exists|i: int| 0 <= i < ovs.len() && (#[trigger] ovs[i]).credential_id == id)
}

impl<T> Default for CredentialMapping<T> {
    /// No default credential and no overrides.
    fn default() -> (r: CredentialMapping<T>)
        ensures
            r.default_credential is None,
            r.ip_overrides@.len() == 0,
    {
        CredentialMapping { default_credential: None, ip_overrides: Vec::new() }
    }
}

impl<T> CredentialMapping<T> {
    /// Whether any credential is configured.
    pub fn is_enabled(&self) -> (r: bool)
        ensures
            r == (self.default_credential is Some || self.ip_overrides@.len() > 0),
    {
        self.default_credential.is_some() || self.ip_overrides.len() > 0
    }

    /// The credential for `ip`: its first override, else the default.
    pub fn get_credential_for_ip(&self, ip: &IpAddress) -> (r: Option<&T>)
        ensures
            match r {
                Some(c) => (exists|i: int|
                    first_override_at(self.ip_overrides@, *ip, i) && *c == (#[trigger] self.ip_overrides@[i]).credential)
                    || (no_override(self.ip_overrides@, *ip) && self.default_credential == Some(*c)),
                None => no_override(self.ip_overrides@, *ip) && self.default_credential is None,
            },
    {
        let mut i: usize = 0;
        while i < self.ip_overrides.len()
            invariant
                i <= self.ip_overrides@.len(),
                forall|j: int| 0 <= j < i ==> (#[trigger] self.ip_overrides@[j]).ip != *ip,
            decreases self.ip_overrides@.len() - i,
        {
            if self.ip_overrides[i].ip == *ip {
                proof {
                    assert(first_override_at(self.ip_overrides@, *ip, i as int));
                }
                return Some(&self.ip_overrides[i].credential);
            }
            i = i + 1;
        }
        self.default_credential.as_ref()
    }

    /// The distinct non-nil credential ids the overrides reference.
    pub fn credential_ids(&self) -> (r: Vec<Uuid>)
        ensures
            r@.to_set() == override_ids(self.ip_overrides@),
            r@.no_duplicates(),
    {
        let mut out: Vec<Uuid> = Vec::new();
        let mut i: usize = 0;
        while i < self.ip_overrides.len()
            invariant
                i <= self.ip_overrides@.len(),
                out@.no_duplicates(),
                forall|k: int| 0 <= k < out@.len() ==> !(#[trigger] out@[k]).nil_spec(),
                forall|id: Uuid| #[trigger] out@.contains(id) <==> (!id.nil_spec() && exists|j: int|
                    0 <= j < i && (#[trigger] self.ip_overrides@[j]).credential_id == id),
            decreases self.ip_overrides@.len() - i,
        {
            let id = self.ip_overrides[i].credential_id;
            let ghost before = out@;
            if !id.is_nil() && !crate::ids::contains_id(&out, id) {
                out.push(id);
                proof {
                    assert forall|a: int, b: int| 0 <= a < b < out@.len() implies out@[a] != out@[b] by {
                        if b == out@.len() - 1 {
                            assert(out@[a] == before[a]);
                            assert(before.contains(before[a]));
                        } else {
                            assert(out@[a] == before[a] && out@[b] == before[b]);
                        }
                    }
                }
            }
            proof {
                assert forall|x: Uuid| #[trigger] out@.contains(x) <==> (!x.nil_spec() && exists|j: int|
                    0 <= j < i + 1 && (#[trigger] self.ip_overrides@[j]).credential_id == x) by {
                    if out@.contains(x) {
                        if !before.contains(x) {
                            assert(x == id);
                            assert(self.ip_overrides@[i as int].credential_id == x);
                        } else {
                            let j = choose|j: int| 0 <= j < i && (#[trigger] self.ip_overrides@[j]).credential_id == x;
                            assert(0 <= j < i + 1);
                        }
                    }
                    if !x.nil_spec() && exists|j: int| 0 <= j < i + 1 && (#[trigger] self.ip_overrides@[j]).credential_id == x {
                        let j = choose|j: int| 0 <= j < i + 1 && (#[trigger] self.ip_overrides@[j]).credential_id == x;
                        if j < i {
                            assert(before.contains(x));
                            let k = choose|k: int| 0 <= k < before.len() && before[k] == x;
                            assert(out@[k] == x);
                        } else {
                            assert(x == id);
                            if !before.contains(x) {
                                assert(out@[out@.len() - 1] == x);
                            } else {
                                let k = choose|k: int| 0 <= k < before.len() && before[k] == x;
                                assert(out@[k] == x);
                            }
                        }
                    }
                }
            }
            i = i + 1;
        }
        proof {
            assert forall|x: Uuid| #[trigger] out@.to_set().contains(x) <==> override_ids(self.ip_overrides@).contains(x) by {
                assert(out@.to_set().contains(x) <==> out@.contains(x));
            }
            assert(out@.to_set() =~= override_ids(self.ip_overrides@));
        }
        out
    }
}

// ---------------------------------------------------------------------------
// Integration targets
// ---------------------------------------------------------------------------

/// Where one stored credential applies on one daemon.
#[derive(Debug)]
pub enum IntegrationTarget {
    /// The daemon's own host.
    DaemonHost { credential_id: Uuid },
    /// Every host on the network.
    Network { credential_id: Uuid },
    /// The listed host addresses.
    Hosts { credential_id: Uuid, ips: Vec<IpAddress> },
}

/// Address texts joined by `+`.
pub open spec fn joined_ips(ips: Seq<IpAddress>) -> Seq<char>
    decreases ips.len(),
{
    if ips.len() == 0 {
        Seq::empty()
    } else if ips.len() == 1 {
        ips[0].text()
    } else {
        joined_ips(ips.drop_last()) + seq!['+'] + ips.last().text()
    }
}

impl IntegrationTarget {
    pub open spec fn id_of(self) -> Uuid {
        match self {
            IntegrationTarget::DaemonHost { credential_id } => credential_id,
            IntegrationTarget::Network { credential_id } => credential_id,
            IntegrationTarget::Hosts { credential_id, .. } => credential_id,
        }
    }

    /// The token the daemon's `--credential-id` option reads: `ID@127.0.0.1` for
    /// the daemon host, the bare `ID` for the network, `ID@IP+IP...` for hosts.
    pub open spec fn token_text(self) -> Seq<char> {
        match self {
            IntegrationTarget::DaemonHost { credential_id } => uuid_hyphenated(credential_id.value)
                + "@127.0.0.1"@,
            IntegrationTarget::Network { credential_id } => uuid_hyphenated(credential_id.value),
            IntegrationTarget::Hosts { credential_id, ips } => uuid_hyphenated(credential_id.value)
                + seq!['@'] + joined_ips(ips@),
        }
    }

    /// The stored credential this target references.
    pub fn credential_id(&self) -> (r: Uuid)
        ensures
            r == self.id_of(),
    {
        match self {
            IntegrationTarget::DaemonHost { credential_id } => *credential_id,
            IntegrationTarget::Network { credential_id } => *credential_id,
            IntegrationTarget::Hosts { credential_id, .. } => *credential_id,
        }
    }

    /// This target as a daemon credential token.
    pub fn token(&self) -> (r: String)
        ensures
            r@ == self.token_text(),
    {
        match self {
            IntegrationTarget::DaemonHost { credential_id } => {
                let mut t = uuid_text(*credential_id);
                t.append("@127.0.0.1");
                t
            },
            IntegrationTarget::Network { credential_id } => uuid_text(*credential_id),
            IntegrationTarget::Hosts { credential_id, ips } => {
                proof {
                    reveal_strlit("@");
                    reveal_strlit("+");
                    assert("@"@ =~= seq!['@']);
                    assert("+"@ =~= seq!['+']);
                }
                let mut t = uuid_text(*credential_id);
                t.append("@");
                let ghost head = t@;
                let mut i: usize = 0;
                while i < ips.len()
                    invariant
                        i <= ips@.len(),
                        t@ == head + joined_ips(ips@.take(i as int)),
                        "+"@ == seq!['+'],
                    decreases ips@.len() - i,
                {
                    let ghost before = t@;
                    if i > 0 {
                        t.append("+");
                    }
                    let a = ips[i].to_text();
                    t.append(a.as_str());
                    proof {
                        let taken = ips@.take(i + 1);
                        assert(taken.drop_last() =~= ips@.take(i as int));
                        assert(taken.last() == ips@[i as int]);
                        if i == 0 {
                            assert(taken.len() == 1);
                            assert(t@ =~= head + joined_ips(taken));
                        } else {
                            assert(t@ =~= head + joined_ips(taken));
                        }
                    }
                    i = i + 1;
                }
                proof {
                    assert(ips@.take(i as int) =~= ips@);
                }
                t
            },
        }
    }
}

/// Where a credential type can apply.
#[derive(Clone, Copy, Debug, PartialEq, Eq, Structural)]
pub enum Target {
    DaemonHost,
    Network,
    Hosts,
}

impl IntegrationTarget {
    pub open spec fn scope(self) -> Target {
        match self {
            IntegrationTarget::DaemonHost { .. } => Target::DaemonHost,
            IntegrationTarget::Network { .. } => Target::Network,
            IntegrationTarget::Hosts { .. } => Target::Hosts,
        }
    }

    /// The scope of this target.
    pub fn target(&self) -> (r: Target)
        ensures
            r == self.scope(),
    {
        match self {
            IntegrationTarget::DaemonHost { .. } => Target::DaemonHost,
            IntegrationTarget::Network { .. } => Target::Network,
            IntegrationTarget::Hosts { .. } => Target::Hosts,
        }
    }
}

fn permits(permitted: &Vec<Target>, t: Target) -> (r: bool)
    ensures
        r == permitted@.contains(t),
{
    let mut i: usize = 0;
    while i < permitted.len()
        invariant
            i <= permitted@.len(),
            forall|j: int| 0 <= j < i ==> permitted@[j] != t,
        decreases permitted@.len() - i,
    {
        if permitted[i] == t {
            proof {
                assert(permitted@[i as int] == t);
            }
            return true;
        }
        i = i + 1;
    }
    false
}

/// Whether every host in `hosts` runs a daemon.
pub open spec fn all_run_daemons(hosts: Seq<Uuid>, daemon_hosts: Seq<Uuid>) -> bool {
    forall|i: int| 0 <= i < hosts.len() ==> daemon_hosts.contains(#[trigger] hosts[i])
}

/// The refusal of a credential's assignments its type does not support, if any.
pub open spec fn targets_problem(
    permitted: Seq<Target>,
    integration: Seq<char>,
    network_count: nat,
    hosts: Seq<Uuid>,
    daemon_hosts: Seq<Uuid>,
) -> Option<Seq<char>> {
    if network_count > 0 && !permitted.contains(Target::Network) {
        Some(integration + " credentials cannot be assigned to a network — a network assignment is offered to every host on the subnet. Assign it to specific hosts instead."@)
    } else if hosts.len() == 0 || permitted.contains(Target::Hosts) {
        None
    } else if !permitted.contains(Target::DaemonHost) {
        Some(integration + " credentials cannot be assigned to hosts."@)
    } else if !all_run_daemons(hosts, daemon_hosts) {
        Some(integration + " credentials run on a daemon's own host, so they can only be assigned to a host that runs a daemon."@)
    } else {
        None
    }
}

/// Refuse assignments a credential type does not support: a network
/// assignment unless the type applies network-wide; host assignments unless
/// it applies to hosts, or, for a type that applies only to a daemon's own
/// host, unless every assigned host runs a daemon.
pub fn check_supported_targets(
    permitted: &Vec<Target>,
    integration: &str,
    network_count: usize,
    hosts: &Vec<Uuid>,
    daemon_hosts: &Vec<Uuid>,
) -> (r: Result<(), String>)
    ensures
        match (r, targets_problem(permitted@, integration@, network_count as nat, hosts@, daemon_hosts@)) {
            (Ok(_), None) => true,
            (Err(m), Some(p)) => m@ == p,
            _ => false,
        },
{
    if network_count > 0 && !permits(permitted, Target::Network) {
        return Err(crate::text::join2(
            integration,
            " credentials cannot be assigned to a network — a network assignment is offered to every host on the subnet. Assign it to specific hosts instead.",
        ));
    }
    if hosts.len() == 0 || permits(permitted, Target::Hosts) {
        return Ok(());
    }
    if !permits(permitted, Target::DaemonHost) {
        return Err(crate::text::join2(integration, " credentials cannot be assigned to hosts."));
    }
    let mut i: usize = 0;
    while i < hosts.len()
        invariant
            i <= hosts@.len(),
            !(network_count > 0 && !permitted@.contains(Target::Network)),
            hosts@.len() > 0 && !permitted@.contains(Target::Hosts) && permitted@.contains(Target::DaemonHost),
            forall|j: int| 0 <= j < i ==> daemon_hosts@.contains(#[trigger] hosts@[j]),
        decreases hosts@.len() - i,
    {
        if !crate::ids::contains_id(daemon_hosts, hosts[i]) {
            proof {
                assert(!daemon_hosts@.contains(hosts@[i as int]));
            }
            return Err(crate::text::join2(
                integration,
                " credentials run on a daemon's own host, so they can only be assigned to a host that runs a daemon.",
            ));
        }
        i = i + 1;
    }
    Ok(())
}

// ---------------------------------------------------------------------------
// Values resolved on the daemon, and the banner that reports them
// ---------------------------------------------------------------------------

/// A non-secret value given inline or as a file path on the daemon host.
#[derive(Debug, Clone, PartialEq, Eq)]
pub enum ResolvableValue {
    Value { value: String },
    FilePath { path: String },
}

/// A secret value given inline or as a file path on the daemon host.
#[derive(Clone, PartialEq, Eq)]
pub enum ResolvableSecret {
    Value { value: String },
    FilePath { path: String },
}

/// An inline or file-path value as plain text.
pub enum Resolvable {
    Value(Seq<char>),
    FilePath(Seq<char>),
}

impl ResolvableValue {
    pub open spec fn view(self) -> Resolvable {
        match self {
            ResolvableValue::Value { value } => Resolvable::Value(value@),
            ResolvableValue::FilePath { path } => Resolvable::FilePath(path@),
        }
    }

    /// A copy of this value.
    pub fn duplicate(&self) -> (r: ResolvableValue)
        ensures
            r.view() == self.view(),
    {
        match self {
            ResolvableValue::Value { value } => ResolvableValue::Value { value: value.clone() },
            ResolvableValue::FilePath { path } => ResolvableValue::FilePath { path: path.clone() },
        }
    }
}

impl ResolvableSecret {
    pub open spec fn view(self) -> Resolvable {
        match self {
            ResolvableSecret::Value { value } => Resolvable::Value(value@),
            ResolvableSecret::FilePath { path } => Resolvable::FilePath(path@),
        }
    }

    /// A copy of this secret.
    pub fn duplicate(&self) -> (r: ResolvableSecret)
        ensures
            r.view() == self.view(),
    {
        match self {
            ResolvableSecret::Value { value } => ResolvableSecret::Value { value: value.clone() },
            ResolvableSecret::FilePath { path } => ResolvableSecret::FilePath { path: path.clone() },
        }
    }

    /// Whether two secrets are the same inline value or the same file path.
    pub fn same_as(&self, other: &ResolvableSecret) -> (r: bool)
        ensures
            r == (self.view() == other.view()),
    {
        match (self, other) {
            (ResolvableSecret::Value { value: a }, ResolvableSecret::Value { value: b }) => crate::text::same_text(a.as_str(), b.as_str()),
            (ResolvableSecret::FilePath { path: a }, ResolvableSecret::FilePath { path: b }) => crate::text::same_text(a.as_str(), b.as_str()),
            _ => false,
        }
    }
}

/// How one banner line shows its value.
#[derive(Debug)]
pub enum BannerFieldValue {
    /// A short non-secret inline value, shown as is.
    Plain(String),
    /// A long inline value, shown by its length in bytes.
    InlineSummary(usize),
    /// An inline secret, shown masked with its length in bytes.
    RedactedInline(usize),
    /// A file path that exists.
    FileOk(String),
    /// A file path that does not exist.
    FileFailed(String),
}

/// A banner value as plain values.
pub enum BannerView {
    Plain(Seq<char>),
    InlineSummary(nat),
    RedactedInline(nat),
    FileOk(Seq<char>),
    FileFailed(Seq<char>),
}

impl BannerFieldValue {
    pub open spec fn view(self) -> BannerView {
        match self {
            BannerFieldValue::Plain(v) => BannerView::Plain(v@),
            BannerFieldValue::InlineSummary(n) => BannerView::InlineSummary(n as nat),
            BannerFieldValue::RedactedInline(n) => BannerView::RedactedInline(n as nat),
            BannerFieldValue::FileOk(p) => BannerView::FileOk(p@),
            BannerFieldValue::FileFailed(p) => BannerView::FileFailed(p@),
        }
    }

    /// The text a banner line shows for this value.
    pub open spec fn text_of(self) -> Seq<char> {
        match self {
            BannerFieldValue::Plain(v) => v@,
            BannerFieldValue::InlineSummary(n) => "<inline, "@ + crate::text::decimal(n as nat) + " chars>"@,
            BannerFieldValue::RedactedInline(n) => "******** ("@ + crate::text::decimal(n as nat) + " chars)"@,
            BannerFieldValue::FileOk(p) => "successfully read from "@ + p@,
            BannerFieldValue::FileFailed(p) => "failed to read from "@ + p@,
        }
    }

    /// Whether this value reports a file that could not be read.
    pub fn is_failed(&self) -> (r: bool)
        ensures
            r == (self.view() is FileFailed),
    {
        match self {
            BannerFieldValue::FileFailed(_) => true,
            _ => false,
        }
    }

    /// The text a banner line shows for this value.
    pub fn text(&self) -> (r: String)
        ensures
            r@ == self.text_of(),
    {
        match self {
            BannerFieldValue::Plain(v) => v.clone(),
            BannerFieldValue::InlineSummary(n) => crate::text::join3(
                "<inline, ",
                crate::text::decimal_text(*n as u64).as_str(),
                " chars>",
            ),
            BannerFieldValue::RedactedInline(n) => crate::text::join3(
                "******** (",
                crate::text::decimal_text(*n as u64).as_str(),
                " chars)",
            ),
            BannerFieldValue::FileOk(p) => crate::text::join2("successfully read from ", p.as_str()),
            BannerFieldValue::FileFailed(p) => crate::text::join2("failed to read from ", p.as_str()),
        }
    }
}

/// One line of a credential banner.
#[derive(Debug)]
pub struct BannerField {
    pub label: &'static str,
    pub value: BannerFieldValue,
}

/// What a banner line reports on.
pub enum BannerSource {
    /// A non-secret text shown as is.
    Text(Seq<char>),
    Value(ResolvableValue),
    Secret(ResolvableSecret),
}

/// Inline values longer than this many bytes are summarised by length.
pub const INLINE_DISPLAY_LIMIT: usize = 64;

/// The byte length of `s` as UTF-8, as `str::len` reports it.
pub open spec fn byte_len(s: Seq<char>) -> nat {
    (vstd::utf8::encode_utf8(s).len() as usize) as nat
}

/// The banner value reported for a file path, given whether the file exists.
pub open spec fn file_view(path: Seq<char>, exists: bool) -> BannerView {
    if exists {
        BannerView::FileOk(path)
    } else {
        BannerView::FileFailed(path)
    }
}

/// `b` is a banner value `src` can be reported as: inline values exactly,
/// file paths as read or not depending on whether the file exists.
pub open spec fn banner_from(src: BannerSource, b: BannerView) -> bool {
    match src {
        BannerSource::Text(t) => b == BannerView::Plain(t),
        BannerSource::Value(ResolvableValue::Value { value }) => b == (if byte_len(value@) > INLINE_DISPLAY_LIMIT {
            BannerView::InlineSummary(byte_len(value@))
        } else {
            BannerView::Plain(value@)
        }),
        BannerSource::Secret(ResolvableSecret::Value { value }) => b == BannerView::RedactedInline(byte_len(value@)),
        BannerSource::Value(ResolvableValue::FilePath { path }) => b == file_view(path@, true) || b == file_view(path@, false),
        BannerSource::Secret(ResolvableSecret::FilePath { path }) => b == file_view(path@, true) || b == file_view(path@, false),
    }
}

/// `lines` are the banner lines `expected` describes, label by label.
pub open spec fn banner_matches(lines: Seq<BannerField>, expected: Seq<(Seq<char>, BannerSource)>) -> bool {
    &&& lines.len() == expected.len()
    &&& forall|i: int| 0 <= i < lines.len() ==> (#[trigger] lines[i]).label@ == expected[i].0 && banner_from(expected[i].1, lines[i].value.view())
}

/// `std::path::Path::new(path).exists()`: whether the file system holds an
/// entry at `path` now. Nothing is claimed of the answer, which depends on the disk.
#[verifier::external_body]
fn path_exists(path: &str) -> bool {
    std::path::Path::new(path).exists()
}

/// The banner value of a file path, given whether the file exists.
pub fn file_banner(path: &String, exists: bool) -> (r: BannerFieldValue)
    ensures
        r.view() == file_view(path@, exists),
{
    if exists {
        BannerFieldValue::FileOk(path.clone())
    } else {
        BannerFieldValue::FileFailed(path.clone())
    }
}

impl ResolvableValue {
    /// How the banner shows this value: inline values of at most 64 bytes as
    /// they are, longer ones by length; a file path as read or not, by whether
    /// the file exists.
    pub fn banner_value(&self) -> (r: BannerFieldValue)
        ensures
            banner_from(BannerSource::Value(*self), r.view()),
    {
        match self {
            ResolvableValue::Value { value } => {
                let n = value.as_str().len();
                if n > INLINE_DISPLAY_LIMIT {
                    BannerFieldValue::InlineSummary(n)
                } else {
                    BannerFieldValue::Plain(value.clone())
                }
            },
            ResolvableValue::FilePath { path } => file_banner(path, path_exists(path.as_str())),
        }
    }
}

impl ResolvableSecret {
    /// How the banner shows this secret: inline secrets masked with their
    /// length; a file path as read or not, by whether the file exists.
    pub fn banner_value(&self) -> (r: BannerFieldValue)
        ensures
            banner_from(BannerSource::Secret(*self), r.view()),
    {
        match self {
            ResolvableSecret::Value { value } => BannerFieldValue::RedactedInline(value.as_str().len()),
            ResolvableSecret::FilePath { path } => file_banner(path, path_exists(path.as_str())),
        }
    }
}

} // verus!
