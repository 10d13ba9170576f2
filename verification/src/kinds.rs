//! Credential types: their metadata, the daemon versions that can receive them,
//! their form fields, and stored credential values with their validation and
//! conversion to daemon payloads.

use vstd::prelude::*;

use crate::fields::{FieldError, InlineFormat, outcome};
use crate::mapping::{Resolvable, ResolvableSecret, ResolvableValue};
use crate::payload::{CredentialQueryPayload, DockerProxyQueryCredential, opt_text};
use crate::snmp::{SnmpQueryCredential, SnmpVersion};
use crate::version::{Release, Version, below};

verus! {

/// The kinds of stored credential.
#[derive(Clone, Copy, Debug, PartialEq, Eq, Structural, Hash)]
pub enum CredentialKind {
    SnmpV1,
    SnmpV2c,
    SnmpV3,
    Gnmi,
    DockerProxy,
    DockerSocket,
    PodmanProxy,
    PodmanSocket,
    UnifiApiKey,
    UnifiLocalAdmin,
    InstantOnAccount,
}

/// Category grouping for credential types.
#[derive(Clone, Copy, Debug, PartialEq, Eq, Structural)]
pub enum CredentialCategory {
    /// Polling protocols (SNMP, gNMI).
    NetworkMonitoring,
    /// Container and virtualization platforms.
    ContainerVirtualization,
    /// Controllers that report the devices they have adopted.
    NetworkController,
}

/// Release maturity of a credential type's integration.
#[derive(Clone, Copy, Debug, PartialEq, Eq, Structural)]
pub enum CredentialStability {
    /// Generally available.
    Stable,
    /// Shipped for validation; the field shape may still change.
    Beta,
}

/// Whether the vendor publishes and supports the API a credential type talks to.
#[derive(Clone, Copy, Debug, PartialEq, Eq, Structural)]
pub enum UpstreamSupport {
    Vendor,
    Undocumented,
}

impl CredentialStability {
    /// `Beta` ranks below `Stable`.
    pub open spec fn rank(self) -> int {
        match self {
            CredentialStability::Beta => 0,
            CredentialStability::Stable => 1,
        }
    }

    /// Whether this maturity ranks strictly below `other`.
    pub fn less_mature_than(&self, other: &CredentialStability) -> (r: bool)
        ensures
            r == (self.rank() < other.rank()),
    {
        match (self, other) {
            (CredentialStability::Beta, CredentialStability::Stable) => true,
            _ => false,
        }
    }
}

impl CredentialCategory {
    pub open spec fn name(self) -> Seq<char> {
        match self {
            CredentialCategory::NetworkMonitoring => "Network Monitoring"@,
            CredentialCategory::ContainerVirtualization => "Container & Virtualization"@,
            CredentialCategory::NetworkController => "Network Controllers"@,
        }
    }

    /// The category's display name.
    pub fn as_str(&self) -> (r: &'static str)
        ensures
            r@ == self.name(),
    {
        match self {
            CredentialCategory::NetworkMonitoring => "Network Monitoring",
            CredentialCategory::ContainerVirtualization => "Container & Virtualization",
            CredentialCategory::NetworkController => "Network Controllers",
        }
    }
}

impl CredentialKind {
    pub open spec fn upstream(self) -> UpstreamSupport {
        match self {
            CredentialKind::UnifiApiKey | CredentialKind::UnifiLocalAdmin | CredentialKind::InstantOnAccount => UpstreamSupport::Undocumented,
            _ => UpstreamSupport::Vendor,
        }
    }

    /// Whether the vendor publishes the API behind this credential type: the
    /// UniFi and Instant On integrations ride undocumented APIs.
    pub fn upstream_support(&self) -> (r: UpstreamSupport)
        ensures
            r == self.upstream(),
    {
        match self {
            CredentialKind::SnmpV1 | CredentialKind::SnmpV2c | CredentialKind::SnmpV3 | CredentialKind::Gnmi
            | CredentialKind::DockerProxy | CredentialKind::DockerSocket | CredentialKind::PodmanProxy
            | CredentialKind::PodmanSocket => UpstreamSupport::Vendor,
            CredentialKind::UnifiApiKey | CredentialKind::UnifiLocalAdmin => UpstreamSupport::Undocumented,
            CredentialKind::InstantOnAccount => UpstreamSupport::Undocumented,
        }
    }

    pub open spec fn display_name_of(self) -> Seq<char> {
        match self {
            CredentialKind::SnmpV1 => "SNMP v1"@,
            CredentialKind::SnmpV2c => "SNMP v2c"@,
            CredentialKind::SnmpV3 => "SNMP v3"@,
            CredentialKind::Gnmi => "gNMI"@,
            CredentialKind::DockerProxy => "Docker Proxy"@,
            CredentialKind::DockerSocket => "Docker Socket"@,
            CredentialKind::PodmanProxy => "Podman Proxy"@,
            CredentialKind::PodmanSocket => "Podman Socket"@,
            CredentialKind::UnifiApiKey => "UniFi API Key"@,
            CredentialKind::UnifiLocalAdmin => "UniFi Local Admin"@,
            CredentialKind::InstantOnAccount => "Instant On Portal Account"@,
        }
    }

    /// Display name of this credential transport.
    pub fn display_name(&self) -> (r: &'static str)
        ensures
            r@ == self.display_name_of(),
    {
        match self {
            CredentialKind::SnmpV1 => "SNMP v1",
            CredentialKind::SnmpV2c => "SNMP v2c",
            CredentialKind::SnmpV3 => "SNMP v3",
            CredentialKind::Gnmi => "gNMI",
            CredentialKind::DockerProxy => "Docker Proxy",
            CredentialKind::DockerSocket => "Docker Socket",
            CredentialKind::PodmanProxy => "Podman Proxy",
            CredentialKind::PodmanSocket => "Podman Socket",
            CredentialKind::UnifiApiKey => "UniFi API Key",
            CredentialKind::UnifiLocalAdmin => "UniFi Local Admin",
            CredentialKind::InstantOnAccount => "Instant On Portal Account",
        }
    }

    pub open spec fn discovers(self) -> Seq<char> {
        match self {
            CredentialKind::SnmpV1 | CredentialKind::SnmpV2c | CredentialKind::SnmpV3 => "Discover a host's interfaces, system details, and CDP/LLDP neighbors."@,
            CredentialKind::Gnmi => "Discover a host's interfaces and LLDP neighbors over gNMI (OpenConfig)."@,
            CredentialKind::DockerProxy | CredentialKind::DockerSocket => "Discover Docker containers and the services they expose."@,
            CredentialKind::PodmanProxy | CredentialKind::PodmanSocket => "Discover Podman containers and the services they expose."@,
            CredentialKind::UnifiApiKey | CredentialKind::UnifiLocalAdmin => "Discover UniFi-managed switches, access points and gateways, their ports, and the LLDP neighbors and uplinks the controller sees."@,
            CredentialKind::InstantOnAccount => "Discover Instant On switches, access points and gateways, their ports, the uplinks between them, and the MACs attached to each port."@,
        }
    }

    /// What the integration behind this credential discovers, shared by all of
    /// its transports.
    pub fn integration_discovers(&self) -> (r: &'static str)
        ensures
            r@ == self.discovers(),
    {
        match self {
            CredentialKind::SnmpV1 | CredentialKind::SnmpV2c | CredentialKind::SnmpV3 => "Discover a host's interfaces, system details, and CDP/LLDP neighbors.",
            CredentialKind::Gnmi => "Discover a host's interfaces and LLDP neighbors over gNMI (OpenConfig).",
            CredentialKind::DockerProxy | CredentialKind::DockerSocket => "Discover Docker containers and the services they expose.",
            CredentialKind::PodmanProxy | CredentialKind::PodmanSocket => "Discover Podman containers and the services they expose.",
            CredentialKind::UnifiApiKey | CredentialKind::UnifiLocalAdmin => "Discover UniFi-managed switches, access points and gateways, their ports, and the LLDP neighbors and uplinks the controller sees.",
            CredentialKind::InstantOnAccount => "Discover Instant On switches, access points and gateways, their ports, the uplinks between them, and the MACs attached to each port.",
        }
    }

    pub open spec fn note(self) -> Seq<char> {
        match self {
            CredentialKind::SnmpV1 => "Uses SNMPv1."@,
            CredentialKind::SnmpV2c => "Uses SNMPv2c."@,
            CredentialKind::SnmpV3 => "Uses SNMPv3."@,
            CredentialKind::Gnmi => "Connects over gRPC; username and password travel as request metadata."@,
            CredentialKind::DockerProxy | CredentialKind::PodmanProxy => "Connects over TCP, optionally with TLS."@,
            CredentialKind::DockerSocket | CredentialKind::PodmanSocket => "Connects via the daemon's local socket."@,
            CredentialKind::UnifiApiKey => "Connects with a controller API key. Requires UniFi OS; the legacy self-hosted Network Application does not support API keys."@,
            CredentialKind::UnifiLocalAdmin => "Connects with a local admin account. Works with every controller, including the legacy self-hosted Network Application."@,
            CredentialKind::InstantOnAccount => "Connects to the Instant On cloud portal with a site account."@,
        }
    }

    /// How this transport connects.
    pub fn transport_note(&self) -> (r: &'static str)
        ensures
            r@ == self.note(),
    {
        match self {
            CredentialKind::SnmpV1 => "Uses SNMPv1.",
            CredentialKind::SnmpV2c => "Uses SNMPv2c.",
            CredentialKind::SnmpV3 => "Uses SNMPv3.",
            CredentialKind::Gnmi => "Connects over gRPC; username and password travel as request metadata.",
            CredentialKind::DockerProxy | CredentialKind::PodmanProxy => "Connects over TCP, optionally with TLS.",
            CredentialKind::DockerSocket | CredentialKind::PodmanSocket => "Connects via the daemon's local socket.",
            CredentialKind::UnifiApiKey => "Connects with a controller API key. Requires UniFi OS; the legacy self-hosted Network Application does not support API keys.",
            CredentialKind::UnifiLocalAdmin => "Connects with a local admin account. Works with every controller, including the legacy self-hosted Network Application.",
            CredentialKind::InstantOnAccount => "Connects to the Instant On cloud portal with a site account.",
        }
    }

    pub open spec fn transport(self) -> Seq<char> {
        match self {
            CredentialKind::SnmpV1 => "v1"@,
            CredentialKind::SnmpV2c => "v2c"@,
            CredentialKind::SnmpV3 => "v3"@,
            CredentialKind::Gnmi => "gNMI"@,
            CredentialKind::DockerProxy | CredentialKind::PodmanProxy => "Proxy"@,
            CredentialKind::DockerSocket | CredentialKind::PodmanSocket => "Socket"@,
            CredentialKind::UnifiApiKey => "API Key"@,
            CredentialKind::UnifiLocalAdmin => "Local Admin"@,
            CredentialKind::InstantOnAccount => "Portal Account"@,
        }
    }

    /// Short transport label within an integration.
    pub fn transport_label(&self) -> (r: &'static str)
        ensures
            r@ == self.transport(),
    {
        match self {
            CredentialKind::SnmpV1 => "v1",
            CredentialKind::SnmpV2c => "v2c",
            CredentialKind::SnmpV3 => "v3",
            CredentialKind::Gnmi => "gNMI",
            CredentialKind::DockerProxy | CredentialKind::PodmanProxy => "Proxy",
            CredentialKind::DockerSocket | CredentialKind::PodmanSocket => "Socket",
            CredentialKind::UnifiApiKey => "API Key",
            CredentialKind::UnifiLocalAdmin => "Local Admin",
            CredentialKind::InstantOnAccount => "Portal Account",
        }
    }

    /// The full description: what the integration discovers, then how this
    /// transport connects.
    pub fn full_description(&self) -> (r: String)
        ensures
            r@ == self.discovers() + " "@ + self.note(),
    {
        crate::text::join3(self.integration_discovers(), " ", self.transport_note())
    }

    pub open spec fn category(self) -> CredentialCategory {
        match self {
            CredentialKind::SnmpV1 | CredentialKind::SnmpV2c | CredentialKind::SnmpV3 | CredentialKind::Gnmi => CredentialCategory::NetworkMonitoring,
            CredentialKind::DockerProxy | CredentialKind::DockerSocket | CredentialKind::PodmanProxy | CredentialKind::PodmanSocket => CredentialCategory::ContainerVirtualization,
            CredentialKind::UnifiApiKey | CredentialKind::UnifiLocalAdmin | CredentialKind::InstantOnAccount => CredentialCategory::NetworkController,
        }
    }

    /// The category this credential type is grouped under.
    pub fn credential_category(&self) -> (r: CredentialCategory)
        ensures
            r == self.category(),
    {
        match self {
            CredentialKind::SnmpV1 | CredentialKind::SnmpV2c | CredentialKind::SnmpV3 | CredentialKind::Gnmi => CredentialCategory::NetworkMonitoring,
            CredentialKind::DockerProxy | CredentialKind::DockerSocket | CredentialKind::PodmanProxy | CredentialKind::PodmanSocket => CredentialCategory::ContainerVirtualization,
            CredentialKind::UnifiApiKey | CredentialKind::UnifiLocalAdmin | CredentialKind::InstantOnAccount => CredentialCategory::NetworkController,
        }
    }

    /// The display name of this credential type's category.
    pub fn category_str(&self) -> (r: &'static str)
        ensures
            r@ == self.category().name(),
    {
        self.credential_category().as_str()
    }

    /// The lowest daemon release that can receive credentials of this type.
    pub open spec fn floor(self) -> Release {
        match self {
            CredentialKind::SnmpV2c | CredentialKind::DockerProxy | CredentialKind::DockerSocket => Release { major: 0, minor: 16, patch: 2 },
            CredentialKind::SnmpV1 | CredentialKind::SnmpV3 => Release { major: 0, minor: 17, patch: 0 },
            CredentialKind::PodmanProxy | CredentialKind::PodmanSocket => Release { major: 0, minor: 17, patch: 2 },
            CredentialKind::UnifiApiKey | CredentialKind::UnifiLocalAdmin => Release { major: 0, minor: 17, patch: 7 },
            CredentialKind::Gnmi => Release { major: 0, minor: 17, patch: 12 },
            CredentialKind::InstantOnAccount => Release { major: 0, minor: 17, patch: 11 },
        }
    }

    /// The lowest daemon release that can receive credentials of this type.
    pub fn minimum_daemon_version(&self) -> (r: Release)
        ensures
            r == self.floor(),
    {
        match self {
            CredentialKind::SnmpV2c | CredentialKind::DockerProxy | CredentialKind::DockerSocket => Release::new(0, 16, 2),
            CredentialKind::SnmpV1 | CredentialKind::SnmpV3 => Release::new(0, 17, 0),
            CredentialKind::PodmanProxy | CredentialKind::PodmanSocket => Release::new(0, 17, 2),
            CredentialKind::UnifiApiKey | CredentialKind::UnifiLocalAdmin => Release::new(0, 17, 7),
            CredentialKind::Gnmi => Release::new(0, 17, 12),
            CredentialKind::InstantOnAccount => Release::new(0, 17, 11),
        }
    }

    pub open spec fn maturity(self) -> CredentialStability {
        match self {
            CredentialKind::Gnmi | CredentialKind::InstantOnAccount => CredentialStability::Beta,
            _ => CredentialStability::Stable,
        }
    }

    /// Release maturity of this credential type's integration.
    pub fn stability(&self) -> (r: CredentialStability)
        ensures
            r == self.maturity(),
    {
        match self {
            CredentialKind::SnmpV1 | CredentialKind::SnmpV2c | CredentialKind::SnmpV3 | CredentialKind::DockerProxy
            | CredentialKind::DockerSocket | CredentialKind::PodmanProxy | CredentialKind::PodmanSocket
            | CredentialKind::UnifiApiKey | CredentialKind::UnifiLocalAdmin => CredentialStability::Stable,
            CredentialKind::Gnmi => CredentialStability::Beta,
            CredentialKind::InstantOnAccount => CredentialStability::Beta,
        }
    }

    /// Whether a daemon at `v` can receive this type: at or above its floor;
    /// with no known version, only types whose floor is the 0.16.2 unified wire.
    pub open spec fn compatible(self, v: Option<Version>) -> bool {
        match v {
            Some(x) => !below(x, self.floor()),
            None => crate::version::release_le(self.floor(), Release { major: 0, minor: 16, patch: 2 }),
        }
    }

    /// Whether a daemon at `daemon_version` can safely receive credentials of this type.
    pub fn compatible_with_daemon(&self, daemon_version: Option<&Version>) -> (r: bool)
        ensures
            r == self.compatible(crate::version::duplicate_opt_spec(daemon_version)),
    {
        let floor = self.minimum_daemon_version();
        match daemon_version {
            Some(v) => v.reaches(&floor),
            None => !Release::new(0, 16, 2).precedes(&floor),
        }
    }
}

// ---------------------------------------------------------------------------
// Capability floors
// ---------------------------------------------------------------------------

/// Every credential kind, in declaration order.
pub open spec fn all_kinds_seq() -> Seq<CredentialKind> {
    seq![
        CredentialKind::SnmpV1,
        CredentialKind::SnmpV2c,
        CredentialKind::SnmpV3,
        CredentialKind::Gnmi,
        CredentialKind::DockerProxy,
        CredentialKind::DockerSocket,
        CredentialKind::PodmanProxy,
        CredentialKind::PodmanSocket,
        CredentialKind::UnifiApiKey,
        CredentialKind::UnifiLocalAdmin,
        CredentialKind::InstantOnAccount,
    ]
}

/// Every credential kind, in declaration order.
pub fn all_kinds() -> (r: Vec<CredentialKind>)
    ensures
        r@ == all_kinds_seq(),
{
    vec![
        CredentialKind::SnmpV1,
        CredentialKind::SnmpV2c,
        CredentialKind::SnmpV3,
        CredentialKind::Gnmi,
        CredentialKind::DockerProxy,
        CredentialKind::DockerSocket,
        CredentialKind::PodmanProxy,
        CredentialKind::PodmanSocket,
        CredentialKind::UnifiApiKey,
        CredentialKind::UnifiLocalAdmin,
        CredentialKind::InstantOnAccount,
    ]
}

/// The named version floors this server relies on: the capability floors,
/// then the minimum daemon version of each credential kind.
pub open spec fn capability_floor_list() -> Seq<(Seq<char>, Release)> {
    seq![
        ("minimum_unified_discovery"@, crate::version::unified_discovery_floor()),
        ("minimum_full_server_poll"@, crate::version::full_server_poll_floor()),
        ("minimum_server_provisioned_identity"@, crate::version::provisioned_identity_floor()),
        ("minimum_correct_docker_volume_mount"@, crate::version::docker_volume_mount_floor()),
        ("minimum_targeted_rescan"@, crate::version::targeted_rescan_floor()),
    ] + all_kinds_seq().map_values(|k: CredentialKind| (k.display_name_of() + " credential"@, k.floor()))
}

/// The named version floors this server relies on, each with its name.
pub fn capability_floors() -> (r: Vec<(String, Release)>)
    ensures
        r@.len() == capability_floor_list().len(),
        forall|i: int| 0 <= i < r@.len() ==> (#[trigger] r@[i]).0@ == capability_floor_list()[i].0
            && r@[i].1 == capability_floor_list()[i].1,
{
    let mut floors: Vec<(String, Release)> = Vec::new();
    floors.push((String::from_str("minimum_unified_discovery"), crate::version::minimum_unified_discovery()));
    floors.push((String::from_str("minimum_full_server_poll"), crate::version::minimum_full_server_poll()));
    floors.push((String::from_str("minimum_server_provisioned_identity"), crate::version::minimum_server_provisioned_identity()));
    floors.push((String::from_str("minimum_correct_docker_volume_mount"), crate::version::minimum_correct_docker_volume_mount()));
    floors.push((String::from_str("minimum_targeted_rescan"), crate::version::minimum_targeted_rescan()));
    let kinds = all_kinds();
    proof {
        reveal_strlit("minimum_unified_discovery");
        reveal_strlit("minimum_full_server_poll");
        reveal_strlit("minimum_server_provisioned_identity");
        reveal_strlit("minimum_correct_docker_volume_mount");
        reveal_strlit("minimum_targeted_rescan");
    }
    let mut i: usize = 0;
    while i < kinds.len()
        invariant
            kinds@ == all_kinds_seq(),
            i <= kinds@.len(),
            floors@.len() == 5 + i,
            forall|j: int| 0 <= j < floors@.len() ==> (#[trigger] floors@[j]).0@ == capability_floor_list()[j].0
                && floors@[j].1 == capability_floor_list()[j].1,
        decreases kinds@.len() - i,
    {
        let k = kinds[i];
        let name = crate::text::join2(k.display_name(), " credential");
        floors.push((name, k.minimum_daemon_version()));
        i = i + 1;
    }
    floors
}

// ---------------------------------------------------------------------------
// Form fields
// ---------------------------------------------------------------------------

/// How a field is rendered and validated.
#[derive(Clone, Copy, Debug, PartialEq, Eq, Structural)]
pub enum FieldType {
    String,
    Text,
    Select,
    SecretPathOrInline,
    PathOrInline,
}

/// The choice list of a select field: the SNMPv3 authentication or privacy protocols.
#[derive(Clone, Copy, Debug, PartialEq, Eq, Structural)]
pub enum SelectOptions {
    SnmpV3AuthProtocols,
    SnmpV3PrivProtocols,
}

/// One choice of a select field: the value submitted and the label shown.
#[derive(Clone, Copy, Debug, PartialEq, Eq)]
pub struct SelectOption {
    pub value: &'static str,
    pub label: &'static str,
}

/// One field of a credential form.
#[derive(Debug)]
pub struct FieldDefinition {
    pub id: &'static str,
    pub label: &'static str,
    pub field_type: FieldType,
    pub placeholder: Option<&'static str>,
    /// Whether the value is a secret, masked and never echoed back.
    pub secret: bool,
    /// Whether the field may be left empty.
    pub optional: bool,
    pub help_text: Option<&'static str>,
    pub options: Option<SelectOptions>,
    pub default_value: Option<&'static str>,
    /// What an inline value must look like.
    pub inline_format: Option<InlineFormat>,
    pub group: Option<&'static str>,
}

/// A field as plain values.
pub struct FieldView {
    pub id: Seq<char>,
    pub label: Seq<char>,
    pub field_type: FieldType,
    pub placeholder: Option<Seq<char>>,
    pub secret: bool,
    pub optional: bool,
    pub help_text: Option<Seq<char>>,
    pub options: Option<SelectOptions>,
    pub default_value: Option<Seq<char>>,
    pub inline_format: Option<InlineFormat>,
    pub group: Option<Seq<char>>,
}

pub open spec fn opt_str(s: Option<&'static str>) -> Option<Seq<char>> {
    match s {
        Some(t) => Some(t@),
        None => None,
    }
}

impl FieldDefinition {
    pub open spec fn view(self) -> FieldView {
        FieldView {
            id: self.id@,
            label: self.label@,
            field_type: self.field_type,
            placeholder: opt_str(self.placeholder),
            secret: self.secret,
            optional: self.optional,
            help_text: opt_str(self.help_text),
            options: self.options,
            default_value: opt_str(self.default_value),
            inline_format: self.inline_format,
            group: opt_str(self.group),
        }
    }
}

pub open spec fn field_views(s: Seq<FieldDefinition>) -> Seq<FieldView> {
    s.map_values(|f: FieldDefinition| f.view())
}

/// The connection fields both UniFi transports share: controller port and site.
pub open spec fn unifi_connection_specs() -> Seq<FieldView> {
    seq![
        FieldView {
            id: "port"@,
            label: "Controller Port"@,
            field_type: FieldType::String,
            placeholder: Some("443"@),
            secret: false,
            optional: true,
            help_text: Some("443 for a UniFi OS console (Dream Machine, Cloud Key, Cloud Gateway), 11443 for a self-hosted UniFi OS Server, or 8443 for the legacy self-hosted Network Application. Check the port in your controller's URL — the wrong port fails to connect."@),
            options: None,
            default_value: Some("443"@),
            inline_format: None,
            group: Some("Connection"@),
        },
        FieldView {
            id: "site"@,
            label: "Site"@,
            field_type: FieldType::String,
            placeholder: Some("default"@),
            secret: false,
            optional: true,
            help_text: Some("Internal site name, taken from the controller URL (/manage/site/<name>) — not the site's display name. Most installations use 'default'."@),
            options: None,
            default_value: Some("default"@),
            inline_format: None,
            group: Some("Connection"@),
        },
    ]
}

/// The optional socket-path field of a local container-socket credential.
pub open spec fn socket_path_spec(placeholder: Seq<char>, help: Seq<char>) -> FieldView {
    FieldView {
        id: "socket_path"@,
        label: "Socket Path"@,
        field_type: FieldType::String,
        placeholder: Some(placeholder),
        secret: false,
        optional: true,
        help_text: Some(help),
        options: None,
        default_value: None,
        inline_format: None,
        group: Some("Connection"@),
    }
}

/// The fields of a container-runtime proxy credential: port, path prefix and TLS material.
pub open spec fn container_proxy_specs(port_label: Seq<char>, port_help: Seq<char>) -> Seq<FieldView> {
    seq![
        FieldView {
            id: "port"@,
            label: port_label,
            field_type: FieldType::String,
            placeholder: Some("2375"@),
            secret: false,
            optional: true,
            help_text: Some(port_help),
            options: None,
            default_value: Some("2375"@),
            inline_format: None,
            group: Some("Connection"@),
        },
        FieldView {
            id: "path"@,
            label: "URL Path Prefix"@,
            field_type: FieldType::String,
            placeholder: Some("/"@),
            secret: false,
            optional: true,
            help_text: Some("Optional URL path prefix appended after the port"@),
            options: None,
            default_value: None,
            inline_format: None,
            group: Some("Connection"@),
        },
        FieldView {
            id: "ssl_cert"@,
            label: "SSL Certificate"@,
            field_type: FieldType::PathOrInline,
            placeholder: Some("-----BEGIN CERTIFICATE-----"@),
            secret: false,
            optional: true,
            help_text: Some("PEM-encoded client certificate. All three TLS fields (cert, key, CA chain) must be provided together."@),
            options: None,
            default_value: None,
            inline_format: Some(InlineFormat::PemCertificate),
            group: Some("TLS"@),
        },
        FieldView {
            id: "ssl_key"@,
            label: "SSL Private Key"@,
            field_type: FieldType::SecretPathOrInline,
            placeholder: None,
            secret: true,
            optional: true,
            help_text: Some("PEM private key. All three TLS fields must be provided together."@),
            options: None,
            default_value: None,
            inline_format: Some(InlineFormat::PemPrivateKey),
            group: Some("TLS"@),
        },
        FieldView {
            id: "ssl_chain"@,
            label: "SSL CA Chain"@,
            field_type: FieldType::PathOrInline,
            placeholder: Some("-----BEGIN CERTIFICATE-----"@),
            secret: false,
            optional: true,
            help_text: Some("PEM-encoded CA certificate chain. All three TLS fields must be provided together."@),
            options: None,
            default_value: None,
            inline_format: Some(InlineFormat::PemCertificate),
            group: Some("TLS"@),
        },
    ]
}

/// The form fields of each credential type, in display order.
pub open spec fn field_table(k: CredentialKind) -> Seq<FieldView> {
    match k {
        CredentialKind::SnmpV1 | CredentialKind::SnmpV2c => seq![
            FieldView {
                id: "community"@,
                label: "Community String"@,
                field_type: FieldType::SecretPathOrInline,
                placeholder: Some("custom-community-string"@),
                secret: true,
                optional: false,
                help_text: Some("Custom SNMP community string. The default 'public' community is always tried automatically during scans. On Cisco switches, append '@' and a VLAN id — for example 'readonly@20' — to read that VLAN's MAC-address table, which the plain community does not return."@),
                options: None,
                default_value: None,
                inline_format: Some(InlineFormat::Plain),
                group: None,
            },
        ],
        CredentialKind::Gnmi => seq![
            FieldView {
                id: "port"@,
                label: "gNMI Port"@,
                field_type: FieldType::String,
                placeholder: Some("9339"@),
                secret: false,
                optional: true,
                help_text: Some("9339 is the IANA gNMI port; some NOSes listen on 6030 or 57400 instead."@),
                options: None,
                default_value: Some("9339"@),
                inline_format: None,
                group: Some("Connection"@),
            },
            FieldView {
                id: "username"@,
                label: "Username"@,
                field_type: FieldType::String,
                placeholder: Some("gnmi-user"@),
                secret: false,
                optional: false,
                help_text: Some("Sent as gRPC `username` metadata (the OpenConfig convention)."@),
                options: None,
                default_value: None,
                inline_format: None,
                group: Some("Authentication"@),
            },
            FieldView {
                id: "password"@,
                label: "Password"@,
                field_type: FieldType::SecretPathOrInline,
                placeholder: None,
                secret: true,
                optional: false,
                help_text: Some("Sent as gRPC `password` metadata."@),
                options: None,
                default_value: None,
                inline_format: Some(InlineFormat::Plain),
                group: Some("Authentication"@),
            },
        ],
        CredentialKind::SnmpV3 => seq![
            FieldView {
                id: "security_name"@,
                label: "Security Name"@,
                field_type: FieldType::String,
                placeholder: Some("snmp-user"@),
                secret: false,
                optional: false,
                help_text: Some("SNMPv3 USM user name (security name)."@),
                options: None,
                default_value: None,
                inline_format: None,
                group: Some("Authentication"@),
            },
            FieldView {
                id: "auth_protocol"@,
                label: "Auth Protocol"@,
                field_type: FieldType::Select,
                placeholder: None,
                secret: false,
                optional: false,
                help_text: Some("Authentication hash algorithm."@),
                options: Some(SelectOptions::SnmpV3AuthProtocols),
                default_value: Some("Sha256"@),
                inline_format: None,
                group: Some("Authentication"@),
            },
            FieldView {
                id: "auth_password"@,
                label: "Auth Password"@,
                field_type: FieldType::SecretPathOrInline,
                placeholder: None,
                secret: true,
                optional: false,
                help_text: Some("Authentication password (minimum 8 characters)."@),
                options: None,
                default_value: None,
                inline_format: Some(InlineFormat::Plain),
                group: Some("Authentication"@),
            },
            FieldView {
                id: "priv_protocol"@,
                label: "Privacy Protocol"@,
                field_type: FieldType::Select,
                placeholder: None,
                secret: false,
                optional: false,
                help_text: Some("Privacy (encryption) algorithm."@),
                options: Some(SelectOptions::SnmpV3PrivProtocols),
                default_value: Some("Aes128"@),
                inline_format: None,
                group: Some("Privacy"@),
            },
            FieldView {
                id: "priv_password"@,
                label: "Privacy Password"@,
                field_type: FieldType::SecretPathOrInline,
                placeholder: None,
                secret: true,
                optional: false,
                help_text: Some("Privacy (encryption) password (minimum 8 characters)."@),
                options: None,
                default_value: None,
                inline_format: Some(InlineFormat::Plain),
                group: Some("Privacy"@),
            },
            FieldView {
                id: "context_name"@,
                label: "Context Name"@,
                field_type: FieldType::String,
                placeholder: Some("(default)"@),
                secret: false,
                optional: true,
                help_text: Some("Optional SNMPv3 context name, applied to bridge and VLAN queries only. Cisco and some other vendors keep a separate MAC-address table per VLAN in a named context; naming it here reads that table instead of the near-empty default one. Interface, LLDP and ARP data always come from the default context."@),
                options: None,
                default_value: None,
                inline_format: None,
                group: None,
            },
        ],
        CredentialKind::DockerProxy => container_proxy_specs("Docker API Port"@, "Docker API port. Use 2375 for non-TLS proxies (Tecnativa, HAProxy) or 2376 for TLS."@),
        CredentialKind::PodmanProxy => container_proxy_specs("Podman API Port"@, "Podman API port. Point at a TCP-exposed Podman service (e.g. `podman system service tcp:`) directly or behind a TLS proxy."@),
        CredentialKind::DockerSocket => seq![socket_path_spec("/var/run/docker.sock"@, "Path to the Docker Unix socket. Leave blank to auto-detect (DOCKER_HOST or /var/run/docker.sock)."@)],
        CredentialKind::PodmanSocket => seq![socket_path_spec("/run/podman/podman.sock"@, "Path to the Podman Unix socket. Leave blank to auto-detect (rootful /run/podman/podman.sock or the rootless $XDG_RUNTIME_DIR/podman/podman.sock)."@)],
        CredentialKind::UnifiApiKey => unifi_connection_specs() + seq![
            FieldView {
                id: "api_key"@,
                label: "API Key"@,
                field_type: FieldType::SecretPathOrInline,
                placeholder: None,
                secret: true,
                optional: false,
                help_text: Some("Network Application API key (Settings → Control Plane → Integrations → Create API Key). Requires UniFi OS; the legacy self-hosted Network Application on 8443 has no API keys — use a UniFi Local Admin credential there instead."@),
                options: None,
                default_value: None,
                inline_format: Some(InlineFormat::Plain),
                group: Some("Authentication"@),
            },
        ],
        CredentialKind::UnifiLocalAdmin => unifi_connection_specs() + seq![
            FieldView {
                id: "username"@,
                label: "Username"@,
                field_type: FieldType::String,
                placeholder: None,
                secret: false,
                optional: false,
                help_text: Some("Controller admin username. Use a local-only admin account so multi-factor authentication does not block the login."@),
                options: None,
                default_value: None,
                inline_format: None,
                group: Some("Authentication"@),
            },
            FieldView {
                id: "password"@,
                label: "Password"@,
                field_type: FieldType::SecretPathOrInline,
                placeholder: None,
                secret: true,
                optional: false,
                help_text: Some("Password for the local admin account."@),
                options: None,
                default_value: None,
                inline_format: Some(InlineFormat::Plain),
                group: Some("Authentication"@),
            },
        ],
        CredentialKind::InstantOnAccount => seq![
            FieldView {
                id: "username"@,
                label: "Portal Account"@,
                field_type: FieldType::String,
                placeholder: Some("scanopy@example.com"@),
                secret: false,
                optional: false,
                help_text: Some("Email address of an Instant On portal account with access to the site. Add a dedicated account with the read-only Viewer role (Site management → Accounts managing this site) rather than using your own administrator login, and make sure multi-factor authentication is disabled on it — the sign-in cannot answer an MFA prompt."@),
                options: None,
                default_value: None,
                inline_format: None,
                group: Some("Authentication"@),
            },
            FieldView {
                id: "password"@,
                label: "Password"@,
                field_type: FieldType::SecretPathOrInline,
                placeholder: None,
                secret: true,
                optional: false,
                help_text: Some("Password for that portal account."@),
                options: None,
                default_value: None,
                inline_format: Some(InlineFormat::Plain),
                group: Some("Authentication"@),
            },
            FieldView {
                id: "site"@,
                label: "Site"@,
                field_type: FieldType::String,
                placeholder: Some("(all sites)"@),
                secret: false,
                optional: true,
                help_text: Some("Limit the fetch to one Instant On site by name. Leave blank to read every site this account can see. Assign this credential to a single switch — each host it is assigned to fetches the whole site again."@),
                options: None,
                default_value: None,
                inline_format: None,
                group: Some("Scope"@),
            },
        ],
    }
}

/// The connection fields both UniFi transports share: controller port and site.
pub fn unifi_connection_fields() -> (r: Vec<FieldDefinition>)
    ensures
        field_views(r@) == unifi_connection_specs(),
{
    let r = vec![
        FieldDefinition {
            id: "port",
            label: "Controller Port",
            field_type: FieldType::String,
            placeholder: Some("443"),
            secret: false,
            optional: true,
            help_text: Some("443 for a UniFi OS console (Dream Machine, Cloud Key, Cloud Gateway), 11443 for a self-hosted UniFi OS Server, or 8443 for the legacy self-hosted Network Application. Check the port in your controller's URL — the wrong port fails to connect."),
            options: None,
            default_value: Some("443"),
            inline_format: None,
            group: Some("Connection"),
        },
        FieldDefinition {
            id: "site",
            label: "Site",
            field_type: FieldType::String,
            placeholder: Some("default"),
            secret: false,
            optional: true,
            help_text: Some("Internal site name, taken from the controller URL (/manage/site/<name>) — not the site's display name. Most installations use 'default'."),
            options: None,
            default_value: Some("default"),
            inline_format: None,
            group: Some("Connection"),
        },
    ];
    proof {
        assert(field_views(r@) =~= unifi_connection_specs());
    }
    r
}

/// The optional socket-path field of a local container-socket credential;
/// `placeholder` shows the runtime's default socket.
pub fn socket_path_field(placeholder: &'static str, help: &'static str) -> (r: FieldDefinition)
    ensures
        r.view() == socket_path_spec(placeholder@, help@),
{
    FieldDefinition {
        id: "socket_path",
        label: "Socket Path",
        field_type: FieldType::String,
        placeholder: Some(placeholder),
        secret: false,
        optional: true,
        help_text: Some(help),
        options: None,
        default_value: None,
        inline_format: None,
        group: Some("Connection"),
    }
}

/// The fields of a container-runtime proxy credential; only the port's label
/// and help differ between runtimes.
pub fn container_proxy_field_definitions(port_label: &'static str, port_help: &'static str) -> (r: Vec<FieldDefinition>)
    ensures
        field_views(r@) == container_proxy_specs(port_label@, port_help@),
{
    let r = vec![
        FieldDefinition {
            id: "port",
            label: port_label,
            field_type: FieldType::String,
            placeholder: Some("2375"),
            secret: false,
            optional: true,
            help_text: Some(port_help),
            options: None,
            default_value: Some("2375"),
            inline_format: None,
            group: Some("Connection"),
        },
        FieldDefinition {
            id: "path",
            label: "URL Path Prefix",
            field_type: FieldType::String,
            placeholder: Some("/"),
            secret: false,
            optional: true,
            help_text: Some("Optional URL path prefix appended after the port"),
            options: None,
            default_value: None,
            inline_format: None,
            group: Some("Connection"),
        },
        FieldDefinition {
            id: "ssl_cert",
            label: "SSL Certificate",
            field_type: FieldType::PathOrInline,
            placeholder: Some("-----BEGIN CERTIFICATE-----"),
            secret: false,
            optional: true,
            help_text: Some("PEM-encoded client certificate. All three TLS fields (cert, key, CA chain) must be provided together."),
            options: None,
            default_value: None,
            inline_format: Some(InlineFormat::PemCertificate),
            group: Some("TLS"),
        },
        FieldDefinition {
            id: "ssl_key",
            label: "SSL Private Key",
            field_type: FieldType::SecretPathOrInline,
            placeholder: None,
            secret: true,
            optional: true,
            help_text: Some("PEM private key. All three TLS fields must be provided together."),
            options: None,
            default_value: None,
            inline_format: Some(InlineFormat::PemPrivateKey),
            group: Some("TLS"),
        },
        FieldDefinition {
            id: "ssl_chain",
            label: "SSL CA Chain",
            field_type: FieldType::PathOrInline,
            placeholder: Some("-----BEGIN CERTIFICATE-----"),
            secret: false,
            optional: true,
            help_text: Some("PEM-encoded CA certificate chain. All three TLS fields must be provided together."),
            options: None,
            default_value: None,
            inline_format: Some(InlineFormat::PemCertificate),
            group: Some("TLS"),
        },
    ];
    proof {
        assert(field_views(r@) =~= container_proxy_specs(port_label@, port_help@));
    }
    r
}

impl CredentialKind {
    /// The form fields of this credential type, in display order.
    pub fn field_definitions(&self) -> (r: Vec<FieldDefinition>)
        ensures
            field_views(r@) == field_table(*self),
    {
        let r = match self {
            CredentialKind::SnmpV1 | CredentialKind::SnmpV2c => vec![
                FieldDefinition {
                    id: "community",
                    label: "Community String",
                    field_type: FieldType::SecretPathOrInline,
                    placeholder: Some("custom-community-string"),
                    secret: true,
                    optional: false,
                    help_text: Some("Custom SNMP community string. The default 'public' community is always tried automatically during scans. On Cisco switches, append '@' and a VLAN id — for example 'readonly@20' — to read that VLAN's MAC-address table, which the plain community does not return."),
                    options: None,
                    default_value: None,
                    inline_format: Some(InlineFormat::Plain),
                    group: None,
                },
            ],
            CredentialKind::Gnmi => vec![
                FieldDefinition {
                    id: "port",
                    label: "gNMI Port",
                    field_type: FieldType::String,
                    placeholder: Some("9339"),
                    secret: false,
                    optional: true,
                    help_text: Some("9339 is the IANA gNMI port; some NOSes listen on 6030 or 57400 instead."),
                    options: None,
                    default_value: Some("9339"),
                    inline_format: None,
                    group: Some("Connection"),
                },
                FieldDefinition {
                    id: "username",
                    label: "Username",
                    field_type: FieldType::String,
                    placeholder: Some("gnmi-user"),
                    secret: false,
                    optional: false,
                    help_text: Some("Sent as gRPC `username` metadata (the OpenConfig convention)."),
                    options: None,
                    default_value: None,
                    inline_format: None,
                    group: Some("Authentication"),
                },
                FieldDefinition {
                    id: "password",
                    label: "Password",
                    field_type: FieldType::SecretPathOrInline,
                    placeholder: None,
                    secret: true,
                    optional: false,
                    help_text: Some("Sent as gRPC `password` metadata."),
                    options: None,
                    default_value: None,
                    inline_format: Some(InlineFormat::Plain),
                    group: Some("Authentication"),
                },
            ],
            CredentialKind::SnmpV3 => vec![
                FieldDefinition {
                    id: "security_name",
                    label: "Security Name",
                    field_type: FieldType::String,
                    placeholder: Some("snmp-user"),
                    secret: false,
                    optional: false,
                    help_text: Some("SNMPv3 USM user name (security name)."),
                    options: None,
                    default_value: None,
                    inline_format: None,
                    group: Some("Authentication"),
                },
                FieldDefinition {
                    id: "auth_protocol",
                    label: "Auth Protocol",
                    field_type: FieldType::Select,
                    placeholder: None,
                    secret: false,
                    optional: false,
                    help_text: Some("Authentication hash algorithm."),
                    options: Some(SelectOptions::SnmpV3AuthProtocols),
                    default_value: Some("Sha256"),
                    inline_format: None,
                    group: Some("Authentication"),
                },
                FieldDefinition {
                    id: "auth_password",
                    label: "Auth Password",
                    field_type: FieldType::SecretPathOrInline,
                    placeholder: None,
                    secret: true,
                    optional: false,
                    help_text: Some("Authentication password (minimum 8 characters)."),
                    options: None,
                    default_value: None,
                    inline_format: Some(InlineFormat::Plain),
                    group: Some("Authentication"),
                },
                FieldDefinition {
                    id: "priv_protocol",
                    label: "Privacy Protocol",
                    field_type: FieldType::Select,
                    placeholder: None,
                    secret: false,
                    optional: false,
                    help_text: Some("Privacy (encryption) algorithm."),
                    options: Some(SelectOptions::SnmpV3PrivProtocols),
                    default_value: Some("Aes128"),
                    inline_format: None,
                    group: Some("Privacy"),
                },
                FieldDefinition {
                    id: "priv_password",
                    label: "Privacy Password",
                    field_type: FieldType::SecretPathOrInline,
                    placeholder: None,
                    secret: true,
                    optional: false,
                    help_text: Some("Privacy (encryption) password (minimum 8 characters)."),
                    options: None,
                    default_value: None,
                    inline_format: Some(InlineFormat::Plain),
                    group: Some("Privacy"),
                },
                FieldDefinition {
                    id: "context_name",
                    label: "Context Name",
                    field_type: FieldType::String,
                    placeholder: Some("(default)"),
                    secret: false,
                    optional: true,
                    help_text: Some("Optional SNMPv3 context name, applied to bridge and VLAN queries only. Cisco and some other vendors keep a separate MAC-address table per VLAN in a named context; naming it here reads that table instead of the near-empty default one. Interface, LLDP and ARP data always come from the default context."),
                    options: None,
                    default_value: None,
                    inline_format: None,
                    group: None,
                },
            ],
            CredentialKind::DockerProxy => container_proxy_field_definitions("Docker API Port", "Docker API port. Use 2375 for non-TLS proxies (Tecnativa, HAProxy) or 2376 for TLS."),
            CredentialKind::PodmanProxy => container_proxy_field_definitions("Podman API Port", "Podman API port. Point at a TCP-exposed Podman service (e.g. `podman system service tcp:`) directly or behind a TLS proxy."),
            CredentialKind::DockerSocket => vec![socket_path_field("/var/run/docker.sock", "Path to the Docker Unix socket. Leave blank to auto-detect (DOCKER_HOST or /var/run/docker.sock).")],
            CredentialKind::PodmanSocket => vec![socket_path_field("/run/podman/podman.sock", "Path to the Podman Unix socket. Leave blank to auto-detect (rootful /run/podman/podman.sock or the rootless $XDG_RUNTIME_DIR/podman/podman.sock).")],
            CredentialKind::UnifiApiKey => {
                let mut fields = unifi_connection_fields();
                fields.push(
                    FieldDefinition {
                        id: "api_key",
                        label: "API Key",
                        field_type: FieldType::SecretPathOrInline,
                        placeholder: None,
                        secret: true,
                        optional: false,
                        help_text: Some("Network Application API key (Settings → Control Plane → Integrations → Create API Key). Requires UniFi OS; the legacy self-hosted Network Application on 8443 has no API keys — use a UniFi Local Admin credential there instead."),
                        options: None,
                        default_value: None,
                        inline_format: Some(InlineFormat::Plain),
                        group: Some("Authentication"),
                    },
                );
                fields
            },
            CredentialKind::UnifiLocalAdmin => {
                let mut fields = unifi_connection_fields();
                fields.push(
                    FieldDefinition {
                        id: "username",
                        label: "Username",
                        field_type: FieldType::String,
                        placeholder: None,
                        secret: false,
                        optional: false,
                        help_text: Some("Controller admin username. Use a local-only admin account so multi-factor authentication does not block the login."),
                        options: None,
                        default_value: None,
                        inline_format: None,
                        group: Some("Authentication"),
                    },
                );
                fields.push(
                    FieldDefinition {
                        id: "password",
                        label: "Password",
                        field_type: FieldType::SecretPathOrInline,
                        placeholder: None,
                        secret: true,
                        optional: false,
                        help_text: Some("Password for the local admin account."),
                        options: None,
                        default_value: None,
                        inline_format: Some(InlineFormat::Plain),
                        group: Some("Authentication"),
                    },
                );
                fields
            },
            CredentialKind::InstantOnAccount => vec![
                FieldDefinition {
                    id: "username",
                    label: "Portal Account",
                    field_type: FieldType::String,
                    placeholder: Some("scanopy@example.com"),
                    secret: false,
                    optional: false,
                    help_text: Some("Email address of an Instant On portal account with access to the site. Add a dedicated account with the read-only Viewer role (Site management → Accounts managing this site) rather than using your own administrator login, and make sure multi-factor authentication is disabled on it — the sign-in cannot answer an MFA prompt."),
                    options: None,
                    default_value: None,
                    inline_format: None,
                    group: Some("Authentication"),
                },
                FieldDefinition {
                    id: "password",
                    label: "Password",
                    field_type: FieldType::SecretPathOrInline,
                    placeholder: None,
                    secret: true,
                    optional: false,
                    help_text: Some("Password for that portal account."),
                    options: None,
                    default_value: None,
                    inline_format: Some(InlineFormat::Plain),
                    group: Some("Authentication"),
                },
                FieldDefinition {
                    id: "site",
                    label: "Site",
                    field_type: FieldType::String,
                    placeholder: Some("(all sites)"),
                    secret: false,
                    optional: true,
                    help_text: Some("Limit the fetch to one Instant On site by name. Leave blank to read every site this account can see. Assign this credential to a single switch — each host it is assigned to fetches the whole site again."),
                    options: None,
                    default_value: None,
                    inline_format: None,
                    group: Some("Scope"),
                },
            ],
        };
        proof {
            assert(field_views(r@) =~= field_table(*self));
        }
        r
    }
}


// ---------------------------------------------------------------------------
// Stored credential values
// ---------------------------------------------------------------------------

/// The text an API response shows in place of a secret; a client that sends it
/// back means "unchanged".
pub open spec fn redacted_sentinel() -> Seq<char> {
    "********"@
}

/// The text an API response shows in place of a secret.
pub const REDACTED_SECRET_SENTINEL: &'static str = "********";

/// A secret given inline or as a file path on the daemon host.
#[derive(Clone)]
pub enum SecretValue {
    Inline { value: String },
    FilePath { path: String },
}

/// A non-secret value given inline or as a file path on the daemon host.
#[derive(Debug, Clone, PartialEq, Eq)]
pub enum FileOrInline {
    Inline { value: String },
    FilePath { path: String },
}

impl SecretValue {
    pub open spec fn view(self) -> Resolvable {
        match self {
            SecretValue::Inline { value } => Resolvable::Value(value@),
            SecretValue::FilePath { path } => Resolvable::FilePath(path@),
        }
    }

    pub open spec fn is_sentinel(self) -> bool {
        self.view() == Resolvable::Value(redacted_sentinel())
    }

    /// Whether this is the inline redaction sentinel.
    pub fn is_redacted_sentinel(&self) -> (r: bool)
        ensures
            r == self.is_sentinel(),
    {
        match self {
            SecretValue::Inline { value } => crate::text::same_text(value.as_str(), REDACTED_SECRET_SENTINEL),
            SecretValue::FilePath { .. } => false,
        }
    }

    /// A copy of this secret.
    pub fn duplicate(&self) -> (r: SecretValue)
        ensures
            r.view() == self.view(),
    {
        match self {
            SecretValue::Inline { value } => SecretValue::Inline { value: value.clone() },
            SecretValue::FilePath { path } => SecretValue::FilePath { path: path.clone() },
        }
    }

    /// The daemon-side form of this secret.
    pub fn to_resolvable(&self) -> (r: ResolvableSecret)
        ensures
            r.view() == self.view(),
    {
        match self {
            SecretValue::Inline { value } => ResolvableSecret::Value { value: value.clone() },
            SecretValue::FilePath { path } => ResolvableSecret::FilePath { path: path.clone() },
        }
    }
}

impl FileOrInline {
    pub open spec fn view(self) -> Resolvable {
        match self {
            FileOrInline::Inline { value } => Resolvable::Value(value@),
            FileOrInline::FilePath { path } => Resolvable::FilePath(path@),
        }
    }

    /// The daemon-side form of this value.
    pub fn to_resolvable(&self) -> (r: ResolvableValue)
        ensures
            r.view() == self.view(),
    {
        match self {
            FileOrInline::Inline { value } => ResolvableValue::Value { value: value.clone() },
            FileOrInline::FilePath { path } => ResolvableValue::FilePath { path: path.clone() },
        }
    }
}

pub open spec fn opt_secret_view(v: Option<SecretValue>) -> Option<Resolvable> {
    match v {
        Some(x) => Some(x.view()),
        None => None,
    }
}

pub open spec fn opt_file_view(v: Option<FileOrInline>) -> Option<Resolvable> {
    match v {
        Some(x) => Some(x.view()),
        None => None,
    }
}

/// A stored credential.
#[derive(Clone)]
pub enum CredentialType {
    /// An SNMPv2c community string.
    SnmpV2c { community: SecretValue },
    /// A Docker API proxy: port, optional path prefix, and optional TLS material.
    DockerProxy {
        port: u16,
        path: Option<String>,
        ssl_cert: Option<FileOrInline>,
        ssl_key: Option<SecretValue>,
        ssl_chain: Option<FileOrInline>,
    },
}

/// A stored credential as plain values.
pub enum CredentialView {
    SnmpV2c { community: Resolvable },
    DockerProxy {
        port: u16,
        path: Option<Seq<char>>,
        ssl_cert: Option<Resolvable>,
        ssl_key: Option<Resolvable>,
        ssl_chain: Option<Resolvable>,
    },
}

/// The inline value of an optional field, unless it is the redaction sentinel
/// (only secrets are ever redacted).
pub open spec fn inline_of(v: Option<Resolvable>, secret: bool) -> Option<Seq<char>> {
    match v {
        Some(Resolvable::Value(x)) => if secret && x == redacted_sentinel() {
            None
        } else {
            Some(x)
        },
        _ => None,
    }
}

/// The inline value of the field `id` of a credential: `None` for file paths,
/// absent fields, unknown ids and redacted secrets.
pub open spec fn inline_value_of(c: CredentialView, id: Seq<char>) -> Option<Seq<char>> {
    match c {
        CredentialView::SnmpV2c { community } => if id == "community"@ {
            inline_of(Some(community), true)
        } else {
            None
        },
        CredentialView::DockerProxy { ssl_cert, ssl_key, ssl_chain, .. } => if id == "ssl_cert"@ {
            inline_of(ssl_cert, false)
        } else if id == "ssl_key"@ {
            inline_of(ssl_key, true)
        } else if id == "ssl_chain"@ {
            inline_of(ssl_chain, false)
        } else {
            None
        },
    }
}

/// The first validation failure among `fields` of credential `c`: each field
/// with an inline format is checked on its inline value, if it has one.
pub open spec fn first_failure(fields: Seq<FieldView>, c: CredentialView) -> Option<Seq<char>>
    decreases fields.len(),
{
    if fields.len() == 0 {
        None
    } else {
        let f = fields[0];
        let here = match f.inline_format {
            Some(fmt) => match inline_value_of(c, f.id) {
                Some(v) => fmt.verdict(v, f.label),
                None => None,
            },
            None => None,
        };
        if here is Some {
            here
        } else {
            first_failure(fields.drop_first(), c)
        }
    }
}

/// The Docker API port a new Docker proxy credential starts with.
pub const DEFAULT_DOCKER_PORT: u16 = 2375;

/// The stored credential of kind `k` with every field at its default, for the
/// kinds `CredentialType` holds: an empty inline community for SNMPv2c; the
/// default Docker API port and no path or TLS material for a Docker proxy.
pub open spec fn default_credential(k: CredentialKind) -> Option<CredentialView> {
    match k {
        CredentialKind::SnmpV2c => Some(CredentialView::SnmpV2c { community: Resolvable::Value(Seq::empty()) }),
        CredentialKind::DockerProxy => Some(
            CredentialView::DockerProxy { port: DEFAULT_DOCKER_PORT, path: None, ssl_cert: None, ssl_key: None, ssl_chain: None },
        ),
        _ => None,
    }
}

impl CredentialKind {
    /// A credential of this kind with default field values; `None` for the
    /// kinds whose stored form `CredentialType` does not hold.
    pub fn to_credential_type(&self) -> (r: Option<CredentialType>)
        ensures
            match (r, default_credential(*self)) {
                (Some(c), Some(d)) => c.view() == d && c.kind_of() == *self,
                (None, None) => true,
                _ => false,
            },
    {
        match self {
            CredentialKind::SnmpV2c => Some(CredentialType::SnmpV2c { community: SecretValue::Inline { value: String::new() } }),
            CredentialKind::DockerProxy => Some(
                CredentialType::DockerProxy {
                    port: DEFAULT_DOCKER_PORT,
                    path: None,
                    ssl_cert: None,
                    ssl_key: None,
                    ssl_chain: None,
                },
            ),
            _ => None,
        }
    }
}

impl CredentialType {
    pub open spec fn view(self) -> CredentialView {
        match self {
            CredentialType::SnmpV2c { community } => CredentialView::SnmpV2c { community: community.view() },
            CredentialType::DockerProxy { port, path, ssl_cert, ssl_key, ssl_chain } => CredentialView::DockerProxy {
                port,
                path: opt_text(path),
                ssl_cert: opt_file_view(ssl_cert),
                ssl_key: opt_secret_view(ssl_key),
                ssl_chain: opt_file_view(ssl_chain),
            },
        }
    }

    pub open spec fn kind_of(self) -> CredentialKind {
        match self {
            CredentialType::SnmpV2c { .. } => CredentialKind::SnmpV2c,
            CredentialType::DockerProxy { .. } => CredentialKind::DockerProxy,
        }
    }

    /// The kind of this credential.
    pub fn kind(&self) -> (r: CredentialKind)
        ensures
            r == self.kind_of(),
    {
        match self {
            CredentialType::SnmpV2c { .. } => CredentialKind::SnmpV2c,
            CredentialType::DockerProxy { .. } => CredentialKind::DockerProxy,
        }
    }

    /// Whether two credentials are the same type with equal fields.
    pub fn same_as(&self, other: &CredentialType) -> (r: bool)
        ensures
            r == (self.view() == other.view()),
    {
        match (self, other) {
            (CredentialType::SnmpV2c { community: a }, CredentialType::SnmpV2c { community: b }) => same_secret(a, b),
            (
                CredentialType::DockerProxy { port: p1, path: pa1, ssl_cert: c1, ssl_key: k1, ssl_chain: ch1 },
                CredentialType::DockerProxy { port: p2, path: pa2, ssl_cert: c2, ssl_key: k2, ssl_chain: ch2 },
            ) => {
                let r = *p1 == *p2 && same_opt_text(pa1, pa2) && same_opt_file(c1, c2) && same_opt_secret(k1, k2)
                    && same_opt_file(ch1, ch2);
                r
            },
            _ => false,
        }
    }

    /// Restore secrets the client sent back redacted: when this credential
    /// carries the sentinel where `existing` (of the same type) has a secret,
    /// the existing secret is kept. Every other field, and any credential whose
    /// type changed, is left as sent.
    pub fn merge_redacted_secrets(&mut self, existing: &CredentialType)
        ensures
            final(self).view() == merged(old(self).view(), existing.view()),
    {
        match (self, existing) {
            (CredentialType::SnmpV2c { community }, CredentialType::SnmpV2c { community: existing_community }) => {
                if community.is_redacted_sentinel() {
                    *community = existing_community.duplicate();
                }
            },
            (CredentialType::DockerProxy { ssl_key, .. }, CredentialType::DockerProxy { ssl_key: existing_key, .. }) => {
                let sentinel = match ssl_key {
                    Some(key) => key.is_redacted_sentinel(),
                    None => false,
                };
                if sentinel {
                    *ssl_key = match existing_key {
                        Some(k) => Some(k.duplicate()),
                        None => None,
                    };
                }
            },
            _ => {},
        }
    }

    /// The category this credential belongs to.
    pub fn credential_category(&self) -> (r: CredentialCategory)
        ensures
            r == self.kind_of().category(),
    {
        self.kind().credential_category()
    }

    /// The form fields of this credential's type.
    pub fn field_definitions(&self) -> (r: Vec<FieldDefinition>)
        ensures
            field_views(r@) == field_table(self.kind_of()),
    {
        self.kind().field_definitions()
    }

    /// The inline value of field `field_id`: `None` for file paths, absent
    /// fields, unknown ids and redacted secrets.
    pub fn get_inline_value(&self, field_id: &str) -> (r: Option<String>)
        ensures
            opt_text(r) == inline_value_of(self.view(), field_id@),
    {
        proof {
            reveal_strlit("community");
            reveal_strlit("ssl_cert");
            reveal_strlit("ssl_key");
            reveal_strlit("ssl_chain");
        }
        match self {
            CredentialType::SnmpV2c { community } => {
                if crate::text::same_text(field_id, "community") {
                    secret_inline(&Some(community.duplicate()))
                } else {
                    None
                }
            },
            CredentialType::DockerProxy { ssl_cert, ssl_key, ssl_chain, .. } => {
                if crate::text::same_text(field_id, "ssl_cert") {
                    file_inline(ssl_cert)
                } else if crate::text::same_text(field_id, "ssl_key") {
                    secret_inline(ssl_key)
                } else if crate::text::same_text(field_id, "ssl_chain") {
                    file_inline(ssl_chain)
                } else {
                    None
                }
            },
        }
    }

    /// Check every field's inline value against the field's format. File
    /// paths (checked on the daemon after reading), redacted secrets and
    /// absent values are skipped; the first failure is reported.
    pub fn validate(&self) -> (r: Result<(), FieldError>)
        ensures
            outcome(r) == first_failure(field_table(self.kind_of()), self.view()),
    {
        let fields = self.field_definitions();
        let ghost all = field_views(fields@);
        proof {
            assert(all.skip(0) =~= all);
        }
        let mut i: usize = 0;
        while i < fields.len()
            invariant
                i <= fields@.len(),
                all == field_views(fields@),
                all == field_table(self.kind_of()),
                first_failure(all, self.view()) == first_failure(all.skip(i as int), self.view()),
            decreases fields@.len() - i,
        {
            let f = &fields[i];
            proof {
                assert(all.skip(i as int)[0] == f.view());
                assert(all.skip(i as int).drop_first() =~= all.skip(i + 1));
            }
            match &f.inline_format {
                Some(fmt) => match self.get_inline_value(f.label_id()) {
                    Some(value) => {
                        match fmt.validate(value.as_str(), f.label) {
                            Err(e) => return Err(e),
                            Ok(_) => {},
                        }
                    },
                    None => {},
                },
                None => {},
            }
            i = i + 1;
        }
        proof {
            assert(all.skip(i as int).len() == 0);
        }
        Ok(())
    }

    /// The payload a daemon receives for this credential.
    pub fn to_query_payload(&self) -> (r: CredentialQueryPayload)
        ensures
            r.view() == payload_of(self.view()),
    {
        match self {
            CredentialType::SnmpV2c { community } => CredentialQueryPayload::Snmp(
                SnmpQueryCredential { version: SnmpVersion::V2c, community: community.to_resolvable() },
            ),
            CredentialType::DockerProxy { port, path, ssl_cert, ssl_key, ssl_chain } => {
                let path = match path {
                    Some(p) => Some(p.clone()),
                    None => None,
                };
                let ssl_cert = match ssl_cert {
                    Some(f) => Some(f.to_resolvable()),
                    None => None,
                };
                let ssl_key = match ssl_key {
                    Some(k) => Some(k.to_resolvable()),
                    None => None,
                };
                let ssl_chain = match ssl_chain {
                    Some(f) => Some(f.to_resolvable()),
                    None => None,
                };
                CredentialQueryPayload::DockerProxy(DockerProxyQueryCredential { port: *port, path, ssl_cert, ssl_key, ssl_chain })
            },
        }
    }
}

impl FieldDefinition {
    /// The field's identifier.
    pub fn label_id(&self) -> (r: &'static str)
        ensures
            r@ == self.id@,
    {
        self.id
    }
}

/// The payload a daemon receives for a stored credential.
pub open spec fn payload_of(c: CredentialView) -> crate::payload::PayloadView {
    match c {
        CredentialView::SnmpV2c { community } => crate::payload::PayloadView::Snmp(
            crate::snmp::SnmpView { version: SnmpVersion::V2c, community },
        ),
        CredentialView::DockerProxy { port, path, ssl_cert, ssl_key, ssl_chain } => crate::payload::PayloadView::DockerProxy(
            crate::payload::ProxyView { port, path, ssl_cert, ssl_key, ssl_chain },
        ),
    }
}

/// `sent` with redacted secrets restored from `existing` of the same type.
pub open spec fn merged(sent: CredentialView, existing: CredentialView) -> CredentialView {
    match (sent, existing) {
        (CredentialView::SnmpV2c { community }, CredentialView::SnmpV2c { community: kept }) => if community
            == Resolvable::Value(redacted_sentinel()) {
            CredentialView::SnmpV2c { community: kept }
        } else {
            sent
        },
        (
            CredentialView::DockerProxy { port, path, ssl_cert, ssl_key, ssl_chain },
            CredentialView::DockerProxy { ssl_key: kept, .. },
        ) => if ssl_key == Some(Resolvable::Value(redacted_sentinel())) {
            CredentialView::DockerProxy { port, path, ssl_cert, ssl_key: kept, ssl_chain }
        } else {
            sent
        },
        _ => sent,
    }
}

fn same_secret(a: &SecretValue, b: &SecretValue) -> (r: bool)
    ensures
        r == (a.view() == b.view()),
{
    match (a, b) {
        (SecretValue::Inline { value: x }, SecretValue::Inline { value: y }) => crate::text::same_text(x.as_str(), y.as_str()),
        (SecretValue::FilePath { path: x }, SecretValue::FilePath { path: y }) => crate::text::same_text(x.as_str(), y.as_str()),
        _ => false,
    }
}

fn same_file(a: &FileOrInline, b: &FileOrInline) -> (r: bool)
    ensures
        r == (a.view() == b.view()),
{
    match (a, b) {
        (FileOrInline::Inline { value: x }, FileOrInline::Inline { value: y }) => crate::text::same_text(x.as_str(), y.as_str()),
        (FileOrInline::FilePath { path: x }, FileOrInline::FilePath { path: y }) => crate::text::same_text(x.as_str(), y.as_str()),
        _ => false,
    }
}

fn same_opt_text(a: &Option<String>, b: &Option<String>) -> (r: bool)
    ensures
        r == (opt_text(*a) == opt_text(*b)),
{
    match (a, b) {
        (Some(x), Some(y)) => crate::text::same_text(x.as_str(), y.as_str()),
        (None, None) => true,
        _ => false,
    }
}

fn same_opt_file(a: &Option<FileOrInline>, b: &Option<FileOrInline>) -> (r: bool)
    ensures
        r == (opt_file_view(*a) == opt_file_view(*b)),
{
    match (a, b) {
        (Some(x), Some(y)) => same_file(x, y),
        (None, None) => true,
        _ => false,
    }
}

fn same_opt_secret(a: &Option<SecretValue>, b: &Option<SecretValue>) -> (r: bool)
    ensures
        r == (opt_secret_view(*a) == opt_secret_view(*b)),
{
    match (a, b) {
        (Some(x), Some(y)) => same_secret(x, y),
        (None, None) => true,
        _ => false,
    }
}

fn secret_inline(v: &Option<SecretValue>) -> (r: Option<String>)
    ensures
        opt_text(r) == inline_of(opt_secret_view(*v), true),
{
    match v {
        Some(SecretValue::Inline { value }) => {
            if crate::text::same_text(value.as_str(), "********") {
                None
            } else {
                Some(value.clone())
            }
        },
        _ => None,
    }
}

fn file_inline(v: &Option<FileOrInline>) -> (r: Option<String>)
    ensures
        opt_text(r) == inline_of(opt_file_view(*v), false),
{
    match v {
        Some(FileOrInline::Inline { value }) => Some(value.clone()),
        _ => None,
    }
}

} // verus!
