//! List queries: the fields lists are ordered by, the network scope of a
//! daemon listing, and the dashboard's summaries.

use vstd::prelude::*;

use crate::daemons::DaemonRecord;
use crate::ids::{Uuid, contains_id};
use crate::kinds::CredentialKind;
use crate::version::{DaemonVersionPolicy, DaemonVersionStatus, duplicate_opt_spec};

verus! {

/// Fields credentials can be ordered or grouped by.
#[derive(Clone, Copy, Debug, PartialEq, Eq, Structural)]
pub enum CredentialOrderField {
    CreatedAt,
    Name,
    UpdatedAt,
}

/// Fields daemons can be ordered or grouped by.
#[derive(Clone, Copy, Debug, PartialEq, Eq, Structural)]
pub enum DaemonOrderField {
    CreatedAt,
    Name,
    LastSeen,
    UpdatedAt,
    NetworkId,
}

/// Fields dependencies can be ordered or grouped by.
#[derive(Clone, Copy, Debug, PartialEq, Eq, Structural)]
pub enum DependencyOrderField {
    CreatedAt,
    Name,
    DependencyType,
    UpdatedAt,
    NetworkId,
}

impl Default for CredentialOrderField {
    fn default() -> (r: Self)
        ensures
            r == CredentialOrderField::CreatedAt,
    {
        CredentialOrderField::CreatedAt
    }
}

impl Default for DaemonOrderField {
    fn default() -> (r: Self)
        ensures
            r == DaemonOrderField::CreatedAt,
    {
        DaemonOrderField::CreatedAt
    }
}

impl Default for DependencyOrderField {
    fn default() -> (r: Self)
        ensures
            r == DependencyOrderField::CreatedAt,
    {
        DependencyOrderField::CreatedAt
    }
}

impl CredentialOrderField {
    pub open spec fn column(self) -> Seq<char> {
        match self {
            CredentialOrderField::CreatedAt => "credentials.created_at"@,
            CredentialOrderField::Name => "credentials.name"@,
            CredentialOrderField::UpdatedAt => "credentials.updated_at"@,
        }
    }

    /// The column this field orders by.
    pub fn to_sql(&self) -> (r: &'static str)
        ensures
            r@ == self.column(),
    {
        match self {
            CredentialOrderField::CreatedAt => "credentials.created_at",
            CredentialOrderField::Name => "credentials.name",
            CredentialOrderField::UpdatedAt => "credentials.updated_at",
        }
    }
}

impl DaemonOrderField {
    pub open spec fn column(self) -> Seq<char> {
        match self {
            DaemonOrderField::CreatedAt => "daemons.created_at"@,
            DaemonOrderField::Name => "daemons.name"@,
            DaemonOrderField::LastSeen => "daemons.last_seen"@,
            DaemonOrderField::UpdatedAt => "daemons.updated_at"@,
            DaemonOrderField::NetworkId => "daemons.network_id"@,
        }
    }

    /// The column this field orders by.
    pub fn to_sql(&self) -> (r: &'static str)
        ensures
            r@ == self.column(),
    {
        match self {
            DaemonOrderField::CreatedAt => "daemons.created_at",
            DaemonOrderField::Name => "daemons.name",
            DaemonOrderField::LastSeen => "daemons.last_seen",
            DaemonOrderField::UpdatedAt => "daemons.updated_at",
            DaemonOrderField::NetworkId => "daemons.network_id",
        }
    }
}

impl DependencyOrderField {
    pub open spec fn column(self) -> Seq<char> {
        match self {
            DependencyOrderField::CreatedAt => "dependencies.created_at"@,
            DependencyOrderField::Name => "dependencies.name"@,
            DependencyOrderField::DependencyType => "dependencies.dependency_type"@,
            DependencyOrderField::UpdatedAt => "dependencies.updated_at"@,
            DependencyOrderField::NetworkId => "dependencies.network_id"@,
        }
    }

    /// The column this field orders by.
    pub fn to_sql(&self) -> (r: &'static str)
        ensures
            r@ == self.column(),
    {
        match self {
            DependencyOrderField::CreatedAt => "dependencies.created_at",
            DependencyOrderField::Name => "dependencies.name",
            DependencyOrderField::DependencyType => "dependencies.dependency_type",
            DependencyOrderField::UpdatedAt => "dependencies.updated_at",
            DependencyOrderField::NetworkId => "dependencies.network_id",
        }
    }
}

/// Paging of a list: how many entries at most (0 for all) and how many to skip.
#[derive(Clone, Copy, Debug, PartialEq, Eq, Structural)]
pub struct PaginationParams {
    pub limit: Option<u32>,
    pub offset: Option<u32>,
}

/// The query of a credential listing.
#[derive(Clone, Copy, Debug, PartialEq, Eq, Structural)]
pub struct CredentialFilterQuery {
    /// Only credentials of this type.
    pub credential_type: Option<CredentialKind>,
    pub group_by: Option<CredentialOrderField>,
    pub order_by: Option<CredentialOrderField>,
    pub limit: Option<u32>,
    pub offset: Option<u32>,
}

impl CredentialKind {
    pub open spec fn tag(self) -> Seq<char> {
        match self {
            CredentialKind::SnmpV1 => "SnmpV1"@,
            CredentialKind::SnmpV2c => "SnmpV2c"@,
            CredentialKind::SnmpV3 => "SnmpV3"@,
            CredentialKind::Gnmi => "Gnmi"@,
            CredentialKind::DockerProxy => "DockerProxy"@,
            CredentialKind::DockerSocket => "DockerSocket"@,
            CredentialKind::PodmanProxy => "PodmanProxy"@,
            CredentialKind::PodmanSocket => "PodmanSocket"@,
            CredentialKind::UnifiApiKey => "UnifiApiKey"@,
            CredentialKind::UnifiLocalAdmin => "UnifiLocalAdmin"@,
            CredentialKind::InstantOnAccount => "InstantOnAccount"@,
        }
    }

    /// The type tag stored credentials carry.
    pub fn type_tag(&self) -> (r: &'static str)
        ensures
            r@ == self.tag(),
    {
        match self {
            CredentialKind::SnmpV1 => "SnmpV1",
            CredentialKind::SnmpV2c => "SnmpV2c",
            CredentialKind::SnmpV3 => "SnmpV3",
            CredentialKind::Gnmi => "Gnmi",
            CredentialKind::DockerProxy => "DockerProxy",
            CredentialKind::DockerSocket => "DockerSocket",
            CredentialKind::PodmanProxy => "PodmanProxy",
            CredentialKind::PodmanSocket => "PodmanSocket",
            CredentialKind::UnifiApiKey => "UnifiApiKey",
            CredentialKind::UnifiLocalAdmin => "UnifiLocalAdmin",
            CredentialKind::InstantOnAccount => "InstantOnAccount",
        }
    }
}

impl CredentialFilterQuery {
    /// The stored type tag the listing is restricted to, if any.
    pub fn type_filter(&self) -> (r: Option<&'static str>)
        ensures
            match self.credential_type {
                Some(k) => r matches Some(t) && t@ == k.tag(),
                None => r is None,
            },
    {
        match self.credential_type {
            Some(k) => Some(k.type_tag()),
            None => None,
        }
    }

    /// The listing's paging.
    pub fn pagination(&self) -> (r: PaginationParams)
        ensures
            r.limit == self.limit && r.offset == self.offset,
    {
        PaginationParams { limit: self.limit, offset: self.offset }
    }
}

/// The query of a daemon listing.
#[derive(Clone, Copy, Debug, PartialEq, Eq, Structural)]
pub struct DaemonFilterQuery {
    /// Only daemons on this network.
    pub network_id: Option<Uuid>,
    pub group_by: Option<DaemonOrderField>,
    pub order_by: Option<DaemonOrderField>,
    pub limit: Option<u32>,
    pub offset: Option<u32>,
}

impl DaemonFilterQuery {
    /// The networks the listing covers: the requested one if the user may see
    /// it, none if not, and every network of the user when none is requested.
    pub fn network_scope(&self, user_network_ids: &Vec<Uuid>) -> (r: Vec<Uuid>)
        ensures
            match self.network_id {
                Some(id) => if user_network_ids@.contains(id) {
                    r@ == seq![id]
                } else {
                    r@.len() == 0
                },
                None => r@ == user_network_ids@,
            },
    {
        match self.network_id {
            Some(id) => {
                if contains_id(user_network_ids, id) {
                    vec![id]
                } else {
                    Vec::new()
                }
            },
            None => user_network_ids.clone(),
        }
    }

    /// The listing's paging.
    pub fn pagination(&self) -> (r: PaginationParams)
        ensures
            r.limit == self.limit && r.offset == self.offset,
    {
        PaginationParams { limit: self.limit, offset: self.offset }
    }
}

// ---------------------------------------------------------------------------
// Dashboard
// ---------------------------------------------------------------------------

/// A daemon as the dashboard lists it: identity, liveness and version status.
#[derive(Debug)]
pub struct DaemonSummary {
    pub id: Uuid,
    pub name: String,
    pub network_id: Uuid,
    pub last_seen: Option<i64>,
    pub is_unreachable: bool,
    pub version_status: DaemonVersionStatus,
}

/// A network with the counts the dashboard shows.
#[derive(Debug)]
pub struct NetworkSummary {
    pub id: Uuid,
    pub name: String,
    pub host_count: u64,
    pub service_count: u64,
    pub subnet_count: u64,
    pub daemon_count: u64,
}

/// The plan's limits next to current usage.
#[derive(Clone, Copy, Debug, PartialEq, Eq, Structural)]
pub struct PlanUsage {
    pub host_limit: Option<u64>,
    pub host_count: u64,
    pub network_limit: Option<u64>,
    pub network_count: u64,
    pub seat_limit: Option<u64>,
    pub seat_count: u64,
}

/// A plan's limits on hosts, networks and seats; `None` means unlimited.
#[derive(Clone, Copy, Debug, PartialEq, Eq, Structural)]
pub struct PlanLimits {
    pub hosts: Option<u64>,
    pub networks: Option<u64>,
    pub seats: Option<u64>,
}

/// Usage against the organization's plan; an organization without a plan has no limits.
pub fn plan_usage(limits: Option<PlanLimits>, host_count: u64, network_count: u64, seat_count: u64) -> (r: PlanUsage)
    ensures
        r.host_count == host_count && r.network_count == network_count && r.seat_count == seat_count,
        match limits {
            Some(l) => r.host_limit == l.hosts && r.network_limit == l.networks && r.seat_limit == l.seats,
            None => r.host_limit is None && r.network_limit is None && r.seat_limit is None,
        },
{
    let (host_limit, network_limit, seat_limit) = match limits {
        Some(l) => (l.hosts, l.networks, l.seats),
        None => (None, None, None),
    };
    PlanUsage { host_limit, host_count, network_limit, network_count, seat_limit, seat_count }
}

/// The dashboard line of each daemon, in order, with its version evaluated
/// against `policy`.
pub fn summarize_daemons(daemons: &Vec<DaemonRecord>, policy: &DaemonVersionPolicy) -> (r: Vec<DaemonSummary>)
    requires
        policy.well_formed(),
    ensures
        r@.len() == daemons@.len(),
        forall|i: int| 0 <= i < r@.len() ==> {
            let s = #[trigger] r@[i];
            let d = daemons@[i];
            &&& s.id == d.id && s.name@ == d.name@ && s.network_id == d.network_id && s.last_seen == d.last_seen
                && s.is_unreachable == d.is_unreachable
            &&& policy.evaluation(d.version, s.version_status)
        },
{
    let mut out: Vec<DaemonSummary> = Vec::new();
    let mut i: usize = 0;
    while i < daemons.len()
        invariant
            i <= daemons@.len(),
            policy.well_formed(),
            out@.len() == i,
            forall|k: int| 0 <= k < i ==> {
                let s = #[trigger] out@[k];
                let d = daemons@[k];
                &&& s.id == d.id && s.name@ == d.name@ && s.network_id == d.network_id && s.last_seen == d.last_seen
                    && s.is_unreachable == d.is_unreachable
                &&& policy.evaluation(d.version, s.version_status)
            },
        decreases daemons@.len() - i,
    {
        let d = &daemons[i];
        let v = d.version.as_ref();
        proof {
            assert(duplicate_opt_spec(v) == d.version);
        }
        let status = policy.evaluate(v);
        out.push(
            DaemonSummary {
                id: d.id,
                name: d.name.clone(),
                network_id: d.network_id,
                last_seen: d.last_seen,
                is_unreachable: d.is_unreachable,
                version_status: status,
            },
        );
        i = i + 1;
    }
    out
}

} // verus!
