//! Discovery digest: what changed on a network during one discovery session.
//!
//! Each discovery-tracked entity (hosts and their services, addresses,
//! interfaces and ports; VLANs) is classified as new, current or stale against
//! the session's window, with a flag saying whether that status was acquired in
//! this session. A session's coverage decides which entities its silence says
//! anything about, and hosts that were not reached pass their verdict on to their
//! children.

use vstd::prelude::*;

use crate::ids::{Uuid, contains_id};
use crate::net::IpAddress;
use crate::text::{decimal, decimal_text, join2};
use crate::text::{bytes_lt, lemma_lt_asymmetric, lemma_lt_total, lemma_lt_transitive, text_lt};
use crate::time::SECONDS_PER_HOUR;

verus! {

/// The digest classification of one entity.
#[derive(Clone, Copy, Debug, PartialEq, Eq, Structural)]
pub enum EntityFreshness {
    /// Created and observed during this session.
    New,
    /// Observed within the network's staleness window.
    Current,
    /// Not observed within the network's staleness window.
    Stale,
}

/// The discovery-tracking facts about one entity.
#[derive(Clone, Copy, Debug, PartialEq, Eq, Structural)]
pub struct TrackedEntity {
    pub id: Uuid,
    /// When the entity was first recorded (seconds since the Unix epoch).
    pub created_at: i64,
    /// When discovery last observed it (seconds since the Unix epoch).
    pub last_seen_at: i64,
    /// Whether discovery keeps this entity's `last_seen_at` fresh. Entities
    /// created by hand or by the system are never refreshed, so never go stale.
    pub refreshed_by_discovery: bool,
}

impl TrackedEntity {
    /// Freshness against `cutoff`: stale when discovery maintains the entity and
    /// it was last seen before the cutoff.
    pub open spec fn freshness_at(self, cutoff: i64) -> EntityFreshness {
        if self.refreshed_by_discovery && self.last_seen_at < cutoff {
            EntityFreshness::Stale
        } else {
            EntityFreshness::Current
        }
    }

    pub fn freshness(&self, cutoff: i64) -> (r: EntityFreshness)
        ensures
            r == self.freshness_at(cutoff),
    {
        if self.refreshed_by_discovery && self.last_seen_at < cutoff {
            EntityFreshness::Stale
        } else {
            EntityFreshness::Current
        }
    }
}

/// The staleness window used when a network configures none.
pub const DEFAULT_STALE_AFTER_HOURS: i64 = 168;

/// A network's staleness configuration.
#[derive(Clone, Copy, Debug, PartialEq, Eq, Structural)]
pub struct StaleWindow {
    /// Hours without an observation after which an entity counts as stale;
    /// `None` means the default.
    pub stale_after_hours: Option<i64>,
}

impl StaleWindow {
    pub open spec fn hours(self) -> i64 {
        match self.stale_after_hours {
            Some(h) => h,
            None => DEFAULT_STALE_AFTER_HOURS,
        }
    }

    pub open spec fn cutoff_at(self, t: i64) -> int {
        t - self.hours() * SECONDS_PER_HOUR
    }

    /// The cutoff anchored at `t` is an instant the calendar can represent
    /// (outside that range the date arithmetic panics).
    pub open spec fn cutoff_in_range(self, t: i64) -> bool {
        crate::time::EARLIEST_TIMESTAMP <= self.cutoff_at(t) <= crate::time::LATEST_TIMESTAMP
    }

    /// The configured window in hours.
    pub fn stale_after(&self) -> (r: i64)
        ensures
            r == self.hours(),
    {
        match self.stale_after_hours {
            Some(h) => h,
            None => DEFAULT_STALE_AFTER_HOURS,
        }
    }

    /// The instant before which a `last_seen_at` counts as stale, anchored at `t`.
    pub fn stale_cutoff(&self, t: i64) -> (r: i64)
        requires
            crate::time::valid_timestamp(t),
            self.cutoff_in_range(t),
        ensures
            r == self.cutoff_at(t),
    {
        let h = self.stale_after();
        t - h * SECONDS_PER_HOUR
    }
}

/// Per-session context for [`compute_digest_status`].
#[derive(Clone, Copy, Debug)]
pub struct DigestWindow {
    pub t_start: i64,
    pub t_end: i64,
    /// Instant before which a `last_seen_at` counts as stale, anchored at `t_end`.
    pub cutoff: i64,
    /// The same cutoff anchored at the previous session's finish; `None` on a
    /// network's first scan.
    pub prev_cutoff: Option<i64>,
}

/// Whether a session's digest can be computed: only a session with both a
/// start and a finish time has a window; without one the digest is skipped.
pub fn digest_window_ready(started: Option<i64>, finished: Option<i64>) -> (r: bool)
    ensures
        r == (started is Some && finished is Some),
{
    started.is_some() && finished.is_some()
}

/// The digest status of `e` and whether that status was acquired in this session.
pub open spec fn digest_status(e: TrackedEntity, scanned: Seq<Uuid>, w: DigestWindow) -> (EntityFreshness, bool) {
    if scanned.contains(e.id) && w.t_start <= e.created_at <= w.t_end {
        (EntityFreshness::New, true)
    } else if e.freshness_at(w.cutoff) == EntityFreshness::Stale {
        (
            EntityFreshness::Stale,
            match w.prev_cutoff {
                Some(prev) => e.last_seen_at >= prev,
                None => false,
            },
        )
    } else {
        (EntityFreshness::Current, false)
    }
}

/// Classify an entity for the digest: new when this session created and
/// observed it, otherwise its freshness; a stale entity is flagged fresh only
/// when it crossed into staleness during this session.
pub fn compute_digest_status(entity: &TrackedEntity, scanned_ids: &Vec<Uuid>, window: &DigestWindow) -> (r: (EntityFreshness, bool))
    ensures
        r == digest_status(*entity, scanned_ids@, *window),
{
    let created_at = entity.created_at;
    let is_new = contains_id(scanned_ids, entity.id) && created_at >= window.t_start && created_at
        <= window.t_end;
    if is_new {
        return (EntityFreshness::New, true);
    }
    match entity.freshness(window.cutoff) {
        EntityFreshness::Stale => {
            let just_crossed = match window.prev_cutoff {
                Some(prev) => entity.last_seen_at >= prev,
                None => false,
            };
            (EntityFreshness::Stale, just_crossed)
        },
        other => (other, false),
    }
}

/// The parts of a discovery session's type that decide its coverage.
#[derive(Debug)]
pub enum DiscoveryType {
    /// Container discovery on one host.
    Docker { host_id: Uuid },
    /// The daemon reporting its own host.
    SelfReport { host_id: Uuid },
    /// A targeted rescan of one host.
    Rescan { target_host_id: Uuid },
    /// Legacy network scan, optionally over an explicit subnet list.
    Network { subnet_ids: Option<Vec<Uuid>> },
    /// Unified discovery, optionally over an explicit subnet list.
    Unified { subnet_ids: Option<Vec<Uuid>> },
}

/// The entity ids a daemon reported as observed during a session.
#[derive(Debug)]
pub struct ScannedEntityIds {
    pub host_ids: Vec<Uuid>,
    pub subnet_ids: Vec<Uuid>,
    pub service_ids: Vec<Uuid>,
    pub port_ids: Vec<Uuid>,
    pub ip_address_ids: Vec<Uuid>,
    pub interface_ids: Vec<Uuid>,
    pub vlan_ids: Vec<Uuid>,
}

impl Default for ScannedEntityIds {
    /// Nothing observed.
    fn default() -> (r: ScannedEntityIds)
        ensures
            r.host_ids@.len() == 0 && r.subnet_ids@.len() == 0 && r.service_ids@.len() == 0 && r.port_ids@.len() == 0
                && r.ip_address_ids@.len() == 0 && r.interface_ids@.len() == 0 && r.vlan_ids@.len() == 0,
    {
        ScannedEntityIds {
            host_ids: Vec::new(),
            subnet_ids: Vec::new(),
            service_ids: Vec::new(),
            port_ids: Vec::new(),
            ip_address_ids: Vec::new(),
            interface_ids: Vec::new(),
            vlan_ids: Vec::new(),
        }
    }
}

/// Count the hosts that neighbour resolution created for a session as
/// observed by it, so the digest reports them as additions: with none, the
/// observed ids stay as they are; otherwise they are added to the session's
/// host ids (an empty set of ids standing in for a session that reported none).
pub fn fold_minted_hosts(scanned: Option<ScannedEntityIds>, minted: &Vec<Uuid>) -> (r: Option<ScannedEntityIds>)
    ensures
        minted@.len() == 0 ==> r == scanned,
        minted@.len() > 0 ==> match scanned {
            Some(s) => r matches Some(t) && t.host_ids@ == s.host_ids@ + minted@ && t.subnet_ids == s.subnet_ids
                && t.service_ids == s.service_ids && t.port_ids == s.port_ids && t.ip_address_ids == s.ip_address_ids
                && t.interface_ids == s.interface_ids && t.vlan_ids == s.vlan_ids,
            None => r matches Some(t) && t.host_ids@ == minted@ && t.subnet_ids@.len() == 0 && t.service_ids@.len() == 0
                && t.port_ids@.len() == 0 && t.ip_address_ids@.len() == 0 && t.interface_ids@.len() == 0
                && t.vlan_ids@.len() == 0,
        },
{
    if minted.len() == 0 {
        return scanned;
    }
    let mut s = match scanned {
        Some(s) => s,
        None => ScannedEntityIds::default(),
    };
    let mut extra = minted.clone();
    s.host_ids.append(&mut extra);
    Some(s)
}

/// What a discovery session structurally covered.
#[derive(Debug)]
pub enum ScanCoverage {
    /// Swept these subnets; a host is covered iff it holds an address in one.
    Subnets(Vec<Uuid>),
    /// Touched a single host and swept no subnet.
    SingleHost(Uuid),
}

/// The coverage a session of type `t` that confirmed `scanned_subnets` has.
pub open spec fn coverage_of(t: DiscoveryType, scanned_subnets: Seq<Uuid>) -> (Option<Uuid>, Seq<Uuid>) {
    match t {
        DiscoveryType::Docker { host_id } => (Some(host_id), Seq::empty()),
        DiscoveryType::SelfReport { host_id } => (Some(host_id), Seq::empty()),
        DiscoveryType::Rescan { target_host_id } => (Some(target_host_id), Seq::empty()),
        DiscoveryType::Network { subnet_ids } => match subnet_ids {
            Some(ids) => if ids@.len() > 0 {
                (None, ids@)
            } else {
                (None, scanned_subnets)
            },
            None => (None, scanned_subnets),
        },
        DiscoveryType::Unified { subnet_ids } => match subnet_ids {
            Some(ids) => if ids@.len() > 0 {
                (None, ids@)
            } else {
                (None, scanned_subnets)
            },
            None => (None, scanned_subnets),
        },
    }
}

fn copy_ids(ids: &Vec<Uuid>) -> (r: Vec<Uuid>)
    ensures
        r@ == ids@,
{
    let mut out = Vec::new();
    let mut i: usize = 0;
    while i < ids.len()
        invariant
            i <= ids@.len(),
            out@ == ids@.take(i as int),
        decreases ids@.len() - i,
    {
        out.push(ids[i]);
        proof {
            assert(ids@.take(i + 1) =~= ids@.take(i as int).push(ids@[i as int]));
        }
        i = i + 1;
    }
    proof {
        assert(ids@.take(i as int) =~= ids@);
    }
    out
}

/// Whether some element of `a` occurs in `b`.
pub open spec fn intersects(a: Seq<Uuid>, b: Seq<Uuid>) -> bool {
    exists|i: int| 0 <= i < a.len() && b.contains(#[trigger] a[i])
}

fn any_shared(a: &Vec<Uuid>, b: &Vec<Uuid>) -> (r: bool)
    ensures
        r == intersects(a@, b@),
{
    let mut i: usize = 0;
    while i < a.len()
        invariant
            i <= a@.len(),
            forall|j: int| 0 <= j < i ==> !b@.contains(#[trigger] a@[j]),
        decreases a@.len() - i,
    {
        if contains_id(b, a[i]) {
            return true;
        }
        i = i + 1;
    }
    false
}

impl ScanCoverage {
    pub open spec fn view(self) -> (Option<Uuid>, Seq<Uuid>) {
        match self {
            ScanCoverage::SingleHost(id) => (Some(id), Seq::empty()),
            ScanCoverage::Subnets(s) => (None, s@),
        }
    }

    /// The coverage of a session: the one host a container, self-report or
    /// rescan run speaks for; otherwise the explicit subnet target, or failing
    /// that the subnets the daemon confirmed.
    pub fn for_session(discovery_type: &DiscoveryType, scanned: &ScannedEntityIds) -> (r: ScanCoverage)
        ensures
            r.view() == coverage_of(*discovery_type, scanned.subnet_ids@),
    {
        match discovery_type {
            DiscoveryType::Docker { host_id } => ScanCoverage::SingleHost(*host_id),
            DiscoveryType::SelfReport { host_id } => ScanCoverage::SingleHost(*host_id),
            DiscoveryType::Rescan { target_host_id } => ScanCoverage::SingleHost(*target_host_id),
            DiscoveryType::Network { subnet_ids } | DiscoveryType::Unified { subnet_ids } => {
                match subnet_ids {
                    Some(ids) => {
                        if ids.len() > 0 {
                            ScanCoverage::Subnets(copy_ids(ids))
                        } else {
                            ScanCoverage::Subnets(copy_ids(&scanned.subnet_ids))
                        }
                    },
                    None => ScanCoverage::Subnets(copy_ids(&scanned.subnet_ids)),
                }
            },
        }
    }

    pub open spec fn covers(self, host_id: Uuid, host_subnets: Option<Seq<Uuid>>, observed: bool) -> bool {
        match self {
            ScanCoverage::SingleHost(id) => id == host_id,
            ScanCoverage::Subnets(swept) => observed || match host_subnets {
                Some(s) => intersects(s, swept@),
                None => false,
            },
        }
    }

    /// Whether this session's silence about `host_id` is meaningful: the host a
    /// single-host run speaks for, or in a subnet sweep a host the session
    /// observed or one holding an address in a swept subnet.
    pub fn covers_host(&self, host_id: Uuid, host_subnets: Option<&Vec<Uuid>>, observed: bool) -> (r: bool)
        ensures
            r == self.covers(
                host_id,
                match host_subnets {
                    Some(s) => Some(s@),
                    None => None,
                },
                observed,
            ),
    {
        match self {
            ScanCoverage::SingleHost(id) => *id == host_id,
            ScanCoverage::Subnets(swept) => observed || match host_subnets {
                Some(s) => any_shared(s, swept),
                None => false,
            },
        }
    }

    /// Whether this session swept any subnet at all.
    pub fn swept_subnets(&self) -> (r: bool)
        ensures
            r == (self.view().0 is None && self.view().1.len() > 0),
    {
        match self {
            ScanCoverage::Subnets(s) => s.len() > 0,
            ScanCoverage::SingleHost(_) => false,
        }
    }
}

/// How a host's children are classified this session.
#[derive(Clone, Copy, Debug, PartialEq, Eq, Structural)]
pub enum ChildPolicy {
    /// The host was reached: a child's absence is the child's own.
    Classify,
    /// The host was not reached: children inherit the host's verdict.
    Inherit(EntityFreshness, bool),
}

impl ChildPolicy {
    pub open spec fn apply(self, own: (EntityFreshness, bool)) -> (EntityFreshness, bool) {
        match self {
            ChildPolicy::Classify => own,
            ChildPolicy::Inherit(status, fresh) => (status, fresh),
        }
    }

    /// Apply this policy to a child's own classification.
    pub fn resolve(&self, own: (EntityFreshness, bool)) -> (r: (EntityFreshness, bool))
        ensures
            r == self.apply(own),
    {
        match self {
            ChildPolicy::Classify => own,
            ChildPolicy::Inherit(status, is_fresh) => (*status, *is_fresh),
        }
    }
}

// ---------------------------------------------------------------------------
// Child summaries and host cards
// ---------------------------------------------------------------------------

/// What the digest reads of a child row, by kind.
#[derive(Debug)]
pub enum ChildKind {
    /// A service: its name, whether it runs in a container, its definition's logo
    /// (empty when the definition has none), and whether it is the synthetic
    /// open-ports service.
    Service { name: String, is_container: bool, logo_url: String, is_open_ports: bool },
    /// An address the host holds.
    Address { address: IpAddress },
    /// An interface: its description, SNMP ifIndex and name, each when discovery provided it.
    Interface { descr: Option<String>, if_index: Option<u32>, if_name: Option<String> },
    /// A port, labelled by its port type.
    Port { port_type: String },
}

/// A child row (service, address, interface or port) of a host, as the digest reads it.
#[derive(Debug)]
pub struct DigestChild {
    pub entity: TrackedEntity,
    pub host_id: Uuid,
    pub kind: ChildKind,
}

/// A child row as it appears on a host card.
#[derive(Debug)]
pub struct ChildSummary {
    pub id: Uuid,
    pub host_id: Uuid,
    pub label: String,
    pub is_container: bool,
    pub logo_url: Option<String>,
    pub status: EntityFreshness,
    pub is_fresh: bool,
}

/// A child summary as plain values.
pub struct ChildView {
    pub id: Uuid,
    pub host_id: Uuid,
    pub label: Seq<char>,
    pub is_container: bool,
    pub logo_url: Option<Seq<char>>,
    pub status: EntityFreshness,
    pub is_fresh: bool,
}

pub open spec fn opt_text(s: Option<String>) -> Option<Seq<char>> {
    match s {
        Some(t) => Some(t@),
        None => None,
    }
}

impl ChildSummary {
    pub open spec fn view(self) -> ChildView {
        ChildView {
            id: self.id,
            host_id: self.host_id,
            label: self.label@,
            is_container: self.is_container,
            logo_url: opt_text(self.logo_url),
            status: self.status,
            is_fresh: self.is_fresh,
        }
    }
}

/// Rows that are noise in a digest: the synthetic open-ports service, and
/// loopback addresses (the daemon's own local address, never rescanned).
pub open spec fn child_excluded(k: ChildKind) -> bool {
    match k {
        ChildKind::Service { is_open_ports, .. } => is_open_ports,
        ChildKind::Address { address } => address.loopback(),
        _ => false,
    }
}

/// An interface's label: its description when non-empty, else `ifIndex N`,
/// else its name (empty when it has none).
pub open spec fn interface_label(descr: Option<Seq<char>>, if_index: Option<u32>, if_name: Option<Seq<char>>) -> Seq<char> {
    if descr is Some && descr->0.len() > 0 {
        descr->0
    } else {
        match if_index {
            Some(n) => "ifIndex "@ + decimal(n as nat),
            None => match if_name {
                Some(t) => t,
                None => Seq::empty(),
            },
        }
    }
}

/// The summary of a child of kind `k` with status `st`.
pub open spec fn kind_view(k: ChildKind, id: Uuid, host_id: Uuid, st: (EntityFreshness, bool)) -> ChildView {
    let (label, is_container, logo_url) = match k {
        ChildKind::Service { name, is_container, logo_url, .. } => (
            name@,
            is_container,
            if logo_url@.len() > 0 {
                Some(logo_url@)
            } else {
                None
            },
        ),
        ChildKind::Address { address } => (address.text(), false, None),
        ChildKind::Interface { descr, if_index, if_name } => (
            interface_label(opt_text(descr), if_index, opt_text(if_name)),
            false,
            None,
        ),
        ChildKind::Port { port_type } => (port_type@, false, None),
    };
    ChildView { id, host_id, label, is_container, logo_url, status: st.0, is_fresh: st.1 }
}

pub open spec fn child_view(c: DigestChild, st: (EntityFreshness, bool)) -> ChildView {
    kind_view(c.kind, c.entity.id, c.host_id, st)
}

/// The card row of a service; a definition without a logo leaves the logo unset.
pub fn service_summary(
    id: Uuid,
    host_id: Uuid,
    name: &String,
    is_container: bool,
    logo_url: &String,
    status: EntityFreshness,
    is_fresh: bool,
) -> (r: ChildSummary)
    ensures
        r.view() == kind_view(
            ChildKind::Service { name: *name, is_container, logo_url: *logo_url, is_open_ports: false },
            id,
            host_id,
            (status, is_fresh),
        ),
{
    let logo = if logo_url.as_str().is_empty() {
        None
    } else {
        Some(logo_url.clone())
    };
    ChildSummary { id, host_id, label: name.clone(), is_container, logo_url: logo, status, is_fresh }
}

/// The card row of an address, labelled with the address text.
pub fn ip_summary(id: Uuid, host_id: Uuid, address: &IpAddress, status: EntityFreshness, is_fresh: bool) -> (r: ChildSummary)
    ensures
        r.view() == kind_view(ChildKind::Address { address: *address }, id, host_id, (status, is_fresh)),
{
    ChildSummary { id, host_id, label: address.to_text(), is_container: false, logo_url: None, status, is_fresh }
}

/// The card row of an interface: its description, else its ifIndex, else its name.
pub fn interface_summary(
    id: Uuid,
    host_id: Uuid,
    descr: &Option<String>,
    if_index: Option<u32>,
    if_name: &Option<String>,
    status: EntityFreshness,
    is_fresh: bool,
) -> (r: ChildSummary)
    ensures
        r.view().label == interface_label(opt_text(*descr), if_index, opt_text(*if_name)),
        r.view().id == id && r.view().host_id == host_id,
        !r.view().is_container && r.view().logo_url is None,
        r.view().status == status && r.view().is_fresh == is_fresh,
{
    proof {
        reveal_strlit("");
    }
    let described = match descr {
        Some(d) => !d.as_str().is_empty(),
        None => false,
    };
    let label = if described {
        match descr {
            Some(d) => d.clone(),
            None => String::new(),
        }
    } else {
        match if_index {
            Some(n) => join2("ifIndex ", decimal_text(n as u64).as_str()),
            None => match if_name {
                Some(t) => t.clone(),
                None => String::new(),
            },
        }
    };
    ChildSummary { id, host_id, label, is_container: false, logo_url: None, status, is_fresh }
}

/// The card row of a port, labelled with its port type.
pub fn port_summary(id: Uuid, host_id: Uuid, port_type: &String, status: EntityFreshness, is_fresh: bool) -> (r: ChildSummary)
    ensures
        r.view() == kind_view(ChildKind::Port { port_type: *port_type }, id, host_id, (status, is_fresh)),
{
    ChildSummary { id, host_id, label: port_type.clone(), is_container: false, logo_url: None, status, is_fresh }
}

/// The card row of a child with the given status.
fn summarize(c: &DigestChild, status: EntityFreshness, is_fresh: bool) -> (r: ChildSummary)
    ensures
        r.view() == child_view(*c, (status, is_fresh)),
{
    let id = c.entity.id;
    match &c.kind {
        ChildKind::Service { name, is_container, logo_url, .. } => service_summary(
            id,
            c.host_id,
            name,
            *is_container,
            logo_url,
            status,
            is_fresh,
        ),
        ChildKind::Address { address } => ip_summary(id, c.host_id, address, status, is_fresh),
        ChildKind::Interface { descr, if_index, if_name } => interface_summary(
            id,
            c.host_id,
            descr,
            *if_index,
            if_name,
            status,
            is_fresh,
        ),
        ChildKind::Port { port_type } => port_summary(id, c.host_id, port_type, status, is_fresh),
    }
}

/// Whether a child row is noise in a digest.
fn is_excluded(c: &DigestChild) -> (r: bool)
    ensures
        r == child_excluded(c.kind),
{
    match &c.kind {
        ChildKind::Service { is_open_ports, .. } => *is_open_ports,
        ChildKind::Address { address } => address.is_loopback(),
        _ => false,
    }
}

pub open spec fn views(s: Seq<ChildSummary>) -> Seq<ChildView> {
    s.map_values(|c: ChildSummary| c.view())
}

/// The summaries of the non-excluded children of `host`, in input order, each
/// classified on its own and then resolved under the host's policy.
pub open spec fn children_of(
    cs: Seq<DigestChild>,
    host: Uuid,
    policy: ChildPolicy,
    scanned: Seq<Uuid>,
    w: DigestWindow,
) -> Seq<ChildView>
    decreases cs.len(),
{
    if cs.len() == 0 {
        Seq::empty()
    } else {
        let rest = children_of(cs.drop_last(), host, policy, scanned, w);
        let c = cs.last();
        if c.host_id == host && !child_excluded(c.kind) {
            rest.push(child_view(c, policy.apply(digest_status(c.entity, scanned, w))))
        } else {
            rest
        }
    }
}

/// The classified summaries of `host`'s children.
pub fn collect_children(
    children: &Vec<DigestChild>,
    host: Uuid,
    policy: &ChildPolicy,
    scanned_ids: &Vec<Uuid>,
    window: &DigestWindow,
) -> (r: Vec<ChildSummary>)
    ensures
        views(r@) == children_of(children@, host, *policy, scanned_ids@, *window),
{
    let mut out: Vec<ChildSummary> = Vec::new();
    let mut i: usize = 0;
    while i < children.len()
        invariant
            i <= children@.len(),
            views(out@) == children_of(children@.take(i as int), host, *policy, scanned_ids@, *window),
        decreases children@.len() - i,
    {
        let c = &children[i];
        proof {
            assert(children@.take(i + 1).drop_last() =~= children@.take(i as int));
            assert(children@.take(i + 1).last() == children@[i as int]);
        }
        if c.host_id == host && !is_excluded(c) {
            let own = compute_digest_status(&c.entity, scanned_ids, window);
            let (status, is_fresh) = policy.resolve(own);
            let summary = summarize(c, status, is_fresh);
            let ghost before = out@;
            out.push(summary);
            proof {
                assert(out@ =~= before.push(summary));
                assert(views(out@) =~= views(before).push(summary.view()));
            }
        }
        i = i + 1;
    }
    proof {
        assert(children@.take(i as int) =~= children@);
    }
    out
}

/// Whether any summary in `s` carries a status acquired this session.
pub open spec fn any_fresh(s: Seq<ChildView>) -> bool {
    exists|i: int| 0 <= i < s.len() && (#[trigger] s[i]).is_fresh
}

fn has_fresh(s: &Vec<ChildSummary>) -> (r: bool)
    ensures
        r == any_fresh(views(s@)),
{
    let mut i: usize = 0;
    while i < s.len()
        invariant
            i <= s@.len(),
            forall|j: int| 0 <= j < i ==> !(#[trigger] s@[j]).is_fresh,
        decreases s@.len() - i,
    {
        if s[i].is_fresh {
            proof {
                assert(views(s@)[i as int].is_fresh);
            }
            return true;
        }
        i = i + 1;
    }
    proof {
        assert forall|j: int| 0 <= j < views(s@).len() implies !(#[trigger] views(s@)[j]).is_fresh by {
            assert(views(s@)[j] == s@[j].view());
        }
    }
    false
}

/// A host as the digest reads it.
#[derive(Debug)]
pub struct DigestHost {
    pub entity: TrackedEntity,
    /// The hostname the host reported, if any.
    pub hostname: Option<String>,
    /// The host's display name.
    pub name: String,
}

/// The label of a host: its hostname when non-empty, else its name.
pub open spec fn host_label(h: DigestHost) -> Seq<char> {
    match h.hostname {
        Some(t) => if t@.len() > 0 {
            t@
        } else {
            h.name@
        },
        None => h.name@,
    }
}

/// A host as it appears at the top of a card.
#[derive(Debug)]
pub struct HostSummary {
    pub id: Uuid,
    pub label: String,
}

/// The summary line of a host.
pub fn host_summary(h: &DigestHost) -> (r: HostSummary)
    ensures
        r.id == h.entity.id,
        r.label@ == host_label(*h),
{
    let label = match &h.hostname {
        Some(t) => if !t.as_str().is_empty() {
            t.clone()
        } else {
            h.name.clone()
        },
        None => h.name.clone(),
    };
    HostSummary { id: h.entity.id, label }
}

/// A host card: the host, its verdict, and its classified children.
#[derive(Debug)]
pub struct AffectedHostCard {
    pub host: HostSummary,
    pub status: EntityFreshness,
    pub services: Vec<ChildSummary>,
    pub ip_addresses: Vec<ChildSummary>,
    pub interfaces: Vec<ChildSummary>,
    pub ports: Vec<ChildSummary>,
}

/// Every child row the digest reads, by kind.
#[derive(Debug)]
pub struct DigestChildren {
    pub services: Vec<DigestChild>,
    pub ip_addresses: Vec<DigestChild>,
    pub interfaces: Vec<DigestChild>,
    pub ports: Vec<DigestChild>,
}

/// `card` is the card of host `h` with verdict `status`, its children resolved
/// under `policy`.
pub open spec fn card_matches(
    card: AffectedHostCard,
    h: DigestHost,
    status: EntityFreshness,
    policy: ChildPolicy,
    kids: DigestChildren,
    scanned: ScannedEntityIds,
    w: DigestWindow,
) -> bool {
    &&& card.host.id == h.entity.id
    &&& card.host.label@ == host_label(h)
    &&& card.status == status
    &&& views(card.services@) == children_of(kids.services@, h.entity.id, policy, scanned.service_ids@, w)
    &&& views(card.ip_addresses@) == children_of(kids.ip_addresses@, h.entity.id, policy, scanned.ip_address_ids@, w)
    &&& views(card.interfaces@) == children_of(kids.interfaces@, h.entity.id, policy, scanned.interface_ids@, w)
    &&& views(card.ports@) == children_of(kids.ports@, h.entity.id, policy, scanned.port_ids@, w)
}

/// Whether at least one child on the card acquired its status this session.
pub open spec fn card_fresh(card: AffectedHostCard) -> bool {
    any_fresh(views(card.services@)) || any_fresh(views(card.ip_addresses@)) || any_fresh(
        views(card.interfaces@),
    ) || any_fresh(views(card.ports@))
}

/// Whether at least one child on the card acquired its status this session.
pub fn card_has_fresh_children(card: &AffectedHostCard) -> (r: bool)
    ensures
        r == card_fresh(*card),
{
    has_fresh(&card.services) || has_fresh(&card.ip_addresses) || has_fresh(&card.interfaces)
        || has_fresh(&card.ports)
}

/// The card of host `h` with verdict `status`, its children resolved under `policy`.
pub fn build_card(
    h: &DigestHost,
    status: EntityFreshness,
    policy: &ChildPolicy,
    kids: &DigestChildren,
    scanned: &ScannedEntityIds,
    window: &DigestWindow,
) -> (r: AffectedHostCard)
    ensures
        card_matches(r, *h, status, *policy, *kids, *scanned, *window),
{
    let id = h.entity.id;
    AffectedHostCard {
        host: host_summary(h),
        status,
        services: collect_children(&kids.services, id, policy, &scanned.service_ids, window),
        ip_addresses: collect_children(&kids.ip_addresses, id, policy, &scanned.ip_address_ids, window),
        interfaces: collect_children(&kids.interfaces, id, policy, &scanned.interface_ids, window),
        ports: collect_children(&kids.ports, id, policy, &scanned.port_ids, window),
    }
}

// ---------------------------------------------------------------------------
// Bucketing the network's hosts
// ---------------------------------------------------------------------------

/// A live address row: which host holds an address in which subnet.
#[derive(Clone, Copy, Debug, PartialEq, Eq, Structural)]
pub struct HostAddress {
    pub host_id: Uuid,
    pub subnet_id: Uuid,
}

/// The subnets `host` holds addresses in, one entry per address, in input order.
pub open spec fn host_subnets(addrs: Seq<HostAddress>, host: Uuid) -> Seq<Uuid>
    decreases addrs.len(),
{
    if addrs.len() == 0 {
        Seq::empty()
    } else {
        let rest = host_subnets(addrs.drop_last(), host);
        if addrs.last().host_id == host {
            rest.push(addrs.last().subnet_id)
        } else {
            rest
        }
    }
}

/// The subnets of `host`, or `None` when it holds no address at all.
pub open spec fn subnets_of(addrs: Seq<HostAddress>, host: Uuid) -> Option<Seq<Uuid>> {
    if host_subnets(addrs, host).len() > 0 {
        Some(host_subnets(addrs, host))
    } else {
        None
    }
}

/// The subnets `host` holds addresses in, or `None` when it holds none.
pub fn subnets_for_host(addrs: &Vec<HostAddress>, host: Uuid) -> (r: Option<Vec<Uuid>>)
    ensures
        match r {
            Some(v) => subnets_of(addrs@, host) == Some(v@),
            None => subnets_of(addrs@, host) is None,
        },
{
    let mut out: Vec<Uuid> = Vec::new();
    let mut i: usize = 0;
    while i < addrs.len()
        invariant
            i <= addrs@.len(),
            out@ == host_subnets(addrs@.take(i as int), host),
        decreases addrs@.len() - i,
    {
        proof {
            assert(addrs@.take(i + 1).drop_last() =~= addrs@.take(i as int));
        }
        if addrs[i].host_id == host {
            out.push(addrs[i].subnet_id);
        }
        i = i + 1;
    }
    proof {
        assert(addrs@.take(i as int) =~= addrs@);
    }
    if out.len() > 0 {
        Some(out)
    } else {
        None
    }
}

/// Everything the digest reads about one session on one network.
#[derive(Debug)]
pub struct DigestScope {
    pub coverage: ScanCoverage,
    pub addresses: Vec<HostAddress>,
    pub children: DigestChildren,
    pub scanned: ScannedEntityIds,
    pub window: DigestWindow,
}

/// Which list a host's card goes to.
#[derive(Clone, Copy, Debug, PartialEq, Eq, Structural)]
pub enum Bucket {
    Added,
    Stale,
    Changed,
}

impl DigestScope {
    pub open spec fn covered(self, h: DigestHost) -> bool {
        self.coverage.covers(
            h.entity.id,
            subnets_of(self.addresses@, h.entity.id),
            self.scanned.host_ids@.contains(h.entity.id),
        )
    }

    pub open spec fn verdict(self, h: DigestHost) -> (EntityFreshness, bool) {
        digest_status(h.entity, self.scanned.host_ids@, self.window)
    }

    /// A host that was reached classifies its own children; otherwise the
    /// children inherit the host's verdict.
    pub open spec fn policy(self, h: DigestHost) -> ChildPolicy {
        if self.scanned.host_ids@.contains(h.entity.id) {
            ChildPolicy::Classify
        } else {
            ChildPolicy::Inherit(self.verdict(h).0, self.verdict(h).1)
        }
    }

    pub open spec fn children_fresh(self, h: DigestHost) -> bool {
        let id = h.entity.id;
        let p = self.policy(h);
        let k = self.children;
        let s = self.scanned;
        let w = self.window;
        any_fresh(children_of(k.services@, id, p, s.service_ids@, w)) || any_fresh(
            children_of(k.ip_addresses@, id, p, s.ip_address_ids@, w),
        ) || any_fresh(children_of(k.interfaces@, id, p, s.interface_ids@, w)) || any_fresh(
            children_of(k.ports@, id, p, s.port_ids@, w),
        )
    }

    /// The list a covered host's card belongs to: added when new, stale when it
    /// crossed into staleness this session, changed when current with at least
    /// one child whose status changed this session.
    pub open spec fn in_bucket(self, h: DigestHost, b: Bucket) -> bool {
        self.covered(h) && match b {
            Bucket::Added => self.verdict(h).0 == EntityFreshness::New,
            Bucket::Stale => self.verdict(h) == (EntityFreshness::Stale, true),
            Bucket::Changed => self.verdict(h).0 == EntityFreshness::Current && self.children_fresh(h),
        }
    }

    /// The card a host gets in this session.
    pub open spec fn card_of(self, card: AffectedHostCard, h: DigestHost) -> bool {
        card_matches(card, h, self.verdict(h).0, self.policy(h), self.children, self.scanned, self.window)
    }
}

/// Indices of `hosts` whose cards go to bucket `b`, in input order.
pub open spec fn picked(hosts: Seq<DigestHost>, scope: DigestScope, b: Bucket) -> Seq<int>
    decreases hosts.len(),
{
    if hosts.len() == 0 {
        Seq::empty()
    } else {
        let rest = picked(hosts.drop_last(), scope, b);
        if scope.in_bucket(hosts.last(), b) {
            rest.push(hosts.len() - 1)
        } else {
            rest
        }
    }
}

proof fn lemma_picked_in_range(hosts: Seq<DigestHost>, scope: DigestScope, b: Bucket)
    ensures
        forall|k: int| 0 <= k < picked(hosts, scope, b).len() ==> 0 <= #[trigger] picked(hosts, scope, b)[k] < hosts.len(),
    decreases hosts.len(),
{
    if hosts.len() > 0 {
        let rest = hosts.drop_last();
        lemma_picked_in_range(rest, scope, b);
        let pr = picked(rest, scope, b);
        let ph = picked(hosts, scope, b);
        assert forall|k: int| 0 <= k < ph.len() implies 0 <= #[trigger] ph[k] < hosts.len() by {
            if k < pr.len() {
                assert(ph[k] == pr[k]);
            }
        }
    }
}

/// `cards` are the cards of the hosts `picked(hosts, scope, b)`, in that order.
pub open spec fn cards_for(cards: Seq<AffectedHostCard>, hosts: Seq<DigestHost>, scope: DigestScope, b: Bucket) -> bool {
    &&& cards.len() == picked(hosts, scope, b).len()
    &&& forall|k: int| 0 <= k < cards.len() ==> scope.card_of(#[trigger] cards[k], hosts[picked(hosts, scope, b)[k]])
}

/// The three lists of host cards.
#[derive(Debug)]
pub struct HostCards {
    pub hosts_added: Vec<AffectedHostCard>,
    pub hosts_stale: Vec<AffectedHostCard>,
    pub hosts_changed: Vec<AffectedHostCard>,
}

fn push_card(
    cards: &mut Vec<AffectedHostCard>,
    card: AffectedHostCard,
    Ghost(hosts): Ghost<Seq<DigestHost>>,
    Ghost(i): Ghost<int>,
    Ghost(scope): Ghost<DigestScope>,
    Ghost(b): Ghost<Bucket>,
)
    requires
        0 <= i < hosts.len(),
        cards_for(old(cards)@, hosts.take(i), scope, b),
        scope.in_bucket(hosts[i], b),
        scope.card_of(card, hosts[i]),
    ensures
        cards_for(final(cards)@, hosts.take(i + 1), scope, b),
{
    let ghost before = cards@;
    cards.push(card);
    proof {
        assert(hosts.take(i + 1).drop_last() =~= hosts.take(i));
        assert(hosts.take(i + 1).last() == hosts[i]);
        let pk = picked(hosts.take(i + 1), scope, b);
        assert(pk == picked(hosts.take(i), scope, b).push(i));
        assert forall|k: int| 0 <= k < cards@.len() implies scope.card_of(
            #[trigger] cards@[k],
            hosts.take(i + 1)[pk[k]],
        ) by {
            if k < before.len() {
                lemma_picked_in_range(hosts.take(i), scope, b);
                assert(cards@[k] == before[k]);
                assert(pk[k] == picked(hosts.take(i), scope, b)[k]);
                assert(hosts.take(i + 1)[pk[k]] == hosts.take(i)[pk[k]]);
            } else {
                assert(pk[k] == i);
            }
        }
    }
}

proof fn lemma_skip_bucket(hosts: Seq<DigestHost>, i: int, scope: DigestScope, b: Bucket, cards: Seq<AffectedHostCard>)
    requires
        0 <= i < hosts.len(),
        cards_for(cards, hosts.take(i), scope, b),
        !scope.in_bucket(hosts[i], b),
    ensures
        cards_for(cards, hosts.take(i + 1), scope, b),
{
    assert(hosts.take(i + 1).drop_last() =~= hosts.take(i));
    assert(hosts.take(i + 1).last() == hosts[i]);
    lemma_picked_in_range(hosts.take(i), scope, b);
    assert forall|k: int| 0 <= k < cards.len() implies scope.card_of(
        #[trigger] cards[k],
        hosts.take(i + 1)[picked(hosts.take(i + 1), scope, b)[k]],
    ) by {
        assert(hosts.take(i + 1)[picked(hosts.take(i), scope, b)[k]] == hosts.take(i)[picked(
            hosts.take(i),
            scope,
            b,
        )[k]]);
    }
}

/// Bucket every covered host of the network: hosts this session added, hosts
/// that went stale during it, and current hosts with a child whose status changed
/// during it (sorted by label, stably).
pub fn classify_hosts(hosts: &Vec<DigestHost>, scope: &DigestScope) -> (r: HostCards)
    ensures
        cards_for(r.hosts_added@, hosts@, *scope, Bucket::Added),
        cards_for(r.hosts_stale@, hosts@, *scope, Bucket::Stale),
        exists|unsorted: Seq<AffectedHostCard>|
            cards_for(unsorted, hosts@, *scope, Bucket::Changed) && #[trigger] sorted_stably(
                r.hosts_changed@,
                unsorted,
            ),
{
    let mut added: Vec<AffectedHostCard> = Vec::new();
    let mut stale: Vec<AffectedHostCard> = Vec::new();
    let mut changed: Vec<AffectedHostCard> = Vec::new();
    let mut i: usize = 0;
    while i < hosts.len()
        invariant
            i <= hosts@.len(),
            cards_for(added@, hosts@.take(i as int), *scope, Bucket::Added),
            cards_for(stale@, hosts@.take(i as int), *scope, Bucket::Stale),
            cards_for(changed@, hosts@.take(i as int), *scope, Bucket::Changed),
        decreases hosts@.len() - i,
    {
        let h = &hosts[i];
        let id = h.entity.id;
        let observed = contains_id(&scope.scanned.host_ids, id);
        let subnets = subnets_for_host(&scope.addresses, id);
        let covered = match &subnets {
            Some(s) => scope.coverage.covers_host(id, Some(s), observed),
            None => scope.coverage.covers_host(id, None, observed),
        };
        proof {
            assert(hosts@.take(i as int + 1)[i as int] == hosts@[i as int]);
            assert(covered == scope.covered(hosts@[i as int]));
        }
        if !covered {
            proof {
                lemma_skip_bucket(hosts@, i as int, *scope, Bucket::Added, added@);
                lemma_skip_bucket(hosts@, i as int, *scope, Bucket::Stale, stale@);
                lemma_skip_bucket(hosts@, i as int, *scope, Bucket::Changed, changed@);
            }
        } else {
            let (status, is_fresh) = compute_digest_status(&h.entity, &scope.scanned.host_ids, &scope.window);
            let policy = if observed {
                ChildPolicy::Classify
            } else {
                ChildPolicy::Inherit(status, is_fresh)
            };
            match status {
                EntityFreshness::New => {
                    let card = build_card(h, status, &policy, &scope.children, &scope.scanned, &scope.window);
                    push_card(&mut added, card, Ghost(hosts@), Ghost(i as int), Ghost(*scope), Ghost(Bucket::Added));
                    proof {
                        lemma_skip_bucket(hosts@, i as int, *scope, Bucket::Stale, stale@);
                        lemma_skip_bucket(hosts@, i as int, *scope, Bucket::Changed, changed@);
                    }
                },
                EntityFreshness::Stale => {
                    if is_fresh {
                        let card = build_card(h, status, &policy, &scope.children, &scope.scanned, &scope.window);
                        push_card(&mut stale, card, Ghost(hosts@), Ghost(i as int), Ghost(*scope), Ghost(Bucket::Stale));
                    } else {
                        proof {
                            lemma_skip_bucket(hosts@, i as int, *scope, Bucket::Stale, stale@);
                        }
                    }
                    proof {
                        lemma_skip_bucket(hosts@, i as int, *scope, Bucket::Added, added@);
                        lemma_skip_bucket(hosts@, i as int, *scope, Bucket::Changed, changed@);
                    }
                },
                EntityFreshness::Current => {
                    let card = build_card(h, status, &policy, &scope.children, &scope.scanned, &scope.window);
                    let fresh_kids = card_has_fresh_children(&card);
                    if fresh_kids {
                        push_card(&mut changed, card, Ghost(hosts@), Ghost(i as int), Ghost(*scope), Ghost(Bucket::Changed));
                    } else {
                        proof {
                            lemma_skip_bucket(hosts@, i as int, *scope, Bucket::Changed, changed@);
                        }
                    }
                    proof {
                        lemma_skip_bucket(hosts@, i as int, *scope, Bucket::Added, added@);
                        lemma_skip_bucket(hosts@, i as int, *scope, Bucket::Stale, stale@);
                    }
                },
            }
        }
        i = i + 1;
    }
    proof {
        assert(hosts@.take(i as int) =~= hosts@);
    }
    let ghost unsorted = changed@;
    let sorted = sort_cards_by_label(changed);
    let r = HostCards { hosts_added: added, hosts_stale: stale, hosts_changed: sorted };
    proof {
        assert(cards_for(unsorted, hosts@, *scope, Bucket::Changed));
        assert(sorted_stably(r.hosts_changed@, unsorted));
    }
    r
}

// ---------------------------------------------------------------------------
// Stable sort of cards by host label
// ---------------------------------------------------------------------------

/// The bytes a card sorts by: its host label, as Rust orders strings.
pub open spec fn label_key(c: AffectedHostCard) -> Seq<u8> {
    vstd::utf8::encode_utf8(c.host.label@)
}

/// `p` lists each index below `n` exactly once.
pub open spec fn is_permutation(p: Seq<int>, n: int) -> bool {
    &&& p.len() == n
    &&& forall|k: int| 0 <= k < n ==> 0 <= #[trigger] p[k] < n
    &&& forall|a: int, b: int| 0 <= a < b < n ==> p[a] != p[b]
}

/// `out` is `input` sorted by label, cards with equal labels keeping their order.
pub open spec fn sorted_stably(out: Seq<AffectedHostCard>, input: Seq<AffectedHostCard>) -> bool {
    exists|p: Seq<int>| #[trigger] is_permutation(p, input.len() as int) && stable_order(out, input, p)
}

pub open spec fn stable_order(out: Seq<AffectedHostCard>, input: Seq<AffectedHostCard>, p: Seq<int>) -> bool {
    &&& out.len() == p.len()
    &&& forall|k: int| 0 <= k < out.len() ==> #[trigger] out[k] == input[p[k]]
    &&& forall|a: int, b: int|
        0 <= a < b < out.len() ==> !bytes_lt(label_key(#[trigger] out[b]), label_key(#[trigger] out[a]))
    &&& forall|a: int, b: int|
        0 <= a < b < out.len() && label_key(out[a]) == label_key(out[b]) ==> #[trigger] p[a] < #[trigger] p[b]
}

proof fn lemma_le_transitive(x: Seq<u8>, y: Seq<u8>, z: Seq<u8>)
    requires
        !bytes_lt(y, x),
        !bytes_lt(z, y),
    ensures
        !bytes_lt(z, x),
{
    lemma_lt_total(x, y);
    if bytes_lt(z, x) && bytes_lt(x, y) {
        lemma_lt_transitive(z, x, y);
    }
}

/// Sort cards by host label, keeping cards with equal labels in input order.
pub fn sort_cards_by_label(cards: Vec<AffectedHostCard>) -> (r: Vec<AffectedHostCard>)
    ensures
        sorted_stably(r@, cards@),
{
    let ghost input = cards@;
    let mut rest = cards;
    let mut out: Vec<AffectedHostCard> = Vec::new();
    let ghost mut p: Seq<int> = Seq::empty();
    let mut i: usize = 0;
    let n = rest.len();
    while i < n
        invariant
            n == input.len(),
            i <= n,
            rest@ == input.skip(i as int),
            out@.len() == i,
            p.len() == i,
            forall|k: int| 0 <= k < i ==> 0 <= #[trigger] p[k] < i,
            forall|a: int, b: int| 0 <= a < b < i ==> p[a] != p[b],
            stable_order(out@, input, p),
        decreases n - i,
    {
        let card = rest.remove(0);
        proof {
            assert(card == input[i as int]);
            assert(rest@ =~= input.skip(i as int + 1));
        }
        let mut pos = out.len();
        while pos > 0 && text_lt(card.host.label.as_str(), out[pos - 1].host.label.as_str())
            invariant
                pos <= out@.len(),
                out@.len() == i,
                forall|q: int| pos <= q < out@.len() ==> bytes_lt(label_key(card), label_key(#[trigger] out@[q])),
            decreases pos,
        {
            pos = pos - 1;
        }
        let ghost old_out = out@;
        let ghost old_p = p;
        proof {
            if pos > 0 {
                assert(!bytes_lt(label_key(card), label_key(old_out[pos - 1])));
            }
        }
        out.insert(pos, card);
        proof {
            p = old_p.insert(pos as int, i as int);
            assert(out@ == old_out.insert(pos as int, card));
            assert forall|k: int| 0 <= k < i + 1 implies 0 <= #[trigger] p[k] < i + 1 by {
                if k < pos {
                    assert(p[k] == old_p[k]);
                } else if k > pos {
                    assert(p[k] == old_p[k - 1]);
                }
            }
            assert forall|a: int, b: int| 0 <= a < b < i + 1 implies p[a] != p[b] by {
                if a < pos && b < pos {
                    assert(p[a] == old_p[a] && p[b] == old_p[b]);
                } else if a < pos && b == pos {
                    assert(p[a] == old_p[a]);
                } else if a < pos && b > pos {
                    assert(p[a] == old_p[a] && p[b] == old_p[b - 1]);
                } else if a == pos {
                    assert(p[b] == old_p[b - 1]);
                } else {
                    assert(p[a] == old_p[a - 1] && p[b] == old_p[b - 1]);
                }
            }
            assert forall|k: int| 0 <= k < out@.len() implies #[trigger] out@[k] == input[p[k]] by {
                if k < pos {
                    assert(out@[k] == old_out[k] && p[k] == old_p[k]);
                } else if k > pos {
                    assert(out@[k] == old_out[k - 1] && p[k] == old_p[k - 1]);
                }
            }
            assert forall|a: int, b: int| 0 <= a < b < out@.len() implies !bytes_lt(
                label_key(#[trigger] out@[b]),
                label_key(#[trigger] out@[a]),
            ) by {
                let ka = label_key(out@[a]);
                let kb = label_key(out@[b]);
                if b < pos {
                    assert(out@[a] == old_out[a] && out@[b] == old_out[b]);
                } else if b == pos {
                    assert(out@[a] == old_out[a]);
                    if a < pos - 1 {
                        assert(!bytes_lt(label_key(old_out[pos - 1]), label_key(old_out[a])));
                        lemma_le_transitive(ka, label_key(old_out[pos - 1]), kb);
                    }
                } else if a == pos {
                    assert(out@[b] == old_out[b - 1]);
                    assert(bytes_lt(ka, kb));
                    lemma_lt_asymmetric(ka, kb);
                } else if a < pos {
                    assert(out@[a] == old_out[a] && out@[b] == old_out[b - 1]);
                } else {
                    assert(out@[a] == old_out[a - 1] && out@[b] == old_out[b - 1]);
                }
            }
            assert forall|a: int, b: int|
                0 <= a < b < out@.len() && label_key(out@[a]) == label_key(out@[b]) implies #[trigger] p[a]
                < #[trigger] p[b] by {
                if b < pos {
                    assert(out@[a] == old_out[a] && out@[b] == old_out[b]);
                    assert(p[a] == old_p[a] && p[b] == old_p[b]);
                } else if b == pos {
                    assert(p[a] == old_p[a]);
                } else if a == pos {
                    assert(out@[b] == old_out[b - 1]);
                    assert(bytes_lt(label_key(out@[a]), label_key(out@[b])));
                    lemma_lt_asymmetric(label_key(out@[a]), label_key(out@[b]));
                } else if a < pos {
                    assert(out@[a] == old_out[a] && out@[b] == old_out[b - 1]);
                    assert(p[a] == old_p[a] && p[b] == old_p[b - 1]);
                } else {
                    assert(out@[a] == old_out[a - 1] && out@[b] == old_out[b - 1]);
                    assert(p[a] == old_p[a - 1] && p[b] == old_p[b - 1]);
                }
            }
        }
        i = i + 1;
    }
    proof {
        assert(is_permutation(p, input.len() as int));
    }
    out
}

// ---------------------------------------------------------------------------
// Session window, subnets and VLANs
// ---------------------------------------------------------------------------

impl DigestWindow {
    /// The window of a session `[t_start, t_end]` on a network with staleness
    /// configuration `network`, whose previous session finished at
    /// `prev_finished_at` (`None` on its first scan).
    pub fn for_session(t_start: i64, t_end: i64, network: &StaleWindow, prev_finished_at: Option<i64>) -> (r: DigestWindow)
        requires
            crate::time::valid_timestamp(t_end),
            network.cutoff_in_range(t_end),
            prev_finished_at matches Some(p) ==> crate::time::valid_timestamp(p) && network.cutoff_in_range(p),
        ensures
            r.t_start == t_start,
            r.t_end == t_end,
            r.cutoff == network.cutoff_at(t_end),
            r.prev_cutoff == (match prev_finished_at {
                Some(p) => Some(network.cutoff_at(p) as i64),
                None => None,
            }),
    {
        let prev_cutoff = match prev_finished_at {
            Some(p) => Some(network.stale_cutoff(p)),
            None => None,
        };
        DigestWindow { t_start, t_end, cutoff: network.stale_cutoff(t_end), prev_cutoff }
    }
}

/// The subnets a digest lists as scanned: the explicit target of a network or
/// unified run when it names any, else the subnets the daemon confirmed.
pub open spec fn digest_subnet_ids(t: DiscoveryType, confirmed: Seq<Uuid>) -> Seq<Uuid> {
    match t {
        DiscoveryType::Network { subnet_ids: Some(ids) } => if ids@.len() > 0 {
            ids@
        } else {
            confirmed
        },
        DiscoveryType::Unified { subnet_ids: Some(ids) } => if ids@.len() > 0 {
            ids@
        } else {
            confirmed
        },
        _ => confirmed,
    }
}

/// The ids of the subnets a digest lists as scanned.
pub fn subnet_ids_for_digest(discovery_type: &DiscoveryType, scanned: &ScannedEntityIds) -> (r: Vec<Uuid>)
    ensures
        r@ == digest_subnet_ids(*discovery_type, scanned.subnet_ids@),
{
    match discovery_type {
        DiscoveryType::Network { subnet_ids: Some(ids) } | DiscoveryType::Unified { subnet_ids: Some(ids) } => {
            if ids.len() > 0 {
                copy_ids(ids)
            } else {
                copy_ids(&scanned.subnet_ids)
            }
        },
        _ => copy_ids(&scanned.subnet_ids),
    }
}

/// A subnet as the digest reads it.
#[derive(Debug)]
pub struct DigestSubnet {
    pub id: Uuid,
    pub name: String,
    /// The first address of the subnet's CIDR block.
    pub first_address: IpAddress,
}

/// A subnet as the digest lists it.
#[derive(Debug)]
pub struct SubnetSummary {
    pub id: Uuid,
    pub label: String,
}

/// The digest line of a subnet.
pub fn subnet_summary(s: &DigestSubnet) -> (r: SubnetSummary)
    ensures
        r.id == s.id,
        r.label@ == s.name@,
{
    SubnetSummary { id: s.id, label: s.name.clone() }
}

/// The subnets of `subs` that are not loopback, as `(id, label)`, in input order.
pub open spec fn listed_subnets(subs: Seq<DigestSubnet>) -> Seq<(Uuid, Seq<char>)>
    decreases subs.len(),
{
    if subs.len() == 0 {
        Seq::empty()
    } else {
        let rest = listed_subnets(subs.drop_last());
        if subs.last().first_address.loopback() {
            rest
        } else {
            rest.push((subs.last().id, subs.last().name@))
        }
    }
}

pub open spec fn subnet_lines(v: Seq<SubnetSummary>) -> Seq<(Uuid, Seq<char>)> {
    v.map_values(|s: SubnetSummary| (s.id, s.label@))
}

/// The scanned subnets a digest lists: every one that is not loopback.
pub fn scanned_subnets(subnets: &Vec<DigestSubnet>) -> (r: Vec<SubnetSummary>)
    ensures
        subnet_lines(r@) == listed_subnets(subnets@),
{
    let mut out: Vec<SubnetSummary> = Vec::new();
    let mut i: usize = 0;
    while i < subnets.len()
        invariant
            i <= subnets@.len(),
            subnet_lines(out@) == listed_subnets(subnets@.take(i as int)),
        decreases subnets@.len() - i,
    {
        proof {
            assert(subnets@.take(i + 1).drop_last() =~= subnets@.take(i as int));
            assert(subnets@.take(i + 1).last() == subnets@[i as int]);
        }
        if !subnets[i].first_address.is_loopback() {
            let line = subnet_summary(&subnets[i]);
            let ghost before = out@;
            out.push(line);
            proof {
                assert(subnet_lines(out@) =~= subnet_lines(before).push((line.id, line.label@)));
            }
        }
        i = i + 1;
    }
    proof {
        assert(subnets@.take(i as int) =~= subnets@);
    }
    out
}

/// A VLAN as the digest reads it.
#[derive(Debug)]
pub struct DigestVlan {
    pub entity: TrackedEntity,
    pub vlan_number: u16,
    pub name: String,
}

/// A VLAN as the digest lists it.
#[derive(Debug)]
pub struct VlanSummary {
    pub id: Uuid,
    pub vlan_number: u16,
    pub name: String,
}

pub open spec fn vlan_line(v: VlanSummary) -> (Uuid, u16, Seq<char>) {
    (v.id, v.vlan_number, v.name@)
}

pub open spec fn vlan_lines(v: Seq<VlanSummary>) -> Seq<(Uuid, u16, Seq<char>)> {
    v.map_values(|x: VlanSummary| vlan_line(x))
}

pub open spec fn vlan_of(v: DigestVlan) -> (Uuid, u16, Seq<char>) {
    (v.entity.id, v.vlan_number, v.name@)
}

/// The digest line of a VLAN.
pub fn vlan_summary(v: &DigestVlan) -> (r: VlanSummary)
    ensures
        vlan_line(r) == vlan_of(*v),
{
    VlanSummary { id: v.entity.id, vlan_number: v.vlan_number, name: v.name.clone() }
}

/// The lines of `vlans`, in input order.
pub open spec fn all_vlans(vlans: Seq<DigestVlan>) -> Seq<(Uuid, u16, Seq<char>)> {
    vlans.map_values(|v: DigestVlan| vlan_of(v))
}

/// The VLANs of `vlans` that crossed into staleness during the session, in input order.
pub open spec fn stale_vlan_lines(vlans: Seq<DigestVlan>, scanned: Seq<Uuid>, w: DigestWindow) -> Seq<(Uuid, u16, Seq<char>)>
    decreases vlans.len(),
{
    if vlans.len() == 0 {
        Seq::empty()
    } else {
        let rest = stale_vlan_lines(vlans.drop_last(), scanned, w);
        if digest_status(vlans.last().entity, scanned, w) == (EntityFreshness::Stale, true) {
            rest.push(vlan_of(vlans.last()))
        } else {
            rest
        }
    }
}

/// The lines of VLANs created during the session.
pub fn added_vlans(vlans: &Vec<DigestVlan>) -> (r: Vec<VlanSummary>)
    ensures
        vlan_lines(r@) == all_vlans(vlans@),
{
    let mut out: Vec<VlanSummary> = Vec::new();
    let mut i: usize = 0;
    while i < vlans.len()
        invariant
            i <= vlans@.len(),
            vlan_lines(out@) == all_vlans(vlans@.take(i as int)),
        decreases vlans@.len() - i,
    {
        let line = vlan_summary(&vlans[i]);
        let ghost before = out@;
        out.push(line);
        proof {
            assert(vlan_lines(out@) =~= vlan_lines(before).push(vlan_line(line)));
            assert(all_vlans(vlans@.take(i + 1)) =~= all_vlans(vlans@.take(i as int)).push(vlan_of(vlans@[i as int])));
        }
        i = i + 1;
    }
    proof {
        assert(vlans@.take(i as int) =~= vlans@);
    }
    out
}

/// The VLANs that went stale during the session. VLANs are network-scoped, so
/// only a session that swept subnets can conclude anything about them; any
/// other session reports none.
pub fn stale_vlans(vlans: &Vec<DigestVlan>, coverage: &ScanCoverage, scanned_vlan_ids: &Vec<Uuid>, window: &DigestWindow) -> (r: Vec<VlanSummary>)
    ensures
        vlan_lines(r@) == (if coverage.view().0 is None && coverage.view().1.len() > 0 {
            stale_vlan_lines(vlans@, scanned_vlan_ids@, *window)
        } else {
            Seq::empty()
        }),
{
    let mut out: Vec<VlanSummary> = Vec::new();
    if !coverage.swept_subnets() {
        proof {
            assert(vlan_lines(out@) =~= Seq::empty());
        }
        return out;
    }
    let mut i: usize = 0;
    while i < vlans.len()
        invariant
            i <= vlans@.len(),
            vlan_lines(out@) == stale_vlan_lines(vlans@.take(i as int), scanned_vlan_ids@, *window),
        decreases vlans@.len() - i,
    {
        proof {
            assert(vlans@.take(i + 1).drop_last() =~= vlans@.take(i as int));
            assert(vlans@.take(i + 1).last() == vlans@[i as int]);
        }
        let (status, is_fresh) = compute_digest_status(&vlans[i].entity, scanned_vlan_ids, window);
        if status == EntityFreshness::Stale && is_fresh {
            let line = vlan_summary(&vlans[i]);
            let ghost before = out@;
            out.push(line);
            proof {
                assert(vlan_lines(out@) =~= vlan_lines(before).push(vlan_line(line)));
            }
        }
        i = i + 1;
    }
    proof {
        assert(vlans@.take(i as int) =~= vlans@);
    }
    out
}

/// The body of a discovery digest.
#[derive(Debug)]
pub struct DigestBody {
    pub subnets_scanned: Vec<SubnetSummary>,
    pub hosts_added: Vec<AffectedHostCard>,
    pub hosts_stale: Vec<AffectedHostCard>,
    pub hosts_changed: Vec<AffectedHostCard>,
    pub vlans_added: Vec<VlanSummary>,
    pub vlans_stale: Vec<VlanSummary>,
}

/// The digest of one session on one network, from the rows it reads: the
/// network's live hosts, the scanned subnets as stored, the live VLANs created
/// during the session and those created before it.
pub fn compute_digest(
    hosts: &Vec<DigestHost>,
    scope: &DigestScope,
    subnets: &Vec<DigestSubnet>,
    vlans_created: &Vec<DigestVlan>,
    vlans_before: &Vec<DigestVlan>,
) -> (r: DigestBody)
    ensures
        subnet_lines(r.subnets_scanned@) == listed_subnets(subnets@),
        cards_for(r.hosts_added@, hosts@, *scope, Bucket::Added),
        cards_for(r.hosts_stale@, hosts@, *scope, Bucket::Stale),
        exists|unsorted: Seq<AffectedHostCard>|
            cards_for(unsorted, hosts@, *scope, Bucket::Changed) && #[trigger] sorted_stably(
                r.hosts_changed@,
                unsorted,
            ),
        vlan_lines(r.vlans_added@) == all_vlans(vlans_created@),
        vlan_lines(r.vlans_stale@) == (if scope.coverage.view().0 is None && scope.coverage.view().1.len() > 0 {
            stale_vlan_lines(vlans_before@, scope.scanned.vlan_ids@, scope.window)
        } else {
            Seq::empty()
        }),
{
    let cards = classify_hosts(hosts, scope);
    let ghost unsorted = choose|u: Seq<AffectedHostCard>|
        cards_for(u, hosts@, *scope, Bucket::Changed) && #[trigger] sorted_stably(cards.hosts_changed@, u);
    let r = DigestBody {
        subnets_scanned: scanned_subnets(subnets),
        hosts_added: cards.hosts_added,
        hosts_stale: cards.hosts_stale,
        hosts_changed: cards.hosts_changed,
        vlans_added: added_vlans(vlans_created),
        vlans_stale: stale_vlans(vlans_before, &scope.coverage, &scope.scanned.vlan_ids, &scope.window),
    };
    proof {
        assert(cards_for(unsorted, hosts@, *scope, Bucket::Changed));
        assert(sorted_stably(r.hosts_changed@, unsorted));
    }
    r
}

} // verus!
