//! Properties of the library that span several functions or hold for every input.

use vstd::prelude::*;

use crate::digest::{
    Bucket, ChildPolicy, DigestChild, DigestHost, DigestScope, DigestWindow, EntityFreshness, ScanCoverage,
    TrackedEntity, children_of, digest_status,
};
use crate::dispatch::{
    MappingSources, TouchView, gives_default, grouped, kind_default, lemma_pending_default, lemma_session_default,
    pending_included, session_touches,
};
use crate::ids::Uuid;
use crate::time::ymd_text;
use crate::kinds::{CredentialKind, all_kinds_seq, capability_floor_list, CredentialView, merged, payload_of, redacted_sentinel};
use crate::mapping::Resolvable;
use crate::net::IpAddress;
use crate::payload::{PayloadView, payload_paths, resolved};
use crate::polling::{
    PollEnd, PollEvent, PollPhase, PollState, PollStep, WorkEvent, WorkPhase, WorkState, WorkStep, expects, transition,
    work_expects, work_transition,
};
use crate::snmp::{SnmpView, by_specificity, has_community, public_community};
use crate::version::{
    DaemonVersionPolicy, ScheduledFloor, Version, VersionHealthStatus, applicable_of, below, faces, is_applicable_sunset, lemma_applicable_unique, own_release,
    release_le, sooner,
};

verus! {

// ---------------------------------------------------------------------------
// Discovery digest
// ---------------------------------------------------------------------------

/// Every child of a host that was not reached carries the host's verdict and
/// freshness flag, whatever its own last observation.
pub proof fn law_unreached_children_inherit(
    cs: Seq<DigestChild>,
    host: Uuid,
    status: EntityFreshness,
    fresh: bool,
    scanned: Seq<Uuid>,
    w: DigestWindow,
)
    ensures
        forall|i: int|
            0 <= i < children_of(cs, host, ChildPolicy::Inherit(status, fresh), scanned, w).len() ==> (#[trigger] children_of(
                cs,
                host,
                ChildPolicy::Inherit(status, fresh),
                scanned,
                w,
            )[i]).status == status && children_of(cs, host, ChildPolicy::Inherit(status, fresh), scanned, w)[i].is_fresh
                == fresh,
    decreases cs.len(),
{
    if cs.len() > 0 {
        law_unreached_children_inherit(cs.drop_last(), host, status, fresh, scanned, w);
    }
}

/// An entity is reported as having gone stale on one session only: when the
/// previous session's cutoff is the earlier session's cutoff, an entity that
/// crosses into staleness now was not stale then.
pub proof fn law_stale_reported_once(e: TrackedEntity, earlier_scan: Seq<Uuid>, earlier: DigestWindow, scan: Seq<Uuid>, now: DigestWindow)
    requires
        now.prev_cutoff == Some(earlier.cutoff),
        digest_status(e, scan, now) == (EntityFreshness::Stale, true),
    ensures
        digest_status(e, earlier_scan, earlier).0 != EntityFreshness::Stale,
{
}

/// A network's first session claims no transition into staleness.
pub proof fn law_first_scan_claims_no_staleness(e: TrackedEntity, scan: Seq<Uuid>, w: DigestWindow)
    requires
        w.prev_cutoff is None,
    ensures
        digest_status(e, scan, w).0 == EntityFreshness::Stale ==> !digest_status(e, scan, w).1,
{
}

/// Entities discovery never refreshes are never stale.
pub proof fn law_unrefreshed_never_stale(e: TrackedEntity, scan: Seq<Uuid>, w: DigestWindow)
    requires
        !e.refreshed_by_discovery,
    ensures
        digest_status(e, scan, w).0 != EntityFreshness::Stale,
{
}

/// Only new entities are new, and every new entity is flagged as acquired this session.
pub proof fn law_new_is_fresh(e: TrackedEntity, scan: Seq<Uuid>, w: DigestWindow)
    ensures
        digest_status(e, scan, w).0 == EntityFreshness::New ==> digest_status(e, scan, w).1,
        digest_status(e, scan, w).0 == EntityFreshness::New <==> (scan.contains(e.id) && w.t_start <= e.created_at
            <= w.t_end),
{
}

/// A host that neighbour resolution created during the session, stamped with
/// the session's clock and folded into the session's observed hosts, is
/// reported as new, whatever the session reported before.
pub proof fn law_minted_hosts_are_added(e: TrackedEntity, before: Seq<Uuid>, minted: Seq<Uuid>, w: DigestWindow)
    requires
        minted.contains(e.id),
        w.t_start <= e.created_at <= w.t_end,
    ensures
        digest_status(e, before + minted, w) == (EntityFreshness::New, true),
{
    let k = choose|k: int| 0 <= k < minted.len() && minted[k] == e.id;
    assert((before + minted)[before.len() + k] == e.id);
}

/// A single-host session speaks for exactly its host, whatever else it saw.
pub proof fn law_single_host_coverage(c: ScanCoverage, id: Uuid, host: Uuid, subnets: Option<Seq<Uuid>>, observed: bool)
    requires
        c == ScanCoverage::SingleHost(id),
    ensures
        c.covers(host, subnets, observed) <==> host == id,
{
}

/// A subnet sweep covers every host it observed, even one without addresses.
pub proof fn law_observed_hosts_covered(c: ScanCoverage, host: Uuid, subnets: Option<Seq<Uuid>>)
    requires
        c is Subnets,
    ensures
        c.covers(host, subnets, true),
{
}

/// A host's card goes to at most one list.
pub proof fn law_buckets_disjoint(scope: DigestScope, h: DigestHost, a: Bucket, b: Bucket)
    requires
        scope.in_bucket(h, a),
        scope.in_bucket(h, b),
    ensures
        a == b,
{
}

// ---------------------------------------------------------------------------
// Credentials
// ---------------------------------------------------------------------------

/// The legacy SNMP resolution always tries the `public` community, never
/// lists a community twice, and puts an address's override first.
pub proof fn law_specificity_order(default: Option<SnmpView>, ovs: Seq<crate::mapping::IpOverride<crate::snmp::SnmpQueryCredential>>, ip: IpAddress)
    ensures
        has_community(by_specificity(default, ovs, ip), public_community()),
        forall|a: int, b: int|
            0 <= a < b < by_specificity(default, ovs, ip).len() ==> (#[trigger] by_specificity(default, ovs, ip)[a]).0.community
                != (#[trigger] by_specificity(default, ovs, ip)[b]).0.community,
        !crate::mapping::no_override(ovs, ip) ==> {
            let i = choose|i: int| crate::mapping::first_override_at(ovs, ip, i);
            by_specificity(default, ovs, ip)[0].0 == ovs[i].credential.view()
        },
{
    let first: Seq<(SnmpView, Option<Uuid>)> = if crate::mapping::no_override(ovs, ip) {
        Seq::empty()
    } else {
        let i = choose|i: int| crate::mapping::first_override_at(ovs, ip, i);
        seq![(ovs[i].credential.view(), if ovs[i].credential_id.nil_spec() {
            None
        } else {
            Some(ovs[i].credential_id)
        })]
    };
    let with_default = match default {
        Some(d) => if has_community(first, d.community) {
            first
        } else {
            first.push((d, None))
        },
        None => first,
    };
    let r = by_specificity(default, ovs, ip);
    assert(with_default.len() <= 2);
    assert forall|a: int, b: int| 0 <= a < b < with_default.len() implies (#[trigger] with_default[a]).0.community
        != (#[trigger] with_default[b]).0.community by {
        if let Some(d) = default {
            if !has_community(first, d.community) {
                assert(with_default[b].0 == d);
                assert(with_default[a] == first[a]);
            }
        }
    }
    if has_community(with_default, public_community()) {
        assert(r == with_default);
    } else {
        let p = (SnmpView { version: crate::snmp::SnmpVersion::V2c, community: public_community() }, None::<Uuid>);
        assert(r == with_default.push(p));
        assert(r[r.len() - 1] == p);
        assert forall|a: int, b: int| 0 <= a < b < r.len() implies (#[trigger] r[a]).0.community != (#[trigger] r[b]).0.community by {
            if b == r.len() - 1 {
                assert(r[a] == with_default[a]);
            } else {
                assert(r[a] == with_default[a] && r[b] == with_default[b]);
            }
        }
    }
}

/// Sending back the redaction sentinel keeps the stored secret, any other
/// value replaces it, and restoring twice changes nothing more.
pub proof fn law_merge_redacted(sent: CredentialView, existing: CredentialView)
    ensures
        (sent matches CredentialView::SnmpV2c { community } && community != Resolvable::Value(redacted_sentinel())) ==> merged(
            sent,
            existing,
        ) == sent,
        existing matches CredentialView::SnmpV2c { community: kept } ==> (sent == (CredentialView::SnmpV2c {
            community: Resolvable::Value(redacted_sentinel()),
        }) ==> merged(sent, existing) == (CredentialView::SnmpV2c { community: kept })),
        !(existing matches CredentialView::SnmpV2c { community: kept } && kept == Resolvable::Value(redacted_sentinel()))
            && !(existing matches CredentialView::DockerProxy { ssl_key: kept, .. } && kept == Some(
            Resolvable::Value(redacted_sentinel()),
        )) ==> merged(merged(sent, existing), existing) == merged(sent, existing),
{
}

/// A stored credential's payload is the wire type of its kind.
pub proof fn law_payload_matches_kind(c: crate::kinds::CredentialType)
    ensures
        c.kind_of() == CredentialKind::SnmpV2c <==> payload_of(c.view()) is Snmp,
        c.kind_of() == CredentialKind::DockerProxy <==> payload_of(c.view()) is DockerProxy,
{
}

/// A daemon that can receive a credential type still can after upgrading to
/// a release at or above its version's numbers; with no known version only the
/// types at the oldest floor are sent.
pub proof fn law_compatibility_monotone(k: CredentialKind, v: Version, newer: Version)
    requires
        k.compatible(Some(v)),
        !below(newer, v.release_part()),
    ensures
        k.compatible(Some(newer)),
        k.compatible(None) <==> release_le(k.floor(), crate::version::Release { major: 0, minor: 16, patch: 2 }),
{
}

/// No capability floor and no credential kind's minimum daemon version lies
/// above this server's own version: the server never requires a release it
/// does not know.
pub proof fn law_capability_floors_within_server_version()
    ensures
        forall|i: int|
            0 <= i < capability_floor_list().len() ==> release_le(
                (#[trigger] capability_floor_list()[i]).1,
                own_release(),
            ),
{
    let l = capability_floor_list();
    assert forall|i: int| 0 <= i < l.len() implies release_le((#[trigger] l[i]).1, own_release()) by {
        if i >= 5 {
            let k = all_kinds_seq()[i - 5];
            assert(l[i].1 == k.floor());
        }
    }
}

// ---------------------------------------------------------------------------
// Polling
// ---------------------------------------------------------------------------

/// What every reachable state of a work request satisfies: pending work is
/// only awaited, and only ever found, for a daemon that reported itself ready.
pub open spec fn work_inv(s: WorkState) -> bool {
    &&& s.phase == WorkPhase::AwaitPendingWork ==> s.ready_for_work
    &&& s.has_work ==> s.ready_for_work
}

/// Every step of a work request keeps its invariant, and a work request starts in it.
pub proof fn law_work_request_invariant(s: WorkState, e: WorkEvent, ready: bool)
    requires
        work_inv(s),
        work_expects(s.phase, e),
    ensures
        work_inv(work_transition(s, e).0),
        work_inv(WorkState { phase: WorkPhase::Begin, ready_for_work: ready, has_work: false }),
{
}

/// A daemon polling for work gets discovery work only when it reported itself
/// ready (pending work is not even fetched otherwise), and its pending
/// cancellation is always fetched and forwarded as found.
pub proof fn law_work_request_dispatch(s: WorkState, e: WorkEvent)
    requires
        work_inv(s),
        work_expects(s.phase, e),
    ensures
        work_transition(s, e).1 is LoadPendingWork ==> s.ready_for_work,
        work_transition(s, e).1 matches WorkStep::Reply { work, .. } && work ==> s.ready_for_work,
        s.phase == WorkPhase::AwaitStatusProcessed ==> (work_transition(s, e).1 is LoadPendingWork
            || work_transition(s, e).1 is LoadCancellation),
        s.phase == WorkPhase::AwaitPendingWork ==> work_transition(s, e).1 is LoadCancellation,
        e matches WorkEvent::CancellationLoaded { present } ==> work_transition(s, e).1 == (WorkStep::Reply {
            work: s.has_work,
            cancellation: present,
        }),
        e matches WorkEvent::Checked { refused: Some(r) } ==> work_transition(s, e).1 == WorkStep::Refuse(r),
{
}


/// What every reachable poll state satisfies: pending work is only fetched
/// for a daemon that reported itself ready, and first-contact setup only
/// runs on a first contact.
pub open spec fn poll_inv(s: PollState) -> bool {
    &&& (s.phase == PollPhase::AwaitPendingWork || s.phase == PollPhase::AwaitDiscoveryRequest) ==> s.ready_for_work
    &&& (s.phase == PollPhase::AwaitPlan || s.phase == PollPhase::AwaitJobs || s.phase == PollPhase::AwaitTelemetry)
        ==> s.first_contact
}

/// Every step keeps the poll invariant.
pub proof fn law_poll_invariant(s: PollState, e: PollEvent)
    requires
        poll_inv(s),
        expects(s.phase, e),
    ensures
        poll_inv(transition(s, e).0),
{
}

/// A poll sends discovery work only to a daemon that reported itself ready and
/// had pending work; default jobs are created only on first contact.
pub proof fn law_work_only_when_ready(s: PollState, e: PollEvent)
    requires
        poll_inv(s),
        expects(s.phase, e),
    ensures
        transition(s, e).1 == PollStep::SendDiscoveryRequest ==> s.ready_for_work && e == (PollEvent::PendingWorkLoaded {
            present: true,
        }),
        transition(s, e).1 is CreateDefaultJobs ==> s.first_contact,
{
}

/// A legacy daemon is never contacted, and a daemon that cannot be reached is
/// marked unreachable and the poll then fails.
pub proof fn law_poll_failures(s: PollState, first_contact: bool, ready: bool, docker: bool, changed: bool)
    ensures
        s.phase == PollPhase::Begin ==> transition(
            s,
            PollEvent::Started { supports_full_server_poll: false, first_contact },
        ) == (PollState { phase: PollPhase::Done, ..s }, PollStep::Skip),
        s.phase == PollPhase::AwaitStatus ==> {
            let (t, step) = transition(
                s,
                PollEvent::StatusReceived { ok: false, ready_for_work: ready, has_docker_socket: docker, version_changed: changed },
            );
            step == PollStep::MarkUnreachable && transition(t, PollEvent::StepDone).1 == PollStep::Finish(PollEnd::Failed)
        },
{
}

// ---------------------------------------------------------------------------
// Addresses
// ---------------------------------------------------------------------------

/// An IPv4-mapped IPv6 address is judged exactly as the IPv4 address it
/// carries, and folding is idempotent.
pub proof fn law_mapped_addresses_judged_as_v4(a: u8, b: u8, c: u8, d: u8)
    ensures
        IpAddress::V6(0, 0, 0, 0, 0, 0xffff, ((a as u16) * 256 + b as u16) as u16, ((c as u16) * 256 + d as u16) as u16).internal()
            == IpAddress::V4(a, b, c, d).internal(),
{
    let hi: u16 = ((a as u16) * 256 + b as u16) as u16;
    let lo: u16 = ((c as u16) * 256 + d as u16) as u16;
    assert(hi / 256 == a && hi % 256 == b) by (nonlinear_arith)
        requires
            hi == (a as int) * 256 + b as int,
            0 <= a < 256,
            0 <= b < 256,
    ;
    assert(lo / 256 == c && lo % 256 == d) by (nonlinear_arith)
        requires
            lo == (c as int) * 256 + d as int,
            0 <= c < 256,
            0 <= d < 256,
    ;
}

/// Folding an address to its canonical form is idempotent.
pub proof fn law_canonical_idempotent(x: IpAddress)
    ensures
        x.canonical().canonical() == x.canonical(),
        x.canonical().internal() == x.internal(),
{
}

// ---------------------------------------------------------------------------
// Credential file resolution
// ---------------------------------------------------------------------------

/// Resolving a payload's files leaves no file path behind, so resolving the
/// result again reads nothing and gives it back unchanged.
pub proof fn law_resolution_idempotent(p: PayloadView, reads: Seq<Result<Seq<char>, Seq<char>>>, label: Seq<char>)
    requires
        resolved(p, reads, label) is Ok,
    ensures
        payload_paths(resolved(p, reads, label)->Ok_0).len() == 0,
        resolved(resolved(p, reads, label)->Ok_0, Seq::empty(), label) == resolved(p, reads, label),
{
    let q = resolved(p, reads, label)->Ok_0;
    assert(payload_paths(q) =~= Seq::empty());
}

// ---------------------------------------------------------------------------
// Daemon version cutovers
// ---------------------------------------------------------------------------

/// The cutover a daemon faces does not depend on the order the cutovers are
/// listed in: two lists holding the same entries give the same answer.
pub proof fn law_sunset_lookup_ignores_order(s1: Seq<ScheduledFloor>, s2: Seq<ScheduledFloor>, v: Option<Version>)
    requires
        s1.to_multiset() == s2.to_multiset(),
    ensures
        applicable_of(s1, v) == applicable_of(s2, v),
{
    assert forall|x: ScheduledFloor| s1.contains(x) <==> s2.contains(x) by {
        s1.to_multiset_ensures();
        s2.to_multiset_ensures();
        assert(s1.contains(x) <==> s1.to_multiset().count(x) > 0);
        assert(s2.contains(x) <==> s2.to_multiset().count(x) > 0);
        assert(s1.to_multiset().count(x) == s2.to_multiset().count(x));
    }
    assert forall|s: ScheduledFloor| is_applicable_sunset(s1, v, s) implies is_applicable_sunset(s2, v, s) by {
        lemma_applicable_same_entries(s1, s2, v, s);
    }
    assert forall|s: ScheduledFloor| is_applicable_sunset(s2, v, s) implies is_applicable_sunset(s1, v, s) by {
        lemma_applicable_same_entries(s2, s1, v, s);
    }
    if exists|s: ScheduledFloor| is_applicable_sunset(s1, v, s) {
        let a = choose|s: ScheduledFloor| is_applicable_sunset(s1, v, s);
        let b = choose|s: ScheduledFloor| is_applicable_sunset(s2, v, s);
        lemma_applicable_unique(s1, v, a);
        assert(is_applicable_sunset(s1, v, b));
    }
}

proof fn lemma_applicable_same_entries(s1: Seq<ScheduledFloor>, s2: Seq<ScheduledFloor>, v: Option<Version>, s: ScheduledFloor)
    requires
        forall|x: ScheduledFloor| s1.contains(x) <==> s2.contains(x),
        is_applicable_sunset(s1, v, s),
    ensures
        is_applicable_sunset(s2, v, s),
{
    let i = choose|i: int| 0 <= i < s1.len() && s1[i] == s && faces(s1[i], v);
    assert(s1.contains(s1[i]));
    assert(s2.contains(s));
    let j = choose|j: int| 0 <= j < s2.len() && s2[j] == s;
    assert(s2[j] == s && faces(s2[j], v));
    assert forall|k: int| 0 <= k < s2.len() && faces(s2[k], v) implies !sooner(#[trigger] s2[k], s) by {
        assert(s2.contains(s2[k]));
        assert(s1.contains(s2[k]));
        let m = choose|m: int| 0 <= m < s1.len() && s1[m] == s2[k];
        assert(!sooner(s1[m], s));
    }
}

// ---------------------------------------------------------------------------
// What each operation is for
// ---------------------------------------------------------------------------

/// A covered host gets a stale card exactly when it crossed into staleness
/// during this session: discovery maintains it, it was last seen before this
/// session's cutoff but not before the previous session's, and it is not new.
/// A host that was already stale at the previous session gets no stale card.
pub proof fn law_stale_card_only_on_crossing(scope: DigestScope, h: DigestHost)
    ensures
        scope.in_bucket(h, Bucket::Stale) <==> {
            &&& scope.covered(h)
            &&& h.entity.refreshed_by_discovery
            &&& h.entity.last_seen_at < scope.window.cutoff
            &&& scope.window.prev_cutoff matches Some(p) && h.entity.last_seen_at >= p
            &&& !(scope.scanned.host_ids@.contains(h.entity.id) && scope.window.t_start <= h.entity.created_at
                <= scope.window.t_end)
        },
{
}

/// A covered host gets an added card exactly when this session observed it
/// and it was created within the session's window; it gets a changed card
/// exactly when it is neither new nor past its cutoff and one of its children
/// changed freshness this session.
pub proof fn law_added_and_changed_cards(scope: DigestScope, h: DigestHost)
    ensures
        scope.in_bucket(h, Bucket::Added) <==> {
            &&& scope.covered(h)
            &&& scope.scanned.host_ids@.contains(h.entity.id)
            &&& scope.window.t_start <= h.entity.created_at <= scope.window.t_end
        },
        scope.in_bucket(h, Bucket::Changed) <==> {
            &&& scope.covered(h)
            &&& !(scope.scanned.host_ids@.contains(h.entity.id) && scope.window.t_start <= h.entity.created_at
                <= scope.window.t_end)
            &&& !(h.entity.refreshed_by_discovery && h.entity.last_seen_at < scope.window.cutoff)
            &&& scope.children_fresh(h)
        },
{
}

/// A status report is always recorded first, and a report of a version other
/// than the stored one is then recorded as a startup before the poll goes on;
/// an unchanged version goes straight on to first-contact setup or discovery.
pub proof fn law_changed_version_processed_as_startup(
    s: PollState,
    ready: bool,
    docker: bool,
    changed: bool,
)
    requires
        s.phase == PollPhase::AwaitStatus,
    ensures
        ({
            let (s1, st1) = transition(
                s,
                PollEvent::StatusReceived { ok: true, ready_for_work: ready, has_docker_socket: docker, version_changed: changed },
            );
            let (s2, st2) = transition(s1, PollEvent::StepDone);
            &&& st1 == PollStep::ProcessStatus
            &&& (st2 == PollStep::ProcessStartup <==> changed)
            &&& changed ==> s2.phase == PollPhase::AwaitStartup
            &&& !changed ==> (st2 == PollStep::LoadPlan || st2 == PollStep::PollDiscovery)
        }),
{
}

/// Whenever a cutover applies to a daemon's version, the verdict carries that
/// cutover's date as the sunset date, whether the date has passed
/// (Unsupported) or not (Deprecated); with no applicable cutover there is no
/// sunset date.
pub proof fn law_sunset_date_is_the_cutover_date(p: DaemonVersionPolicy, v: Option<Version>, s: ScheduledFloor)
    ensures
        is_applicable_sunset(p.scheduled_sunsets@, v, s) ==> {
            &&& p.lifecycle_of(v).sunset_date == Some(ymd_text(s.effective_on))
            &&& p.lifecycle_of(v).status == (if s.effective_on <= p.now {
                VersionHealthStatus::Unsupported
            } else {
                VersionHealthStatus::Deprecated
            })
        },
        !(exists|t: ScheduledFloor| is_applicable_sunset(p.scheduled_sunsets@, v, t)) ==> p.lifecycle_of(v).sunset_date is None,
{
    if is_applicable_sunset(p.scheduled_sunsets@, v, s) {
        lemma_applicable_unique(p.scheduled_sunsets@, v, s);
    }
}

/// A credential picked for the session that is not already included and has
/// no target addresses is the default of its type's mapping, when no network
/// credential and no earlier such pick of that type gives a default.
pub proof fn law_picked_credential_is_default(src: MappingSources, ms: Seq<TouchView>, i: int)
    requires
        grouped(ms, session_touches(src)),
        0 <= i < src.pending@.len(),
        src.pending@[i].target_ips is None,
        !pending_included(src).contains(src.pending@[i].id),
        forall|j: int|
            0 <= j < src.network_credentials@.len() ==> (#[trigger] src.network_credentials@[j]).credential_type.kind_of()
                != src.pending@[i].credential_type.kind_of(),
        forall|j: int|
            0 <= j < i ==> !((#[trigger] src.pending@[j]).credential_type.kind_of() == src.pending@[i].credential_type.kind_of()
                && src.pending@[j].target_ips is None && !pending_included(src).contains(src.pending@[j].id)),
    ensures
        exists|m: int|
            0 <= m < ms.len() && (#[trigger] ms[m]).kind == src.pending@[i].credential_type.kind_of() && ms[m].default
                == Some(payload_of(src.pending@[i].credential_type.view())),
{
    let k = src.pending@[i].credential_type.kind_of();
    let inc = pending_included(src);
    assert forall|j: int| 0 <= j < i implies !gives_default(#[trigger] src.pending@[j], inc, k) by {}
    lemma_pending_default(src.pending@, inc, i);
    lemma_session_default(src, k);
    let m = choose|m: int| 0 <= m < ms.len() && (#[trigger] ms[m]).kind == k;
    assert(ms[m].default == kind_default(session_touches(src), k));
}

} // verus!
