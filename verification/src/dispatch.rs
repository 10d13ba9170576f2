//! Building the credential mappings a discovery session dispatches: one
//! mapping per credential type, combining network credentials, host
//! assignments, bootstrap target addresses and credentials picked for the
//! session.

use vstd::prelude::*;

use crate::ids::{Uuid, contains_id};
use crate::kinds::{CredentialKind, CredentialType, payload_of};
use crate::mapping::{CredentialMapping, IpOverride};
use crate::net::IpAddress;
use crate::payload::{CredentialQueryPayload, PayloadView};

verus! {

/// A stored credential as dispatch reads it.
pub struct CredentialRecord {
    pub id: Uuid,
    pub credential_type: CredentialType,
    /// Bootstrap addresses for hosts that do not exist yet.
    pub target_ips: Option<Vec<IpAddress>>,
}

/// An interface row: which host holds which address.
#[derive(Clone, Copy, Debug, PartialEq, Eq, Structural)]
pub struct InterfaceRow {
    pub id: Uuid,
    pub host_id: Uuid,
    pub ip: IpAddress,
}

/// A credential assigned to a host, optionally limited to some of its interfaces.
pub struct Assignment {
    pub credential: CredentialRecord,
    /// `None` means every interface of the host.
    pub interface_ids: Option<Vec<Uuid>>,
}

/// A host of the network and the credentials assigned to it, in order.
pub struct HostAssignments {
    pub host_id: Uuid,
    pub assignments: Vec<Assignment>,
}

/// Everything the mappings of one discovery session are built from.
pub struct MappingSources {
    /// The network's credentials, in order.
    pub network_credentials: Vec<CredentialRecord>,
    /// The network's hosts with their assignments, in order.
    pub hosts: Vec<HostAssignments>,
    /// The network's interfaces.
    pub interfaces: Vec<InterfaceRow>,
    /// The organization's credentials that carry bootstrap target addresses;
    /// `None` when the network's organization is unknown.
    pub org_target_ip_credentials: Option<Vec<CredentialRecord>>,
    /// The credentials picked for this session, in order.
    pub pending: Vec<CredentialRecord>,
}

/// The mapping for one credential type.
pub struct KindMapping {
    pub kind: CredentialKind,
    pub mapping: CredentialMapping<CredentialQueryPayload>,
}

/// The mappings to dispatch, and the credentials whose bootstrap target
/// addresses are now consumed and must be cleared.
pub struct DispatchPlan {
    pub mappings: Vec<KindMapping>,
    pub clear_target_ips: Vec<Uuid>,
}

/// An override as plain values: address, payload, credential id.
pub type OverrideView = (IpAddress, PayloadView, Uuid);

/// One contribution to the mapping of a credential type: a default candidate
/// and overrides.
pub struct TouchView {
    pub kind: CredentialKind,
    pub default: Option<PayloadView>,
    pub overrides: Seq<OverrideView>,
}

pub open spec fn override_view(o: IpOverride<CredentialQueryPayload>) -> OverrideView {
    (o.ip, o.credential.view(), o.credential_id)
}

pub open spec fn overrides_view(s: Seq<IpOverride<CredentialQueryPayload>>) -> Seq<OverrideView> {
    s.map_values(|o: IpOverride<CredentialQueryPayload>| override_view(o))
}

pub open spec fn opt_payload(p: Option<CredentialQueryPayload>) -> Option<PayloadView> {
    match p {
        Some(x) => Some(x.view()),
        None => None,
    }
}

impl KindMapping {
    pub open spec fn view(self) -> TouchView {
        TouchView {
            kind: self.kind,
            default: opt_payload(self.mapping.default_credential),
            overrides: overrides_view(self.mapping.ip_overrides@),
        }
    }
}

/// A contribution in the making.
struct Touch {
    kind: CredentialKind,
    default: Option<CredentialQueryPayload>,
    overrides: Vec<IpOverride<CredentialQueryPayload>>,
}

impl Touch {
    spec fn view(self) -> TouchView {
        TouchView { kind: self.kind, default: opt_payload(self.default), overrides: overrides_view(self.overrides@) }
    }
}

spec fn touches_view(s: Seq<Touch>) -> Seq<TouchView> {
    s.map_values(|t: Touch| t.view())
}

// ---------------------------------------------------------------------------
// Grouping contributions by credential type
// ---------------------------------------------------------------------------

/// Whether some contribution in `ts` is for `k`.
pub open spec fn kind_touched(ts: Seq<TouchView>, k: CredentialKind) -> bool {
    exists|i: int| 0 <= i < ts.len() && (#[trigger] ts[i]).kind == k
}

/// The first default candidate among the contributions for `k`.
pub open spec fn kind_default(ts: Seq<TouchView>, k: CredentialKind) -> Option<PayloadView>
    decreases ts.len(),
{
    if ts.len() == 0 {
        None
    } else {
        let d = kind_default(ts.drop_last(), k);
        if d is Some {
            d
        } else if ts.last().kind == k {
            ts.last().default
        } else {
            None
        }
    }
}

/// The overrides of the contributions for `k`, in order.
pub open spec fn kind_overrides(ts: Seq<TouchView>, k: CredentialKind) -> Seq<OverrideView>
    decreases ts.len(),
{
    if ts.len() == 0 {
        Seq::empty()
    } else {
        let o = kind_overrides(ts.drop_last(), k);
        if ts.last().kind == k {
            o + ts.last().overrides
        } else {
            o
        }
    }
}

/// `ms` holds exactly one mapping per credential type that `ts` contributes
/// to: its first default candidate and all of its overrides, in order.
pub open spec fn grouped(ms: Seq<TouchView>, ts: Seq<TouchView>) -> bool {
    &&& forall|i: int| 0 <= i < ms.len() ==> (#[trigger] ms[i]).default == kind_default(ts, ms[i].kind)
        && ms[i].overrides == kind_overrides(ts, ms[i].kind)
    &&& forall|k: CredentialKind| kind_touched(ts, k) <==> exists|i: int| 0 <= i < ms.len() && (#[trigger] ms[i]).kind == k
    &&& forall|i: int, j: int| 0 <= i < j < ms.len() ==> (#[trigger] ms[i]).kind != (#[trigger] ms[j]).kind
}

pub open spec fn mappings_view(s: Seq<KindMapping>) -> Seq<TouchView> {
    s.map_values(|m: KindMapping| m.view())
}

proof fn lemma_touched_push(ts: Seq<TouchView>, t: TouchView, k: CredentialKind)
    ensures
        kind_touched(ts.push(t), k) <==> (kind_touched(ts, k) || t.kind == k),
{
    let s = ts.push(t);
    if kind_touched(s, k) {
        let i = choose|i: int| 0 <= i < s.len() && (#[trigger] s[i]).kind == k;
        if i < ts.len() {
            assert(ts[i] == s[i]);
        }
    }
    if kind_touched(ts, k) {
        let i = choose|i: int| 0 <= i < ts.len() && (#[trigger] ts[i]).kind == k;
        assert(s[i] == ts[i]);
    }
    if t.kind == k {
        assert(s[ts.len() as int] == t);
    }
}

proof fn lemma_untouched(ts: Seq<TouchView>, k: CredentialKind)
    requires
        !kind_touched(ts, k),
    ensures
        kind_default(ts, k) is None,
        kind_overrides(ts, k) == Seq::<OverrideView>::empty(),
    decreases ts.len(),
{
    if ts.len() > 0 {
        lemma_touched_push(ts.drop_last(), ts.last(), k);
        assert(ts.drop_last().push(ts.last()) =~= ts);
        lemma_untouched(ts.drop_last(), k);
    }
}

fn find_kind(ms: &Vec<KindMapping>, k: CredentialKind) -> (r: Option<usize>)
    ensures
        match r {
            Some(i) => i < ms@.len() && ms@[i as int].kind == k,
            None => forall|i: int| 0 <= i < ms@.len() ==> (#[trigger] ms@[i]).kind != k,
        },
{
    let mut i: usize = 0;
    while i < ms.len()
        invariant
            i <= ms@.len(),
            forall|j: int| 0 <= j < i ==> (#[trigger] ms@[j]).kind != k,
        decreases ms@.len() - i,
    {
        if ms[i].kind == k {
            return Some(i);
        }
        i = i + 1;
    }
    None
}

/// Merge the contributions into one mapping per credential type, in the
/// order the types are first contributed to.
fn group_touches(touches: Vec<Touch>) -> (r: Vec<KindMapping>)
    ensures
        grouped(mappings_view(r@), touches_view(touches@)),
{
    let ghost all = touches_view(touches@);
    let mut rest = touches;
    let mut out: Vec<KindMapping> = Vec::new();
    let ghost mut done: Seq<TouchView> = Seq::empty();
    proof {
        assert(rest@ =~= touches@.skip(0));
    }
    let mut n: usize = 0;
    let total = rest.len();
    while n < total
        invariant
            total == all.len(),
            n <= total,
            all == touches_view(touches@),
            rest@ == touches@.skip(n as int),
            done == all.take(n as int),
            grouped(mappings_view(out@), done),
        decreases total - n,
    {
        let mut t = rest.remove(0);
        proof {
            assert(t == touches@[n as int]);
            assert(rest@ =~= touches@.skip(n + 1));
        }
        let ghost tv = t.view();
        let ghost before = mappings_view(out@);
        let ghost next = done.push(tv);
        proof {
            assert(next =~= all.take(n + 1));
            assert(next.drop_last() =~= done);
            assert(next.last() == tv);
            assert forall|k: CredentialKind| #[trigger] kind_touched(next, k) <==> (kind_touched(done, k) || tv.kind == k) by {
                lemma_touched_push(done, tv, k);
            }
        }
        match find_kind(&out, t.kind) {
            None => {
                proof {
                    assert(!kind_touched(done, tv.kind));
                    lemma_untouched(done, tv.kind);
                    assert(kind_overrides(next, tv.kind) =~= tv.overrides);
                }
                out.push(KindMapping { kind: t.kind, mapping: CredentialMapping { default_credential: t.default, ip_overrides: t.overrides } });
                proof {
                    let after = mappings_view(out@);
                    assert(after =~= before.push(tv));
                    assert forall|i: int| 0 <= i < after.len() implies (#[trigger] after[i]).default == kind_default(next, after[i].kind)
                        && after[i].overrides == kind_overrides(next, after[i].kind) by {
                        if i < before.len() {
                            assert(after[i] == before[i]);
                            assert(before[i].kind != tv.kind);
                        }
                    }
                    assert forall|k: CredentialKind| kind_touched(next, k) <==> exists|i: int| 0 <= i < after.len() && (#[trigger] after[i]).kind == k by {
                        if kind_touched(next, k) {
                            if k == tv.kind {
                                assert(after[after.len() - 1].kind == k);
                            } else {
                                assert(kind_touched(done, k));
                                let i = choose|i: int| 0 <= i < before.len() && (#[trigger] before[i]).kind == k;
                                assert(after[i] == before[i]);
                            }
                        }
                        if exists|i: int| 0 <= i < after.len() && (#[trigger] after[i]).kind == k {
                            let i = choose|i: int| 0 <= i < after.len() && (#[trigger] after[i]).kind == k;
                            if i < before.len() {
                                assert(after[i] == before[i]);
                                assert(kind_touched(done, k));
                            }
                        }
                    }
                    assert forall|i: int, j: int| 0 <= i < j < after.len() implies (#[trigger] after[i]).kind != (#[trigger] after[j]).kind by {
                        if j < before.len() {
                            assert(after[i] == before[i] && after[j] == before[j]);
                        } else {
                            assert(after[i] == before[i]);
                        }
                    }
                }
            },
            Some(idx) => {
                let mut e = out.remove(idx);
                let ghost ev = e.view();
                proof {
                    assert(ev == before[idx as int]);
                }
                if e.mapping.default_credential.is_none() {
                    e.mapping.default_credential = t.default;
                }
                e.mapping.ip_overrides.append(&mut t.overrides);
                proof {
                    assert(overrides_view(e.mapping.ip_overrides@) =~= ev.overrides + tv.overrides);
                    assert(e.view().default == kind_default(next, tv.kind));
                    assert(e.view().overrides == kind_overrides(next, tv.kind));
                }
                out.insert(idx, e);
                proof {
                    let after = mappings_view(out@);
                    assert(after =~= before.update(idx as int, e.view()));
                    assert forall|i: int| 0 <= i < after.len() implies (#[trigger] after[i]).default == kind_default(next, after[i].kind)
                        && after[i].overrides == kind_overrides(next, after[i].kind) by {
                        if i != idx {
                            assert(after[i] == before[i]);
                            assert(before[i].kind != tv.kind);
                        }
                    }
                    assert forall|k: CredentialKind| kind_touched(next, k) <==> exists|i: int| 0 <= i < after.len() && (#[trigger] after[i]).kind == k by {
                        if kind_touched(next, k) {
                            if k == tv.kind {
                                assert(after[idx as int].kind == k);
                            } else {
                                let i = choose|i: int| 0 <= i < before.len() && (#[trigger] before[i]).kind == k;
                                assert(i != idx);
                                assert(after[i] == before[i]);
                            }
                        }
                        if exists|i: int| 0 <= i < after.len() && (#[trigger] after[i]).kind == k {
                            let i = choose|i: int| 0 <= i < after.len() && (#[trigger] after[i]).kind == k;
                            if i != idx {
                                assert(after[i] == before[i]);
                            }
                        }
                    }
                    assert forall|i: int, j: int| 0 <= i < j < after.len() implies (#[trigger] after[i]).kind != (#[trigger] after[j]).kind by {
                        assert(after[i].kind == before[i].kind);
                        assert(after[j].kind == before[j].kind);
                    }
                }
            },
        }
        proof {
            done = next;
        }
        n = n + 1;
    }
    proof {
        assert(all.take(n as int) =~= all);
    }
    out
}

// ---------------------------------------------------------------------------
// The contributions of one session
// ---------------------------------------------------------------------------

/// The payload of a stored credential.
pub open spec fn rec_payload(c: CredentialRecord) -> PayloadView {
    payload_of(c.credential_type.view())
}

/// One override per bootstrap target address of `c`.
pub open spec fn target_overrides(c: CredentialRecord) -> Seq<OverrideView> {
    match c.target_ips {
        Some(ips) => ips@.map_values(|ip: IpAddress| (ip, rec_payload(c), c.id)),
        None => Seq::empty(),
    }
}

/// Whether interface `i` belongs to `host` and is among `filter` (all when `None`).
pub open spec fn relevant(i: InterfaceRow, host: Uuid, filter: Option<Vec<Uuid>>) -> bool {
    i.host_id == host && match filter {
        Some(ids) => ids@.contains(i.id),
        None => true,
    }
}

/// One override per interface of `host` that assignment `a` applies to, in interface order.
pub open spec fn interface_overrides(ifaces: Seq<InterfaceRow>, host: Uuid, a: Assignment) -> Seq<OverrideView>
    decreases ifaces.len(),
{
    if ifaces.len() == 0 {
        Seq::empty()
    } else {
        let rest = interface_overrides(ifaces.drop_last(), host, a);
        if relevant(ifaces.last(), host, a.interface_ids) {
            rest.push((ifaces.last().ip, rec_payload(a.credential), a.credential.id))
        } else {
            rest
        }
    }
}

/// Network credentials: each is its type's default candidate.
pub open spec fn network_touches(creds: Seq<CredentialRecord>) -> Seq<TouchView> {
    creds.map_values(
        |c: CredentialRecord|
            TouchView { kind: c.credential_type.kind_of(), default: Some(rec_payload(c)), overrides: Seq::empty() },
    )
}

/// A host assignment: overrides for the host's relevant interfaces, then for
/// the credential's bootstrap target addresses.
pub open spec fn assignment_touch(host: Uuid, a: Assignment, ifaces: Seq<InterfaceRow>) -> TouchView {
    TouchView {
        kind: a.credential.credential_type.kind_of(),
        default: None,
        overrides: interface_overrides(ifaces, host, a) + target_overrides(a.credential),
    }
}

/// Host assignments, host by host, each host's in order.
pub open spec fn host_touches(hosts: Seq<HostAssignments>, ifaces: Seq<InterfaceRow>) -> Seq<TouchView>
    decreases hosts.len(),
{
    if hosts.len() == 0 {
        Seq::empty()
    } else {
        host_touches(hosts.drop_last(), ifaces) + hosts.last().assignments@.map_values(
            |a: Assignment| assignment_touch(hosts.last().host_id, a, ifaces),
        )
    }
}

/// The credential ids the overrides of `ts` carry.
pub open spec fn touched_ids(ts: Seq<TouchView>) -> Set<Uuid> {
    Set::new(
        |id: Uuid|
            exists|i: int, j: int|
                0 <= i < ts.len() && 0 <= j < ts[i].overrides.len() && (#[trigger] ts[i].overrides[j]).2 == id,
    )
}

/// Bootstrap credentials not already contributing overrides: overrides for their target addresses.
pub open spec fn org_touches(creds: Seq<CredentialRecord>, existing: Set<Uuid>) -> Seq<TouchView>
    decreases creds.len(),
{
    if creds.len() == 0 {
        Seq::empty()
    } else {
        let rest = org_touches(creds.drop_last(), existing);
        let c = creds.last();
        if existing.contains(c.id) {
            rest
        } else {
            rest.push(TouchView { kind: c.credential_type.kind_of(), default: None, overrides: target_overrides(c) })
        }
    }
}

/// Credentials picked for the session and not already included: overrides
/// for their target addresses, or a default candidate when they have none.
pub open spec fn pending_touches(creds: Seq<CredentialRecord>, included: Set<Uuid>) -> Seq<TouchView>
    decreases creds.len(),
{
    if creds.len() == 0 {
        Seq::empty()
    } else {
        let rest = pending_touches(creds.drop_last(), included);
        let c = creds.last();
        if included.contains(c.id) {
            rest
        } else {
            rest.push(
                TouchView {
                    kind: c.credential_type.kind_of(),
                    default: if c.target_ips is None {
                        Some(rec_payload(c))
                    } else {
                        None
                    },
                    overrides: target_overrides(c),
                },
            )
        }
    }
}

/// Every contribution of a session, in the order they apply.
pub open spec fn session_touches(src: MappingSources) -> Seq<TouchView> {
    let n = network_touches(src.network_credentials@);
    let h = host_touches(src.hosts@, src.interfaces@);
    let o = match src.org_target_ip_credentials {
        Some(cs) => org_touches(cs@, touched_ids(n + h)),
        None => Seq::empty(),
    };
    let p = pending_touches(src.pending@, pending_included(src));
    n + h + o + p
}

/// The credentials already contributing overrides before the credentials
/// picked for the session are considered.
pub open spec fn pending_included(src: MappingSources) -> Set<Uuid> {
    let n = network_touches(src.network_credentials@);
    let h = host_touches(src.hosts@, src.interfaces@);
    let o = match src.org_target_ip_credentials {
        Some(cs) => org_touches(cs@, touched_ids(n + h)),
        None => Seq::empty(),
    };
    touched_ids(n + h + o)
}

proof fn lemma_default_push(ts: Seq<TouchView>, t: TouchView, k: CredentialKind)
    ensures
        kind_default(ts.push(t), k) == (if kind_default(ts, k) is Some {
            kind_default(ts, k)
        } else if t.kind == k {
            t.default
        } else {
            None
        }),
{
    assert(ts.push(t).drop_last() =~= ts);
}

proof fn lemma_default_concat(a: Seq<TouchView>, b: Seq<TouchView>, k: CredentialKind)
    ensures
        kind_default(a + b, k) == (if kind_default(a, k) is Some {
            kind_default(a, k)
        } else {
            kind_default(b, k)
        }),
    decreases b.len(),
{
    if b.len() == 0 {
        assert(a + b =~= a);
    } else {
        let bl = b.drop_last();
        lemma_default_concat(a, bl, k);
        assert(a + b =~= (a + bl).push(b.last()));
        assert(b =~= bl.push(b.last()));
        lemma_default_push(a + bl, b.last(), k);
        lemma_default_push(bl, b.last(), k);
    }
}

proof fn lemma_no_default(ts: Seq<TouchView>, k: CredentialKind)
    requires
        forall|i: int| 0 <= i < ts.len() && (#[trigger] ts[i]).kind == k ==> ts[i].default is None,
    ensures
        kind_default(ts, k) is None,
    decreases ts.len(),
{
    if ts.len() > 0 {
        let r = ts.drop_last();
        assert forall|i: int| 0 <= i < r.len() && (#[trigger] r[i]).kind == k implies r[i].default is None by {
            assert(r[i] == ts[i]);
        }
        lemma_no_default(r, k);
        assert(ts[ts.len() - 1] == ts.last());
    }
}

proof fn lemma_default_touched(ts: Seq<TouchView>, k: CredentialKind)
    requires
        kind_default(ts, k) is Some,
    ensures
        kind_touched(ts, k),
    decreases ts.len(),
{
    let r = ts.drop_last();
    lemma_touched_push(r, ts.last(), k);
    assert(r.push(ts.last()) =~= ts);
    if kind_default(r, k) is Some {
        lemma_default_touched(r, k);
    }
}

proof fn lemma_host_no_default(hosts: Seq<HostAssignments>, ifaces: Seq<InterfaceRow>, k: CredentialKind)
    ensures
        kind_default(host_touches(hosts, ifaces), k) is None,
    decreases hosts.len(),
{
    if hosts.len() > 0 {
        lemma_host_no_default(hosts.drop_last(), ifaces, k);
        let m = hosts.last().assignments@.map_values(|a: Assignment| assignment_touch(hosts.last().host_id, a, ifaces));
        lemma_no_default(m, k);
        lemma_default_concat(host_touches(hosts.drop_last(), ifaces), m, k);
    }
}

proof fn lemma_org_no_default(creds: Seq<CredentialRecord>, existing: Set<Uuid>, k: CredentialKind)
    ensures
        kind_default(org_touches(creds, existing), k) is None,
    decreases creds.len(),
{
    if creds.len() > 0 {
        lemma_org_no_default(creds.drop_last(), existing, k);
        let c = creds.last();
        if !existing.contains(c.id) {
            lemma_default_push(
                org_touches(creds.drop_last(), existing),
                TouchView { kind: c.credential_type.kind_of(), default: None, overrides: target_overrides(c) },
                k,
            );
        }
    }
}

/// Whether credential `c`, picked for a session, stands as a default
/// candidate of kind `k`.
pub open spec fn gives_default(c: CredentialRecord, included: Set<Uuid>, k: CredentialKind) -> bool {
    c.credential_type.kind_of() == k && c.target_ips is None && !included.contains(c.id)
}

proof fn lemma_pending_none(creds: Seq<CredentialRecord>, included: Set<Uuid>, k: CredentialKind)
    requires
        forall|j: int| 0 <= j < creds.len() ==> !gives_default(#[trigger] creds[j], included, k),
    ensures
        kind_default(pending_touches(creds, included), k) is None,
    decreases creds.len(),
{
    if creds.len() > 0 {
        let r = creds.drop_last();
        assert forall|j: int| 0 <= j < r.len() implies !gives_default(#[trigger] r[j], included, k) by {
            assert(r[j] == creds[j]);
        }
        lemma_pending_none(r, included, k);
        let c = creds.last();
        assert(!gives_default(creds[creds.len() - 1], included, k));
        if !included.contains(c.id) {
            lemma_default_push(
                pending_touches(r, included),
                TouchView {
                    kind: c.credential_type.kind_of(),
                    default: if c.target_ips is None {
                        Some(rec_payload(c))
                    } else {
                        None
                    },
                    overrides: target_overrides(c),
                },
                k,
            );
        }
    }
}

/// The first credential picked for a session that gives a default of its
/// kind is that kind's default among the picked credentials.
pub proof fn lemma_pending_default(creds: Seq<CredentialRecord>, included: Set<Uuid>, i: int)
    requires
        0 <= i < creds.len(),
        gives_default(creds[i], included, creds[i].credential_type.kind_of()),
        forall|j: int| 0 <= j < i ==> !gives_default(#[trigger] creds[j], included, creds[i].credential_type.kind_of()),
    ensures
        kind_default(pending_touches(creds, included), creds[i].credential_type.kind_of()) == Some(rec_payload(creds[i])),
    decreases creds.len(),
{
    let k = creds[i].credential_type.kind_of();
    let r = creds.drop_last();
    let c = creds.last();
    if i == creds.len() - 1 {
        assert forall|j: int| 0 <= j < r.len() implies !gives_default(#[trigger] r[j], included, k) by {
            assert(r[j] == creds[j]);
        }
        lemma_pending_none(r, included, k);
    } else {
        assert(r[i] == creds[i]);
        assert forall|j: int| 0 <= j < i implies !gives_default(#[trigger] r[j], included, k) by {
            assert(r[j] == creds[j]);
        }
        lemma_pending_default(r, included, i);
    }
    if !included.contains(c.id) {
        lemma_default_push(
            pending_touches(r, included),
            TouchView {
                kind: c.credential_type.kind_of(),
                default: if c.target_ips is None {
                    Some(rec_payload(c))
                } else {
                    None
                },
                overrides: target_overrides(c),
            },
            k,
        );
    }
}

/// When no network credential is of kind `k`, the session's default of kind
/// `k` is the picked credentials' default; and a kind with a default is a
/// kind with a mapping.
pub proof fn lemma_session_default(src: MappingSources, k: CredentialKind)
    requires
        forall|j: int| 0 <= j < src.network_credentials@.len() ==> (#[trigger] src.network_credentials@[j]).credential_type.kind_of() != k,
    ensures
        kind_default(session_touches(src), k) == kind_default(pending_touches(src.pending@, pending_included(src)), k),
        kind_default(session_touches(src), k) is Some ==> kind_touched(session_touches(src), k),
{
    let n = network_touches(src.network_credentials@);
    let h = host_touches(src.hosts@, src.interfaces@);
    let o = match src.org_target_ip_credentials {
        Some(cs) => org_touches(cs@, touched_ids(n + h)),
        None => Seq::empty(),
    };
    let p = pending_touches(src.pending@, pending_included(src));
    assert forall|i: int| 0 <= i < n.len() && (#[trigger] n[i]).kind == k implies n[i].default is None by {
        assert(n[i].kind == src.network_credentials@[i].credential_type.kind_of());
    }
    lemma_no_default(n, k);
    lemma_host_no_default(src.hosts@, src.interfaces@, k);
    match src.org_target_ip_credentials {
        Some(cs) => lemma_org_no_default(cs@, touched_ids(n + h), k),
        None => lemma_no_default(o, k),
    }
    lemma_default_concat(n, h, k);
    lemma_default_concat(n + h, o, k);
    lemma_default_concat(n + h + o, p, k);
    if kind_default(session_touches(src), k) is Some {
        lemma_default_touched(session_touches(src), k);
    }
}

/// The credentials whose target addresses a session consumes: every bootstrap credential read.
pub open spec fn cleared_ids(src: MappingSources) -> Seq<Uuid> {
    match src.org_target_ip_credentials {
        Some(cs) => cs@.map_values(|c: CredentialRecord| c.id),
        None => Seq::empty(),
    }
}

fn target_overrides_of(c: &CredentialRecord) -> (r: Vec<IpOverride<CredentialQueryPayload>>)
    ensures
        overrides_view(r@) == target_overrides(*c),
{
    let mut out: Vec<IpOverride<CredentialQueryPayload>> = Vec::new();
    match &c.target_ips {
        Some(ips) => {
            let mut i: usize = 0;
            while i < ips.len()
                invariant
                    i <= ips@.len(),
                    c.target_ips == Some(*ips),
                    overrides_view(out@) == ips@.take(i as int).map_values(|ip: IpAddress| (ip, rec_payload(*c), c.id)),
                decreases ips@.len() - i,
            {
                let o = IpOverride { ip: ips[i], credential: c.credential_type.to_query_payload(), credential_id: c.id };
                let ghost before = out@;
                out.push(o);
                proof {
                    assert(overrides_view(out@) =~= overrides_view(before).push(override_view(o)));
                    assert(ips@.take(i + 1).map_values(|ip: IpAddress| (ip, rec_payload(*c), c.id)) =~= ips@.take(
                        i as int,
                    ).map_values(|ip: IpAddress| (ip, rec_payload(*c), c.id)).push((ips@[i as int], rec_payload(*c), c.id)));
                }
                i = i + 1;
            }
            proof {
                assert(ips@.take(i as int) =~= ips@);
            }
        },
        None => {
            proof {
                assert(overrides_view(out@) =~= Seq::<OverrideView>::empty());
            }
        },
    }
    out
}

fn is_relevant(i: &InterfaceRow, host: Uuid, filter: &Option<Vec<Uuid>>) -> (r: bool)
    ensures
        r == relevant(*i, host, *filter),
{
    i.host_id == host && match filter {
        Some(ids) => contains_id(ids, i.id),
        None => true,
    }
}

fn assignment_overrides(ifaces: &Vec<InterfaceRow>, host: Uuid, a: &Assignment) -> (r: Vec<IpOverride<CredentialQueryPayload>>)
    ensures
        overrides_view(r@) == interface_overrides(ifaces@, host, *a) + target_overrides(a.credential),
{
    let mut out: Vec<IpOverride<CredentialQueryPayload>> = Vec::new();
    let mut i: usize = 0;
    while i < ifaces.len()
        invariant
            i <= ifaces@.len(),
            overrides_view(out@) == interface_overrides(ifaces@.take(i as int), host, *a),
        decreases ifaces@.len() - i,
    {
        proof {
            assert(ifaces@.take(i + 1).drop_last() =~= ifaces@.take(i as int));
            assert(ifaces@.take(i + 1).last() == ifaces@[i as int]);
        }
        if is_relevant(&ifaces[i], host, &a.interface_ids) {
            let o = IpOverride {
                ip: ifaces[i].ip,
                credential: a.credential.credential_type.to_query_payload(),
                credential_id: a.credential.id,
            };
            let ghost before = out@;
            out.push(o);
            proof {
                assert(overrides_view(out@) =~= overrides_view(before).push(override_view(o)));
            }
        }
        i = i + 1;
    }
    proof {
        assert(ifaces@.take(i as int) =~= ifaces@);
    }
    let ghost first = out@;
    let mut targets = target_overrides_of(&a.credential);
    out.append(&mut targets);
    proof {
        assert(overrides_view(out@) =~= overrides_view(first) + target_overrides(a.credential));
    }
    out
}

/// The credential mappings of a discovery session, one per credential type
/// contributed to (in no promised order): network credentials give
/// defaults, host assignments give overrides for the host's interfaces and the
/// credential's target addresses, bootstrap credentials not already included
/// give target overrides, and credentials picked for the session and still
/// not included give target overrides or a default. Every bootstrap
/// credential read is listed to have its target addresses cleared.
pub fn plan_credential_mappings(src: &MappingSources) -> (r: DispatchPlan)
    ensures
        grouped(mappings_view(r.mappings@), session_touches(*src)),
        r.clear_target_ips@ == cleared_ids(*src),
{
    let mut touches: Vec<Touch> = Vec::new();
    let mut i: usize = 0;
    while i < src.network_credentials.len()
        invariant
            i <= src.network_credentials@.len(),
            touches_view(touches@) == network_touches(src.network_credentials@.take(i as int)),
        decreases src.network_credentials@.len() - i,
    {
        let c = &src.network_credentials[i];
        let t = Touch { kind: c.credential_type.kind(), default: Some(c.credential_type.to_query_payload()), overrides: Vec::new() };
        let ghost before = touches@;
        touches.push(t);
        proof {
            assert(overrides_view(t.overrides@) =~= Seq::<OverrideView>::empty());
            assert(touches_view(touches@) =~= touches_view(before).push(t.view()));
            assert(network_touches(src.network_credentials@.take(i + 1)) =~= network_touches(
                src.network_credentials@.take(i as int),
            ).push(t.view()));
        }
        i = i + 1;
    }
    proof {
        assert(src.network_credentials@.take(i as int) =~= src.network_credentials@);
    }
    let ghost n = touches_view(touches@);
    let mut h: usize = 0;
    while h < src.hosts.len()
        invariant
            h <= src.hosts@.len(),
            n == network_touches(src.network_credentials@),
            touches_view(touches@) == n + host_touches(src.hosts@.take(h as int), src.interfaces@),
        decreases src.hosts@.len() - h,
    {
        let host = &src.hosts[h];
        let ghost base = touches_view(touches@);
        let mut k: usize = 0;
        while k < host.assignments.len()
            invariant
                h < src.hosts@.len(),
                *host == src.hosts@[h as int],
                k <= host.assignments@.len(),
                touches_view(touches@) == base + host.assignments@.take(k as int).map_values(
                    |a: Assignment| assignment_touch(host.host_id, a, src.interfaces@),
                ),
            decreases host.assignments@.len() - k,
        {
            let a = &host.assignments[k];
            let t = Touch {
                kind: a.credential.credential_type.kind(),
                default: None,
                overrides: assignment_overrides(&src.interfaces, host.host_id, a),
            };
            let ghost before = touches@;
            touches.push(t);
            proof {
                assert(t.view() == assignment_touch(host.host_id, *a, src.interfaces@));
                assert(touches_view(touches@) =~= touches_view(before).push(t.view()));
                assert(host.assignments@.take(k + 1).map_values(|a: Assignment| assignment_touch(host.host_id, a, src.interfaces@))
                    =~= host.assignments@.take(k as int).map_values(
                    |a: Assignment| assignment_touch(host.host_id, a, src.interfaces@),
                ).push(t.view()));
            }
            k = k + 1;
        }
        proof {
            assert(host.assignments@.take(k as int) =~= host.assignments@);
            assert(src.hosts@.take(h + 1).drop_last() =~= src.hosts@.take(h as int));
            assert(src.hosts@.take(h + 1).last() == src.hosts@[h as int]);
            assert(touches_view(touches@) =~= n + host_touches(src.hosts@.take(h + 1), src.interfaces@));
        }
        h = h + 1;
    }
    proof {
        assert(src.hosts@.take(h as int) =~= src.hosts@);
    }
    let ghost nh = touches_view(touches@);
    let mut clear: Vec<Uuid> = Vec::new();
    match &src.org_target_ip_credentials {
        Some(creds) => {
            let count = touches.len();
            let ghost existing_set = touched_ids(nh);
            let mut j: usize = 0;
            while j < creds.len()
                invariant
                    j <= creds@.len(),
                    count == touches@.len() - touches_view(touches@).skip(count as int).len(),
                    nh == touches_view(touches@).take(count as int),
                    count <= touches@.len(),
                    existing_set == touched_ids(nh),
                    touches_view(touches@) == nh + org_touches(creds@.take(j as int), existing_set),
                    clear@ == creds@.take(j as int).map_values(|c: CredentialRecord| c.id),
                decreases creds@.len() - j,
            {
                let c = &creds[j];
                let ghost before = touches@;
                proof {
                    assert(creds@.take(j + 1).drop_last() =~= creds@.take(j as int));
                    assert(creds@.take(j + 1).last() == creds@[j as int]);
                    assert(touches_view(touches@).take(count as int) =~= nh);
                }
                clear.push(c.id);
                let seen = carries_prefix(&touches, count, c.id);
                if !seen {
                    let t = Touch { kind: c.credential_type.kind(), default: None, overrides: target_overrides_of(c) };
                    touches.push(t);
                    proof {
                        assert(touches_view(touches@) =~= touches_view(before).push(t.view()));
                    }
                }
                proof {
                    assert(touches_view(touches@).take(count as int) =~= nh);
                    assert(creds@.take(j + 1).map_values(|c: CredentialRecord| c.id) =~= creds@.take(j as int).map_values(
                        |c: CredentialRecord| c.id,
                    ).push(c.id));
                }
                j = j + 1;
            }
            proof {
                assert(creds@.take(j as int) =~= creds@);
                assert(clear@ =~= creds@.map_values(|c: CredentialRecord| c.id));
            }
        },
        None => {
            proof {
                assert(clear@ =~= Seq::<Uuid>::empty());
                assert(touches_view(touches@) =~= nh + Seq::<TouchView>::empty());
            }
        },
    }
    let ghost nho = touches_view(touches@);
    let count = touches.len();
    let mut q: usize = 0;
    while q < src.pending.len()
        invariant
            q <= src.pending@.len(),
            count <= touches@.len(),
            nho == touches_view(touches@).take(count as int),
            touches_view(touches@) == nho + pending_touches(src.pending@.take(q as int), touched_ids(nho)),
        decreases src.pending@.len() - q,
    {
        let c = &src.pending[q];
        let ghost before = touches@;
        proof {
            assert(src.pending@.take(q + 1).drop_last() =~= src.pending@.take(q as int));
            assert(src.pending@.take(q + 1).last() == src.pending@[q as int]);
            assert(touches_view(touches@).take(count as int) =~= nho);
        }
        let seen = carries_prefix(&touches, count, c.id);
        if !seen {
            let default = match &c.target_ips {
                Some(_) => None,
                None => Some(c.credential_type.to_query_payload()),
            };
            let t = Touch { kind: c.credential_type.kind(), default, overrides: target_overrides_of(c) };
            touches.push(t);
            proof {
                assert(touches_view(touches@) =~= touches_view(before).push(t.view()));
            }
        }
        proof {
            assert(touches_view(touches@).take(count as int) =~= nho);
        }
        q = q + 1;
    }
    proof {
        assert(src.pending@.take(q as int) =~= src.pending@);
        assert(touches_view(touches@) =~= session_touches(*src));
    }
    let mappings = group_touches(touches);
    DispatchPlan { mappings, clear_target_ips: clear }
}

/// Whether `id` is carried by an override of the first `count` contributions.
fn carries_prefix(ts: &Vec<Touch>, count: usize, id: Uuid) -> (r: bool)
    requires
        count <= ts@.len(),
    ensures
        r == touched_ids(touches_view(ts@).take(count as int)).contains(id),
{
    let ghost tv = touches_view(ts@).take(count as int);
    let mut i: usize = 0;
    while i < count
        invariant
            count <= ts@.len(),
            i <= count,
            tv == touches_view(ts@).take(count as int),
            forall|a: int, b: int| 0 <= a < i && 0 <= b < tv[a].overrides.len() ==> (#[trigger] tv[a].overrides[b]).2 != id,
        decreases count - i,
    {
        let os = &ts[i].overrides;
        let mut j: usize = 0;
        while j < os.len()
            invariant
                i < count,
                count <= ts@.len(),
                j <= os@.len(),
                *os == ts@[i as int].overrides,
                tv == touches_view(ts@).take(count as int),
                forall|a: int, b: int| 0 <= a < i && 0 <= b < tv[a].overrides.len() ==> (#[trigger] tv[a].overrides[b]).2 != id,
                forall|b: int| 0 <= b < j ==> (#[trigger] tv[i as int].overrides[b]).2 != id,
            decreases os@.len() - j,
        {
            proof {
                assert(tv[i as int].overrides[j as int] == override_view(os@[j as int]));
            }
            if os[j].credential_id == id {
                proof {
                    assert(tv[i as int].overrides[j as int].2 == id);
                    assert(touched_ids(tv).contains(id));
                }
                return true;
            }
            j = j + 1;
        }
        i = i + 1;
    }
    proof {
        assert(!touched_ids(tv).contains(id));
    }
    false
}

// ---------------------------------------------------------------------------
// Legacy SNMP mapping for daemons that predate unified discovery
// ---------------------------------------------------------------------------

/// The SNMPv2c community of a stored credential, if it is one.
pub open spec fn snmp_community(c: CredentialRecord) -> Option<crate::mapping::Resolvable> {
    match c.credential_type.view() {
        crate::kinds::CredentialView::SnmpV2c { community } => Some(community),
        _ => None,
    }
}

/// The community of the first SNMPv2c credential in `creds`.
pub open spec fn first_snmp(creds: Seq<CredentialRecord>) -> Option<crate::mapping::Resolvable>
    decreases creds.len(),
{
    if creds.len() == 0 {
        None
    } else {
        let r = first_snmp(creds.drop_last());
        if r is Some {
            r
        } else {
            snmp_community(creds.last())
        }
    }
}

/// The first assignment in `asg` whose credential is SNMPv2c.
pub open spec fn first_snmp_assignment(asg: Seq<Assignment>) -> Option<Assignment>
    decreases asg.len(),
{
    if asg.len() == 0 {
        None
    } else {
        let r = first_snmp_assignment(asg.drop_last());
        if r is Some {
            r
        } else if snmp_community(asg.last().credential) is Some {
            Some(asg.last())
        } else {
            None
        }
    }
}

/// A legacy override as plain values: address, community, credential id.
pub type SnmpOverrideView = (IpAddress, crate::mapping::Resolvable, Uuid);

/// One SNMP override per interface of `host` that assignment `a` applies to.
pub open spec fn snmp_interface_overrides(ifaces: Seq<InterfaceRow>, host: Uuid, a: Assignment) -> Seq<SnmpOverrideView>
    decreases ifaces.len(),
{
    if ifaces.len() == 0 {
        Seq::empty()
    } else {
        let rest = snmp_interface_overrides(ifaces.drop_last(), host, a);
        if relevant(ifaces.last(), host, a.interface_ids) {
            rest.push((ifaces.last().ip, snmp_community(a.credential)->0, a.credential.id))
        } else {
            rest
        }
    }
}

/// Per host, in order, the overrides of its first SNMPv2c assignment.
pub open spec fn snmp_host_overrides(hosts: Seq<HostAssignments>, ifaces: Seq<InterfaceRow>) -> Seq<SnmpOverrideView>
    decreases hosts.len(),
{
    if hosts.len() == 0 {
        Seq::empty()
    } else {
        let rest = snmp_host_overrides(hosts.drop_last(), ifaces);
        match first_snmp_assignment(hosts.last().assignments@) {
            Some(a) => rest + snmp_interface_overrides(ifaces, hosts.last().host_id, a),
            None => rest,
        }
    }
}

pub open spec fn snmp_override_view(o: IpOverride<crate::snmp::SnmpQueryCredential>) -> SnmpOverrideView {
    (o.ip, o.credential.community.view(), o.credential_id)
}

/// The SNMPv2c query credential of a stored credential that is one.
fn snmp_query(c: &CredentialRecord) -> (r: Option<crate::snmp::SnmpQueryCredential>)
    ensures
        match (r, snmp_community(*c)) {
            (Some(q), Some(k)) => q.version == crate::snmp::SnmpVersion::V2c && q.community.view() == k,
            (None, None) => true,
            _ => false,
        },
{
    match &c.credential_type {
        CredentialType::SnmpV2c { community } => Some(
            crate::snmp::SnmpQueryCredential { version: crate::snmp::SnmpVersion::V2c, community: community.to_resolvable() },
        ),
        _ => None,
    }
}

/// The legacy SNMP mapping of a network: the first SNMPv2c network credential
/// as default, and for each host the overrides of its first SNMPv2c
/// assignment on the interfaces it applies to.
pub fn plan_snmp_mapping(
    network_credentials: &Vec<CredentialRecord>,
    hosts: &Vec<HostAssignments>,
    interfaces: &Vec<InterfaceRow>,
) -> (r: CredentialMapping<crate::snmp::SnmpQueryCredential>)
    ensures
        match (r.default_credential, first_snmp(network_credentials@)) {
            (Some(q), Some(k)) => q.version == crate::snmp::SnmpVersion::V2c && q.community.view() == k,
            (None, None) => true,
            _ => false,
        },
        r.ip_overrides@.map_values(|o: IpOverride<crate::snmp::SnmpQueryCredential>| snmp_override_view(o))
            == snmp_host_overrides(hosts@, interfaces@),
        forall|i: int| 0 <= i < r.ip_overrides@.len() ==> (#[trigger] r.ip_overrides@[i]).credential.version
            == crate::snmp::SnmpVersion::V2c,
{
    let mut default_credential: Option<crate::snmp::SnmpQueryCredential> = None;
    let mut i: usize = 0;
    while i < network_credentials.len()
        invariant
            i <= network_credentials@.len(),
            match (default_credential, first_snmp(network_credentials@.take(i as int))) {
                (Some(q), Some(k)) => q.version == crate::snmp::SnmpVersion::V2c && q.community.view() == k,
                (None, None) => true,
                _ => false,
            },
        decreases network_credentials@.len() - i,
    {
        proof {
            assert(network_credentials@.take(i + 1).drop_last() =~= network_credentials@.take(i as int));
            assert(network_credentials@.take(i + 1).last() == network_credentials@[i as int]);
        }
        if default_credential.is_none() {
            default_credential = snmp_query(&network_credentials[i]);
        }
        i = i + 1;
    }
    proof {
        assert(network_credentials@.take(i as int) =~= network_credentials@);
    }
    let mut overrides: Vec<IpOverride<crate::snmp::SnmpQueryCredential>> = Vec::new();
    let mut h: usize = 0;
    while h < hosts.len()
        invariant
            h <= hosts@.len(),
            overrides@.map_values(|o: IpOverride<crate::snmp::SnmpQueryCredential>| snmp_override_view(o))
                == snmp_host_overrides(hosts@.take(h as int), interfaces@),
            forall|x: int| 0 <= x < overrides@.len() ==> (#[trigger] overrides@[x]).credential.version
                == crate::snmp::SnmpVersion::V2c,
        decreases hosts@.len() - h,
    {
        let host = &hosts[h];
        let mut k: usize = 0;
        let mut chosen: Option<usize> = None;
        while k < host.assignments.len() && chosen.is_none()
            invariant
                k <= host.assignments@.len(),
                match chosen {
                    Some(c) => c < host.assignments@.len() && first_snmp_assignment(host.assignments@.take(k as int))
                        == Some(host.assignments@[c as int]) && snmp_community(host.assignments@[c as int].credential) is Some,
                    None => first_snmp_assignment(host.assignments@.take(k as int)) is None,
                },
            decreases host.assignments@.len() - k,
        {
            proof {
                assert(host.assignments@.take(k + 1).drop_last() =~= host.assignments@.take(k as int));
                assert(host.assignments@.take(k + 1).last() == host.assignments@[k as int]);
            }
            let is_snmp = match &host.assignments[k].credential.credential_type {
                CredentialType::SnmpV2c { .. } => true,
                _ => false,
            };
            if is_snmp {
                chosen = Some(k);
            }
            k = k + 1;
        }
        proof {
            if chosen is None {
                assert(host.assignments@.take(k as int) =~= host.assignments@);
            } else {
                lemma_first_snmp_stable(host.assignments@, k as int);
            }
            assert(hosts@.take(h + 1).drop_last() =~= hosts@.take(h as int));
            assert(hosts@.take(h + 1).last() == hosts@[h as int]);
        }
        let ghost prior = overrides@.map_values(|o: IpOverride<crate::snmp::SnmpQueryCredential>| snmp_override_view(o));
        match chosen {
            Some(c) => {
                let a = &host.assignments[c];
                let q = snmp_query(&a.credential);
                match q {
                    Some(query) => {
                        let ghost base = overrides@.map_values(|o: IpOverride<crate::snmp::SnmpQueryCredential>| snmp_override_view(o));
                        let mut j: usize = 0;
                        while j < interfaces.len()
                            invariant
                                j <= interfaces@.len(),
                                snmp_community(a.credential) == Some(query.community.view()),
                                query.version == crate::snmp::SnmpVersion::V2c,
                                overrides@.map_values(|o: IpOverride<crate::snmp::SnmpQueryCredential>| snmp_override_view(o))
                                    == base + snmp_interface_overrides(interfaces@.take(j as int), host.host_id, *a),
                                forall|x: int| 0 <= x < overrides@.len() ==> (#[trigger] overrides@[x]).credential.version
                                    == crate::snmp::SnmpVersion::V2c,
                            decreases interfaces@.len() - j,
                        {
                            proof {
                                assert(interfaces@.take(j + 1).drop_last() =~= interfaces@.take(j as int));
                                assert(interfaces@.take(j + 1).last() == interfaces@[j as int]);
                            }
                            if is_relevant(&interfaces[j], host.host_id, &a.interface_ids) {
                                let o = IpOverride { ip: interfaces[j].ip, credential: query.duplicate(), credential_id: a.credential.id };
                                let ghost before = overrides@;
                                overrides.push(o);
                                proof {
                                    assert(overrides@.map_values(|o: IpOverride<crate::snmp::SnmpQueryCredential>| snmp_override_view(o))
                                        =~= before.map_values(|o: IpOverride<crate::snmp::SnmpQueryCredential>| snmp_override_view(o)).push(
                                        snmp_override_view(o),
                                    ));
                                }
                            }
                            j = j + 1;
                        }
                        proof {
                            assert(interfaces@.take(j as int) =~= interfaces@);
                            assert(base == prior);
                        }
                    },
                    None => {},
                }
            },
            None => {},
        }
        proof {
            assert(overrides@.map_values(|o: IpOverride<crate::snmp::SnmpQueryCredential>| snmp_override_view(o))
                =~= snmp_host_overrides(hosts@.take(h + 1), interfaces@));
        }
        h = h + 1;
    }
    proof {
        assert(hosts@.take(h as int) =~= hosts@);
    }
    CredentialMapping { default_credential, ip_overrides: overrides }
}

proof fn lemma_first_snmp_stable(asg: Seq<Assignment>, k: int)
    requires
        0 <= k <= asg.len(),
        first_snmp_assignment(asg.take(k)) is Some,
    ensures
        first_snmp_assignment(asg) == first_snmp_assignment(asg.take(k)),
    decreases asg.len() - k,
{
    if k < asg.len() {
        assert(asg.take(k + 1).drop_last() =~= asg.take(k));
        lemma_first_snmp_stable(asg, k + 1);
    } else {
        assert(asg.take(k) =~= asg);
    }
}


// ---------------------------------------------------------------------------
// Loopback credentials
// ---------------------------------------------------------------------------

/// A credential assigned to a host, optionally limited to some of its addresses.
#[derive(Debug, Clone, PartialEq, Eq)]
pub struct CredentialAssignment {
    pub credential_id: Uuid,
    /// `None` means every address of the host.
    pub ip_address_ids: Option<Vec<Uuid>>,
}

pub open spec fn assignment_view(a: CredentialAssignment) -> (Uuid, Option<Seq<Uuid>>) {
    (a.credential_id, match a.ip_address_ids {
        Some(v) => Some(v@),
        None => None,
    })
}

/// The first interface of `host` in `ifaces` whose address is loopback.
pub open spec fn is_first_loopback(ifaces: Seq<InterfaceRow>, host: Uuid, i: int) -> bool {
    &&& 0 <= i < ifaces.len()
    &&& ifaces[i].host_id == host && ifaces[i].ip.loopback()
    &&& forall|j: int| 0 <= j < i ==> !((#[trigger] ifaces[j]).host_id == host && ifaces[j].ip.loopback())
}

/// The id of the first loopback interface of `host`, if it has one.
pub fn loopback_interface(ifaces: &Vec<InterfaceRow>, host: Uuid) -> (r: Option<Uuid>)
    ensures
        match r {
            Some(id) => exists|i: int| is_first_loopback(ifaces@, host, i) && ifaces@[i].id == id,
            None => forall|j: int| 0 <= j < ifaces@.len() ==> !((#[trigger] ifaces@[j]).host_id == host && ifaces@[j].ip.loopback()),
        },
{
    let mut i: usize = 0;
    while i < ifaces.len()
        invariant
            i <= ifaces@.len(),
            forall|j: int| 0 <= j < i ==> !((#[trigger] ifaces@[j]).host_id == host && ifaces@[j].ip.loopback()),
        decreases ifaces@.len() - i,
    {
        if ifaces[i].host_id == host && ifaces[i].ip.is_loopback() {
            proof {
                assert(is_first_loopback(ifaces@, host, i as int));
            }
            return Some(ifaces[i].id);
        }
        i = i + 1;
    }
    None
}

/// Whether a credential's bootstrap addresses include a loopback address.
pub open spec fn targets_loopback(target_ips: Option<Vec<IpAddress>>) -> bool {
    match target_ips {
        Some(ips) => exists|i: int| 0 <= i < ips@.len() && (#[trigger] ips@[i]).loopback(),
        None => false,
    }
}

fn any_loopback(ips: &Vec<IpAddress>) -> (r: bool)
    ensures
        r == exists|i: int| 0 <= i < ips@.len() && (#[trigger] ips@[i]).loopback(),
{
    let mut i: usize = 0;
    while i < ips.len()
        invariant
            i <= ips@.len(),
            forall|j: int| 0 <= j < i ==> !(#[trigger] ips@[j]).loopback(),
        decreases ips@.len() - i,
    {
        if ips[i].is_loopback() {
            return true;
        }
        i = i + 1;
    }
    false
}

/// Whether a credential's bootstrap addresses include a loopback address.
pub fn credential_targets_loopback(target_ips: &Option<Vec<IpAddress>>) -> (r: bool)
    ensures
        r == targets_loopback(*target_ips),
{
    match target_ips {
        None => false,
        Some(ips) => any_loopback(ips),
    }
}

/// An assignment after loopback scoping: one that applies to every address
/// and whose credential targets loopback is limited to the loopback interface.
pub open spec fn scoped_assignment(a: CredentialAssignment, loopback_cred: bool, loopback_id: Uuid) -> (Uuid, Option<Seq<Uuid>>) {
    if a.ip_address_ids is None && loopback_cred {
        (a.credential_id, Some(seq![loopback_id]))
    } else {
        assignment_view(a)
    }
}

/// Limit a host's unrestricted assignments of loopback-targeting credentials
/// to its loopback interface; `loopback_cred[i]` says whether the credential
/// of assignment `i` targets loopback. Returns the new assignments and whether
/// any changed.
pub fn scope_loopback_assignments(
    assignments: &Vec<CredentialAssignment>,
    loopback_cred: &Vec<bool>,
    loopback_id: Uuid,
) -> (r: (Vec<CredentialAssignment>, bool))
    requires
        loopback_cred@.len() == assignments@.len(),
    ensures
        r.0@.len() == assignments@.len(),
        forall|i: int| 0 <= i < r.0@.len() ==> assignment_view(#[trigger] r.0@[i]) == scoped_assignment(
            assignments@[i],
            loopback_cred@[i],
            loopback_id,
        ),
        r.1 == exists|i: int| 0 <= i < assignments@.len() && (#[trigger] assignments@[i]).ip_address_ids is None && loopback_cred@[i],
{
    let mut out: Vec<CredentialAssignment> = Vec::new();
    let mut updated = false;
    let mut i: usize = 0;
    while i < assignments.len()
        invariant
            i <= assignments@.len(),
            loopback_cred@.len() == assignments@.len(),
            out@.len() == i,
            forall|k: int| 0 <= k < i ==> assignment_view(#[trigger] out@[k]) == scoped_assignment(
                assignments@[k],
                loopback_cred@[k],
                loopback_id,
            ),
            updated == exists|k: int| 0 <= k < i && (#[trigger] assignments@[k]).ip_address_ids is None && loopback_cred@[k],
        decreases assignments@.len() - i,
    {
        let a = &assignments[i];
        if a.ip_address_ids.is_none() && loopback_cred[i] {
            out.push(CredentialAssignment { credential_id: a.credential_id, ip_address_ids: Some(vec![loopback_id]) });
            updated = true;
        } else {
            let ids = match &a.ip_address_ids {
                Some(v) => Some(v.clone()),
                None => None,
            };
            out.push(CredentialAssignment { credential_id: a.credential_id, ip_address_ids: ids });
        }
        i = i + 1;
    }
    (out, updated)
}

} // verus!
