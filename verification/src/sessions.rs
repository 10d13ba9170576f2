//! Bookkeeping around discovery sessions: which legacy discovery a daemon's
//! unified discovery inherits from, and the tally of a batch of discovered
//! entities.

use vstd::prelude::*;

use crate::ids::Uuid;

verus! {

// ---------------------------------------------------------------------------
// Migration of legacy discoveries
// ---------------------------------------------------------------------------

/// What kind of discovery a stored discovery configuration runs.
#[derive(Debug)]
pub enum ConfigKind {
    /// A unified discovery (nothing left to migrate).
    Unified,
    /// A network sweep, optionally limited to some subnets.
    Network { subnet_ids: Option<Vec<Uuid>> },
    /// Any other legacy discovery (self-report, Docker).
    Other,
}

/// A stored discovery configuration of a daemon, as the migration reads it.
#[derive(Debug)]
pub struct DiscoveryConfig {
    pub id: Uuid,
    pub kind: ConfigKind,
    /// Whether it runs on an enabled schedule.
    pub scheduled_enabled: bool,
    /// When it was last updated (seconds since the Unix epoch).
    pub updated_at: i64,
}

/// Whether `d` is a candidate: any discovery, or, when `only_preferred`, only
/// an enabled scheduled network sweep.
pub open spec fn candidate(d: DiscoveryConfig, only_preferred: bool) -> bool {
    !only_preferred || (d.kind is Network && d.scheduled_enabled)
}

/// `i` is the most recently updated candidate of `ds`, the last one among equals.
pub open spec fn last_latest(ds: Seq<DiscoveryConfig>, i: int, only_preferred: bool) -> bool {
    &&& 0 <= i < ds.len()
    &&& candidate(ds[i], only_preferred)
    &&& forall|j: int|
        0 <= j < ds.len() && candidate(#[trigger] ds[j], only_preferred) ==> ds[j].updated_at <= ds[i].updated_at && (j
            > i ==> ds[j].updated_at < ds[i].updated_at)
}

pub open spec fn has_candidate(ds: Seq<DiscoveryConfig>, only_preferred: bool) -> bool {
    exists|j: int| 0 <= j < ds.len() && candidate(#[trigger] ds[j], only_preferred)
}

pub open spec fn has_unified(ds: Seq<DiscoveryConfig>) -> bool {
    exists|j: int| 0 <= j < ds.len() && (#[trigger] ds[j]).kind is Unified
}

fn latest_candidate(ds: &Vec<DiscoveryConfig>, only_preferred: bool) -> (r: Option<usize>)
    ensures
        match r {
            Some(i) => last_latest(ds@, i as int, only_preferred),
            None => !has_candidate(ds@, only_preferred),
        },
{
    let mut best: Option<usize> = None;
    let mut i: usize = 0;
    while i < ds.len()
        invariant
            i <= ds@.len(),
            match best {
                Some(b) => b < i && last_latest(ds@.take(i as int), b as int, only_preferred),
                None => !has_candidate(ds@.take(i as int), only_preferred),
            },
        decreases ds@.len() - i,
    {
        let d = &ds[i];
        let eligible = !only_preferred || (matches!(d.kind, ConfigKind::Network { .. }) && d.scheduled_enabled);
        let ghost prev = ds@.take(i as int);
        let ghost next = ds@.take(i + 1);
        proof {
            assert forall|j: int| 0 <= j < i implies next[j] == prev[j] by {}
            assert(next[i as int] == ds@[i as int]);
        }
        if eligible {
            let replace = match best {
                None => true,
                Some(b) => ds[b].updated_at <= d.updated_at,
            };
            if replace {
                proof {
                    assert forall|j: int| 0 <= j < next.len() && candidate(#[trigger] next[j], only_preferred) implies next[j].updated_at
                        <= next[i as int].updated_at && (j > i ==> next[j].updated_at < next[i as int].updated_at) by {
                        if j < i {
                            assert(prev[j] == next[j]);
                        }
                    }
                }
                best = Some(i);
            } else {
                proof {
                    let b = best->0 as int;
                    assert(prev[b] == next[b]);
                    assert forall|j: int| 0 <= j < next.len() && candidate(#[trigger] next[j], only_preferred) implies next[j].updated_at
                        <= next[b].updated_at && (j > b ==> next[j].updated_at < next[b].updated_at) by {
                        if j < i {
                            assert(prev[j] == next[j]);
                        }
                    }
                }
            }
        } else {
            proof {
                match best {
                    Some(b) => {
                        assert(prev[b as int] == next[b as int]);
                        assert forall|j: int| 0 <= j < next.len() && candidate(#[trigger] next[j], only_preferred) implies next[j].updated_at
                            <= next[b as int].updated_at && (j > b ==> next[j].updated_at < next[b as int].updated_at) by {
                            if j < i {
                                assert(prev[j] == next[j]);
                            }
                        }
                    },
                    None => {
                        assert forall|j: int| 0 <= j < next.len() implies !candidate(#[trigger] next[j], only_preferred) by {
                            if j < i {
                                assert(prev[j] == next[j]);
                            }
                        }
                    },
                }
            }
        }
        i = i + 1;
    }
    proof {
        assert(ds@.take(i as int) =~= ds@);
    }
    best
}

/// The discovery a daemon's new unified discovery inherits its schedule,
/// tags and subnets from, as an index into `ds`: none when `ds` is empty or
/// already holds a unified discovery; otherwise the most recently updated
/// enabled scheduled network sweep, or failing one, the most recently updated
/// discovery (the last one among equally recent).
pub fn migration_primary(ds: &Vec<DiscoveryConfig>) -> (r: Option<usize>)
    ensures
        ds@.len() == 0 || has_unified(ds@) ==> r is None,
        !(ds@.len() == 0 || has_unified(ds@)) ==> (r matches Some(i) && last_latest(
            ds@,
            i as int,
            has_candidate(ds@, true),
        )),
{
    let mut k: usize = 0;
    while k < ds.len()
        invariant
            k <= ds@.len(),
            forall|j: int| 0 <= j < k ==> !((#[trigger] ds@[j]).kind is Unified),
        decreases ds@.len() - k,
    {
        if matches!(ds[k].kind, ConfigKind::Unified) {
            return None;
        }
        k = k + 1;
    }
    if ds.len() == 0 {
        return None;
    }
    match latest_candidate(ds, true) {
        Some(i) => Some(i),
        None => {
            let r = latest_candidate(ds, false);
            proof {
                assert(candidate(ds@[0], false));
            }
            r
        },
    }
}

/// The subnets a unified discovery inherits from its primary: a network
/// sweep's subnet limit, else none.
pub fn inherited_subnets(primary: &DiscoveryConfig) -> (r: Option<Vec<Uuid>>)
    ensures
        match primary.kind {
            ConfigKind::Network { subnet_ids } => match (r, subnet_ids) {
                (Some(a), Some(b)) => a@ == b@,
                (None, None) => true,
                _ => false,
            },
            _ => r is None,
        },
{
    match &primary.kind {
        ConfigKind::Network { subnet_ids } => match subnet_ids {
            Some(v) => Some(v.clone()),
            None => None,
        },
        _ => None,
    }
}

// ---------------------------------------------------------------------------
// A batch of discovered entities
// ---------------------------------------------------------------------------

/// Whether `pat` occurs in `s`.
pub open spec fn occurs_in(pat: Seq<char>, s: Seq<char>) -> bool {
    exists|i: int| 0 <= i && i + pat.len() <= s.len() && #[trigger] s.subrange(i, i + pat.len()) == pat
}

/// Whether `pat` occurs in `s`.
pub fn contains_text(s: &str, pat: &str) -> (r: bool)
    ensures
        r == occurs_in(pat@, s@),
{
    let n = s.unicode_len();
    let m = pat.unicode_len();
    if m > n {
        proof {
            assert forall|i: int| 0 <= i && i + pat@.len() <= s@.len() implies #[trigger] s@.subrange(i, i + pat@.len()) != pat@ by {}
        }
        return false;
    }
    let mut i: usize = 0;
    while i <= n - m
        invariant
            m <= n,
            n == s@.len(),
            m == pat@.len(),
            i <= n - m + 1,
            forall|k: int| 0 <= k < i ==> #[trigger] s@.subrange(k, k + m) != pat@,
        decreases n - m + 1 - i,
    {
        let mut j: usize = 0;
        let mut same = true;
        while j < m
            invariant
                m <= n,
                i <= n - m,
                n == s@.len(),
                m == pat@.len(),
                j <= m,
                same <==> forall|t: int| 0 <= t < j ==> s@[i + t] == pat@[t],
            decreases m - j,
        {
            if s.get_char(i + j) != pat.get_char(j) {
                same = false;
            }
            j = j + 1;
        }
        if same {
            proof {
                assert(s@.subrange(i as int, i + m) =~= pat@);
            }
            return true;
        }
        proof {
            let t = choose|t: int| 0 <= t < m && s@[i + t] != pat@[t];
            assert(s@.subrange(i as int, i + m)[t] != pat@[t]);
        }
        i = i + 1;
    }
    false
}

/// The error text by which a refused host is recognised as over the plan's host limit.
pub open spec fn host_limit_marker() -> Seq<char> {
    "Host limit reached"@
}

/// What a batch of discovered entities came to.
#[derive(Debug)]
pub struct EntityBatchTally {
    pub hosts_created: usize,
    pub host_failures: usize,
    pub subnets_created: usize,
    pub subnet_failures: usize,
    /// The first host failure's message, for a caller that submitted one host.
    pub first_host_error: Option<String>,
    /// The plan limit and organization, once a host was refused over the limit.
    pub billing_limit_hit: Option<(u64, Uuid)>,
}

impl EntityBatchTally {
    /// A batch before any entity was processed.
    pub fn new() -> (r: EntityBatchTally)
        ensures
            r.hosts_created == 0 && r.host_failures == 0 && r.subnets_created == 0 && r.subnet_failures == 0,
            r.first_host_error is None && r.billing_limit_hit is None,
    {
        EntityBatchTally {
            hosts_created: 0,
            host_failures: 0,
            subnets_created: 0,
            subnet_failures: 0,
            first_host_error: None,
            billing_limit_hit: None,
        }
    }

    /// Count a host that was created.
    pub fn host_created(&mut self)
        requires
            old(self).hosts_created < usize::MAX,
        ensures
            final(self).hosts_created == old(self).hosts_created + 1,
            final(self).host_failures == old(self).host_failures,
            final(self).subnets_created == old(self).subnets_created,
            final(self).subnet_failures == old(self).subnet_failures,
            final(self).first_host_error == old(self).first_host_error,
            final(self).billing_limit_hit == old(self).billing_limit_hit,
    {
        self.hosts_created = self.hosts_created + 1;
    }

    /// Count a host that was refused with `error`. The first failure's message
    /// is kept; the first refusal over the plan's host limit (when the plan has
    /// one, `limit`) records it. Returns whether this refusal is that first
    /// one, so the limit is reported once.
    pub fn host_failed(&mut self, error: &str, limit: Option<(u64, Uuid)>) -> (r: bool)
        requires
            old(self).host_failures < usize::MAX,
        ensures
            r == (old(self).billing_limit_hit is None && occurs_in(host_limit_marker(), error@) && limit is Some),
            final(self).billing_limit_hit == (if r {
                limit
            } else {
                old(self).billing_limit_hit
            }),
            final(self).host_failures == old(self).host_failures + 1,
            old(self).first_host_error is Some ==> final(self).first_host_error == old(self).first_host_error,
            old(self).first_host_error is None ==> (final(self).first_host_error matches Some(e) && e@ == error@),
            final(self).hosts_created == old(self).hosts_created,
            final(self).subnets_created == old(self).subnets_created,
            final(self).subnet_failures == old(self).subnet_failures,
    {
        self.host_failures = self.host_failures + 1;
        if self.first_host_error.is_none() {
            self.first_host_error = Some(String::from_str(error));
        }
        let first_over_limit = self.billing_limit_hit.is_none() && contains_text(error, "Host limit reached")
            && limit.is_some();
        if first_over_limit {
            self.billing_limit_hit = limit;
        }
        first_over_limit
    }

    /// Count a subnet that was created.
    pub fn subnet_created(&mut self)
        requires
            old(self).subnets_created < usize::MAX,
        ensures
            final(self).subnets_created == old(self).subnets_created + 1,
            final(self).subnet_failures == old(self).subnet_failures,
            final(self).hosts_created == old(self).hosts_created,
            final(self).host_failures == old(self).host_failures,
            final(self).first_host_error == old(self).first_host_error,
            final(self).billing_limit_hit == old(self).billing_limit_hit,
    {
        self.subnets_created = self.subnets_created + 1;
    }

    /// Count a subnet that was refused.
    pub fn subnet_failed(&mut self)
        requires
            old(self).subnet_failures < usize::MAX,
        ensures
            final(self).subnet_failures == old(self).subnet_failures + 1,
            final(self).subnets_created == old(self).subnets_created,
            final(self).hosts_created == old(self).hosts_created,
            final(self).host_failures == old(self).host_failures,
            final(self).first_host_error == old(self).first_host_error,
            final(self).billing_limit_hit == old(self).billing_limit_hit,
    {
        self.subnet_failures = self.subnet_failures + 1;
    }

    /// Whether the batch had failures worth a summary line.
    pub fn had_failures(&self) -> (r: bool)
        ensures
            r == (self.host_failures > 0 || self.subnet_failures > 0),
    {
        self.host_failures > 0 || self.subnet_failures > 0
    }
}

} // verus!
