//! Daemon records and the server's rules for them: request retries, standby
//! grace, what a status heartbeat, a startup announcement and a user edit may
//! change, and the version gate on credential targets.

use vstd::prelude::*;

use crate::ids::Uuid;
use crate::kinds::CredentialKind;
use crate::time::{SECONDS_PER_DAY, valid_timestamp};
use crate::version::{
    DaemonVersionPolicy, DeprecationWarning, Release, Version, below, duplicate_opt_spec, reaches,
    release_text, unified_discovery_floor, version_text,
};

verus! {

// ---------------------------------------------------------------------------
// Requests to daemons
// ---------------------------------------------------------------------------

/// Consecutive failed attempts after which a polled daemon counts as unreachable.
pub const UNREACHABLE_THRESHOLD: usize = 5;

/// Why a request to a daemon failed.
#[derive(Debug)]
pub enum DaemonRequestError {
    /// The daemon answered with a non-success HTTP status.
    Http { op: String, status: u16 },
    /// The request failed otherwise (transport, decoding, an error reply).
    Other { message: String },
}

/// Whether a failed daemon request is worth retrying: anything but a client
/// error (4xx), which a retry cannot fix.
pub fn should_retry_daemon_http_error(e: &DaemonRequestError) -> (r: bool)
    ensures
        r == !(*e matches DaemonRequestError::Http { status, .. } && 400 <= status <= 499),
{
    match e {
        DaemonRequestError::Http { status, .. } => !(400 <= *status && *status <= 499),
        DaemonRequestError::Other { .. } => true,
    }
}

/// How long a daemon request keeps retrying before it gives up.
#[derive(Clone, Copy, Debug, PartialEq, Eq, Structural)]
pub enum RetryPolicy {
    /// Five retries backing off from 5s to 30s: rides out a daemon restart.
    Standard,
    /// One retry after 2s, each attempt limited to 5s: for requests someone waits on.
    Brief,
}

/// An exponential backoff ladder: the first and longest delay between
/// attempts, in seconds, and how many retries there are.
#[derive(Clone, Copy, Debug, PartialEq, Eq, Structural)]
pub struct BackoffPlan {
    pub min_delay_secs: u64,
    pub max_delay_secs: u64,
    pub max_times: usize,
}

impl RetryPolicy {
    pub open spec fn plan(self) -> BackoffPlan {
        match self {
            RetryPolicy::Standard => BackoffPlan { min_delay_secs: 5, max_delay_secs: 30, max_times: UNREACHABLE_THRESHOLD },
            RetryPolicy::Brief => BackoffPlan { min_delay_secs: 2, max_delay_secs: 2, max_times: 1 },
        }
    }

    /// The backoff ladder of this policy.
    pub fn backoff(self) -> (r: BackoffPlan)
        ensures
            r == self.plan(),
    {
        match self {
            RetryPolicy::Standard => BackoffPlan { min_delay_secs: 5, max_delay_secs: 30, max_times: UNREACHABLE_THRESHOLD },
            RetryPolicy::Brief => BackoffPlan { min_delay_secs: 2, max_delay_secs: 2, max_times: 1 },
        }
    }

    /// A per-attempt time limit in seconds, for policies that need one tighter
    /// than the client's own.
    pub fn attempt_timeout(self) -> (r: Option<u64>)
        ensures
            r == (match self {
                RetryPolicy::Standard => None,
                RetryPolicy::Brief => Some(5u64),
            }),
    {
        match self {
            RetryPolicy::Standard => None,
            RetryPolicy::Brief => Some(5),
        }
    }
}

/// backon's exponential backoff builder, carried as an opaque value.
#[verifier::external_type_specification]
#[verifier::external_body]
pub struct ExExponentialBuilder(backon::ExponentialBuilder);

/// The backoff builder made from backon's default with the given first delay,
/// longest delay (in seconds) and number of retries.
pub uninterp spec fn exponential_backoff(min_delay_secs: u64, max_delay_secs: u64, max_times: usize) -> backon::ExponentialBuilder;

/// `ExponentialBuilder::default().with_min_delay(..).with_max_delay(..).with_max_times(..)`.
/// backon's builder is a plain value set from these arguments (and its fixed
/// defaults), so the result is named by `exponential_backoff`; nothing else is
/// claimed of it.
#[verifier::external_body]
fn build_exponential_backoff(min_delay_secs: u64, max_delay_secs: u64, max_times: usize) -> (r: backon::ExponentialBuilder)
    ensures
        r == exponential_backoff(min_delay_secs, max_delay_secs, max_times),
{
    backon::ExponentialBuilder::default()
        .with_min_delay(std::time::Duration::from_secs(min_delay_secs))
        .with_max_delay(std::time::Duration::from_secs(max_delay_secs))
        .with_max_times(max_times)
}

impl RetryPolicy {
    /// The backoff builder a retrying request uses under this policy.
    pub fn backoff_builder(self) -> (r: backon::ExponentialBuilder)
        ensures
            r == exponential_backoff(self.plan().min_delay_secs, self.plan().max_delay_secs, self.plan().max_times),
    {
        let p = self.backoff();
        build_exponential_backoff(p.min_delay_secs, p.max_delay_secs, p.max_times)
    }
}

// ---------------------------------------------------------------------------
// Standby
// ---------------------------------------------------------------------------

/// Days after leaving standby during which the inactivity check leaves a daemon alone.
pub const STANDBY_GRACE_PERIOD_DAYS: i64 = 30;

/// Whether a daemon whose standby was cleared at `cleared_at` is still inside
/// its grace window at `now`: cleared strictly after `now` minus the grace period.
pub fn is_within_standby_grace(cleared_at: Option<i64>, now: i64) -> (r: bool)
    requires
        valid_timestamp(now),
    ensures
        r == (cleared_at matches Some(t) && t > now - STANDBY_GRACE_PERIOD_DAYS * SECONDS_PER_DAY),
{
    match cleared_at {
        Some(t) => t > now - STANDBY_GRACE_PERIOD_DAYS * SECONDS_PER_DAY,
        None => false,
    }
}

// ---------------------------------------------------------------------------
// Daemon records
// ---------------------------------------------------------------------------

/// Which side initiates contact.
#[derive(Clone, Copy, Debug, PartialEq, Eq, Structural)]
pub enum DaemonMode {
    /// The daemon dials the server; the server never dials it.
    DaemonPoll,
    /// The server dials the daemon at its URL.
    ServerPoll,
}

/// A daemon as the server stores it.
#[derive(Debug)]
pub struct DaemonRecord {
    pub id: Uuid,
    pub host_id: Uuid,
    pub network_id: Uuid,
    pub url: String,
    /// When the daemon was last heard from (seconds since the Unix epoch).
    pub last_seen: Option<i64>,
    pub mode: DaemonMode,
    pub name: String,
    pub tags: Vec<Uuid>,
    pub version: Option<Version>,
    pub user_id: Uuid,
    /// The daemon's own API key, for a provisioned daemon.
    pub api_key_id: Option<Uuid>,
    pub is_unreachable: bool,
    pub standby: bool,
    pub standby_cleared_at: Option<i64>,
}

/// Where the subnets a daemon is attached to come from in a heartbeat.
#[derive(Clone, Copy, Debug, PartialEq, Eq, Structural)]
pub enum SubnetSource {
    /// Full subnet objects, created or matched by CIDR.
    ResolveReported,
    /// Bare legacy ids, kept only where the subnet exists.
    FilterLegacyIds,
}

impl DaemonRecord {
    /// Whether this daemon is provisioned: bound to its own API key, so its
    /// name and mode are set by the server.
    pub open spec fn provisioned(self) -> bool {
        self.api_key_id is Some
    }

    /// Record a status heartbeat at `now`: the daemon was seen; an unprovisioned
    /// daemon's name and mode follow the report; a reported version replaces the
    /// stored one. Returns where the daemon's subnets are taken from: resolved
    /// from the report for a daemon that supports unified discovery, otherwise
    /// its legacy ids.
    pub fn apply_status(&mut self, name: String, mode: DaemonMode, version: Option<Version>, now: i64) -> (r: SubnetSource)
        ensures
            final(self).last_seen == Some(now),
            old(self).provisioned() ==> final(self).name == old(self).name && final(self).mode == old(self).mode,
            !old(self).provisioned() ==> final(self).name == name && final(self).mode == mode,
            final(self).version == (match version {
                Some(v) => Some(v),
                None => old(self).version,
            }),
            final(self).id == old(self).id && final(self).host_id == old(self).host_id && final(self).network_id
                == old(self).network_id && final(self).url == old(self).url && final(self).tags == old(self).tags
                && final(self).user_id == old(self).user_id && final(self).api_key_id == old(self).api_key_id
                && final(self).is_unreachable == old(self).is_unreachable && final(self).standby == old(self).standby
                && final(self).standby_cleared_at == old(self).standby_cleared_at,
            r == (if reaches(final(self).version, unified_discovery_floor()) {
                SubnetSource::ResolveReported
            } else {
                SubnetSource::FilterLegacyIds
            }),
    {
        self.last_seen = Some(now);
        if self.api_key_id.is_none() {
            self.name = name;
            self.mode = mode;
        }
        if let Some(v) = version {
            self.version = Some(v);
        }
        if crate::version::supports_unified_discovery(self.version.as_ref()) {
            SubnetSource::ResolveReported
        } else {
            SubnetSource::FilterLegacyIds
        }
    }

    /// Record a startup announcement of `version` at `now`: the version and
    /// last contact are updated, and a daemon on standby leaves it with its
    /// grace period starting now. Returns whether the daemon just became able to
    /// run unified discovery, so its legacy discoveries must be migrated.
    pub fn apply_startup(&mut self, version: Version, now: i64) -> (r: bool)
        ensures
            r == (!reaches(old(self).version, unified_discovery_floor()) && reaches(Some(version), unified_discovery_floor())),
            final(self).version == Some(version),
            final(self).last_seen == Some(now),
            final(self).standby == false,
            final(self).standby_cleared_at == (if old(self).standby {
                Some(now)
            } else {
                old(self).standby_cleared_at
            }),
            final(self).id == old(self).id && final(self).host_id == old(self).host_id && final(self).network_id
                == old(self).network_id && final(self).url == old(self).url && final(self).name == old(self).name
                && final(self).mode == old(self).mode && final(self).tags == old(self).tags && final(self).user_id
                == old(self).user_id && final(self).api_key_id == old(self).api_key_id && final(self).is_unreachable
                == old(self).is_unreachable,
    {
        let was_pre_unified = !crate::version::supports_unified_discovery(self.version.as_ref());
        let now_unified = crate::version::supports_unified_discovery(Some(&version));
        self.version = Some(version);
        self.last_seen = Some(now);
        if self.standby {
            self.standby = false;
            self.standby_cleared_at = Some(now);
        }
        was_pre_unified && now_unified
    }

    /// Keep the fields a user edit may not change: network, mode, host, key
    /// binding, version, last contact and standby state all stay as in `existing`.
    pub fn preserve_immutable_fields(&mut self, existing: &DaemonRecord)
        ensures
            final(self).network_id == existing.network_id,
            final(self).mode == existing.mode,
            final(self).host_id == existing.host_id,
            final(self).api_key_id == existing.api_key_id,
            final(self).version == existing.version,
            final(self).last_seen == existing.last_seen,
            final(self).standby == existing.standby,
            final(self).standby_cleared_at == existing.standby_cleared_at,
            final(self).id == old(self).id,
            final(self).url == old(self).url,
            final(self).name == old(self).name,
            final(self).tags == old(self).tags,
            final(self).user_id == old(self).user_id,
            final(self).is_unreachable == old(self).is_unreachable,
    {
        self.network_id = existing.network_id;
        self.mode = existing.mode;
        self.host_id = existing.host_id;
        self.api_key_id = existing.api_key_id;
        self.version = crate::version::duplicate_opt(existing.version.as_ref());
        self.last_seen = existing.last_seen;
        self.standby = existing.standby;
        self.standby_cleared_at = existing.standby_cleared_at;
    }
}

/// A user edit may change a daemon's URL only when the server dials it.
pub fn url_edit_allowed(existing_mode: DaemonMode, existing_url: &String, requested_url: &String) -> (r: bool)
    ensures
        r == !(existing_mode == DaemonMode::DaemonPoll && requested_url@ != existing_url@),
{
    !(existing_mode == DaemonMode::DaemonPoll && !crate::text::same_text(requested_url.as_str(), existing_url.as_str()))
}

// ---------------------------------------------------------------------------
// Version gates
// ---------------------------------------------------------------------------

/// What the server tells a daemon about its version support.
#[derive(Debug)]
pub struct ServerCapabilities {
    pub server_version: Release,
    pub minimum_daemon_version: Release,
    pub deprecation_warnings: Vec<DeprecationWarning>,
}

/// A daemon refused for running a version below the supported floor, with
/// both versions as text.
#[derive(Debug)]
pub struct VersionTooOld {
    pub version: String,
    pub minimum: String,
}

/// Refuse a daemon version below the policy's supported floor.
pub fn check_daemon_version(version: &Version, policy: &DaemonVersionPolicy) -> (r: Result<(), VersionTooOld>)
    ensures
        r is Err <==> below(*version, policy.minimum_supported),
        r matches Err(e) ==> e.version@ == version_text(*version) && e.minimum@ == release_text(policy.minimum_supported),
{
    if version.is_below(&policy.minimum_supported) {
        Err(VersionTooOld { version: version.text(), minimum: policy.minimum_supported.text() })
    } else {
        Ok(())
    }
}

/// What the server tells a daemon at `version` about its support: the
/// server's own version, the supported floor, and the deprecation warnings
/// that apply.
pub fn server_capabilities(policy: &DaemonVersionPolicy, version: &Version) -> (r: ServerCapabilities)
    requires
        policy.well_formed(),
    ensures
        r.server_version == policy.latest,
        r.minimum_daemon_version == policy.minimum_supported,
        r.deprecation_warnings@.len() == (if policy.lifecycle_of(Some(*version)).warning is Some {
            1int
        } else {
            0int
        }),
        policy.lifecycle_of(Some(*version)).warning matches Some(w) ==> r.deprecation_warnings@[0].view() == w,
{
    let status = policy.evaluate(Some(version));
    ServerCapabilities {
        server_version: policy.latest,
        minimum_daemon_version: policy.minimum_supported,
        deprecation_warnings: status.warnings,
    }
}

/// The message refusing a credential type too new for a daemon.
pub open spec fn too_new_message(k: CredentialKind, v: Option<Version>) -> Seq<char> {
    "Credential type \""@ + k.display_name_of() + "\" requires daemon version "@ + release_text(k.floor())
        + " or newer, but this daemon is on "@ + match v {
        Some(x) => version_text(x),
        None => "an unknown version"@,
    } + "."@
}

/// The first of `kinds` a daemon at `v` cannot receive, if any.
pub open spec fn first_incompatible(kinds: Seq<CredentialKind>, v: Option<Version>) -> Option<CredentialKind>
    decreases kinds.len(),
{
    if kinds.len() == 0 {
        None
    } else {
        let r = first_incompatible(kinds.drop_last(), v);
        if r is Some {
            r
        } else if !kinds.last().compatible(v) {
            Some(kinds.last())
        } else {
            None
        }
    }
}

/// Refuse credential targets whose type a daemon at `version` cannot
/// receive: the first such type, in order, is named in the message.
pub fn check_target_versions(kinds: &Vec<CredentialKind>, version: Option<&Version>) -> (r: Result<(), String>)
    ensures
        match (r, first_incompatible(kinds@, duplicate_opt_spec(version))) {
            (Ok(_), None) => true,
            (Err(m), Some(k)) => m@ == too_new_message(k, duplicate_opt_spec(version)),
            _ => false,
        },
{
    let mut i: usize = 0;
    while i < kinds.len()
        invariant
            i <= kinds@.len(),
            first_incompatible(kinds@.take(i as int), duplicate_opt_spec(version)) is None,
        decreases kinds@.len() - i,
    {
        proof {
            assert(kinds@.take(i + 1).drop_last() =~= kinds@.take(i as int));
            assert(kinds@.take(i + 1).last() == kinds@[i as int]);
        }
        let k = kinds[i];
        if !k.compatible_with_daemon(version) {
            proof {
                lemma_first_incompatible_stable(kinds@, i + 1, duplicate_opt_spec(version));
            }
            let mut m = crate::text::join3("Credential type \"", k.display_name(), "\" requires daemon version ");
            m.append(k.minimum_daemon_version().text().as_str());
            m.append(" or newer, but this daemon is on ");
            match version {
                Some(v) => m.append(v.text().as_str()),
                None => m.append("an unknown version"),
            }
            m.append(".");
            return Err(m);
        }
        i = i + 1;
    }
    proof {
        assert(kinds@.take(i as int) =~= kinds@);
    }
    Ok(())
}

proof fn lemma_first_incompatible_stable(kinds: Seq<CredentialKind>, k: int, v: Option<Version>)
    requires
        0 <= k <= kinds.len(),
        first_incompatible(kinds.take(k), v) is Some,
    ensures
        first_incompatible(kinds, v) == first_incompatible(kinds.take(k), v),
    decreases kinds.len() - k,
{
    if k < kinds.len() {
        assert(kinds.take(k + 1).drop_last() =~= kinds.take(k));
        lemma_first_incompatible_stable(kinds, k + 1, v);
    } else {
        assert(kinds.take(k) =~= kinds);
    }
}

// ---------------------------------------------------------------------------
// Registration
// ---------------------------------------------------------------------------

/// Why a registration is refused.
#[derive(Debug)]
pub enum RegistrationRejection {
    /// Demo organizations cannot register daemons.
    DemoModeBlocked,
    /// The daemon runs a version below the supported floor.
    VersionTooOld(VersionTooOld),
    /// A daemon that supports server-provisioned identity registered without a
    /// provisioned record.
    NotProvisioned,
    /// A credential target's type is too new for the daemon.
    TargetTooNew(String),
}

/// The network a registration is for: the one the daemon's key is bound to,
/// else the one the request names.
pub fn registration_network(key_network_ids: &Vec<Uuid>, requested: Uuid) -> (r: Uuid)
    ensures
        r == (if key_network_ids@.len() > 0 {
            key_network_ids@[0]
        } else {
            requested
        }),
{
    if key_network_ids.len() > 0 {
        key_network_ids[0]
    } else {
        requested
    }
}

/// The daemon a registration is for: the one the key identifies, else the
/// one the request names.
pub fn registration_daemon_id(key_daemon: Option<Uuid>, requested: Uuid) -> (r: Uuid)
    ensures
        r == (match key_daemon {
            Some(d) => d,
            None => requested,
        }),
{
    match key_daemon {
        Some(d) => d,
        None => requested,
    }
}

/// The version a registration reports, when semver accepts its text.
pub open spec fn reported_version(text: Option<Seq<char>>, v: Option<Version>) -> bool {
    match text {
        None => v is None,
        Some(t) => match v {
            Some(x) => crate::version::parsed_version(t, x),
            None => crate::version::semver_parse(t) is None,
        },
    }
}

/// The first gates of a registration: demo organizations are refused, then
/// a parsable reported version below the supported floor. Returns the parsed
/// version (`None` when none was reported or it does not parse).
pub fn registration_gate(plan_is_demo: bool, reported: Option<&str>, policy: &DaemonVersionPolicy) -> (r: Result<Option<Version>, RegistrationRejection>)
    ensures
        plan_is_demo ==> r matches Err(RegistrationRejection::DemoModeBlocked),
        !plan_is_demo ==> match r {
            Ok(v) => reported_version(
                match reported {
                    Some(t) => Some(t@),
                    None => None,
                },
                v,
            ) && (v matches Some(x) ==> !below(x, policy.minimum_supported)),
            Err(RegistrationRejection::VersionTooOld(e)) => exists|x: Version|
                reported_version(
                    match reported {
                        Some(t) => Some(t@),
                        None => None,
                    },
                    Some(x),
                ) && below(x, policy.minimum_supported) && e.version@ == version_text(x) && e.minimum@ == release_text(
                    policy.minimum_supported,
                ),
            _ => false,
        },
{
    if plan_is_demo {
        return Err(RegistrationRejection::DemoModeBlocked);
    }
    let version = match reported {
        Some(t) => Version::parse(t),
        None => None,
    };
    match version {
        Some(v) => match check_daemon_version(&v, policy) {
            Ok(_) => Ok(Some(v)),
            Err(e) => Err(RegistrationRejection::VersionTooOld(e)),
        },
        None => Ok(None),
    }
}

/// A daemon without a record may register itself only when it predates
/// server-provisioned identity; a newer one must have been provisioned.
pub fn check_self_registration(version: Option<&Version>) -> (r: Result<(), RegistrationRejection>)
    ensures
        r is Ok <==> !reaches(duplicate_opt_spec(version), crate::version::provisioned_identity_floor()),
        r matches Err(e) ==> e is NotProvisioned,
{
    if crate::version::supports_server_provisioned_identity(version) {
        Err(RegistrationRejection::NotProvisioned)
    } else {
        Ok(())
    }
}

/// A registration that passed the first gates: the daemon it is for and the
/// version it reported, parsed.
#[derive(Debug)]
pub struct RegistrationAdmission {
    pub daemon_id: Uuid,
    pub version: Option<Version>,
}

/// The first step of a registration, taken before any record is read or
/// changed: a demo organization is refused; then a parsable reported version
/// below the supported floor is refused; otherwise the daemon is the one the
/// key identifies (else the one the request names), with its parsed version.
pub fn admit_registration(
    plan_is_demo: bool,
    reported: Option<&str>,
    policy: &DaemonVersionPolicy,
    key_daemon: Option<Uuid>,
    requested_daemon: Uuid,
) -> (r: Result<RegistrationAdmission, RegistrationRejection>)
    ensures
        plan_is_demo ==> r matches Err(RegistrationRejection::DemoModeBlocked),
        !plan_is_demo ==> match r {
            Ok(a) => a.daemon_id == (match key_daemon {
                Some(d) => d,
                None => requested_daemon,
            }) && reported_version(
                match reported {
                    Some(t) => Some(t@),
                    None => None,
                },
                a.version,
            ) && (a.version matches Some(x) ==> !below(x, policy.minimum_supported)),
            Err(RegistrationRejection::VersionTooOld(e)) => exists|x: Version|
                reported_version(
                    match reported {
                        Some(t) => Some(t@),
                        None => None,
                    },
                    Some(x),
                ) && below(x, policy.minimum_supported) && e.version@ == version_text(x) && e.minimum@ == release_text(
                    policy.minimum_supported,
                ),
            _ => false,
        },
{
    match registration_gate(plan_is_demo, reported, policy) {
        Err(e) => Err(e),
        Ok(version) => Ok(RegistrationAdmission { daemon_id: registration_daemon_id(key_daemon, requested_daemon), version }),
    }
}

/// Which way an admitted registration continues.
#[derive(Clone, Copy, Debug, PartialEq, Eq, Structural)]
pub enum RegistrationPath {
    /// The daemon's record exists: it is updated in place.
    Reregister,
    /// A legacy daemon without a record registers itself.
    SelfRegister,
}

/// The second step of a registration, once the admitted daemon's record has
/// been looked up: an existing record is re-registered, whatever the version;
/// without one, only a daemon predating server-provisioned identity may
/// register itself, and a newer one is refused as not provisioned.
pub fn registration_path(existing: bool, version: Option<&Version>) -> (r: Result<RegistrationPath, RegistrationRejection>)
    ensures
        existing ==> r matches Ok(RegistrationPath::Reregister),
        !existing ==> (r matches Ok(RegistrationPath::SelfRegister) <==> !reaches(
            duplicate_opt_spec(version),
            crate::version::provisioned_identity_floor(),
        )),
        !existing ==> (r matches Ok(RegistrationPath::SelfRegister) || r matches Err(RegistrationRejection::NotProvisioned)),
{
    if existing {
        return Ok(RegistrationPath::Reregister);
    }
    match check_self_registration(version) {
        Ok(_) => Ok(RegistrationPath::SelfRegister),
        Err(e) => Err(e),
    }
}

/// The user a new daemon belongs to: the requesting user, or for an old
/// daemon that sends none (nil), the organization's first owner if it has one.
pub fn registration_user(requested: Uuid, first_owner: Option<Uuid>) -> (r: Uuid)
    ensures
        r == (if requested.nil_spec() {
            match first_owner {
                Some(o) => o,
                None => requested,
            }
        } else {
            requested
        }),
{
    if requested.is_nil() {
        match first_owner {
            Some(o) => o,
            None => requested,
        }
    } else {
        requested
    }
}

impl DaemonRecord {
    /// Record a re-registration at `now`: the daemon was seen and is off
    /// standby; an unprovisioned daemon's name and mode follow the request; a
    /// reported version replaces the stored one. Returns whether the daemon
    /// just became able to run unified discovery.
    pub fn apply_reregistration(&mut self, name: String, mode: DaemonMode, version: Option<Version>, now: i64) -> (r: bool)
        ensures
            final(self).last_seen == Some(now),
            final(self).standby == false,
            old(self).provisioned() ==> final(self).name == old(self).name && final(self).mode == old(self).mode,
            !old(self).provisioned() ==> final(self).name == name && final(self).mode == mode,
            final(self).version == (match version {
                Some(v) => Some(v),
                None => old(self).version,
            }),
            r == (!reaches(old(self).version, unified_discovery_floor()) && reaches(final(self).version, unified_discovery_floor())),
            final(self).id == old(self).id && final(self).host_id == old(self).host_id && final(self).network_id
                == old(self).network_id && final(self).url == old(self).url && final(self).tags == old(self).tags
                && final(self).user_id == old(self).user_id && final(self).api_key_id == old(self).api_key_id
                && final(self).is_unreachable == old(self).is_unreachable && final(self).standby_cleared_at
                == old(self).standby_cleared_at,
    {
        self.last_seen = Some(now);
        if self.api_key_id.is_none() {
            self.mode = mode;
            self.name = name;
        }
        self.standby = false;
        let was_pre_unified = !crate::version::supports_unified_discovery(self.version.as_ref());
        if let Some(v) = version {
            self.version = Some(v);
        }
        was_pre_unified && crate::version::supports_unified_discovery(self.version.as_ref())
    }

    /// The record of a daemon registering itself for the first time at `now`:
    /// no URL (the server never dials a self-registered daemon), seen now, not
    /// provisioned, reachable, not on standby.
    pub fn self_registered(
        id: Uuid,
        host_id: Uuid,
        network_id: Uuid,
        mode: DaemonMode,
        name: String,
        version: Option<Version>,
        user_id: Uuid,
        now: i64,
    ) -> (r: DaemonRecord)
        ensures
            r.id == id && r.host_id == host_id && r.network_id == network_id && r.mode == mode && r.name == name
                && r.version == version && r.user_id == user_id,
            r.url@.len() == 0,
            r.last_seen == Some(now),
            r.tags@.len() == 0,
            r.api_key_id is None,
            !r.is_unreachable && !r.standby && r.standby_cleared_at is None,
    {
        DaemonRecord {
            id,
            host_id,
            network_id,
            url: String::new(),
            last_seen: Some(now),
            mode,
            name,
            tags: Vec::new(),
            version,
            user_id,
            api_key_id: None,
            is_unreachable: false,
            standby: false,
            standby_cleared_at: None,
        }
    }
}

/// Two versions with the same numbers, pre-release and build metadata.
pub open spec fn same_version(a: Version, b: Version) -> bool {
    a.release_part() == b.release_part() && a.pre@ == b.pre@ && a.build@ == b.build@
}

/// Whether a status reports a version other than the stored one.
pub fn reports_new_version(known: Option<&Version>, reported: Option<&Version>) -> (r: bool)
    ensures
        r == (reported matches Some(v) && !(known matches Some(k) && same_version(*k, *v))),
{
    match reported {
        None => false,
        Some(v) => match known {
            None => true,
            Some(k) => {
                let same = k.major == v.major && k.minor == v.minor && k.patch == v.patch && crate::text::same_text(
                    k.pre.as_str(),
                    v.pre.as_str(),
                ) && crate::text::same_text(k.build.as_str(), v.build.as_str());
                !same
            },
        },
    }
}

// ---------------------------------------------------------------------------
// Provisioning
// ---------------------------------------------------------------------------

/// Why a daemon may not be re-provisioned.
#[derive(Debug)]
pub enum ReprovisionRejection {
    /// The daemon is not on one of the operator's networks.
    AccessDenied,
    /// The daemon already connected with its own key; the message says to rotate it.
    AlreadyConnected(String),
}

/// Whether an operator may re-provision `daemon`: it must be on one of the
/// operator's networks, and must not have connected yet with its own key
/// (re-keying a live daemon would cut it off; rotating is the way).
pub fn reprovision_gate(daemon: &DaemonRecord, operator_networks: &Vec<Uuid>) -> (r: Result<(), ReprovisionRejection>)
    ensures
        !operator_networks@.contains(daemon.network_id) ==> r matches Err(ReprovisionRejection::AccessDenied),
        operator_networks@.contains(daemon.network_id) && daemon.last_seen is Some && daemon.api_key_id is Some ==> (r matches Err(
            ReprovisionRejection::AlreadyConnected(m),
        ) && m@ == "This daemon is already connected with its own API key. Rotate its key instead of re-provisioning it."@),
        r is Ok <==> (operator_networks@.contains(daemon.network_id) && !(daemon.last_seen is Some && daemon.api_key_id is Some)),
{
    if !crate::ids::contains_id(operator_networks, daemon.network_id) {
        return Err(ReprovisionRejection::AccessDenied);
    }
    if daemon.last_seen.is_some() && daemon.api_key_id.is_some() {
        return Err(
            ReprovisionRejection::AlreadyConnected(
                String::from_str(
                    "This daemon is already connected with its own API key. Rotate its key instead of re-provisioning it.",
                ),
            ),
        );
    }
    Ok(())
}

/// The identity a provisioned daemon gets: network, name, mode and URL.
#[derive(Debug)]
pub struct ProvisionIdentity {
    pub network_id: Uuid,
    pub name: String,
    pub mode: DaemonMode,
    pub url: String,
}

/// The identity of a daemon being provisioned: a re-provisioned daemon keeps
/// its record's; a new one takes the request's, which must name a network and
/// a name (a missing URL is empty).
pub fn provision_identity(
    existing: Option<&DaemonRecord>,
    network_id: Option<Uuid>,
    name: &Option<String>,
    mode: DaemonMode,
    url: &Option<String>,
) -> (r: Result<ProvisionIdentity, String>)
    ensures
        match existing {
            Some(d) => r matches Ok(i) && i.network_id == d.network_id && i.name@ == d.name@ && i.mode == d.mode
                && i.url@ == d.url@,
            None => match (network_id, *name) {
                (None, _) => r matches Err(m) && m@ == "network_id is required when provisioning a new daemon"@,
                (Some(_), None) => r matches Err(m) && m@ == "name is required when provisioning a new daemon"@,
                (Some(n), Some(t)) => r matches Ok(i) && i.network_id == n && i.name@ == t@ && i.mode == mode && i.url@
                    == match *url {
                    Some(u) => u@,
                    None => Seq::<char>::empty(),
                },
            },
        },
{
    match existing {
        Some(d) => Ok(ProvisionIdentity { network_id: d.network_id, name: d.name.clone(), mode: d.mode, url: d.url.clone() }),
        None => {
            let n = match network_id {
                Some(n) => n,
                None => return Err(String::from_str("network_id is required when provisioning a new daemon")),
            };
            let t = match name {
                Some(t) => t.clone(),
                None => return Err(String::from_str("name is required when provisioning a new daemon")),
            };
            let u = match url {
                Some(u) => u.clone(),
                None => String::new(),
            };
            Ok(ProvisionIdentity { network_id: n, name: t, mode, url: u })
        },
    }
}

/// A new server-polled daemon needs a reachable URL: the server can only
/// reach it there. Re-provisioning and daemon-polled daemons need none.
pub fn check_provision_url(is_new: bool, mode: DaemonMode, url: &str) -> (r: Result<(), String>)
    ensures
        r is Err <==> (is_new && mode == DaemonMode::ServerPoll && crate::text::trimmed(url@).len() == 0),
        r matches Err(m) ==> m@ == "A reachable url is required to provision a ServerPoll daemon"@,
{
    if is_new && mode == DaemonMode::ServerPoll && crate::text::trim_text(url).is_empty() {
        Err(String::from_str("A reachable url is required to provision a ServerPoll daemon"))
    } else {
        Ok(())
    }
}

/// The display name of a provisioned daemon's key.
pub fn provisioned_key_name(name: &str) -> (r: String)
    ensures
        r@ == name@ + " API Key"@,
{
    crate::text::join2(name, " API Key")
}

/// Whether the server keeps a provisioned key's plaintext: only for a daemon
/// it dials, to present the key.
pub fn stores_key_plaintext(mode: DaemonMode) -> (r: bool)
    ensures
        r == (mode == DaemonMode::ServerPoll),
{
    mode == DaemonMode::ServerPoll
}

impl DaemonRecord {
    /// Bind a re-provisioned daemon to its new key; the provisioning member
    /// becomes its maintainer. Returns the key it was bound to before, which
    /// must be removed.
    pub fn bind_key(&mut self, key_id: Uuid, user_id: Uuid) -> (r: Option<Uuid>)
        ensures
            r == old(self).api_key_id,
            final(self).api_key_id == Some(key_id),
            final(self).user_id == user_id,
            final(self).id == old(self).id && final(self).host_id == old(self).host_id && final(self).network_id
                == old(self).network_id && final(self).url == old(self).url && final(self).name == old(self).name
                && final(self).mode == old(self).mode && final(self).tags == old(self).tags && final(self).version
                == old(self).version && final(self).last_seen == old(self).last_seen && final(self).is_unreachable
                == old(self).is_unreachable && final(self).standby == old(self).standby && final(self).standby_cleared_at
                == old(self).standby_cleared_at,
    {
        let previous = self.api_key_id;
        self.api_key_id = Some(key_id);
        self.user_id = user_id;
        previous
    }

    /// The record of a newly provisioned daemon: bound to its key, never seen,
    /// with no version until it reports one.
    pub fn new_provisioned(id: Uuid, host_id: Uuid, identity: ProvisionIdentity, user_id: Uuid, key_id: Uuid) -> (r: DaemonRecord)
        ensures
            r.id == id && r.host_id == host_id && r.network_id == identity.network_id && r.name == identity.name
                && r.mode == identity.mode && r.url == identity.url && r.user_id == user_id,
            r.api_key_id == Some(key_id),
            r.last_seen is None && r.version is None,
            r.tags@.len() == 0,
            !r.is_unreachable && !r.standby && r.standby_cleared_at is None,
    {
        DaemonRecord {
            id,
            host_id,
            network_id: identity.network_id,
            url: identity.url,
            last_seen: None,
            mode: identity.mode,
            name: identity.name,
            tags: Vec::new(),
            version: None,
            user_id,
            api_key_id: Some(key_id),
            is_unreachable: false,
            standby: false,
            standby_cleared_at: None,
        }
    }
}

/// A daemon API key as the server stores it.
#[derive(Debug)]
pub struct DaemonApiKeyRecord {
    pub id: Uuid,
    /// The hash of the key.
    pub key: String,
    pub name: String,
    /// When the key was last used (seconds since the Unix epoch).
    pub last_used: Option<i64>,
    pub expires_at: Option<i64>,
    pub network_id: Uuid,
    pub is_enabled: bool,
    pub tags: Vec<Uuid>,
    /// The daemon this key belongs to, set when it is provisioned.
    pub daemon_id: Option<Uuid>,
    /// The key itself, kept only for a daemon the server dials.
    pub plaintext: Option<String>,
}

impl DaemonApiKeyRecord {
    /// Keep what an update may not change: the key hash, its last use and its
    /// daemon binding stay as in `existing`, and a request that carries no
    /// plaintext keeps the stored one.
    pub fn preserve_immutable_fields(&mut self, existing: &DaemonApiKeyRecord)
        ensures
            final(self).key@ == existing.key@,
            final(self).last_used == existing.last_used,
            final(self).daemon_id == existing.daemon_id,
            final(self).plaintext == (match old(self).plaintext {
                Some(p) => Some(p),
                None => existing.plaintext,
            }),
            final(self).id == old(self).id,
            final(self).name == old(self).name,
            final(self).expires_at == old(self).expires_at,
            final(self).network_id == old(self).network_id,
            final(self).is_enabled == old(self).is_enabled,
            final(self).tags == old(self).tags,
    {
        self.key = existing.key.clone();
        self.last_used = existing.last_used;
        self.daemon_id = existing.daemon_id;
        if self.plaintext.is_none() {
            self.plaintext = match &existing.plaintext {
                Some(p) => Some(p.clone()),
                None => None,
            };
        }
    }
}

// ---------------------------------------------------------------------------
// Work requests and operator actions
// ---------------------------------------------------------------------------

/// Why a daemon's request for work is refused.
#[derive(Clone, Copy, Debug, PartialEq, Eq, Structural)]
pub enum WorkRequestRejection {
    /// The daemon's record is gone; it should register again.
    NotRegistered,
    /// The daemon is on standby (or predates the not-registered answer).
    Standby,
    /// The daemon belongs to another network than its key.
    AccessDenied,
}

/// Whether a daemon may be handed work: its record must exist (a daemon
/// without one is told it is unregistered, or, predating that answer, to
/// stand by), belong to its key's network, and not be on standby.
pub fn work_request_gate(daemon: Option<&DaemonRecord>, key_network: Uuid, reported: Option<&Version>) -> (r: Result<(), WorkRequestRejection>)
    ensures
        match daemon {
            None => r == Err::<(), WorkRequestRejection>(if reaches(duplicate_opt_spec(reported), unified_discovery_floor()) {
                WorkRequestRejection::NotRegistered
            } else {
                WorkRequestRejection::Standby
            }),
            Some(d) => r == (if d.network_id != key_network {
                Err(WorkRequestRejection::AccessDenied)
            } else if d.standby {
                Err(WorkRequestRejection::Standby)
            } else {
                Ok(())
            }),
        },
{
    match daemon {
        None => {
            if crate::version::supports_unified_discovery(reported) {
                Err(WorkRequestRejection::NotRegistered)
            } else {
                Err(WorkRequestRejection::Standby)
            }
        },
        Some(d) => {
            if d.network_id != key_network {
                Err(WorkRequestRejection::AccessDenied)
            } else if d.standby {
                Err(WorkRequestRejection::Standby)
            } else {
                Ok(())
            }
        },
    }
}

/// Why an operator's connection retry is refused.
#[derive(Debug)]
pub enum RetryRejection {
    /// The daemon is not on one of the operator's networks.
    AccessDenied,
    /// Only a daemon the server dials can be retried; the message says so.
    NotServerPoll(String),
}

/// An operator's request to retry a daemon's connection: refused unless the
/// daemon is on one of the operator's networks and server-polled; otherwise
/// the daemon is marked reachable. Returns whether the record changed.
pub fn retry_connection(daemon: &mut DaemonRecord, operator_networks: &Vec<Uuid>) -> (r: Result<bool, RetryRejection>)
    ensures
        !operator_networks@.contains(old(daemon).network_id) ==> (r matches Err(RetryRejection::AccessDenied)
            && *final(daemon) == *old(daemon)),
        operator_networks@.contains(old(daemon).network_id) && old(daemon).mode != DaemonMode::ServerPoll ==> (r matches Err(
            RetryRejection::NotServerPoll(m),
        ) && m@ == "Connection retry is only available for ServerPoll mode daemons"@ && *final(daemon) == *old(daemon)),
        operator_networks@.contains(old(daemon).network_id) && old(daemon).mode == DaemonMode::ServerPoll ==> (r matches Ok(
            changed,
        ) && changed == old(daemon).is_unreachable && *final(daemon) == (DaemonRecord { is_unreachable: false, ..*old(daemon) })),
{
    if !crate::ids::contains_id(operator_networks, daemon.network_id) {
        return Err(RetryRejection::AccessDenied);
    }
    if daemon.mode != DaemonMode::ServerPoll {
        return Err(RetryRejection::NotServerPoll(String::from_str("Connection retry is only available for ServerPoll mode daemons")));
    }
    if daemon.is_unreachable {
        daemon.is_unreachable = false;
        Ok(true)
    } else {
        Ok(false)
    }
}

// ---------------------------------------------------------------------------
// Cancellation delivery
// ---------------------------------------------------------------------------

/// How a discovery cancellation reached (or failed to reach) its daemon.
#[derive(Debug)]
pub enum CancelDelivery {
    /// The daemon accepted the cancellation.
    Delivered,
    /// A daemon-polled daemon picks the cancellation up on its next request.
    PulledByDaemon,
    /// It could not be sent, with why.
    Undeliverable(String),
    /// The daemon was no longer running the session.
    NotRunning,
    /// Sending failed, with the error.
    Failed(String),
}

impl CancelDelivery {
    pub open spec fn outcome_name(self) -> Seq<char> {
        match self {
            CancelDelivery::Delivered => "delivered"@,
            CancelDelivery::PulledByDaemon => "pulled_by_daemon"@,
            CancelDelivery::Undeliverable(_) => "undeliverable"@,
            CancelDelivery::NotRunning => "not_running"@,
            CancelDelivery::Failed(_) => "failed"@,
        }
    }

    /// The outcome's name, as logged.
    pub fn outcome(&self) -> (r: &'static str)
        ensures
            r@ == self.outcome_name(),
    {
        match self {
            CancelDelivery::Delivered => "delivered",
            CancelDelivery::PulledByDaemon => "pulled_by_daemon",
            CancelDelivery::Undeliverable(_) => "undeliverable",
            CancelDelivery::NotRunning => "not_running",
            CancelDelivery::Failed(_) => "failed",
        }
    }

    /// Why the cancellation did not get through, for the two outcomes that say.
    pub fn detail(&self) -> (r: Option<String>)
        ensures
            match *self {
                CancelDelivery::Undeliverable(w) => r matches Some(d) && d@ == w@,
                CancelDelivery::Failed(e) => r matches Some(d) && d@ == e@,
                _ => r is None,
            },
    {
        match self {
            CancelDelivery::Undeliverable(why) => Some(why.clone()),
            CancelDelivery::Failed(e) => Some(e.clone()),
            _ => None,
        }
    }

    /// The reason a session whose cancellation did not get through is failed
    /// with; `None` when it did get through.
    pub fn session_failure(&self) -> (r: Option<String>)
        ensures
            match *self {
                CancelDelivery::Undeliverable(w) => r matches Some(m) && m@ == "Cancellation could not reach the daemon: "@ + w@,
                CancelDelivery::Failed(e) => r matches Some(m) && m@ == "Cancellation could not reach the daemon: "@ + e@,
                _ => r is None,
            },
    {
        match self {
            CancelDelivery::Undeliverable(why) => Some(crate::text::join2("Cancellation could not reach the daemon: ", why.as_str())),
            CancelDelivery::Failed(e) => Some(crate::text::join2("Cancellation could not reach the daemon: ", e.as_str())),
            _ => None,
        }
    }
}

/// How to deliver a cancellation to `daemon`: the outcome when it is decided
/// without sending, else whether the request must carry the daemon's key.
pub fn plan_cancellation(daemon: Option<&DaemonRecord>) -> (r: Result<bool, CancelDelivery>)
    ensures
        match daemon {
            None => r matches Err(CancelDelivery::Undeliverable(w)) && w@ == "the daemon no longer exists"@,
            Some(d) => if d.mode != DaemonMode::ServerPoll {
                r matches Err(CancelDelivery::PulledByDaemon)
            } else if d.is_unreachable {
                r matches Err(CancelDelivery::Undeliverable(w)) && w@ == "the daemon is marked unreachable"@
            } else {
                r == Ok::<bool, CancelDelivery>(reaches(d.version, crate::version::full_server_poll_floor()))
            },
        },
{
    match daemon {
        None => Err(CancelDelivery::Undeliverable(String::from_str("the daemon no longer exists"))),
        Some(d) => {
            if d.mode != DaemonMode::ServerPoll {
                Err(CancelDelivery::PulledByDaemon)
            } else if d.is_unreachable {
                Err(CancelDelivery::Undeliverable(String::from_str("the daemon is marked unreachable")))
            } else {
                Ok(crate::version::supports_full_server_poll(d.version.as_ref()))
            }
        },
    }
}

/// The outcome when the daemon's key could not be loaded.
pub fn key_unusable(error: &str) -> (r: CancelDelivery)
    ensures
        r matches CancelDelivery::Undeliverable(w) && w@ == "the daemon's API key is unusable: "@ + error@,
{
    CancelDelivery::Undeliverable(crate::text::join2("the daemon's API key is unusable: ", error))
}

/// The outcome of sending the cancellation: delivered, or not running when
/// the daemon answered 409 Conflict, else failed with `error_text`.
pub fn sent_outcome(sent: &Result<(), DaemonRequestError>, error_text: String) -> (r: CancelDelivery)
    ensures
        match *sent {
            Ok(_) => r is Delivered,
            Err(DaemonRequestError::Http { status, .. }) => if status == 409 {
                r is NotRunning
            } else {
                r matches CancelDelivery::Failed(e) && e == error_text
            },
            Err(_) => r matches CancelDelivery::Failed(e) && e == error_text,
        },
{
    match sent {
        Ok(_) => CancelDelivery::Delivered,
        Err(DaemonRequestError::Http { status, .. }) => {
            if *status == 409 {
                CancelDelivery::NotRunning
            } else {
                CancelDelivery::Failed(error_text)
            }
        },
        Err(_) => CancelDelivery::Failed(error_text),
    }
}

// ---------------------------------------------------------------------------
// Inactivity and reachability
// ---------------------------------------------------------------------------

/// Days without a completed discovery after which a daemon goes on standby.
pub const INACTIVITY_DAYS: i64 = 30;

/// What the nightly inactivity check does with a daemon.
#[derive(Clone, Copy, Debug, PartialEq, Eq, Structural)]
pub enum InactivityVerdict {
    /// Still inside its grace window after leaving standby: not evaluated.
    InGrace,
    /// No discovery finished within the window: put on standby.
    Standby,
    /// A discovery finished within the window.
    Active,
}

/// Whether some finish time in `finished` is at or after `cutoff`.
pub open spec fn finished_since(finished: Seq<i64>, cutoff: int) -> bool {
    exists|i: int| 0 <= i < finished.len() && (#[trigger] finished[i]) >= cutoff
}

/// The inactivity verdict at `now` on a daemon whose standby was cleared at
/// `cleared_at` and whose historical discoveries finished at `finished`.
pub fn inactivity_verdict(cleared_at: Option<i64>, finished: &Vec<i64>, now: i64) -> (r: InactivityVerdict)
    requires
        valid_timestamp(now),
    ensures
        r == (if cleared_at matches Some(t) && t > now - STANDBY_GRACE_PERIOD_DAYS * SECONDS_PER_DAY {
            InactivityVerdict::InGrace
        } else if finished_since(finished@, now - INACTIVITY_DAYS * SECONDS_PER_DAY) {
            InactivityVerdict::Active
        } else {
            InactivityVerdict::Standby
        }),
{
    if is_within_standby_grace(cleared_at, now) {
        return InactivityVerdict::InGrace;
    }
    let cutoff = now - INACTIVITY_DAYS * SECONDS_PER_DAY;
    let mut i: usize = 0;
    while i < finished.len()
        invariant
            i <= finished@.len(),
            cutoff == now - INACTIVITY_DAYS * SECONDS_PER_DAY,
            !(cleared_at matches Some(t) && t > now - STANDBY_GRACE_PERIOD_DAYS * SECONDS_PER_DAY),
            forall|j: int| 0 <= j < i ==> (#[trigger] finished@[j]) < cutoff,
        decreases finished@.len() - i,
    {
        if finished[i] >= cutoff {
            proof {
                assert(finished@[i as int] >= cutoff);
            }
            return InactivityVerdict::Active;
        }
        i = i + 1;
    }
    InactivityVerdict::Standby
}

impl DaemonRecord {
    /// Mark this daemon unreachable. Returns whether its owners are notified:
    /// only when it had ever been seen (a daemon never seen is still being set up).
    pub fn mark_unreachable(&mut self) -> (r: bool)
        ensures
            r == old(self).last_seen is Some,
            *final(self) == (DaemonRecord { is_unreachable: true, ..*old(self) }),
    {
        self.is_unreachable = true;
        self.last_seen.is_some()
    }

    /// Put this daemon on standby.
    pub fn enter_standby(&mut self)
        ensures
            *final(self) == (DaemonRecord { standby: true, ..*old(self) }),
    {
        self.standby = true;
    }
}

// ---------------------------------------------------------------------------
// Messages from daemons
// ---------------------------------------------------------------------------

/// A legacy daemon's heartbeat.
#[derive(Debug)]
pub struct DaemonHeartbeatPayload {
    /// The URL the daemon believes it is reachable at.
    pub url: String,
    pub name: String,
    pub mode: DaemonMode,
}

/// The level a daemon logs a deprecation warning at.
#[derive(Clone, Copy, Debug, PartialEq, Eq, Structural)]
pub enum LogLevel {
    Error,
    Warn,
    Info,
}

pub open spec fn level_of(s: crate::version::DeprecationSeverity) -> LogLevel {
    match s {
        crate::version::DeprecationSeverity::Critical => LogLevel::Error,
        crate::version::DeprecationSeverity::Warning => LogLevel::Warn,
        crate::version::DeprecationSeverity::Info => LogLevel::Info,
        crate::version::DeprecationSeverity::Unknown => LogLevel::Warn,
    }
}

/// The log line of a warning: its message, then ` (sunset: DATE)` when it has one.
pub open spec fn warning_line(w: crate::version::WarningView) -> Seq<char> {
    match w.sunset_date {
        Some(d) => w.message + " (sunset: "@ + d + ")"@,
        None => w.message,
    }
}

impl ServerCapabilities {
    /// The log lines a daemon writes for the server's warnings, in order:
    /// critical ones as errors, unknown severities as warnings.
    pub fn warning_log_lines(&self) -> (r: Vec<(LogLevel, String)>)
        ensures
            r@.len() == self.deprecation_warnings@.len(),
            forall|i: int| 0 <= i < r@.len() ==> (#[trigger] r@[i]).0 == level_of(self.deprecation_warnings@[i].severity)
                && r@[i].1@ == warning_line(self.deprecation_warnings@[i].view()),
    {
        let mut out: Vec<(LogLevel, String)> = Vec::new();
        let mut i: usize = 0;
        while i < self.deprecation_warnings.len()
            invariant
                i <= self.deprecation_warnings@.len(),
                out@.len() == i,
                forall|k: int| 0 <= k < i ==> (#[trigger] out@[k]).0 == level_of(self.deprecation_warnings@[k].severity)
                    && out@[k].1@ == warning_line(self.deprecation_warnings@[k].view()),
            decreases self.deprecation_warnings@.len() - i,
        {
            let w = &self.deprecation_warnings[i];
            let text = match &w.sunset_date {
                Some(d) => {
                    let mut t = crate::text::join2(w.message.as_str(), " (sunset: ");
                    t.append(d.as_str());
                    t.append(")");
                    t
                },
                None => w.message.clone(),
            };
            let level = match w.severity {
                crate::version::DeprecationSeverity::Critical => LogLevel::Error,
                crate::version::DeprecationSeverity::Warning => LogLevel::Warn,
                crate::version::DeprecationSeverity::Info => LogLevel::Info,
                crate::version::DeprecationSeverity::Unknown => LogLevel::Warn,
            };
            out.push((level, text));
            i = i + 1;
        }
        out
    }
}

} // verus!
