//! Daemon version lifecycle: the announced sunset cutovers, the enforced support
//! floor derived from them, capability floors, and the health verdict for a
//! daemon's reported version.
//!
//! One data table drives everything: [`scheduled_sunsets`], the announced
//! cutovers, each a (floor, effective instant) pair. The enforced floor and every
//! lifecycle stage are derived from that list and the current instant.

use vstd::prelude::*;

use crate::text::{decimal, decimal_text};
use crate::time::{format_ymd, valid_timestamp, ymd_text};

verus! {

/// A release version `major.minor.patch` (no pre-release, no build metadata).
/// Every floor, cutover and server version is one.
#[derive(Clone, Copy, Debug, PartialEq, Eq, Structural, Hash)]
pub struct Release {
    pub major: u64,
    pub minor: u64,
    pub patch: u64,
}

/// Strict precedence between releases: lexicographic on (major, minor, patch).
pub open spec fn release_lt(a: Release, b: Release) -> bool {
    ||| a.major < b.major
    ||| (a.major == b.major && a.minor < b.minor)
    ||| (a.major == b.major && a.minor == b.minor && a.patch < b.patch)
}

pub open spec fn release_le(a: Release, b: Release) -> bool {
    release_lt(a, b) || a == b
}

pub open spec fn release_max(a: Release, b: Release) -> Release {
    if release_lt(a, b) {
        b
    } else {
        a
    }
}

pub open spec fn release_min(a: Release, b: Release) -> Release {
    if release_lt(b, a) {
        b
    } else {
        a
    }
}

/// `major.minor.patch` in decimal.
pub open spec fn release_text(r: Release) -> Seq<char> {
    decimal(r.major as nat) + "."@ + decimal(r.minor as nat) + "."@ + decimal(r.patch as nat)
}

impl Release {
    pub fn new(major: u64, minor: u64, patch: u64) -> (r: Release)
        ensures
            r == (Release { major, minor, patch }),
    {
        Release { major, minor, patch }
    }

    /// Whether `self` has lower precedence than `other`.
    pub fn precedes(&self, other: &Release) -> (r: bool)
        ensures
            r == release_lt(*self, *other),
    {
        self.major < other.major || (self.major == other.major && self.minor < other.minor) || (
        self.major == other.major && self.minor == other.minor && self.patch < other.patch)
    }

    /// The higher of two releases.
    pub fn max_with(self, other: Release) -> (r: Release)
        ensures
            r == release_max(self, other),
    {
        if self.precedes(&other) {
            other
        } else {
            self
        }
    }

    /// The lower of two releases.
    pub fn min_with(self, other: Release) -> (r: Release)
        ensures
            r == release_min(self, other),
    {
        if other.precedes(&self) {
            other
        } else {
            self
        }
    }

    /// `major.minor.patch`, as semver's `Display` writes a release.
    pub fn text(&self) -> (r: String)
        ensures
            r@ == release_text(*self),
    {
        let mut s = decimal_text(self.major);
        s.append(".");
        let minor = decimal_text(self.minor);
        s.append(minor.as_str());
        s.append(".");
        let patch = decimal_text(self.patch);
        s.append(patch.as_str());
        s
    }

    /// The same release as a full [`Version`].
    pub fn to_version(&self) -> (r: Version)
        ensures
            r.release_part() == *self,
            r.pre@.len() == 0,
            r.build@.len() == 0,
    {
        Version::new(self.major, self.minor, self.patch)
    }
}

/// A semantic version as a daemon reports it: `major.minor.patch`, an optional
/// pre-release (text after `-`) and optional build metadata (text after `+`);
/// each is empty when absent.
#[derive(Debug)]
pub struct Version {
    pub major: u64,
    pub minor: u64,
    pub patch: u64,
    pub pre: String,
    pub build: String,
}

/// semver's precedence of `v` against a release `r`: the numeric triple decides,
/// and on an equal triple a pre-release sorts below the release while build
/// metadata only ever sorts above it.
pub open spec fn below(v: Version, r: Release) -> bool {
    release_lt(v.release_part(), r) || (v.release_part() == r && v.pre@.len() > 0)
}

/// `Option` ordering as Rust defines it: `None` sorts below every `Some`.
pub open spec fn opt_below(v: Option<Version>, r: Release) -> bool {
    match v {
        None => true,
        Some(v) => below(v, r),
    }
}

/// Whether a reported version (if any) is at or above `floor`; a missing
/// version never is.
pub open spec fn reaches(v: Option<Version>, floor: Release) -> bool {
    match v {
        None => false,
        Some(v) => !below(v, floor),
    }
}

/// semver's `Display`: `major.minor.patch[-pre][+build]`.
pub open spec fn version_text(v: Version) -> Seq<char> {
    let core = release_text(v.release_part());
    let with_pre = if v.pre@.len() == 0 {
        core
    } else {
        core + "-"@ + v.pre@
    };
    if v.build@.len() == 0 {
        with_pre
    } else {
        with_pre + "+"@ + v.build@
    }
}

/// What semver's `Version::parse` makes of `text`: the numeric triple,
/// pre-release and build metadata, or `None` when the text is not a version.
pub uninterp spec fn semver_parse(text: Seq<char>) -> Option<(u64, u64, u64, Seq<char>, Seq<char>)>;

/// semver's `Version::parse`, keeping its parts as plain values. The contract
/// claims only that the outcome is a function of the text.
#[verifier::external_body]
fn semver_parse_text(text: &str) -> (r: Option<Version>)
    ensures
        match r {
            Some(v) => semver_parse(text@) == Some((v.major, v.minor, v.patch, v.pre@, v.build@)),
            None => semver_parse(text@) is None,
        },
{
    match semver::Version::parse(text) {
        Ok(v) => Some(
            Version {
                major: v.major,
                minor: v.minor,
                patch: v.patch,
                pre: v.pre.as_str().to_string(),
                build: v.build.as_str().to_string(),
            },
        ),
        Err(_) => None,
    }
}

/// The parsed version of `text`, if semver accepts it.
pub open spec fn parsed_version(text: Seq<char>, v: Version) -> bool {
    semver_parse(text) == Some((v.major, v.minor, v.patch, v.pre@, v.build@))
}

impl Version {
    pub open spec fn release_part(self) -> Release {
        Release { major: self.major, minor: self.minor, patch: self.patch }
    }

    /// `major.minor.patch` with no pre-release and no build metadata.
    pub fn new(major: u64, minor: u64, patch: u64) -> (r: Version)
        ensures
            r.release_part() == (Release { major, minor, patch }),
            r.pre@.len() == 0,
            r.build@.len() == 0,
    {
        Version { major, minor, patch, pre: String::new(), build: String::new() }
    }

    /// Parse a version with semver's grammar.
    pub fn parse(text: &str) -> (r: Option<Version>)
        ensures
            r is None <==> semver_parse(text@) is None,
            r matches Some(v) ==> parsed_version(text@, v),
    {
        semver_parse_text(text)
    }

    /// The numeric triple of this version.
    pub fn release(&self) -> (r: Release)
        ensures
            r == self.release_part(),
    {
        Release { major: self.major, minor: self.minor, patch: self.patch }
    }

    /// A field-for-field copy.
    pub fn duplicate(&self) -> (r: Version)
        ensures
            r == *self,
    {
        Version {
            major: self.major,
            minor: self.minor,
            patch: self.patch,
            pre: self.pre.clone(),
            build: self.build.clone(),
        }
    }

    /// Whether this version has lower precedence than the release `floor`.
    pub fn is_below(&self, floor: &Release) -> (r: bool)
        ensures
            r == below(*self, *floor),
    {
        let mine = self.release();
        mine.precedes(floor) || (mine == *floor && !self.pre.as_str().is_empty())
    }

    /// Whether this version is at or above the release `floor`.
    pub fn reaches(&self, floor: &Release) -> (r: bool)
        ensures
            r == !below(*self, *floor),
    {
        !self.is_below(floor)
    }

    /// The version written as semver's `Display` writes it.
    pub fn text(&self) -> (r: String)
        ensures
            r@ == version_text(*self),
    {
        let mut s = self.release().text();
        if !self.pre.as_str().is_empty() {
            s.append("-");
            s.append(self.pre.as_str());
        }
        if !self.build.as_str().is_empty() {
            s.append("+");
            s.append(self.build.as_str());
        }
        s
    }
}

/// `Option<&Version>` copied field for field.
pub fn duplicate_opt(v: Option<&Version>) -> (r: Option<Version>)
    ensures
        r == match v {
            Some(v) => Some(*v),
            None => None::<Version>,
        },
{
    match v {
        Some(v) => Some(v.duplicate()),
        None => None,
    }
}

// ---------------------------------------------------------------------------
// Floors
// ---------------------------------------------------------------------------

pub open spec fn baseline_release() -> Release {
    Release { major: 0, minor: 12, patch: 0 }
}

pub open spec fn own_release() -> Release {
    Release { major: 0, minor: 17, patch: 14 }
}

/// The historical floor: used while every cutover is dormant, and the lower
/// bound the derived floor never drops below.
pub fn baseline_floor() -> (r: Release)
    ensures
        r == baseline_release(),
{
    Release::new(0, 12, 0)
}

/// This server build's own version. The derived floor is capped here: a server
/// never enforces a floor newer than itself.
pub fn own_version() -> (r: Release)
    ensures
        r == own_release(),
{
    Release::new(0, 17, 14)
}

pub open spec fn unified_discovery_floor() -> Release {
    Release { major: 0, minor: 15, patch: 0 }
}

pub open spec fn full_server_poll_floor() -> Release {
    Release { major: 0, minor: 14, patch: 0 }
}

pub open spec fn ready_for_work_floor() -> Release {
    Release { major: 0, minor: 14, patch: 17 }
}

pub open spec fn provisioned_identity_floor() -> Release {
    Release { major: 0, minor: 17, patch: 5 }
}

pub open spec fn targeted_rescan_floor() -> Release {
    Release { major: 0, minor: 17, patch: 7 }
}

pub open spec fn docker_volume_mount_floor() -> Release {
    Release { major: 0, minor: 16, patch: 1 }
}

/// Minimum daemon version required for unified discovery support.
pub fn minimum_unified_discovery() -> (r: Release)
    ensures
        r == unified_discovery_floor(),
{
    Release::new(0, 15, 0)
}

/// Whether the daemon version supports unified discovery.
pub fn supports_unified_discovery(version: Option<&Version>) -> (r: bool)
    ensures
        r == reaches(duplicate_opt_spec(version), unified_discovery_floor()),
{
    match version {
        Some(v) => v.reaches(&minimum_unified_discovery()),
        None => false,
    }
}

/// Minimum daemon version that supports the full ServerPoll flow.
pub fn minimum_full_server_poll() -> (r: Release)
    ensures
        r == full_server_poll_floor(),
{
    Release::new(0, 14, 0)
}

/// Whether the daemon supports the full ServerPoll flow; a daemon without a
/// recorded version is assumed legacy.
pub fn supports_full_server_poll(version: Option<&Version>) -> (r: bool)
    ensures
        r == reaches(duplicate_opt_spec(version), full_server_poll_floor()),
{
    match version {
        Some(v) => v.reaches(&minimum_full_server_poll()),
        None => false,
    }
}

/// Minimum daemon version whose status reports `ready_for_work`.
pub fn minimum_ready_for_work() -> (r: Release)
    ensures
        r == ready_for_work_floor(),
{
    Release::new(0, 14, 17)
}

/// Whether the daemon's `ready_for_work` can be believed.
pub fn reports_ready_for_work(version: Option<&Version>) -> (r: bool)
    ensures
        r == reaches(duplicate_opt_spec(version), ready_for_work_floor()),
{
    match version {
        Some(v) => v.reaches(&minimum_ready_for_work()),
        None => false,
    }
}

/// Minimum daemon version that ships with server-provisioned identity.
pub fn minimum_server_provisioned_identity() -> (r: Release)
    ensures
        r == provisioned_identity_floor(),
{
    Release::new(0, 17, 5)
}

/// Whether the daemon version supports server-provisioned identity.
pub fn supports_server_provisioned_identity(version: Option<&Version>) -> (r: bool)
    ensures
        r == reaches(duplicate_opt_spec(version), provisioned_identity_floor()),
{
    match version {
        Some(v) => v.reaches(&minimum_server_provisioned_identity()),
        None => false,
    }
}

/// Minimum daemon version that understands a targeted single-host rescan.
pub fn minimum_targeted_rescan() -> (r: Release)
    ensures
        r == targeted_rescan_floor(),
{
    Release::new(0, 17, 7)
}

/// Whether the daemon version supports single-host rescan.
pub fn supports_targeted_rescan(version: Option<&Version>) -> (r: bool)
    ensures
        r == reaches(duplicate_opt_spec(version), targeted_rescan_floor()),
{
    match version {
        Some(v) => v.reaches(&minimum_targeted_rescan()),
        None => false,
    }
}

/// First version that ships the corrected Docker Compose daemon-config mount.
pub fn minimum_correct_docker_volume_mount() -> (r: Release)
    ensures
        r == docker_volume_mount_floor(),
{
    Release::new(0, 16, 1)
}

/// Whether the daemon version is at or above the corrected-mount release.
pub fn has_correct_docker_volume_mount(version: Option<&Version>) -> (r: bool)
    ensures
        r == reaches(duplicate_opt_spec(version), docker_volume_mount_floor()),
{
    match version {
        Some(v) => v.reaches(&minimum_correct_docker_volume_mount()),
        None => false,
    }
}

/// The last release whose daemon submits the old scalar neighbour shape — a
/// ceiling rather than a floor.
pub fn last_legacy_neighbor_wire() -> (r: Release)
    ensures
        r == (Release { major: 0, minor: 17, patch: 14 }),
{
    Release::new(0, 17, 14)
}

/// Whether a daemon predates the Interface → IPAddress binding rename (< 0.16.0).
/// A missing or unparseable version counts as predating it.
pub fn pre_interface_to_ip_address_rename(version: Option<&str>) -> (r: bool)
    ensures
        r == match version {
            None => true,
            Some(text) => match semver_parse(text@) {
                None => true,
                Some((major, minor, patch, pre, _build)) => release_lt(
                    Release { major, minor, patch },
                    Release { major: 0, minor: 16, patch: 0 },
                ) || ((Release { major, minor, patch }) == (Release { major: 0, minor: 16, patch: 0 })
                    && pre.len() > 0),
            },
        },
{
    match version {
        None => true,
        Some(text) => match Version::parse(text) {
            None => true,
            Some(v) => v.is_below(&Release::new(0, 16, 0)),
        },
    }
}

/// A borrowed optional version viewed as an optional value.
pub open spec fn duplicate_opt_spec(v: Option<&Version>) -> Option<Version> {
    match v {
        Some(v) => Some(*v),
        None => None,
    }
}

// ---------------------------------------------------------------------------
// Scheduled sunsets and the enforced floor
// ---------------------------------------------------------------------------

/// An announced support cutover: from `effective_on` on, daemons below `floor`
/// are unsupported; before it (once announced) they are deprecated.
#[derive(Clone, Copy, Debug, PartialEq, Eq, Structural)]
pub struct ScheduledFloor {
    pub floor: Release,
    /// The cutover instant, in seconds since the Unix epoch.
    pub effective_on: i64,
}

/// Every announced cutover, oldest floor first. None is announced yet, so the
/// whole sunset machinery is dormant.
pub fn scheduled_sunsets() -> (r: Vec<ScheduledFloor>)
    ensures
        r@.len() == 0,
{
    Vec::new()
}

/// The highest floor among `baseline_floor()` and the cutovers of `sunsets` in
/// force at `now`.
pub open spec fn highest_effective_floor(sunsets: Seq<ScheduledFloor>, now: i64) -> Release
    decreases sunsets.len(),
{
    if sunsets.len() == 0 {
        baseline_release()
    } else {
        let rest = highest_effective_floor(sunsets.drop_last(), now);
        if sunsets.last().effective_on <= now {
            release_max(rest, sunsets.last().floor)
        } else {
            rest
        }
    }
}

/// The floor `sunsets` enforce at `now`: the highest cutover in force, never
/// below the baseline, capped at this server's own version.
pub open spec fn enforced_floor_of(sunsets: Seq<ScheduledFloor>, now: i64) -> Release {
    release_min(highest_effective_floor(sunsets, now), own_release())
}

/// The floor in force at `now` under [`scheduled_sunsets`].
pub fn enforced_floor(now: i64) -> (r: Release)
    ensures
        r == enforced_floor_of(Seq::empty(), now),
{
    let sunsets = scheduled_sunsets();
    proof {
        assert(sunsets@ =~= Seq::<ScheduledFloor>::empty());
    }
    floor_from(&sunsets, now)
}

/// The enforced floor implied by `sunsets` at `now`.
pub fn floor_from(sunsets: &Vec<ScheduledFloor>, now: i64) -> (r: Release)
    ensures
        r == enforced_floor_of(sunsets@, now),
{
    let mut acc = baseline_floor();
    let mut i: usize = 0;
    while i < sunsets.len()
        invariant
            i <= sunsets@.len(),
            acc == highest_effective_floor(sunsets@.take(i as int), now),
        decreases sunsets@.len() - i,
    {
        let s = sunsets[i];
        if s.effective_on <= now {
            acc = acc.max_with(s.floor);
        }
        proof {
            assert(sunsets@.take(i + 1).drop_last() =~= sunsets@.take(i as int));
        }
        i = i + 1;
    }
    proof {
        assert(sunsets@.take(i as int) =~= sunsets@);
    }
    acc.min_with(own_version())
}

/// Whether the cutover `s` concerns a daemon at `v` (a missing version is below
/// every floor).
pub open spec fn faces(s: ScheduledFloor, v: Option<Version>) -> bool {
    opt_below(v, s.floor)
}

/// Whether cutover `a` arrives strictly before `b`: earlier instant first, the
/// lower floor breaking a tie.
pub open spec fn sooner(a: ScheduledFloor, b: ScheduledFloor) -> bool {
    a.effective_on < b.effective_on || (a.effective_on == b.effective_on && release_lt(a.floor, b.floor))
}

/// `s` is the soonest cutover of `sunsets` that `v` faces.
pub open spec fn is_applicable_sunset(sunsets: Seq<ScheduledFloor>, v: Option<Version>, s: ScheduledFloor) -> bool {
    &&& exists|i: int| 0 <= i < sunsets.len() && sunsets[i] == s && faces(sunsets[i], v)
    &&& forall|i: int| 0 <= i < sunsets.len() && faces(sunsets[i], v) ==> !sooner(#[trigger] sunsets[i], s)
}

/// The cutover a daemon at `v` actually faces under [`scheduled_sunsets`].
pub fn applicable_sunset(v: Option<&Version>) -> (r: Option<ScheduledFloor>)
    ensures
        r is None,
{
    let sunsets = scheduled_sunsets();
    applicable_sunset_in(&sunsets, v)
}

/// The cutover of `sunsets` a daemon at `v` faces soonest, if any.
pub open spec fn applicable_of(sunsets: Seq<ScheduledFloor>, v: Option<Version>) -> Option<ScheduledFloor> {
    if exists|s: ScheduledFloor| is_applicable_sunset(sunsets, v, s) {
        Some(choose|s: ScheduledFloor| is_applicable_sunset(sunsets, v, s))
    } else {
        None
    }
}

/// Among the cutovers whose floor is above `v`, the one arriving soonest (the
/// lower floor breaking a tie); `None` when no cutover concerns `v`.
pub fn applicable_sunset_in(sunsets: &Vec<ScheduledFloor>, v: Option<&Version>) -> (r: Option<ScheduledFloor>)
    ensures
        r == applicable_of(sunsets@, duplicate_opt_spec(v)),
        r is None <==> (forall|i: int| 0 <= i < sunsets@.len() ==> !faces(#[trigger] sunsets@[i], duplicate_opt_spec(v))),
        r matches Some(s) ==> is_applicable_sunset(sunsets@, duplicate_opt_spec(v), s),
{
    let ghost gv = duplicate_opt_spec(v);
    let mut best: Option<ScheduledFloor> = None;
    let mut i: usize = 0;
    while i < sunsets.len()
        invariant
            i <= sunsets@.len(),
            gv == duplicate_opt_spec(v),
            best is None <==> (forall|j: int| 0 <= j < i ==> !faces(#[trigger] sunsets@[j], gv)),
            best matches Some(b) ==> {
                &&& exists|j: int| 0 <= j < i && sunsets@[j] == b && faces(sunsets@[j], gv)
                &&& forall|j: int| 0 <= j < i && faces(sunsets@[j], gv) ==> !sooner(#[trigger] sunsets@[j], b)
            },
        decreases sunsets@.len() - i,
    {
        let s = sunsets[i];
        let concerned = match v {
            None => true,
            Some(v) => v.is_below(&s.floor),
        };
        if concerned {
            let replace = match best {
                None => true,
                Some(b) => s.effective_on < b.effective_on || (s.effective_on == b.effective_on
                    && s.floor.precedes(&b.floor)),
            };
            if replace {
                proof {
                    if let Some(b) = best {
                        assert forall|j: int| 0 <= j < i + 1 && faces(sunsets@[j], gv) implies !sooner(
                            #[trigger] sunsets@[j],
                            s,
                        ) by {
                            if j < i {
                                assert(!sooner(sunsets@[j], b));
                            }
                        }
                    }
                }
                best = Some(s);
            }
        }
        i = i + 1;
    }
    proof {
        if let Some(b) = best {
            assert(is_applicable_sunset(sunsets@, gv, b));
            lemma_applicable_unique(sunsets@, gv, b);
        } else {
            if exists|s: ScheduledFloor| is_applicable_sunset(sunsets@, gv, s) {
                let s = choose|s: ScheduledFloor| is_applicable_sunset(sunsets@, gv, s);
                let k = choose|k: int| 0 <= k < sunsets@.len() && sunsets@[k] == s && faces(sunsets@[k], gv);
                assert(!faces(sunsets@[k], gv));
            }
        }
    }
    best
}

// ---------------------------------------------------------------------------
// Policy and lifecycle evaluation
// ---------------------------------------------------------------------------

/// Health status for daemon versions: `Current` → `Outdated` → `Deprecated` →
/// `Unsupported`, with `Unknown` for a daemon whose version the server has no
/// record of.
#[derive(Clone, Copy, Debug, PartialEq, Eq, Structural)]
pub enum VersionHealthStatus {
    Current,
    Outdated,
    /// A sunset is scheduled for this version; it still works until then.
    Deprecated,
    /// Past its sunset or below the enforced floor; rejected by the server.
    Unsupported,
    /// The server has no recorded version for this daemon.
    Unknown,
}

/// Severity level for deprecation warnings.
#[derive(Clone, Copy, Debug, PartialEq, Eq, Structural)]
pub enum DeprecationSeverity {
    Info,
    Warning,
    Critical,
    /// A severity a newer server emits that this build does not know.
    Unknown,
}

impl Default for DeprecationSeverity {
    fn default() -> (r: Self)
        ensures
            r == DeprecationSeverity::Info,
    {
        DeprecationSeverity::Info
    }
}

/// Deprecation warning for a daemon version.
#[derive(Debug)]
pub struct DeprecationWarning {
    /// What the operator needs to do, and by when.
    pub message: String,
    /// Date after which this daemon version stops being supported.
    pub sunset_date: Option<String>,
    /// How urgent the upgrade is.
    pub severity: DeprecationSeverity,
}

/// A warning as plain values.
pub struct WarningView {
    pub message: Seq<char>,
    pub sunset_date: Option<Seq<char>>,
    pub severity: DeprecationSeverity,
}

impl DeprecationWarning {
    pub open spec fn view(self) -> WarningView {
        WarningView {
            message: self.message@,
            sunset_date: match self.sunset_date {
                Some(s) => Some(s@),
                None => None,
            },
            severity: self.severity,
        }
    }
}

/// Daemon version status, including health and any warnings.
#[derive(Debug)]
pub struct DaemonVersionStatus {
    /// Version the daemon reports.
    pub version: Option<String>,
    /// Whether that version is current, ageing, or out of support.
    pub status: VersionHealthStatus,
    /// Upgrade warnings that apply to this version.
    pub warnings: Vec<DeprecationWarning>,
    /// The date this daemon's version stops being supported, if one is scheduled.
    pub sunset_date: Option<String>,
    /// Whether the daemon can run a combined discovery pass.
    pub supports_unified_discovery: bool,
    /// Whether a containerized daemon has the corrected config mount.
    pub has_correct_docker_volume_mount: bool,
    /// Whether this daemon can run a single-host rescan.
    pub supports_targeted_rescan: bool,
}

/// Version policy for daemons as of the instant `now`.
pub struct DaemonVersionPolicy {
    /// The enforced floor at `now`.
    pub minimum_supported: Release,
    /// This server's own version.
    pub recommended: Release,
    /// This server's own version.
    pub latest: Release,
    /// The instant the policy is evaluated at, in seconds since the Unix epoch.
    pub now: i64,
    /// Every announced cutover.
    pub scheduled_sunsets: Vec<ScheduledFloor>,
}

/// The verdict of the lifecycle rules as plain values.
pub struct Lifecycle {
    pub status: VersionHealthStatus,
    pub warning: Option<WarningView>,
    pub sunset_date: Option<Seq<char>>,
}

/// How a daemon is named in a sunset message.
pub open spec fn daemon_label(v: Option<Version>) -> Seq<char> {
    match v {
        Some(v) => "Daemon "@ + version_text(v),
        None => "This daemon (no reported version)"@,
    }
}

impl DaemonVersionPolicy {
    /// Every cutover instant can be rendered as a calendar date.
    pub open spec fn well_formed(&self) -> bool {
        forall|i: int|
            0 <= i < self.scheduled_sunsets@.len() ==> valid_timestamp(
                #[trigger] self.scheduled_sunsets@[i].effective_on,
            )
    }

    /// The lifecycle stage, warning and sunset date for a possibly absent version.
    pub open spec fn lifecycle_of(&self, v: Option<Version>) -> Lifecycle {
        let rec = release_text(self.recommended);
        if exists|s: ScheduledFloor| is_applicable_sunset(self.scheduled_sunsets@, v, s) {
            let s = choose|s: ScheduledFloor| is_applicable_sunset(self.scheduled_sunsets@, v, s);
            let date = ymd_text(s.effective_on);
            if s.effective_on <= self.now {
                Lifecycle {
                    status: VersionHealthStatus::Unsupported,
                    warning: Some(
                        WarningView {
                            message: daemon_label(v) + " is no longer supported (support ended "@
                                + date + "). Update to "@ + rec + " or later to reconnect."@,
                            sunset_date: Some(date),
                            severity: DeprecationSeverity::Critical,
                        },
                    ),
                    sunset_date: Some(date),
                }
            } else {
                Lifecycle {
                    status: VersionHealthStatus::Deprecated,
                    warning: Some(
                        WarningView {
                            message: daemon_label(v) + " is deprecated and support ends "@ + date
                                + ". Update to "@ + rec + " or later before then to avoid interruption."@,
                            sunset_date: Some(date),
                            severity: DeprecationSeverity::Critical,
                        },
                    ),
                    sunset_date: Some(date),
                }
            }
        } else {
            match v {
                None => Lifecycle {
                    status: VersionHealthStatus::Unknown,
                    warning: Some(
                        WarningView {
                            message: "Daemon version unknown. Update to "@ + rec + " or later."@,
                            sunset_date: None,
                            severity: DeprecationSeverity::Warning,
                        },
                    ),
                    sunset_date: None,
                },
                Some(v) => if below(v, self.minimum_supported) {
                    Lifecycle {
                        status: VersionHealthStatus::Unsupported,
                        warning: Some(
                            WarningView {
                                message: "Daemon "@ + version_text(v)
                                    + " is no longer supported. Update to "@ + rec
                                    + " or later to reconnect."@,
                                sunset_date: None,
                                severity: DeprecationSeverity::Critical,
                            },
                        ),
                        sunset_date: None,
                    }
                } else if below(v, self.recommended) {
                    Lifecycle {
                        status: VersionHealthStatus::Outdated,
                        warning: Some(
                            WarningView {
                                message: "Daemon "@ + version_text(v) + " is outdated. Update to "@
                                    + rec + " for the latest features."@,
                                sunset_date: None,
                                severity: DeprecationSeverity::Warning,
                            },
                        ),
                        sunset_date: None,
                    }
                } else {
                    Lifecycle { status: VersionHealthStatus::Current, warning: None, sunset_date: None }
                },
            }
        }
    }

    /// The policy as of `now` under [`scheduled_sunsets`].
    pub fn at(now: i64) -> (r: DaemonVersionPolicy)
        ensures
            r.minimum_supported == enforced_floor_of(Seq::empty(), now),
            r.recommended == own_release(),
            r.latest == own_release(),
            r.now == now,
            r.scheduled_sunsets@.len() == 0,
            r.well_formed(),
    {
        DaemonVersionPolicy {
            minimum_supported: enforced_floor(now),
            recommended: own_version(),
            latest: own_version(),
            now,
            scheduled_sunsets: scheduled_sunsets(),
        }
    }

    /// The policy as of `now` under an explicit list of cutovers.
    pub fn at_with_sunsets(now: i64, sunsets: Vec<ScheduledFloor>) -> (r: DaemonVersionPolicy)
        ensures
            r.minimum_supported == enforced_floor_of(sunsets@, now),
            r.recommended == own_release(),
            r.latest == own_release(),
            r.now == now,
            r.scheduled_sunsets@ == sunsets@,
    {
        let minimum_supported = floor_from(&sunsets, now);
        DaemonVersionPolicy {
            minimum_supported,
            recommended: own_version(),
            latest: own_version(),
            now,
            scheduled_sunsets: sunsets,
        }
    }

    fn label(v: Option<&Version>) -> (r: String)
        ensures
            r@ == daemon_label(duplicate_opt_spec(v)),
    {
        match v {
            Some(v) => {
                let mut s = String::from_str("Daemon ");
                let t = v.text();
                s.append(t.as_str());
                s
            },
            None => String::from_str("This daemon (no reported version)"),
        }
    }

    /// The lifecycle stage, warnings and sunset date for a possibly absent
    /// version. A version-less daemon flows through the same sunset rules as an
    /// old versioned one, and is only a benign `Unknown` when no cutover
    /// concerns it.
    pub fn lifecycle(&self, v: Option<&Version>) -> (r: (VersionHealthStatus, Vec<DeprecationWarning>, Option<String>))
        requires
            self.well_formed(),
        ensures
            r.0 == self.lifecycle_of(duplicate_opt_spec(v)).status,
            r.1@.len() == (if self.lifecycle_of(duplicate_opt_spec(v)).warning is Some { 1int } else { 0int }),
            self.lifecycle_of(duplicate_opt_spec(v)).warning matches Some(w) ==> r.1@[0].view() == w,
            r.2 matches Some(d) ==> self.lifecycle_of(duplicate_opt_spec(v)).sunset_date == Some(d@),
            r.2 is None ==> self.lifecycle_of(duplicate_opt_spec(v)).sunset_date is None,
    {
        let ghost gv = duplicate_opt_spec(v);
        let rec = self.recommended.text();
        match applicable_sunset_in(&self.scheduled_sunsets, v) {
            Some(s) => {
                proof {
                    let i = choose|i: int|
                        0 <= i < self.scheduled_sunsets@.len() && self.scheduled_sunsets@[i] == s
                            && faces(self.scheduled_sunsets@[i], gv);
                    assert(valid_timestamp(self.scheduled_sunsets@[i].effective_on));
                    assert(is_applicable_sunset(self.scheduled_sunsets@, gv, s));
                    lemma_applicable_unique(self.scheduled_sunsets@, gv, s);
                }
                let date = format_ymd(s.effective_on);
                let mut message = Self::label(v);
                let status = if s.effective_on <= self.now {
                    message.append(" is no longer supported (support ended ");
                    message.append(date.as_str());
                    message.append("). Update to ");
                    message.append(rec.as_str());
                    message.append(" or later to reconnect.");
                    VersionHealthStatus::Unsupported
                } else {
                    message.append(" is deprecated and support ends ");
                    message.append(date.as_str());
                    message.append(". Update to ");
                    message.append(rec.as_str());
                    message.append(" or later before then to avoid interruption.");
                    VersionHealthStatus::Deprecated
                };
                let mut warnings = Vec::new();
                warnings.push(
                    DeprecationWarning {
                        message,
                        sunset_date: Some(date.clone()),
                        severity: DeprecationSeverity::Critical,
                    },
                );
                (status, warnings, Some(date))
            },
            None => {
                proof {
                    assert(!exists|s: ScheduledFloor| is_applicable_sunset(self.scheduled_sunsets@, gv, s));
                }
                match v {
                    None => {
                        let mut message = String::from_str("Daemon version unknown. Update to ");
                        message.append(rec.as_str());
                        message.append(" or later.");
                        let mut warnings = Vec::new();
                        warnings.push(
                            DeprecationWarning {
                                message,
                                sunset_date: None,
                                severity: DeprecationSeverity::Warning,
                            },
                        );
                        (VersionHealthStatus::Unknown, warnings, None)
                    },
                    Some(ver) => {
                        if ver.is_below(&self.minimum_supported) {
                            let mut message = String::from_str("Daemon ");
                            let t = ver.text();
                            message.append(t.as_str());
                            message.append(" is no longer supported. Update to ");
                            message.append(rec.as_str());
                            message.append(" or later to reconnect.");
                            let mut warnings = Vec::new();
                            warnings.push(
                                DeprecationWarning {
                                    message,
                                    sunset_date: None,
                                    severity: DeprecationSeverity::Critical,
                                },
                            );
                            (VersionHealthStatus::Unsupported, warnings, None)
                        } else if ver.is_below(&self.recommended) {
                            let mut message = String::from_str("Daemon ");
                            let t = ver.text();
                            message.append(t.as_str());
                            message.append(" is outdated. Update to ");
                            message.append(rec.as_str());
                            message.append(" for the latest features.");
                            let mut warnings = Vec::new();
                            warnings.push(
                                DeprecationWarning {
                                    message,
                                    sunset_date: None,
                                    severity: DeprecationSeverity::Warning,
                                },
                            );
                            (VersionHealthStatus::Outdated, warnings, None)
                        } else {
                            (VersionHealthStatus::Current, Vec::new(), None)
                        }
                    },
                }
            },
        }
    }

    /// `r` is the full version status of a daemon reporting `v`: its version
    /// text, lifecycle verdict, warning, sunset date and capability flags.
    pub open spec fn evaluation(&self, v: Option<Version>, r: DaemonVersionStatus) -> bool {
        &&& (r.version matches Some(t) ==> v matches Some(x) && t@ == version_text(x))
        &&& (r.version is None <==> v is None)
        &&& r.status == self.lifecycle_of(v).status
        &&& r.warnings@.len() == (if self.lifecycle_of(v).warning is Some { 1int } else { 0int })
        &&& (self.lifecycle_of(v).warning matches Some(w) ==> r.warnings@[0].view() == w)
        &&& (r.sunset_date matches Some(d) ==> self.lifecycle_of(v).sunset_date == Some(d@))
        &&& (r.sunset_date is None ==> self.lifecycle_of(v).sunset_date is None)
        &&& r.supports_unified_discovery == reaches(v, unified_discovery_floor())
        &&& r.has_correct_docker_volume_mount == reaches(v, docker_volume_mount_floor())
        &&& r.supports_targeted_rescan == reaches(v, targeted_rescan_floor())
    }

    /// The full version status of a daemon reporting `version`.
    pub fn evaluate(&self, version: Option<&Version>) -> (r: DaemonVersionStatus)
        requires
            self.well_formed(),
        ensures
            self.evaluation(duplicate_opt_spec(version), r),
            r.version matches Some(t) ==> version matches Some(v) && t@ == version_text(*v),
            r.version is None <==> version is None,
            r.status == self.lifecycle_of(duplicate_opt_spec(version)).status,
            r.warnings@.len() == (if self.lifecycle_of(duplicate_opt_spec(version)).warning is Some { 1int } else { 0int }),
            self.lifecycle_of(duplicate_opt_spec(version)).warning matches Some(w) ==> r.warnings@[0].view() == w,
            r.sunset_date matches Some(d) ==> self.lifecycle_of(duplicate_opt_spec(version)).sunset_date == Some(d@),
            r.sunset_date is None ==> self.lifecycle_of(duplicate_opt_spec(version)).sunset_date is None,
            r.supports_unified_discovery == reaches(duplicate_opt_spec(version), unified_discovery_floor()),
            r.has_correct_docker_volume_mount == reaches(duplicate_opt_spec(version), docker_volume_mount_floor()),
            r.supports_targeted_rescan == reaches(duplicate_opt_spec(version), targeted_rescan_floor()),
    {
        let supports_unified = supports_unified_discovery(version);
        let has_correct_mount = has_correct_docker_volume_mount(version);
        let supports_rescan = supports_targeted_rescan(version);
        let (status, warnings, sunset_date) = self.lifecycle(version);
        let text = match version {
            Some(v) => Some(v.text()),
            None => None,
        };
        DaemonVersionStatus {
            version: text,
            status,
            warnings,
            sunset_date,
            supports_unified_discovery: supports_unified,
            has_correct_docker_volume_mount: has_correct_mount,
            supports_targeted_rescan: supports_rescan,
        }
    }
}

/// Two cutovers that both satisfy the "soonest concerned cutover" condition are
/// the same cutover.
pub proof fn lemma_applicable_unique(sunsets: Seq<ScheduledFloor>, v: Option<Version>, s: ScheduledFloor)
    requires
        is_applicable_sunset(sunsets, v, s),
    ensures
        forall|t: ScheduledFloor| is_applicable_sunset(sunsets, v, t) ==> t == s,
{
    assert forall|t: ScheduledFloor| is_applicable_sunset(sunsets, v, t) implies t == s by {
        let i = choose|i: int| 0 <= i < sunsets.len() && sunsets[i] == s && faces(sunsets[i], v);
        let j = choose|j: int| 0 <= j < sunsets.len() && sunsets[j] == t && faces(sunsets[j], v);
        assert(!sooner(sunsets[i], t));
        assert(!sooner(sunsets[j], s));
    }
}

// ---------------------------------------------------------------------------
// Laws of the enforced floor
// ---------------------------------------------------------------------------

proof fn lemma_release_order(a: Release, b: Release, c: Release)
    ensures
        release_le(a, b) && release_le(b, c) ==> release_le(a, c),
        release_le(a, b) || release_le(b, a),
        release_le(a, release_max(a, b)) && release_le(b, release_max(a, b)),
        release_le(release_min(a, b), a) && release_le(release_min(a, b), b),
        release_max(a, b) == a || release_max(a, b) == b,
        release_min(a, b) == a || release_min(a, b) == b,
{
}

/// The floor in force is never below the baseline, and at least as high as
/// every cutover whose instant has arrived.
pub proof fn lemma_highest_effective_floor_bounds(sunsets: Seq<ScheduledFloor>, now: i64)
    ensures
        release_le(baseline_release(), highest_effective_floor(sunsets, now)),
        forall|i: int|
            0 <= i < sunsets.len() && sunsets[i].effective_on <= now ==> release_le(
                #[trigger] sunsets[i].floor,
                highest_effective_floor(sunsets, now),
            ),
        highest_effective_floor(sunsets, now) == baseline_release() || exists|i: int|
            0 <= i < sunsets.len() && sunsets[i].effective_on <= now && sunsets[i].floor
                == highest_effective_floor(sunsets, now),
    decreases sunsets.len(),
{
    if sunsets.len() > 0 {
        let rest = sunsets.drop_last();
        lemma_highest_effective_floor_bounds(rest, now);
        let m = highest_effective_floor(rest, now);
        lemma_release_order(baseline_release(), m, release_max(m, sunsets.last().floor));
        assert forall|i: int|
            0 <= i < sunsets.len() && sunsets[i].effective_on <= now implies release_le(
            #[trigger] sunsets[i].floor,
            highest_effective_floor(sunsets, now),
        ) by {
            if i < sunsets.len() - 1 {
                assert(rest[i] == sunsets[i]);
                lemma_release_order(sunsets[i].floor, m, release_max(m, sunsets.last().floor));
            }
        }
        if highest_effective_floor(sunsets, now) != baseline_release() {
            if sunsets.last().effective_on <= now && highest_effective_floor(sunsets, now)
                == sunsets.last().floor {
                assert(sunsets[sunsets.len() - 1] == sunsets.last());
            } else {
                let i = choose|i: int|
                    0 <= i < rest.len() && rest[i].effective_on <= now && rest[i].floor == m;
                assert(sunsets[i] == rest[i]);
            }
        }
    }
}

/// The enforced floor lies between the baseline and this server's own version,
/// and covers every cutover in force as far as the server's own version allows.
pub proof fn law_enforced_floor_bounds(sunsets: Seq<ScheduledFloor>, now: i64)
    ensures
        release_le(baseline_release(), enforced_floor_of(sunsets, now)),
        release_le(enforced_floor_of(sunsets, now), own_release()),
        forall|i: int|
            0 <= i < sunsets.len() && sunsets[i].effective_on <= now ==> release_le(
                release_min(#[trigger] sunsets[i].floor, own_release()),
                enforced_floor_of(sunsets, now),
            ),
{
    lemma_highest_effective_floor_bounds(sunsets, now);
    let m = highest_effective_floor(sunsets, now);
    assert forall|i: int|
        0 <= i < sunsets.len() && sunsets[i].effective_on <= now implies release_le(
        release_min(#[trigger] sunsets[i].floor, own_release()),
        enforced_floor_of(sunsets, now),
    ) by {
        assert(release_le(sunsets[i].floor, m));
    }
}

/// While every cutover is dormant (none announced), the floor is the baseline
/// whatever the instant.
pub proof fn law_dormant_floor_is_baseline(now: i64)
    ensures
        enforced_floor_of(Seq::empty(), now) == baseline_release(),
{
}

/// The enforced floor never goes down as time passes.
pub proof fn law_enforced_floor_monotone_in_time(sunsets: Seq<ScheduledFloor>, earlier: i64, later: i64)
    requires
        earlier <= later,
    ensures
        release_le(highest_effective_floor(sunsets, earlier), highest_effective_floor(sunsets, later)),
        release_le(enforced_floor_of(sunsets, earlier), enforced_floor_of(sunsets, later)),
    decreases sunsets.len(),
{
    if sunsets.len() > 0 {
        let rest = sunsets.drop_last();
        law_enforced_floor_monotone_in_time(rest, earlier, later);
        let a = highest_effective_floor(rest, earlier);
        let b = highest_effective_floor(rest, later);
        let f = sunsets.last().floor;
        lemma_release_order(a, b, release_max(b, f));
        lemma_release_order(f, b, release_max(b, f));
        lemma_release_order(a, f, release_max(b, f));
    }
    let x = highest_effective_floor(sunsets, earlier);
    let y = highest_effective_floor(sunsets, later);
    lemma_release_order(release_min(x, own_release()), x, y);
    lemma_release_order(release_min(x, own_release()), own_release(), own_release());
}


// ---------------------------------------------------------------------------
// Laws of the lifecycle verdict
// ---------------------------------------------------------------------------

/// How far along the lifecycle a verdict is: `Current`, then `Outdated`, then
/// `Deprecated`, then `Unsupported`. (`Unknown` is only ever given to a daemon
/// that reports no version.)
pub open spec fn lifecycle_rank(s: VersionHealthStatus) -> int {
    match s {
        VersionHealthStatus::Current => 0,
        VersionHealthStatus::Outdated => 1,
        VersionHealthStatus::Unknown => 1,
        VersionHealthStatus::Deprecated => 2,
        VersionHealthStatus::Unsupported => 3,
    }
}

/// When some cutover concerns a daemon, one of them is the soonest.
proof fn lemma_applicable_exists(sunsets: Seq<ScheduledFloor>, v: Option<Version>)
    requires
        exists|i: int| 0 <= i < sunsets.len() && faces(sunsets[i], v),
    ensures
        exists|s: ScheduledFloor| is_applicable_sunset(sunsets, v, s),
    decreases sunsets.len(),
{
    let rest = sunsets.drop_last();
    let last = sunsets.last();
    if exists|i: int| 0 <= i < rest.len() && faces(rest[i], v) {
        lemma_applicable_exists(rest, v);
        let a = choose|s: ScheduledFloor| is_applicable_sunset(rest, v, s);
        let k = choose|i: int| 0 <= i < rest.len() && rest[i] == a && faces(rest[i], v);
        assert(sunsets[k] == a);
        if faces(last, v) && sooner(last, a) {
            assert(sunsets[sunsets.len() - 1] == last);
            assert forall|i: int| 0 <= i < sunsets.len() && faces(sunsets[i], v) implies !sooner(
                #[trigger] sunsets[i],
                last,
            ) by {
                if i < rest.len() {
                    assert(sunsets[i] == rest[i]);
                    assert(!sooner(rest[i], a));
                }
            }
            assert(is_applicable_sunset(sunsets, v, last));
        } else {
            assert forall|i: int| 0 <= i < sunsets.len() && faces(sunsets[i], v) implies !sooner(
                #[trigger] sunsets[i],
                a,
            ) by {
                if i < rest.len() {
                    assert(sunsets[i] == rest[i]);
                }
            }
            assert(is_applicable_sunset(sunsets, v, a));
        }
    } else {
        let i0 = choose|i: int| 0 <= i < sunsets.len() && faces(sunsets[i], v);
        if i0 < rest.len() {
            assert(rest[i0] == sunsets[i0]);
        }
        assert(sunsets[sunsets.len() - 1] == last);
        assert forall|i: int| 0 <= i < sunsets.len() && faces(sunsets[i], v) implies !sooner(
            #[trigger] sunsets[i],
            last,
        ) by {
            if i < rest.len() {
                assert(rest[i] == sunsets[i]);
            }
        }
        assert(is_applicable_sunset(sunsets, v, last));
    }
}

/// A daemon on a release at or above another daemon's never gets a worse
/// verdict than it, under a policy whose floor is the one its cutovers enforce
/// and whose cutover floors are never below the baseline.
pub proof fn law_newer_release_never_worse(p: DaemonVersionPolicy, v: Version, w: Version)
    requires
        p.minimum_supported == enforced_floor_of(p.scheduled_sunsets@, p.now),
        forall|i: int|
            0 <= i < p.scheduled_sunsets@.len() ==> release_le(
                baseline_release(),
                #[trigger] p.scheduled_sunsets@[i].floor,
            ),
        release_le(v.release_part(), w.release_part()),
        w.pre@.len() == 0,
    ensures
        lifecycle_rank(p.lifecycle_of(Some(w)).status) <= lifecycle_rank(p.lifecycle_of(Some(v)).status),
{
    let ss = p.scheduled_sunsets@;
    assert forall|r: Release| below(w, r) implies below(v, r) by {}
    assert forall|i: int| 0 <= i < ss.len() && faces(#[trigger] ss[i], Some(w)) implies faces(ss[i], Some(v)) by {}
    let v_has = exists|s: ScheduledFloor| is_applicable_sunset(ss, Some(v), s);
    let w_has = exists|s: ScheduledFloor| is_applicable_sunset(ss, Some(w), s);
    if w_has {
        let sw = choose|s: ScheduledFloor| is_applicable_sunset(ss, Some(w), s);
        let j = choose|i: int| 0 <= i < ss.len() && ss[i] == sw && faces(ss[i], Some(w));
        assert(faces(ss[j], Some(v)));
        lemma_applicable_exists(ss, Some(v));
        let sv = choose|s: ScheduledFloor| is_applicable_sunset(ss, Some(v), s);
        assert(!sooner(ss[j], sv));
    } else if v_has {
        let sv = choose|s: ScheduledFloor| is_applicable_sunset(ss, Some(v), s);
        let k = choose|i: int| 0 <= i < ss.len() && ss[i] == sv && faces(ss[i], Some(v));
        assert forall|i: int| 0 <= i < ss.len() implies release_le(#[trigger] ss[i].floor, w.release_part()) by {
            if faces(ss[i], Some(w)) {
                lemma_applicable_exists(ss, Some(w));
            }
        }
        assert(release_le(baseline_release(), ss[k].floor));
        lemma_highest_effective_floor_bounds(ss, p.now);
        let m = highest_effective_floor(ss, p.now);
        if m != baseline_release() {
            let i = choose|i: int| 0 <= i < ss.len() && ss[i].effective_on <= p.now && ss[i].floor == m;
            assert(release_le(ss[i].floor, w.release_part()));
        } else {
            lemma_release_order(baseline_release(), ss[k].floor, w.release_part());
        }
        lemma_release_order(release_min(m, own_release()), m, w.release_part());
        assert(!below(w, p.minimum_supported));
    }
}


} // verus!
