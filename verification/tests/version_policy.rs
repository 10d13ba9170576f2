use scanopy::kinds::{capability_floors, CredentialKind};
use scanopy::version::{
    applicable_sunset_in, baseline_floor, enforced_floor, floor_from, last_legacy_neighbor_wire, own_version,
    supports_unified_discovery, DaemonVersionPolicy, Release, ScheduledFloor, Version, VersionHealthStatus,
};

/// Midnight UTC of a calendar date, in seconds since the Unix epoch.
fn dt(y: i32, m: u32, d: u32) -> i64 {
    chrono::NaiveDate::from_ymd_opt(y, m, d).unwrap().and_hms_opt(0, 0, 0).unwrap().and_utc().timestamp()
}

fn policy_at(now: i64) -> DaemonVersionPolicy {
    DaemonVersionPolicy::at(now)
}

// --- Dormancy: with no cutover announced, nothing new happens. -------------

#[test]
fn dormant_floor_is_baseline() {
    assert_eq!(enforced_floor(dt(2026, 7, 27)), baseline_floor());
    assert_eq!(enforced_floor(dt(2030, 1, 1)), baseline_floor());
}

#[test]
fn dormant_old_daemon_is_not_deprecated() {
    let policy = policy_at(dt(2026, 7, 27));
    let status = policy.evaluate(Some(&Version::new(0, 16, 0)));
    assert_eq!(status.status, VersionHealthStatus::Outdated);
    assert!(status.sunset_date.is_none());
}

#[test]
fn dormant_current_daemon_is_current() {
    let policy = policy_at(dt(2026, 7, 27));
    let status = policy.evaluate(Some(&own_version().to_version()));
    assert_eq!(status.status, VersionHealthStatus::Current);
    assert!(status.warnings.is_empty());
}

#[test]
fn unknown_version_is_unknown_not_outdated() {
    let policy = policy_at(dt(2026, 7, 27));
    let status = policy.evaluate(None);
    assert_eq!(status.status, VersionHealthStatus::Unknown);
    assert!(status.version.is_none());
}

#[test]
fn announced_sunset_deprecates_old_and_versionless() {
    let policy = DaemonVersionPolicy::at_with_sunsets(
        dt(2026, 7, 27),
        vec![ScheduledFloor { floor: Release::new(0, 17, 5), effective_on: dt(2026, 10, 1) }],
    );

    let old = policy.evaluate(Some(&Version::new(0, 16, 0)));
    assert_eq!(old.status, VersionHealthStatus::Deprecated);
    assert_eq!(old.sunset_date.as_deref(), Some("2026-10-01"));

    let versionless = policy.evaluate(None);
    assert_eq!(versionless.status, VersionHealthStatus::Deprecated);
    assert_eq!(versionless.sunset_date.as_deref(), Some("2026-10-01"));

    assert_eq!(policy.evaluate(Some(&own_version().to_version())).status, VersionHealthStatus::Current);
}

#[test]
fn passed_sunset_is_unsupported_including_versionless() {
    let policy = DaemonVersionPolicy::at_with_sunsets(
        dt(2026, 11, 1),
        vec![ScheduledFloor { floor: Release::new(0, 17, 5), effective_on: dt(2026, 10, 1) }],
    );
    assert_eq!(policy.evaluate(Some(&Version::new(0, 16, 0))).status, VersionHealthStatus::Unsupported);
    assert_eq!(policy.evaluate(None).status, VersionHealthStatus::Unsupported);
}

#[test]
fn floor_capped_at_own_version() {
    let sunsets = vec![ScheduledFloor { floor: Release::new(9, 9, 9), effective_on: dt(2026, 1, 1) }];
    assert_eq!(floor_from(&sunsets, dt(2027, 1, 1)), own_version());
}

// --- Multiple announced cutovers -------------------------------------------

fn two_cutovers() -> Vec<ScheduledFloor> {
    vec![
        ScheduledFloor { floor: Release::new(0, 17, 5), effective_on: dt(2026, 12, 1) },
        ScheduledFloor { floor: Release::new(1, 2, 0), effective_on: dt(2027, 8, 1) },
    ]
}

#[test]
fn floor_takes_highest_cutover_already_in_force() {
    let sunsets = two_cutovers();
    assert_eq!(floor_from(&sunsets, dt(2026, 11, 1)), baseline_floor());
    assert_eq!(floor_from(&sunsets, dt(2027, 1, 1)), Release::new(0, 17, 5).min_with(own_version()));
    assert_eq!(floor_from(&sunsets, dt(2027, 9, 1)), Release::new(1, 2, 0).min_with(own_version()));
}

#[test]
fn daemon_is_told_the_soonest_cutover_it_faces() {
    let sunsets = two_cutovers();

    let s = applicable_sunset_in(&sunsets, Some(&Version::new(0, 16, 0))).unwrap();
    assert_eq!(s.floor, Release::new(0, 17, 5));
    assert_eq!(s.effective_on, dt(2026, 12, 1));

    assert_eq!(applicable_sunset_in(&sunsets, None).unwrap().floor, Release::new(0, 17, 5));

    let s = applicable_sunset_in(&sunsets, Some(&Version::new(1, 0, 0))).unwrap();
    assert_eq!(s.floor, Release::new(1, 2, 0));
    assert_eq!(s.effective_on, dt(2027, 8, 1));

    assert!(applicable_sunset_in(&sunsets, Some(&Version::new(1, 2, 0))).is_none());
    assert!(applicable_sunset_in(&sunsets, Some(&Version::new(2, 0, 0))).is_none());
}

#[test]
fn lifecycle_reflects_the_applicable_cutover_of_two() {
    let policy = DaemonVersionPolicy::at_with_sunsets(dt(2027, 1, 1), two_cutovers());

    assert_eq!(policy.evaluate(Some(&Version::new(0, 16, 0))).status, VersionHealthStatus::Unsupported);

    let mid = policy.evaluate(Some(&Version::new(1, 0, 0)));
    assert_eq!(mid.status, VersionHealthStatus::Deprecated);
    assert_eq!(mid.sunset_date.as_deref(), Some("2027-08-01"));
}

// --- Rot guards -------------------------------------------------------------

#[test]
fn capability_floors_within_server_version() {
    let own = own_version();
    for (name, floor) in capability_floors() {
        assert!(!own.precedes(&floor), "capability floor {name} is above the server version");
    }
}

#[test]
fn legacy_neighbor_wire_shim_still_needed() {
    let floor = enforced_floor(chrono::Utc::now().timestamp());
    let last = last_legacy_neighbor_wire();
    assert!(!last.precedes(&floor), "the enforced daemon floor is above the last legacy wire release");
}

// --- Further scenarios --------------------------------------------------------

#[test]
fn capability_floors_list_names_and_floors() {
    let floors = capability_floors();
    assert_eq!(floors.len(), 16);
    assert_eq!(floors[0].0, "minimum_unified_discovery");
    assert_eq!(floors[0].1, Release::new(0, 15, 0));
    assert_eq!(floors[5].0, "SNMP v1 credential");
    assert_eq!(floors[5].1, CredentialKind::SnmpV1.minimum_daemon_version());
    assert_eq!(floors[15].0, "Instant On Portal Account credential");
}

#[test]
fn outdated_warning_names_version_and_target() {
    let policy = policy_at(dt(2026, 7, 27));
    let status = policy.evaluate(Some(&Version::new(0, 16, 0)));
    assert_eq!(status.warnings.len(), 1);
    assert_eq!(status.warnings[0].message, "Daemon 0.16.0 is outdated. Update to 0.17.14 for the latest features.");
    assert_eq!(status.version.as_deref(), Some("0.16.0"));
}

#[test]
fn below_the_floor_is_unsupported_without_a_cutover() {
    let policy = policy_at(dt(2026, 7, 27));
    assert_eq!(policy.evaluate(Some(&Version::new(0, 11, 9))).status, VersionHealthStatus::Unsupported);
}

#[test]
fn version_parse_and_text() {
    let v = Version::parse("0.17.3-beta.1+build5").unwrap();
    assert_eq!(v.major, 0);
    assert_eq!(v.minor, 17);
    assert_eq!(v.patch, 3);
    assert_eq!(v.text(), "0.17.3-beta.1+build5");
    assert!(Version::parse("not a version").is_none());
    assert!(Version::parse("1.2").is_none());
}

#[test]
fn capability_gates() {
    assert!(supports_unified_discovery(Some(&Version::new(0, 15, 0))));
    assert!(!supports_unified_discovery(Some(&Version::new(0, 14, 9))));
    assert!(!supports_unified_discovery(None));
}

#[test]
fn newer_releases_never_get_a_worse_verdict() {
    fn rank(s: VersionHealthStatus) -> u8 {
        match s {
            VersionHealthStatus::Current => 0,
            VersionHealthStatus::Outdated | VersionHealthStatus::Unknown => 1,
            VersionHealthStatus::Deprecated => 2,
            VersionHealthStatus::Unsupported => 3,
        }
    }
    let policy = DaemonVersionPolicy::at_with_sunsets(dt(2027, 1, 1), two_cutovers());
    let versions = [(0, 11, 0), (0, 16, 0), (0, 17, 5), (0, 17, 13), (1, 0, 0), (1, 2, 0), (2, 0, 0)];
    let ranks: Vec<u8> =
        versions.iter().map(|&(a, b, c)| rank(policy.evaluate(Some(&Version::new(a, b, c))).status)).collect();
    assert_eq!(ranks, vec![3, 3, 2, 2, 2, 0, 0]);
    for pair in ranks.windows(2) {
        assert!(pair[1] <= pair[0]);
    }
}
