use scanopy::digest::{
    compute_digest, compute_digest_status, digest_window_ready, fold_minted_hosts, ChildKind, ChildPolicy, DigestChild, DigestChildren, DigestHost,
    DigestScope, DigestSubnet, DigestVlan, DigestWindow, DiscoveryType, EntityFreshness, HostAddress, ScanCoverage,
    ScannedEntityIds, StaleWindow, TrackedEntity, DEFAULT_STALE_AFTER_HOURS,
};
use scanopy::ids::Uuid;
use scanopy::net::IpAddress;

const HOUR: i64 = 3600;

fn new_id() -> Uuid {
    Uuid::from_u128(uuid::Uuid::new_v4().as_u128())
}

fn t(secs_ago: i64) -> i64 {
    1_800_000_000 - secs_ago
}

fn network(stale_after_hours: Option<i64>) -> StaleWindow {
    StaleWindow { stale_after_hours }
}

/// A discovery-created host last observed `secs_ago` before the reference.
fn host(seen_secs_ago: i64) -> TrackedEntity {
    TrackedEntity {
        id: new_id(),
        created_at: t(seen_secs_ago + 100 * 24 * HOUR),
        last_seen_at: t(seen_secs_ago),
        refreshed_by_discovery: true,
    }
}

fn service(seen_secs_ago: i64) -> TrackedEntity {
    host(seen_secs_ago)
}

fn window(stale_after_hours: i64, prev_secs_ago: Option<i64>) -> DigestWindow {
    let net = network(Some(stale_after_hours));
    let t_end = t(0);
    DigestWindow {
        t_start: t(600),
        t_end,
        cutoff: net.stale_cutoff(t_end),
        prev_cutoff: prev_secs_ago.map(|p| net.stale_cutoff(t(p))),
    }
}

fn none_scanned() -> Vec<Uuid> {
    Vec::new()
}

fn no_scanned_entities() -> ScannedEntityIds {
    ScannedEntityIds {
        host_ids: vec![],
        subnet_ids: vec![],
        service_ids: vec![],
        port_ids: vec![],
        ip_address_ids: vec![],
        interface_ids: vec![],
        vlan_ids: vec![],
    }
}

#[test]
fn a_far_end_this_session_minted_is_reported_as_added() {
    let w = window(24 * 7, Some(HOUR));
    let minted = TrackedEntity { id: new_id(), created_at: w.t_end, last_seen_at: w.t_end, refreshed_by_discovery: true };
    let scanned = vec![minted.id];
    let coverage = ScanCoverage::Subnets(vec![new_id()]);

    assert!(
        coverage.covers_host(minted.id, None, true),
        "a minted far end has no addresses, so only having been observed can cover it"
    );
    assert_eq!(
        compute_digest_status(&minted, &scanned, &w),
        (EntityFreshness::New, true),
        "a host this session created and touched is an addition, not a silent arrival"
    );
}

#[test]
fn a_minted_host_stamped_after_the_window_closes_is_not_reported_as_new() {
    let w = window(24 * 7, Some(HOUR));
    let too_late =
        TrackedEntity { id: new_id(), created_at: w.t_end + 1, last_seen_at: w.t_end + 1, refreshed_by_discovery: true };
    let scanned = vec![too_late.id];
    assert_ne!(
        compute_digest_status(&too_late, &scanned, &w).0,
        EntityFreshness::New,
        "stamping mint time instead of scan time puts the host outside its own scan's window"
    );
}

#[test]
fn services_decay_individually_while_the_host_is_still_answering() {
    let w = window(24 * 7, Some(HOUR));
    let h = host(0);
    let scanned = vec![h.id];

    let live = service(0);
    let recently_gone = service(2 * 24 * HOUR);
    let long_gone = service(8 * 24 * HOUR);
    let svc_scanned = vec![live.id];

    assert_eq!(compute_digest_status(&h, &scanned, &w).0, EntityFreshness::Current, "a host answering this scan is current");
    assert_eq!(compute_digest_status(&live, &svc_scanned, &w).0, EntityFreshness::Current);
    assert_eq!(
        compute_digest_status(&recently_gone, &svc_scanned, &w).0,
        EntityFreshness::Current,
        "absent for 2 days is well inside a 7-day window — not stale yet"
    );
    assert_eq!(compute_digest_status(&long_gone, &svc_scanned, &w).0, EntityFreshness::Stale);
}

#[test]
fn once_the_host_goes_dark_its_children_inherit_instead_of_decaying_alone() {
    let w = window(24 * 7, Some(HOUR));
    let h = host(8 * 24 * HOUR);

    let (host_status, host_fresh) = compute_digest_status(&h, &none_scanned(), &w);
    assert_eq!(host_status, EntityFreshness::Stale);

    let svc = service(8 * 24 * HOUR);
    let own = compute_digest_status(&svc, &none_scanned(), &w);
    let policy = ChildPolicy::Inherit(host_status, host_fresh);

    assert_eq!(policy.resolve(own), (host_status, host_fresh), "an unreached host's children report the host's verdict");
    assert_eq!(ChildPolicy::Classify.resolve(own), own, "a reached host's children keep their own verdict");
}

#[test]
fn verdict_depends_on_elapsed_time_not_on_how_many_scans_were_missed() {
    let w = window(24 * 7, Some(HOUR));

    let missed_three_quarter_hourly_scans = host(45 * 60);
    assert_eq!(
        compute_digest_status(&missed_three_quarter_hourly_scans, &none_scanned(), &w).0,
        EntityFreshness::Current,
        "45 minutes is not stale under a 7-day window, however many scans it spans"
    );

    let missed_one_monthly_scan = host(30 * 24 * HOUR);
    assert_eq!(
        compute_digest_status(&missed_one_monthly_scan, &none_scanned(), &w).0,
        EntityFreshness::Stale,
        "a month unobserved is stale even though only one scan was missed"
    );
}

#[test]
fn a_network_with_no_configured_window_falls_back_to_the_default() {
    let default_net = network(None);
    let explicit_net = network(Some(DEFAULT_STALE_AFTER_HOURS));
    assert_eq!(default_net.stale_cutoff(t(0)), explicit_net.stale_cutoff(t(0)));

    let strict = network(Some(1));
    assert!(strict.stale_cutoff(t(0)) > default_net.stale_cutoff(t(0)));
}

#[test]
fn entities_discovery_never_refreshes_are_never_stale() {
    let w = window(1, None);
    let mut manual = host(30 * 24 * HOUR);
    manual.refreshed_by_discovery = false;
    let mut system = host(30 * 24 * HOUR);
    system.refreshed_by_discovery = false;
    let discovered = host(30 * 24 * HOUR);

    assert_eq!(
        compute_digest_status(&manual, &none_scanned(), &w).0,
        EntityFreshness::Current,
        "a hand-created host is never refreshed by discovery, so it cannot go stale"
    );
    assert_eq!(compute_digest_status(&system, &none_scanned(), &w).0, EntityFreshness::Current);
    assert_eq!(
        compute_digest_status(&discovered, &none_scanned(), &w).0,
        EntityFreshness::Stale,
        "the same age on a discovered host does go stale"
    );
}

#[test]
fn a_host_is_reported_only_on_the_scan_where_it_crosses_into_stale() {
    let w = window(24 * 7, Some(HOUR));

    let just_crossed = host(7 * 24 * HOUR + 30 * 60);
    let (status, is_fresh) = compute_digest_status(&just_crossed, &none_scanned(), &w);
    assert_eq!(status, EntityFreshness::Stale);
    assert!(is_fresh, "crossing the line this session is worth reporting");

    let long_stale = host(30 * 24 * HOUR);
    let (status, is_fresh) = compute_digest_status(&long_stale, &none_scanned(), &w);
    assert_eq!(status, EntityFreshness::Stale);
    assert!(!is_fresh, "an entity stale for weeks must not be re-reported every scan");
}

#[test]
fn no_transition_is_claimed_on_a_networks_first_scan() {
    let w = window(24 * 7, None);
    let (status, is_fresh) = compute_digest_status(&host(30 * 24 * HOUR), &none_scanned(), &w);
    assert_eq!(status, EntityFreshness::Stale);
    assert!(!is_fresh, "with no previous session there is no crossing to report");
}

#[test]
fn a_targeted_scan_says_nothing_about_hosts_in_subnets_it_did_not_sweep() {
    let swept = new_id();
    let untouched = new_id();
    let coverage =
        ScanCoverage::for_session(&DiscoveryType::Unified { subnet_ids: Some(vec![swept]) }, &no_scanned_entities());

    assert!(coverage.covers_host(new_id(), Some(&vec![swept]), false));
    assert!(
        !coverage.covers_host(new_id(), Some(&vec![untouched]), false),
        "a host in an unswept subnet must be left out of the digest entirely"
    );
    assert!(!coverage.covers_host(new_id(), None, false), "a host with no IPs cannot be placed in a swept subnet");
}

#[test]
fn a_scan_that_saw_an_address_less_host_still_reports_it() {
    let swept = new_id();
    let coverage =
        ScanCoverage::for_session(&DiscoveryType::Unified { subnet_ids: Some(vec![swept]) }, &no_scanned_entities());

    assert!(coverage.covers_host(new_id(), None, true));
    assert!(
        !coverage.covers_host(new_id(), None, false),
        "an address-less host this session never saw stays un-asserted, not stale"
    );
}

#[test]
fn two_daemons_on_disjoint_subnets_do_not_report_each_others_hosts() {
    let daemon_a_subnet = new_id();
    let daemon_b_subnet = new_id();
    let mut scanned = no_scanned_entities();
    scanned.subnet_ids = vec![daemon_a_subnet];
    let coverage = ScanCoverage::for_session(&DiscoveryType::Unified { subnet_ids: None }, &scanned);

    assert!(coverage.covers_host(new_id(), Some(&vec![daemon_a_subnet]), false));
    assert!(
        !coverage.covers_host(new_id(), Some(&vec![daemon_b_subnet]), false),
        "daemon A's silence about daemon B's subnet carries no information"
    );
}

#[test]
fn runs_that_sweep_no_subnets_speak_only_for_the_daemons_own_host() {
    let daemon_host = new_id();
    let other_host = new_id();
    let any_subnet = vec![new_id()];

    for discovery_type in
        [DiscoveryType::SelfReport { host_id: daemon_host }, DiscoveryType::Docker { host_id: daemon_host }]
    {
        let coverage = ScanCoverage::for_session(&discovery_type, &no_scanned_entities());
        assert!(coverage.covers_host(daemon_host, Some(&any_subnet), false));
        assert!(
            !coverage.covers_host(other_host, Some(&any_subnet), false),
            "a container/self-report run never swept the network"
        );
        assert!(!coverage.swept_subnets(), "network-wide conclusions (VLANs) must not be drawn from it");
    }
}

#[test]
fn a_scan_that_confirmed_no_subnets_covers_nothing() {
    let coverage = ScanCoverage::for_session(&DiscoveryType::Unified { subnet_ids: None }, &no_scanned_entities());
    assert!(!coverage.covers_host(new_id(), Some(&vec![new_id()]), false));
    assert!(!coverage.swept_subnets());
}

#[test]
fn a_rescan_covers_only_its_target() {
    let target = new_id();
    let coverage =
        ScanCoverage::for_session(&DiscoveryType::Rescan { target_host_id: target }, &no_scanned_entities());
    assert!(coverage.covers_host(target, None, false));
    assert!(!coverage.covers_host(new_id(), None, true));
}

fn digest_host(entity: TrackedEntity, name: &str) -> DigestHost {
    DigestHost { entity, hostname: None, name: name.to_string() }
}

#[test]
fn a_session_digest_buckets_hosts_and_vlans() {
    let w = window(24 * 7, Some(HOUR));
    let swept = new_id();
    let elsewhere = new_id();

    let added = TrackedEntity { id: new_id(), created_at: t(60), last_seen_at: t(0), refreshed_by_discovery: true };
    let gone = host(7 * 24 * HOUR + 30 * 60);
    let steady = host(0);
    let outside = host(30 * 24 * HOUR);
    let new_service = TrackedEntity { id: new_id(), created_at: t(30), last_seen_at: t(0), refreshed_by_discovery: true };
    let open_ports = TrackedEntity { id: new_id(), created_at: t(30), last_seen_at: t(0), refreshed_by_discovery: true };

    let hosts = vec![
        digest_host(added, "added"),
        digest_host(gone, "gone"),
        digest_host(steady, "steady"),
        digest_host(outside, "outside"),
    ];
    let mut scanned = no_scanned_entities();
    scanned.host_ids = vec![added.id, steady.id];
    scanned.service_ids = vec![new_service.id, open_ports.id];
    let scope = DigestScope {
        coverage: ScanCoverage::Subnets(vec![swept]),
        addresses: vec![
            HostAddress { host_id: added.id, subnet_id: swept },
            HostAddress { host_id: gone.id, subnet_id: swept },
            HostAddress { host_id: steady.id, subnet_id: swept },
            HostAddress { host_id: outside.id, subnet_id: elsewhere },
        ],
        children: DigestChildren {
            services: vec![
                DigestChild {
                    entity: new_service,
                    host_id: steady.id,
                    kind: ChildKind::Service {
                        name: "nginx".to_string(),
                        is_container: false,
                        logo_url: String::new(),
                        is_open_ports: false,
                    },
                },
                DigestChild {
                    entity: open_ports,
                    host_id: steady.id,
                    kind: ChildKind::Service {
                        name: "Open Ports".to_string(),
                        is_container: false,
                        logo_url: String::new(),
                        is_open_ports: true,
                    },
                },
            ],
            ip_addresses: vec![],
            interfaces: vec![],
            ports: vec![],
        },
        scanned,
        window: w,
    };
    let subnets = vec![
        DigestSubnet { id: swept, name: "lan".to_string(), first_address: IpAddress::V4(10, 0, 0, 0) },
        DigestSubnet { id: new_id(), name: "lo".to_string(), first_address: IpAddress::V4(127, 0, 0, 0) },
    ];
    let new_vlan = DigestVlan { entity: added, vlan_number: 20, name: "iot".to_string() };
    let old_vlan = DigestVlan { entity: gone, vlan_number: 30, name: "legacy".to_string() };

    let body = compute_digest(&hosts, &scope, &subnets, &vec![new_vlan], &vec![old_vlan]);

    assert_eq!(body.subnets_scanned.len(), 1);
    assert_eq!(body.subnets_scanned[0].label, "lan");
    assert_eq!(body.hosts_added.len(), 1);
    assert_eq!(body.hosts_added[0].host.label, "added");
    assert_eq!(body.hosts_added[0].status, EntityFreshness::New);
    assert_eq!(body.hosts_stale.len(), 1);
    assert_eq!(body.hosts_stale[0].host.label, "gone");
    assert_eq!(body.hosts_changed.len(), 1);
    assert_eq!(body.hosts_changed[0].host.label, "steady");
    assert_eq!(body.hosts_changed[0].services.len(), 1);
    assert_eq!(body.hosts_changed[0].services[0].label, "nginx");
    assert_eq!(body.hosts_changed[0].services[0].status, EntityFreshness::New);
    assert!(body.hosts_changed[0].services[0].logo_url.is_none());
    assert_eq!(body.vlans_added.len(), 1);
    assert_eq!(body.vlans_added[0].vlan_number, 20);
    assert_eq!(body.vlans_stale.len(), 1);
    assert_eq!(body.vlans_stale[0].name, "legacy");
}

#[test]
fn hosts_minted_by_neighbour_resolution_count_as_observed() {
    let w = window(24 * 7, Some(HOUR));
    let minted = TrackedEntity { id: new_id(), created_at: w.t_end, last_seen_at: w.t_end, refreshed_by_discovery: true };
    let folded = fold_minted_hosts(None, &vec![minted.id]).unwrap();
    assert_eq!(folded.host_ids, vec![minted.id]);
    assert_eq!(compute_digest_status(&minted, &folded.host_ids, &w), (EntityFreshness::New, true));

    let mut reported = ScannedEntityIds::default();
    let seen = new_id();
    reported.host_ids = vec![seen];
    reported.vlan_ids = vec![new_id()];
    let folded = fold_minted_hosts(Some(reported), &vec![minted.id]).unwrap();
    assert_eq!(folded.host_ids, vec![seen, minted.id]);
    assert_eq!(folded.vlan_ids.len(), 1);
    assert!(fold_minted_hosts(None, &vec![]).is_none());
}

#[test]
fn a_digest_needs_both_ends_of_the_window() {
    assert!(digest_window_ready(Some(1), Some(2)));
    assert!(!digest_window_ready(None, Some(2)));
    assert!(!digest_window_ready(Some(1), None));
    assert!(!digest_window_ready(None, None));
}

#[test]
fn long_stale_windows_are_accepted_while_the_cutoff_is_a_date() {
    let century = network(Some(100 * 365 * 24));
    assert_eq!(century.stale_cutoff(t(0)), t(0) - 100 * 365 * 24 * HOUR);
}
