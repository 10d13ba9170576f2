use scanopy::daemons::{
    check_daemon_version, check_self_registration, check_target_versions, inactivity_verdict, is_within_standby_grace,
    plan_cancellation, registration_gate, reprovision_gate, ReprovisionRejection, registration_user, retry_connection, sent_outcome,
    should_retry_daemon_http_error, url_edit_allowed, work_request_gate, CancelDelivery, DaemonApiKeyRecord,
    DaemonMode, DaemonRecord, DaemonRequestError, InactivityVerdict, RegistrationRejection, RetryPolicy,
    RetryRejection, SubnetSource, WorkRequestRejection, STANDBY_GRACE_PERIOD_DAYS,
};
use scanopy::daemons::{admit_registration, registration_path, RegistrationPath};
use scanopy::ids::Uuid;
use scanopy::polling::{work_next, work_start, WorkEvent, WorkStep};
use scanopy::kinds::CredentialKind;
use scanopy::version::{DaemonVersionPolicy, Version};

const HOUR: i64 = 3_600;
const DAY: i64 = 86_400;

fn new_id() -> Uuid {
    Uuid::from_u128(uuid::Uuid::new_v4().as_u128())
}

fn now() -> i64 {
    chrono::Utc::now().timestamp()
}

fn http_err(status: u16) -> DaemonRequestError {
    DaemonRequestError::Http { op: "GET /api/status".to_string(), status }
}

// -- retries --

#[test]
fn does_not_retry_4xx_daemon_responses() {
    assert!(!should_retry_daemon_http_error(&http_err(401)));
    assert!(!should_retry_daemon_http_error(&http_err(403)));
    assert!(!should_retry_daemon_http_error(&http_err(404)));
}

#[test]
fn retries_transport_and_5xx_errors() {
    assert!(should_retry_daemon_http_error(&DaemonRequestError::Other { message: "connection refused".to_string() }));
    assert!(should_retry_daemon_http_error(&http_err(502)));
}

#[test]
fn retry_policies_back_off_as_configured() {
    let standard = RetryPolicy::Standard.backoff();
    assert_eq!((standard.min_delay_secs, standard.max_delay_secs, standard.max_times), (5, 30, 5));
    let brief = RetryPolicy::Brief.backoff();
    assert_eq!((brief.min_delay_secs, brief.max_delay_secs, brief.max_times), (2, 2, 1));
    assert_eq!(RetryPolicy::Brief.attempt_timeout(), Some(5));
    assert_eq!(RetryPolicy::Standard.attempt_timeout(), None);
}

// -- standby grace --

#[test]
fn grace_window_none_is_not_within_grace() {
    assert!(!is_within_standby_grace(None, now()));
}

#[test]
fn grace_window_recent_clear_is_within_grace() {
    let now = now();
    assert!(is_within_standby_grace(Some(now - HOUR), now));
}

#[test]
fn grace_window_just_inside_boundary_is_within_grace() {
    let now = now();
    let just_inside = now - STANDBY_GRACE_PERIOD_DAYS * DAY + HOUR;
    assert!(is_within_standby_grace(Some(just_inside), now));
}

#[test]
fn grace_window_at_exact_boundary_is_expired() {
    let now = now();
    let exactly_at_boundary = now - STANDBY_GRACE_PERIOD_DAYS * DAY;
    assert!(!is_within_standby_grace(Some(exactly_at_boundary), now));
}

#[test]
fn grace_window_past_boundary_is_expired() {
    let now = now();
    let past_boundary = now - (STANDBY_GRACE_PERIOD_DAYS + 1) * DAY;
    assert!(!is_within_standby_grace(Some(past_boundary), now));
}

#[test]
fn inactivity_verdicts() {
    let now = 1_800_000_000;
    assert_eq!(inactivity_verdict(Some(now - DAY), &vec![], now), InactivityVerdict::InGrace);
    assert_eq!(inactivity_verdict(None, &vec![now - 29 * DAY], now), InactivityVerdict::Active);
    assert_eq!(inactivity_verdict(None, &vec![now - 30 * DAY], now), InactivityVerdict::Active);
    assert_eq!(inactivity_verdict(None, &vec![now - 31 * DAY], now), InactivityVerdict::Standby);
    assert_eq!(inactivity_verdict(Some(now - 40 * DAY), &vec![], now), InactivityVerdict::Standby);
}

// -- stored daemon records --

fn daemon(mode: DaemonMode, network_id: Uuid) -> DaemonRecord {
    DaemonRecord {
        id: new_id(),
        host_id: new_id(),
        network_id,
        url: "https://edge.corp:60073".to_string(),
        last_seen: None,
        mode,
        name: "edge-01".to_string(),
        tags: Vec::new(),
        version: Some(Version::new(0, 17, 0)),
        user_id: new_id(),
        api_key_id: Some(new_id()),
        is_unreachable: false,
        standby: false,
        standby_cleared_at: None,
    }
}

fn copy_of(d: &DaemonRecord) -> DaemonRecord {
    DaemonRecord {
        id: d.id,
        host_id: d.host_id,
        network_id: d.network_id,
        url: d.url.clone(),
        last_seen: d.last_seen,
        mode: d.mode,
        name: d.name.clone(),
        tags: d.tags.clone(),
        version: d.version.as_ref().map(|v| v.duplicate()),
        user_id: d.user_id,
        api_key_id: d.api_key_id,
        is_unreachable: d.is_unreachable,
        standby: d.standby,
        standby_cleared_at: d.standby_cleared_at,
    }
}

fn version_triple(v: &Option<Version>) -> Option<(u64, u64, u64)> {
    v.as_ref().map(|v| (v.major, v.minor, v.patch))
}

#[test]
fn update_cannot_change_identity_or_server_managed_fields() {
    let network = new_id();
    let existing = daemon(DaemonMode::ServerPoll, network);

    let mut request = copy_of(&existing);
    // Fields a caller may legitimately edit.
    request.name = "renamed".to_string();
    request.url = "https://moved.corp:60073".to_string();
    request.user_id = new_id();
    request.tags = vec![new_id()];
    // Fields a caller must not be able to touch.
    request.network_id = new_id();
    request.mode = DaemonMode::DaemonPoll;
    request.host_id = new_id();
    request.api_key_id = Some(new_id());
    request.version = Some(Version::new(9, 9, 9));
    request.standby = true;

    request.preserve_immutable_fields(&existing);

    assert_eq!(request.name, "renamed");
    assert_eq!(request.url, "https://moved.corp:60073");
    assert_ne!(request.user_id, existing.user_id);
    assert_eq!(request.tags.len(), 1);

    assert_eq!(request.network_id, network);
    assert_eq!(request.mode, DaemonMode::ServerPoll);
    assert_eq!(request.host_id, existing.host_id);
    assert_eq!(request.api_key_id, existing.api_key_id);
    assert_eq!(version_triple(&request.version), version_triple(&existing.version));
    assert!(!request.standby);
}

#[test]
fn url_edits_only_for_server_polled_daemons() {
    let a = "https://a:1".to_string();
    let b = "https://b:1".to_string();
    assert!(url_edit_allowed(DaemonMode::ServerPoll, &a, &b));
    assert!(!url_edit_allowed(DaemonMode::DaemonPoll, &a, &b));
    assert!(url_edit_allowed(DaemonMode::DaemonPoll, &a, &a.clone()));
}

#[test]
fn status_heartbeat_updates_only_unprovisioned_identity() {
    let mut d = daemon(DaemonMode::ServerPoll, new_id());
    let src = d.apply_status("other".to_string(), DaemonMode::DaemonPoll, None, 1_800_000_000);
    assert_eq!(d.name, "edge-01");
    assert_eq!(d.mode, DaemonMode::ServerPoll);
    assert_eq!(d.last_seen, Some(1_800_000_000));
    assert_eq!(src, SubnetSource::ResolveReported);

    let mut legacy = daemon(DaemonMode::ServerPoll, new_id());
    legacy.api_key_id = None;
    legacy.version = Some(Version::new(0, 14, 0));
    let src = legacy.apply_status("renamed".to_string(), DaemonMode::DaemonPoll, None, 1_800_000_000);
    assert_eq!(legacy.name, "renamed");
    assert_eq!(legacy.mode, DaemonMode::DaemonPoll);
    assert_eq!(src, SubnetSource::FilterLegacyIds);
}

#[test]
fn startup_leaves_standby_and_reports_the_unified_upgrade() {
    let mut d = daemon(DaemonMode::ServerPoll, new_id());
    d.version = Some(Version::new(0, 14, 0));
    d.standby = true;
    assert!(d.apply_startup(Version::new(0, 15, 0), 1_800_000_000));
    assert!(!d.standby);
    assert_eq!(d.standby_cleared_at, Some(1_800_000_000));
    assert!(!d.apply_startup(Version::new(0, 16, 0), 1_800_000_100));
    assert_eq!(d.standby_cleared_at, Some(1_800_000_000));
}

// -- api keys --

fn key(name: &str, plaintext: Option<&str>) -> DaemonApiKeyRecord {
    DaemonApiKeyRecord {
        id: new_id(),
        key: "hash".to_string(),
        name: name.to_string(),
        last_used: None,
        expires_at: None,
        network_id: new_id(),
        is_enabled: true,
        tags: Vec::new(),
        daemon_id: None,
        plaintext: plaintext.map(|s| s.to_string()),
    }
}

#[test]
fn update_preserves_stored_plaintext_when_request_omits_it() {
    let existing = key("old-name", Some("scp_d_secret"));
    let mut incoming = key("new-name", None);
    incoming.preserve_immutable_fields(&existing);
    assert_eq!(incoming.name, "new-name");
    assert_eq!(incoming.plaintext.as_ref().expect("plaintext preserved across update"), "scp_d_secret");
}

#[test]
fn update_keeps_explicit_new_plaintext() {
    let existing = key("k", Some("old-secret"));
    let mut incoming = key("k", Some("new-secret"));
    incoming.preserve_immutable_fields(&existing);
    assert_eq!(incoming.plaintext.as_ref().unwrap(), "new-secret");
}

#[test]
fn update_keeps_key_hash_and_binding() {
    let mut existing = key("k", None);
    existing.key = "stored-hash".to_string();
    existing.daemon_id = Some(new_id());
    existing.last_used = Some(1_700_000_000);
    let mut incoming = key("k2", None);
    incoming.key = "forged".to_string();
    incoming.preserve_immutable_fields(&existing);
    assert_eq!(incoming.key, "stored-hash");
    assert_eq!(incoming.daemon_id, existing.daemon_id);
    assert_eq!(incoming.last_used, Some(1_700_000_000));
    assert_eq!(incoming.name, "k2");
}

// -- version gates --

#[test]
fn version_gate_refuses_below_floor() {
    let policy = DaemonVersionPolicy::at(1_800_000_000);
    let e = check_daemon_version(&Version::new(0, 11, 0), &policy).unwrap_err();
    assert_eq!(e.version, "0.11.0");
    assert_eq!(e.minimum, "0.12.0");
    assert!(check_daemon_version(&Version::new(0, 12, 0), &policy).is_ok());
}

#[test]
fn registration_gates() {
    let policy = DaemonVersionPolicy::at(1_800_000_000);
    assert!(matches!(registration_gate(true, Some("0.17.0"), &policy), Err(RegistrationRejection::DemoModeBlocked)));
    assert!(matches!(
        registration_gate(false, Some("0.10.0"), &policy),
        Err(RegistrationRejection::VersionTooOld(_))
    ));
    let v = registration_gate(false, Some("0.17.0"), &policy).unwrap().unwrap();
    assert_eq!((v.major, v.minor, v.patch), (0, 17, 0));
    assert!(registration_gate(false, Some("garbage"), &policy).unwrap().is_none());
    assert!(registration_gate(false, None, &policy).unwrap().is_none());

    assert!(check_self_registration(Some(&Version::new(0, 17, 4))).is_ok());
    assert!(matches!(
        check_self_registration(Some(&Version::new(0, 17, 5))),
        Err(RegistrationRejection::NotProvisioned)
    ));

    let owner = new_id();
    assert_eq!(registration_user(Uuid::nil(), Some(owner)), owner);
    let requested = new_id();
    assert_eq!(registration_user(requested, Some(owner)), requested);
}

#[test]
fn target_types_too_new_for_the_daemon_are_refused() {
    let kinds = vec![CredentialKind::SnmpV2c, CredentialKind::Gnmi];
    assert!(check_target_versions(&kinds, Some(&Version::new(0, 17, 12))).is_ok());
    let m = check_target_versions(&kinds, Some(&Version::new(0, 17, 0))).unwrap_err();
    assert_eq!(m, "Credential type \"gNMI\" requires daemon version 0.17.12 or newer, but this daemon is on 0.17.0.");
    let m = check_target_versions(&kinds, None).unwrap_err();
    assert_eq!(m, "Credential type \"gNMI\" requires daemon version 0.17.12 or newer, but this daemon is on an unknown version.");
}

// -- work and operator actions --

#[test]
fn work_request_gates() {
    let network = new_id();
    let d = daemon(DaemonMode::DaemonPoll, network);
    assert_eq!(work_request_gate(Some(&d), network, None), Ok(()));
    assert_eq!(work_request_gate(Some(&d), new_id(), None), Err(WorkRequestRejection::AccessDenied));
    let mut s = daemon(DaemonMode::DaemonPoll, network);
    s.standby = true;
    assert_eq!(work_request_gate(Some(&s), network, None), Err(WorkRequestRejection::Standby));
    assert_eq!(
        work_request_gate(None, network, Some(&Version::new(0, 15, 0))),
        Err(WorkRequestRejection::NotRegistered)
    );
    assert_eq!(work_request_gate(None, network, None), Err(WorkRequestRejection::Standby));
}

#[test]
fn retry_connection_rules() {
    let network = new_id();
    let mut d = daemon(DaemonMode::ServerPoll, network);
    d.is_unreachable = true;
    assert!(matches!(retry_connection(&mut d, &vec![new_id()]), Err(RetryRejection::AccessDenied)));
    assert!(d.is_unreachable);
    assert!(matches!(retry_connection(&mut d, &vec![network]), Ok(true)));
    assert!(!d.is_unreachable);
    assert!(matches!(retry_connection(&mut d, &vec![network]), Ok(false)));
    let mut p = daemon(DaemonMode::DaemonPoll, network);
    match retry_connection(&mut p, &vec![network]) {
        Err(RetryRejection::NotServerPoll(m)) => {
            assert_eq!(m, "Connection retry is only available for ServerPoll mode daemons")
        }
        _ => panic!("expected NotServerPoll"),
    }
}

#[test]
fn cancellation_delivery() {
    assert!(matches!(plan_cancellation(None), Err(CancelDelivery::Undeliverable(_))));
    let d = daemon(DaemonMode::DaemonPoll, new_id());
    assert!(matches!(plan_cancellation(Some(&d)), Err(CancelDelivery::PulledByDaemon)));
    let mut s = daemon(DaemonMode::ServerPoll, new_id());
    assert!(matches!(plan_cancellation(Some(&s)), Ok(true)));
    s.is_unreachable = true;
    let out = plan_cancellation(Some(&s)).unwrap_err();
    assert_eq!(out.outcome(), "undeliverable");
    assert_eq!(out.detail().as_deref(), Some("the daemon is marked unreachable"));
    assert_eq!(
        out.session_failure().as_deref(),
        Some("Cancellation could not reach the daemon: the daemon is marked unreachable")
    );

    assert!(matches!(sent_outcome(&Ok(()), String::new()), CancelDelivery::Delivered));
    assert!(matches!(sent_outcome(&Err(http_err(409)), String::new()), CancelDelivery::NotRunning));
    match sent_outcome(&Err(http_err(500)), "boom".to_string()) {
        CancelDelivery::Failed(e) => assert_eq!(e, "boom"),
        _ => panic!("expected Failed"),
    }
}

#[test]
fn unreachable_notice_only_for_daemons_ever_seen() {
    let mut d = daemon(DaemonMode::ServerPoll, new_id());
    assert!(!d.mark_unreachable());
    assert!(d.is_unreachable);
    d.last_seen = Some(1);
    assert!(d.mark_unreachable());
}

#[test]
fn reprovisioning_is_refused_once_the_daemon_connected() {
    let network = new_id();
    let mut d = daemon(DaemonMode::ServerPoll, network);
    assert!(reprovision_gate(&d, &vec![network]).is_ok());
    assert!(matches!(reprovision_gate(&d, &vec![new_id()]), Err(ReprovisionRejection::AccessDenied)));
    d.last_seen = Some(1_800_000_000);
    match reprovision_gate(&d, &vec![network]) {
        Err(ReprovisionRejection::AlreadyConnected(m)) => assert_eq!(
            m,
            "This daemon is already connected with its own API key. Rotate its key instead of re-provisioning it."
        ),
        _ => panic!("expected AlreadyConnected"),
    }
    d.api_key_id = None;
    assert!(reprovision_gate(&d, &vec![network]).is_ok());
}

#[test]
fn backoff_builders_follow_the_policy() {
    let expected = backon::ExponentialBuilder::default()
        .with_min_delay(std::time::Duration::from_secs(2))
        .with_max_delay(std::time::Duration::from_secs(2))
        .with_max_times(1);
    assert_eq!(format!("{:?}", RetryPolicy::Brief.backoff_builder()), format!("{:?}", expected));
    let standard = format!("{:?}", RetryPolicy::Standard.backoff_builder());
    assert_ne!(standard, format!("{:?}", backon::ExponentialBuilder::default()));
}

#[test]
fn registration_is_admitted_then_routed() {
    let policy = DaemonVersionPolicy::at(1_800_000_000);
    let key_daemon = new_id();
    let requested = new_id();
    assert!(matches!(
        admit_registration(true, Some("0.17.0"), &policy, Some(key_daemon), requested),
        Err(RegistrationRejection::DemoModeBlocked)
    ));
    assert!(matches!(
        admit_registration(false, Some("0.9.0"), &policy, Some(key_daemon), requested),
        Err(RegistrationRejection::VersionTooOld(_))
    ));
    let a = admit_registration(false, Some("0.17.6"), &policy, Some(key_daemon), requested).unwrap();
    assert_eq!(a.daemon_id, key_daemon);
    let v = a.version.unwrap();
    assert_eq!((v.major, v.minor, v.patch), (0, 17, 6));
    let a = admit_registration(false, None, &policy, None, requested).unwrap();
    assert_eq!(a.daemon_id, requested);

    assert_eq!(registration_path(true, Some(&Version::new(0, 17, 6))).unwrap(), RegistrationPath::Reregister);
    assert!(matches!(registration_path(false, Some(&Version::new(0, 17, 6))), Err(RegistrationRejection::NotProvisioned)));
    assert_eq!(registration_path(false, Some(&Version::new(0, 17, 4))).unwrap(), RegistrationPath::SelfRegister);
    assert_eq!(registration_path(false, None).unwrap(), RegistrationPath::SelfRegister);
}

#[test]
fn work_requests_send_work_only_when_ready_and_always_forward_cancellations() {
    let s = work_start(true);
    let (s, step) = work_next(s, WorkEvent::Checked { refused: None });
    assert_eq!(step, WorkStep::ProcessStatus);
    let (s, step) = work_next(s, WorkEvent::StatusProcessed);
    assert_eq!(step, WorkStep::LoadPendingWork);
    let (s, step) = work_next(s, WorkEvent::PendingWorkLoaded { present: true });
    assert_eq!(step, WorkStep::LoadCancellation);
    let (_, step) = work_next(s, WorkEvent::CancellationLoaded { present: true });
    assert_eq!(step, WorkStep::Reply { work: true, cancellation: true });

    let s = work_start(false);
    let (s, _) = work_next(s, WorkEvent::Checked { refused: None });
    let (s, step) = work_next(s, WorkEvent::StatusProcessed);
    assert_eq!(step, WorkStep::LoadCancellation);
    let (_, step) = work_next(s, WorkEvent::CancellationLoaded { present: true });
    assert_eq!(step, WorkStep::Reply { work: false, cancellation: true });

    let (_, step) = work_next(work_start(true), WorkEvent::Checked { refused: Some(WorkRequestRejection::Standby) });
    assert_eq!(step, WorkStep::Refuse(WorkRequestRejection::Standby));
}

#[test]
fn standby_changes_nothing_else() {
    let mut d = daemon(DaemonMode::ServerPoll, new_id());
    d.last_seen = Some(42);
    let network = d.network_id;
    d.enter_standby();
    assert!(d.standby);
    assert_eq!(d.network_id, network);
    assert_eq!(d.last_seen, Some(42));
}
