use scanopy::daemons::{DaemonMode, DaemonRecord};
use scanopy::dependencies::{
    check_member_networks, hydrate_members, member_rows, DependencyMembers, MemberKind, MemberRow,
};
use scanopy::dispatch::{
    credential_targets_loopback, loopback_interface, plan_credential_mappings, plan_snmp_mapping,
    scope_loopback_assignments, Assignment, CredentialAssignment, CredentialRecord, HostAssignments, InterfaceRow,
    MappingSources,
};
use scanopy::fields::{pem_verdict, FieldError, InlineFormat, PemTag};
use scanopy::ids::Uuid;
use scanopy::install::{split_list, DaemonOs, InstallCommandKind, InstallCommandQuery};
use scanopy::kinds::{CredentialCategory, CredentialKind, CredentialType, FileOrInline, SecretValue};
use scanopy::mapping::{ResolvableSecret, ResolvableValue};
use scanopy::net::IpAddress;
use scanopy::payload::{CredentialQueryPayload, DockerProxyQueryCredential, PayloadKind};
use scanopy::polling::{expects_event, poll_next, poll_start, PollEnd, PollEvent, PollPhase, PollStep};
use scanopy::queries::{
    plan_usage, summarize_daemons, CredentialFilterQuery, CredentialOrderField, DaemonFilterQuery, PlanLimits,
};
use scanopy::snmp::{SnmpQueryCredential, SnmpVersion};
use scanopy::version::{DaemonVersionPolicy, Version, VersionHealthStatus};

const CERT: &str = "-----BEGIN CERTIFICATE-----\nMIIBszCCAVmgAwIBAgIUQ0FBQUFBQUFBQUFBQUFBQUFBQUEwCgYIKoZIzj0EAwIw\n-----END CERTIFICATE-----\n";

fn new_id() -> Uuid {
    Uuid::from_u128(uuid::Uuid::new_v4().as_u128())
}

fn err_of<T>(r: Result<T, FieldError>) -> FieldError {
    match r {
        Err(e) => e,
        Ok(_) => panic!("expected an error"),
    }
}

fn snmp(community: &str) -> CredentialType {
    CredentialType::SnmpV2c { community: SecretValue::Inline { value: community.to_string() } }
}

fn docker(port: u16) -> CredentialType {
    CredentialType::DockerProxy { port, path: None, ssl_cert: None, ssl_key: None, ssl_chain: None }
}

fn record(credential_type: CredentialType) -> CredentialRecord {
    CredentialRecord { id: new_id(), credential_type, target_ips: None }
}

// -- dispatch --

#[test]
fn network_defaults_and_host_overrides_are_grouped_by_type() {
    let host = new_id();
    let iface = InterfaceRow { id: new_id(), host_id: host, ip: IpAddress::V4(10, 0, 0, 5) };
    let docker_cred = record(docker(2375));
    let docker_id = docker_cred.id;
    let src = MappingSources {
        network_credentials: vec![record(snmp("net-default"))],
        hosts: vec![HostAssignments {
            host_id: host,
            assignments: vec![Assignment { credential: docker_cred, interface_ids: None }],
        }],
        interfaces: vec![iface],
        org_target_ip_credentials: None,
        pending: vec![],
    };
    let plan = plan_credential_mappings(&src);
    assert_eq!(plan.mappings.len(), 2);
    assert_eq!(plan.mappings[0].kind, CredentialKind::SnmpV2c);
    assert!(plan.mappings[0].mapping.default_credential.is_some());
    assert!(plan.mappings[0].mapping.ip_overrides.is_empty());
    assert_eq!(plan.mappings[1].kind, CredentialKind::DockerProxy);
    assert!(plan.mappings[1].mapping.default_credential.is_none());
    assert_eq!(plan.mappings[1].mapping.ip_overrides.len(), 1);
    assert_eq!(plan.mappings[1].mapping.ip_overrides[0].ip, IpAddress::V4(10, 0, 0, 5));
    assert_eq!(plan.mappings[1].mapping.ip_overrides[0].credential_id, docker_id);
    assert!(plan.clear_target_ips.is_empty());
}

#[test]
fn bootstrap_targets_become_overrides_and_are_cleared() {
    let mut boot = record(snmp("boot"));
    boot.target_ips = Some(vec![IpAddress::V4(192, 168, 1, 9)]);
    let boot_id = boot.id;
    let src = MappingSources {
        network_credentials: vec![],
        hosts: vec![],
        interfaces: vec![],
        org_target_ip_credentials: Some(vec![boot]),
        pending: vec![],
    };
    let plan = plan_credential_mappings(&src);
    assert_eq!(plan.mappings.len(), 1);
    assert_eq!(plan.mappings[0].mapping.ip_overrides.len(), 1);
    assert_eq!(plan.mappings[0].mapping.ip_overrides[0].ip, IpAddress::V4(192, 168, 1, 9));
    assert_eq!(plan.clear_target_ips, vec![boot_id]);
}

#[test]
fn legacy_snmp_mapping_takes_first_snmp_default() {
    let host = new_id();
    let iface = InterfaceRow { id: new_id(), host_id: host, ip: IpAddress::V4(10, 0, 0, 7) };
    let m = plan_snmp_mapping(
        &vec![record(docker(1)), record(snmp("first")), record(snmp("second"))],
        &vec![HostAssignments {
            host_id: host,
            assignments: vec![Assignment { credential: record(snmp("host")), interface_ids: None }],
        }],
        &vec![iface],
    );
    let d = m.default_credential.unwrap();
    assert!(d.community == ResolvableSecret::Value { value: "first".to_string() });
    assert_eq!(m.ip_overrides.len(), 1);
    assert_eq!(m.ip_overrides[0].ip, IpAddress::V4(10, 0, 0, 7));
}

// -- payloads --

#[test]
fn payload_kinds_ports_and_labels() {
    let s = CredentialQueryPayload::Snmp(SnmpQueryCredential {
        version: SnmpVersion::V2c,
        community: ResolvableSecret::Value { value: "public".to_string() },
    });
    assert_eq!(s.kind(), PayloadKind::Snmp);
    assert_eq!(s.required_scan_ports(), vec![161, 1161]);
    assert_eq!(s.discovery_label(), "SNMP queries");
    assert_eq!(PayloadKind::DockerProxy.name(), "Docker proxy");
    let d = CredentialQueryPayload::PodmanProxy(DockerProxyQueryCredential {
        port: 8888,
        path: None,
        ssl_cert: None,
        ssl_key: None,
        ssl_chain: None,
    });
    assert_eq!(d.required_scan_ports(), vec![8888]);
    assert!(d.as_container_proxy().is_some());
    assert!(s.as_container_proxy().is_none());
}

#[test]
fn file_paths_are_resolved_from_reads() {
    let p = CredentialQueryPayload::DockerProxy(DockerProxyQueryCredential {
        port: 2376,
        path: None,
        ssl_cert: Some(ResolvableValue::FilePath { path: "/c.pem".to_string() }),
        ssl_key: None,
        ssl_chain: Some(ResolvableValue::Value { value: String::new() }),
    });
    assert_eq!(p.file_paths(), vec!["/c.pem".to_string()]);
    match p.resolve_file_paths(&vec![Ok(CERT.to_string())]).unwrap() {
        CredentialQueryPayload::DockerProxy(d) => {
            assert!(d.ssl_cert == Some(ResolvableValue::Value { value: CERT.to_string() }))
        }
        _ => panic!("expected DockerProxy"),
    }
    let e = err_of(p.resolve_file_paths(&vec![Err("No such file".to_string())]));
    assert_eq!(e.message, "Failed to read ssl_cert from /c.pem for Docker proxy connection: No such file");
    let e = err_of(p.resolve_file_paths(&vec![Ok("not pem".to_string())]));
    assert!(e.message.starts_with("SSL Certificate"));
}

#[test]
fn snmp_community_read_from_file() {
    let p = CredentialQueryPayload::Snmp(SnmpQueryCredential {
        version: SnmpVersion::V2c,
        community: ResolvableSecret::FilePath { path: "/etc/community".to_string() },
    });
    assert_eq!(p.file_paths(), vec!["/etc/community".to_string()]);
    match p.resolve_file_paths(&vec![Ok("s3cret".to_string())]).unwrap() {
        CredentialQueryPayload::Snmp(c) => assert!(c.community == ResolvableSecret::Value { value: "s3cret".to_string() }),
        _ => panic!("expected Snmp"),
    }
}

// -- fields --

#[test]
fn pem_checks() {
    assert!(InlineFormat::Plain.validate("anything", "f").is_ok());
    assert!(InlineFormat::PemCertificate.validate("   ", "f").is_ok());
    assert!(InlineFormat::PemCertificate.validate(CERT, "SSL Certificate").is_ok());
    let e = InlineFormat::PemPrivateKey.validate(CERT, "SSL Private Key").unwrap_err();
    assert_eq!(
        e.message,
        "SSL Private Key must contain a PRIVATE KEY or RSA PRIVATE KEY or EC PRIVATE KEY PEM block, found: CERTIFICATE"
    );
    let e = pem_verdict(&Ok(vec![]), "Field", &vec![PemTag::Certificate]).unwrap_err();
    assert_eq!(e.message, "Field contains no PEM data");
    let e = pem_verdict(&Err("bad base64".to_string()), "Field", &vec![PemTag::Certificate]).unwrap_err();
    assert_eq!(e.message, "Field is not valid PEM: bad base64");
    assert_eq!(PemTag::EcPrivateKey.as_str(), "EC PRIVATE KEY");
}

#[test]
fn credential_validation_and_inline_values() {
    let bad = CredentialType::DockerProxy {
        port: 2376,
        path: None,
        ssl_cert: Some(FileOrInline::Inline { value: "nope".to_string() }),
        ssl_key: None,
        ssl_chain: None,
    };
    assert!(bad.validate().is_err());
    assert!(snmp("public").validate().is_ok());
    assert_eq!(snmp("public").get_inline_value("community").as_deref(), Some("public"));
    assert_eq!(snmp("********").get_inline_value("community"), None);
    assert_eq!(snmp("public").get_inline_value("nope"), None);
}

// -- kinds --

#[test]
fn kind_metadata() {
    assert_eq!(CredentialKind::SnmpV2c.display_name(), "SNMP v2c");
    assert_eq!(CredentialKind::DockerProxy.credential_category(), CredentialCategory::ContainerVirtualization);
    assert!(CredentialKind::SnmpV2c.compatible_with_daemon(None));
    assert!(!CredentialKind::Gnmi.compatible_with_daemon(None));
    assert!(CredentialKind::Gnmi.compatible_with_daemon(Some(&Version::new(0, 17, 12))));
    assert!(!CredentialKind::Gnmi.compatible_with_daemon(Some(&Version::new(0, 17, 11))));
    assert_eq!(CredentialKind::UnifiApiKey.type_tag(), "UnifiApiKey");
}

// -- polling --

#[test]
fn a_ready_daemon_with_work_gets_a_discovery_request() {
    let s = poll_start();
    let steps = [
        PollEvent::Started { supports_full_server_poll: true, first_contact: false },
        PollEvent::ApiKeyLoaded { ok: true },
        PollEvent::StatusReceived { ok: true, ready_for_work: true, has_docker_socket: false, version_changed: false },
        PollEvent::StepDone,
        PollEvent::DiscoveryPolled { ok: true, has_progress: false, has_entities: false },
        PollEvent::PendingWorkLoaded { present: true },
        PollEvent::StepDone,
    ];
    let mut state = s;
    let mut last = PollStep::Skip;
    let mut sent = false;
    for e in steps {
        assert!(expects_event(state.phase, e));
        let (next, step) = poll_next(state, e);
        if step == PollStep::SendDiscoveryRequest {
            sent = true;
        }
        state = next;
        last = step;
    }
    assert!(sent);
    assert_eq!(last, PollStep::Finish(PollEnd::Completed));
    assert_eq!(state.phase, PollPhase::Done);
}

#[test]
fn a_legacy_daemon_is_skipped_and_an_unreachable_one_fails() {
    let (s, step) =
        poll_next(poll_start(), PollEvent::Started { supports_full_server_poll: false, first_contact: false });
    assert_eq!(step, PollStep::Skip);
    assert_eq!(s.phase, PollPhase::Done);

    let (s, _) = poll_next(poll_start(), PollEvent::Started { supports_full_server_poll: true, first_contact: true });
    let (s, step) = poll_next(s, PollEvent::ApiKeyLoaded { ok: true });
    assert_eq!(step, PollStep::SendFirstContact);
    let (s, step) = poll_next(
        s,
        PollEvent::StatusReceived { ok: false, ready_for_work: false, has_docker_socket: false, version_changed: false },
    );
    assert_eq!(step, PollStep::MarkUnreachable);
    let (_, step) = poll_next(s, PollEvent::StepDone);
    assert_eq!(step, PollStep::Finish(PollEnd::Failed));
    assert!(!expects_event(PollPhase::Begin, PollEvent::StepDone));
}

// -- install settings --

#[test]
fn interface_lists_are_split_and_trimmed() {
    assert_eq!(split_list(" eth0, ,wlan0 ,"), vec!["eth0".to_string(), "wlan0".to_string()]);
    assert!(split_list("").is_empty());
    let q = InstallCommandQuery {
        purpose: InstallCommandKind::Install,
        log_level: Some("debug".to_string()),
        log_file: None,
        heartbeat_interval: Some(30),
        bind_address: None,
        allow_self_signed_certs: Some(true),
        accept_invalid_scan_certs: None,
        interfaces: Some("eth0,eth1".to_string()),
        credential_refs: Some(" a , b".to_string()),
    };
    let args = q.install_config();
    assert_eq!(args.log_level.as_deref(), Some("debug"));
    assert_eq!(args.heartbeat_interval, Some(30));
    assert_eq!(args.interfaces, Some(vec!["eth0".to_string(), "eth1".to_string()]));
    assert_eq!(q.credential_tokens(), vec!["a".to_string(), "b".to_string()]);
    assert_eq!(DaemonOs::MacOS.as_str(), "macos");
}

// -- queries --

#[test]
fn query_parameters() {
    let q = CredentialFilterQuery {
        credential_type: Some(CredentialKind::SnmpV3),
        group_by: None,
        order_by: Some(CredentialOrderField::Name),
        limit: Some(10),
        offset: None,
    };
    assert_eq!(q.type_filter(), Some("SnmpV3"));
    assert_eq!(q.pagination().limit, Some(10));
    assert_eq!(CredentialOrderField::default(), CredentialOrderField::CreatedAt);

    let mine = new_id();
    let other = new_id();
    let dq = DaemonFilterQuery { network_id: Some(other), group_by: None, order_by: None, limit: None, offset: None };
    assert!(dq.network_scope(&vec![mine]).is_empty());
    let dq = DaemonFilterQuery { network_id: None, group_by: None, order_by: None, limit: None, offset: None };
    assert_eq!(dq.network_scope(&vec![mine, other]), vec![mine, other]);

    let u = plan_usage(Some(PlanLimits { hosts: Some(25), networks: None, seats: Some(3) }), 4, 1, 2);
    assert_eq!((u.host_limit, u.host_count, u.network_limit, u.seat_limit), (Some(25), 4, None, Some(3)));
    assert_eq!(plan_usage(None, 1, 1, 1).host_limit, None);
}

#[test]
fn daemon_summaries_carry_version_health() {
    let policy = DaemonVersionPolicy::at(1_800_000_000);
    let d = DaemonRecord {
        id: new_id(),
        host_id: new_id(),
        network_id: new_id(),
        url: String::new(),
        last_seen: Some(5),
        mode: DaemonMode::DaemonPoll,
        name: "d".to_string(),
        tags: vec![],
        version: Some(Version::new(0, 16, 0)),
        user_id: new_id(),
        api_key_id: None,
        is_unreachable: false,
        standby: false,
        standby_cleared_at: None,
    };
    let s = summarize_daemons(&vec![d], &policy);
    assert_eq!(s.len(), 1);
    assert_eq!(s[0].name, "d");
    assert_eq!(s[0].version_status.status, VersionHealthStatus::Outdated);
}

// -- dependency members --

#[test]
fn service_members_are_deduplicated_in_order() {
    let dep = new_id();
    let (a, b) = (new_id(), new_id());
    let rows = member_rows(dep, &DependencyMembers::Services { service_ids: vec![a, b, a] }, &vec![]).unwrap();
    assert_eq!(rows.len(), 2);
    assert_eq!(rows[0], MemberRow { dependency_id: dep, service_id: a, binding_id: None, position: 0 });
    assert_eq!(rows[1].service_id, b);
    assert_eq!(rows[1].position, 1);
    match hydrate_members(&DependencyMembers::Services { service_ids: vec![] }, &rows) {
        DependencyMembers::Services { service_ids } => assert_eq!(service_ids, vec![a, b]),
        _ => panic!("expected Services"),
    }
}

#[test]
fn binding_members_need_their_services() {
    let dep = new_id();
    let binding = Uuid::from_u128(0x11111111_2222_3333_4444_555555555555);
    let e = member_rows(dep, &DependencyMembers::Bindings { binding_ids: vec![binding] }, &vec![None]).unwrap_err();
    assert_eq!(e, "Binding 11111111-2222-3333-4444-555555555555 not found");
    let svc = new_id();
    let rows = member_rows(dep, &DependencyMembers::Bindings { binding_ids: vec![binding] }, &vec![Some(svc)]).unwrap();
    assert_eq!(rows[0].binding_id, Some(binding));
    assert_eq!(rows[0].service_id, svc);
}

#[test]
fn members_must_share_the_dependency_network() {
    let net = Uuid::from_u128(1);
    let other = Uuid::from_u128(2);
    let id = Uuid::from_u128(3);
    assert!(check_member_networks(MemberKind::Service, net, &vec![id], &vec![Some(net)]).is_ok());
    assert_eq!(
        check_member_networks(MemberKind::Service, net, &vec![id], &vec![None]).unwrap_err(),
        "Service 00000000-0000-0000-0000-000000000003 not found"
    );
    assert_eq!(
        check_member_networks(MemberKind::Binding, net, &vec![id], &vec![Some(other)]).unwrap_err(),
        "Dependency is on network 00000000-0000-0000-0000-000000000001, can't add binding on network 00000000-0000-0000-0000-000000000002"
    );
}

#[test]
fn loopback_credentials_are_scoped_to_the_loopback_interface() {
    let host = new_id();
    let lo = new_id();
    let ifaces = vec![
        InterfaceRow { id: new_id(), host_id: host, ip: IpAddress::V4(10, 0, 0, 2) },
        InterfaceRow { id: new_id(), host_id: new_id(), ip: IpAddress::V4(127, 0, 0, 1) },
        InterfaceRow { id: lo, host_id: host, ip: IpAddress::V4(127, 0, 0, 1) },
    ];
    assert_eq!(loopback_interface(&ifaces, host), Some(lo));
    assert_eq!(loopback_interface(&ifaces[..1].to_vec(), host), None);

    assert!(credential_targets_loopback(&Some(vec![IpAddress::V4(8, 8, 8, 8), IpAddress::V6(0, 0, 0, 0, 0, 0, 0, 1)])));
    assert!(!credential_targets_loopback(&Some(vec![IpAddress::V4(8, 8, 8, 8)])));
    assert!(!credential_targets_loopback(&None));

    let (a, b, c) = (new_id(), new_id(), new_id());
    let limited = vec![new_id()];
    let assignments = vec![
        CredentialAssignment { credential_id: a, ip_address_ids: None },
        CredentialAssignment { credential_id: b, ip_address_ids: Some(limited.clone()) },
        CredentialAssignment { credential_id: c, ip_address_ids: None },
    ];
    let (scoped, changed) = scope_loopback_assignments(&assignments, &vec![true, true, false], lo);
    assert!(changed);
    assert_eq!(scoped[0], CredentialAssignment { credential_id: a, ip_address_ids: Some(vec![lo]) });
    assert_eq!(scoped[1], CredentialAssignment { credential_id: b, ip_address_ids: Some(limited) });
    assert_eq!(scoped[2], CredentialAssignment { credential_id: c, ip_address_ids: None });
    let (_, changed) = scope_loopback_assignments(&assignments, &vec![false, true, false], lo);
    assert!(!changed);
}

#[test]
fn daemon_summaries_carry_warnings_and_flags() {
    let policy = DaemonVersionPolicy::at(1_800_000_000);
    let d = DaemonRecord {
        id: new_id(),
        host_id: new_id(),
        network_id: new_id(),
        url: String::new(),
        last_seen: None,
        mode: DaemonMode::ServerPoll,
        name: "e".to_string(),
        tags: vec![],
        version: Some(Version::new(0, 16, 1)),
        user_id: new_id(),
        api_key_id: None,
        is_unreachable: true,
        standby: false,
        standby_cleared_at: None,
    };
    let s = summarize_daemons(&vec![d], &policy);
    let st = &s[0].version_status;
    assert_eq!(st.version.as_deref(), Some("0.16.1"));
    assert_eq!(st.warnings.len(), 1);
    assert!(st.sunset_date.is_none());
    assert!(st.supports_unified_discovery);
    assert!(st.has_correct_docker_volume_mount);
    assert!(!st.supports_targeted_rescan);
    assert!(s[0].is_unreachable);
}

#[test]
fn default_credentials_of_each_kind() {
    match CredentialKind::SnmpV2c.to_credential_type() {
        Some(CredentialType::SnmpV2c { community: SecretValue::Inline { value } }) => assert_eq!(value, ""),
        _ => panic!("expected an SNMPv2c credential"),
    }
    match CredentialKind::DockerProxy.to_credential_type() {
        Some(CredentialType::DockerProxy { port, path, ssl_cert, ssl_key, ssl_chain }) => {
            assert_eq!(port, 2375);
            assert!(path.is_none() && ssl_cert.is_none() && ssl_key.is_none() && ssl_chain.is_none());
        }
        _ => panic!("expected a Docker proxy credential"),
    }
    assert!(CredentialKind::Gnmi.to_credential_type().is_none());
}
