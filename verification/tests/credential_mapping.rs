use scanopy::ids::Uuid;
use scanopy::kinds::{CredentialType, FileOrInline, SecretValue, REDACTED_SECRET_SENTINEL};
use scanopy::mapping::{
    BannerFieldValue, CredentialMapping, IpOverride, ResolvableSecret, ResolvableValue,
};
use scanopy::net::IpAddress;
use scanopy::payload::{CredentialQueryPayload, DockerProxyQueryCredential};
use scanopy::snmp::{SnmpCredentialMapping, SnmpCredentialMappingExposed, SnmpQueryCredential, SnmpVersion};

fn new_id() -> Uuid {
    Uuid::from_u128(uuid::Uuid::new_v4().as_u128())
}

fn v4(a: u8, b: u8, c: u8, d: u8) -> IpAddress {
    IpAddress::V4(a, b, c, d)
}

fn make_snmp_cred(community: &str) -> SnmpQueryCredential {
    SnmpQueryCredential {
        version: SnmpVersion::V2c,
        community: ResolvableSecret::Value { value: community.to_string() },
    }
}

fn make_override(ip: IpAddress, cred_id: Uuid) -> IpOverride<SnmpQueryCredential> {
    IpOverride { ip, credential: make_snmp_cred("public"), credential_id: cred_id }
}

fn community_value(cred: &SnmpQueryCredential) -> &str {
    match &cred.community {
        ResolvableSecret::Value { value } => value,
        ResolvableSecret::FilePath { path } => path,
    }
}

// -- credential_ids --

#[test]
fn credential_ids_filters_nil_uuids() {
    let mapping = CredentialMapping {
        default_credential: Some(make_snmp_cred("public")),
        ip_overrides: vec![
            make_override(v4(10, 0, 0, 1), Uuid::nil()),
            make_override(v4(10, 0, 0, 2), new_id()),
        ],
    };
    let ids = mapping.credential_ids();
    assert_eq!(ids.len(), 1);
    assert_ne!(ids[0], Uuid::nil());
}

#[test]
fn credential_ids_deduplicates() {
    let shared_id = new_id();
    let mapping = CredentialMapping {
        default_credential: None,
        ip_overrides: vec![make_override(v4(10, 0, 0, 1), shared_id), make_override(v4(10, 0, 0, 2), shared_id)],
    };
    let ids = mapping.credential_ids();
    assert_eq!(ids.len(), 1);
    assert_eq!(ids[0], shared_id);
}

#[test]
fn credential_ids_empty_when_no_overrides() {
    let mapping: CredentialMapping<SnmpQueryCredential> =
        CredentialMapping { default_credential: Some(make_snmp_cred("public")), ip_overrides: vec![] };
    assert!(mapping.credential_ids().is_empty());
}

// -- is_enabled --

#[test]
fn is_enabled_default_only() {
    let mapping = CredentialMapping { default_credential: Some(make_snmp_cred("public")), ip_overrides: vec![] };
    assert!(mapping.is_enabled());
}

#[test]
fn is_enabled_overrides_only() {
    let mapping = CredentialMapping {
        default_credential: None,
        ip_overrides: vec![make_override(v4(10, 0, 0, 1), new_id())],
    };
    assert!(mapping.is_enabled());
}

#[test]
fn is_enabled_empty() {
    let mapping: CredentialMapping<SnmpQueryCredential> = CredentialMapping::default();
    assert!(!mapping.is_enabled());
}

// -- get_credential_for_ip --

#[test]
fn get_credential_for_ip_override_match() {
    let ip = v4(10, 0, 0, 1);
    let mapping = CredentialMapping {
        default_credential: Some(make_snmp_cred("default")),
        ip_overrides: vec![IpOverride { ip, credential: make_snmp_cred("override"), credential_id: new_id() }],
    };
    let cred = mapping.get_credential_for_ip(&ip).unwrap();
    assert!(cred.community == ResolvableSecret::Value { value: "override".to_string() });
}

#[test]
fn get_credential_for_ip_fallback_to_default() {
    let mapping = CredentialMapping {
        default_credential: Some(make_snmp_cred("default")),
        ip_overrides: vec![make_override(v4(10, 0, 0, 1), new_id())],
    };
    let other_ip = v4(10, 0, 0, 99);
    let cred = mapping.get_credential_for_ip(&other_ip).unwrap();
    assert!(cred.community == ResolvableSecret::Value { value: "default".to_string() });
}

#[test]
fn get_credential_for_ip_no_match() {
    let mapping: CredentialMapping<SnmpQueryCredential> = CredentialMapping {
        default_credential: None,
        ip_overrides: vec![make_override(v4(10, 0, 0, 1), new_id())],
    };
    let other_ip = v4(10, 0, 0, 99);
    assert!(mapping.get_credential_for_ip(&other_ip).is_none());
}

#[test]
fn get_credential_for_ip_first_override_wins() {
    let ip = v4(10, 0, 0, 1);
    let mapping = CredentialMapping {
        default_credential: None,
        ip_overrides: vec![
            IpOverride { ip, credential: make_snmp_cred("first"), credential_id: new_id() },
            IpOverride { ip, credential: make_snmp_cred("second"), credential_id: new_id() },
        ],
    };
    assert_eq!(community_value(mapping.get_credential_for_ip(&ip).unwrap()), "first");
}

// -- is_localhost --

#[test]
fn is_localhost_v4() {
    let o = make_override(v4(127, 0, 0, 1), new_id());
    assert!(o.is_localhost());
}

#[test]
fn is_localhost_v6() {
    let o = make_override(IpAddress::V6(0, 0, 0, 0, 0, 0, 0, 1), new_id());
    assert!(o.is_localhost());
}

#[test]
fn is_localhost_non_local() {
    let o = make_override(v4(10, 0, 0, 1), new_id());
    assert!(!o.is_localhost());
}

#[test]
fn is_localhost_only_exact_loopback_address() {
    assert!(!make_override(v4(127, 0, 0, 2), new_id()).is_localhost());
}

// -- banner lines --

#[test]
fn banner_lines_docker_proxy() {
    let payload = CredentialQueryPayload::DockerProxy(DockerProxyQueryCredential {
        port: 2376,
        path: Some("/".to_string()),
        ssl_cert: Some(ResolvableValue::Value { value: "cert-content".to_string() }),
        ssl_key: Some(ResolvableSecret::FilePath { path: "/nonexistent/key.pem".to_string() }),
        ssl_chain: None,
    });
    let lines = payload.banner_lines();
    assert_eq!(lines.len(), 4); // port, path, ssl_cert, ssl_key
    assert_eq!(lines[0].label, "Port");
    assert!(matches!(&lines[0].value, BannerFieldValue::Plain(v) if v == "2376"));
    assert_eq!(lines[1].label, "Path");
    assert_eq!(lines[2].label, "SSL cert");
    // Short inline values show as Plain
    assert!(matches!(&lines[2].value, BannerFieldValue::Plain(v) if v == "cert-content"));
    assert_eq!(lines[3].label, "SSL key");
    assert!(lines[3].value.is_failed());
}

#[test]
fn banner_lines_snmp() {
    let payload = CredentialQueryPayload::Snmp(make_snmp_cred("my-community"));
    let lines = payload.banner_lines();
    assert_eq!(lines.len(), 2);
    assert_eq!(lines[0].label, "Community");
    assert!(matches!(lines[0].value, BannerFieldValue::RedactedInline(12))); // "my-community".len()
    assert_eq!(lines[1].label, "Version");
    assert!(matches!(&lines[1].value, BannerFieldValue::Plain(v) if v == "V2c"));
}

#[test]
fn long_inline_values_are_summarised_by_length() {
    let long = "x".repeat(65);
    let v = ResolvableValue::Value { value: long }.banner_value();
    assert!(matches!(v, BannerFieldValue::InlineSummary(65)));
    assert_eq!(v.text(), "<inline, 65 chars>");
    let at_limit = ResolvableValue::Value { value: "y".repeat(64) }.banner_value();
    assert!(matches!(at_limit, BannerFieldValue::Plain(_)));
}

#[test]
fn banner_texts() {
    assert_eq!(BannerFieldValue::RedactedInline(12).text(), "******** (12 chars)");
    assert_eq!(BannerFieldValue::FileOk("/a".to_string()).text(), "successfully read from /a");
    assert_eq!(BannerFieldValue::FileFailed("/b".to_string()).text(), "failed to read from /b");
    assert!(!BannerFieldValue::FileOk("/a".to_string()).is_failed());
}

// -- SNMP resolution by specificity --

#[test]
fn specificity_ordering() {
    let ip = v4(10, 0, 0, 1);
    let other_ip = v4(10, 0, 0, 2);
    let cred_id = new_id();

    let mapping = SnmpCredentialMapping {
        default_credential: Some(make_snmp_cred("default-community")),
        ip_overrides: vec![IpOverride { ip, credential: make_snmp_cred("override-community"), credential_id: cred_id }],
    };

    // IP with override: override first, then default, then public
    let creds = mapping.get_credentials_by_specificity(&ip);
    assert_eq!(creds.len(), 3);
    assert_eq!(community_value(&creds[0].credential), "override-community");
    assert_eq!(creds[0].credential_id, Some(cred_id));
    assert_eq!(community_value(&creds[1].credential), "default-community");
    assert_eq!(creds[1].credential_id, None);
    assert_eq!(community_value(&creds[2].credential), "public");
    assert_eq!(creds[2].credential_id, None);

    // IP without override: default, then public
    let creds = mapping.get_credentials_by_specificity(&other_ip);
    assert_eq!(creds.len(), 2);
    assert_eq!(community_value(&creds[0].credential), "default-community");
    assert_eq!(community_value(&creds[1].credential), "public");
}

#[test]
fn specificity_deduplicates() {
    let ip = v4(10, 0, 0, 1);
    let mapping = SnmpCredentialMapping {
        default_credential: Some(make_snmp_cred("public")),
        ip_overrides: vec![IpOverride { ip, credential: make_snmp_cred("public"), credential_id: Uuid::nil() }],
    };
    let creds = mapping.get_credentials_by_specificity(&ip);
    assert_eq!(creds.len(), 1);
    assert_eq!(community_value(&creds[0].credential), "public");
    assert_eq!(creds[0].credential_id, None);
}

#[test]
fn specificity_nil_credential_id_becomes_none() {
    let ip = v4(10, 0, 0, 1);
    let mapping = SnmpCredentialMapping {
        default_credential: None,
        ip_overrides: vec![IpOverride { ip, credential: make_snmp_cred("secret"), credential_id: Uuid::nil() }],
    };
    let creds = mapping.get_credentials_by_specificity(&ip);
    assert_eq!(creds[0].credential_id, None);
}

#[test]
fn specificity_with_nothing_configured_is_public_only() {
    let mapping: SnmpCredentialMapping = CredentialMapping::default();
    let creds = mapping.get_credentials_by_specificity(&v4(10, 0, 0, 1));
    assert_eq!(creds.len(), 1);
    assert_eq!(community_value(&creds[0].credential), "public");
}

#[test]
fn exposed_mapping_carries_plaintext_communities() {
    let mapping = SnmpCredentialMapping {
        default_credential: Some(make_snmp_cred("my-secret")),
        ip_overrides: vec![IpOverride {
            ip: v4(10, 0, 0, 1),
            credential: SnmpQueryCredential {
                version: SnmpVersion::V2c,
                community: ResolvableSecret::FilePath { path: "/etc/c".to_string() },
            },
            credential_id: new_id(),
        }],
    };
    let exposed = SnmpCredentialMappingExposed::from_mapping(&mapping);
    assert_eq!(exposed.default_credential.unwrap().community, "my-secret");
    assert_eq!(exposed.ip_overrides.len(), 1);
    assert_eq!(exposed.ip_overrides[0].credential.community, "");
}

// -- redacted secrets --

fn snmp_cred(community: &str) -> CredentialType {
    CredentialType::SnmpV2c { community: SecretValue::Inline { value: community.to_string() } }
}

fn docker_cred(ssl_key: Option<&str>) -> CredentialType {
    CredentialType::DockerProxy {
        port: 2376,
        path: None,
        ssl_cert: None,
        ssl_key: ssl_key.map(|k| SecretValue::Inline { value: k.to_string() }),
        ssl_chain: None,
    }
}

#[test]
fn merge_redacted_secrets_preserves_original_when_sentinel_sent() {
    let existing = snmp_cred("my-secret-community");
    let mut updated = snmp_cred(REDACTED_SECRET_SENTINEL);
    updated.merge_redacted_secrets(&existing);

    if let CredentialType::SnmpV2c { community } = &updated {
        if let SecretValue::Inline { value } = community {
            assert_eq!(value, "my-secret-community");
        } else {
            panic!("Expected Inline secret");
        }
    } else {
        panic!("Expected Snmp variant");
    }
}

#[test]
fn merge_redacted_secrets_allows_actual_value_changes() {
    let existing = snmp_cred("old-community");
    let mut updated = snmp_cred("new-community");
    updated.merge_redacted_secrets(&existing);

    if let CredentialType::SnmpV2c { community } = &updated {
        if let SecretValue::Inline { value } = community {
            assert_eq!(value, "new-community");
        } else {
            panic!("Expected Inline secret");
        }
    } else {
        panic!("Expected Snmp variant");
    }
}

#[test]
fn merge_redacted_secrets_handles_type_mismatch() {
    let existing = snmp_cred("secret");
    let mut updated = docker_cred(Some("new-key"));
    updated.merge_redacted_secrets(&existing);

    if let CredentialType::DockerProxy { ssl_key, .. } = &updated {
        if let Some(SecretValue::Inline { value }) = ssl_key {
            assert_eq!(value, "new-key");
        } else {
            panic!("Expected Some(Inline)");
        }
    } else {
        panic!("Expected DockerProxy variant");
    }
}

#[test]
fn merge_redacted_secrets_handles_docker_ssl_key() {
    let existing = docker_cred(Some("original-key"));
    let mut updated = docker_cred(Some(REDACTED_SECRET_SENTINEL));
    updated.merge_redacted_secrets(&existing);

    if let CredentialType::DockerProxy { ssl_key, .. } = &updated {
        if let Some(SecretValue::Inline { value }) = ssl_key {
            assert_eq!(value, "original-key");
        } else {
            panic!("Expected Some(Inline)");
        }
    } else {
        panic!("Expected DockerProxy variant");
    }
}

#[test]
fn is_redacted_sentinel_detects_sentinel() {
    let sentinel = SecretValue::Inline { value: REDACTED_SECRET_SENTINEL.to_string() };
    assert!(sentinel.is_redacted_sentinel());

    let real = SecretValue::Inline { value: "real-secret".to_string() };
    assert!(!real.is_redacted_sentinel());

    let filepath = SecretValue::FilePath { path: REDACTED_SECRET_SENTINEL.to_string() };
    assert!(!filepath.is_redacted_sentinel());
}

#[test]
fn merging_twice_changes_nothing_more() {
    let existing = docker_cred(Some("original-key"));
    let mut updated = docker_cred(Some(REDACTED_SECRET_SENTINEL));
    updated.merge_redacted_secrets(&existing);
    updated.merge_redacted_secrets(&existing);
    assert!(updated.same_as(&existing));
}

#[test]
fn docker_payload_keeps_every_field() {
    let cred = CredentialType::DockerProxy {
        port: 2375,
        path: Some("/docker".to_string()),
        ssl_cert: Some(FileOrInline::FilePath { path: "/certs/c.pem".to_string() }),
        ssl_key: None,
        ssl_chain: None,
    };
    match cred.to_query_payload() {
        CredentialQueryPayload::DockerProxy(p) => {
            assert_eq!(p.port, 2375);
            assert_eq!(p.path.as_deref(), Some("/docker"));
            assert!(p.ssl_cert == Some(ResolvableValue::FilePath { path: "/certs/c.pem".to_string() }));
            assert!(p.ssl_key.is_none());
        }
        _ => panic!("Expected DockerProxy payload"),
    }
}

// -- identifiers --

#[test]
fn identifiers_are_written_hyphenated_in_lowercase_hex() {
    let id = Uuid::from_u128(0x0123_4567_89ab_cdef_0011_2233_4455_6677);
    let net = Uuid::from_u128(0xABCDEF);
    let m = scanopy::dependencies::check_member_networks(
        scanopy::dependencies::MemberKind::Service,
        net,
        &vec![id],
        &vec![None],
    )
    .unwrap_err();
    assert_eq!(m, "Service 01234567-89ab-cdef-0011-223344556677 not found");
    let m = scanopy::dependencies::check_member_networks(
        scanopy::dependencies::MemberKind::Service,
        net,
        &vec![Uuid::nil()],
        &vec![Some(Uuid::nil())],
    )
    .unwrap_err();
    assert_eq!(
        m,
        "Dependency is on network 00000000-0000-0000-0000-000000abcdef, can't add service on network 00000000-0000-0000-0000-000000000000"
    );
}
