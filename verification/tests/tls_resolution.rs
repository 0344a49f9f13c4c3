use rumqttd::config::{ConnectionSettings, ServerSettings};
use rumqttd::error::Error;
use rumqttd::tls::{
    bundle_resolution_build, bundle_resolution_file, bundle_resolution_identity,
    bundle_resolution_start, pem_resolution_build, pem_resolution_file, pem_resolution_start,
    BundleResolution, FileOutcome, PemResolution,
};

fn connections() -> ConnectionSettings {
    ConnectionSettings {
        connection_timeout_ms: 100,
        max_client_id_len: 10,
        throttle_delay_ms: 0,
        max_payload_size: 2048,
        max_inflight_count: 100,
        max_inflight_size: 1024,
        username: None,
        password: None,
    }
}

fn settings() -> ServerSettings {
    ServerSettings {
        port: 1883,
        pkcs12_path: None,
        pkcs12_pass: None,
        ca_path: None,
        cert_path: None,
        key_path: None,
        next_connection_delay_ms: 0,
        connections: connections(),
    }
}

#[test]
fn no_material_means_plaintext() {
    let s = settings();
    assert!(matches!(pem_resolution_start(&s), PemResolution::Plain));
    assert!(matches!(bundle_resolution_start(&s), BundleResolution::Plain));
}

#[test]
fn bundle_needs_both_path_and_passphrase() {
    let mut s = settings();
    s.pkcs12_path = Some("broker.p12".to_string());
    assert!(matches!(bundle_resolution_start(&s), BundleResolution::Plain));
    s.pkcs12_path = None;
    s.pkcs12_pass = Some("p12pass".to_string());
    assert!(matches!(bundle_resolution_start(&s), BundleResolution::Plain));
}

#[test]
fn missing_cert_file_is_not_found() {
    let mut s = settings();
    s.cert_path = Some("server.pem".to_string());
    s.key_path = Some("server.key".to_string());
    let st = pem_resolution_start(&s);
    match pem_resolution_file(st, FileOutcome::Missing) {
        PemResolution::Failed { error: Error::ServerCertNotFound(p) } => {
            assert_eq!(p, "server.pem");
        }
        other => panic!("unexpected state: {:?}", other),
    }
}

#[test]
fn unparsable_cert_file_is_invalid_not_missing() {
    let mut s = settings();
    s.cert_path = Some("server.pem".to_string());
    s.key_path = Some("server.key".to_string());
    let st = pem_resolution_start(&s);
    match pem_resolution_file(st, FileOutcome::Invalid) {
        PemResolution::Failed { error: Error::InvalidServerCert(p) } => {
            assert_eq!(p, "server.pem");
        }
        other => panic!("unexpected state: {:?}", other),
    }
}

#[test]
fn cert_without_key_requires_key() {
    let mut s = settings();
    s.cert_path = Some("server.pem".to_string());
    let st = pem_resolution_start(&s);
    match pem_resolution_file(st, FileOutcome::Loaded) {
        PemResolution::Failed { error: Error::ServerKeyRequired } => {}
        other => panic!("unexpected state: {:?}", other),
    }
}

#[test]
fn missing_and_invalid_key_files_are_distinct() {
    let mut s = settings();
    s.cert_path = Some("server.pem".to_string());
    s.key_path = Some("server.key".to_string());
    let st = pem_resolution_start(&s);
    let st = pem_resolution_file(st, FileOutcome::Loaded);
    match st {
        PemResolution::WantKey { ref key_path, .. } => assert_eq!(key_path, "server.key"),
        ref other => panic!("unexpected state: {:?}", other),
    }
    let mut s2 = settings();
    s2.cert_path = Some("server.pem".to_string());
    s2.key_path = Some("server.key".to_string());
    let again = pem_resolution_file(pem_resolution_start(&s2), FileOutcome::Loaded);
    match pem_resolution_file(st, FileOutcome::Missing) {
        PemResolution::Failed { error: Error::ServerKeyNotFound(p) } => {
            assert_eq!(p, "server.key");
        }
        other => panic!("unexpected state: {:?}", other),
    }
    match pem_resolution_file(again, FileOutcome::Invalid) {
        PemResolution::Failed { error: Error::InvalidServerKey(p) } => {
            assert_eq!(p, "server.key");
        }
        other => panic!("unexpected state: {:?}", other),
    }
}

#[test]
fn plain_server_auth_skips_ca_and_builds() {
    let mut s = settings();
    s.cert_path = Some("server.pem".to_string());
    s.key_path = Some("server.key".to_string());
    let st = pem_resolution_start(&s);
    let st = pem_resolution_file(st, FileOutcome::Loaded);
    let st = pem_resolution_file(st, FileOutcome::Loaded);
    match st {
        PemResolution::WantBuild { client_auth } => assert!(!client_auth),
        other => panic!("unexpected state: {:?}", other),
    }
    match pem_resolution_build(st, true) {
        PemResolution::Ready { client_auth } => assert!(!client_auth),
        other => panic!("unexpected state: {:?}", other),
    }
}

#[test]
fn configured_ca_turns_on_mutual_auth() {
    let mut s = settings();
    s.cert_path = Some("server.pem".to_string());
    s.key_path = Some("server.key".to_string());
    s.ca_path = Some("ca.pem".to_string());
    let st = pem_resolution_start(&s);
    let st = pem_resolution_file(st, FileOutcome::Loaded);
    let st = pem_resolution_file(st, FileOutcome::Loaded);
    match st {
        PemResolution::WantCa { ref ca_path } => assert_eq!(ca_path, "ca.pem"),
        ref other => panic!("unexpected state: {:?}", other),
    }
    let st = pem_resolution_file(st, FileOutcome::Loaded);
    match st {
        PemResolution::WantBuild { client_auth } => assert!(client_auth),
        other => panic!("unexpected state: {:?}", other),
    }
    match pem_resolution_build(st, true) {
        PemResolution::Ready { client_auth } => assert!(client_auth),
        other => panic!("unexpected state: {:?}", other),
    }
}

#[test]
fn ca_errors_are_distinct() {
    let mut s = settings();
    s.cert_path = Some("server.pem".to_string());
    s.key_path = Some("server.key".to_string());
    s.ca_path = Some("ca.pem".to_string());
    let reach_ca = |o: FileOutcome| {
        let st = pem_resolution_start(&s);
        let st = pem_resolution_file(st, FileOutcome::Loaded);
        let st = pem_resolution_file(st, FileOutcome::Loaded);
        pem_resolution_file(st, o)
    };
    match reach_ca(FileOutcome::Missing) {
        PemResolution::Failed { error: Error::CaFileNotFound(p) } => assert_eq!(p, "ca.pem"),
        other => panic!("unexpected state: {:?}", other),
    }
    match reach_ca(FileOutcome::Invalid) {
        PemResolution::Failed { error: Error::InvalidCACert(p) } => assert_eq!(p, "ca.pem"),
        other => panic!("unexpected state: {:?}", other),
    }
}

#[test]
fn failed_acceptor_build_is_tls_error() {
    let mut s = settings();
    s.cert_path = Some("server.pem".to_string());
    s.key_path = Some("server.key".to_string());
    let st = pem_resolution_start(&s);
    let st = pem_resolution_file(st, FileOutcome::Loaded);
    let st = pem_resolution_file(st, FileOutcome::Loaded);
    match pem_resolution_build(st, false) {
        PemResolution::Failed { error: Error::Tls } => {}
        other => panic!("unexpected state: {:?}", other),
    }
}

#[test]
fn bundle_backend_full_path() {
    let mut s = settings();
    s.pkcs12_path = Some("broker.p12".to_string());
    s.pkcs12_pass = Some("p12pass".to_string());
    let st = bundle_resolution_start(&s);
    match st {
        BundleResolution::WantBundle { ref bundle_path, ref passphrase } => {
            assert_eq!(bundle_path, "broker.p12");
            assert_eq!(passphrase, "p12pass");
        }
        ref other => panic!("unexpected state: {:?}", other),
    }
    let st = bundle_resolution_file(st, FileOutcome::Loaded);
    match st {
        BundleResolution::WantIdentity { ref bundle_path, .. } => {
            assert_eq!(bundle_path, "broker.p12");
        }
        ref other => panic!("unexpected state: {:?}", other),
    }
    let st = bundle_resolution_identity(st, true);
    assert!(matches!(st, BundleResolution::WantBuild));
    assert!(matches!(
        bundle_resolution_build(st, true),
        BundleResolution::Ready
    ));
}

#[test]
fn bundle_backend_failure_kinds() {
    let mut s = settings();
    s.pkcs12_path = Some("broker.p12".to_string());
    s.pkcs12_pass = Some("p12pass".to_string());
    match bundle_resolution_file(bundle_resolution_start(&s), FileOutcome::Missing) {
        BundleResolution::Failed { error: Error::ServerCertNotFound(p) } => {
            assert_eq!(p, "broker.p12");
        }
        other => panic!("unexpected state: {:?}", other),
    }
    match bundle_resolution_file(bundle_resolution_start(&s), FileOutcome::Invalid) {
        BundleResolution::Failed { error: Error::InvalidServerCert(p) } => {
            assert_eq!(p, "broker.p12");
        }
        other => panic!("unexpected state: {:?}", other),
    }
    let st = bundle_resolution_file(bundle_resolution_start(&s), FileOutcome::Loaded);
    match bundle_resolution_identity(st, false) {
        BundleResolution::Failed { error: Error::InvalidServerCert(p) } => {
            assert_eq!(p, "broker.p12");
        }
        other => panic!("unexpected state: {:?}", other),
    }
    let st = bundle_resolution_file(bundle_resolution_start(&s), FileOutcome::Loaded);
    let st = bundle_resolution_identity(st, true);
    match bundle_resolution_build(st, false) {
        BundleResolution::Failed { error: Error::Tls } => {}
        other => panic!("unexpected state: {:?}", other),
    }
}
