use tokio_rustls::rustls::RootCertStore;
use warpgate::tls::{
    configure_tls_connector, str_contains, DummyTlsVerifier, NoHostnameTlsVerifier, RustlsSetupError,
    ServerCertOutcome, ServerCertVerification,
};

const ROOT_PEM: &str = "-----BEGIN CERTIFICATE-----
MIIBfzCCASWgAwIBAgIUYrWg/LY4BLZfMculG0PaVbA4Md0wCgYIKoZIzj0EAwIw
FDESMBAGA1UEAwwJVGVzdCBSb290MCAXDTI2MTExOTEyNTkyOFoYDzIxMjYxMDI2
MTI1OTI4WjAUMRIwEAYDVQQDDAlUZXN0IFJvb3QwWTATBgcqhkjOPQIBBggqhkjO
PQMBBwNCAATzwFweYUrzBEM4SxQuw/TqGNQBUnBkaND671WRJ9Y44WXfbhCCUlIG
YlpPCb3BTYu7zwtH2m5QkaP2MpGDe7x0o1MwUTAdBgNVHQ4EFgQUmqJdByEGrqI9
+jQ45aKJPb2LfUswHwYDVR0jBBgwFoAUmqJdByEGrqI9+jQ45aKJPb2LfUswDwYD
VR0TAQH/BAUwAwEB/zAKBggqhkjOPQQDAgNIADBFAiEAlrGFZLCVJmykalAlV6iU
khWAqmTpX0q+qa1C8aflkRgCIC78W4NKyQo/+joyk815B0xPZFXExCUXIwMCgUu+
+pzR
-----END CERTIFICATE-----
";

// A certificate block whose contents ("hello") are no DER certificate.
const NOT_A_CERT_PEM: &str = "-----BEGIN CERTIFICATE-----\naGVsbG8=\n-----END CERTIFICATE-----\n";

// A certificate block whose contents are not Base64.
const BAD_BASE64_PEM: &str = "-----BEGIN CERTIFICATE-----\n!!!!\n-----END CERTIFICATE-----\n";

fn kind(r: &Result<warpgate::tls::TlsConnectorSetup, RustlsSetupError>) -> &'static str {
    match r {
        Ok(s) => match s.verification {
            ServerCertVerification::AcceptAnyCertificate(_) => "any",
            ServerCertVerification::IgnoreHostname(_) => "ignore-hostname",
            ServerCertVerification::Standard => "standard",
        },
        Err(RustlsSetupError::Io(_)) => "io-error",
        Err(RustlsSetupError::Certificate(_)) => "cert-error",
    }
}

#[test]
fn accept_invalid_certs_accepts_anything_without_reading_roots() {
    let roots = RootCertStore::empty();
    let r = configure_tls_connector(true, false, Some(NOT_A_CERT_PEM.as_bytes()), &roots);
    assert_eq!(kind(&r), "any");
    let r = configure_tls_connector(true, true, Some(BAD_BASE64_PEM.as_bytes()), &roots);
    assert_eq!(kind(&r), "any");
}

#[test]
fn standard_and_hostname_tolerant_verification() {
    let roots = RootCertStore::empty();
    assert_eq!(kind(&configure_tls_connector(false, false, None, &roots)), "standard");
    assert_eq!(kind(&configure_tls_connector(false, true, None, &roots)), "ignore-hostname");
    assert_eq!(kind(&configure_tls_connector(false, true, Some(ROOT_PEM.as_bytes()), &roots)), "ignore-hostname");
    assert_eq!(kind(&configure_tls_connector(false, false, Some(ROOT_PEM.as_bytes()), &roots)), "standard");
}

#[test]
fn root_cert_errors_are_reported() {
    let roots = RootCertStore::empty();
    assert_eq!(kind(&configure_tls_connector(false, true, Some(NOT_A_CERT_PEM.as_bytes()), &roots)), "cert-error");
    // The extra roots are read even where they end up unused.
    assert_eq!(kind(&configure_tls_connector(false, false, Some(NOT_A_CERT_PEM.as_bytes()), &roots)), "cert-error");
    assert_eq!(kind(&configure_tls_connector(false, true, Some(BAD_BASE64_PEM.as_bytes()), &roots)), "io-error");
}

#[test]
fn text_without_certificates_adds_no_roots() {
    let roots = RootCertStore::empty();
    assert_eq!(kind(&configure_tls_connector(false, true, Some(b"no pem here"), &roots)), "ignore-hostname");
}

#[test]
fn dummy_verifier_accepts() {
    let r: ServerCertOutcome<()> = DummyTlsVerifier.verify_server_cert();
    assert!(matches!(r, ServerCertOutcome::Verified));
}

#[test]
fn hostname_mismatch_is_tolerated_other_errors_stand() {
    let v = NoHostnameTlsVerifier::new(RootCertStore::empty());
    let r: ServerCertOutcome<u8> = v.verify_server_cert(ServerCertOutcome::InvalidCertificateData(
        "invalid peer certificate: CertNotValidForName".to_string(),
    ));
    assert!(matches!(r, ServerCertOutcome::Verified));
    let r: ServerCertOutcome<u8> = v.verify_server_cert(ServerCertOutcome::InvalidCertificateData(
        "invalid peer certificate: CertExpired".to_string(),
    ));
    match r {
        ServerCertOutcome::InvalidCertificateData(m) => assert_eq!(m, "invalid peer certificate: CertExpired"),
        _ => panic!("expected the rejection to stand"),
    }
    let r: ServerCertOutcome<u8> = v.verify_server_cert(ServerCertOutcome::Failed(7));
    assert!(matches!(r, ServerCertOutcome::Failed(7)));
    let r: ServerCertOutcome<u8> = v.verify_server_cert(ServerCertOutcome::Verified);
    assert!(matches!(r, ServerCertOutcome::Verified));
}

#[test]
fn substring_search() {
    assert!(str_contains("abcCertNotValidForName", "CertNotValidForName"));
    assert!(str_contains("abc", ""));
    assert!(str_contains("", ""));
    assert!(!str_contains("", "a"));
    assert!(!str_contains("CertNotValidForNam", "CertNotValidForName"));
    assert!(str_contains("aab", "ab"));
    assert!(str_contains("héllo wörld", "wö"));
}

#[test]
fn root_store_from_ders_adds_each_certificate() {
    let der = rustls_pemfile::certs(&mut std::io::Cursor::new(ROOT_PEM.as_bytes())).unwrap();
    let store = match warpgate::tls::root_store_from_ders(&der) {
        Ok(s) => s,
        Err(e) => panic!("{}", e),
    };
    assert_eq!(store.len(), 1);
    let two = vec![der[0].clone(), der[0].clone()];
    assert_eq!(warpgate::tls::root_store_from_ders(&two).ok().unwrap().len(), 2);
    assert_eq!(warpgate::tls::root_store_from_ders(&vec![]).ok().unwrap().len(), 0);
    let bad = vec![der[0].clone(), b"hello".to_vec()];
    assert!(warpgate::tls::root_store_from_ders(&bad).is_err());
}

#[test]
fn configured_clients_offer_no_certificate() {
    let roots = RootCertStore::empty();
    for (any, host, root) in [
        (true, false, None),
        (false, false, None),
        (false, true, None),
        (false, false, Some(ROOT_PEM.as_bytes())),
        (false, true, Some(ROOT_PEM.as_bytes())),
    ] {
        match configure_tls_connector(any, host, root, &roots) {
            Ok(s) => assert!(!s.config.client_auth_cert_resolver.has_certs()),
            Err(_) => panic!("expected a configuration"),
        }
    }
}
