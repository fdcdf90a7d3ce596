use cryptofault::detectors::tls::{build_finding, detect_weak_tls, TlsWeakness};
use cryptofault::schema::{Category, Severity};

fn make_client_hello(major: u8, minor: u8) -> Vec<u8> {
    vec![0x16, major, minor, 0x00, 0x10, 0x01, 0x00, 0x00, 0x0c]
}

#[test]
fn detects_tls10() {
    let payload = make_client_hello(0x03, 0x01);
    let result = detect_weak_tls(&payload);
    assert!(result.is_some());
    let w = result.unwrap();
    assert_eq!(w.version, "TLS 1.0");
    assert_eq!(w.version_bytes, "0x0301");
}

#[test]
fn detects_tls11() {
    let payload = make_client_hello(0x03, 0x02);
    let result = detect_weak_tls(&payload);
    assert!(result.is_some());
    let w = result.unwrap();
    assert_eq!(w.version, "TLS 1.1");
}

#[test]
fn ignores_tls12() {
    let payload = make_client_hello(0x03, 0x03);
    assert!(detect_weak_tls(&payload).is_none());
}

#[test]
fn ignores_tls13() {
    let payload = make_client_hello(0x03, 0x04);
    assert!(detect_weak_tls(&payload).is_none());
}

#[test]
fn ignores_non_handshake() {
    let payload = vec![0x17, 0x03, 0x01, 0x00, 0x10, 0x01];
    assert!(detect_weak_tls(&payload).is_none());
}

#[test]
fn ignores_short_payload() {
    let payload = vec![0x16, 0x03];
    assert!(detect_weak_tls(&payload).is_none());
}

#[test]
fn ignores_non_client_hello() {
    let payload = vec![0x16, 0x03, 0x01, 0x00, 0x10, 0x02];
    assert!(detect_weak_tls(&payload).is_none());
}

#[test]
fn finding_has_correct_severity() {
    let w = TlsWeakness {
        version: "TLS 1.0".to_string(),
        version_bytes: "0x0301".to_string(),
    };
    let f = build_finding(1, &w, Some("10.0.0.5".to_string()), None, Some(443));
    assert_eq!(f.severity, Severity::High);
    assert_eq!(f.id, "CF-001");
    assert_eq!(f.reference, "RFC 8996");
}

#[test]
fn five_byte_handshake_without_message_type_is_ignored() {
    assert!(detect_weak_tls(&[0x16, 0x03, 0x01, 0x00, 0x10]).is_none());
}

#[test]
fn wrong_major_version_is_ignored() {
    assert!(detect_weak_tls(&[0x16, 0x02, 0x01, 0x00, 0x10, 0x01]).is_none());
}

#[test]
fn minimal_tls11_client_hello_is_detected() {
    let w = detect_weak_tls(&[0x16, 0x03, 0x02, 0x00, 0x10, 0x01]).unwrap();
    assert_eq!(w.version, "TLS 1.1");
    assert_eq!(w.version_bytes, "0x0302");
}

#[test]
fn tls_finding_texts() {
    let w = TlsWeakness {
        version: "TLS 1.1".to_string(),
        version_bytes: "0x0302".to_string(),
    };
    let f = build_finding(
        12,
        &w,
        Some("10.0.0.5".to_string()),
        Some("10.0.0.1".to_string()),
        Some(443),
    );
    assert_eq!(f.id, "CF-012");
    assert!(matches!(f.category, Category::TlsVersion));
    assert_eq!(f.description, "TLS 1.1 ClientHello detected — deprecated per RFC 8996");
    assert_eq!(f.evidence, "ClientHello version=0x0302");
    assert_eq!(f.src.as_deref(), Some("10.0.0.5"));
    assert_eq!(f.dst.as_deref(), Some("10.0.0.1"));
    assert_eq!(f.port, Some(443));
}

#[test]
fn finding_ids_pad_to_three_digits_only() {
    let w = TlsWeakness {
        version: "TLS 1.0".to_string(),
        version_bytes: "0x0301".to_string(),
    };
    assert_eq!(build_finding(0, &w, None, None, None).id, "CF-000");
    assert_eq!(build_finding(999, &w, None, None, None).id, "CF-999");
    assert_eq!(build_finding(1234, &w, None, None, None).id, "CF-1234");
}
