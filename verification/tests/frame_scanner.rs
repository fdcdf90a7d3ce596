use cryptofault::scanner::pcap::{
    extract_dst_port, extract_ip_port, looks_encrypted, scan_file, scan_live, sha256_bytes, LiveCapture,
};
use cryptofault::schema::{Category, Severity};

#[test]
fn sha256_bytes_returns_string() {
    let result = sha256_bytes(b"test");
    assert!(!result.is_empty());
}

#[test]
fn sha256_bytes_differs_for_different_input() {
    let a = sha256_bytes(b"hello");
    let b = sha256_bytes(b"world");
    assert_ne!(a, b);
}

#[test]
fn looks_encrypted_tls_record() {
    assert!(looks_encrypted(&[0x16, 0x03, 0x01]));
    assert!(looks_encrypted(&[0x17, 0x03, 0x03]));
}

#[test]
fn looks_encrypted_plaintext() {
    assert!(!looks_encrypted(&[0x00, 0x01, 0x00]));
    assert!(!looks_encrypted(&[]));
}

#[test]
fn extract_dst_port_short_frame() {
    let short = vec![0u8; 10];
    assert!(extract_dst_port(&short).is_none());
}

#[test]
fn extract_ip_port_short_frame() {
    let short = vec![0u8; 10];
    let (src, dst, port) = extract_ip_port(&short);
    assert!(src.is_none());
    assert!(dst.is_none());
    assert!(port.is_none());
}

fn frame(src: [u8; 4], dst: [u8; 4], dst_port: u16, payload: &[u8]) -> Vec<u8> {
    let mut f = vec![0u8; 54];
    f[26..30].copy_from_slice(&src);
    f[30..34].copy_from_slice(&dst);
    f[36] = (dst_port >> 8) as u8;
    f[37] = (dst_port & 0xff) as u8;
    f.extend_from_slice(payload);
    f
}

#[test]
fn sha256_bytes_known_vectors() {
    assert_eq!(
        sha256_bytes(b"abc"),
        "ba7816bf8f01cfea414140de5dae2223b00361a396177a9cb410ff61f20015ad"
    );
    assert_eq!(
        sha256_bytes(b""),
        "e3b0c44298fc1c149afbf4c8996fb92427ae41e4649b934ca495991b7852b855"
    );
}

#[test]
fn live_capture_progress() {
    let mut c = LiveCapture::new(2);
    assert!(c.wants_packet());
    c.record(true);
    assert!(c.wants_packet());
    c.record(true);
    assert!(!c.wants_packet());
    assert_eq!(c.captured, 2);
    let mut c = LiveCapture::new(5);
    c.record(false);
    assert!(!c.wants_packet());
    assert_eq!(c.captured, 0);
    assert!(!LiveCapture::new(0).wants_packet());
    assert!(!LiveCapture::new(-3).wants_packet());
}

#[test]
fn boundary_encrypted_record_types() {
    assert!(looks_encrypted(&[0x14]));
    assert!(!looks_encrypted(&[0x13]));
    assert!(!looks_encrypted(&[0x18]));
}

#[test]
fn extracts_addresses_and_port() {
    let f = frame([10, 0, 0, 5], [192, 168, 100, 255], 502, b"x");
    let (src, dst, port) = extract_ip_port(&f);
    assert_eq!(src.as_deref(), Some("10.0.0.5"));
    assert_eq!(dst.as_deref(), Some("192.168.100.255"));
    assert_eq!(port, Some(502));
    assert_eq!(extract_dst_port(&f[..38]), Some(502));
    let (src, dst, port) = extract_ip_port(&f[..34]);
    assert_eq!(src.as_deref(), Some("10.0.0.5"));
    assert_eq!(dst.as_deref(), Some("192.168.100.255"));
    assert_eq!(port, None);
}

#[test]
fn scan_finds_tls_and_plaintext_sessions_in_order() {
    let frames = vec![
        frame([10, 0, 0, 5], [10, 0, 0, 1], 443, &[0x16, 0x03, 0x01, 0x00, 0x10, 0x01, 0x00]),
        frame([10, 0, 0, 6], [10, 0, 0, 2], 502, &[0x00, 0x01, 0x00, 0x00, 0x00, 0x06]),
        frame([10, 0, 0, 6], [10, 0, 0, 2], 502, &[0x17, 0x03, 0x03]),
        frame([10, 0, 0, 7], [10, 0, 0, 3], 80, b"GET / HTTP/1.0"),
        vec![0u8; 54],
        frame([10, 0, 0, 8], [10, 0, 0, 4], 20000, &[0x16, 0x03, 0x02, 0x00, 0x10, 0x01]),
    ];
    let (source, findings) = scan_file("cap.pcap", "d".to_string(), &frames);
    assert_eq!(source.source_type, "pcap");
    assert_eq!(source.path, "cap.pcap");
    assert_eq!(source.sha256, "d");
    assert_eq!(findings.len(), 3);
    assert_eq!(findings[0].id, "CF-001");
    assert!(matches!(findings[0].category, Category::TlsVersion));
    assert_eq!(findings[0].port, Some(443));
    assert_eq!(findings[1].id, "CF-002");
    assert!(matches!(findings[1].category, Category::PlaintextSession));
    assert_eq!(findings[1].description, "Unencrypted Modbus/TCP session detected on port 502");
    assert_eq!(findings[1].src.as_deref(), Some("10.0.0.6"));
    assert_eq!(findings[2].id, "CF-003");
    assert!(matches!(findings[2].category, Category::TlsVersion));
    assert_eq!(findings[2].description, "TLS 1.1 ClientHello detected — deprecated per RFC 8996");
    assert!(findings.iter().all(|f| f.severity == Severity::High));

    let (live_source, live_findings) = scan_live("eth0", &frames);
    assert_eq!(live_source.source_type, "pcap");
    assert_eq!(live_source.path, "eth0");
    assert_eq!(live_source.sha256, "live-capture-no-hash");
    assert_eq!(live_findings.len(), findings.len());
    for (a, b) in live_findings.iter().zip(findings.iter()) {
        assert_eq!(a.id, b.id);
        assert_eq!(a.description, b.description);
        assert_eq!(a.evidence, b.evidence);
    }
}
