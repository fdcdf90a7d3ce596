use cryptofault::detectors::cert::{
    analyze_cert, build_findings, weaknesses_from_fields, CertFields, CertWeakness,
};
use cryptofault::pem::{base64_decode, certificate_der, CertFileError};
use cryptofault::schema::{Category, Severity};

fn fields(oid: &str, cn: Option<&str>, modulus: Option<usize>, not_after: i64) -> CertFields {
    CertFields {
        signature_oid: oid.to_string(),
        common_name: cn.map(|s| s.to_string()),
        rsa_modulus_len: modulus,
        not_after,
    }
}

#[test]
fn weak_signature_weak_key_and_expired() {
    let w = weaknesses_from_fields(
        &fields("1.2.840.113549.1.1.5", Some("legacy-plc.local"), Some(129), 1_000_000),
        1_000_000 + 86_400,
    );
    assert_eq!(w.len(), 3);
    match &w[0] {
        CertWeakness::WeakSignature { algorithm, cn } => {
            assert_eq!(algorithm, "SHA1withRSA");
            assert_eq!(cn, "legacy-plc.local");
        }
        other => panic!("unexpected {:?}", other),
    }
    match &w[1] {
        CertWeakness::WeakRsaKey { bits, .. } => assert_eq!(*bits, 1024),
        other => panic!("unexpected {:?}", other),
    }
    assert!(matches!(&w[2], CertWeakness::ExpiredCert { .. }));
}

#[test]
fn strong_certificate_far_from_expiry_has_no_weakness() {
    let w = weaknesses_from_fields(
        &fields("1.2.840.113549.1.1.11", None, Some(257), 100 * 86_400),
        0,
    );
    assert!(w.is_empty());
}

#[test]
fn expiry_decided_on_the_sign_of_the_remaining_time() {
    let w = weaknesses_from_fields(&fields("1.2.3", None, None, 0), 1);
    assert_eq!(w.len(), 1);
    assert!(matches!(&w[0], CertWeakness::ExpiredCert { cn } if cn == "unknown"));
    let w = weaknesses_from_fields(&fields("1.2.3", None, None, 0), 0);
    match &w[0] {
        CertWeakness::ExpiringCert { cn, days_remaining } => {
            assert_eq!(cn, "unknown");
            assert_eq!(*days_remaining, 0);
        }
        other => panic!("unexpected {:?}", other),
    }
    let w = weaknesses_from_fields(&fields("1.2.3", None, None, 89 * 86_400 + 5), 0);
    assert!(matches!(&w[0], CertWeakness::ExpiringCert { days_remaining: 89, .. }));
    let w = weaknesses_from_fields(&fields("1.2.3", None, None, 90 * 86_400), 0);
    assert!(w.is_empty());
}

#[test]
fn md5_and_dsa_signatures_and_empty_modulus() {
    let w = weaknesses_from_fields(&fields("1.2.840.113549.1.1.4", Some("a"), Some(0), i64::MAX), i64::MIN as i128 - 5);
    assert_eq!(w.len(), 2);
    assert!(matches!(&w[0], CertWeakness::WeakSignature { algorithm, .. } if algorithm == "MD5withRSA"));
    assert!(matches!(&w[1], CertWeakness::WeakRsaKey { bits: 0, .. }));
    let w = weaknesses_from_fields(&fields("1.2.840.10040.4.3", Some("a"), None, i64::MAX), 0);
    assert!(matches!(&w[0], CertWeakness::WeakSignature { algorithm, .. } if algorithm == "DSAwithSHA1"));
}

#[test]
fn garbage_is_not_a_certificate() {
    assert!(analyze_cert(&[0x30, 0x03, 0x01, 0x02, 0x03], "x.der").is_empty());
    assert!(analyze_cert(&[], "x.der").is_empty());
}

#[test]
fn findings_for_each_weakness_kind() {
    let weaknesses = vec![
        CertWeakness::WeakRsaKey { bits: 1024, cn: "plc".to_string() },
        CertWeakness::WeakSignature { algorithm: "SHA1withRSA".to_string(), cn: "plc".to_string() },
        CertWeakness::ExpiringCert { cn: "plc".to_string(), days_remaining: 12 },
        CertWeakness::ExpiredCert { cn: "plc".to_string() },
    ];
    let f = build_findings(&weaknesses, 4, "/etc/plc.pem");
    assert_eq!(f.len(), 4);
    assert_eq!(f[0].id, "CF-004");
    assert_eq!(f[3].id, "CF-007");
    assert!(matches!(f[0].category, Category::WeakKey));
    assert_eq!(f[0].description, "RSA key 1024 bits — below minimum 2048 bits (NIST SP 800-131A)");
    assert_eq!(f[0].evidence, "RSA 1024bit — CN=plc");
    assert_eq!(f[0].reference, "NIST SP 800-131A Rev 2");
    assert_eq!(f[1].description, "SHA1withRSA signature algorithm — deprecated");
    assert_eq!(f[1].evidence, "signatureAlgorithm=SHA1withRSA CN=plc");
    assert_eq!(f[1].reference, "RFC 3279, NIST SP 800-131A Rev 2");
    assert_eq!(f[2].severity, Severity::Medium);
    assert_eq!(f[2].description, "Certificate expiring in 12 days");
    assert_eq!(f[2].evidence, "CN=plc expires in 12d");
    assert_eq!(f[3].severity, Severity::High);
    assert_eq!(f[3].description, "Certificate has expired");
    assert_eq!(f[3].evidence, "CN=plc — EXPIRED");
    for x in &f {
        assert_eq!(x.src.as_deref(), Some("/etc/plc.pem"));
        assert!(x.dst.is_none());
        assert!(x.port.is_none());
    }
}

#[test]
fn base64_decodes_groups_and_partial_tail() {
    assert_eq!(base64_decode("TWFu"), b"Man".to_vec());
    assert_eq!(base64_decode("TWE="), b"Ma".to_vec());
    assert_eq!(base64_decode("TQ=="), b"M".to_vec());
    assert_eq!(base64_decode("TW\r\nFu\nTQ"), b"ManM".to_vec());
    assert_eq!(base64_decode("T"), Vec::<u8>::new());
    assert_eq!(base64_decode("+/+/"), vec![0xfb, 0xff, 0xbf]);
    assert_eq!(base64_decode("aGVsbG8gd29ybGQ="), b"hello world".to_vec());
}

#[test]
fn pem_file_is_unwrapped_and_der_is_kept() {
    let pem = b"-----BEGIN CERTIFICATE-----\r\nTWFu\r\nTWE=\r\n-----END CERTIFICATE-----\r\n";
    assert_eq!(certificate_der(pem), Ok(b"ManMa".to_vec()));
    let der = vec![0x30u8, 0x82, 0x01, 0x00];
    assert_eq!(certificate_der(&der), Ok(der.clone()));
    let mut bad = b"-----BEGIN CERTIFICATE-----\n".to_vec();
    bad.push(0xff);
    assert_eq!(certificate_der(&bad), Err(CertFileError::InvalidUtf8));
}

fn tlv(tag: u8, content: &[u8]) -> Vec<u8> {
    let mut out = vec![tag];
    let n = content.len();
    if n < 0x80 {
        out.push(n as u8);
    } else if n < 0x100 {
        out.push(0x81);
        out.push(n as u8);
    } else {
        out.push(0x82);
        out.push((n >> 8) as u8);
        out.push((n & 0xff) as u8);
    }
    out.extend_from_slice(content);
    out
}

fn seq(parts: &[Vec<u8>]) -> Vec<u8> {
    tlv(0x30, &parts.concat())
}

fn algorithm(oid: &[u8]) -> Vec<u8> {
    seq(&[tlv(0x06, oid), vec![0x05, 0x00]])
}

fn name(cn: &str) -> Vec<u8> {
    let atv = seq(&[tlv(0x06, &[0x55, 0x04, 0x03]), tlv(0x0c, cn.as_bytes())]);
    seq(&[tlv(0x31, &atv)])
}

/// A self-signed certificate for "test-plc": SHA-1 with RSA, a 1024-bit RSA
/// key, valid from 2000-01-01 to 2001-01-01.
fn legacy_certificate() -> Vec<u8> {
    let sha1_rsa = [0x2a, 0x86, 0x48, 0x86, 0xf7, 0x0d, 0x01, 0x01, 0x05];
    let rsa = [0x2a, 0x86, 0x48, 0x86, 0xf7, 0x0d, 0x01, 0x01, 0x01];
    let mut modulus = vec![0x00u8];
    modulus.extend(std::iter::repeat(0xc1u8).take(128));
    let rsa_key = seq(&[tlv(0x02, &modulus), tlv(0x02, &[0x01, 0x00, 0x01])]);
    let mut key_bits = vec![0x00u8];
    key_bits.extend_from_slice(&rsa_key);
    let spki = seq(&[algorithm(&rsa), tlv(0x03, &key_bits)]);
    let validity = seq(&[tlv(0x17, b"000101000000Z"), tlv(0x17, b"010101000000Z")]);
    let tbs = seq(&[
        vec![0xa0, 0x03, 0x02, 0x01, 0x02],
        tlv(0x02, &[0x01]),
        algorithm(&sha1_rsa),
        name("test-plc"),
        validity,
        name("test-plc"),
        spki,
    ]);
    seq(&[tbs, algorithm(&sha1_rsa), tlv(0x03, &[0x00, 0xde, 0xad, 0xbe, 0xef])])
}

#[test]
fn legacy_certificate_is_analyzed() {
    let w = analyze_cert(&legacy_certificate(), "legacy.der");
    assert_eq!(w.len(), 3);
    match &w[0] {
        CertWeakness::WeakSignature { algorithm, cn } => {
            assert_eq!(algorithm, "SHA1withRSA");
            assert_eq!(cn, "test-plc");
        }
        other => panic!("unexpected {:?}", other),
    }
    match &w[1] {
        CertWeakness::WeakRsaKey { bits, cn } => {
            assert_eq!(*bits, 1024);
            assert_eq!(cn, "test-plc");
        }
        other => panic!("unexpected {:?}", other),
    }
    assert!(matches!(&w[2], CertWeakness::ExpiredCert { cn } if cn == "test-plc"));
    let f = build_findings(&w, 1, "legacy.der");
    assert_eq!(f[0].id, "CF-001");
    assert_eq!(f[2].id, "CF-003");
    assert_eq!(f[1].evidence, "RSA 1024bit — CN=test-plc");
}

#[test]
fn base64_decoded_length_example() {
    assert_eq!(base64_decode("").len(), 0);
    assert_eq!(base64_decode("QUJD").len(), 3);
    assert_eq!(base64_decode("QUJDRA").len(), 4);
    assert_eq!(base64_decode("QUJDREU").len(), 5);
    assert_eq!(base64_decode("QUJDREVG\nR").len(), 6);
}

#[test]
fn base64_decodes_standard_encoding_with_line_breaks() {
    assert_eq!(base64_decode("SGVsbG8sIHdvcmxkIQ=="), b"Hello, world!".to_vec());
    assert_eq!(base64_decode("SGVs\r\nbG8s\nIHdv\ncmxk\r\nIQ=\n="), b"Hello, world!".to_vec());
    assert_eq!(base64_decode("AP8Q\nf4A="), vec![0x00, 0xff, 0x10, 0x7f, 0x80]);
}
