use cryptofault::detectors::plaintext::{build_finding, is_ot_port, ot_ports, PlaintextSession};
use cryptofault::schema::Severity;

#[test]
fn recognizes_modbus_port() {
    let p = is_ot_port(502);
    assert!(p.is_some());
    assert_eq!(p.unwrap().protocol, "Modbus/TCP");
}

#[test]
fn recognizes_dnp3_port() {
    let p = is_ot_port(20000);
    assert!(p.is_some());
    assert_eq!(p.unwrap().protocol, "DNP3");
}

#[test]
fn ignores_https_port() {
    assert!(is_ot_port(443).is_none());
}

#[test]
fn ignores_ssh_port() {
    assert!(is_ot_port(22).is_none());
}

#[test]
fn finding_severity_is_high() {
    let session = PlaintextSession {
        src: "10.0.0.5".to_string(),
        dst: "10.0.0.1".to_string(),
        port: 502,
        protocol: "Modbus/TCP".to_string(),
        reference: "IEC 62443-3-3 SR 4.1".to_string(),
    };
    let f = build_finding(1, &session);
    assert_eq!(f.severity, Severity::High);
    assert_eq!(f.port, Some(502));
}

#[test]
fn all_ot_ports_have_references() {
    for p in ot_ports() {
        assert!(!p.reference.is_empty());
        assert!(!p.protocol.is_empty());
    }
}

#[test]
fn every_table_port_is_recognized_with_its_entry() {
    let table = ot_ports();
    assert_eq!(table.len(), 8);
    for p in &table {
        let found = is_ot_port(p.port).unwrap();
        assert_eq!(found.port, p.port);
        assert_eq!(found.protocol, p.protocol);
        assert_eq!(found.reference, p.reference);
    }
    assert_eq!(is_ot_port(9600).unwrap().protocol, "OMRON FINS");
    assert_eq!(is_ot_port(4840).unwrap().protocol, "OPC-UA (TCP)");
    assert!(is_ot_port(0).is_none());
    assert!(is_ot_port(65535).is_none());
}

#[test]
fn plaintext_finding_texts() {
    let session = PlaintextSession {
        src: "10.0.0.5".to_string(),
        dst: "10.0.0.1".to_string(),
        port: 20000,
        protocol: "DNP3".to_string(),
        reference: "IEC 62443-3-3 SR 4.1".to_string(),
    };
    let f = build_finding(7, &session);
    assert_eq!(f.id, "CF-007");
    assert_eq!(f.description, "Unencrypted DNP3 session detected on port 20000");
    assert_eq!(f.evidence, "plaintext DNP3:10.0.0.5 -> 20000");
    assert_eq!(f.src.as_deref(), Some("10.0.0.5"));
    assert_eq!(f.dst.as_deref(), Some("10.0.0.1"));
    assert_eq!(f.reference, "IEC 62443-3-3 SR 4.1");
}
