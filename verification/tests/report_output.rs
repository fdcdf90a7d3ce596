use cryptofault::output::{render_text, OutputFormat};
use cryptofault::schema::{Category, Finding, Report, Severity, Source, Summary};

fn make_report(findings: Vec<Finding>) -> Report {
    let summary = Summary::from_findings(&findings);
    Report {
        schema_version: "1.0".to_string(),
        tool: "cryptofault".to_string(),
        tool_version: "0.2.0".to_string(),
        analysis_id: "cf-test-00000000".to_string(),
        timestamp: "2026-08-15T00:00:00Z".to_string(),
        source: Source {
            source_type: "pcap".to_string(),
            path: "test.pcap".to_string(),
            sha256: "abc123".to_string(),
        },
        findings,
        summary,
    }
}

fn make_finding(severity: Severity) -> Finding {
    Finding {
        id: "CF-001".to_string(),
        severity,
        category: Category::TlsVersion,
        description: "TLS 1.0 ClientHello detected".to_string(),
        src: Some("10.0.0.1".to_string()),
        dst: Some("10.0.0.2".to_string()),
        port: Some(443),
        evidence: "ClientHello version=0x0301".to_string(),
        reference: "RFC 8996".to_string(),
    }
}

#[test]
fn summary_counts_correctly() {
    let findings = vec![
        make_finding(Severity::High),
        make_finding(Severity::High),
        make_finding(Severity::Medium),
        make_finding(Severity::Info),
    ];
    let report = make_report(findings);
    assert_eq!(report.summary.total_findings, 4);
    assert_eq!(report.summary.high, 2);
    assert_eq!(report.summary.medium, 1);
    assert_eq!(report.summary.info, 1);
    assert_eq!(report.summary.low, 0);
}

#[test]
fn empty_report_has_zero_findings() {
    let report = make_report(vec![]);
    assert_eq!(report.summary.total_findings, 0);
}

#[test]
fn format_from_str_json() {
    assert!(matches!(OutputFormat::from_str("json"), OutputFormat::Json));
    assert!(matches!(OutputFormat::from_str("JSON"), OutputFormat::Json));
}

#[test]
fn format_from_str_text_default() {
    assert!(matches!(OutputFormat::from_str("text"), OutputFormat::Text));
    assert!(matches!(OutputFormat::from_str("anything"), OutputFormat::Text));
}

#[test]
fn format_from_str_mixed_case_and_near_misses() {
    assert!(matches!(OutputFormat::from_str("JsOn"), OutputFormat::Json));
    assert!(matches!(OutputFormat::from_str("json "), OutputFormat::Text));
    assert!(matches!(OutputFormat::from_str("jsonl"), OutputFormat::Text));
    assert!(matches!(OutputFormat::from_str(""), OutputFormat::Text));
}

#[test]
fn summary_total_is_sum_of_counters_example() {
    let report = make_report(vec![
        make_finding(Severity::Low),
        make_finding(Severity::High),
        make_finding(Severity::Low),
    ]);
    let s = report.summary;
    assert_eq!(s.total_findings, s.high + s.medium + s.low + s.info);
    assert_eq!(s.low, 2);
    assert!(report.has_high_findings());
    assert!(!make_report(vec![make_finding(Severity::Medium)]).has_high_findings());
}

#[test]
fn render_text_empty_report() {
    let report = make_report(vec![]);
    let text = render_text(&report);
    assert_eq!(
        text,
        "cryptofault 0.2.0\nanalysis_id : cf-test-00000000\ntimestamp   : 2026-08-15T00:00:00Z\nsource      : test.pcap (pcap)\nsha256      : abc123\n\n[OK] No weaknesses detected.\n"
    );
}

#[test]
fn render_text_with_findings() {
    let mut cert_finding = make_finding(Severity::Medium);
    cert_finding.id = "CF-002".to_string();
    cert_finding.description = "Certificate expiring in 3 days".to_string();
    cert_finding.dst = None;
    cert_finding.port = None;
    cert_finding.src = Some("server.pem".to_string());
    let report = make_report(vec![make_finding(Severity::High), cert_finding]);
    let text = render_text(&report);
    let expected = [
        "cryptofault 0.2.0\n",
        "analysis_id : cf-test-00000000\n",
        "timestamp   : 2026-08-15T00:00:00Z\n",
        "source      : test.pcap (pcap)\n",
        "sha256      : abc123\n",
        "\n",
        "[HIGH]   CF-001 — TLS 1.0 ClientHello detected\n",
        "         src: 10.0.0.1 -> 10.0.0.2:443\n",
        "         evidence  : ClientHello version=0x0301\n",
        "         reference : RFC 8996\n",
        "\n",
        "[MEDIUM] CF-002 — Certificate expiring in 3 days\n",
        "         src: server.pem\n",
        "         evidence  : ClientHello version=0x0301\n",
        "         reference : RFC 8996\n",
        "\n",
        "--- summary ---\n",
        "total: 2  HIGH: 1  MEDIUM: 1  LOW: 0  INFO: 0\n",
    ]
    .concat();
    assert_eq!(text, expected);
}

#[test]
fn report_new_fills_identity() {
    let source = Source {
        source_type: "cert".to_string(),
        path: "a.pem".to_string(),
        sha256: "x".to_string(),
    };
    let report = Report::new(source, vec![make_finding(Severity::High)]).unwrap();
    assert_eq!(report.schema_version, "1.0");
    assert_eq!(report.tool, "cryptofault");
    assert_eq!(report.tool_version, "0.2.0");
    assert_eq!(report.summary.high, 1);
    let id = report.analysis_id.clone();
    assert!(id.starts_with("cf-"));
    let parts: Vec<&str> = id.split('-').collect();
    assert_eq!(parts.len(), 3);
    assert_eq!(parts[1].len(), 8);
    assert!(parts[1].chars().all(|c| c.is_ascii_digit()));
    assert_eq!(parts[2].len(), 8);
    assert!(parts[2].chars().all(|c| c.is_ascii_hexdigit() && !c.is_ascii_uppercase()));
    let ts = report.timestamp.clone();
    assert!(ts.len() >= 25);
    assert_eq!(&ts[10..11], "T");
    assert!(ts.ends_with("+00:00"));
    assert_eq!(&ts[..4], &parts[1][..4]);
    assert_eq!(&ts[5..7], &parts[1][4..6]);
    assert_eq!(&ts[8..10], &parts[1][6..8]);
}

#[test]
fn severity_and_category_labels() {
    assert_eq!(Severity::High.label(), "HIGH");
    assert_eq!(Severity::Info.label(), "INFO");
    assert_eq!(Category::PlaintextSession.label(), "plaintext_session");
    assert_eq!(Category::CertificateExpiry.label(), "certificate_expiry");
}

#[test]
fn summary_adds_over_concatenation_and_ignores_order() {
    let a = vec![make_finding(Severity::High), make_finding(Severity::Low)];
    let b = vec![
        make_finding(Severity::Low),
        make_finding(Severity::Info),
        make_finding(Severity::Medium),
    ];
    let sa = Summary::from_findings(&a);
    let sb = Summary::from_findings(&b);
    let mut joined = a.clone();
    joined.extend(b.clone());
    let sj = Summary::from_findings(&joined);
    assert_eq!(sj.total_findings, sa.total_findings + sb.total_findings);
    assert_eq!(sj.high, sa.high + sb.high);
    assert_eq!(sj.medium, sa.medium + sb.medium);
    assert_eq!(sj.low, 2);
    assert_eq!(sj.info, sa.info + sb.info);
    let mut reversed = joined.clone();
    reversed.reverse();
    let sr = Summary::from_findings(&reversed);
    assert_eq!(
        (sr.total_findings, sr.high, sr.medium, sr.low, sr.info),
        (sj.total_findings, sj.high, sj.medium, sj.low, sj.info)
    );
}
