//! TLS version weakness detector.
//!
//! Detects TLS 1.0 and TLS 1.1 ClientHello handshakes in captured payloads.
//! References: RFC 8996 (deprecating TLS 1.0/1.1).

use crate::schema::{finding_id, format_finding_id, Category, Finding, FindingView, Severity};
use vstd::prelude::*;

verus! {

/// TLS record content type of a handshake.
pub const TLS_CONTENT_TYPE_HANDSHAKE: u8 = 0x16;

/// Handshake message type of a ClientHello.
pub const TLS_HANDSHAKE_CLIENT_HELLO: u8 = 0x01;

/// A deprecated TLS version seen in a ClientHello.
#[derive(Debug)]
pub struct TlsWeakness {
    /// "TLS 1.0" or "TLS 1.1".
    pub version: String,
    /// The record version as hex: "0x0301" or "0x0302".
    pub version_bytes: String,
}

impl View for TlsWeakness {
    type V = (Seq<char>, Seq<char>);

    open spec fn view(&self) -> (Seq<char>, Seq<char>) {
        (self.version@, self.version_bytes@)
    }
}

/// A payload that starts a TLS handshake record whose record version is
/// TLS 1.0 (3.1) or TLS 1.1 (3.2) and whose handshake message, at offset 5,
/// is a ClientHello.
pub open spec fn is_weak_client_hello(p: Seq<u8>) -> bool {
    &&& p.len() >= 6
    &&& p[0] == TLS_CONTENT_TYPE_HANDSHAKE
    &&& p[1] == 0x03
    &&& (p[2] == 0x01 || p[2] == 0x02)
    &&& p[5] == TLS_HANDSHAKE_CLIENT_HELLO
}

/// Version name and record version text for the minor version byte
/// (1 for TLS 1.0, 2 for TLS 1.1).
pub open spec fn weak_tls_labels(minor: u8) -> (Seq<char>, Seq<char>) {
    if minor == 0x01 {
        ("TLS 1.0"@, "0x0301"@)
    } else {
        ("TLS 1.1"@, "0x0302"@)
    }
}

/// The weakness reported for a payload, if any.
pub open spec fn weak_tls_of(p: Seq<u8>) -> Option<(Seq<char>, Seq<char>)> {
    if is_weak_client_hello(p) {
        Some(weak_tls_labels(p[2]))
    } else {
        None
    }
}

/// Detects a TLS 1.0 or TLS 1.1 ClientHello at the start of `payload`.
pub fn detect_weak_tls(payload: &[u8]) -> (res: Option<TlsWeakness>)
    ensures
        res is Some <==> is_weak_client_hello(payload@),
        res matches Some(w) ==> w@ == weak_tls_labels(payload@[2]),
{
    if payload.len() < 5 {
        return None;
    }
    if payload[0] != TLS_CONTENT_TYPE_HANDSHAKE {
        return None;
    }
    let major = payload[1];
    let minor = payload[2];
    if !(major == 0x03 && (minor == 0x01 || minor == 0x02)) {
        return None;
    }
    if payload.len() < 6 || payload[5] != TLS_HANDSHAKE_CLIENT_HELLO {
        return None;
    }
    if minor == 0x01 {
        Some(TlsWeakness { version: "TLS 1.0".to_owned(), version_bytes: "0x0301".to_owned() })
    } else {
        Some(TlsWeakness { version: "TLS 1.1".to_owned(), version_bytes: "0x0302".to_owned() })
    }
}

/// The finding reported for a deprecated TLS version.
pub open spec fn tls_finding(
    id: nat,
    weakness: (Seq<char>, Seq<char>),
    src: Option<Seq<char>>,
    dst: Option<Seq<char>>,
    port: Option<u16>,
) -> FindingView {
    FindingView {
        id: finding_id(id),
        severity: Severity::High,
        category: Category::TlsVersion,
        description: weakness.0 + " ClientHello detected — deprecated per RFC 8996"@,
        src,
        dst,
        port,
        evidence: "ClientHello version="@ + weakness.1,
        reference: "RFC 8996"@,
    }
}

/// Builds the HIGH finding for a deprecated TLS ClientHello.
pub fn build_finding(
    id: usize,
    weakness: &TlsWeakness,
    src: Option<String>,
    dst: Option<String>,
    port: Option<u16>,
) -> (f: Finding)
    ensures
        f@ == tls_finding(id as nat, weakness@, src.deep_view(), dst.deep_view(), port),
{
    let mut description = weakness.version.clone();
    description.append(" ClientHello detected — deprecated per RFC 8996");
    let mut evidence = "ClientHello version=".to_owned();
    evidence.append(weakness.version_bytes.as_str());
    Finding {
        id: format_finding_id(id),
        severity: Severity::High,
        category: Category::TlsVersion,
        description,
        src,
        dst,
        port,
        evidence,
        reference: "RFC 8996".to_owned(),
    }
}


/// Exactly the TLS 1.0 and TLS 1.1 ClientHellos are reported: a payload is
/// reported if and only if it is at least six bytes long, starts a
/// handshake record (0x16) of record version 3.1 or 3.2, and carries a
/// ClientHello (handshake type 0x01 at offset 5). Any other handshake
/// message (ServerHello, Certificate, ClientKeyExchange, ...) is not. The
/// weakness names TLS 1.0 for version 3.1 and TLS 1.1 for version 3.2.
pub proof fn only_deprecated_client_hellos_are_reported(p: Seq<u8>)
    ensures
        weak_tls_of(p) is Some <==> (p.len() >= 6 && p[0] == 0x16 && p[1] == 0x03 && (p[2] == 0x01 || p[2]
            == 0x02) && p[5] == 0x01),
        weak_tls_of(p) is Some ==> p[5] == 0x01,
        is_weak_client_hello(p) ==> p.len() >= 6 && p[5] == 0x01,
        weak_tls_of(p) is Some && p[2] == 0x01 ==> weak_tls_of(p) == Some(("TLS 1.0"@, "0x0301"@)),
        weak_tls_of(p) is Some && p[2] == 0x02 ==> weak_tls_of(p) == Some(("TLS 1.1"@, "0x0302"@)),
{
}

} // verus!
