//! Frame scanner — the decisions taken on each captured frame, for offline
//! capture files and live capture alike. Reading the capture is left to the
//! caller, which hands the frames over in capture order.

use crate::detectors::plaintext::{self, ot_port_entry, plaintext_finding, PlaintextSessionView};
use crate::detectors::tls::{self, is_weak_client_hello, tls_finding, weak_tls_of};
use crate::schema::{Finding, FindingView, Source};
use crate::text::{decimal, hex_digits};
use sha2::{Digest, Sha256};
use vstd::prelude::*;

verus! {

/// Offset of the TCP payload in a standard frame: Ethernet (14), IPv4 (20)
/// and TCP (20) headers without options.
pub const PAYLOAD_OFFSET: usize = 54;

/// How the frames were captured.
#[derive(Debug, Clone, Copy, PartialEq, Eq, Structural)]
pub enum CaptureMode {
    /// Read from a capture file.
    File,
    /// Captured live from a network interface.
    Live,
}

/// The TLS record types 0x14 to 0x17 start the payload.
pub open spec fn looks_encrypted_spec(p: Seq<u8>) -> bool {
    p.len() > 0 && 0x14 <= p[0] <= 0x17
}

/// Heuristic: the first byte of the payload is a TLS record type.
pub fn looks_encrypted(payload: &[u8]) -> (res: bool)
    ensures
        res == looks_encrypted_spec(payload@),
{
    if payload.len() == 0 {
        return false;
    }
    0x14 <= payload[0] && payload[0] <= 0x17
}

/// The big-endian 16-bit number at offset 36 of a frame: the TCP/UDP
/// destination port behind Ethernet (14) and IPv4 (20) headers.
pub open spec fn dst_port_of(frame: Seq<u8>) -> Option<u16> {
    if frame.len() < 38 {
        None
    } else {
        Some((frame[36] as int * 256 + frame[37] as int) as u16)
    }
}

/// Extracts the destination TCP/UDP port from a raw Ethernet frame.
pub fn extract_dst_port(data: &[u8]) -> (res: Option<u16>)
    ensures
        res == dst_port_of(data@),
{
    if data.len() < 38 {
        return None;
    }
    Some((data[36] as u16) * 256 + (data[37] as u16))
}

/// Dotted-decimal text of an IPv4 address.
pub open spec fn ipv4_text(a: u8, b: u8, c: u8, d: u8) -> Seq<char> {
    decimal(a as nat) + "."@ + decimal(b as nat) + "."@ + decimal(c as nat) + "."@ + decimal(d as nat)
}

/// Source address, destination address and destination port of a frame:
/// the IPv4 addresses at offsets 26 and 30.
pub open spec fn endpoints_of(frame: Seq<u8>) -> (Option<Seq<char>>, Option<Seq<char>>, Option<u16>) {
    if frame.len() < 34 {
        (None, None, None)
    } else {
        (
            Some(ipv4_text(frame[26], frame[27], frame[28], frame[29])),
            Some(ipv4_text(frame[30], frame[31], frame[32], frame[33])),
            dst_port_of(frame),
        )
    }
}

fn format_ipv4(a: u8, b: u8, c: u8, d: u8) -> (res: String)
    ensures
        res@ == ipv4_text(a, b, c, d),
{
    let mut s = String::new();
    crate::text::append_decimal(&mut s, a as u64);
    s.append(".");
    crate::text::append_decimal(&mut s, b as u64);
    s.append(".");
    crate::text::append_decimal(&mut s, c as u64);
    s.append(".");
    crate::text::append_decimal(&mut s, d as u64);
    assert(s@ =~= ipv4_text(a, b, c, d));
    s
}

/// Extracts source IP, destination IP and destination port from a raw
/// Ethernet frame.
pub fn extract_ip_port(data: &[u8]) -> (res: (Option<String>, Option<String>, Option<u16>))
    ensures
        (res.0.deep_view(), res.1.deep_view(), res.2) == endpoints_of(data@),
{
    if data.len() < 34 {
        return (None, None, None);
    }
    let src = format_ipv4(data[26], data[27], data[28], data[29]);
    let dst = format_ipv4(data[30], data[31], data[32], data[33]);
    let port = extract_dst_port(data);
    (Some(src), Some(dst), port)
}

/// Lowercase hexadecimal text of a byte string, two digits per byte.
pub open spec fn hex_text(bytes: Seq<u8>) -> Seq<char>
    decreases bytes.len(),
{
    if bytes.len() == 0 {
        Seq::empty()
    } else {
        hex_text(bytes.drop_last()) + hex_digits(bytes.last() as nat, 2)
    }
}

/// The hexadecimal text has two digits per byte.
pub proof fn hex_text_length(bytes: Seq<u8>)
    ensures
        hex_text(bytes).len() == 2 * bytes.len(),
    decreases bytes.len(),
{
    if bytes.len() > 0 {
        hex_text_length(bytes.drop_last());
        reveal_with_fuel(hex_digits, 3);
    }
}

/// The lowercase hexadecimal text of `bytes`.
pub fn hex_lower(bytes: &[u8]) -> (res: String)
    ensures
        res@ == hex_text(bytes@),
{
    let mut s = String::new();
    let mut i: usize = 0;
    while i < bytes.len()
        invariant
            i <= bytes@.len(),
            s@ == hex_text(bytes@.take(i as int)),
        decreases bytes@.len() - i,
    {
        assert(bytes@.take(i + 1).drop_last() =~= bytes@.take(i as int));
        crate::text::append_hex_digits(&mut s, bytes[i] as u64, 2);
        i = i + 1;
    }
    assert(bytes@.take(i as int) =~= bytes@);
    s
}

/// The SHA-256 digest of a byte string, as the sha2 crate computes it.
pub uninterp spec fn sha256_digest(data: Seq<u8>) -> Seq<u8>;

/// `sha2::Sha256::digest` (the `Digest` trait) of `data`: the 32-byte
/// SHA-256 digest. The value is named; its length is the digest's fixed
/// output size.
#[verifier::external_body]
fn sha256_of(data: &[u8]) -> (res: Vec<u8>)
    ensures
        res@ == sha256_digest(data@),
        res@.len() == 32,
{
    Sha256::digest(data).to_vec()
}

/// SHA-256 of `data` as 64 lowercase hexadecimal digits — the chain of
/// custody digest of an input file.
pub fn sha256_bytes(data: &[u8]) -> (res: String)
    ensures
        res@ == hex_text(sha256_digest(data@)),
        res@.len() == 64,
{
    let digest = sha256_of(data);
    proof {
        hex_text_length(digest@);
    }
    hex_lower(digest.as_slice())
}

/// Builds the source record of a capture file from its path and digest.
pub fn pcap_source(path: &str, sha256: String) -> (res: Source)
    ensures
        res.source_type@ == "pcap"@,
        res.path@ == path@,
        res.sha256 == sha256,
{
    Source { source_type: "pcap".to_owned(), path: path.to_owned(), sha256 }
}

/// Builds the source record of a live capture on `interface`: a capture
/// taken with libpcap, so of type "pcap", named by the interface, without a
/// file to digest.
pub fn live_source(interface: &str) -> (res: Source)
    ensures
        res.source_type@ == "pcap"@,
        res.path@ == interface@,
        res.sha256@ == "live-capture-no-hash"@,
{
    Source {
        source_type: "pcap".to_owned(),
        path: interface.to_owned(),
        sha256: "live-capture-no-hash".to_owned(),
    }
}

/// An address, or "unknown" when there is none.
pub open spec fn or_unknown(s: Option<Seq<char>>) -> Seq<char> {
    match s {
        Some(t) => t,
        None => "unknown"@,
    }
}

/// Whether a frame's payload is flagged as a plaintext session: in file mode
/// only when no deprecated ClientHello was found in it; in both modes only
/// when it does not look encrypted.
pub open spec fn plaintext_flagged(payload: Seq<u8>, mode: CaptureMode) -> bool {
    (mode == CaptureMode::Live || !is_weak_client_hello(payload)) && !looks_encrypted_spec(payload)
}

/// The findings reported for one frame, numbered from `next_id`: a deprecated
/// ClientHello in the payload, then a plaintext session to a well-known
/// OT/ICS destination port.
pub open spec fn frame_findings(frame: Seq<u8>, next_id: nat, mode: CaptureMode) -> Seq<FindingView> {
    if frame.len() > PAYLOAD_OFFSET {
        let payload = frame.skip(PAYLOAD_OFFSET as int);
        let ends = endpoints_of(frame);
        let tls_part = match weak_tls_of(payload) {
            Some(w) => seq![tls_finding(next_id, w, ends.0, ends.1, ends.2)],
            None => Seq::empty(),
        };
        let plain_part = match dst_port_of(frame) {
            Some(port) => match ot_port_entry(port) {
                Some(ot) => if plaintext_flagged(payload, mode) {
                    seq![
                        plaintext_finding(
                            next_id + tls_part.len(),
                            PlaintextSessionView {
                                src: or_unknown(ends.0),
                                dst: or_unknown(ends.1),
                                port: port,
                                protocol: ot.1,
                                reference: ot.2,
                            },
                        ),
                    ]
                } else {
                    Seq::empty()
                },
                None => Seq::empty(),
            },
            None => Seq::empty(),
        };
        tls_part + plain_part
    } else {
        Seq::empty()
    }
}

/// The findings reported for a sequence of frames, numbered from 1 in
/// capture order.
pub open spec fn scan_findings(frames: Seq<Seq<u8>>, mode: CaptureMode) -> Seq<FindingView>
    decreases frames.len(),
{
    if frames.len() == 0 {
        Seq::empty()
    } else {
        let before = scan_findings(frames.drop_last(), mode);
        before + frame_findings(frames.last(), before.len() + 1, mode)
    }
}

/// A payload that holds a deprecated ClientHello looks encrypted: it starts
/// with the TLS handshake record type.
pub proof fn weak_client_hello_looks_encrypted(payload: Seq<u8>)
    ensures
        is_weak_client_hello(payload) ==> looks_encrypted_spec(payload),
{
}

/// A frame yields at most one finding: a payload that holds a deprecated
/// ClientHello starts with a TLS record type, so it is never also flagged
/// as plaintext.
pub proof fn frame_yields_at_most_one_finding(frame: Seq<u8>, next_id: nat, mode: CaptureMode)
    ensures
        frame_findings(frame, next_id, mode).len() <= 1,
{
}

/// A scan reports at most one finding per frame.
pub proof fn scan_findings_bounded_by_frames(frames: Seq<Seq<u8>>, mode: CaptureMode)
    ensures
        scan_findings(frames, mode).len() <= frames.len(),
    decreases frames.len(),
{
    if frames.len() > 0 {
        scan_findings_bounded_by_frames(frames.drop_last(), mode);
        frame_yields_at_most_one_finding(frames.last(), scan_findings(frames.drop_last(), mode).len() + 1, mode);
    }
}

/// Scans one frame and appends its findings, numbered after those already
/// present.
pub fn scan_frame(findings: &mut Vec<Finding>, frame: &[u8], mode: CaptureMode)
    requires
        old(findings)@.len() + 2 < usize::MAX,
    ensures
        final(findings).deep_view() == old(findings).deep_view() + frame_findings(
            frame@,
            old(findings)@.len() + 1,
            mode,
        ),
{
    let ghost start = findings.deep_view();
    if frame.len() > PAYLOAD_OFFSET {
        let payload = &frame[PAYLOAD_OFFSET..frame.len()];
        assert(payload@ =~= frame@.skip(PAYLOAD_OFFSET as int));
        let weak = tls::detect_weak_tls(payload);
        if let Some(weakness) = &weak {
            let (src, dst, port) = extract_ip_port(frame);
            let id = findings.len() + 1;
            findings.push(tls::build_finding(id, weakness, src, dst, port));
        }
        let ghost after_tls = findings.deep_view();
        if let Some(port) = extract_dst_port(frame) {
            if let Some(ot) = plaintext::is_ot_port(port) {
                let flagged = match mode {
                    CaptureMode::File => weak.is_none() && !looks_encrypted(payload),
                    CaptureMode::Live => !looks_encrypted(payload),
                };
                if flagged {
                    let (src, dst, _) = extract_ip_port(frame);
                    let session = plaintext::PlaintextSession {
                        src: match src {
                            Some(s) => s,
                            None => "unknown".to_owned(),
                        },
                        dst: match dst {
                            Some(d) => d,
                            None => "unknown".to_owned(),
                        },
                        port,
                        protocol: ot.protocol.to_owned(),
                        reference: ot.reference.to_owned(),
                    };
                    let id = findings.len() + 1;
                    findings.push(plaintext::build_finding(id, &session));
                }
            }
        }
        assert(findings.deep_view() =~= start + frame_findings(frame@, start.len() + 1, mode));
    } else {
        assert(findings.deep_view() =~= start + frame_findings(frame@, start.len() + 1, mode));
    }
}

/// The content of each frame.
pub open spec fn frames_view(frames: Seq<Vec<u8>>) -> Seq<Seq<u8>> {
    frames.map_values(|f: Vec<u8>| f@)
}

/// Scans frames in capture order; the findings are numbered from 1.
pub fn scan_frames(frames: &[Vec<u8>], mode: CaptureMode) -> (res: Vec<Finding>)
    requires
        frames@.len() + 2 < usize::MAX,
    ensures
        res.deep_view() == scan_findings(frames_view(frames@), mode),
{
    let mut findings: Vec<Finding> = Vec::new();
    let mut i: usize = 0;
    while i < frames.len()
        invariant
            i <= frames@.len(),
            frames@.len() + 2 < usize::MAX,
            findings.deep_view() == scan_findings(frames_view(frames@).take(i as int), mode),
        decreases frames@.len() - i,
    {
        let ghost seen = frames_view(frames@).take(i as int);
        let ghost next = frames_view(frames@).take(i + 1);
        assert(next.drop_last() =~= seen);
        proof {
            scan_findings_bounded_by_frames(seen, mode);
        }
        scan_frame(&mut findings, frames[i].as_slice(), mode);
        i = i + 1;
    }
    assert(frames_view(frames@).take(i as int) =~= frames_view(frames@));
    findings
}

/// Scans the frames of a capture file, in file order.
pub fn scan_file(path: &str, sha256: String, frames: &[Vec<u8>]) -> (res: (Source, Vec<Finding>))
    requires
        frames@.len() + 2 < usize::MAX,
    ensures
        res.0.source_type@ == "pcap"@,
        res.0.path@ == path@,
        res.0.sha256 == sha256,
        res.1.deep_view() == scan_findings(frames_view(frames@), CaptureMode::File),
{
    let source = pcap_source(path, sha256);
    let findings = scan_frames(frames, CaptureMode::File);
    (source, findings)
}

/// Scans the frames captured live on `interface`, in capture order.
pub fn scan_live(interface: &str, frames: &[Vec<u8>]) -> (res: (Source, Vec<Finding>))
    requires
        frames@.len() + 2 < usize::MAX,
    ensures
        res.0.source_type@ == "pcap"@,
        res.0.path@ == interface@,
        res.0.sha256@ == "live-capture-no-hash"@,
        res.1.deep_view() == scan_findings(frames_view(frames@), CaptureMode::Live),
{
    let source = live_source(interface);
    let findings = scan_frames(frames, CaptureMode::Live);
    (source, findings)
}

/// Offline and live scanning report the same findings for a frame: the
/// extra check of file mode (no deprecated ClientHello in the payload) is
/// implied by the check both modes make (the payload does not start with a
/// TLS record type).
pub proof fn frame_findings_same_in_both_modes(frame: Seq<u8>, next_id: nat)
    ensures
        frame_findings(frame, next_id, CaptureMode::File) == frame_findings(frame, next_id, CaptureMode::Live),
{
    if frame.len() > PAYLOAD_OFFSET {
        let payload = frame.skip(PAYLOAD_OFFSET as int);
        assert(plaintext_flagged(payload, CaptureMode::File) == plaintext_flagged(payload, CaptureMode::Live));
    }
}

/// Scanning a capture offline and scanning the same frames live report the
/// same findings.
pub proof fn scan_same_in_both_modes(frames: Seq<Seq<u8>>)
    ensures
        scan_findings(frames, CaptureMode::File) == scan_findings(frames, CaptureMode::Live),
    decreases frames.len(),
{
    if frames.len() > 0 {
        scan_same_in_both_modes(frames.drop_last());
        frame_findings_same_in_both_modes(frames.last(), scan_findings(frames.drop_last(), CaptureMode::File).len() + 1);
    }
}

/// Every finding of a frame is HIGH, is a TLS version or plaintext session
/// finding, carries the frame's source and destination addresses, and is
/// numbered from `next_id` on in order.
pub proof fn frame_findings_shape(frame: Seq<u8>, next_id: nat, mode: CaptureMode)
    ensures
        forall|k: int|
            0 <= k < frame_findings(frame, next_id, mode).len() ==> {
                let f = #[trigger] frame_findings(frame, next_id, mode)[k];
                &&& f.id == crate::schema::finding_id((next_id + k) as nat)
                &&& f.severity == crate::schema::Severity::High
                &&& (f.category == crate::schema::Category::TlsVersion || f.category
                    == crate::schema::Category::PlaintextSession)
                &&& f.src is Some
                &&& f.dst is Some
            },
{
}

/// The findings of a scan are numbered "CF-001", "CF-002", ... in order,
/// and all of them are HIGH TLS version or plaintext session findings with
/// source and destination addresses.
pub proof fn scan_findings_numbered_in_order(frames: Seq<Seq<u8>>, mode: CaptureMode)
    ensures
        forall|k: int|
            0 <= k < scan_findings(frames, mode).len() ==> {
                let f = #[trigger] scan_findings(frames, mode)[k];
                &&& f.id == crate::schema::finding_id((k + 1) as nat)
                &&& f.severity == crate::schema::Severity::High
                &&& (f.category == crate::schema::Category::TlsVersion || f.category
                    == crate::schema::Category::PlaintextSession)
                &&& f.src is Some
                &&& f.dst is Some
            },
    decreases frames.len(),
{
    if frames.len() > 0 {
        let before = scan_findings(frames.drop_last(), mode);
        scan_findings_numbered_in_order(frames.drop_last(), mode);
        frame_findings_shape(frames.last(), before.len() + 1, mode);
        let all = scan_findings(frames, mode);
        let tail = frame_findings(frames.last(), before.len() + 1, mode);
        assert forall|k: int| 0 <= k < all.len() implies {
            let f = #[trigger] all[k];
            &&& f.id == crate::schema::finding_id((k + 1) as nat)
            &&& f.severity == crate::schema::Severity::High
            &&& (f.category == crate::schema::Category::TlsVersion || f.category
                == crate::schema::Category::PlaintextSession)
            &&& f.src is Some
            &&& f.dst is Some
        } by {
            if k < before.len() {
                assert(all[k] == before[k]);
            } else {
                assert(all[k] == tail[k - before.len()]);
            }
        }
    }
}

/// The progress of a live capture: how many packets it may take, how many
/// it has taken, and whether reading a packet failed.
#[derive(Debug, Clone, Copy)]
pub struct LiveCapture {
    pub count: i32,
    pub captured: i32,
    pub stopped: bool,
}

/// A live capture never takes more packets than it may, nor a negative number.
pub open spec fn live_capture_wf(c: LiveCapture) -> bool {
    0 <= c.captured && (c.captured <= c.count || c.captured == 0)
}

impl LiveCapture {
    /// A capture that may take up to `count` packets (none when `count` is
    /// not positive).
    pub fn new(count: i32) -> (c: LiveCapture)
        ensures
            c.count == count,
            c.captured == 0,
            !c.stopped,
            live_capture_wf(c),
    {
        LiveCapture { count, captured: 0, stopped: false }
    }

    /// Whether to read another packet: no read has failed and fewer than
    /// `count` packets were taken.
    pub fn wants_packet(&self) -> (res: bool)
        ensures
            res == (!self.stopped && self.captured < self.count),
    {
        !self.stopped && self.captured < self.count
    }

    /// Records the outcome of a read: a packet was taken, or the read
    /// failed and the capture stops.
    pub fn record(&mut self, packet_read: bool)
        requires
            !old(self).stopped,
            old(self).captured < old(self).count,
            live_capture_wf(*old(self)),
        ensures
            final(self).count == old(self).count,
            packet_read ==> final(self).captured == old(self).captured + 1 && !final(self).stopped,
            !packet_read ==> final(self).captured == old(self).captured && final(self).stopped,
            live_capture_wf(*final(self)),
    {
        if packet_read {
            self.captured = self.captured + 1;
        } else {
            self.stopped = true;
        }
    }
}


/// A frame whose TCP payload is a TLS 1.0 or TLS 1.1 ClientHello (handshake
/// record 0x16, version 3.1 or 3.2, handshake type 0x01 at payload offset 5)
/// yields exactly one finding: a HIGH TLS version finding whose source is
/// the frame's IPv4 source address (bytes 26 to 29), whose destination is
/// its IPv4 destination address (bytes 30 to 33) and whose port is the
/// destination port (bytes 36 and 37, big-endian).
pub proof fn weak_client_hello_finding_names_sender(frame: Seq<u8>, next_id: nat, mode: CaptureMode)
    requires
        frame.len() >= 60,
        frame[54] == 0x16,
        frame[55] == 0x03,
        frame[56] == 0x01 || frame[56] == 0x02,
        frame[59] == 0x01,
    ensures
        frame_findings(frame, next_id, mode).len() == 1,
        frame_findings(frame, next_id, mode)[0].id == crate::schema::finding_id(next_id),
        frame_findings(frame, next_id, mode)[0].severity == crate::schema::Severity::High,
        frame_findings(frame, next_id, mode)[0].category == crate::schema::Category::TlsVersion,
        frame_findings(frame, next_id, mode)[0].src == Some(ipv4_text(frame[26], frame[27], frame[28], frame[29])),
        frame_findings(frame, next_id, mode)[0].dst == Some(ipv4_text(frame[30], frame[31], frame[32], frame[33])),
        frame_findings(frame, next_id, mode)[0].port == Some((frame[36] as int * 256 + frame[37] as int) as u16),
{
    let payload = frame.skip(PAYLOAD_OFFSET as int);
    assert(payload[0] == frame[54] && payload[1] == frame[55] && payload[2] == frame[56] && payload[5] == frame[59]);
    assert(is_weak_client_hello(payload));
    assert(looks_encrypted_spec(payload));
}

/// In a scan, the finding for a frame whose payload is a TLS 1.0 or TLS 1.1
/// ClientHello comes right after the findings of the frames before it and
/// names the frame's IPv4 source as its source and the frame's IPv4
/// destination as its destination.
pub proof fn scan_names_client_hello_sender(frames: Seq<Seq<u8>>, frame: Seq<u8>, mode: CaptureMode)
    requires
        frame.len() >= 60,
        frame[54] == 0x16,
        frame[55] == 0x03,
        frame[56] == 0x01 || frame[56] == 0x02,
        frame[59] == 0x01,
    ensures
        scan_findings(frames.push(frame), mode).len() == scan_findings(frames, mode).len() + 1,
        scan_findings(frames.push(frame), mode).last().category == crate::schema::Category::TlsVersion,
        scan_findings(frames.push(frame), mode).last().src == Some(ipv4_text(frame[26], frame[27], frame[28], frame[29])),
        scan_findings(frames.push(frame), mode).last().dst == Some(ipv4_text(frame[30], frame[31], frame[32], frame[33])),
{
    let all = frames.push(frame);
    assert(all.drop_last() =~= frames);
    assert(all.last() == frame);
    weak_client_hello_finding_names_sender(frame, scan_findings(frames, mode).len() + 1, mode);
}

/// A frame to a well-known OT/ICS destination port whose payload does not
/// begin with a TLS record type (0x14 to 0x17) yields exactly one finding:
/// a HIGH plaintext session finding naming the frame's IPv4 source and
/// destination addresses and the destination port.
pub proof fn plaintext_finding_names_endpoints(frame: Seq<u8>, next_id: nat, mode: CaptureMode)
    requires
        frame.len() > 54,
        !(0x14 <= frame[54] <= 0x17),
        ot_port_entry((frame[36] as int * 256 + frame[37] as int) as u16) is Some,
    ensures
        frame_findings(frame, next_id, mode).len() == 1,
        frame_findings(frame, next_id, mode)[0].category == crate::schema::Category::PlaintextSession,
        frame_findings(frame, next_id, mode)[0].severity == crate::schema::Severity::High,
        frame_findings(frame, next_id, mode)[0].src == Some(ipv4_text(frame[26], frame[27], frame[28], frame[29])),
        frame_findings(frame, next_id, mode)[0].dst == Some(ipv4_text(frame[30], frame[31], frame[32], frame[33])),
        frame_findings(frame, next_id, mode)[0].port == Some((frame[36] as int * 256 + frame[37] as int) as u16),
{
    let payload = frame.skip(PAYLOAD_OFFSET as int);
    assert(payload[0] == frame[54]);
    assert(!is_weak_client_hello(payload));
    assert(!looks_encrypted_spec(payload));
}

} // verus!
