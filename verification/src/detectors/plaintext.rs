//! Plaintext session detector for OT/ICS protocols.
//!
//! Detects unencrypted sessions on well-known OT/ICS ports.
//! References: IEC 62443-3-3 SR 4.1, NERC CIP-007-6.

use crate::schema::{finding_id, format_finding_id, Category, Finding, FindingView, Severity};
use crate::text::decimal;
use vstd::prelude::*;

verus! {

/// A well-known OT/ICS port, the protocol spoken on it and the standard
/// that requires its protection.
#[derive(Debug, Clone, Copy)]
pub struct OtPort {
    pub port: u16,
    pub protocol: &'static str,
    pub reference: &'static str,
}

impl View for OtPort {
    type V = (u16, Seq<char>, Seq<char>);

    open spec fn view(&self) -> (u16, Seq<char>, Seq<char>) {
        (self.port, self.protocol@, self.reference@)
    }
}

/// The well-known OT/ICS ports, in lookup order.
pub open spec fn ot_port_table() -> Seq<(u16, Seq<char>, Seq<char>)> {
    seq![
        (502u16, "Modbus/TCP"@, "IEC 62443-3-3 SR 4.1"@),
        (20000u16, "DNP3"@, "IEC 62443-3-3 SR 4.1"@),
        (44818u16, "EtherNet/IP"@, "IEC 62443-3-3 SR 4.1"@),
        (102u16, "S7/ISO-TSAP"@, "IEC 62443-3-3 SR 4.1"@),
        (4840u16, "OPC-UA (TCP)"@, "IEC 62443-3-3 SR 4.1"@),
        (1962u16, "PCWorx"@, "IEC 62443-3-3 SR 4.1"@),
        (2455u16, "WAGO Modbus"@, "IEC 62443-3-3 SR 4.1"@),
        (9600u16, "OMRON FINS"@, "IEC 62443-3-3 SR 4.1"@),
    ]
}

/// The table entry for `port`: the first entry with that port, if any.
pub open spec fn ot_port_entry(port: u16) -> Option<(u16, Seq<char>, Seq<char>)> {
    ot_port_find(ot_port_table(), port)
}

/// The first entry of `t` whose port is `port`.
pub open spec fn ot_port_find(t: Seq<(u16, Seq<char>, Seq<char>)>, port: u16) -> Option<(u16, Seq<char>, Seq<char>)>
    decreases t.len(),
{
    if t.len() == 0 {
        None
    } else if t[0].0 == port {
        Some(t[0])
    } else {
        ot_port_find(t.drop_first(), port)
    }
}

/// The table of well-known OT/ICS ports.
pub fn ot_ports() -> (res: Vec<OtPort>)
    ensures
        res@.len() == ot_port_table().len(),
        forall|i: int| 0 <= i < res@.len() ==> #[trigger] res@[i]@ == ot_port_table()[i],
{
    let v = vec![
        OtPort { port: 502, protocol: "Modbus/TCP", reference: "IEC 62443-3-3 SR 4.1" },
        OtPort { port: 20000, protocol: "DNP3", reference: "IEC 62443-3-3 SR 4.1" },
        OtPort { port: 44818, protocol: "EtherNet/IP", reference: "IEC 62443-3-3 SR 4.1" },
        OtPort { port: 102, protocol: "S7/ISO-TSAP", reference: "IEC 62443-3-3 SR 4.1" },
        OtPort { port: 4840, protocol: "OPC-UA (TCP)", reference: "IEC 62443-3-3 SR 4.1" },
        OtPort { port: 1962, protocol: "PCWorx", reference: "IEC 62443-3-3 SR 4.1" },
        OtPort { port: 2455, protocol: "WAGO Modbus", reference: "IEC 62443-3-3 SR 4.1" },
        OtPort { port: 9600, protocol: "OMRON FINS", reference: "IEC 62443-3-3 SR 4.1" },
    ];
    assert(v@.len() == 8);
    v
}

/// Looks up `port` in the table of well-known OT/ICS ports.
pub fn is_ot_port(port: u16) -> (res: Option<OtPort>)
    ensures
        match res {
            Some(p) => ot_port_entry(port) == Some(p@),
            None => ot_port_entry(port) is None,
        },
{
    let table = ot_ports();
    let mut i: usize = 0;
    assert(ot_port_table().skip(0) =~= ot_port_table());
    while i < table.len()
        invariant
            i <= table@.len(),
            table@.len() == ot_port_table().len(),
            forall|j: int| 0 <= j < table@.len() ==> #[trigger] table@[j]@ == ot_port_table()[j],
            ot_port_entry(port) == ot_port_find(ot_port_table().skip(i as int), port),
        decreases table@.len() - i,
    {
        let ghost rest = ot_port_table().skip(i as int);
        assert(rest[0] == table@[i as int]@);
        assert(rest.drop_first() =~= ot_port_table().skip(i + 1));
        if table[i].port == port {
            return Some(table[i]);
        }
        i = i + 1;
    }
    None
}

/// An unencrypted session seen on a well-known OT/ICS port.
#[derive(Debug)]
pub struct PlaintextSession {
    pub src: String,
    pub dst: String,
    pub port: u16,
    pub protocol: String,
    pub reference: String,
}

/// The mathematical content of a plaintext session.
pub struct PlaintextSessionView {
    pub src: Seq<char>,
    pub dst: Seq<char>,
    pub port: u16,
    pub protocol: Seq<char>,
    pub reference: Seq<char>,
}

impl View for PlaintextSession {
    type V = PlaintextSessionView;

    open spec fn view(&self) -> PlaintextSessionView {
        PlaintextSessionView {
            src: self.src@,
            dst: self.dst@,
            port: self.port,
            protocol: self.protocol@,
            reference: self.reference@,
        }
    }
}

/// The finding reported for a plaintext session.
pub open spec fn plaintext_finding(id: nat, s: PlaintextSessionView) -> FindingView {
    FindingView {
        id: finding_id(id),
        severity: Severity::High,
        category: Category::PlaintextSession,
        description: "Unencrypted "@ + s.protocol + " session detected on port "@ + decimal(s.port as nat),
        src: Some(s.src),
        dst: Some(s.dst),
        port: Some(s.port),
        evidence: "plaintext "@ + s.protocol + ":"@ + s.src + " -> "@ + decimal(s.port as nat),
        reference: s.reference,
    }
}

/// Builds the HIGH finding for an unencrypted OT/ICS session.
pub fn build_finding(id: usize, session: &PlaintextSession) -> (f: Finding)
    ensures
        f@ == plaintext_finding(id as nat, session@),
{
    let mut description = "Unencrypted ".to_owned();
    description.append(session.protocol.as_str());
    description.append(" session detected on port ");
    crate::text::append_decimal(&mut description, session.port as u64);
    let mut evidence = "plaintext ".to_owned();
    evidence.append(session.protocol.as_str());
    evidence.append(":");
    evidence.append(session.src.as_str());
    evidence.append(" -> ");
    crate::text::append_decimal(&mut evidence, session.port as u64);
    Finding {
        id: format_finding_id(id),
        severity: Severity::High,
        category: Category::PlaintextSession,
        description,
        src: Some(session.src.clone()),
        dst: Some(session.dst.clone()),
        port: Some(session.port),
        evidence,
        reference: session.reference.clone(),
    }
}

/// Lookup in a table finds an entry for `port` exactly when some entry has
/// that port, and the entry it finds has that port.
pub proof fn lemma_ot_port_find(t: Seq<(u16, Seq<char>, Seq<char>)>, port: u16)
    ensures
        ot_port_find(t, port) is Some <==> exists|i: int| 0 <= i < t.len() && #[trigger] t[i].0 == port,
        ot_port_find(t, port) matches Some(e) ==> e.0 == port && t.contains(e),
    decreases t.len(),
{
    if t.len() > 0 {
        lemma_ot_port_find(t.drop_first(), port);
        if exists|i: int| 0 <= i < t.len() && #[trigger] t[i].0 == port {
            let i = choose|i: int| 0 <= i < t.len() && #[trigger] t[i].0 == port;
            if i > 0 {
                assert(t.drop_first()[i - 1].0 == port);
            }
        }
        if t[0].0 != port && exists|i: int| 0 <= i < t.len() - 1 && #[trigger] t.drop_first()[i].0 == port {
            let i = choose|i: int| 0 <= i < t.len() - 1 && #[trigger] t.drop_first()[i].0 == port;
            assert(t[i + 1].0 == port);
        }
        if let Some(e) = ot_port_find(t.drop_first(), port) {
            if t[0].0 != port {
                let k = choose|k: int| 0 <= k < t.drop_first().len() && t.drop_first()[k] == e;
                assert(t[k + 1] == e);
            }
        }
        if t[0].0 == port {
            assert(t[0] == t[0]);
        }
    }
}

/// A port is a well-known OT/ICS port exactly when the table lists it, and
/// the lookup returns the table's entry for that port.
pub proof fn ot_port_lookup_matches_table(port: u16)
    ensures
        ot_port_entry(port) is Some <==> exists|i: int| 0 <= i < ot_port_table().len() && #[trigger] ot_port_table()[i].0 == port,
        ot_port_entry(port) matches Some(e) ==> e.0 == port && ot_port_table().contains(e),
{
    lemma_ot_port_find(ot_port_table(), port);
}

/// No port appears twice in the table of well-known OT/ICS ports.
pub proof fn ot_port_table_ports_distinct()
    ensures
        forall|i: int, j: int|
            0 <= i < j < ot_port_table().len() ==> #[trigger] ot_port_table()[i].0 != #[trigger] ot_port_table()[j].0,
{
}

/// Every entry of the table names its protocol and its reference.
pub proof fn ot_port_table_entries_named()
    ensures
        forall|i: int|
            0 <= i < ot_port_table().len() ==> #[trigger] ot_port_table()[i].1.len() > 0
                && ot_port_table()[i].2.len() > 0,
{
    reveal_strlit("Modbus/TCP");
    reveal_strlit("DNP3");
    reveal_strlit("EtherNet/IP");
    reveal_strlit("S7/ISO-TSAP");
    reveal_strlit("OPC-UA (TCP)");
    reveal_strlit("PCWorx");
    reveal_strlit("WAGO Modbus");
    reveal_strlit("OMRON FINS");
    reveal_strlit("IEC 62443-3-3 SR 4.1");
}


/// The well-known OT/ICS ports are exactly 502 (Modbus/TCP), 20000 (DNP3),
/// 44818 (EtherNet/IP), 102 (S7/ISO-TSAP), 4840 (OPC-UA (TCP)), 1962
/// (PCWorx), 2455 (WAGO Modbus) and 9600 (OMRON FINS), each with the
/// reference IEC 62443-3-3 SR 4.1; the lookup finds no other port.
pub proof fn ot_ports_are_the_known_list(port: u16)
    ensures
        ot_port_entry(502) == Some((502u16, "Modbus/TCP"@, "IEC 62443-3-3 SR 4.1"@)),
        ot_port_entry(20000) == Some((20000u16, "DNP3"@, "IEC 62443-3-3 SR 4.1"@)),
        ot_port_entry(44818) == Some((44818u16, "EtherNet/IP"@, "IEC 62443-3-3 SR 4.1"@)),
        ot_port_entry(102) == Some((102u16, "S7/ISO-TSAP"@, "IEC 62443-3-3 SR 4.1"@)),
        ot_port_entry(4840) == Some((4840u16, "OPC-UA (TCP)"@, "IEC 62443-3-3 SR 4.1"@)),
        ot_port_entry(1962) == Some((1962u16, "PCWorx"@, "IEC 62443-3-3 SR 4.1"@)),
        ot_port_entry(2455) == Some((2455u16, "WAGO Modbus"@, "IEC 62443-3-3 SR 4.1"@)),
        ot_port_entry(9600) == Some((9600u16, "OMRON FINS"@, "IEC 62443-3-3 SR 4.1"@)),
        !(port == 502 || port == 20000 || port == 44818 || port == 102 || port == 4840 || port == 1962
            || port == 2455 || port == 9600) ==> ot_port_entry(port) is None,
{
    reveal_with_fuel(ot_port_find, 9);
    lemma_ot_port_find(ot_port_table(), port);
    if !(port == 502 || port == 20000 || port == 44818 || port == 102 || port == 4840 || port == 1962
        || port == 2455 || port == 9600) {
        assert forall|i: int| 0 <= i < ot_port_table().len() implies #[trigger] ot_port_table()[i].0 != port by {
        }
    }
}

} // verus!
