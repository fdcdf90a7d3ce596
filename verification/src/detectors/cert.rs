//! X.509 certificate weakness detector.
//!
//! Detects: RSA keys < 2048 bits, MD5/SHA-1 signatures, expired/expiring certs.
//! References: NIST SP 800-131A Rev 2, RFC 3279, RFC 4055.

use crate::schema::{finding_id, format_finding_id, Category, Finding, FindingView, Severity};
use crate::text::{decimal, signed_decimal};
use vstd::prelude::*;
use x509_parser::certificate::X509Certificate;
use x509_parser::prelude::FromDer;
use x509_parser::public_key::PublicKey;

verus! {

/// Smallest RSA modulus, in bits, that is not reported.
pub const MIN_RSA_BITS: u32 = 2048;

/// A certificate that expires within this many days is reported.
pub const EXPIRY_WARN_DAYS: i64 = 90;

/// Seconds in a day.
pub const SECONDS_PER_DAY: i64 = 86400;

/// A weakness found in a certificate.
#[derive(Debug)]
pub enum CertWeakness {
    WeakRsaKey { bits: u32, cn: String },
    WeakSignature { algorithm: String, cn: String },
    ExpiringCert { cn: String, days_remaining: i64 },
    ExpiredCert { cn: String },
}

/// The mathematical content of a certificate weakness.
pub enum CertWeaknessView {
    WeakRsaKey { bits: u32, cn: Seq<char> },
    WeakSignature { algorithm: Seq<char>, cn: Seq<char> },
    ExpiringCert { cn: Seq<char>, days_remaining: i64 },
    ExpiredCert { cn: Seq<char> },
}

impl View for CertWeakness {
    type V = CertWeaknessView;

    open spec fn view(&self) -> CertWeaknessView {
        match self {
            CertWeakness::WeakRsaKey { bits, cn } => CertWeaknessView::WeakRsaKey { bits: *bits, cn: cn@ },
            CertWeakness::WeakSignature { algorithm, cn } => CertWeaknessView::WeakSignature {
                algorithm: algorithm@,
                cn: cn@,
            },
            CertWeakness::ExpiringCert { cn, days_remaining } => CertWeaknessView::ExpiringCert {
                cn: cn@,
                days_remaining: *days_remaining,
            },
            CertWeakness::ExpiredCert { cn } => CertWeaknessView::ExpiredCert { cn: cn@ },
        }
    }
}

impl DeepView for CertWeakness {
    type V = CertWeaknessView;

    open spec fn deep_view(&self) -> CertWeaknessView {
        self@
    }
}

/// What the detector reads of a certificate: the signature algorithm OID in
/// dotted form, the first common name of the subject (when it is a string),
/// the length in bytes of the RSA modulus (when the key is RSA), and the
/// end of validity as a UNIX timestamp.
#[derive(Debug)]
pub struct CertFields {
    pub signature_oid: String,
    pub common_name: Option<String>,
    pub rsa_modulus_len: Option<usize>,
    pub not_after: i64,
}

/// The content of [`CertFields`]: signature OID, common name, RSA modulus
/// length, end of validity.
pub type CertFieldsView = (Seq<char>, Option<Seq<char>>, Option<nat>, int);

impl View for CertFields {
    type V = CertFieldsView;

    open spec fn view(&self) -> CertFieldsView {
        (
            self.signature_oid@,
            self.common_name.deep_view(),
            match self.rsa_modulus_len {
                Some(n) => Some(n as nat),
                None => None,
            },
            self.not_after as int,
        )
    }
}

/// The fields that x509-parser reads from a DER certificate, or `None` when
/// it does not parse.
pub uninterp spec fn x509_certificate_fields(der: Seq<u8>) -> Option<(Seq<char>, Option<Seq<char>>, Option<nat>, int)>;

/// Parses `der` with `X509Certificate::from_der` (x509-parser) and reads the
/// signature algorithm OID (`Oid`'s `Display`, the dotted form), the first
/// subject common name as a string (`X509Name::iter_common_name`,
/// `AttributeTypeAndValue::as_str`), the RSA modulus length
/// (`SubjectPublicKeyInfo::parsed`, `PublicKey::RSA`) and
/// `validity().not_after.timestamp()`. The contract claims only that the
/// result is a function of the bytes, named `x509_certificate_fields`.
#[verifier::external_body]
fn read_certificate_fields(der: &[u8]) -> (res: Option<CertFields>)
    ensures
        match res {
            Some(f) => x509_certificate_fields(der@) == Some(f@),
            None => x509_certificate_fields(der@) is None,
        },
{
    let (_, cert) = match X509Certificate::from_der(der) {
        Ok(parsed) => parsed,
        Err(_) => return None,
    };
    let common_name = match cert.subject().iter_common_name().next() {
        Some(cn) => cn.as_str().ok().map(String::from),
        None => None,
    };
    let rsa_modulus_len = match cert.public_key().parsed() {
        Ok(PublicKey::RSA(rsa)) => Some(rsa.modulus.len()),
        _ => None,
    };
    let signature_oid = cert.signature_algorithm.algorithm.to_string();
    let not_after = cert.validity().not_after.timestamp();
    Some(CertFields { signature_oid, common_name, rsa_modulus_len, not_after })
}

/// The display name of a deprecated signature algorithm OID, or `None`
/// when the OID is not one of them.
pub open spec fn weak_signature_name(oid: Seq<char>) -> Option<Seq<char>> {
    if oid == "1.2.840.113549.1.1.4"@ {
        Some("MD5withRSA"@)
    } else if oid == "1.2.840.113549.1.1.5"@ {
        Some("SHA1withRSA"@)
    } else if oid == "1.2.840.10040.4.3"@ {
        Some("DSAwithSHA1"@)
    } else {
        None
    }
}

/// The first common name, or "unknown" when there is none.
pub open spec fn common_name_or_unknown(cn: Option<Seq<char>>) -> Seq<char> {
    match cn {
        Some(c) => c,
        None => "unknown"@,
    }
}

/// Key size in bits reported for an RSA modulus of `len` bytes: the length
/// without one (sign) byte, times eight.
pub open spec fn rsa_key_bits(len: nat) -> nat {
    if len == 0 {
        0
    } else {
        ((len - 1) * 8) as nat
    }
}

/// The RSA modulus is at most 2^29 bytes, so that its bit size fits `u32`.
pub open spec fn cert_fields_in_range(f: CertFieldsView) -> bool {
    f.2 matches Some(len) ==> len <= 0x2000_0000
}

/// A clock time in seconds that a clock reading can give (see
/// `crate::clock::unix_seconds`).
pub open spec fn is_clock_time(now: int) -> bool {
    -0x1_0000_0000_0000_0001 <= now <= 0xffff_ffff_ffff_ffff
}

/// The expiry weakness of a certificate whose validity ends `diff` seconds
/// from now: expired when the end lies in the past, expiring when fewer
/// than 90 whole days remain.
pub open spec fn expiry_weakness(cn: Seq<char>, diff: int) -> Seq<CertWeaknessView> {
    if diff < 0 {
        seq![CertWeaknessView::ExpiredCert { cn: cn }]
    } else if diff / (SECONDS_PER_DAY as int) < EXPIRY_WARN_DAYS {
        seq![CertWeaknessView::ExpiringCert { cn: cn, days_remaining: (diff / (SECONDS_PER_DAY as int)) as i64 }]
    } else {
        Seq::empty()
    }
}

/// The signature weakness of a certificate, if its algorithm is deprecated.
pub open spec fn signature_weakness(f: CertFieldsView) -> Seq<CertWeaknessView> {
    match weak_signature_name(f.0) {
        Some(name) => seq![CertWeaknessView::WeakSignature { algorithm: name, cn: common_name_or_unknown(f.1) }],
        None => Seq::empty(),
    }
}

/// The key weakness of a certificate, if its RSA key is below 2048 bits.
pub open spec fn key_weakness(f: CertFieldsView) -> Seq<CertWeaknessView> {
    match f.2 {
        Some(len) => if rsa_key_bits(len) < MIN_RSA_BITS {
            seq![CertWeaknessView::WeakRsaKey { bits: rsa_key_bits(len) as u32, cn: common_name_or_unknown(f.1) }]
        } else {
            Seq::empty()
        },
        None => Seq::empty(),
    }
}

/// The weaknesses of a certificate with fields `f` at time `now` (seconds
/// since the epoch), in the order they are reported: signature, key size,
/// expiry.
pub open spec fn cert_weaknesses(f: CertFieldsView, now: int) -> Seq<CertWeaknessView> {
    signature_weakness(f) + key_weakness(f) + expiry_weakness(common_name_or_unknown(f.1), f.3 - now)
}

/// `r` is what the analysis of a certificate with fields `f` reports at the
/// clock time `now`.
pub open spec fn reported_at(r: Seq<CertWeaknessView>, f: CertFieldsView, now: int) -> bool {
    is_clock_time(now) && r == cert_weaknesses(f, now)
}

fn is_weak_signature(oid: &String) -> (res: bool)
    ensures
        res == (weak_signature_name(oid@) is Some),
{
    *oid == "1.2.840.113549.1.1.4".to_owned() || *oid == "1.2.840.113549.1.1.5".to_owned() || *oid
        == "1.2.840.10040.4.3".to_owned()
}

fn sig_alg_display(oid: &String) -> (res: String)
    ensures
        res@ == match weak_signature_name(oid@) {
            Some(name) => name,
            None => oid@,
        },
{
    if *oid == "1.2.840.113549.1.1.4".to_owned() {
        "MD5withRSA".to_owned()
    } else if *oid == "1.2.840.113549.1.1.5".to_owned() {
        "SHA1withRSA".to_owned()
    } else if *oid == "1.2.840.10040.4.3".to_owned() {
        "DSAwithSHA1".to_owned()
    } else {
        oid.clone()
    }
}

fn extract_cn(fields: &CertFields) -> (res: String)
    ensures
        res@ == common_name_or_unknown(fields.common_name.deep_view()),
{
    match &fields.common_name {
        Some(cn) => cn.clone(),
        None => "unknown".to_owned(),
    }
}

/// Whether the RSA modulus of `fields` is small enough for its bit size to
/// fit `u32`.
pub fn fields_in_range(fields: &CertFields) -> (res: bool)
    ensures
        res == cert_fields_in_range(fields@),
{
    match fields.rsa_modulus_len {
        Some(len) => len <= 0x2000_0000,
        None => true,
    }
}

/// The weaknesses of a certificate with fields `fields` at the clock time
/// `now` (seconds since the epoch).
pub fn weaknesses_from_fields(fields: &CertFields, now: i128) -> (res: Vec<CertWeakness>)
    requires
        cert_fields_in_range(fields@),
        is_clock_time(now as int),
    ensures
        res.deep_view() == cert_weaknesses(fields@, now as int),
{
    let mut weaknesses: Vec<CertWeakness> = Vec::new();
    let cn = extract_cn(fields);
    let ghost f = fields@;

    if is_weak_signature(&fields.signature_oid) {
        weaknesses.push(CertWeakness::WeakSignature { algorithm: sig_alg_display(&fields.signature_oid), cn: cn.clone() });
    }
    assert(weaknesses.deep_view() =~= signature_weakness(f));

    if let Some(len) = fields.rsa_modulus_len {
        let bits: u32 = (len as u32).saturating_sub(1) * 8;
        assert(bits == rsa_key_bits(len as nat));
        if bits < MIN_RSA_BITS {
            weaknesses.push(CertWeakness::WeakRsaKey { bits, cn: cn.clone() });
        }
    }
    assert(weaknesses.deep_view() =~= signature_weakness(f) + key_weakness(f));
    let ghost before_expiry = weaknesses.deep_view();

    let diff: i128 = fields.not_after as i128 - now;
    if diff < 0 {
        weaknesses.push(CertWeakness::ExpiredCert { cn: cn.clone() });
    } else {
        let days: u128 = (diff as u128) / 86400;
        if days < 90 {
            weaknesses.push(CertWeakness::ExpiringCert { cn: cn.clone(), days_remaining: days as i64 });
        }
    }
    assert(weaknesses.deep_view() =~= before_expiry + expiry_weakness(common_name_or_unknown(f.1), f.3 - now));
    weaknesses
}

/// Parses a DER certificate and reports its weaknesses at the current time.
/// A certificate that does not parse has none; one whose RSA modulus is
/// larger than 2^29 bytes (whose bit size would not fit `u32`) is not
/// analysed.
pub fn analyze_cert(der: &[u8], source_path: &str) -> (res: Vec<CertWeakness>)
    ensures
        x509_certificate_fields(der@) is None ==> res@.len() == 0,
        x509_certificate_fields(der@) is Some && !cert_fields_in_range(x509_certificate_fields(der@)->0)
            ==> res@.len() == 0,
        x509_certificate_fields(der@) is Some && cert_fields_in_range(x509_certificate_fields(der@)->0)
            ==> exists|now: int| #[trigger] reported_at(res.deep_view(), x509_certificate_fields(der@)->0, now),
{
    let fields = match read_certificate_fields(der) {
        Some(f) => f,
        None => return Vec::new(),
    };
    if !fields_in_range(&fields) {
        return Vec::new();
    }
    let now = crate::clock::unix_seconds(&crate::clock::read_clock());
    let res = weaknesses_from_fields(&fields, now);
    assert(reported_at(res.deep_view(), fields@, now as int));
    assert(x509_certificate_fields(der@)->0 == fields@);
    res
}

/// The finding reported for a certificate weakness found in the file at `path`.
pub open spec fn cert_finding(id: nat, w: CertWeaknessView, path: Seq<char>) -> FindingView {
    match w {
        CertWeaknessView::WeakRsaKey { bits, cn } => FindingView {
            id: finding_id(id),
            severity: Severity::High,
            category: Category::WeakKey,
            description: "RSA key "@ + decimal(bits as nat) + " bits — below minimum 2048 bits (NIST SP 800-131A)"@,
            src: Some(path),
            dst: None,
            port: None,
            evidence: "RSA "@ + decimal(bits as nat) + "bit — CN="@ + cn,
            reference: "NIST SP 800-131A Rev 2"@,
        },
        CertWeaknessView::WeakSignature { algorithm, cn } => FindingView {
            id: finding_id(id),
            severity: Severity::High,
            category: Category::WeakSignature,
            description: algorithm + " signature algorithm — deprecated"@,
            src: Some(path),
            dst: None,
            port: None,
            evidence: "signatureAlgorithm="@ + algorithm + " CN="@ + cn,
            reference: "RFC 3279, NIST SP 800-131A Rev 2"@,
        },
        CertWeaknessView::ExpiringCert { cn, days_remaining } => FindingView {
            id: finding_id(id),
            severity: Severity::Medium,
            category: Category::CertificateExpiry,
            description: "Certificate expiring in "@ + signed_decimal(days_remaining as int) + " days"@,
            src: Some(path),
            dst: None,
            port: None,
            evidence: "CN="@ + cn + " expires in "@ + signed_decimal(days_remaining as int) + "d"@,
            reference: "IEC 62443-3-3 SR 1.9"@,
        },
        CertWeaknessView::ExpiredCert { cn } => FindingView {
            id: finding_id(id),
            severity: Severity::High,
            category: Category::CertificateExpiry,
            description: "Certificate has expired"@,
            src: Some(path),
            dst: None,
            port: None,
            evidence: "CN="@ + cn + " — EXPIRED"@,
            reference: "IEC 62443-3-3 SR 1.9"@,
        },
    }
}

/// Builds the finding for one certificate weakness.
fn build_finding(id: usize, weakness: &CertWeakness, source_path: &str) -> (f: Finding)
    ensures
        f@ == cert_finding(id as nat, weakness@, source_path@),
{
    match weakness {
        CertWeakness::WeakRsaKey { bits, cn } => {
            let mut description = "RSA key ".to_owned();
            crate::text::append_decimal(&mut description, *bits as u64);
            description.append(" bits — below minimum 2048 bits (NIST SP 800-131A)");
            let mut evidence = "RSA ".to_owned();
            crate::text::append_decimal(&mut evidence, *bits as u64);
            evidence.append("bit — CN=");
            evidence.append(cn.as_str());
            Finding {
                id: format_finding_id(id),
                severity: Severity::High,
                category: Category::WeakKey,
                description,
                src: Some(source_path.to_owned()),
                dst: None,
                port: None,
                evidence,
                reference: "NIST SP 800-131A Rev 2".to_owned(),
            }
        },
        CertWeakness::WeakSignature { algorithm, cn } => {
            let mut description = algorithm.clone();
            description.append(" signature algorithm — deprecated");
            let mut evidence = "signatureAlgorithm=".to_owned();
            evidence.append(algorithm.as_str());
            evidence.append(" CN=");
            evidence.append(cn.as_str());
            Finding {
                id: format_finding_id(id),
                severity: Severity::High,
                category: Category::WeakSignature,
                description,
                src: Some(source_path.to_owned()),
                dst: None,
                port: None,
                evidence,
                reference: "RFC 3279, NIST SP 800-131A Rev 2".to_owned(),
            }
        },
        CertWeakness::ExpiringCert { cn, days_remaining } => {
            let mut description = "Certificate expiring in ".to_owned();
            crate::text::append_signed_decimal(&mut description, *days_remaining);
            description.append(" days");
            let mut evidence = "CN=".to_owned();
            evidence.append(cn.as_str());
            evidence.append(" expires in ");
            crate::text::append_signed_decimal(&mut evidence, *days_remaining);
            evidence.append("d");
            Finding {
                id: format_finding_id(id),
                severity: Severity::Medium,
                category: Category::CertificateExpiry,
                description,
                src: Some(source_path.to_owned()),
                dst: None,
                port: None,
                evidence,
                reference: "IEC 62443-3-3 SR 1.9".to_owned(),
            }
        },
        CertWeakness::ExpiredCert { cn } => {
            let mut evidence = "CN=".to_owned();
            evidence.append(cn.as_str());
            evidence.append(" — EXPIRED");
            Finding {
                id: format_finding_id(id),
                severity: Severity::High,
                category: Category::CertificateExpiry,
                description: "Certificate has expired".to_owned(),
                src: Some(source_path.to_owned()),
                dst: None,
                port: None,
                evidence,
                reference: "IEC 62443-3-3 SR 1.9".to_owned(),
            }
        },
    }
}

/// Builds the findings for the weaknesses of the certificate at
/// `source_path`, numbered from `start_id` in order.
pub fn build_findings(weaknesses: &[CertWeakness], start_id: usize, source_path: &str) -> (res: Vec<Finding>)
    requires
        start_id + weaknesses@.len() <= usize::MAX + 1,
    ensures
        res@.len() == weaknesses@.len(),
        forall|i: int|
            0 <= i < weaknesses@.len() ==> #[trigger] res@[i]@ == cert_finding(
                (start_id + i) as nat,
                weaknesses@[i]@,
                source_path@,
            ),
{
    let mut res: Vec<Finding> = Vec::new();
    let mut i: usize = 0;
    while i < weaknesses.len()
        invariant
            i <= weaknesses@.len(),
            start_id + weaknesses@.len() <= usize::MAX + 1,
            res@.len() == i,
            forall|j: int|
                0 <= j < i ==> #[trigger] res@[j]@ == cert_finding((start_id + j) as nat, weaknesses@[j]@, source_path@),
        decreases weaknesses@.len() - i,
    {
        let f = build_finding(start_id + i, &weaknesses[i], source_path);
        res.push(f);
        i = i + 1;
    }
    res
}

/// Every certificate finding names the certificate file as its source and
/// carries no destination or port; it is MEDIUM exactly for a certificate
/// that is about to expire and HIGH otherwise.
pub proof fn cert_finding_shape(id: nat, w: CertWeaknessView, path: Seq<char>)
    ensures
        cert_finding(id, w, path).id == finding_id(id),
        cert_finding(id, w, path).src == Some(path),
        cert_finding(id, w, path).dst is None,
        cert_finding(id, w, path).port is None,
        cert_finding(id, w, path).severity == expected_severity(w),
{
}

/// MEDIUM for a certificate about to expire, HIGH for every other weakness.
pub open spec fn expected_severity(w: CertWeaknessView) -> Severity {
    match w {
        CertWeaknessView::ExpiringCert { .. } => Severity::Medium,
        _ => Severity::High,
    }
}

/// A certificate's analysis reports, in this order, at most one weak
/// signature, at most one weak RSA key and at most one expiry weakness:
/// a weak signature exactly for the deprecated OIDs, a weak key exactly for
/// an RSA key below 2048 bits, an expired certificate exactly when its end
/// of validity lies before `now`, and an expiring one with the whole days
/// left when fewer than 90 remain. Every weakness names the subject's first
/// common name, or "unknown".
pub proof fn cert_weaknesses_shape(f: CertFieldsView, now: int)
    ensures
        cert_weaknesses(f, now) == signature_weakness(f) + key_weakness(f) + expiry_weakness(
            common_name_or_unknown(f.1),
            f.3 - now,
        ),
        cert_weaknesses(f, now).len() <= 3,
        (signature_weakness(f).len() == 1) == (weak_signature_name(f.0) is Some),
        (key_weakness(f).len() == 1) == (f.2 matches Some(len) && rsa_key_bits(len) < MIN_RSA_BITS),
        f.3 < now ==> expiry_weakness(common_name_or_unknown(f.1), f.3 - now) == seq![
            CertWeaknessView::ExpiredCert { cn: common_name_or_unknown(f.1) },
        ],
        0 <= f.3 - now < EXPIRY_WARN_DAYS * SECONDS_PER_DAY ==> expiry_weakness(
            common_name_or_unknown(f.1),
            f.3 - now,
        ) == seq![
            CertWeaknessView::ExpiringCert {
                cn: common_name_or_unknown(f.1),
                days_remaining: ((f.3 - now) / (SECONDS_PER_DAY as int)) as i64,
            },
        ],
        f.3 - now >= EXPIRY_WARN_DAYS * SECONDS_PER_DAY ==> expiry_weakness(common_name_or_unknown(f.1), f.3 - now).len() == 0,
        forall|i: int|
            0 <= i < cert_weaknesses(f, now).len() ==> weakness_cn(#[trigger] cert_weaknesses(f, now)[i])
                == common_name_or_unknown(f.1),
{
    let d = f.3 - now;
    if d >= EXPIRY_WARN_DAYS * SECONDS_PER_DAY {
        assert(d / (SECONDS_PER_DAY as int) >= EXPIRY_WARN_DAYS) by (nonlinear_arith)
            requires d >= 90 * 86400;
    }
    if 0 <= d < EXPIRY_WARN_DAYS * SECONDS_PER_DAY {
        assert(d / (SECONDS_PER_DAY as int) < EXPIRY_WARN_DAYS) by (nonlinear_arith)
            requires 0 <= d < 90 * 86400;
    }
}

/// The common name a weakness names.
pub open spec fn weakness_cn(w: CertWeaknessView) -> Seq<char> {
    match w {
        CertWeaknessView::WeakRsaKey { cn, .. } => cn,
        CertWeaknessView::WeakSignature { cn, .. } => cn,
        CertWeaknessView::ExpiringCert { cn, .. } => cn,
        CertWeaknessView::ExpiredCert { cn } => cn,
    }
}


/// A signature is reported as weak exactly for the deprecated algorithms
/// MD5 with RSA (1.2.840.113549.1.1.4), SHA-1 with RSA
/// (1.2.840.113549.1.1.5) and DSA with SHA-1 (1.2.840.10040.4.3), under
/// those names; a certificate signed with any other algorithm has no
/// signature weakness, whatever the time.
pub proof fn weak_signatures_are_the_deprecated_oids(f: CertFieldsView, now: int)
    ensures
        weak_signature_name(f.0) is Some <==> (f.0 == "1.2.840.113549.1.1.4"@ || f.0 == "1.2.840.113549.1.1.5"@
            || f.0 == "1.2.840.10040.4.3"@),
        f.0 == "1.2.840.113549.1.1.4"@ ==> weak_signature_name(f.0) == Some("MD5withRSA"@),
        f.0 == "1.2.840.113549.1.1.5"@ ==> weak_signature_name(f.0) == Some("SHA1withRSA"@),
        f.0 == "1.2.840.10040.4.3"@ ==> weak_signature_name(f.0) == Some("DSAwithSHA1"@),
        (cert_weaknesses(f, now).len() > 0 && cert_weaknesses(f, now)[0] is WeakSignature) <==> (f.0
            == "1.2.840.113549.1.1.4"@ || f.0 == "1.2.840.113549.1.1.5"@ || f.0 == "1.2.840.10040.4.3"@),
{
    reveal_strlit("1.2.840.113549.1.1.4");
    reveal_strlit("1.2.840.113549.1.1.5");
    reveal_strlit("1.2.840.10040.4.3");
    assert("1.2.840.113549.1.1.5"@[19] != "1.2.840.113549.1.1.4"@[19]);
    assert("1.2.840.10040.4.3"@.len() != "1.2.840.113549.1.1.4"@.len());
    assert("1.2.840.10040.4.3"@.len() != "1.2.840.113549.1.1.5"@.len());
    let w = cert_weaknesses(f, now);
    let rest = key_weakness(f) + expiry_weakness(common_name_or_unknown(f.1), f.3 - now);
    assert(w =~= signature_weakness(f) + rest);
    if signature_weakness(f).len() == 0 {
        assert(w =~= rest);
        if rest.len() > 0 {
            if key_weakness(f).len() > 0 {
                assert(rest[0] == key_weakness(f)[0]);
            } else {
                assert(rest[0] == expiry_weakness(common_name_or_unknown(f.1), f.3 - now)[0]);
            }
        }
    } else {
        assert(w[0] == signature_weakness(f)[0]);
    }
}

} // verus!
