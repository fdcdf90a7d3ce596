//! The report schema: findings, their source, the summary counters and the
//! report that holds them.

use crate::clock::{
    in_four_digit_years, is_compact_date, is_rfc3339_utc, read_clock, report_time_texts, time_texts,
    unix_time, ClockReading,
};
use vstd::prelude::*;

verus! {

/// Schema version — increment on breaking changes.
pub const SCHEMA_VERSION: &'static str = "1.0";

/// Name of the tool, as it appears in every report.
pub const TOOL_NAME: &'static str = "cryptofault";

/// Version of the tool, as it appears in every report.
pub const TOOL_VERSION: &'static str = "0.2.0";

/// Severity levels — aligned with IEC 62443-3-3 and NERC CIP-007-6.
#[derive(Debug, Clone, Copy, PartialEq, Eq, Structural, PartialOrd, Ord)]
pub enum Severity {
    Info,
    Low,
    Medium,
    High,
}

/// Detection category.
#[derive(Debug, Clone, Copy, PartialEq, Eq, Structural)]
pub enum Category {
    TlsVersion,
    WeakKey,
    WeakSignature,
    PlaintextSession,
    CertificateExpiry,
}

/// The text a severity is displayed and serialized as.
pub open spec fn severity_label(s: Severity) -> Seq<char> {
    match s {
        Severity::Info => "INFO"@,
        Severity::Low => "LOW"@,
        Severity::Medium => "MEDIUM"@,
        Severity::High => "HIGH"@,
    }
}

/// The text a category is displayed and serialized as.
pub open spec fn category_label(c: Category) -> Seq<char> {
    match c {
        Category::TlsVersion => "tls_version"@,
        Category::WeakKey => "weak_key"@,
        Category::WeakSignature => "weak_signature"@,
        Category::PlaintextSession => "plaintext_session"@,
        Category::CertificateExpiry => "certificate_expiry"@,
    }
}

impl Severity {
    /// The display text of this severity ("INFO", "LOW", "MEDIUM" or "HIGH").
    pub fn label(&self) -> (res: String)
        ensures
            res@ == severity_label(*self),
    {
        match self {
            Severity::Info => "INFO".to_owned(),
            Severity::Low => "LOW".to_owned(),
            Severity::Medium => "MEDIUM".to_owned(),
            Severity::High => "HIGH".to_owned(),
        }
    }
}

impl Category {
    /// The display text of this category, in snake case.
    pub fn label(&self) -> (res: String)
        ensures
            res@ == category_label(*self),
    {
        match self {
            Category::TlsVersion => "tls_version".to_owned(),
            Category::WeakKey => "weak_key".to_owned(),
            Category::WeakSignature => "weak_signature".to_owned(),
            Category::PlaintextSession => "plaintext_session".to_owned(),
            Category::CertificateExpiry => "certificate_expiry".to_owned(),
        }
    }
}

/// Individual finding — one detected weakness.
#[derive(Debug, Clone)]
pub struct Finding {
    /// Unique finding ID within this report (e.g. "CF-001").
    pub id: String,
    pub severity: Severity,
    pub category: Category,
    pub description: String,
    /// Source IP or file path: an IP address for tls_version and
    /// plaintext_session findings, a file path for weak_key, weak_signature
    /// and certificate_expiry findings.
    pub src: Option<String>,
    /// Destination IP.
    pub dst: Option<String>,
    /// Port number if applicable.
    pub port: Option<u16>,
    /// Raw evidence string (protocol field, hex value, etc.).
    pub evidence: String,
    /// RFC, CVE, or standard reference.
    pub reference: String,
}

/// The mathematical content of a finding: every text as a sequence of characters.
pub struct FindingView {
    pub id: Seq<char>,
    pub severity: Severity,
    pub category: Category,
    pub description: Seq<char>,
    pub src: Option<Seq<char>>,
    pub dst: Option<Seq<char>>,
    pub port: Option<u16>,
    pub evidence: Seq<char>,
    pub reference: Seq<char>,
}

impl View for Finding {
    type V = FindingView;

    open spec fn view(&self) -> FindingView {
        FindingView {
            id: self.id@,
            severity: self.severity,
            category: self.category,
            description: self.description@,
            src: self.src.deep_view(),
            dst: self.dst.deep_view(),
            port: self.port,
            evidence: self.evidence@,
            reference: self.reference@,
        }
    }
}

impl DeepView for Finding {
    type V = FindingView;

    open spec fn deep_view(&self) -> FindingView {
        self@
    }
}

/// The identifier of the `n`-th finding of a report: "CF-" and `n` in
/// decimal, zero-padded to three digits.
pub open spec fn finding_id(n: nat) -> Seq<char> {
    "CF-"@ + crate::text::zero_padded(crate::text::decimal(n), 3)
}

/// Builds the identifier text of the `n`-th finding ("CF-001" for 1).
pub fn format_finding_id(n: usize) -> (res: String)
    ensures
        res@ == finding_id(n as nat),
{
    let mut s = "CF-".to_owned();
    crate::text::append_zero_padded_decimal(&mut s, n as u64, 3);
    s
}

/// Source of analysis input.
#[derive(Debug, Clone)]
pub struct Source {
    /// "pcap" or "cert".
    pub source_type: String,
    pub path: String,
    /// SHA-256 of the input file — chain of custody.
    pub sha256: String,
}

/// Summary counters.
#[derive(Debug, Clone, Copy, PartialEq, Eq, Structural)]
pub struct Summary {
    pub total_findings: usize,
    pub high: usize,
    pub medium: usize,
    pub low: usize,
    pub info: usize,
}

/// Number of findings in `fs` that have severity `sev`.
pub open spec fn severity_count(fs: Seq<Finding>, sev: Severity) -> nat
    decreases fs.len(),
{
    if fs.len() == 0 {
        0
    } else {
        severity_count(fs.drop_last(), sev) + if fs.last().severity == sev {
            1nat
        } else {
            0nat
        }
    }
}

/// The summary counters of a list of findings.
pub open spec fn summary_of(fs: Seq<Finding>) -> Summary {
    Summary {
        total_findings: fs.len() as usize,
        high: severity_count(fs, Severity::High) as usize,
        medium: severity_count(fs, Severity::Medium) as usize,
        low: severity_count(fs, Severity::Low) as usize,
        info: severity_count(fs, Severity::Info) as usize,
    }
}

/// No severity is counted more often than there are findings.
pub proof fn lemma_severity_count_bound(fs: Seq<Finding>, sev: Severity)
    ensures
        severity_count(fs, sev) <= fs.len(),
    decreases fs.len(),
{
    if fs.len() > 0 {
        lemma_severity_count_bound(fs.drop_last(), sev);
    }
}

/// Every finding is counted under exactly one severity: the four counters
/// add up to the number of findings.
pub proof fn lemma_severity_counts_partition(fs: Seq<Finding>)
    ensures
        severity_count(fs, Severity::High) + severity_count(fs, Severity::Medium)
            + severity_count(fs, Severity::Low) + severity_count(fs, Severity::Info) == fs.len(),
    decreases fs.len(),
{
    if fs.len() > 0 {
        lemma_severity_counts_partition(fs.drop_last());
    }
}

/// A severity is counted at least once exactly when some finding has it.
pub proof fn lemma_severity_count_positive(fs: Seq<Finding>, sev: Severity)
    ensures
        severity_count(fs, sev) > 0 <==> exists|i: int| 0 <= i < fs.len() && #[trigger] fs[i].severity == sev,
    decreases fs.len(),
{
    if fs.len() > 0 {
        let init = fs.drop_last();
        lemma_severity_count_positive(init, sev);
        if severity_count(init, sev) > 0 {
            let i = choose|i: int| 0 <= i < init.len() && #[trigger] init[i].severity == sev;
            assert(fs[i].severity == sev);
        }
        if exists|i: int| 0 <= i < fs.len() && #[trigger] fs[i].severity == sev {
            let i = choose|i: int| 0 <= i < fs.len() && #[trigger] fs[i].severity == sev;
            if i < fs.len() - 1 {
                assert(init[i].severity == sev);
            }
        }
    }
}

impl Summary {
    /// Counts the findings, and the findings of each severity.
    pub fn from_findings(findings: &[Finding]) -> (s: Summary)
        ensures
            s == summary_of(findings@),
    {
        let mut s = Summary { total_findings: findings.len(), high: 0, medium: 0, low: 0, info: 0 };
        let mut i: usize = 0;
        while i < findings.len()
            invariant
                i <= findings@.len(),
                s.total_findings == findings@.len(),
                s.high == severity_count(findings@.take(i as int), Severity::High),
                s.medium == severity_count(findings@.take(i as int), Severity::Medium),
                s.low == severity_count(findings@.take(i as int), Severity::Low),
                s.info == severity_count(findings@.take(i as int), Severity::Info),
            decreases findings@.len() - i,
        {
            let ghost prefix = findings@.take(i as int);
            let ghost next = findings@.take(i + 1);
            assert(next.drop_last() =~= prefix);
            proof {
                lemma_severity_count_bound(prefix, Severity::High);
                lemma_severity_count_bound(prefix, Severity::Medium);
                lemma_severity_count_bound(prefix, Severity::Low);
                lemma_severity_count_bound(prefix, Severity::Info);
            }
            match findings[i].severity {
                Severity::High => s.high = s.high + 1,
                Severity::Medium => s.medium = s.medium + 1,
                Severity::Low => s.low = s.low + 1,
                Severity::Info => s.info = s.info + 1,
            }
            i = i + 1;
        }
        assert(findings@.take(i as int) =~= findings@);
        s
    }
}

/// The summary of any list of findings counts every finding once: the total
/// equals the sum of the four severity counters.
pub proof fn summary_total_is_sum_of_counters(fs: Seq<Finding>)
    requires
        fs.len() <= usize::MAX,
    ensures
        summary_of(fs).total_findings == summary_of(fs).high + summary_of(fs).medium
            + summary_of(fs).low + summary_of(fs).info,
{
    lemma_severity_counts_partition(fs);
    lemma_severity_count_bound(fs, Severity::High);
    lemma_severity_count_bound(fs, Severity::Medium);
    lemma_severity_count_bound(fs, Severity::Low);
    lemma_severity_count_bound(fs, Severity::Info);
}

/// The summary reports a HIGH finding exactly when one of the findings is HIGH.
pub proof fn summary_high_iff_some_high_finding(fs: Seq<Finding>)
    requires
        fs.len() <= usize::MAX,
    ensures
        summary_of(fs).high > 0 <==> exists|i: int| 0 <= i < fs.len() && #[trigger] fs[i].severity == Severity::High,
{
    lemma_severity_count_bound(fs, Severity::High);
    lemma_severity_count_positive(fs, Severity::High);
}

/// Counting a severity over two lists of findings one after the other adds
/// the counts of each.
pub proof fn lemma_severity_count_concat(a: Seq<Finding>, b: Seq<Finding>, sev: Severity)
    ensures
        severity_count(a + b, sev) == severity_count(a, sev) + severity_count(b, sev),
    decreases b.len(),
{
    if b.len() == 0 {
        assert(a + b =~= a);
    } else {
        lemma_severity_count_concat(a, b.drop_last(), sev);
        assert((a + b).drop_last() =~= a + b.drop_last());
    }
}

proof fn lemma_severity_count_remove(s: Seq<Finding>, i: int, sev: Severity)
    requires
        0 <= i < s.len(),
    ensures
        severity_count(s, sev) == severity_count(s.remove(i), sev) + if s[i].severity == sev {
            1nat
        } else {
            0nat
        },
{
    let l = s.take(i);
    let r = s.skip(i + 1);
    let one = seq![s[i]];
    assert(s =~= l + one + r);
    assert(s.remove(i) =~= l + r);
    assert(one.drop_last() =~= Seq::<Finding>::empty());
    assert(one.last() == s[i]);
    assert(severity_count(one.drop_last(), sev) == 0);
    assert(severity_count(one, sev) == if s[i].severity == sev {
        1nat
    } else {
        0nat
    });
    lemma_severity_count_concat(l + one, r, sev);
    lemma_severity_count_concat(l, one, sev);
    lemma_severity_count_concat(l, r, sev);
    assert(severity_count(s, sev) == severity_count(l + one + r, sev));
    assert(severity_count(s.remove(i), sev) == severity_count(l + r, sev));
}

/// The severity counts of a list depend only on which findings it holds,
/// not on their order.
pub proof fn lemma_severity_count_permutation(a: Seq<Finding>, b: Seq<Finding>, sev: Severity)
    requires
        a.to_multiset() == b.to_multiset(),
    ensures
        severity_count(a, sev) == severity_count(b, sev),
    decreases a.len(),
{
    broadcast use vstd::seq_lib::group_to_multiset_ensures;
    broadcast use vstd::multiset::group_multiset_axioms;

    if a.len() == 0 {
        assert(b.to_multiset().len() == 0);
        assert(b.len() == 0);
    } else {
        let x = a.last();
        let rest = a.drop_last();
        assert(a =~= rest.push(x));
        vstd::seq_lib::to_multiset_build(rest, x);
        assert(b.to_multiset().count(x) > 0);
        assert(b.contains(x));
        let i = choose|i: int| 0 <= i < b.len() && b[i] == x;
        vstd::seq_lib::to_multiset_remove(b, i);
        assert(rest.to_multiset() =~= b.remove(i).to_multiset());
        lemma_severity_count_permutation(rest, b.remove(i), sev);
        lemma_severity_count_remove(b, i, sev);
    }
}

/// The summary of two lists of findings one after the other has, in each
/// counter, the sum of the two summaries' counters.
pub proof fn summary_adds_over_concatenation(a: Seq<Finding>, b: Seq<Finding>)
    requires
        a.len() + b.len() <= usize::MAX,
    ensures
        summary_of(a + b).total_findings == summary_of(a).total_findings + summary_of(b).total_findings,
        summary_of(a + b).high == summary_of(a).high + summary_of(b).high,
        summary_of(a + b).medium == summary_of(a).medium + summary_of(b).medium,
        summary_of(a + b).low == summary_of(a).low + summary_of(b).low,
        summary_of(a + b).info == summary_of(a).info + summary_of(b).info,
{
    lemma_severity_count_concat(a, b, Severity::High);
    lemma_severity_count_concat(a, b, Severity::Medium);
    lemma_severity_count_concat(a, b, Severity::Low);
    lemma_severity_count_concat(a, b, Severity::Info);
    lemma_severity_count_bound(a, Severity::High);
    lemma_severity_count_bound(a, Severity::Medium);
    lemma_severity_count_bound(a, Severity::Low);
    lemma_severity_count_bound(a, Severity::Info);
    lemma_severity_count_bound(b, Severity::High);
    lemma_severity_count_bound(b, Severity::Medium);
    lemma_severity_count_bound(b, Severity::Low);
    lemma_severity_count_bound(b, Severity::Info);
}

/// Reordering the findings does not change the summary.
pub proof fn summary_unchanged_by_reordering(a: Seq<Finding>, b: Seq<Finding>)
    requires
        a.to_multiset() == b.to_multiset(),
    ensures
        summary_of(a) == summary_of(b),
{
    broadcast use vstd::seq_lib::group_to_multiset_ensures;

    assert(a.len() == a.to_multiset().len());
    assert(b.len() == b.to_multiset().len());
    lemma_severity_count_permutation(a, b, Severity::High);
    lemma_severity_count_permutation(a, b, Severity::Medium);
    lemma_severity_count_permutation(a, b, Severity::Low);
    lemma_severity_count_permutation(a, b, Severity::Info);
}

/// Root report — top-level output.
#[derive(Debug, Clone)]
pub struct Report {
    pub schema_version: String,
    pub tool: String,
    pub tool_version: String,
    /// Unique report ID — "cf-{date}-{uuid4_short}".
    pub analysis_id: String,
    /// ISO 8601 UTC timestamp.
    pub timestamp: String,
    pub source: Source,
    pub findings: Vec<Finding>,
    pub summary: Summary,
}

/// A lowercase hexadecimal digit.
pub open spec fn is_lower_hex_char(c: char) -> bool {
    ('0' <= c && c <= '9') || ('a' <= c && c <= 'f')
}

/// The hyphenated lowercase text of a UUID: 36 characters, hyphens at
/// positions 8, 13, 18 and 23, lowercase hexadecimal digits elsewhere.
pub open spec fn is_hyphenated_uuid_text(s: Seq<char>) -> bool {
    &&& s.len() == 36
    &&& forall|i: int|
        0 <= i < 36 ==> if i == 8 || i == 13 || i == 18 || i == 23 {
            #[trigger] s[i] == '-'
        } else {
            is_lower_hex_char(s[i])
        }
}

/// The analysis identifier built from a date text and a UUID text:
/// "cf-", the date, "-" and the first eight characters of the UUID.
pub open spec fn analysis_id_text(date: Seq<char>, uuid: Seq<char>) -> Seq<char> {
    "cf-"@ + date + "-"@ + uuid.take(8)
}

/// Builds the analysis identifier from a date text and a UUID text.
pub fn analysis_id(date: &str, uuid: &str) -> (res: String)
    requires
        is_hyphenated_uuid_text(uuid@),
    ensures
        res@ == analysis_id_text(date@, uuid@),
{
    assert(vstd::string::is_ascii(uuid)) by {
        assert forall|i: int| 0 <= i < uuid@.len() implies '\0' <= #[trigger] uuid@[i] <= '\u{7f}' by {
            if i == 8 || i == 13 || i == 18 || i == 23 {
            } else {
                assert(is_lower_hex_char(uuid@[i]));
            }
        }
    }
    let short = uuid.substring_ascii(0, 8);
    let mut id = "cf-".to_owned();
    id.append(date);
    id.append("-");
    id.append(short);
    id
}

/// Why a report could not be made.
#[derive(Debug, Clone, Copy, PartialEq, Eq, Structural)]
pub enum ReportError {
    /// The system clock lies outside the times chrono can write.
    ClockOutOfRange,
}

/// The identifier `id` and the timestamp `ts` come from the clock reading
/// `reading` and the UUID text `uuid`: `ts` is the reading's RFC 3339 time
/// and `id` is built from its compact date and the UUID. For readings in the
/// years 0 to 9999 the date is eight digits and the time is RFC 3339.
pub open spec fn stamped_at(id: Seq<char>, ts: Seq<char>, reading: ClockReading, uuid: Seq<char>) -> bool {
    &&& reading.nanos < 1_000_000_000
    &&& is_hyphenated_uuid_text(uuid)
    &&& report_time_texts(reading) matches Some((date, time))
    &&& ts == time
    &&& id == analysis_id_text(date, uuid)
    &&& in_four_digit_years(unix_time(reading).0) ==> is_compact_date(date) && is_rfc3339_utc(time)
}

/// A fresh random (version 4) UUID from `uuid::Uuid::new_v4`, in the
/// hyphenated lowercase form that its `Display` impl writes (`format_hyphenated`
/// in the crate's fmt.rs). The value itself is random; only its form is stated.
#[verifier::external_body]
fn new_uuid_v4_text() -> (res: String)
    ensures
        is_hyphenated_uuid_text(res@),
{
    uuid::Uuid::new_v4().to_string()
}

impl Report {
    /// Assembles a report from its source, its findings, an analysis
    /// identifier and a timestamp; the summary is computed from the findings.
    pub fn with_identity(source: Source, findings: Vec<Finding>, analysis_id: String, timestamp: String) -> (r: Report)
        ensures
            r.schema_version@ == SCHEMA_VERSION@,
            r.tool@ == TOOL_NAME@,
            r.tool_version@ == TOOL_VERSION@,
            r.analysis_id == analysis_id,
            r.timestamp == timestamp,
            r.source == source,
            r.findings@ == findings@,
            r.summary == summary_of(findings@),
    {
        let summary = Summary::from_findings(findings.as_slice());
        Report {
            schema_version: SCHEMA_VERSION.to_owned(),
            tool: TOOL_NAME.to_owned(),
            tool_version: TOOL_VERSION.to_owned(),
            analysis_id,
            timestamp,
            source,
            findings,
            summary,
        }
    }

    /// A new report on `findings` from `source`, stamped with the current
    /// time and identified by today's date and a fresh random UUID; both
    /// come from one reading of the clock. Fails when chrono cannot
    /// represent the clock's time.
    pub fn new(source: Source, findings: Vec<Finding>) -> (res: Result<Report, ReportError>)
        ensures
            match res {
                Ok(r) => {
                    &&& r.schema_version@ == SCHEMA_VERSION@
                    &&& r.tool@ == TOOL_NAME@
                    &&& r.tool_version@ == TOOL_VERSION@
                    &&& r.source == source
                    &&& r.findings@ == findings@
                    &&& r.summary == summary_of(findings@)
                    &&& exists|reading: ClockReading, uuid: Seq<char>| #[trigger]
                        stamped_at(r.analysis_id@, r.timestamp@, reading, uuid)
                },
                Err(e) => e == ReportError::ClockOutOfRange && exists|reading: ClockReading|
                    reading.nanos < 1_000_000_000 && #[trigger] report_time_texts(reading) is None
                        && !in_four_digit_years(unix_time(reading).0),
            },
    {
        let reading = read_clock();
        let (date, timestamp) = match time_texts(&reading) {
            Some(texts) => texts,
            None => return Err(ReportError::ClockOutOfRange),
        };
        let uid = new_uuid_v4_text();
        let id = analysis_id(date.as_str(), uid.as_str());
        assert(stamped_at(id@, timestamp@, reading, uid@));
        Ok(Self::with_identity(source, findings, id, timestamp))
    }

    /// Whether the report holds a HIGH finding, the condition on which the
    /// scan exits with status 1.
    pub fn has_high_findings(&self) -> (res: bool)
        ensures
            res == (self.summary.high > 0),
    {
        self.summary.high > 0
    }
}

} // verus!
