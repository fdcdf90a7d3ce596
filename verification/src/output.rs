//! Output formatting: the choice of format and the text report.

use crate::schema::{FindingView, Report, Severity, Summary};
use crate::text::decimal;
use vstd::prelude::*;

verus! {

/// Output format of the report.
#[derive(Debug, Clone, Copy, PartialEq, Eq, Structural)]
pub enum OutputFormat {
    Text,
    Json,
}

/// "json" in any mix of upper and lower case. No other text lowercases to
/// "json": the only characters whose lowercase form is an ASCII letter other
/// than 'i' and 'k' are the ASCII letters themselves.
pub open spec fn is_json_name(s: Seq<char>) -> bool {
    &&& s.len() == 4
    &&& (s[0] == 'j' || s[0] == 'J')
    &&& (s[1] == 's' || s[1] == 'S')
    &&& (s[2] == 'o' || s[2] == 'O')
    &&& (s[3] == 'n' || s[3] == 'N')
}

impl OutputFormat {
    /// JSON when `s` is "json" in any case, text otherwise.
    pub fn from_str(s: &str) -> (res: OutputFormat)
        ensures
            res == (if is_json_name(s@) {
                OutputFormat::Json
            } else {
                OutputFormat::Text
            }),
    {
        if s.unicode_len() != 4 {
            return OutputFormat::Text;
        }
        let c0 = s.get_char(0);
        let c1 = s.get_char(1);
        let c2 = s.get_char(2);
        let c3 = s.get_char(3);
        if (c0 == 'j' || c0 == 'J') && (c1 == 's' || c1 == 'S') && (c2 == 'o' || c2 == 'O') && (c3 == 'n'
            || c3 == 'N') {
            OutputFormat::Json
        } else {
            OutputFormat::Text
        }
    }
}

/// The column tag of a severity in the text report.
pub open spec fn severity_prefix(s: Severity) -> Seq<char> {
    match s {
        Severity::High => "[HIGH]  "@,
        Severity::Medium => "[MEDIUM]"@,
        Severity::Low => "[LOW]   "@,
        Severity::Info => "[INFO]  "@,
    }
}

/// The address line of a finding: only when it has a source; the
/// destination and the port follow when present.
pub open spec fn address_line(f: FindingView) -> Seq<char> {
    match f.src {
        Some(src) => "         src: "@ + src + match f.dst {
            Some(d) => " -> "@ + d,
            None => Seq::empty(),
        } + match f.port {
            Some(p) => ":"@ + decimal(p as nat),
            None => Seq::empty(),
        } + "\n"@,
        None => Seq::empty(),
    }
}

/// The lines of one finding in the text report, ending in an empty line.
pub open spec fn finding_block(f: FindingView) -> Seq<char> {
    title_line(f) + address_line(f) + detail_lines(f)
}

/// The first line of a finding: severity tag, identifier and description.
pub open spec fn title_line(f: FindingView) -> Seq<char> {
    severity_prefix(f.severity) + " "@ + f.id + " — "@ + f.description + "\n"@
}

/// The evidence and reference lines of a finding, then an empty line.
pub open spec fn detail_lines(f: FindingView) -> Seq<char> {
    "         evidence  : "@ + f.evidence + "\n"@ + "         reference : "@ + f.reference + "\n"@ + "\n"@
}

/// The blocks of all findings, in order.
pub open spec fn findings_text(fs: Seq<FindingView>) -> Seq<char>
    decreases fs.len(),
{
    if fs.len() == 0 {
        Seq::empty()
    } else {
        findings_text(fs.drop_last()) + finding_block(fs.last())
    }
}

/// The header of the text report: tool version, identity, source and digest.
pub open spec fn header_text(r: Report) -> Seq<char> {
    "cryptofault "@ + r.tool_version@ + "\n"@ + "analysis_id : "@ + r.analysis_id@ + "\n"@
        + "timestamp   : "@ + r.timestamp@ + "\n"@ + "source      : "@ + r.source.path@ + " ("@
        + r.source.source_type@ + ")"@ + "\n"@ + "sha256      : "@ + r.source.sha256@ + "\n"@ + "\n"@
}

/// The summary lines of the text report.
pub open spec fn summary_text(s: Summary) -> Seq<char> {
    "--- summary ---"@ + "\n"@ + "total: "@ + decimal(s.total_findings as nat) + "  HIGH: "@ + decimal(
        s.high as nat,
    ) + "  MEDIUM: "@ + decimal(s.medium as nat) + "  LOW: "@ + decimal(s.low as nat) + "  INFO: "@
        + decimal(s.info as nat) + "\n"@
}

/// The text report: the header, then either a line saying that nothing was
/// found or every finding followed by the summary.
pub open spec fn report_text(r: Report) -> Seq<char> {
    header_text(r) + if r.findings@.len() == 0 {
        "[OK] No weaknesses detected."@ + "\n"@
    } else {
        findings_text(r.findings.deep_view()) + summary_text(r.summary)
    }
}

fn append_finding_block(s: &mut String, f: &crate::schema::Finding)
    ensures
        final(s)@ == old(s)@ + finding_block(f@),
{
    let prefix = match f.severity {
        Severity::High => "[HIGH]  ",
        Severity::Medium => "[MEDIUM]",
        Severity::Low => "[LOW]   ",
        Severity::Info => "[INFO]  ",
    };
    s.append(prefix);
    s.append(" ");
    s.append(f.id.as_str());
    s.append(" — ");
    s.append(f.description.as_str());
    s.append("\n");
    assert(s@ =~= old(s)@ + title_line(f@));
    let ghost before_address = s@;
    if let Some(src) = &f.src {
        s.append("         src: ");
        s.append(src.as_str());
        if let Some(dst) = &f.dst {
            s.append(" -> ");
            s.append(dst.as_str());
        }
        if let Some(port) = f.port {
            s.append(":");
            crate::text::append_decimal(s, port as u64);
        }
        s.append("\n");
    }
    assert(s@ =~= before_address + address_line(f@));
    let ghost before_details = s@;
    s.append("         evidence  : ");
    s.append(f.evidence.as_str());
    s.append("\n");
    s.append("         reference : ");
    s.append(f.reference.as_str());
    s.append("\n");
    s.append("\n");
    assert(s@ =~= before_details + detail_lines(f@));
    assert(s@ =~= old(s)@ + finding_block(f@));
}

/// The text report, as the terminal shows it.
pub fn render_text(report: &Report) -> (res: String)
    ensures
        res@ == report_text(*report),
{
    let mut s = "cryptofault ".to_owned();
    s.append(report.tool_version.as_str());
    s.append("\n");
    s.append("analysis_id : ");
    s.append(report.analysis_id.as_str());
    s.append("\n");
    s.append("timestamp   : ");
    s.append(report.timestamp.as_str());
    s.append("\n");
    s.append("source      : ");
    s.append(report.source.path.as_str());
    s.append(" (");
    s.append(report.source.source_type.as_str());
    s.append(")");
    s.append("\n");
    s.append("sha256      : ");
    s.append(report.source.sha256.as_str());
    s.append("\n");
    s.append("\n");
    let ghost header = s@;
    assert(header =~= header_text(*report));

    if report.findings.len() == 0 {
        s.append("[OK] No weaknesses detected.");
        s.append("\n");
        assert(s@ =~= report_text(*report));
        return s;
    }

    let mut i: usize = 0;
    while i < report.findings.len()
        invariant
            i <= report.findings@.len(),
            header == header_text(*report),
            s@ == header + findings_text(report.findings.deep_view().take(i as int)),
        decreases report.findings@.len() - i,
    {
        let ghost before = s@;
        append_finding_block(&mut s, &report.findings[i]);
        let ghost fs = report.findings.deep_view();
        assert(fs.take(i + 1).drop_last() =~= fs.take(i as int));
        assert(fs.take(i + 1).last() == report.findings@[i as int]@);
        assert(s@ =~= header + findings_text(fs.take(i + 1)));
        i = i + 1;
    }
    assert(report.findings.deep_view().take(i as int) =~= report.findings.deep_view());

    let ghost before_summary = s@;
    let summary = report.summary;
    s.append("--- summary ---");
    s.append("\n");
    s.append("total: ");
    crate::text::append_decimal(&mut s, summary.total_findings as u64);
    s.append("  HIGH: ");
    crate::text::append_decimal(&mut s, summary.high as u64);
    s.append("  MEDIUM: ");
    crate::text::append_decimal(&mut s, summary.medium as u64);
    s.append("  LOW: ");
    crate::text::append_decimal(&mut s, summary.low as u64);
    s.append("  INFO: ");
    crate::text::append_decimal(&mut s, summary.info as u64);
    s.append("\n");
    assert(s@ =~= before_summary + summary_text(summary));
    assert(s@ =~= report_text(*report));
    s
}

} // verus!
