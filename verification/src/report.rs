//! Interval reports, and how they read.

use crate::latency::ReportLine;
use crate::text::{decimal, flush_left, flush_right, push_decimal, push_flush_left, push_flush_right};
use crate::workload::Operation;
use vstd::prelude::*;
use vstd::string::StringExecFns;

verus! {

/// The width of the columns of a report.
pub const COLUMN: usize = 5;

/// The header of a report as text: the totals and the seconds since the start.
pub open spec fn header_text(count: usize, failure: usize, elapsed: u128) -> Seq<char> {
    "--- Total: "@ + decimal(count as nat) + " Failure: "@ + decimal(failure as nat)
        + " Elapsed: "@ + decimal(elapsed as nat) + "s ---"@
}

/// One line of a report as text: the name, the throughput and the latencies,
/// each in a column of its own.
pub open spec fn line_text(line: ReportLine) -> Seq<char> {
    flush_left(line.op.spec_name(), COLUMN as nat) + " - OPS: "@ + flush_right(
        decimal(line.ops as nat),
        COLUMN as nat,
    ) + ", P50: "@ + flush_right(decimal(line.p50 as nat), COLUMN as nat) + "us, P95: "@
        + flush_right(decimal(line.p95 as nat), COLUMN as nat) + "us, P99: "@ + flush_right(
        decimal(line.p99 as nat),
        COLUMN as nat,
    ) + "us, MAX: "@ + flush_right(decimal(line.max as nat), COLUMN as nat) + "us"@
}

/// The header of a report.
fn format_header(count: usize, failure: usize, elapsed: u128) -> (s: String)
    ensures
        s@ == header_text(count, failure, elapsed),
{
    let mut s = String::from_str("--- Total: ");
    push_decimal(&mut s, count as u128);
    s.append(" Failure: ");
    push_decimal(&mut s, failure as u128);
    s.append(" Elapsed: ");
    push_decimal(&mut s, elapsed);
    s.append("s ---");
    s
}

/// One line of a report.
fn format_line(line: &ReportLine) -> (s: String)
    ensures
        s@ == line_text(*line),
{
    let mut s = String::new();
    push_flush_left(&mut s, line.op.name(), COLUMN);
    s.append(" - OPS: ");
    push_flush_right(&mut s, line.ops as u128, COLUMN);
    s.append(", P50: ");
    push_flush_right(&mut s, line.p50 as u128, COLUMN);
    s.append("us, P95: ");
    push_flush_right(&mut s, line.p95 as u128, COLUMN);
    s.append("us, P99: ");
    push_flush_right(&mut s, line.p99 as u128, COLUMN);
    s.append("us, MAX: ");
    push_flush_right(&mut s, line.max as u128, COLUMN);
    s.append("us");
    proof {
        assert(s@ =~= line_text(*line));
    }
    s
}

/// An interval report: the totals of the run so far, the whole seconds since
/// its start, and one line for each kind of operation recorded in the interval.
#[derive(Clone, Copy, Debug, PartialEq, Eq, Structural)]
pub struct Report {
    pub count: usize,
    pub failure: usize,
    pub elapsed: u128,
    pub read: Option<ReportLine>,
    pub scan: Option<ReportLine>,
    pub write: Option<ReportLine>,
}

impl Report {
    /// The line of one kind of operation, if the report has one.
    pub open spec fn spec_line(&self, op: Operation) -> Option<ReportLine> {
        match op {
            Operation::Read => self.read,
            Operation::Scan => self.scan,
            Operation::Write => self.write,
        }
    }

    /// The line of one kind of operation, if the report has one.
    #[verifier::when_used_as_spec(spec_line)]
    pub fn line(&self, op: Operation) -> (l: Option<ReportLine>)
        ensures
            l == self.spec_line(op),
    {
        match op {
            Operation::Read => self.read,
            Operation::Scan => self.scan,
            Operation::Write => self.write,
        }
    }

    /// The text of a report: its header, then the lines it has, by ordinal.
    pub open spec fn text(self) -> Seq<Seq<char>> {
        seq![header_text(self.count, self.failure, self.elapsed)] + Self::line_or_nothing(self.read)
            + Self::line_or_nothing(self.scan) + Self::line_or_nothing(self.write)
    }

    /// The text of a line that is there, and nothing for one that is not.
    pub open spec fn line_or_nothing(line: Option<ReportLine>) -> Seq<Seq<char>> {
        match line {
            Some(l) => seq![line_text(l)],
            None => seq![],
        }
    }

    /// The report as lines of text. Kinds of operation without a line are left
    /// out.
    pub fn render(&self) -> (lines: Vec<String>)
        ensures
            texts(lines@) == self.text(),
    {
        let mut lines: Vec<String> = Vec::new();
        lines.push(format_header(self.count, self.failure, self.elapsed));
        proof {
            assert(texts(lines@) =~= seq![header_text(self.count, self.failure, self.elapsed)]);
        }
        append_line(&mut lines, self.read);
        append_line(&mut lines, self.scan);
        append_line(&mut lines, self.write);
        lines
    }
}

/// What a list of strings holds, as sequences of characters.
pub open spec fn texts(lines: Seq<String>) -> Seq<Seq<char>> {
    Seq::new(lines.len(), |i: int| lines[i]@)
}

/// Appends the text of a line that is there, and nothing for one that is not.
fn append_line(lines: &mut Vec<String>, line: Option<ReportLine>)
    ensures
        texts(final(lines)@) == texts(old(lines)@) + Report::line_or_nothing(line),
{
    match line {
        Some(l) => {
            lines.push(format_line(&l));
            proof {
                assert(texts(lines@) =~= texts(old(lines)@) + Report::line_or_nothing(line));
            }
        },
        None => {
            proof {
                assert(texts(lines@) =~= texts(old(lines)@) + Report::line_or_nothing(line));
            }
        },
    }
}

} // verus!
