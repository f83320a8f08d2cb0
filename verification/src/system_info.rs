//! The wording of the system report that the front end can ask for.

use vstd::prelude::*;
use vstd::string::*;
use crate::text::{decimal, push_decimal};

verus! {

/// What the host reports about itself. A name that the host does not
/// tell is `None`. `cpu_usage` is the load in percent, already worded;
/// the four sizes are in bytes.
#[derive(Clone, Debug, PartialEq, Eq)]
pub struct SystemFacts {
    pub os_name: Option<String>,
    pub os_version: Option<String>,
    pub kernel_version: Option<String>,
    pub cpu_brand: Option<String>,
    pub cpu_usage: String,
    pub used_memory: u64,
    pub total_memory: u64,
    pub used_swap: u64,
    pub total_swap: u64,
}

/// A name as it is shown: itself, or `Unknown` where the host told none.
pub open spec fn shown_name(name: Option<String>) -> Seq<char> {
    match name {
        Some(text) => text@,
        None => "Unknown"@,
    }
}

/// A size in bytes as whole mebibytes, rounded down.
pub open spec fn mebibytes(bytes: u64) -> nat {
    (bytes as nat) / 1024 / 1024
}

/// The wording of `used` out of `total` bytes: `12/480 MB`.
pub open spec fn usage_text(used: u64, total: u64) -> Seq<char> {
    decimal(mebibytes(used)) + "/"@ + decimal(mebibytes(total)) + " MB"@
}

/// The report: five lines, the last without a line feed.
pub open spec fn report_text(facts: SystemFacts) -> Seq<char> {
    "OS: "@ + shown_name(facts.os_name) + " "@ + shown_name(facts.os_version) + "\nKernel: "@
        + shown_name(facts.kernel_version) + "\nCPU: "@ + shown_name(facts.cpu_brand)
        + "\nCPU Usage: "@ + facts.cpu_usage@ + "%\nMemory: "@ + usage_text(
        facts.used_memory,
        facts.total_memory,
    ) + "\nSwap: "@ + usage_text(facts.used_swap, facts.total_swap)
}

fn push_name(out: &mut String, name: &Option<String>)
    ensures
        final(out)@ == old(out)@ + shown_name(*name),
{
    match name {
        Some(text) => out.append(text.as_str()),
        None => out.append("Unknown"),
    }
}

fn push_usage(out: &mut String, used: u64, total: u64)
    ensures
        final(out)@ == old(out)@ + usage_text(used, total),
{
    push_decimal(out, used / 1024 / 1024);
    out.append("/");
    push_decimal(out, total / 1024 / 1024);
    out.append(" MB");
    assert(out@ =~= old(out)@ + usage_text(used, total));
}

/// Words the report of `facts`.
pub fn format_os_info(facts: &SystemFacts) -> (report: String)
    ensures
        report@ == report_text(*facts),
{
    let mut report = String::new();
    report.append("OS: ");
    push_name(&mut report, &facts.os_name);
    report.append(" ");
    push_name(&mut report, &facts.os_version);
    report.append("\nKernel: ");
    push_name(&mut report, &facts.kernel_version);
    report.append("\nCPU: ");
    push_name(&mut report, &facts.cpu_brand);
    report.append("\nCPU Usage: ");
    report.append(facts.cpu_usage.as_str());
    report.append("%\nMemory: ");
    push_usage(&mut report, facts.used_memory, facts.total_memory);
    report.append("\nSwap: ");
    push_usage(&mut report, facts.used_swap, facts.total_swap);
    assert(report@ =~= report_text(*facts));
    report
}

} // verus!
