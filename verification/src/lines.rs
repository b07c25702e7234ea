//! The lines that a run prints.

use crate::keys::Keypair;
use crate::pattern::InvalidPattern;
use crate::progress::ProgressReport;
use crate::text::decimal;
use crate::text::push_decimal;
use vstd::prelude::*;
use vstd::string::StringExecFns;

verus! {

/// The line that asks for the pattern.
pub const PROMPT: &'static str = "Enter starting line for an address:";

/// The line that tells of a pattern that was refused.
pub const INVALID_PATTERN: &'static str = "Invalid pattern. Use 0-9, a-f.";

/// The line that tells that the search has begun.
pub const GENERATING: &'static str = "Generating...";

/// The line that ends a run.
pub const COMPLETED: &'static str = "Completed.";

/// The progress line of the given figures.
pub open spec fn progress_text(report: ProgressReport) -> Seq<char> {
    "Speed: "@ + decimal(report.speed as nat) + " h/s. Work time: "@ + decimal(
        report.elapsed as nat,
    ) + "s. Estimated time: "@ + decimal(report.estimated_time as nat) + "s"@
}

/// The line that shows a private key.
pub open spec fn private_key_text(pair: Keypair) -> Seq<char> {
    "Private key: "@ + pair.private_key@
}

/// The line that shows an address, with `0x` in front of its digits.
pub open spec fn address_text(pair: Keypair) -> Seq<char> {
    "Address: 0x"@ + pair.address@
}

/// Writes the progress line: attempts per second, seconds of work, and the
/// seconds that the search is expected to take.
pub fn progress_line(report: ProgressReport) -> (line: String)
    ensures
        line@ == progress_text(report),
{
    let mut line = String::from_str("Speed: ");
    push_decimal(&mut line, report.speed);
    line.append(" h/s. Work time: ");
    push_decimal(&mut line, report.elapsed);
    line.append("s. Estimated time: ");
    push_decimal(&mut line, report.estimated_time);
    line.append("s");
    line
}

/// Writes the line that shows the private key of a pair.
pub fn private_key_line(pair: &Keypair) -> (line: String)
    ensures
        line@ == private_key_text(*pair),
{
    let mut line = String::from_str("Private key: ");
    line.append(pair.private_key.as_str());
    line
}

/// Writes the line that shows the address of a pair.
pub fn address_line(pair: &Keypair) -> (line: String)
    ensures
        line@ == address_text(*pair),
{
    let mut line = String::from_str("Address: 0x");
    line.append(pair.address.as_str());
    line
}

impl InvalidPattern {
    /// The line that tells the user of the refusal.
    pub fn message(&self) -> (line: &'static str)
        ensures
            line@ == INVALID_PATTERN@,
    {
        INVALID_PATTERN
    }
}

} // verus!
