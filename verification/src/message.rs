//! The human-readable console lines: one per completed domain check.

use vstd::prelude::*;
use vstd::string::StringExecFns;
use crate::status::dec_rep;
use crate::status::u16_to_string;

verus! {

/// What is printed when a domain is live: the URL that answered, under the
/// scheme that succeeded; verbose mode adds the status code.
pub open spec fn success_message(url: Seq<char>, status: u16, verbose: bool) -> Seq<char> {
    if verbose {
        "✓ "@ + url + " - Active (Status: "@ + dec_rep(status as nat) + ")"@
    } else {
        "✓ "@ + url + " - Active"@
    }
}

/// What is printed when a domain is dead: the bare domain.
pub open spec fn failure_message(domain: Seq<char>, verbose: bool) -> Seq<char> {
    if verbose {
        "✗ "@ + domain + " - Failed (Tried both HTTP & HTTPS)"@
    } else {
        "✗ "@ + domain + " - Failed"@
    }
}

/// Formats the console line for a URL that answered with a success status.
pub fn format_success(url: &str, status: u16, verbose: bool) -> (m: String)
    ensures
        m@ == success_message(url@, status, verbose),
{
    let mut m = String::from_str("✓ ");
    m.append(url);
    if verbose {
        m.append(" - Active (Status: ");
        let code = u16_to_string(status);
        m.append(code.as_str());
        m.append(")");
    } else {
        m.append(" - Active");
    }
    proof {
        assert(m@ =~= success_message(url@, status, verbose));
    }
    m
}

/// Formats the console line for a domain whose probes all failed.
pub fn format_failure(domain: &str, verbose: bool) -> (m: String)
    ensures
        m@ == failure_message(domain@, verbose),
{
    let mut m = String::from_str("✗ ");
    m.append(domain);
    if verbose {
        m.append(" - Failed (Tried both HTTP & HTTPS)");
    } else {
        m.append(" - Failed");
    }
    proof {
        assert(m@ =~= failure_message(domain@, verbose));
    }
    m
}

} // verus!
