//! Classification of one health check's outcome and the exact line that is
//! reported for it.

use vstd::prelude::*;

use crate::config::Configuration;
use crate::decimal::{dec_rep, u16_to_decimal};

verus! {

/// What one health check produced: an HTTP response with its status code,
/// or a transport failure (DNS, connect, TLS, timeout) with no response.
#[derive(Clone, Copy, Debug, PartialEq, Eq, Structural)]
pub enum CheckOutcome {
    Response(u16),
    TransportFailure,
}

/// The success range of HTTP status codes.
pub open spec fn spec_is_success(code: u16) -> bool {
    200 <= code <= 299
}

/// Whether a status code lies in the success range.
pub fn is_success(code: u16) -> (r: bool)
    ensures
        r == spec_is_success(code),
{
    200 <= code && code <= 299
}

/// The line reported for one check of `host` that ended in `outcome`.
pub open spec fn spec_report_line(host: Seq<char>, outcome: CheckOutcome) -> Seq<char> {
    match outcome {
        CheckOutcome::Response(code) => if spec_is_success(code) {
            "Checking '"@ + host + "'. Result: OK("@ + dec_rep(code as nat) + ")"@
        } else {
            "Checking '"@ + host + "'. Result: ERR("@ + dec_rep(code as nat) + ")"@
        },
        CheckOutcome::TransportFailure => "The '"@ + host + "' host error"@,
    }
}

/// Builds the report line for one iteration of the check loop: `OK(code)`
/// for a status in the success range, `ERR(code)` for any other response,
/// and the host-error line when no response came back at all.
pub fn report_line(cfg: &Configuration, outcome: &CheckOutcome) -> (r: String)
    ensures
        r@ == spec_report_line(cfg.host@, *outcome),
{
    match outcome {
        CheckOutcome::Response(code) => {
            let mut s = String::from_str("Checking '");
            s.append(cfg.host.as_str());
            if is_success(*code) {
                s.append("'. Result: OK(");
            } else {
                s.append("'. Result: ERR(");
            }
            let digits = u16_to_decimal(*code);
            s.append(digits.as_str());
            s.append(")");
            s
        },
        CheckOutcome::TransportFailure => {
            let mut s = String::from_str("The '");
            s.append(cfg.host.as_str());
            s.append("' host error");
            s
        },
    }
}

/// Iterations carry no state: the reported line depends only on the
/// configured host and the check's outcome, so repeated checks with an
/// unchanged outcome are reported by identical lines.
pub proof fn lemma_report_line_deterministic(
    h1: Seq<char>,
    o1: CheckOutcome,
    h2: Seq<char>,
    o2: CheckOutcome,
)
    requires
        h1 == h2,
        o1 == o2,
    ensures
        spec_report_line(h1, o1) == spec_report_line(h2, o2),
{
}

} // verus!
