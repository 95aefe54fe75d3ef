use vstd::prelude::*;
use vstd::string::{StrSliceExecFns, StringExecFns};
use crate::flags::{threat_name, ThreatFlags};

verus! {

/// The path of the liveness probe, answered without inspection.
pub open spec fn health_path() -> Seq<char> {
    "/health"@
}

/// Whether the request path is the liveness probe.
pub fn is_health_probe(path: &str) -> (r: bool)
    ensures
        r == (path@ == health_path()),
{
    let probe = "/health";
    proof {
        reveal_strlit("/health");
    }
    let n = probe.unicode_len();
    if path.unicode_len() != n {
        return false;
    }
    let mut i: usize = 0;
    while i < n
        invariant
            n == probe@.len(),
            n == path@.len(),
            0 <= i <= n,
            probe@ == health_path(),
            forall|j: int| 0 <= j < i ==> path@[j] == probe@[j],
        decreases n - i,
    {
        if path.get_char(i) != probe.get_char(i) {
            return false;
        }
        i = i + 1;
    }
    assert(path@ =~= probe@);
    true
}

/// The JSON body of a blocked request: a fixed error message and the name
/// of the verdict's category.
pub open spec fn blocked_body_text(bits: u32) -> Seq<char> {
    "{\"error\":\"Forbidden - Threat Blocked by Spryzen+\",\"category\":\""@ + threat_name(bits)
        + "\"}"@
}

/// Builds the body of the answer to a blocked request.
pub fn blocked_body(verdict: ThreatFlags) -> (r: String)
    ensures
        r@ == blocked_body_text(verdict.0),
{
    let mut body = String::from_str(
        "{\"error\":\"Forbidden - Threat Blocked by Spryzen+\",\"category\":\"",
    );
    body.append(verdict.name());
    body.append("\"}");
    body
}

} // verus!
