use vstd::prelude::*;

verus! {

/// A set of threat categories packed into one 32-bit word; bit `k` stands
/// for one category, and the empty set means the request is clean.
#[derive(Clone, Copy, Debug, PartialEq, Eq, Structural)]
pub struct ThreatFlags(pub u32);

/// The display name of a flag word: the first known category set in it,
/// in the order SQLi, XSS, RCE, path traversal, prompt injection,
/// protocol violation; "Clean" when none of them is set.
pub open spec fn threat_name(bits: u32) -> Seq<char> {
    if bits & 1 != 0 {
        "SQL Injection"@
    } else if bits & 2 != 0 {
        "Cross-Site Scripting (XSS)"@
    } else if bits & 4 != 0 {
        "Remote Code Execution (RCE)"@
    } else if bits & 8 != 0 {
        "Path Traversal (LFI/RFI)"@
    } else if bits & 16 != 0 {
        "LLM Prompt Injection"@
    } else if bits & 32 != 0 {
        "Protocol Violation"@
    } else {
        "Clean"@
    }
}

impl ThreatFlags {
    /// The empty flag word: no threat.
    pub fn clean() -> (r: ThreatFlags)
        ensures
            r.0 == 0,
    {
        ThreatFlags(0)
    }

    /// SQL injection.
    pub fn sqli() -> (r: ThreatFlags)
        ensures
            r.0 == 1,
    {
        ThreatFlags(1)
    }

    /// Cross-site scripting.
    pub fn xss() -> (r: ThreatFlags)
        ensures
            r.0 == 2,
    {
        ThreatFlags(2)
    }

    /// Remote code execution.
    pub fn rce() -> (r: ThreatFlags)
        ensures
            r.0 == 4,
    {
        ThreatFlags(4)
    }

    /// Path traversal and file inclusion.
    pub fn path_traversal() -> (r: ThreatFlags)
        ensures
            r.0 == 8,
    {
        ThreatFlags(8)
    }

    /// Prompt or template injection.
    pub fn prompt_injection() -> (r: ThreatFlags)
        ensures
            r.0 == 16,
    {
        ThreatFlags(16)
    }

    /// A malformed request.
    pub fn protocol_violation() -> (r: ThreatFlags)
        ensures
            r.0 == 32,
    {
        ThreatFlags(32)
    }

    /// Whether any category is flagged.
    pub fn is_threat(&self) -> (r: bool)
        ensures
            r == (self.0 != 0),
    {
        self.0 != 0
    }

    /// The name of the highest-priority category flagged.
    pub fn name(&self) -> (r: &'static str)
        ensures
            r@ == threat_name(self.0),
    {
        if self.0 & 1 != 0 {
            "SQL Injection"
        } else if self.0 & 2 != 0 {
            "Cross-Site Scripting (XSS)"
        } else if self.0 & 4 != 0 {
            "Remote Code Execution (RCE)"
        } else if self.0 & 8 != 0 {
            "Path Traversal (LFI/RFI)"
        } else if self.0 & 16 != 0 {
            "LLM Prompt Injection"
        } else if self.0 & 32 != 0 {
            "Protocol Violation"
        } else {
            "Clean"
        }
    }
}

} // verus!
