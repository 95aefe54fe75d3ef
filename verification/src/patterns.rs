use vstd::prelude::*;
use crate::flags::ThreatFlags;
use vstd::string::StringSliceAdditionalSpecFns;

verus! {

/// The number of keywords in the scan table.
pub const WAF_PATTERN_COUNT: usize = 40;

/// The keywords of the scan, in table order.
pub open spec fn waf_keywords() -> Seq<&'static str> {
    seq![
        "union select",
        "union all select",
        "select from",
        "insert into",
        "drop table",
        "or 1=1",
        "and 1=1",
        "'--",
        "' --",
        "admin' --",
        "' or '",
        "/*",
        "sleep(",
        "waitfor delay",
        "<script",
        "javascript:",
        "onerror=",
        "onload=",
        "alert(",
        "eval(",
        "document.cookie",
        "<iframe",
        "../..",
        "..\\..",
        "/etc/passwd",
        "/etc/shadow",
        "boot.ini",
        "proc/self/environ",
        "/bin/bash",
        "/bin/sh",
        "powershell",
        "cmd.exe",
        "curl ",
        "wget ",
        "nc -e",
        "ignore previous instructions",
        "system prompt",
        "{{7*7}}",
        "${7*7}",
        "#{7*7}"
    ]
}

/// The category bit of the keyword at index `k` of the table: the table
/// lists the SQL injection keywords first, then cross-site scripting, path
/// traversal, remote code execution and prompt injection.
pub open spec fn waf_category(k: int) -> u32 {
    if k < 14 {
        1
    } else if k < 22 {
        2
    } else if k < 28 {
        8
    } else if k < 35 {
        4
    } else {
        16
    }
}

/// The category bit of each keyword, in table order.
pub open spec fn waf_categories() -> Seq<u32> {
    Seq::new(waf_keywords().len(), |k: int| waf_category(k))
}

/// The keywords as the byte strings that the automaton matches.
pub open spec fn waf_pattern_bytes() -> Seq<Seq<u8>> {
    waf_keywords().map_values(|k: &'static str| k.spec_bytes())
}

/// The scan table: each keyword with the category it signals.
pub fn waf_patterns() -> (r: Vec<(&'static str, ThreatFlags)>)
    ensures
        r@.len() == waf_keywords().len(),
        forall|i: int|
            0 <= i < r@.len() ==> (#[trigger] r@[i]).0 == waf_keywords()[i] && r@[i].1.0
                == waf_categories()[i],
{
    let mut v: Vec<(&'static str, ThreatFlags)> = Vec::new();
    v.push(("union select", ThreatFlags::sqli()));
    v.push(("union all select", ThreatFlags::sqli()));
    v.push(("select from", ThreatFlags::sqli()));
    v.push(("insert into", ThreatFlags::sqli()));
    v.push(("drop table", ThreatFlags::sqli()));
    v.push(("or 1=1", ThreatFlags::sqli()));
    v.push(("and 1=1", ThreatFlags::sqli()));
    v.push(("'--", ThreatFlags::sqli()));
    v.push(("' --", ThreatFlags::sqli()));
    v.push(("admin' --", ThreatFlags::sqli()));
    v.push(("' or '", ThreatFlags::sqli()));
    v.push(("/*", ThreatFlags::sqli()));
    v.push(("sleep(", ThreatFlags::sqli()));
    v.push(("waitfor delay", ThreatFlags::sqli()));
    v.push(("<script", ThreatFlags::xss()));
    v.push(("javascript:", ThreatFlags::xss()));
    v.push(("onerror=", ThreatFlags::xss()));
    v.push(("onload=", ThreatFlags::xss()));
    v.push(("alert(", ThreatFlags::xss()));
    v.push(("eval(", ThreatFlags::xss()));
    v.push(("document.cookie", ThreatFlags::xss()));
    v.push(("<iframe", ThreatFlags::xss()));
    v.push(("../..", ThreatFlags::path_traversal()));
    v.push(("..\\..", ThreatFlags::path_traversal()));
    v.push(("/etc/passwd", ThreatFlags::path_traversal()));
    v.push(("/etc/shadow", ThreatFlags::path_traversal()));
    v.push(("boot.ini", ThreatFlags::path_traversal()));
    v.push(("proc/self/environ", ThreatFlags::path_traversal()));
    v.push(("/bin/bash", ThreatFlags::rce()));
    v.push(("/bin/sh", ThreatFlags::rce()));
    v.push(("powershell", ThreatFlags::rce()));
    v.push(("cmd.exe", ThreatFlags::rce()));
    v.push(("curl ", ThreatFlags::rce()));
    v.push(("wget ", ThreatFlags::rce()));
    v.push(("nc -e", ThreatFlags::rce()));
    v.push(("ignore previous instructions", ThreatFlags::prompt_injection()));
    v.push(("system prompt", ThreatFlags::prompt_injection()));
    v.push(("{{7*7}}", ThreatFlags::prompt_injection()));
    v.push(("${7*7}", ThreatFlags::prompt_injection()));
    v.push(("#{7*7}", ThreatFlags::prompt_injection()));
    v
}

} // verus!
