use vstd::prelude::*;
use vstd::string::{is_ascii_spec_bytes, StringSliceAdditionalSpecFns};
use crate::automaton::{first_keyword_at, has_keyword, occurs_ending_at, scan_outcome};
use crate::endings::lemma_scan_outcome_unique;
use crate::flags::threat_name;
use crate::flags::ThreatFlags;
use crate::inspector::{
    cache_slot, cache_wf, inspect_outcome, inspection, query_bytes, request_writes, the_hash,
    verdict_ok,
};
use crate::laws::law_keyword_is_detected;
use ahash::RandomState;
use crate::patterns::{waf_categories, waf_category, waf_keywords, waf_pattern_bytes};
use crate::scan::{spec_has_risky, spec_is_risky_byte};

verus! {

/// The scan's keywords, written out byte by byte in table order.
pub open spec fn listed_keywords() -> Seq<Seq<u8>> {
    seq![
        // union select
        seq![0x75, 0x6e, 0x69, 0x6f, 0x6e, 0x20, 0x73, 0x65, 0x6c, 0x65, 0x63, 0x74],
        // union all select
        seq![0x75, 0x6e, 0x69, 0x6f, 0x6e, 0x20, 0x61, 0x6c, 0x6c, 0x20, 0x73, 0x65, 0x6c, 0x65, 0x63, 0x74],
        // select from
        seq![0x73, 0x65, 0x6c, 0x65, 0x63, 0x74, 0x20, 0x66, 0x72, 0x6f, 0x6d],
        // insert into
        seq![0x69, 0x6e, 0x73, 0x65, 0x72, 0x74, 0x20, 0x69, 0x6e, 0x74, 0x6f],
        // drop table
        seq![0x64, 0x72, 0x6f, 0x70, 0x20, 0x74, 0x61, 0x62, 0x6c, 0x65],
        // or 1=1
        seq![0x6f, 0x72, 0x20, 0x31, 0x3d, 0x31],
        // and 1=1
        seq![0x61, 0x6e, 0x64, 0x20, 0x31, 0x3d, 0x31],
        // '--
        seq![0x27, 0x2d, 0x2d],
        // ' --
        seq![0x27, 0x20, 0x2d, 0x2d],
        // admin' --
        seq![0x61, 0x64, 0x6d, 0x69, 0x6e, 0x27, 0x20, 0x2d, 0x2d],
        // ' or '
        seq![0x27, 0x20, 0x6f, 0x72, 0x20, 0x27],
        // /*
        seq![0x2f, 0x2a],
        // sleep(
        seq![0x73, 0x6c, 0x65, 0x65, 0x70, 0x28],
        // waitfor delay
        seq![0x77, 0x61, 0x69, 0x74, 0x66, 0x6f, 0x72, 0x20, 0x64, 0x65, 0x6c, 0x61, 0x79],
        // <script
        seq![0x3c, 0x73, 0x63, 0x72, 0x69, 0x70, 0x74],
        // javascript:
        seq![0x6a, 0x61, 0x76, 0x61, 0x73, 0x63, 0x72, 0x69, 0x70, 0x74, 0x3a],
        // onerror=
        seq![0x6f, 0x6e, 0x65, 0x72, 0x72, 0x6f, 0x72, 0x3d],
        // onload=
        seq![0x6f, 0x6e, 0x6c, 0x6f, 0x61, 0x64, 0x3d],
        // alert(
        seq![0x61, 0x6c, 0x65, 0x72, 0x74, 0x28],
        // eval(
        seq![0x65, 0x76, 0x61, 0x6c, 0x28],
        // document.cookie
        seq![0x64, 0x6f, 0x63, 0x75, 0x6d, 0x65, 0x6e, 0x74, 0x2e, 0x63, 0x6f, 0x6f, 0x6b, 0x69, 0x65],
        // <iframe
        seq![0x3c, 0x69, 0x66, 0x72, 0x61, 0x6d, 0x65],
        // ../..
        seq![0x2e, 0x2e, 0x2f, 0x2e, 0x2e],
        // ..\..
        seq![0x2e, 0x2e, 0x5c, 0x2e, 0x2e],
        // /etc/passwd
        seq![0x2f, 0x65, 0x74, 0x63, 0x2f, 0x70, 0x61, 0x73, 0x73, 0x77, 0x64],
        // /etc/shadow
        seq![0x2f, 0x65, 0x74, 0x63, 0x2f, 0x73, 0x68, 0x61, 0x64, 0x6f, 0x77],
        // boot.ini
        seq![0x62, 0x6f, 0x6f, 0x74, 0x2e, 0x69, 0x6e, 0x69],
        // proc/self/environ
        seq![0x70, 0x72, 0x6f, 0x63, 0x2f, 0x73, 0x65, 0x6c, 0x66, 0x2f, 0x65, 0x6e, 0x76, 0x69, 0x72, 0x6f, 0x6e],
        // /bin/bash
        seq![0x2f, 0x62, 0x69, 0x6e, 0x2f, 0x62, 0x61, 0x73, 0x68],
        // /bin/sh
        seq![0x2f, 0x62, 0x69, 0x6e, 0x2f, 0x73, 0x68],
        // powershell
        seq![0x70, 0x6f, 0x77, 0x65, 0x72, 0x73, 0x68, 0x65, 0x6c, 0x6c],
        // cmd.exe
        seq![0x63, 0x6d, 0x64, 0x2e, 0x65, 0x78, 0x65],
        // curl 
        seq![0x63, 0x75, 0x72, 0x6c, 0x20],
        // wget 
        seq![0x77, 0x67, 0x65, 0x74, 0x20],
        // nc -e
        seq![0x6e, 0x63, 0x20, 0x2d, 0x65],
        // ignore previous instructions
        seq![0x69, 0x67, 0x6e, 0x6f, 0x72, 0x65, 0x20, 0x70, 0x72, 0x65, 0x76, 0x69, 0x6f, 0x75, 0x73, 0x20, 0x69, 0x6e, 0x73, 0x74, 0x72, 0x75, 0x63, 0x74, 0x69, 0x6f, 0x6e, 0x73],
        // system prompt
        seq![0x73, 0x79, 0x73, 0x74, 0x65, 0x6d, 0x20, 0x70, 0x72, 0x6f, 0x6d, 0x70, 0x74],
        // {{7*7}}
        seq![0x7b, 0x7b, 0x37, 0x2a, 0x37, 0x7d, 0x7d],
        // ${7*7}
        seq![0x24, 0x7b, 0x37, 0x2a, 0x37, 0x7d],
        // #{7*7}
        seq![0x23, 0x7b, 0x37, 0x2a, 0x37, 0x7d],
    ]
}

/// The category of each listed keyword: SQL injection 1, cross-site
/// scripting 2, remote code execution 4, path traversal 8, prompt
/// injection 16.
pub open spec fn listed_categories() -> Seq<u32> {
    seq![1, 1, 1, 1, 1, 1, 1, 1, 1, 1, 1, 1, 1, 1, 2, 2, 2, 2, 2, 2, 2, 2, 8, 8, 8, 8, 8, 8, 4, 4, 4, 4, 4, 4, 4, 16, 16, 16, 16, 16]
}

/// The injection delimiters, written out: ``'"<>/\-;{}$#`=(),*%+|&[]``.
pub open spec fn delimiter_bytes() -> Seq<u8> {
    seq![
        0x27, 0x22, 0x3c, 0x3e, 0x2f, 0x5c, 0x2d, 0x3b, 0x7b, 0x7d, 0x24, 0x23, 0x60, 0x3d,
        0x28, 0x29, 0x2c, 0x2a, 0x25, 0x2b, 0x7c, 0x26, 0x5b, 0x5d,
    ]
}

/// The keyword table the automaton is built from is exactly the listed
/// keywords, each with its listed category.
pub proof fn law_keyword_table()
    ensures
        waf_pattern_bytes().len() == 40,
        forall|k: int| 0 <= k < 40 ==> #[trigger] waf_pattern_bytes()[k] == listed_keywords()[k],
        forall|k: int| 0 <= k < 40 ==> #[trigger] waf_category(k) == listed_categories()[k],
        forall|k: int| 0 <= k < 40 ==> #[trigger] waf_categories()[k] == listed_categories()[k],
{
    assert forall|k: int| 0 <= k < 40 implies #[trigger] waf_pattern_bytes()[k] == listed_keywords()[k] by {
        if k == 0 {
            reveal_strlit("union select");
            is_ascii_spec_bytes("union select");
            assert(waf_keywords()[k] == "union select");
            assert(waf_pattern_bytes()[k] =~= listed_keywords()[k]);
        } else if k == 1 {
            reveal_strlit("union all select");
            is_ascii_spec_bytes("union all select");
            assert(waf_keywords()[k] == "union all select");
            assert(waf_pattern_bytes()[k] =~= listed_keywords()[k]);
        } else if k == 2 {
            reveal_strlit("select from");
            is_ascii_spec_bytes("select from");
            assert(waf_keywords()[k] == "select from");
            assert(waf_pattern_bytes()[k] =~= listed_keywords()[k]);
        } else if k == 3 {
            reveal_strlit("insert into");
            is_ascii_spec_bytes("insert into");
            assert(waf_keywords()[k] == "insert into");
            assert(waf_pattern_bytes()[k] =~= listed_keywords()[k]);
        } else if k == 4 {
            reveal_strlit("drop table");
            is_ascii_spec_bytes("drop table");
            assert(waf_keywords()[k] == "drop table");
            assert(waf_pattern_bytes()[k] =~= listed_keywords()[k]);
        } else if k == 5 {
            reveal_strlit("or 1=1");
            is_ascii_spec_bytes("or 1=1");
            assert(waf_keywords()[k] == "or 1=1");
            assert(waf_pattern_bytes()[k] =~= listed_keywords()[k]);
        } else if k == 6 {
            reveal_strlit("and 1=1");
            is_ascii_spec_bytes("and 1=1");
            assert(waf_keywords()[k] == "and 1=1");
            assert(waf_pattern_bytes()[k] =~= listed_keywords()[k]);
        } else if k == 7 {
            reveal_strlit("'--");
            is_ascii_spec_bytes("'--");
            assert(waf_keywords()[k] == "'--");
            assert(waf_pattern_bytes()[k] =~= listed_keywords()[k]);
        } else if k == 8 {
            reveal_strlit("' --");
            is_ascii_spec_bytes("' --");
            assert(waf_keywords()[k] == "' --");
            assert(waf_pattern_bytes()[k] =~= listed_keywords()[k]);
        } else if k == 9 {
            reveal_strlit("admin' --");
            is_ascii_spec_bytes("admin' --");
            assert(waf_keywords()[k] == "admin' --");
            assert(waf_pattern_bytes()[k] =~= listed_keywords()[k]);
        } else if k == 10 {
            reveal_strlit("' or '");
            is_ascii_spec_bytes("' or '");
            assert(waf_keywords()[k] == "' or '");
            assert(waf_pattern_bytes()[k] =~= listed_keywords()[k]);
        } else if k == 11 {
            reveal_strlit("/*");
            is_ascii_spec_bytes("/*");
            assert(waf_keywords()[k] == "/*");
            assert(waf_pattern_bytes()[k] =~= listed_keywords()[k]);
        } else if k == 12 {
            reveal_strlit("sleep(");
            is_ascii_spec_bytes("sleep(");
            assert(waf_keywords()[k] == "sleep(");
            assert(waf_pattern_bytes()[k] =~= listed_keywords()[k]);
        } else if k == 13 {
            reveal_strlit("waitfor delay");
            is_ascii_spec_bytes("waitfor delay");
            assert(waf_keywords()[k] == "waitfor delay");
            assert(waf_pattern_bytes()[k] =~= listed_keywords()[k]);
        } else if k == 14 {
            reveal_strlit("<script");
            is_ascii_spec_bytes("<script");
            assert(waf_keywords()[k] == "<script");
            assert(waf_pattern_bytes()[k] =~= listed_keywords()[k]);
        } else if k == 15 {
            reveal_strlit("javascript:");
            is_ascii_spec_bytes("javascript:");
            assert(waf_keywords()[k] == "javascript:");
            assert(waf_pattern_bytes()[k] =~= listed_keywords()[k]);
        } else if k == 16 {
            reveal_strlit("onerror=");
            is_ascii_spec_bytes("onerror=");
            assert(waf_keywords()[k] == "onerror=");
            assert(waf_pattern_bytes()[k] =~= listed_keywords()[k]);
        } else if k == 17 {
            reveal_strlit("onload=");
            is_ascii_spec_bytes("onload=");
            assert(waf_keywords()[k] == "onload=");
            assert(waf_pattern_bytes()[k] =~= listed_keywords()[k]);
        } else if k == 18 {
            reveal_strlit("alert(");
            is_ascii_spec_bytes("alert(");
            assert(waf_keywords()[k] == "alert(");
            assert(waf_pattern_bytes()[k] =~= listed_keywords()[k]);
        } else if k == 19 {
            reveal_strlit("eval(");
            is_ascii_spec_bytes("eval(");
            assert(waf_keywords()[k] == "eval(");
            assert(waf_pattern_bytes()[k] =~= listed_keywords()[k]);
        } else if k == 20 {
            reveal_strlit("document.cookie");
            is_ascii_spec_bytes("document.cookie");
            assert(waf_keywords()[k] == "document.cookie");
            assert(waf_pattern_bytes()[k] =~= listed_keywords()[k]);
        } else if k == 21 {
            reveal_strlit("<iframe");
            is_ascii_spec_bytes("<iframe");
            assert(waf_keywords()[k] == "<iframe");
            assert(waf_pattern_bytes()[k] =~= listed_keywords()[k]);
        } else if k == 22 {
            reveal_strlit("../..");
            is_ascii_spec_bytes("../..");
            assert(waf_keywords()[k] == "../..");
            assert(waf_pattern_bytes()[k] =~= listed_keywords()[k]);
        } else if k == 23 {
            reveal_strlit("..\\..");
            is_ascii_spec_bytes("..\\..");
            assert(waf_keywords()[k] == "..\\..");
            assert(waf_pattern_bytes()[k] =~= listed_keywords()[k]);
        } else if k == 24 {
            reveal_strlit("/etc/passwd");
            is_ascii_spec_bytes("/etc/passwd");
            assert(waf_keywords()[k] == "/etc/passwd");
            assert(waf_pattern_bytes()[k] =~= listed_keywords()[k]);
        } else if k == 25 {
            reveal_strlit("/etc/shadow");
            is_ascii_spec_bytes("/etc/shadow");
            assert(waf_keywords()[k] == "/etc/shadow");
            assert(waf_pattern_bytes()[k] =~= listed_keywords()[k]);
        } else if k == 26 {
            reveal_strlit("boot.ini");
            is_ascii_spec_bytes("boot.ini");
            assert(waf_keywords()[k] == "boot.ini");
            assert(waf_pattern_bytes()[k] =~= listed_keywords()[k]);
        } else if k == 27 {
            reveal_strlit("proc/self/environ");
            is_ascii_spec_bytes("proc/self/environ");
            assert(waf_keywords()[k] == "proc/self/environ");
            assert(waf_pattern_bytes()[k] =~= listed_keywords()[k]);
        } else if k == 28 {
            reveal_strlit("/bin/bash");
            is_ascii_spec_bytes("/bin/bash");
            assert(waf_keywords()[k] == "/bin/bash");
            assert(waf_pattern_bytes()[k] =~= listed_keywords()[k]);
        } else if k == 29 {
            reveal_strlit("/bin/sh");
            is_ascii_spec_bytes("/bin/sh");
            assert(waf_keywords()[k] == "/bin/sh");
            assert(waf_pattern_bytes()[k] =~= listed_keywords()[k]);
        } else if k == 30 {
            reveal_strlit("powershell");
            is_ascii_spec_bytes("powershell");
            assert(waf_keywords()[k] == "powershell");
            assert(waf_pattern_bytes()[k] =~= listed_keywords()[k]);
        } else if k == 31 {
            reveal_strlit("cmd.exe");
            is_ascii_spec_bytes("cmd.exe");
            assert(waf_keywords()[k] == "cmd.exe");
            assert(waf_pattern_bytes()[k] =~= listed_keywords()[k]);
        } else if k == 32 {
            reveal_strlit("curl ");
            is_ascii_spec_bytes("curl ");
            assert(waf_keywords()[k] == "curl ");
            assert(waf_pattern_bytes()[k] =~= listed_keywords()[k]);
        } else if k == 33 {
            reveal_strlit("wget ");
            is_ascii_spec_bytes("wget ");
            assert(waf_keywords()[k] == "wget ");
            assert(waf_pattern_bytes()[k] =~= listed_keywords()[k]);
        } else if k == 34 {
            reveal_strlit("nc -e");
            is_ascii_spec_bytes("nc -e");
            assert(waf_keywords()[k] == "nc -e");
            assert(waf_pattern_bytes()[k] =~= listed_keywords()[k]);
        } else if k == 35 {
            reveal_strlit("ignore previous instructions");
            is_ascii_spec_bytes("ignore previous instructions");
            assert(waf_keywords()[k] == "ignore previous instructions");
            assert(waf_pattern_bytes()[k] =~= listed_keywords()[k]);
        } else if k == 36 {
            reveal_strlit("system prompt");
            is_ascii_spec_bytes("system prompt");
            assert(waf_keywords()[k] == "system prompt");
            assert(waf_pattern_bytes()[k] =~= listed_keywords()[k]);
        } else if k == 37 {
            reveal_strlit("{{7*7}}");
            is_ascii_spec_bytes("{{7*7}}");
            assert(waf_keywords()[k] == "{{7*7}}");
            assert(waf_pattern_bytes()[k] =~= listed_keywords()[k]);
        } else if k == 38 {
            reveal_strlit("${7*7}");
            is_ascii_spec_bytes("${7*7}");
            assert(waf_keywords()[k] == "${7*7}");
            assert(waf_pattern_bytes()[k] =~= listed_keywords()[k]);
        } else if k == 39 {
            reveal_strlit("#{7*7}");
            is_ascii_spec_bytes("#{7*7}");
            assert(waf_keywords()[k] == "#{7*7}");
            assert(waf_pattern_bytes()[k] =~= listed_keywords()[k]);
        }
    }
}

/// Wherever a listed keyword occurs, the scan reports a threat.
pub proof fn law_listed_keyword_detected(hay: Seq<u8>, f: u32, k: int, end: int)
    requires
        scan_outcome(hay, f),
        0 <= k < 40,
        occurs_ending_at(hay, listed_keywords()[k], end),
    ensures
        f != 0,
{
    law_keyword_table();
    assert(waf_pattern_bytes()[k] == listed_keywords()[k]);
    assert(occurs_ending_at(hay, waf_pattern_bytes()[k], end));
    assert(has_keyword(hay));
}

/// When a listed keyword is the first listed keyword to end in the
/// haystack, the scan reports exactly its listed category.
pub proof fn law_first_listed_keyword_category(hay: Seq<u8>, f: u32, k: int, end: int)
    requires
        scan_outcome(hay, f),
        0 <= k < 40,
        occurs_ending_at(hay, listed_keywords()[k], end),
        forall|j: int, e: int|
            0 <= j < 40 && e < end ==> !#[trigger] occurs_ending_at(hay, listed_keywords()[j], e),
    ensures
        f == listed_categories()[k],
{
    law_keyword_table();
    assert forall|q: int, e: int| 0 <= q < waf_pattern_bytes().len() && e < end implies !#[trigger] occurs_ending_at(
        hay,
        waf_pattern_bytes()[q],
        e,
    ) by {
        assert(waf_pattern_bytes()[q] == listed_keywords()[q]);
    }
    assert(first_keyword_at(hay, k, end));
    assert(scan_outcome(hay, waf_categories()[k]));
    lemma_scan_outcome_unique(hay, f, waf_categories()[k]);
}

/// A byte is an injection delimiter exactly when it is one of the listed
/// delimiter bytes.
pub proof fn law_delimiter_byte(b: u8)
    ensures
        spec_is_risky_byte(b) <==> delimiter_bytes().contains(b),
{
    let d = delimiter_bytes();
    if spec_is_risky_byte(b) {
        let j: int = if b == 0x27 { 0 } else if b == 0x22 { 1 } else if b == 0x3c { 2 } else if b
            == 0x3e { 3 } else if b == 0x2f { 4 } else if b == 0x5c { 5 } else if b == 0x2d {
            6
        } else if b == 0x3b { 7 } else if b == 0x7b { 8 } else if b == 0x7d { 9 } else if b
            == 0x24 { 10 } else if b == 0x23 { 11 } else if b == 0x60 { 12 } else if b == 0x3d {
            13
        } else if b == 0x28 { 14 } else if b == 0x29 { 15 } else if b == 0x2c { 16 } else if b
            == 0x2a { 17 } else if b == 0x25 { 18 } else if b == 0x2b { 19 } else if b == 0x7c {
            20
        } else if b == 0x26 { 21 } else if b == 0x5b { 22 } else { 23 };
        assert(d[j] == b);
    }
    if d.contains(b) {
        let j = choose|j: int| 0 <= j < d.len() && d[j] == b;
        assert(spec_is_risky_byte(d[j]));
    }
}

/// A payload is risky exactly when one of its bytes, wherever it stands, is
/// a listed delimiter.
pub proof fn law_risky_iff_listed_delimiter(s: Seq<u8>)
    ensures
        spec_has_risky(s) <==> exists|i: int| 0 <= i < s.len() && delimiter_bytes().contains(#[trigger] s[i]),
{
    if spec_has_risky(s) {
        let i = choose|i: int| 0 <= i < s.len() && #[trigger] spec_is_risky_byte(s[i]);
        law_delimiter_byte(s[i]);
    }
    if exists|i: int| 0 <= i < s.len() && delimiter_bytes().contains(#[trigger] s[i]) {
        let i = choose|i: int| 0 <= i < s.len() && delimiter_bytes().contains(#[trigger] s[i]);
        law_delimiter_byte(s[i]);
    }
}

/// Riskiness of a concatenation is riskiness of either side.
pub proof fn law_risky_concat(s: Seq<u8>, t: Seq<u8>)
    ensures
        spec_has_risky(s + t) <==> (spec_has_risky(s) || spec_has_risky(t)),
{
    let st = s + t;
    if spec_has_risky(st) {
        let i = choose|i: int| 0 <= i < st.len() && #[trigger] spec_is_risky_byte(st[i]);
        if i < s.len() {
            assert(spec_is_risky_byte(s[i]));
        } else {
            assert(spec_is_risky_byte(t[i - s.len()]));
        }
    }
    if spec_has_risky(s) {
        let i = choose|i: int| 0 <= i < s.len() && #[trigger] spec_is_risky_byte(s[i]);
        assert(spec_is_risky_byte(st[i]));
    }
    if spec_has_risky(t) {
        let i = choose|i: int| 0 <= i < t.len() && #[trigger] spec_is_risky_byte(t[i]);
        assert(spec_is_risky_byte(st[i + s.len()]));
    }
}

/// The names of the single categories and of the empty flag word.
pub proof fn law_category_names()
    ensures
        threat_name(0) == "Clean"@,
        threat_name(1) == "SQL Injection"@,
        threat_name(2) == "Cross-Site Scripting (XSS)"@,
        threat_name(4) == "Remote Code Execution (RCE)"@,
        threat_name(8) == "Path Traversal (LFI/RFI)"@,
        threat_name(16) == "LLM Prompt Injection"@,
        threat_name(32) == "Protocol Violation"@,
{
    assert(0u32 & 1 == 0 && 0u32 & 2 == 0 && 0u32 & 4 == 0 && 0u32 & 8 == 0 && 0u32 & 16 == 0
        && 0u32 & 32 == 0) by (bit_vector);
    assert(1u32 & 1 != 0) by (bit_vector);
    assert(2u32 & 1 == 0 && 2u32 & 2 != 0) by (bit_vector);
    assert(4u32 & 1 == 0 && 4u32 & 2 == 0 && 4u32 & 4 != 0) by (bit_vector);
    assert(8u32 & 1 == 0 && 8u32 & 2 == 0 && 8u32 & 4 == 0 && 8u32 & 8 != 0) by (bit_vector);
    assert(16u32 & 1 == 0 && 16u32 & 2 == 0 && 16u32 & 4 == 0 && 16u32 & 8 == 0 && 16u32 & 16
        != 0) by (bit_vector);
    assert(32u32 & 1 == 0 && 32u32 & 2 == 0 && 32u32 & 4 == 0 && 32u32 & 8 == 0 && 32u32 & 16
        == 0 && 32u32 & 32 != 0) by (bit_vector);
}

/// The lowest known category bit set in a flag word decides its name:
/// whatever higher bits are also set, the name is that of the bit alone.
pub proof fn law_lowest_category_names(bits: u32, c: u32)
    requires
        c == 1 || c == 2 || c == 4 || c == 8 || c == 16 || c == 32,
        bits & c != 0,
        bits & ((c - 1) as u32) == 0,
    ensures
        threat_name(bits) == threat_name(c),
{
    law_category_names();
    assert((c == 1 || c == 2 || c == 4 || c == 8 || c == 16 || c == 32) && bits & ((c - 1) as u32) == 0
        ==> ((c > 1 ==> bits & 1 == 0) && (c > 2 ==> bits & 2 == 0) && (c > 4 ==> bits & 4 == 0)
        && (c > 8 ==> bits & 8 == 0) && (c > 16 ==> bits & 16 == 0))) by (bit_vector);
}

/// The writes a request's hash is computed over determine the request:
/// requests that differ in path or query are hashed over different writes.
pub proof fn law_request_writes_injective(
    p1: Seq<u8>,
    q1: Option<Seq<u8>>,
    p2: Seq<u8>,
    q2: Option<Seq<u8>>,
)
    requires
        request_writes(p1, q1) == request_writes(p2, q2),
    ensures
        p1 == p2,
        q1 == q2,
{
    let w = request_writes(p1, q1);
    assert(w[0] == p1);
    assert(request_writes(p2, q2)[0] == p2);
    assert(w.len() == request_writes(p2, q2).len());
    if let Some(a) = q1 {
        assert(w[1] == a);
        if let Some(b) = q2 {
            assert(request_writes(p2, q2)[1] == b);
        }
    }
}

/// Inspection reads the whole query: its bytes, all of them, or none when
/// there is no query.
pub proof fn law_whole_query_read(q: &str)
    ensures
        query_bytes(Some(q)) == Some(q.spec_bytes()),
        query_bytes(None) == None::<Seq<u8>>,
{
}

/// On an inspector whose cache is empty (a fresh one), inspecting a
/// request computes that request's own verdict.
pub proof fn law_fresh_inspection_is_computed(
    seed: RandomState,
    keys0: Seq<Option<u64>>,
    verdicts0: Seq<ThreatFlags>,
    path: Seq<u8>,
    query: Option<Seq<u8>>,
    keys1: Seq<Option<u64>>,
    verdicts1: Seq<ThreatFlags>,
    r: ThreatFlags,
)
    requires
        cache_wf(keys0, verdicts0),
        forall|i: int| 0 <= i < keys0.len() ==> #[trigger] keys0[i] == None::<u64>,
        inspection(seed, keys0, verdicts0, path, query, keys1, verdicts1, r),
    ensures
        verdict_ok(path, query, r.0),
{
    let hash = choose|hash: u64|
        the_hash(seed, request_writes(path, query), hash) && #[trigger] inspect_outcome(
            keys0,
            verdicts0,
            hash,
            path,
            query,
            keys1,
            verdicts1,
            r,
        );
    assert(keys0[cache_slot(hash)] == None::<u64>);
}

/// On an inspector whose cache is empty, a request whose query holds a
/// delimiter and, anywhere in its whole raw bytes, a listed keyword is
/// judged a threat.
pub proof fn law_query_keyword_blocked(
    seed: RandomState,
    keys0: Seq<Option<u64>>,
    verdicts0: Seq<ThreatFlags>,
    path: &str,
    q: &str,
    keys1: Seq<Option<u64>>,
    verdicts1: Seq<ThreatFlags>,
    r: ThreatFlags,
    i: int,
    k: int,
    end: int,
)
    requires
        cache_wf(keys0, verdicts0),
        forall|j: int| 0 <= j < keys0.len() ==> #[trigger] keys0[j] == None::<u64>,
        inspection(seed, keys0, verdicts0, path.spec_bytes(), query_bytes(Some(q)), keys1, verdicts1, r),
        0 <= i < q.spec_bytes().len(),
        delimiter_bytes().contains(q.spec_bytes()[i]),
        0 <= k < 40,
        occurs_ending_at(q.spec_bytes(), listed_keywords()[k], end),
    ensures
        r.0 != 0,
{
    let qb = q.spec_bytes();
    law_fresh_inspection_is_computed(
        seed,
        keys0,
        verdicts0,
        path.spec_bytes(),
        Some(qb),
        keys1,
        verdicts1,
        r,
    );
    law_risky_iff_listed_delimiter(qb);
    law_keyword_table();
    assert(waf_pattern_bytes()[k] == listed_keywords()[k]);
    assert(occurs_ending_at(qb, waf_pattern_bytes()[k], end));
    assert(has_keyword(qb));
    law_keyword_is_detected(path.spec_bytes(), Some(qb), r.0);
}

} // verus!
