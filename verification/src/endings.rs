use vstd::prelude::*;
use vstd::string::{is_ascii_spec_bytes, StringSliceAdditionalSpecFns};
use crate::automaton::{
    ascii_fold, first_keyword_at, has_keyword, occurs_ending_at, scan_outcome,
};
use crate::patterns::{waf_categories, waf_category, waf_keywords, waf_pattern_bytes};

verus! {

/// The category that the last three case-folded bytes of a keyword
/// occurrence decide: `a` is the last byte, `b` the one before, `c` the one
/// before that. No two keywords of different categories agree on the bytes
/// this reads, so keywords that end at the same place share a category.
pub open spec fn ending_class(a: u8, b: u8, c: u8) -> u32 {
    if a == 0x20 {
        4
    } else if a == 0x27 || a == 0x2a || a == 0x2d || a == 0x31 || a == 0x6d || a == 0x6f || a == 0x79 {
        1
    } else if a == 0x28 {
        if b == 0x70 { 1 } else { 2 }
    } else if a == 0x2e || a == 0x64 || a == 0x69 || a == 0x6e || a == 0x77 {
        8
    } else if a == 0x3a || a == 0x3d {
        2
    } else if a == 0x65 {
        if b == 0x6c {
            1
        } else if b == 0x78 || b == 0x2d {
            4
        } else {
            2
        }
    } else if a == 0x68 || a == 0x6c {
        4
    } else if a == 0x73 || a == 0x7d {
        16
    } else if a == 0x74 {
        if b == 0x63 {
            1
        } else if c == 0x69 {
            2
        } else {
            16
        }
    } else {
        0
    }
}

/// The class of the bytes of `hay` that end just before index `end`.
pub open spec fn end_class(hay: Seq<u8>, end: int) -> u32 {
    ending_class(ascii_fold(hay[end - 1]), ascii_fold(hay[end - 2]), ascii_fold(hay[end - 3]))
}

/// The class of a keyword's own last bytes.
pub open spec fn pattern_class(p: Seq<u8>) -> u32 {
    end_class(p, p.len() as int)
}

/// The class reads only bytes that the keyword has: it is at least three
/// bytes long, or ends in `*`, whose class reads nothing more.
pub open spec fn class_in_reach(p: Seq<u8>) -> bool {
    p.len() >= 3 || (p.len() >= 1 && ascii_fold(p[p.len() - 1]) == 0x2a)
}

/// Where a keyword occurs, the bytes of the haystack before the end have
/// the keyword's class.
pub proof fn lemma_occurrence_class(hay: Seq<u8>, p: Seq<u8>, end: int)
    requires
        occurs_ending_at(hay, p, end),
        class_in_reach(p),
    ensures
        end_class(hay, end) == pattern_class(p),
{
    let n = p.len() as int;
    let w = hay.subrange(end - n, end);
    assert(w[n - 1] == hay[end - 1]);
    assert(ascii_fold(w[n - 1]) == ascii_fold(p[n - 1]));
    if n >= 3 {
        assert(w[n - 2] == hay[end - 2]);
        assert(ascii_fold(w[n - 2]) == ascii_fold(p[n - 2]));
        assert(w[n - 3] == hay[end - 3]);
        assert(ascii_fold(w[n - 3]) == ascii_fold(p[n - 3]));
    }
}

/// Each keyword's class is its category, and its class is in reach.
pub proof fn lemma_keyword_class(k: int)
    requires
        0 <= k < waf_pattern_bytes().len(),
    ensures
        class_in_reach(waf_pattern_bytes()[k]),
        pattern_class(waf_pattern_bytes()[k]) == waf_category(k),
{
    if k == 0 {
        reveal_strlit("union select");
        is_ascii_spec_bytes("union select");
        assert(waf_keywords()[k] == "union select");
    } else if k == 1 {
        reveal_strlit("union all select");
        is_ascii_spec_bytes("union all select");
        assert(waf_keywords()[k] == "union all select");
    } else if k == 2 {
        reveal_strlit("select from");
        is_ascii_spec_bytes("select from");
        assert(waf_keywords()[k] == "select from");
    } else if k == 3 {
        reveal_strlit("insert into");
        is_ascii_spec_bytes("insert into");
        assert(waf_keywords()[k] == "insert into");
    } else if k == 4 {
        reveal_strlit("drop table");
        is_ascii_spec_bytes("drop table");
        assert(waf_keywords()[k] == "drop table");
    } else if k == 5 {
        reveal_strlit("or 1=1");
        is_ascii_spec_bytes("or 1=1");
        assert(waf_keywords()[k] == "or 1=1");
    } else if k == 6 {
        reveal_strlit("and 1=1");
        is_ascii_spec_bytes("and 1=1");
        assert(waf_keywords()[k] == "and 1=1");
    } else if k == 7 {
        reveal_strlit("'--");
        is_ascii_spec_bytes("'--");
        assert(waf_keywords()[k] == "'--");
    } else if k == 8 {
        reveal_strlit("' --");
        is_ascii_spec_bytes("' --");
        assert(waf_keywords()[k] == "' --");
    } else if k == 9 {
        reveal_strlit("admin' --");
        is_ascii_spec_bytes("admin' --");
        assert(waf_keywords()[k] == "admin' --");
    } else if k == 10 {
        reveal_strlit("' or '");
        is_ascii_spec_bytes("' or '");
        assert(waf_keywords()[k] == "' or '");
    } else if k == 11 {
        reveal_strlit("/*");
        is_ascii_spec_bytes("/*");
        assert(waf_keywords()[k] == "/*");
    } else if k == 12 {
        reveal_strlit("sleep(");
        is_ascii_spec_bytes("sleep(");
        assert(waf_keywords()[k] == "sleep(");
    } else if k == 13 {
        reveal_strlit("waitfor delay");
        is_ascii_spec_bytes("waitfor delay");
        assert(waf_keywords()[k] == "waitfor delay");
    } else if k == 14 {
        reveal_strlit("<script");
        is_ascii_spec_bytes("<script");
        assert(waf_keywords()[k] == "<script");
    } else if k == 15 {
        reveal_strlit("javascript:");
        is_ascii_spec_bytes("javascript:");
        assert(waf_keywords()[k] == "javascript:");
    } else if k == 16 {
        reveal_strlit("onerror=");
        is_ascii_spec_bytes("onerror=");
        assert(waf_keywords()[k] == "onerror=");
    } else if k == 17 {
        reveal_strlit("onload=");
        is_ascii_spec_bytes("onload=");
        assert(waf_keywords()[k] == "onload=");
    } else if k == 18 {
        reveal_strlit("alert(");
        is_ascii_spec_bytes("alert(");
        assert(waf_keywords()[k] == "alert(");
    } else if k == 19 {
        reveal_strlit("eval(");
        is_ascii_spec_bytes("eval(");
        assert(waf_keywords()[k] == "eval(");
    } else if k == 20 {
        reveal_strlit("document.cookie");
        is_ascii_spec_bytes("document.cookie");
        assert(waf_keywords()[k] == "document.cookie");
    } else if k == 21 {
        reveal_strlit("<iframe");
        is_ascii_spec_bytes("<iframe");
        assert(waf_keywords()[k] == "<iframe");
    } else if k == 22 {
        reveal_strlit("../..");
        is_ascii_spec_bytes("../..");
        assert(waf_keywords()[k] == "../..");
    } else if k == 23 {
        reveal_strlit("..\\..");
        is_ascii_spec_bytes("..\\..");
        assert(waf_keywords()[k] == "..\\..");
    } else if k == 24 {
        reveal_strlit("/etc/passwd");
        is_ascii_spec_bytes("/etc/passwd");
        assert(waf_keywords()[k] == "/etc/passwd");
    } else if k == 25 {
        reveal_strlit("/etc/shadow");
        is_ascii_spec_bytes("/etc/shadow");
        assert(waf_keywords()[k] == "/etc/shadow");
    } else if k == 26 {
        reveal_strlit("boot.ini");
        is_ascii_spec_bytes("boot.ini");
        assert(waf_keywords()[k] == "boot.ini");
    } else if k == 27 {
        reveal_strlit("proc/self/environ");
        is_ascii_spec_bytes("proc/self/environ");
        assert(waf_keywords()[k] == "proc/self/environ");
    } else if k == 28 {
        reveal_strlit("/bin/bash");
        is_ascii_spec_bytes("/bin/bash");
        assert(waf_keywords()[k] == "/bin/bash");
    } else if k == 29 {
        reveal_strlit("/bin/sh");
        is_ascii_spec_bytes("/bin/sh");
        assert(waf_keywords()[k] == "/bin/sh");
    } else if k == 30 {
        reveal_strlit("powershell");
        is_ascii_spec_bytes("powershell");
        assert(waf_keywords()[k] == "powershell");
    } else if k == 31 {
        reveal_strlit("cmd.exe");
        is_ascii_spec_bytes("cmd.exe");
        assert(waf_keywords()[k] == "cmd.exe");
    } else if k == 32 {
        reveal_strlit("curl ");
        is_ascii_spec_bytes("curl ");
        assert(waf_keywords()[k] == "curl ");
    } else if k == 33 {
        reveal_strlit("wget ");
        is_ascii_spec_bytes("wget ");
        assert(waf_keywords()[k] == "wget ");
    } else if k == 34 {
        reveal_strlit("nc -e");
        is_ascii_spec_bytes("nc -e");
        assert(waf_keywords()[k] == "nc -e");
    } else if k == 35 {
        reveal_strlit("ignore previous instructions");
        is_ascii_spec_bytes("ignore previous instructions");
        assert(waf_keywords()[k] == "ignore previous instructions");
    } else if k == 36 {
        reveal_strlit("system prompt");
        is_ascii_spec_bytes("system prompt");
        assert(waf_keywords()[k] == "system prompt");
    } else if k == 37 {
        reveal_strlit("{{7*7}}");
        is_ascii_spec_bytes("{{7*7}}");
        assert(waf_keywords()[k] == "{{7*7}}");
    } else if k == 38 {
        reveal_strlit("${7*7}");
        is_ascii_spec_bytes("${7*7}");
        assert(waf_keywords()[k] == "${7*7}");
    } else if k == 39 {
        reveal_strlit("#{7*7}");
        is_ascii_spec_bytes("#{7*7}");
        assert(waf_keywords()[k] == "#{7*7}");
    }
}

/// The keyword scan has one outcome: keywords that end first all share a
/// category.
pub proof fn lemma_scan_outcome_unique(hay: Seq<u8>, f1: u32, f2: u32)
    requires
        scan_outcome(hay, f1),
        scan_outcome(hay, f2),
    ensures
        f1 == f2,
{
    if has_keyword(hay) {
        let (k1, e1) = choose|k: int, e: int| #[trigger] first_keyword_at(hay, k, e) && f1 == waf_categories()[k];
        let (k2, e2) = choose|k: int, e: int| #[trigger] first_keyword_at(hay, k, e) && f2 == waf_categories()[k];
        if e1 < e2 {
            assert(!occurs_ending_at(hay, waf_pattern_bytes()[k1], e1));
        } else if e2 < e1 {
            assert(!occurs_ending_at(hay, waf_pattern_bytes()[k2], e2));
        }
        lemma_keyword_class(k1);
        lemma_keyword_class(k2);
        lemma_occurrence_class(hay, waf_pattern_bytes()[k1], e1);
        lemma_occurrence_class(hay, waf_pattern_bytes()[k2], e2);
    } else {
        if f1 != 0 {
            let (k, e) = choose|k: int, e: int| #[trigger] first_keyword_at(hay, k, e) && f1 == waf_categories()[k];
            assert(occurs_ending_at(hay, waf_pattern_bytes()[k], e));
        }
        if f2 != 0 {
            let (k, e) = choose|k: int, e: int| #[trigger] first_keyword_at(hay, k, e) && f2 == waf_categories()[k];
            assert(occurs_ending_at(hay, waf_pattern_bytes()[k], e));
        }
    }
}

} // verus!
