use vstd::prelude::*;
use crate::automaton::{has_keyword, occurs_ending_at, scan_outcome, first_keyword_at};
use crate::decode::{lemma_decode_without_escapes, no_escapes, percent_decode};
use crate::endings::lemma_scan_outcome_unique;
use crate::flags::{threat_name, ThreatFlags};
use crate::inspector::{
    cache_slot, cache_wf, inspect_outcome, lemma_scan_outcome_categories, lemma_union_categories,
    hashes_to, inspection, lemma_union_only_categories, only_categories, part_outcome,
    query_is_risky, request_writes, the_hash, verdict_ok,
};
use ahash::RandomState;
use crate::patterns::{waf_categories, waf_category, waf_pattern_bytes};
use crate::scan::spec_has_risky;

verus! {

/// Keyword `k` of the table occurs somewhere in `hay`.
pub open spec fn keyword_occurs(hay: Seq<u8>, k: int) -> bool {
    exists|e: int| #[trigger] occurs_ending_at(hay, waf_pattern_bytes()[k], e)
}

/// `bits` is a single keyword category.
pub open spec fn is_category(bits: u32) -> bool {
    bits == 1 || bits == 2 || bits == 4 || bits == 8 || bits == 16
}

/// A request whose path and query hold no injection delimiter is judged
/// clean on a cache miss.
pub proof fn law_clean_without_delimiters(path: Seq<u8>, query: Option<Seq<u8>>, v: u32)
    requires
        verdict_ok(path, query, v),
        !spec_has_risky(path),
        !query_is_risky(query),
    ensures
        v == 0,
{
}

/// A computed verdict only ever holds the five keyword categories (never
/// the protocol-violation bit nor an unused bit).
pub proof fn law_verdict_within_categories(path: Seq<u8>, query: Option<Seq<u8>>, v: u32)
    requires
        verdict_ok(path, query, v),
    ensures
        only_categories(v),
{
    assert(0u32 & 0x1f == 0u32) by (bit_vector);
    if spec_has_risky(path) || query_is_risky(query) {
        let (fp, fq) = choose|fp: u32, fq: u32|
            #![trigger part_outcome(path, fp), fp | fq]
            part_outcome(path, fp) && match query {
                Some(q) => part_outcome(q, fq),
                None => fq == 0,
            } && v == fp | fq;
        lemma_part_categories(path, fp);
        if let Some(q) = query {
            lemma_part_categories(q, fq);
        }
        lemma_union_only_categories(fp, fq);
    }
}

/// A category flagged in a computed verdict is backed by evidence: some
/// keyword of that category occurs in the path or in the query, raw or
/// percent-decoded.
pub proof fn law_flag_has_evidence(path: Seq<u8>, query: Option<Seq<u8>>, v: u32, category: u32)
    requires
        verdict_ok(path, query, v),
        is_category(category),
        v & category != 0,
    ensures
        exists|k: int|
            0 <= k < waf_pattern_bytes().len() && waf_category(k) == category && (keyword_in_part(
                path,
                k,
            ) || (query matches Some(q) && keyword_in_part(q, k))),
{
    if !spec_has_risky(path) && !query_is_risky(query) {
        assert(0u32 & category == 0u32) by (bit_vector);
    } else {
        let (fp, fq) = choose|fp: u32, fq: u32|
            #![trigger part_outcome(path, fp), fp | fq]
            part_outcome(path, fp) && match query {
                Some(q) => part_outcome(q, fq),
                None => fq == 0,
            } && v == fp | fq;
        lemma_or_hit(fp, fq, category);
        if fp & category != 0 {
            lemma_part_evidence(path, fp, category);
        } else {
            assert(0u32 & category == 0u32) by (bit_vector);
            lemma_part_evidence(query.unwrap(), fq, category);
        }
    }
}

/// A request that reaches the keyword scan (it holds a delimiter) and whose
/// path or query holds a keyword, raw or percent-decoded, is judged a
/// threat.
pub proof fn law_keyword_is_detected(path: Seq<u8>, query: Option<Seq<u8>>, v: u32)
    requires
        verdict_ok(path, query, v),
        spec_has_risky(path) || query_is_risky(query),
        has_keyword(path) || has_keyword(percent_decode(path)) || (query matches Some(q) && (
        has_keyword(q) || has_keyword(percent_decode(q)))),
    ensures
        v != 0,
{
    let (fp, fq) = choose|fp: u32, fq: u32|
        #![trigger part_outcome(path, fp), fp | fq]
        part_outcome(path, fp) && match query {
            Some(q) => part_outcome(q, fq),
            None => fq == 0,
        } && v == fp | fq;
    if has_keyword(path) || has_keyword(percent_decode(path)) {
        lemma_part_detects(path, fp);
    } else {
        lemma_part_detects(query.unwrap(), fq);
    }
    assert((fp != 0 || fq != 0) ==> fp | fq != 0) by (bit_vector);
}

/// The verdict computed on a cache miss is a function of the request's
/// path and query: any two verdicts that `verdict_ok` admits for the same
/// request are equal, whatever inspector computes them.
pub proof fn law_verdict_is_unique(path: Seq<u8>, query: Option<Seq<u8>>, v1: u32, v2: u32)
    requires
        verdict_ok(path, query, v1),
        verdict_ok(path, query, v2),
    ensures
        v1 == v2,
{
    if spec_has_risky(path) || query_is_risky(query) {
        let (fp1, fq1) = choose|fp: u32, fq: u32|
            #![trigger part_outcome(path, fp), fp | fq]
            part_outcome(path, fp) && match query {
                Some(q) => part_outcome(q, fq),
                None => fq == 0,
            } && v1 == fp | fq;
        let (fp2, fq2) = choose|fp: u32, fq: u32|
            #![trigger part_outcome(path, fp), fp | fq]
            part_outcome(path, fp) && match query {
                Some(q) => part_outcome(q, fq),
                None => fq == 0,
            } && v2 == fp | fq;
        lemma_part_unique(path, fp1, fp2);
        if let Some(q) = query {
            lemma_part_unique(q, fq1, fq2);
        }
    }
}

/// The verdict the keyword scan of raw bytes alone gives a request on a
/// cache miss: clean without delimiters, otherwise the union of the scans
/// of the raw path and the raw query.
pub open spec fn raw_verdict_ok(path: Seq<u8>, query: Option<Seq<u8>>, v: u32) -> bool {
    if !spec_has_risky(path) && !query_is_risky(query) {
        v == 0
    } else {
        exists|fp: u32, fq: u32|
            #![trigger scan_outcome(path, fp), fp | fq]
            scan_outcome(path, fp) && match query {
                Some(q) => scan_outcome(q, fq),
                None => fq == 0,
            } && v == fp | fq
    }
}

/// On a request with no `%` anywhere, decoding changes nothing and the
/// verdict is exactly that of the raw scan.
pub proof fn law_no_escapes_raw_verdict(path: Seq<u8>, query: Option<Seq<u8>>, v: u32)
    requires
        verdict_ok(path, query, v),
        no_escapes(path),
        query matches Some(q) ==> no_escapes(q),
    ensures
        raw_verdict_ok(path, query, v),
{
    if spec_has_risky(path) || query_is_risky(query) {
        let (fp, fq) = choose|fp: u32, fq: u32|
            #![trigger part_outcome(path, fp), fp | fq]
            part_outcome(path, fp) && match query {
                Some(q) => part_outcome(q, fq),
                None => fq == 0,
            } && v == fp | fq;
        lemma_part_without_escapes(path, fp);
        if let Some(q) = query {
            lemma_part_without_escapes(q, fq);
        }
        assert(scan_outcome(path, fp) && v == fp | fq);
    }
}

/// Keyword `k` occurs in a part of a request, raw or percent-decoded.
pub open spec fn keyword_in_part(part: Seq<u8>, k: int) -> bool {
    keyword_occurs(part, k) || keyword_occurs(percent_decode(part), k)
}

proof fn lemma_part_categories(part: Seq<u8>, f: u32)
    requires
        part_outcome(part, f),
    ensures
        only_categories(f),
{
    let (fr, fd) = choose|fr: u32, fd: u32|
        #![trigger scan_outcome(part, fr), scan_outcome(percent_decode(part), fd)]
        scan_outcome(part, fr) && scan_outcome(percent_decode(part), fd) && f == fr | fd;
    lemma_scan_outcome_categories(part, fr);
    lemma_scan_outcome_categories(percent_decode(part), fd);
    lemma_union_categories(fr, fd);
}

proof fn lemma_part_unique(part: Seq<u8>, f1: u32, f2: u32)
    requires
        part_outcome(part, f1),
        part_outcome(part, f2),
    ensures
        f1 == f2,
{
    let (fr1, fd1) = choose|fr: u32, fd: u32|
        #![trigger scan_outcome(part, fr), scan_outcome(percent_decode(part), fd)]
        scan_outcome(part, fr) && scan_outcome(percent_decode(part), fd) && f1 == fr | fd;
    let (fr2, fd2) = choose|fr: u32, fd: u32|
        #![trigger scan_outcome(part, fr), scan_outcome(percent_decode(part), fd)]
        scan_outcome(part, fr) && scan_outcome(percent_decode(part), fd) && f2 == fr | fd;
    lemma_scan_outcome_unique(part, fr1, fr2);
    lemma_scan_outcome_unique(percent_decode(part), fd1, fd2);
}

proof fn lemma_scan_evidence(hay: Seq<u8>, f: u32, c: u32)
    requires
        scan_outcome(hay, f),
        is_category(c),
        f & c != 0,
    ensures
        exists|k: int|
            0 <= k < waf_pattern_bytes().len() && waf_category(k) == c && keyword_occurs(hay, k),
{
    lemma_scan_outcome_categories(hay, f);
    lemma_single_category_hit(f, c);
    if f == 0 {
        assert(0u32 & c == 0u32) by (bit_vector);
    } else {
        let (k, e) = choose|k: int, e: int| #[trigger] first_keyword_at(hay, k, e) && f == waf_categories()[k];
        assert(keyword_occurs(hay, k));
    }
}

proof fn lemma_part_evidence(part: Seq<u8>, f: u32, c: u32)
    requires
        part_outcome(part, f),
        is_category(c),
        f & c != 0,
    ensures
        exists|k: int|
            0 <= k < waf_pattern_bytes().len() && waf_category(k) == c && keyword_in_part(part, k),
{
    let (fr, fd) = choose|fr: u32, fd: u32|
        #![trigger scan_outcome(part, fr), scan_outcome(percent_decode(part), fd)]
        scan_outcome(part, fr) && scan_outcome(percent_decode(part), fd) && f == fr | fd;
    lemma_or_hit(fr, fd, c);
    if fr & c != 0 {
        lemma_scan_evidence(part, fr, c);
        let k = choose|k: int|
            0 <= k < waf_pattern_bytes().len() && waf_category(k) == c && keyword_occurs(part, k);
        assert(keyword_in_part(part, k));
    } else {
        lemma_scan_evidence(percent_decode(part), fd, c);
        let k = choose|k: int|
            0 <= k < waf_pattern_bytes().len() && waf_category(k) == c && keyword_occurs(
                percent_decode(part),
                k,
            );
        assert(keyword_in_part(part, k));
    }
}

proof fn lemma_part_detects(part: Seq<u8>, f: u32)
    requires
        part_outcome(part, f),
        has_keyword(part) || has_keyword(percent_decode(part)),
    ensures
        f != 0,
{
    let (fr, fd) = choose|fr: u32, fd: u32|
        #![trigger scan_outcome(part, fr), scan_outcome(percent_decode(part), fd)]
        scan_outcome(part, fr) && scan_outcome(percent_decode(part), fd) && f == fr | fd;
    lemma_scan_outcome_categories(part, fr);
    lemma_scan_outcome_categories(percent_decode(part), fd);
    if has_keyword(part) {
        assert(fr != 0);
    } else {
        assert(fd != 0);
    }
    assert((fr != 0 || fd != 0) ==> fr | fd != 0) by (bit_vector);
}

proof fn lemma_part_without_escapes(part: Seq<u8>, f: u32)
    requires
        part_outcome(part, f),
        no_escapes(part),
    ensures
        scan_outcome(part, f),
{
    lemma_decode_without_escapes(part);
    let (fr, fd) = choose|fr: u32, fd: u32|
        #![trigger scan_outcome(part, fr), scan_outcome(percent_decode(part), fd)]
        scan_outcome(part, fr) && scan_outcome(percent_decode(part), fd) && f == fr | fd;
    lemma_scan_outcome_unique(part, fr, fd);
    assert(fr | fr == fr) by (bit_vector);
}

/// A flag bit met by a union was met by one of its sides.
proof fn lemma_or_hit(a: u32, b: u32, c: u32)
    requires
        (a | b) & c != 0,
    ensures
        a & c != 0 || b & c != 0,
{
    assert((a | b) & c != 0 ==> (a & c != 0 || b & c != 0)) by (bit_vector);
}

/// A single scan result meets a category only by being that category.
proof fn lemma_single_category_hit(a: u32, c: u32)
    requires
        a == 0 || a == 1 || a == 2 || a == 4 || a == 8 || a == 16,
        c == 1 || c == 2 || c == 4 || c == 8 || c == 16,
    ensures
        a & c != 0 ==> a == c,
{
    assert(((a == 0 || a == 1 || a == 2 || a == 4 || a == 8 || a == 16) && (c == 1 || c == 2
        || c == 4 || c == 8 || c == 16)) ==> (a & c != 0 ==> a == c)) by (bit_vector);
}

/// An empty cache slot never answers: a request whose slot is empty is
/// inspected in full. On a fresh inspector every slot is empty, so the
/// first inspection of every request computes its verdict.
pub proof fn law_empty_slot_misses(
    keys0: Seq<Option<u64>>,
    verdicts0: Seq<ThreatFlags>,
    hash: u64,
    path: Seq<u8>,
    query: Option<Seq<u8>>,
    keys1: Seq<Option<u64>>,
    verdicts1: Seq<ThreatFlags>,
    r: ThreatFlags,
)
    requires
        cache_wf(keys0, verdicts0),
        keys0[cache_slot(hash)] == None::<u64>,
        inspect_outcome(keys0, verdicts0, hash, path, query, keys1, verdicts1, r),
    ensures
        verdict_ok(path, query, r.0),
        keys1[cache_slot(hash)] == Some(hash),
{
}

/// Every inspection keeps the cache well formed.
pub proof fn law_inspection_keeps_cache_wf(
    keys0: Seq<Option<u64>>,
    verdicts0: Seq<ThreatFlags>,
    hash: u64,
    path: Seq<u8>,
    query: Option<Seq<u8>>,
    keys1: Seq<Option<u64>>,
    verdicts1: Seq<ThreatFlags>,
    r: ThreatFlags,
)
    requires
        cache_wf(keys0, verdicts0),
        inspect_outcome(keys0, verdicts0, hash, path, query, keys1, verdicts1, r),
    ensures
        cache_wf(keys1, verdicts1),
        only_categories(r.0),
{
    let slot = cache_slot(hash);
    if keys0[slot] != Some(hash) {
        law_verdict_within_categories(path, query, r.0);
        assert(ThreatFlags(r.0) == r);
    }
}

/// Two inspections in a row of requests with the same hash: the second is
/// answered from the cache with the first one's verdict and changes
/// nothing.
pub proof fn law_repeat_hits_cache(
    keys0: Seq<Option<u64>>,
    verdicts0: Seq<ThreatFlags>,
    hash: u64,
    path1: Seq<u8>,
    query1: Option<Seq<u8>>,
    keys1: Seq<Option<u64>>,
    verdicts1: Seq<ThreatFlags>,
    r1: ThreatFlags,
    path2: Seq<u8>,
    query2: Option<Seq<u8>>,
    keys2: Seq<Option<u64>>,
    verdicts2: Seq<ThreatFlags>,
    r2: ThreatFlags,
)
    requires
        cache_wf(keys0, verdicts0),
        inspect_outcome(keys0, verdicts0, hash, path1, query1, keys1, verdicts1, r1),
        inspect_outcome(keys1, verdicts1, hash, path2, query2, keys2, verdicts2, r2),
    ensures
        r2 == r1,
        keys2 == keys1,
        verdicts2 == verdicts1,
{
}

/// The same request inspected twice in a row by one inspector (same
/// hasher builder) gets the same hash, so the second inspection is answered
/// from the cache with the first one's verdict and changes nothing.
pub proof fn law_repeated_request_answered_from_cache(
    seed: RandomState,
    keys0: Seq<Option<u64>>,
    verdicts0: Seq<ThreatFlags>,
    path: Seq<u8>,
    query: Option<Seq<u8>>,
    keys1: Seq<Option<u64>>,
    verdicts1: Seq<ThreatFlags>,
    r1: ThreatFlags,
    keys2: Seq<Option<u64>>,
    verdicts2: Seq<ThreatFlags>,
    r2: ThreatFlags,
)
    requires
        cache_wf(keys0, verdicts0),
        inspection(seed, keys0, verdicts0, path, query, keys1, verdicts1, r1),
        inspection(seed, keys1, verdicts1, path, query, keys2, verdicts2, r2),
    ensures
        r2 == r1,
        keys2 == keys1,
        verdicts2 == verdicts1,
{
    let w = request_writes(path, query);
    let h1 = choose|hash: u64|
        the_hash(seed, w, hash) && #[trigger] inspect_outcome(
            keys0,
            verdicts0,
            hash,
            path,
            query,
            keys1,
            verdicts1,
            r1,
        );
    let h2 = choose|hash: u64|
        the_hash(seed, w, hash) && #[trigger] inspect_outcome(
            keys1,
            verdicts1,
            hash,
            path,
            query,
            keys2,
            verdicts2,
            r2,
        );
    assert(hashes_to(seed, w, h2));
    assert(h2 == h1);
    law_repeat_hits_cache(
        keys0,
        verdicts0,
        h1,
        path,
        query,
        keys1,
        verdicts1,
        r1,
        path,
        query,
        keys2,
        verdicts2,
        r2,
    );
}

/// The name of a flag word is "Clean" exactly when none of the six known
/// category bits is set.
pub proof fn law_name_clean_iff_no_category(bits: u32)
    ensures
        (threat_name(bits) == "Clean"@) <==> (bits & 0x3f == 0),
{
    reveal_strlit("Clean");
    reveal_strlit("SQL Injection");
    reveal_strlit("Cross-Site Scripting (XSS)");
    reveal_strlit("Remote Code Execution (RCE)");
    reveal_strlit("Path Traversal (LFI/RFI)");
    reveal_strlit("LLM Prompt Injection");
    reveal_strlit("Protocol Violation");
    assert((bits & 0x3f == 0) <==> (bits & 1 == 0 && bits & 2 == 0 && bits & 4 == 0 && bits & 8
        == 0 && bits & 16 == 0 && bits & 32 == 0)) by (bit_vector);
    assert("Clean"@.len() == 5);
    if bits & 0x3f != 0 {
        assert(threat_name(bits).len() != 5);
    }
}

/// A flag word that holds only keyword categories and is a threat has a
/// category name, not "Clean": a blocked request always names its category.
pub proof fn law_threat_verdict_is_named(bits: u32)
    requires
        only_categories(bits),
        bits != 0,
    ensures
        threat_name(bits) != "Clean"@,
{
    law_name_clean_iff_no_category(bits);
    assert((bits & 0x1f == bits && bits != 0) ==> bits & 0x3f != 0) by (bit_vector);
}

} // verus!
