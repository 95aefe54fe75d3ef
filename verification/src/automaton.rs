use vstd::prelude::*;
use aho_corasick::{AhoCorasick, BuildError};
use vstd::string::StringSliceAdditionalSpecFns;
use crate::flags::ThreatFlags;
use crate::patterns::{waf_categories, waf_keywords, waf_pattern_bytes, waf_patterns};

verus! {

#[verifier::external_type_specification]
#[verifier::external_body]
pub struct ExAhoCorasick(AhoCorasick);

#[verifier::external_type_specification]
#[verifier::external_body]
pub struct ExBuildError(BuildError);

/// The patterns an automaton was built from, as byte strings, in pattern-id
/// order.
pub uninterp spec fn automaton_patterns(ac: AhoCorasick) -> Seq<Seq<u8>>;

/// The automaton was built with ASCII case-insensitive matching, with the
/// builder's default standard match semantics and its default unanchored
/// start kind.
pub uninterp spec fn automaton_folds_case(ac: AhoCorasick) -> bool;

/// ASCII case folding: `A`..`Z` map to `a`..`z`, every other byte to itself.
pub open spec fn ascii_fold(b: u8) -> u8 {
    if 0x41 <= b <= 0x5a {
        (b + 0x20) as u8
    } else {
        b
    }
}

/// `window` equals `pat` up to ASCII case.
pub open spec fn bytes_match_folded(window: Seq<u8>, pat: Seq<u8>) -> bool {
    &&& window.len() == pat.len()
    &&& forall|i: int| 0 <= i < pat.len() ==> ascii_fold(#[trigger] window[i]) == ascii_fold(pat[i])
}

/// `pat` occurs in `hay` (up to ASCII case) as the bytes ending just before
/// index `end`.
pub open spec fn occurs_ending_at(hay: Seq<u8>, pat: Seq<u8>, end: int) -> bool {
    &&& pat.len() <= end <= hay.len()
    &&& bytes_match_folded(hay.subrange(end - pat.len(), end), pat)
}

/// No pattern of `pats` occurs in `hay` ending before index `end`.
pub open spec fn no_match_ends_before(hay: Seq<u8>, pats: Seq<Seq<u8>>, end: int) -> bool {
    forall|q: int, e: int|
        0 <= q < pats.len() && e < end ==> !#[trigger] occurs_ending_at(hay, pats[q], e)
}

/// A possible result of a standard non-overlapping search: the pattern id
/// and span of a match whose end comes first among all matches, or nothing
/// when no pattern occurs.
pub open spec fn first_match(
    hay: Seq<u8>,
    pats: Seq<Seq<u8>>,
    found: Option<(usize, usize, usize)>,
) -> bool {
    match found {
        Some((pid, start, end)) => {
            &&& pid < pats.len()
            &&& start + pats[pid as int].len() == end
            &&& occurs_ending_at(hay, pats[pid as int], end as int)
            &&& no_match_ends_before(hay, pats, end as int)
        },
        None => no_match_ends_before(hay, pats, hay.len() + 1int),
    }
}

/// Calls `AhoCorasickBuilder::ascii_case_insensitive(true)` and
/// `AhoCorasickBuilder::build` with the given patterns.
/// Claimed: a built automaton holds the patterns' bytes in order and the
/// case-folding configuration; the build succeeds for at most 100 patterns
/// of at most 256 characters each. (In aho-corasick 1.1 `build` fails only
/// when a pattern id, a pattern length or a state, transition or match
/// index of the non-contiguous NFA exceeds `StateID`/`PatternID` limits of
/// about 2^31; that many patterns bounds all of them far below.)
#[verifier::external_body]
fn build_automaton(patterns: &Vec<&'static str>) -> (r: Result<AhoCorasick, BuildError>)
    ensures
        patterns@.len() <= 100 && (forall|i: int|
            0 <= i < patterns@.len() ==> (#[trigger] patterns@[i])@.len() <= 256) ==> r is Ok,
        r matches Ok(ac) ==> automaton_folds_case(ac) && automaton_patterns(ac)
            == patterns@.map_values(|p: &'static str| p.spec_bytes()),
{
    AhoCorasick::builder().ascii_case_insensitive(true).build(patterns)
}

/// Calls `AhoCorasick::find` on the bytes `hay` and returns the match's
/// pattern id, start and end. Claimed: the result is a first match in the
/// sense of `first_match` (standard semantics report the first match seen,
/// which is one that ends earliest); which of several patterns that end at
/// the same earliest position is reported is not stated.
#[verifier::external_body]
fn find_first(ac: &AhoCorasick, hay: &[u8]) -> (r: Option<(usize, usize, usize)>)
    requires
        automaton_folds_case(*ac),
    ensures
        first_match(hay@, automaton_patterns(*ac), r),
{
    match ac.find(hay) {
        Some(m) => Some((m.pattern().as_usize(), m.start(), m.end())),
        None => None,
    }
}

/// A keyword of the table, by index, occurs in `hay` ending at `end`, and no
/// keyword occurrence ends earlier.
pub open spec fn first_keyword_at(hay: Seq<u8>, k: int, end: int) -> bool {
    &&& 0 <= k < waf_pattern_bytes().len()
    &&& occurs_ending_at(hay, waf_pattern_bytes()[k], end)
    &&& no_match_ends_before(hay, waf_pattern_bytes(), end)
}

/// Some keyword of the table occurs in `hay`.
pub open spec fn has_keyword(hay: Seq<u8>) -> bool {
    exists|k: int, e: int|
        0 <= k < waf_pattern_bytes().len() && #[trigger] occurs_ending_at(hay, waf_pattern_bytes()[k], e)
}

/// `f` is what scanning `hay` may report: the category of a keyword whose
/// occurrence ends first, or 0 when no keyword occurs.
pub open spec fn scan_outcome(hay: Seq<u8>, f: u32) -> bool {
    ||| !has_keyword(hay) && f == 0
    ||| exists|k: int, e: int| #[trigger] first_keyword_at(hay, k, e) && f == waf_categories()[k]
}

/// The keyword automaton together with the category of each keyword.
pub struct KeywordScanner {
    automaton: AhoCorasick,
    categories: Vec<ThreatFlags>,
}

impl KeywordScanner {
    /// The scanner holds the keyword table.
    pub closed spec fn wf(&self) -> bool {
        &&& automaton_folds_case(self.automaton)
        &&& automaton_patterns(self.automaton) == waf_pattern_bytes()
        &&& self.categories@.len() == waf_categories().len()
        &&& forall|i: int|
            0 <= i < self.categories@.len() ==> (#[trigger] self.categories@[i]).0 == waf_categories()[i]
    }

    /// Builds the automaton over the keyword table.
    pub fn new() -> (r: KeywordScanner)
        ensures
            r.wf(),
    {
        let patterns = waf_patterns();
        let mut keys: Vec<&'static str> = Vec::new();
        let mut categories: Vec<ThreatFlags> = Vec::new();
        let n = patterns.len();
        let mut i: usize = 0;
        while i < n
            invariant
                n == patterns@.len(),
                n == waf_keywords().len(),
                0 <= i <= n,
                keys@.len() == i,
                categories@.len() == i,
                forall|j: int|
                    0 <= j < patterns@.len() ==> (#[trigger] patterns@[j]).0 == waf_keywords()[j]
                        && patterns@[j].1.0 == waf_categories()[j],
                forall|j: int| 0 <= j < i ==> #[trigger] keys@[j] == waf_keywords()[j],
                forall|j: int| 0 <= j < i ==> (#[trigger] categories@[j]).0 == waf_categories()[j],
            decreases n - i,
        {
            keys.push(patterns[i].0);
            categories.push(patterns[i].1);
            i = i + 1;
        }
        proof {
            reveal_strlit("union select");
            reveal_strlit("union all select");
            reveal_strlit("select from");
            reveal_strlit("insert into");
            reveal_strlit("drop table");
            reveal_strlit("or 1=1");
            reveal_strlit("and 1=1");
            reveal_strlit("'--");
            reveal_strlit("' --");
            reveal_strlit("admin' --");
            reveal_strlit("' or '");
            reveal_strlit("/*");
            reveal_strlit("sleep(");
            reveal_strlit("waitfor delay");
            reveal_strlit("<script");
            reveal_strlit("javascript:");
            reveal_strlit("onerror=");
            reveal_strlit("onload=");
            reveal_strlit("alert(");
            reveal_strlit("eval(");
            reveal_strlit("document.cookie");
            reveal_strlit("<iframe");
            reveal_strlit("../..");
            reveal_strlit("..\\..");
            reveal_strlit("/etc/passwd");
            reveal_strlit("/etc/shadow");
            reveal_strlit("boot.ini");
            reveal_strlit("proc/self/environ");
            reveal_strlit("/bin/bash");
            reveal_strlit("/bin/sh");
            reveal_strlit("powershell");
            reveal_strlit("cmd.exe");
            reveal_strlit("curl ");
            reveal_strlit("wget ");
            reveal_strlit("nc -e");
            reveal_strlit("ignore previous instructions");
            reveal_strlit("system prompt");
            reveal_strlit("{{7*7}}");
            reveal_strlit("${7*7}");
            reveal_strlit("#{7*7}");
            assert(keys@ == waf_keywords());
            assert forall|j: int| 0 <= j < keys@.len() implies (#[trigger] keys@[j])@.len() <= 256 by {
            }
        }
        match build_automaton(&keys) {
            Ok(automaton) => {
                assert(automaton_patterns(automaton) == waf_pattern_bytes());
                KeywordScanner { automaton, categories }
            },
            Err(_) => vstd::pervasive::unreached(),
        }
    }

    /// The category of the first keyword found in `hay`, or the clean flag
    /// word when none occurs.
    pub fn scan(&self, hay: &[u8]) -> (r: ThreatFlags)
        requires
            self.wf(),
        ensures
            scan_outcome(hay@, r.0),
    {
        match find_first(&self.automaton, hay) {
            Some((pid, _start, end)) => {
                assert(first_keyword_at(hay@, pid as int, end as int));
                self.categories[pid]
            },
            None => {
                assert(!has_keyword(hay@));
                ThreatFlags(0)
            },
        }
    }
}

} // verus!
