use vstd::prelude::*;
use ahash::{AHasher, RandomState};
use std::hash::{BuildHasher, Hasher};
use vstd::string::StringSliceAdditionalSpecFns;
use crate::automaton::{scan_outcome, KeywordScanner};
use crate::decode::{percent_decode, percent_decode_bytes};
use crate::flags::ThreatFlags;
use crate::scan::{has_risky_characters, spec_has_risky};

verus! {

#[verifier::external_type_specification]
#[verifier::external_body]
pub struct ExRandomState(RandomState);

#[verifier::external_type_specification]
#[verifier::external_body]
pub struct ExAHasher(AHasher);

/// Calls `ahash::RandomState::new`, which seeds the keys from the process's
/// random source. Nothing is claimed of the keys.
#[verifier::external_body]
fn new_random_state() -> (r: RandomState) {
    RandomState::new()
}

/// The byte strings written to a hasher since it was built, in order. This
/// is a model of the hasher's write history, not one of its fields: the
/// hasher keeps only a digest of what it was fed.
pub uninterp spec fn hasher_writes(hasher: AHasher) -> Seq<Seq<u8>>;

/// The builder whose keys a hasher was built with.
pub uninterp spec fn hasher_builder(hasher: AHasher) -> RandomState;

/// `hash` is a value that a hasher built from `builder` finishes with after
/// the writes `writes`. Nothing says which value, since it depends on the
/// builder's random keys; `hasher_finish` says that it is the only one.
pub uninterp spec fn hashes_to(builder: RandomState, writes: Seq<Seq<u8>>, hash: u64) -> bool;

/// Calls `<ahash::RandomState as BuildHasher>::build_hasher`. Claimed: the
/// hasher comes from `builder` and nothing has been written to it yet.
/// Nothing is claimed of its keys.
#[verifier::external_body]
fn build_hasher(builder: &RandomState) -> (r: AHasher)
    ensures
        hasher_builder(r) == *builder,
        hasher_writes(r) == Seq::<Seq<u8>>::empty(),
{
    builder.build_hasher()
}

/// Calls `<ahash::AHasher as Hasher>::write`. Claimed: the bytes are
/// recorded as the next write of the same hasher. Nothing is claimed of the
/// hasher's internal state.
#[verifier::external_body]
fn hasher_write(hasher: &mut AHasher, bytes: &[u8])
    ensures
        hasher_builder(*final(hasher)) == hasher_builder(*old(hasher)),
        hasher_writes(*final(hasher)) == hasher_writes(*old(hasher)).push(bytes@),
{
    hasher.write(bytes)
}

/// Calls `<ahash::AHasher as Hasher>::finish`. Claimed: the value is the
/// one that hashers from the hasher's builder give for the writes made so
/// far (ahash documents that hashers created from the same builder give the
/// same hashes for the same input data); which value is not claimed, since
/// it depends on the random keys.
#[verifier::external_body]
fn hasher_finish(hasher: &AHasher) -> (r: u64)
    ensures
        hashes_to(hasher_builder(*hasher), hasher_writes(*hasher), r),
        forall|h: u64|
            #[trigger] hashes_to(hasher_builder(*hasher), hasher_writes(*hasher), h) ==> h == r,
{
    hasher.finish()
}

/// `hash` is the hash that `builder` gives for `writes`: a value it gives,
/// and the only one.
pub open spec fn the_hash(builder: RandomState, writes: Seq<Seq<u8>>, hash: u64) -> bool {
    &&& hashes_to(builder, writes, hash)
    &&& forall|h: u64| #[trigger] hashes_to(builder, writes, h) ==> h == hash
}

/// What a request's hash is computed over: the path's bytes, then the
/// query's bytes when there is a query, as separate writes.
pub open spec fn request_writes(path: Seq<u8>, query: Option<Seq<u8>>) -> Seq<Seq<u8>> {
    match query {
        Some(q) => seq![path, q],
        None => seq![path],
    }
}

/// The number of slots of the direct-mapped verdict cache.
pub const CACHE_SIZE: usize = 1024;

/// The cache slot of a request hash.
pub open spec fn cache_slot(hash: u64) -> int {
    (hash % 1024) as int
}

/// Only the five keyword categories may be set in `bits`.
pub open spec fn only_categories(bits: u32) -> bool {
    bits & 0x1f == bits
}

/// The bytes of the query string, when there is one.
pub open spec fn query_bytes(query: Option<&str>) -> Option<Seq<u8>> {
    match query {
        Some(q) => Some(q.spec_bytes()),
        None => None,
    }
}

/// The query holds an injection delimiter (an absent query holds none).
pub open spec fn query_is_risky(query: Option<Seq<u8>>) -> bool {
    match query {
        Some(q) => spec_has_risky(q),
        None => false,
    }
}

/// `f` is what scanning one part of a request (its path or its query) may
/// report: the union of the scan of its raw bytes and the scan of its
/// percent-decoded bytes.
pub open spec fn part_outcome(part: Seq<u8>, f: u32) -> bool {
    exists|fr: u32, fd: u32|
        #![trigger scan_outcome(part, fr), scan_outcome(percent_decode(part), fd)]
        scan_outcome(part, fr) && scan_outcome(percent_decode(part), fd) && f == fr | fd
}

/// `v` is a verdict that inspection may give a request that misses the
/// cache: clean when neither the raw path nor the raw query holds a
/// delimiter, otherwise the union of what scanning the path and scanning
/// the query report, each scanned raw and percent-decoded.
pub open spec fn verdict_ok(path: Seq<u8>, query: Option<Seq<u8>>, v: u32) -> bool {
    if !spec_has_risky(path) && !query_is_risky(query) {
        v == 0
    } else {
        exists|fp: u32, fq: u32|
            #![trigger part_outcome(path, fp), fp | fq]
            part_outcome(path, fp) && match query {
                Some(q) => part_outcome(q, fq),
                None => fq == 0,
            } && v == fp | fq
    }
}

/// Scans one part of a request raw and percent-decoded and joins the two
/// results.
fn scan_part(scanner: &KeywordScanner, part: &[u8]) -> (r: ThreatFlags)
    requires
        scanner.wf(),
    ensures
        part_outcome(part@, r.0),
        only_categories(r.0),
{
    let raw = scanner.scan(part);
    let decoded = percent_decode_bytes(part);
    let dec = scanner.scan(decoded.as_slice());
    proof {
        lemma_scan_outcome_categories(part@, raw.0);
        lemma_scan_outcome_categories(percent_decode(part@), dec.0);
        lemma_union_categories(raw.0, dec.0);
    }
    ThreatFlags(raw.0 | dec.0)
}

/// The cache's well-formedness: one key and one verdict per slot; a slot
/// is empty (no key) or holds a key that belongs to it; cached verdicts
/// hold only keyword categories.
pub open spec fn cache_wf(keys: Seq<Option<u64>>, verdicts: Seq<ThreatFlags>) -> bool {
    &&& keys.len() == 1024
    &&& verdicts.len() == 1024
    &&& forall|i: int|
        0 <= i < 1024 ==> (#[trigger] keys[i] matches Some(k) ==> cache_slot(k) == i)
    &&& forall|i: int| 0 <= i < 1024 ==> only_categories((#[trigger] verdicts[i]).0)
}

/// One inspection of a request whose hash is `hash`, taking the cache from
/// (`keys0`, `verdicts0`) to (`keys1`, `verdicts1`) and answering `r`: on a
/// hit (the slot holds the key `hash`) the cached verdict, cache unchanged;
/// on a miss (the slot is empty or holds another key) a verdict per
/// `verdict_ok`, stored with `hash` in the slot.
pub open spec fn inspect_outcome(
    keys0: Seq<Option<u64>>,
    verdicts0: Seq<ThreatFlags>,
    hash: u64,
    path: Seq<u8>,
    query: Option<Seq<u8>>,
    keys1: Seq<Option<u64>>,
    verdicts1: Seq<ThreatFlags>,
    r: ThreatFlags,
) -> bool {
    let slot = cache_slot(hash);
    if keys0[slot] == Some(hash) {
        &&& r == verdicts0[slot]
        &&& keys1 == keys0
        &&& verdicts1 == verdicts0
    } else {
        &&& verdict_ok(path, query, r.0)
        &&& keys1 == keys0.update(slot, Some(hash))
        &&& verdicts1 == verdicts0.update(slot, r)
    }
}

/// One inspection of the request (`path`, `query`) by an inspector whose
/// hasher builder is `seed`: `inspect_outcome` for the request's hash.
pub open spec fn inspection(
    seed: RandomState,
    keys0: Seq<Option<u64>>,
    verdicts0: Seq<ThreatFlags>,
    path: Seq<u8>,
    query: Option<Seq<u8>>,
    keys1: Seq<Option<u64>>,
    verdicts1: Seq<ThreatFlags>,
    r: ThreatFlags,
) -> bool {
    exists|hash: u64|
        the_hash(seed, request_writes(path, query), hash) && #[trigger] inspect_outcome(
            keys0,
            verdicts0,
            hash,
            path,
            query,
            keys1,
            verdicts1,
            r,
        )
}

/// A request inspector: the keyword scanner, a seeded hasher and a
/// direct-mapped cache of verdicts by request hash.
pub struct ThreadLocalInspector {
    cache_keys: Vec<Option<u64>>,
    cache_verdicts: Vec<ThreatFlags>,
    hasher_builder: RandomState,
    scanner: KeywordScanner,
}

impl ThreadLocalInspector {
    /// The key stored in each cache slot, or none for an empty slot.
    pub closed spec fn keys(&self) -> Seq<Option<u64>> {
        self.cache_keys@
    }

    /// The builder that keys this inspector's request hashes.
    pub closed spec fn seed(&self) -> RandomState {
        self.hasher_builder
    }

    /// The keyword scanner.
    pub closed spec fn scanner_state(&self) -> KeywordScanner {
        self.scanner
    }

    /// The verdict stored in each cache slot.
    pub closed spec fn verdicts(&self) -> Seq<ThreatFlags> {
        self.cache_verdicts@
    }

    /// The keyword scanner holds the keyword table.
    pub closed spec fn scanner_wf(&self) -> bool {
        self.scanner.wf()
    }

    /// The inspector's invariant: a well-formed scanner and cache.
    pub open spec fn wf(&self) -> bool {
        &&& self.scanner_wf()
        &&& cache_wf(self.keys(), self.verdicts())
    }

    /// A fresh inspector: every slot empty.
    pub fn new() -> (r: ThreadLocalInspector)
        ensures
            r.wf(),
            forall|i: int| 0 <= i < 1024 ==> #[trigger] r.keys()[i] == None::<u64>,
    {
        let mut cache_keys: Vec<Option<u64>> = Vec::new();
        let mut cache_verdicts: Vec<ThreatFlags> = Vec::new();
        let mut i: usize = 0;
        while i < CACHE_SIZE
            invariant
                0 <= i <= CACHE_SIZE,
                cache_keys@.len() == i,
                cache_verdicts@.len() == i,
                forall|j: int| 0 <= j < i ==> #[trigger] cache_keys@[j] == None::<u64>,
                forall|j: int| 0 <= j < i ==> (#[trigger] cache_verdicts@[j]).0 == 0,
            decreases CACHE_SIZE - i,
        {
            cache_keys.push(None);
            cache_verdicts.push(ThreatFlags::clean());
            i = i + 1;
        }
        assert forall|j: int| 0 <= j < 1024 implies only_categories((#[trigger] cache_verdicts@[j]).0) by {
            assert(0u32 & 0x1f == 0u32) by (bit_vector);
        }
        ThreadLocalInspector {
            cache_keys,
            cache_verdicts,
            hasher_builder: new_random_state(),
            scanner: KeywordScanner::new(),
        }
    }

    /// The hash of a request: the path's bytes, then the query's bytes when
    /// there is a query, fed to a hasher keyed by this inspector's seed.
    fn request_hash(&self, path: &str, query: Option<&str>) -> (r: u64)
        ensures
            the_hash(self.seed(), request_writes(path.spec_bytes(), query_bytes(query)), r),
    {
        let mut hasher = build_hasher(&self.hasher_builder);
        hasher_write(&mut hasher, path.as_bytes());
        assert(hasher_writes(hasher) =~= seq![path.spec_bytes()]);
        if let Some(q) = query {
            hasher_write(&mut hasher, q.as_bytes());
            assert(hasher_writes(hasher) =~= seq![path.spec_bytes(), q.spec_bytes()]);
        }
        hasher_finish(&hasher)
    }

    /// Inspects a request whose hash is `hash`: answers from the cache slot
    /// of the hash when it holds that hash; otherwise computes the verdict
    /// (delimiter pre-filter on the raw bytes, then keyword scan of the
    /// path and query, raw and percent-decoded) and caches it.
    pub fn inspect_hashed(&mut self, hash: u64, path: &str, query: Option<&str>) -> (r: ThreatFlags)
        requires
            old(self).wf(),
        ensures
            final(self).wf(),
            final(self).seed() == old(self).seed(),
            final(self).scanner_state() == old(self).scanner_state(),
            inspect_outcome(
                old(self).keys(),
                old(self).verdicts(),
                hash,
                path.spec_bytes(),
                query_bytes(query),
                final(self).keys(),
                final(self).verdicts(),
                r,
            ),
    {
        let slot = (hash % 1024) as usize;
        if let Some(key) = self.cache_keys[slot] {
            if key == hash {
                return self.cache_verdicts[slot];
            }
        }
        let path_risky = has_risky_characters(path.as_bytes());
        let query_risky = match query {
            Some(q) => has_risky_characters(q.as_bytes()),
            None => false,
        };
        if !path_risky && !query_risky {
            self.cache_keys.set(slot, Some(hash));
            self.cache_verdicts.set(slot, ThreatFlags::clean());
            proof {
                assert(0u32 & 0x1f == 0u32) by (bit_vector);
                lemma_slot_store_wf(old(self).keys(), old(self).verdicts(), hash, 0);
            }
            return ThreatFlags::clean();
        }
        let fp = scan_part(&self.scanner, path.as_bytes());
        let mut result = ThreatFlags(fp.0);
        let ghost mut fq: u32 = 0;
        if let Some(q) = query {
            let found = scan_part(&self.scanner, q.as_bytes());
            proof {
                fq = found.0;
            }
            result = ThreatFlags(result.0 | found.0);
        } else {
            assert(fp.0 | 0 == fp.0) by (bit_vector);
        }
        proof {
            assert(0u32 & 0x1f == 0u32) by (bit_vector);
            lemma_union_only_categories(fp.0, fq);
            assert(result.0 == fp.0 | fq);
        }
        self.cache_keys.set(slot, Some(hash));
        self.cache_verdicts.set(slot, result);
        proof {
            lemma_slot_store_wf(old(self).keys(), old(self).verdicts(), hash, result.0);
        }
        result
    }

    /// Inspects a request by its path and optional query string.
    pub fn inspect(&mut self, path: &str, query: Option<&str>) -> (r: ThreatFlags)
        requires
            old(self).wf(),
        ensures
            final(self).wf(),
            final(self).seed() == old(self).seed(),
            final(self).scanner_state() == old(self).scanner_state(),
            inspection(
                old(self).seed(),
                old(self).keys(),
                old(self).verdicts(),
                path.spec_bytes(),
                query_bytes(query),
                final(self).keys(),
                final(self).verdicts(),
                r,
            ),
    {
        let hash = self.request_hash(path, query);
        self.inspect_hashed(hash, path, query)
    }
}

/// A value reported by the keyword scan is a single category or clean.
pub(crate) proof fn lemma_scan_outcome_categories(hay: Seq<u8>, f: u32)
    requires
        scan_outcome(hay, f),
    ensures
        f == 0 || f == 1 || f == 2 || f == 4 || f == 8 || f == 16,
{
}

/// The union of two scan results holds only category bits.
pub(crate) proof fn lemma_union_categories(a: u32, b: u32)
    requires
        a == 0 || a == 1 || a == 2 || a == 4 || a == 8 || a == 16,
        b == 0 || b == 1 || b == 2 || b == 4 || b == 8 || b == 16,
    ensures
        (a | b) & 0x1f == a | b,
{
    assert(((a == 0 || a == 1 || a == 2 || a == 4 || a == 8 || a == 16) && (b == 0 || b == 1
        || b == 2 || b == 4 || b == 8 || b == 16)) ==> (a | b) & 0x1f == a | b) by (bit_vector);
}

/// The union of two category-only flag words is category-only.
pub(crate) proof fn lemma_union_only_categories(a: u32, b: u32)
    requires
        only_categories(a),
        only_categories(b),
    ensures
        only_categories(a | b),
{
    assert((a & 0x1f == a && b & 0x1f == b) ==> (a | b) & 0x1f == a | b) by (bit_vector);
}

/// Storing a category-only verdict under a hash in that hash's slot keeps
/// the cache well formed.
proof fn lemma_slot_store_wf(keys: Seq<Option<u64>>, verdicts: Seq<ThreatFlags>, hash: u64, v: u32)
    requires
        cache_wf(keys, verdicts),
        only_categories(v),
    ensures
        cache_wf(
            keys.update(cache_slot(hash), Some(hash)),
            verdicts.update(cache_slot(hash), ThreatFlags(v)),
        ),
{
}

} // verus!
