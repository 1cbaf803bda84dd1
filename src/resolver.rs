//! Resolving a free-text server name to one record of a server listing:
//! a case-insensitive exact match first, then the closest fuzzy match.
//!
//! Similarity scores come from Jaro-Winkler and are carried as the bit
//! pattern of the non-negative binary64 value that it returns. For
//! non-negative doubles the bit patterns, read as unsigned integers, are
//! ordered as the values are, so scores are compared as `u64`.
use vstd::prelude::*;
use vstd::string::StringSliceAdditionalSpecFns;
use vstd::utf8::encode_utf8;

verus! {

/// How many players a server had, and when that was seen.
#[derive(Clone, Debug)]
pub struct PlayerInfo {
    pub count: u32,
    pub updated_at: String,
    pub age: String,
}

/// One record of the server listing.
#[derive(Clone, Debug)]
pub struct ServerInfo {
    pub name: String,
    pub description: String,
    pub server_type: String,
    pub software: String,
    pub host: String,
    pub port: String,
    pub website_url: Option<String>,
    pub discord_url: Option<String>,
    pub players: Option<PlayerInfo>,
}

/// The least score that a fuzzy match must reach: 0.8 as a binary64 bit
/// pattern.
pub const SIMILARITY_THRESHOLD_BITS: u64 = 0x3FE9_9999_9999_999A;

/// The score of two identical names: 1.0 as a binary64 bit pattern.
pub const IDENTICAL_SCORE_BITS: u64 = 0x3FF0_0000_0000_0000;

/// What `str::to_lowercase` makes of a string.
pub uninterp spec fn lower_of(s: Seq<char>) -> Seq<char>;

/// The bit pattern of what `strsim::jaro_winkler` returns for two strings.
pub uninterp spec fn jaro_winkler_of(a: Seq<char>, b: Seq<char>) -> u64;

/// Relies on `str::to_lowercase`: the result depends on the characters
/// alone.
#[verifier::external_body]
pub(crate) fn lowercase(s: &str) -> (r: String)
    ensures
        r@ == lower_of(s@),
{
    s.to_lowercase()
}

/// Relies on `strsim::jaro_winkler`: the similarity of `a` and `b`, a
/// value of `[0, 1]` that depends on the characters alone, handed back as
/// its bit pattern.
#[verifier::external_body]
fn jaro_winkler_bits(a: &str, b: &str) -> (r: u64)
    ensures
        r == jaro_winkler_of(a@, b@),
{
    strsim::jaro_winkler(a, b).to_bits()
}

/// ASCII letters fold to lower case; every other character stays.
pub open spec fn ascii_fold(c: char) -> u32 {
    if 'A' <= c && c <= 'Z' {
        (c as u32 + 32) as u32
    } else {
        c as u32
    }
}

/// The two strings are equal once ASCII letters are folded to lower case.
pub open spec fn eq_ignoring_ascii_case(a: Seq<char>, b: Seq<char>) -> bool {
    &&& a.len() == b.len()
    &&& forall|i: int| 0 <= i < a.len() ==> ascii_fold(#[trigger] a[i]) == ascii_fold(b[i])
}

fn fold_char(c: char) -> (r: u32)
    ensures
        r == ascii_fold(c),
{
    if c >= 'A' && c <= 'Z' {
        c as u32 + 32
    } else {
        c as u32
    }
}

/// Whether `a` and `b` are equal but for the case of ASCII letters.
pub fn eq_ignore_ascii_case(a: &str, b: &str) -> (r: bool)
    ensures
        r == eq_ignoring_ascii_case(a@, b@),
{
    let n = a.unicode_len();
    if n != b.unicode_len() {
        return false;
    }
    let mut i: usize = 0;
    while i < n
        invariant
            n == a@.len(),
            n == b@.len(),
            i <= n,
            forall|j: int| 0 <= j < i ==> ascii_fold(#[trigger] a@[j]) == ascii_fold(b@[j]),
        decreases n - i,
    {
        if fold_char(a.get_char(i)) != fold_char(b.get_char(i)) {
            return false;
        }
        i = i + 1;
    }
    true
}

/// The length of a string in UTF-8 bytes, as `str::len` reports it.
pub open spec fn byte_len(s: Seq<char>) -> usize {
    encode_utf8(s).len() as usize
}

/// A name is scored only against a query of at least half its length,
/// rounded up (lengths in bytes).
pub open spec fn length_gate(name: Seq<char>, query: Seq<char>) -> bool {
    byte_len(name) / 2 + byte_len(name) % 2 <= byte_len(query)
}

pub open spec fn fuzzy_score(name: Seq<char>, query: Seq<char>) -> u64 {
    jaro_winkler_of(lower_of(name), lower_of(query))
}

/// For each server, its fuzzy score against the query, or `None` where the
/// length gate keeps it out.
pub open spec fn candidate_scores(servers: Seq<ServerInfo>, query: Seq<char>) -> Seq<Option<u64>> {
    Seq::new(
        servers.len(),
        |i: int|
            if length_gate(servers[i].name@, query) {
                Some(fuzzy_score(servers[i].name@, query))
            } else {
                None
            },
    )
}

/// A score that reaches the threshold.
pub open spec fn accepted(s: Option<u64>) -> bool {
    s matches Some(v) && v >= SIMILARITY_THRESHOLD_BITS
}

/// `i` holds the highest accepted score, and no accepted score before it
/// is as high: ties go to the first in input order.
pub open spec fn is_best(scores: Seq<Option<u64>>, i: int) -> bool {
    &&& 0 <= i < scores.len()
    &&& accepted(scores[i])
    &&& forall|j: int|
        0 <= j < scores.len() && #[trigger] accepted(scores[j]) ==> scores[j]->Some_0
            <= scores[i]->Some_0
    &&& forall|j: int|
        0 <= j < i && #[trigger] accepted(scores[j]) ==> scores[j]->Some_0 < scores[i]->Some_0
}

pub open spec fn no_candidate(scores: Seq<Option<u64>>) -> bool {
    forall|i: int| 0 <= i < scores.len() ==> !accepted(#[trigger] scores[i])
}

/// Picks the best of the scored candidates: `None` marks a candidate that
/// was not scored. Only scores at or above the threshold count; the highest
/// wins, and among equal highest scores the first.
pub fn best_scored(scores: &Vec<Option<u64>>) -> (r: Option<usize>)
    ensures
        r is None <==> no_candidate(scores@),
        r matches Some(i) ==> is_best(scores@, i as int),
{
    let mut best: Option<usize> = None;
    let mut i: usize = 0;
    while i < scores.len()
        invariant
            i <= scores@.len(),
            best is None <==> no_candidate(scores@.subrange(0, i as int)),
            best matches Some(b) ==> is_best(scores@.subrange(0, i as int), b as int),
        decreases scores@.len() - i,
    {
        let ghost prev = scores@.subrange(0, i as int);
        let ghost next = scores@.subrange(0, i + 1);
        assert(next =~= prev.push(scores@[i as int]));
        match scores[i] {
            Some(v) => {
                if v >= SIMILARITY_THRESHOLD_BITS {
                    match best {
                        None => {
                            best = Some(i);
                        },
                        Some(b) => {
                            if scores[b].unwrap() < v {
                                best = Some(i);
                            }
                        },
                    }
                }
            },
            None => {},
        }
        proof {
            if let Some(b) = best {
                assert forall|j: int| 0 <= j < next.len() && #[trigger] accepted(next[j]) implies next[j]->Some_0
                    <= next[b as int]->Some_0 by {
                    if j < i {
                        assert(prev[j] == next[j]);
                    }
                }
            }
        }
        i = i + 1;
    }
    assert(scores@.subrange(0, i as int) =~= scores@);
    best
}

/// A query shorter than half a server's name (rounded up) is never scored
/// against that name, however similar the two are.
pub proof fn lemma_short_query_not_scored(servers: Seq<ServerInfo>, query: Seq<char>, i: int)
    requires
        0 <= i < servers.len(),
        byte_len(query) < byte_len(servers[i].name@) / 2 + byte_len(servers[i].name@) % 2,
    ensures
        candidate_scores(servers, query)[i] is None,
        !accepted(candidate_scores(servers, query)[i]),
{
}

/// The threshold is inclusive: a score is accepted exactly when it is at
/// least the threshold.
pub proof fn lemma_threshold_inclusive(v: u64)
    ensures
        accepted(Some(v)) <==> v >= SIMILARITY_THRESHOLD_BITS,
        accepted(Some(SIMILARITY_THRESHOLD_BITS)),
        !accepted(None),
{
}

/// `i` is the first server whose name equals the query but for ASCII case.
pub open spec fn is_first_exact(servers: Seq<ServerInfo>, query: Seq<char>, i: int) -> bool {
    &&& 0 <= i < servers.len()
    &&& eq_ignoring_ascii_case(servers[i].name@, query)
    &&& forall|j: int| 0 <= j < i ==> !eq_ignoring_ascii_case(#[trigger] servers[j].name@, query)
}

pub open spec fn has_exact(servers: Seq<ServerInfo>, query: Seq<char>) -> bool {
    exists|i: int| 0 <= i < servers.len() && eq_ignoring_ascii_case(#[trigger] servers[i].name@, query)
}

/// Resolves `query` to the index of one server. A case-insensitive exact
/// match wins outright (the first one); otherwise each server that passes
/// the length gate is scored, and the best accepted score wins (the first
/// of equal best scores). `None` where nothing qualifies.
pub fn find_server(servers: &[ServerInfo], query: &str) -> (r: Option<usize>)
    ensures
        has_exact(servers@, query@) ==> (r matches Some(i) && is_first_exact(servers@, query@, i as int)),
        !has_exact(servers@, query@) ==> {
            &&& r is None <==> no_candidate(candidate_scores(servers@, query@))
            &&& r matches Some(i) ==> is_best(candidate_scores(servers@, query@), i as int)
        },
{
    let mut i: usize = 0;
    while i < servers.len()
        invariant
            i <= servers@.len(),
            forall|j: int| 0 <= j < i ==> !eq_ignoring_ascii_case(#[trigger] servers@[j].name@, query@),
        decreases servers@.len() - i,
    {
        if eq_ignore_ascii_case(servers[i].name.as_str(), query) {
            return Some(i);
        }
        i = i + 1;
    }
    let lowered_query = lowercase(query);
    let query_len = query.len();
    assert(query.spec_bytes() == encode_utf8(query@));
    let mut scores: Vec<Option<u64>> = Vec::new();
    let mut k: usize = 0;
    while k < servers.len()
        invariant
            k <= servers@.len(),
            query_len == byte_len(query@),
            lowered_query@ == lower_of(query@),
            scores@ == candidate_scores(servers@, query@).subrange(0, k as int),
        decreases servers@.len() - k,
    {
        let name = servers[k].name.as_str();
        let name_len = name.len();
        assert(name.spec_bytes() == encode_utf8(name@));
        if name_len / 2 + name_len % 2 <= query_len {
            let lowered_name = lowercase(name);
            scores.push(Some(jaro_winkler_bits(lowered_name.as_str(), lowered_query.as_str())));
        } else {
            scores.push(None);
        }
        k = k + 1;
        assert(scores@ =~= candidate_scores(servers@, query@).subrange(0, k as int));
    }
    assert(scores@ =~= candidate_scores(servers@, query@));
    best_scored(&scores)
}

} // verus!
