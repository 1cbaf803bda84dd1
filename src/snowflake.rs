//! Shape checks on platform identifiers and attachment file names.
use vstd::prelude::*;

verus! {

/// Shortest identifier, in characters.
pub const SNOWFLAKE_MIN_LEN: usize = 17;

/// Longest identifier, in characters.
pub const SNOWFLAKE_MAX_LEN: usize = 19;

pub open spec fn is_digit(c: char) -> bool {
    '0' <= c && c <= '9'
}

/// An identifier is 17 to 19 decimal digits and nothing else.
pub open spec fn valid_snowflake(s: Seq<char>) -> bool {
    &&& SNOWFLAKE_MIN_LEN <= s.len() <= SNOWFLAKE_MAX_LEN
    &&& forall|i: int| 0 <= i < s.len() ==> is_digit(#[trigger] s[i])
}

/// Whether `id` has the shape of a platform identifier ("snowflake").
pub fn is_valid_snowflake(id: &str) -> (r: bool)
    ensures
        r == valid_snowflake(id@),
{
    let n = id.unicode_len();
    if n < SNOWFLAKE_MIN_LEN || n > SNOWFLAKE_MAX_LEN {
        return false;
    }
    let mut i: usize = 0;
    while i < n
        invariant
            n == id@.len(),
            i <= n,
            forall|j: int| 0 <= j < i ==> is_digit(#[trigger] id@[j]),
        decreases n - i,
    {
        let c = id.get_char(i);
        if !(c >= '0' && c <= '9') {
            return false;
        }
        i = i + 1;
    }
    true
}

pub open spec fn ends_with(s: Seq<char>, suffix: Seq<char>) -> bool {
    &&& suffix.len() <= s.len()
    &&& s.subrange(s.len() - suffix.len(), s.len() as int) == suffix
}

pub open spec fn pcap_ext() -> Seq<char> {
    seq!['.', 'p', 'c', 'a', 'p']
}

pub open spec fn pcapng_ext() -> Seq<char> {
    seq!['.', 'p', 'c', 'a', 'p', 'n', 'g']
}

/// A capture file is recognised by its name alone: it ends in `.pcap` or
/// `.pcapng`, case-sensitively.
pub open spec fn capture_file_name(name: Seq<char>) -> bool {
    ends_with(name, pcap_ext()) || ends_with(name, pcapng_ext())
}

/// Whether `s` ends with `suffix`, character by character.
pub fn str_ends_with(s: &str, suffix: &str) -> (r: bool)
    ensures
        r == ends_with(s@, suffix@),
{
    let n = s.unicode_len();
    let m = suffix.unicode_len();
    if m > n {
        return false;
    }
    let off: usize = n - m;
    let mut i: usize = 0;
    while i < m
        invariant
            n == s@.len(),
            m == suffix@.len(),
            off == n - m,
            i <= m,
            forall|j: int| 0 <= j < i ==> s@[off + j] == suffix@[j],
        decreases m - i,
    {
        if s.get_char(off + i) != suffix.get_char(i) {
            assert(s@.subrange(off as int, n as int)[i as int] != suffix@[i as int]);
            return false;
        }
        i = i + 1;
    }
    assert(s@.subrange(off as int, n as int) =~= suffix@);
    true
}

/// Whether `filename` names a capture file (`.pcap` or `.pcapng`).
pub fn is_pcap_file(filename: &str) -> (r: bool)
    ensures
        r == capture_file_name(filename@),
{
    proof {
        reveal_strlit(".pcap");
        reveal_strlit(".pcapng");
        assert(".pcap"@ =~= pcap_ext());
        assert(".pcapng"@ =~= pcapng_ext());
    }
    str_ends_with(filename, ".pcap") || str_ends_with(filename, ".pcapng")
}

} // verus!
