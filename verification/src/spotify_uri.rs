use vstd::prelude::*;
use vstd::string::StrSliceExecFns;

verus! {

/// Whether `c` is an ASCII letter or digit.
pub open spec fn is_alnum(c: char) -> bool {
    ('a' <= c && c <= 'z') || ('A' <= c && c <= 'Z') || ('0' <= c && c <= '9')
}

/// Whether `c` may stand where the pattern has a wildcard: any character
/// but a line feed.
pub open spec fn is_wildcard_char(c: char) -> bool {
    c != '\n'
}

pub open spec fn https_open() -> Seq<char> {
    seq!['h', 't', 't', 'p', 's', ':', '/', '/', 'o', 'p', 'e', 'n']
}

pub open spec fn spotify_word() -> Seq<char> {
    seq!['s', 'p', 'o', 't', 'i', 'f', 'y']
}

pub open spec fn com_slash() -> Seq<char> {
    seq!['c', 'o', 'm', '/']
}

pub open spec fn track_word() -> Seq<char> {
    seq!['t', 'r', 'a', 'c', 'k']
}

pub open spec fn album_word() -> Seq<char> {
    seq!['a', 'l', 'b', 'u', 'm']
}

/// Whether `s` holds `lit` at position `at`.
pub open spec fn has_at(s: Seq<char>, at: int, lit: Seq<char>) -> bool {
    0 <= at && at + lit.len() <= s.len() && s.subrange(at, at + lit.len()) == lit
}

/// Whether the URL pattern `https://open.spotify.com/(track|album)/[a-zA-Z0-9]+`
/// matches at position `i` of `s`, each `.` standing for any character but
/// a line feed.
pub open spec fn matches_at(s: Seq<char>, i: int) -> bool {
    &&& has_at(s, i, https_open())
    &&& i + 12 < s.len() && is_wildcard_char(s[i + 12])
    &&& has_at(s, i + 13, spotify_word())
    &&& i + 20 < s.len() && is_wildcard_char(s[i + 20])
    &&& has_at(s, i + 21, com_slash())
    &&& (has_at(s, i + 25, track_word()) || has_at(s, i + 25, album_word()))
    &&& i + 30 < s.len() && s[i + 30] == '/'
    &&& i + 31 < s.len() && is_alnum(s[i + 31])
}

/// Whether `i` is the leftmost position where the pattern matches.
pub open spec fn leftmost_match(s: Seq<char>, i: int) -> bool {
    &&& matches_at(s, i)
    &&& forall|k: int| 0 <= k < i ==> !matches_at(s, k)
}

/// Whether the letters and digits starting at `start` of `s` end at `end`.
pub open spec fn alnum_run_ends(s: Seq<char>, start: int, end: int) -> bool {
    &&& start <= end <= s.len()
    &&& forall|k: int| start <= k < end ==> is_alnum(s[k])
    &&& (end == s.len() || !is_alnum(s[end]))
}

/// The Spotify URI that a match at position `i` ending at `end` yields:
/// `spotify:`, the kind, `:` and the ID.
pub open spec fn uri_of_match(s: Seq<char>, i: int, end: int) -> Seq<char> {
    seq!['s', 'p', 'o', 't', 'i', 'f', 'y', ':'] + s.subrange(i + 25, i + 30) + seq![':']
        + s.subrange(i + 31, end)
}

/// The characters of a string.
fn chars_of(s: &str) -> (r: Vec<char>)
    ensures
        r@ == s@,
{
    let n = s.unicode_len();
    let mut r: Vec<char> = Vec::new();
    let mut i: usize = 0;
    while i < n
        invariant
            n == s@.len(),
            i <= n,
            r@ == s@.subrange(0, i as int),
        decreases n - i,
    {
        r.push(s.get_char(i));
        i = i + 1;
        proof {
            assert(r@ =~= s@.subrange(0, i as int));
        }
    }
    proof {
        assert(r@ =~= s@);
    }
    r
}

/// Whether `chars` holds `lit` at position `at`.
fn has_lit_at(chars: &Vec<char>, at: usize, lit: &Vec<char>) -> (r: bool)
    ensures
        r == has_at(chars@, at as int, lit@),
{
    let n = chars.len();
    if at > n || lit.len() > n - at {
        return false;
    }
    let mut k: usize = 0;
    while k < lit.len()
        invariant
            chars@.len() == n,
            at + lit@.len() <= chars@.len(),
            k <= lit@.len(),
            forall|j: int| 0 <= j < k ==> chars@[at + j] == lit@[j],
        decreases lit@.len() - k,
    {
        if chars[at + k] != lit[k] {
            proof {
                assert(chars@.subrange(at as int, at + lit@.len())[k as int] != lit@[k as int]);
            }
            return false;
        }
        k = k + 1;
    }
    proof {
        assert(chars@.subrange(at as int, at + lit@.len()) =~= lit@);
    }
    true
}

fn is_alnum_char(c: char) -> (r: bool)
    ensures
        r == is_alnum(c),
{
    ('a' <= c && c <= 'z') || ('A' <= c && c <= 'Z') || ('0' <= c && c <= '9')
}

/// Whether the pattern matches at position `i`.
fn match_at(chars: &Vec<char>, i: usize) -> (r: bool)
    ensures
        r == matches_at(chars@, i as int),
{
    let n = chars.len();
    if i > n || n - i < 32 {
        return false;
    }
    let https_open_lit = vec!['h', 't', 't', 'p', 's', ':', '/', '/', 'o', 'p', 'e', 'n'];
    let spotify_lit = vec!['s', 'p', 'o', 't', 'i', 'f', 'y'];
    let com_lit = vec!['c', 'o', 'm', '/'];
    let track_lit = vec!['t', 'r', 'a', 'c', 'k'];
    let album_lit = vec!['a', 'l', 'b', 'u', 'm'];
    proof {
        assert(https_open_lit@ =~= https_open());
        assert(spotify_lit@ =~= spotify_word());
        assert(com_lit@ =~= com_slash());
        assert(track_lit@ =~= track_word());
        assert(album_lit@ =~= album_word());
    }
    has_lit_at(chars, i, &https_open_lit) && chars[i + 12] != '\n' && has_lit_at(
        chars,
        i + 13,
        &spotify_lit,
    ) && chars[i + 20] != '\n' && has_lit_at(chars, i + 21, &com_lit) && (has_lit_at(
        chars,
        i + 25,
        &track_lit,
    ) || has_lit_at(chars, i + 25, &album_lit)) && chars[i + 30] == '/' && is_alnum_char(
        chars[i + 31],
    )
}

/// The Spotify URI for the first Spotify track or album URL in `url`, as
/// `spotify:<kind>:<id>`; `None` where `url` holds no such URL.
pub fn derive_spotify_uri_from_url(url: &str) -> (r: Option<String>)
    ensures
        match r {
            Some(uri) => exists|i: int, end: int|
                leftmost_match(url@, i) && alnum_run_ends(url@, i + 31, end) && uri@
                    == uri_of_match(url@, i, end),
            None => forall|i: int| 0 <= i <= url@.len() ==> !matches_at(url@, i),
        },
{
    let chars = chars_of(url);
    let n = chars.len();
    let mut i: usize = 0;
    while i < n
        invariant
            chars@ == url@,
            n == chars@.len(),
            i <= n,
            forall|k: int| 0 <= k < i ==> !matches_at(url@, k),
        decreases n - i,
    {
        if match_at(&chars, i) {
            let mut end: usize = i + 31;
            while end < n && is_alnum_char(chars[end])
                invariant
                    chars@ == url@,
                    n == chars@.len(),
                    matches_at(url@, i as int),
                    i + 31 <= end <= n,
                    forall|k: int| i + 31 <= k < end ==> is_alnum(url@[k]),
                decreases n - end,
            {
                end = end + 1;
            }
            let mut uri = String::from_str("spotify:");
            uri.append(url.substring_char(i + 25, i + 30));
            uri.append(":");
            uri.append(url.substring_char(i + 31, end));
            proof {
                reveal_strlit("spotify:");
                reveal_strlit(":");
                assert(leftmost_match(url@, i as int));
                assert(alnum_run_ends(url@, i + 31, end as int));
                assert(uri@ =~= uri_of_match(url@, i as int, end as int));
            }
            return Some(uri);
        }
        i = i + 1;
    }
    proof {
        assert forall|k: int| 0 <= k <= url@.len() implies !matches_at(url@, k) by {
            if k == url@.len() {
                assert(!has_at(url@, k, https_open()));
            }
        }
    }
    None
}

} // verus!
