use std::collections::HashMap;

use vstd::prelude::*;

verus! {

broadcast use vstd::std_specs::hash::group_hash_axioms;

/// What `fxhash::hash` returns for a string on a machine whose words have
/// `word_bits` bits and whose byte order is big-endian or not as
/// `big_endian` says.
pub uninterp spec fn spec_fxhash(word_bits: u32, big_endian: bool, s: Seq<char>) -> usize;

/// Calls `fxhash::hash` on the string.  FxHash starts from a constant and
/// reads the string's bytes as words of the machine, so the result depends
/// on the string, the word size and the byte order alone.  Claims that the
/// result is the named hash for the word size of this machine and one of
/// the two byte orders; which one is not stated.
#[verifier::external_body]
fn fxhash_str(s: &str) -> (r: usize)
    ensures
        r == spec_fxhash(usize::BITS, false, s@) || r == spec_fxhash(usize::BITS, true, s@),
{
    fxhash::hash(s)
}

/// The key under which the refresh token of a user is kept on a machine of
/// the byte order `big_endian`.
pub open spec fn key_of(big_endian: bool, username: Seq<char>) -> usize {
    spec_fxhash(usize::BITS, big_endian, username)
}

/// The token that a cache with `tokens` holds for `username` on a machine of
/// the byte order `big_endian`.
pub open spec fn spec_lookup(tokens: Map<usize, Seq<char>>, big_endian: bool, username: Seq<char>) -> Option<
    Seq<char>,
> {
    if tokens.contains_key(key_of(big_endian, username)) {
        Some(tokens[key_of(big_endian, username)])
    } else {
        None
    }
}

/// Spotify refresh tokens, kept by a hash of the user name.
#[derive(Debug, Clone)]
pub struct Cache {
    spotify_refresh_tokens: HashMap<usize, String>,
}

impl Cache {
    /// The tokens, by key.
    pub closed spec fn tokens(&self) -> Map<usize, Seq<char>> {
        self.spotify_refresh_tokens@.map_values(|t: String| t@)
    }

    /// An empty cache.
    pub fn new() -> (c: Self)
        ensures
            c.tokens() == Map::<usize, Seq<char>>::empty(),
    {
        let c = Cache { spotify_refresh_tokens: HashMap::new() };
        proof {
            assert(c.tokens() =~= Map::<usize, Seq<char>>::empty());
        }
        c
    }

    /// A cache holding the given tokens.
    pub fn from_tokens(spotify_refresh_tokens: HashMap<usize, String>) -> (c: Self)
        ensures
            c.tokens() == spotify_refresh_tokens@.map_values(|t: String| t@),
    {
        Cache { spotify_refresh_tokens }
    }

    /// The tokens, by key.
    pub fn into_tokens(self) -> (m: HashMap<usize, String>)
        ensures
            m@.map_values(|t: String| t@) == self.tokens(),
    {
        self.spotify_refresh_tokens
    }

    /// Keeps `token` as the refresh token of `username`.
    pub fn set_spotify_refresh_token(&mut self, username: &str, token: &str)
        ensures
            exists|big_endian: bool|
                final(self).tokens() == old(self).tokens().insert(key_of(big_endian, username@), token@),
    {
        let username_hash = fxhash_str(username);
        let ghost big_endian = username_hash == key_of(true, username@);
        let _ = self.spotify_refresh_tokens.insert(username_hash, token.to_owned());
        proof {
            assert(self.tokens() =~= old(self).tokens().insert(key_of(big_endian, username@), token@));
        }
    }

    /// The refresh token kept for `username`.
    pub fn get_spotify_refresh_token(&self, username: &str) -> (r: Option<String>)
        ensures
            exists|big_endian: bool|
                match r {
                    Some(t) => spec_lookup(self.tokens(), big_endian, username@) == Some(t@),
                    None => spec_lookup(self.tokens(), big_endian, username@) is None,
                },
    {
        let username_hash = fxhash_str(username);
        let ghost big_endian = username_hash == key_of(true, username@);
        assert(username_hash == key_of(big_endian, username@));
        let r = match self.spotify_refresh_tokens.get(&username_hash) {
            Some(t) => Some(t.clone()),
            None => None,
        };
        assert(match r {
            Some(t) => spec_lookup(self.tokens(), big_endian, username@) == Some(t@),
            None => spec_lookup(self.tokens(), big_endian, username@) is None,
        });
        r
    }
}

/// A token kept for a user is what the cache gives back for that user.
pub proof fn set_then_get(
    tokens: Map<usize, Seq<char>>,
    big_endian: bool,
    username: Seq<char>,
    token: Seq<char>,
)
    ensures
        spec_lookup(tokens.insert(key_of(big_endian, username), token), big_endian, username)
            == Some(token),
{
}

/// Keeping a token for one user leaves what the cache gives back for a user
/// with another key unchanged.
pub proof fn set_keeps_other_users(
    tokens: Map<usize, Seq<char>>,
    big_endian: bool,
    username: Seq<char>,
    token: Seq<char>,
    other: Seq<char>,
)
    requires
        key_of(big_endian, other) != key_of(big_endian, username),
    ensures
        spec_lookup(tokens.insert(key_of(big_endian, username), token), big_endian, other)
            == spec_lookup(tokens, big_endian, other),
{
}

} // verus!
