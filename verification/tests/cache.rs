use std::collections::HashMap;

use rustberry::cache::Cache;

#[test]
fn token_is_kept_per_user() {
    let mut cache = Cache::new();
    assert_eq!(cache.get_spotify_refresh_token("alice"), None);
    cache.set_spotify_refresh_token("alice", "t1");
    cache.set_spotify_refresh_token("bob", "t2");
    assert_eq!(cache.get_spotify_refresh_token("alice"), Some("t1".to_string()));
    assert_eq!(cache.get_spotify_refresh_token("bob"), Some("t2".to_string()));
    cache.set_spotify_refresh_token("alice", "t3");
    assert_eq!(cache.get_spotify_refresh_token("alice"), Some("t3".to_string()));
}

#[test]
fn tokens_are_kept_under_the_fxhash_of_the_user_name() {
    let mut tokens = HashMap::new();
    tokens.insert(fxhash::hash("carol"), "secret".to_string());
    let cache = Cache::from_tokens(tokens);
    assert_eq!(cache.get_spotify_refresh_token("carol"), Some("secret".to_string()));
    let mut cache = Cache::new();
    cache.set_spotify_refresh_token("dave", "x");
    let tokens = cache.into_tokens();
    assert_eq!(tokens.get(&fxhash::hash("dave")), Some(&"x".to_string()));
    assert_eq!(tokens.len(), 1);
}
