use loxerpaper::constants::{link_url, link_url_id, response_url, user_url, user_url_opt};
use loxerpaper::detector::{hash_str, identity_of, staged_file_name, url_last_segment, NO_IMAGE};

#[test]
fn builds_url_from_integer() {
    assert_eq!(link_url_id(42), "https://walltaker.joi.how/api/links/42.json");
}

#[test]
fn builds_url_from_str() {
    assert_eq!(link_url("abc"), "https://walltaker.joi.how/api/links/abc.json");
}

#[test]
fn builds_response_url() {
    assert_eq!(
        response_url("abc"),
        "https://walltaker.joi.how/api/links/abc/response.json"
    );
}

#[test]
fn builds_user_url_with_api_key() {
    assert_eq!(
        user_url("me", "key"),
        "https://walltaker.joi.how/api/users/me.json?api_key=key"
    );
}

#[test]
fn empty_id_is_allowed() {
    assert_eq!(link_url(""), "https://walltaker.joi.how/api/links/.json");
}

#[test]
fn builds_user_url_without_api_key() {
    assert_eq!(
        user_url_opt("me", None),
        "https://walltaker.joi.how/api/users/me.json"
    );
    assert_eq!(
        user_url_opt("me", Some("key")),
        "https://walltaker.joi.how/api/users/me.json?api_key=key"
    );
}

#[test]
fn builds_url_from_negative_integer() {
    assert_eq!(link_url_id(-5), "https://walltaker.joi.how/api/links/-5.json");
}

#[test]
fn hash_is_deterministic_and_reproducible() {
    let a = hash_str("5d87428c4839b0dc7d585b87a25af61a");
    let b = hash_str("5d87428c4839b0dc7d585b87a25af61a");
    assert_eq!(a, b);
    assert!(a >= 0);
    assert!(a < 1_000_000_007);
}

#[test]
fn hash_has_exact_known_values() {
    // h = 0; h = (h * 257 + b + 1) % 1_000_000_007 over the bytes
    assert_eq!(hash_str(""), 0);
    assert_eq!(hash_str("a"), 98);
    assert_eq!(hash_str("abc"), (98 * 257 + 99) * 257 + 100);
}

#[test]
fn identity_is_idempotent() {
    let u = "https://static1.e621.net/data/5d/87/5d87428c4839b0dc7d585b87a25af61a.png";
    assert_eq!(identity_of(u), identity_of(u));
    assert_ne!(identity_of(u), NO_IMAGE);
}

#[test]
fn identity_ignores_query_churn() {
    let base = "https://static1.e621.net/data/5d/87/5d87428c4839b0dc7d585b87a25af61a.png";
    let u1 = format!("{base}?token=abc123");
    let u2 = format!("{base}?token=zz9&expires=999");
    assert_eq!(identity_of(&u1), identity_of(&u2));
    assert_eq!(identity_of(&u1), identity_of(base));
    assert_eq!(staged_file_name(&u1), staged_file_name(&u2));
}

#[test]
fn staged_filename_keeps_clean_stem_and_extension() {
    let u = "https://static1.e621.net/data/5d/87/5d87428c4839b0dc7d585b87a25af61a.png";
    assert_eq!(
        staged_file_name(u),
        "5d87428c4839b0dc7d585b87a25af61a.png"
    );
}

#[test]
fn unparseable_url_falls_back_to_sanitized_text() {
    // spaces become underscores; the whole reference is the candidate
    assert_eq!(staged_file_name("not a url"), "not_a_url.png");
    assert_eq!(identity_of("not a url"), hash_str("not_a_url"));
}

#[test]
fn last_segment_ignores_query_and_fragment() {
    assert_eq!(url_last_segment("https://h/a/b.png?c/d"), Some("b.png".to_string()));
    assert_eq!(url_last_segment("https://h/a/b.png#frag"), Some("b.png".to_string()));
    assert_eq!(url_last_segment("https://h/a/"), Some(String::new()));
    assert_eq!(url_last_segment("https://h"), Some(String::new()));
}

#[test]
fn last_segment_rejects_non_urls() {
    assert_eq!(url_last_segment("not a url"), None);
    assert_eq!(url_last_segment("mailto:someone@example.org"), None);
    assert_eq!(url_last_segment("https:///nohost"), None);
    assert_eq!(url_last_segment(""), None);
}

#[test]
fn multi_dot_names_split_on_the_last_dot() {
    assert_eq!(staged_file_name("https://h/archive.tar.gz"), "archive_tar.gz");
    assert_eq!(staged_file_name("https://h/.hidden"), "_hidden.png");
    assert_eq!(staged_file_name("https://h/noext"), "noext.png");
}
