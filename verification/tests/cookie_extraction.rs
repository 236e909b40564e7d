use matcha_auth::auth::auth_cookie;
use matcha_auth::middleware::auth::extract_auth_token;

#[test]
fn finds_the_auth_cookie_among_others() {
    assert_eq!(extract_auth_token("auth_token=abc"), Some("abc".to_string()));
    assert_eq!(extract_auth_token("theme=dark; auth_token=abc"), Some("abc".to_string()));
    assert_eq!(
        extract_auth_token("a=1;auth_token=t0k.en-1;b=2"),
        Some("t0k.en-1".to_string())
    );
}

#[test]
fn trims_whitespace_around_segments() {
    assert_eq!(extract_auth_token("  auth_token=abc  "), Some("abc".to_string()));
    assert_eq!(extract_auth_token("theme=dark;  auth_token=abc"), Some("abc".to_string()));
}

#[test]
fn yields_nothing_without_the_auth_cookie() {
    assert_eq!(extract_auth_token(""), None);
    assert_eq!(extract_auth_token("theme=dark"), None);
    assert_eq!(extract_auth_token("token=abc; session=xyz"), None);
    // The name must be a prefix of the segment, not contain it.
    assert_eq!(extract_auth_token("xauth_token=abc"), None);
}

#[test]
fn takes_the_first_matching_segment() {
    assert_eq!(
        extract_auth_token("auth_token=first; auth_token=second"),
        Some("first".to_string())
    );
}

#[test]
fn the_auth_cookie_is_scoped_for_the_whole_site() {
    let c = auth_cookie("tok".to_string());
    assert_eq!(c.name, "auth_token");
    assert_eq!(c.value, "tok");
    assert!(c.http_only);
    assert!(!c.secure);
    assert!(c.same_site_strict);
    assert_eq!(c.path, "/");
}
