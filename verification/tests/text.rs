use aether_proxy::sanitize::sanitize_upstream_error;
use aether_proxy::text;
use aether_proxy::text::{chars_of, match_at, string_of, to_ascii_lowercase, u64_to_string};

#[test]
fn decimal_numbers() {
    assert_eq!(u64_to_string(0), "0");
    assert_eq!(u64_to_string(7), "7");
    assert_eq!(u64_to_string(10), "10");
    assert_eq!(u64_to_string(8443), "8443");
    assert_eq!(u64_to_string(u64::MAX), "18446744073709551615");
}

#[test]
fn lower_case_touches_ascii_letters_only() {
    assert_eq!(to_ascii_lowercase("Example.COM"), "example.com");
    assert_eq!(to_ascii_lowercase("AZaz09-_@[`{"), "azaz09-_@[`{");
    assert_eq!(to_ascii_lowercase("ÄÖ-Straße"), "ÄÖ-straße");
    assert_eq!(to_ascii_lowercase(""), "");
}

#[test]
fn chars_and_strings() {
    let v = chars_of("héllo");
    assert_eq!(v, vec!['h', 'é', 'l', 'l', 'o']);
    assert_eq!(string_of(&v, 1, 4), "éll");
    assert_eq!(string_of(&v, 2, 2), "");
    assert_eq!(text::concat("ab", "cd"), "abcd");
    assert!(match_at(&v, 3, &chars_of("lo")));
    assert!(!match_at(&v, 4, &chars_of("lo")));
    assert!(!match_at(&v, 0, &chars_of("hx")));
    assert!(match_at(&v, 5, &chars_of("")));
}

#[test]
fn sanitizer_replaces_a_url_by_its_host() {
    assert_eq!(
        sanitize_upstream_error("https://api.example.com/v1/chat?key=xxx"),
        "api.example.com"
    );
    assert_eq!(
        sanitize_upstream_error("error sending request for url (https://api.example.com/v1/chat?key=xxx): timed out"),
        "error sending request for url (api.example.com timed out"
    );
    assert_eq!(
        sanitize_upstream_error("GET http://user:pw@host.test:8080/a#frag failed"),
        "GET user:pw@host.test:8080 failed"
    );
}

#[test]
fn sanitizer_handles_both_schemes_and_several_urls() {
    assert_eq!(
        sanitize_upstream_error("a http://one.test/x b https://two.test?y=1 c"),
        "a one.test b two.test c"
    );
    assert_eq!(sanitize_upstream_error("https://"), "");
    assert_eq!(sanitize_upstream_error("http:// x"), " x");
    assert_eq!(sanitize_upstream_error("see https://h.test"), "see h.test");
}

#[test]
fn sanitizer_leaves_other_text_alone() {
    assert_eq!(sanitize_upstream_error(""), "");
    assert_eq!(sanitize_upstream_error("connection refused"), "connection refused");
    assert_eq!(sanitize_upstream_error("ftp://files.test/x"), "ftp://files.test/x");
    assert_eq!(sanitize_upstream_error("http:/not-a-url"), "http:/not-a-url");
    assert_eq!(sanitize_upstream_error("HTTPS://UPPER.test/x"), "HTTPS://UPPER.test/x");
}
