use trunk_common::parse_public_url;

#[test]
fn bare_value_is_wrapped() {
    assert_eq!(parse_public_url("foo"), "/foo/");
}

#[test]
fn leading_slash_is_kept() {
    assert_eq!(parse_public_url("/foo"), "/foo/");
}

#[test]
fn trailing_slash_is_kept() {
    assert_eq!(parse_public_url("foo/"), "/foo/");
}

#[test]
fn canonical_value_is_unchanged() {
    assert_eq!(parse_public_url("/foo/"), "/foo/");
}

#[test]
fn empty_value_becomes_one_slash() {
    assert_eq!(parse_public_url(""), "/");
}

#[test]
fn interior_slashes_are_kept() {
    assert_eq!(parse_public_url("a//b/c"), "/a//b/c/");
}

#[test]
fn normalizing_twice_is_normalizing_once() {
    for raw in ["", "/", "foo", "/foo", "foo/", "/foo/", "a//b/c", "//"] {
        let once = parse_public_url(raw);
        assert_eq!(parse_public_url(&once), once);
    }
}

#[test]
fn unslashed_value_gets_exactly_one_slash_each_side() {
    for raw in ["foo", "a//b/c", "x"] {
        assert_eq!(parse_public_url(raw), format!("/{}/", raw));
    }
}
