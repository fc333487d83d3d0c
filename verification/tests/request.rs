use devserve::request::{is_whitespace, parse_request_path, METHOD, VERSION};

fn by_std(line: &str) -> &str {
    line.trim_start_matches("GET")
        .trim_end_matches("HTTP/1.1")
        .trim()
        .trim_start_matches("/")
}

#[test]
fn get_line_gives_the_path() {
    assert_eq!(parse_request_path("GET /index.html HTTP/1.1"), "index.html");
    assert_eq!(parse_request_path("GET /css/site.css HTTP/1.1"), "css/site.css");
}

#[test]
fn root_request_gives_the_empty_path() {
    assert_eq!(parse_request_path("GET / HTTP/1.1"), "");
    assert_eq!(parse_request_path(""), "");
    assert_eq!(parse_request_path("GET"), "");
    assert_eq!(parse_request_path("HTTP/1.1"), "");
    assert_eq!(parse_request_path("GETHTTP/1.1"), "");
    assert_eq!(parse_request_path("   "), "");
}

#[test]
fn query_string_stays_in_the_path() {
    assert_eq!(parse_request_path("GET /page.html?x=1&y=2 HTTP/1.1"), "page.html?x=1&y=2");
}

#[test]
fn other_methods_are_not_rejected() {
    assert_eq!(parse_request_path("POST /form HTTP/1.1"), "POST /form");
    assert_eq!(parse_request_path("HEAD / HTTP/1.1"), "HEAD /");
}

#[test]
fn other_versions_stay_in_the_path() {
    assert_eq!(parse_request_path("GET /a HTTP/1.0"), "a HTTP/1.0");
    assert_eq!(parse_request_path("GET /a"), "a");
}

#[test]
fn repeated_wrapping_is_stripped_repeatedly() {
    assert_eq!(parse_request_path("GETGET ///a//b HTTP/1.1HTTP/1.1"), "a//b");
    assert_eq!(parse_request_path("GET GET /a HTTP/1.1"), "GET /a");
    assert_eq!(parse_request_path("GET /a HTTP/1.1 HTTP/1.1"), "a HTTP/1.1");
}

#[test]
fn only_outer_white_space_is_trimmed() {
    assert_eq!(parse_request_path("GET \t /a b/c \r\n HTTP/1.1"), "a b/c");
    assert_eq!(parse_request_path("GET /a HTTP/1.1 "), "a HTTP/1.1");
    assert_eq!(parse_request_path(" GET /a HTTP/1.1"), "GET /a");
    assert_eq!(parse_request_path("GET / a HTTP/1.1"), " a");
}

#[test]
fn unicode_white_space_is_trimmed() {
    assert_eq!(parse_request_path("GET\u{a0}\u{2003}/caf\u{e9}\u{3000} HTTP/1.1"), "caf\u{e9}");
    assert_eq!(parse_request_path("GET\u{200b}/a HTTP/1.1"), "\u{200b}/a");
}

#[test]
fn method_and_version_words() {
    assert_eq!(METHOD, "GET");
    assert_eq!(VERSION, "HTTP/1.1");
}

#[test]
fn white_space_is_the_unicode_property() {
    let mut code: u32 = 0;
    while code <= 0x11_0000 {
        if let Some(c) = char::from_u32(code) {
            assert_eq!(is_whitespace(c), c.is_whitespace(), "U+{:04X}", code);
        }
        code += 1;
    }
}

#[test]
fn reading_agrees_with_the_string_methods() {
    let lines = vec![
        "GET /index.html HTTP/1.1",
        "GET / HTTP/1.1",
        "",
        "GET",
        "GE",
        "GETG",
        "GETGETGET",
        "HTTP/1.1",
        "HTTP/1.1HTTP/1.1",
        "TTP/1.1",
        "GETHTTP/1.1",
        "GET/HTTP/1.1",
        "GET //// HTTP/1.1",
        "GET /a/b/../c HTTP/1.1",
        "PUT /x HTTP/1.1",
        "GET /x HTTP/2",
        "  GET /x HTTP/1.1  ",
        "GET\t/x\tHTTP/1.1",
        "GET /\u{e9}t\u{e9}/\u{1f600}.html HTTP/1.1",
        "GET \u{2028}/x\u{85} HTTP/1.1",
        "GET /very-long-path-name-intentionally-used-to-get-update-notifications-please-do-not-name-your-files-like-this.rs HTTP/1.1",
        "/",
        "//",
        " / ",
        "GET /GET HTTP/1.1",
        "GET /HTTP/1.1 HTTP/1.1",
        "GET /a HTTP/1.1\r",
    ];
    for line in lines {
        assert_eq!(parse_request_path(line), by_std(line), "line {:?}", line);
    }
}
