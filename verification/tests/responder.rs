use hello_services::responder::{
    dispatch, handle_request, line_ends_request, render_response, str_eq, RouteOutcome,
};

const OK_BODY: &str = "<!DOCTYPE html>\n<html>\n<head>\n<title>OK!</title>\n</head>\n<body>\n<p>Everything is ok</p>\n</body>\n</html>";
const NOT_FOUND_BODY: &str = "<!DOCTYPE html>\n<html>\n<head>\n<title>NOT FOUND!</title>\n</head>\n<body>\n<p>Lost..</p>\n</body>\n</html>";

fn lines(raw: &[&str]) -> Vec<String> {
    raw.iter().map(|s| s.to_string()).collect()
}

#[test]
fn ok_route_yields_200_response() {
    let response = handle_request(&lines(&["GET /ok HTTP/1.1"])).unwrap();
    assert_eq!(
        response,
        format!(
            "HTTP/1.1 200 OK\r\nContent-Length: {}\r\n\r\n{}",
            OK_BODY.len(),
            OK_BODY
        )
    );
    assert_eq!(
        response,
        "HTTP/1.1 200 OK\r\nContent-Length: 103\r\n\r\n<!DOCTYPE html>\n<html>\n<head>\n<title>OK!</title>\n</head>\n<body>\n<p>Everything is ok</p>\n</body>\n</html>"
    );
}

#[test]
fn missing_route_yields_404_response() {
    let response = handle_request(&lines(&["GET /missing HTTP/1.1"])).unwrap();
    assert_eq!(
        response,
        format!(
            "HTTP/1.1 404 NOT FOUND\r\nContent-Length: {}\r\n\r\n{}",
            NOT_FOUND_BODY.len(),
            NOT_FOUND_BODY
        )
    );
    assert_eq!(
        response,
        "HTTP/1.1 404 NOT FOUND\r\nContent-Length: 100\r\n\r\n<!DOCTYPE html>\n<html>\n<head>\n<title>NOT FOUND!</title>\n</head>\n<body>\n<p>Lost..</p>\n</body>\n</html>"
    );
}

#[test]
fn route_match_is_exact() {
    assert_eq!(dispatch("GET /ok HTTP/1.1"), RouteOutcome::Found);
    let near_misses = [
        "get /ok HTTP/1.1",
        "GET /Ok HTTP/1.1",
        "GET /ok HTTP/1.1 ",
        " GET /ok HTTP/1.1",
        "GET /ok HTTP/1.0",
        "GET /ok http/1.1",
        "POST /ok HTTP/1.1",
        "GET /ok",
        "GET /ok/ HTTP/1.1",
        "",
    ];
    for line in near_misses {
        assert_eq!(dispatch(line), RouteOutcome::NotFound, "line {line:?}");
        let response = handle_request(&lines(&[line])).unwrap();
        assert!(
            response.starts_with("HTTP/1.1 404 NOT FOUND\r\n"),
            "line {line:?}"
        );
    }
}

#[test]
fn same_request_twice_gets_identical_bytes() {
    for line in ["GET /ok HTTP/1.1", "GET /missing HTTP/1.1"] {
        let first = handle_request(&lines(&[line])).unwrap();
        let second = handle_request(&lines(&[line])).unwrap();
        assert_eq!(first.as_bytes(), second.as_bytes());
    }
}

#[test]
fn content_length_matches_body_bytes() {
    for outcome in [RouteOutcome::Found, RouteOutcome::NotFound] {
        let response = render_response(&outcome);
        let (head, body) = response.split_once("\r\n\r\n").unwrap();
        let (_, declared) = head.split_once("Content-Length: ").unwrap();
        let declared: usize = declared.parse().unwrap();
        assert_eq!(declared, body.len());
    }
}

#[test]
fn blank_line_only_is_fatal() {
    assert!(handle_request(&lines(&[])).is_none());
}

#[test]
fn header_block_ends_at_first_empty_line() {
    assert!(line_ends_request(""));
    assert!(!line_ends_request(" "));
    assert!(!line_ends_request("GET /ok HTTP/1.1"));
    assert!(!line_ends_request("Host: localhost"));
}

#[test]
fn later_header_lines_are_not_inspected() {
    let response = handle_request(&lines(&[
        "GET /ok HTTP/1.1",
        "Host: localhost",
        "User-Agent: curl",
    ]))
    .unwrap();
    assert!(response.starts_with("HTTP/1.1 200 OK\r\n"));
}

#[test]
fn variant_getters_carry_their_parts() {
    assert_eq!(RouteOutcome::Found.status_line(), "HTTP/1.1 200 OK");
    assert_eq!(RouteOutcome::NotFound.status_line(), "HTTP/1.1 404 NOT FOUND");
    assert_eq!(RouteOutcome::Found.body(), OK_BODY);
    assert_eq!(RouteOutcome::NotFound.body(), NOT_FOUND_BODY);
}

#[test]
fn str_eq_is_exact_equality() {
    assert!(str_eq("", ""));
    assert!(str_eq("abc", "abc"));
    assert!(!str_eq("abc", "abd"));
    assert!(!str_eq("abc", "ab"));
    assert!(!str_eq("ab", "abc"));
    assert!(!str_eq("abc", "Abc"));
}
