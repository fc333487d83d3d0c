use devserve::handler::{Action, Event, Handler, INDEX_FILE};
use devserve::reload::{greeting_bytes, script_text, SENTINEL};
use devserve::response::{Response, Status};

fn request(line: &str) -> (Handler, Action) {
    Handler::new().step(Event::Request(Some(line.to_string())))
}

fn with_script(content: &[u8]) -> Vec<u8> {
    let mut body = content.to_vec();
    body.extend_from_slice(script_text().as_bytes());
    body
}

fn response_of(action: Action) -> Response {
    match action {
        Action::Respond { response } => response,
        other => panic!("expected a response, got {:?}", other),
    }
}

#[test]
fn index_file_name() {
    assert_eq!(INDEX_FILE, "index.html");
}

#[test]
fn new_handler_awaits_the_request() {
    assert_eq!(Handler::new(), Handler::AwaitingRequest);
    assert!(!Handler::new().is_finished());
    assert!(Handler::Finished.is_finished());
}

#[test]
fn request_line_starts_the_lookup() {
    let (state, action) = request("GET /docs/intro.html HTTP/1.1");
    assert_eq!(state, Handler::AwaitingFile { path: "docs/intro.html".to_string() });
    assert_eq!(action, Action::ReadFile { path: "docs/intro.html".to_string() });
    assert!(!state.is_finished());
}

#[test]
fn missing_request_line_counts_as_empty() {
    let (state, action) = Handler::new().step(Event::Request(None));
    assert_eq!(state, Handler::AwaitingFile { path: String::new() });
    assert_eq!(action, Action::ReadFile { path: String::new() });
    let (same_state, same_action) = request("");
    assert_eq!(same_state, state);
    assert_eq!(same_action, action);
}

#[test]
fn existing_file_is_served_unchanged() {
    let content = vec![0x89u8, b'P', b'N', b'G', 0x00, 0xff];
    let (state, _) = request("GET /img/logo.png HTTP/1.1");
    let (state, action) = state.step(Event::Found(content.clone()));
    assert!(state.is_finished());
    let response = response_of(action);
    assert_eq!(response.status, Status::Success);
    assert_eq!(response.content_type, Some("image/png"));
    assert_eq!(response.body, content);
}

#[test]
fn existing_html_file_is_served_with_the_script() {
    let (state, _) = request("GET /about.html HTTP/1.1");
    let (state, action) = state.step(Event::Found(b"<h1>About</h1>".to_vec()));
    assert_eq!(state, Handler::Finished);
    let response = response_of(action);
    assert_eq!(response.status, Status::Success);
    assert_eq!(response.content_type, Some("text/html"));
    assert_eq!(response.body, with_script(b"<h1>About</h1>"));
}

#[test]
fn existing_file_without_known_type_has_no_content_type() {
    let (state, _) = request("GET /src/main.rs HTTP/1.1");
    let (_, action) = state.step(Event::Found(b"fn main() {}".to_vec()));
    let response = response_of(action);
    assert_eq!(response.status, Status::Success);
    assert_eq!(response.content_type, None);
    assert_eq!(response.body, b"fn main() {}".to_vec());
    assert_eq!(
        response.to_bytes(),
        b"HTTP/1.1 200 OK\r\nContent-Length: 12\r\nCache-Control: no-cache\r\n\r\nfn main() {}"
            .to_vec()
    );
}

#[test]
fn served_file_announces_the_type_of_its_extension() {
    let (state, _) = request("GET /site.css HTTP/1.1");
    let (_, action) = state.step(Event::Found(b"a{}".to_vec()));
    assert_eq!(
        response_of(action).to_bytes(),
        b"HTTP/1.1 200 OK\r\nContent-Length: 3\r\nCache-Control: no-cache\r\nContent-Type: text/css\r\n\r\na{}"
            .to_vec()
    );
}

#[test]
fn missing_file_turns_to_the_index_file() {
    let (state, _) = request("GET /docs HTTP/1.1");
    let (state, action) = state.step(Event::Missing);
    assert_eq!(state, Handler::AwaitingIndex { path: "docs".to_string() });
    assert_eq!(action, Action::ReadIndex { directory: "docs".to_string() });
    assert!(!state.is_finished());
}

#[test]
fn directory_serves_its_index_file_as_html() {
    let (state, _) = request("GET /docs HTTP/1.1");
    let (state, _) = state.step(Event::Missing);
    let (state, action) = state.step(Event::Found(b"<ul></ul>".to_vec()));
    assert!(state.is_finished());
    let response = response_of(action);
    assert_eq!(response.status, Status::Success);
    assert_eq!(response.content_type, Some("text/html"));
    assert_eq!(response.body, with_script(b"<ul></ul>"));
}

#[test]
fn directory_with_a_dotted_name_still_serves_html() {
    let (state, _) = request("GET /release.tar HTTP/1.1");
    let (state, _) = state.step(Event::Missing);
    let (_, action) = state.step(Event::Found(b"x".to_vec()));
    assert_eq!(response_of(action).content_type, Some("text/html"));
}

#[test]
fn unknown_path_gets_the_not_found_page() {
    let (state, _) = request("GET /nothing/here.txt HTTP/1.1");
    let (state, _) = state.step(Event::Missing);
    let (state, action) = state.step(Event::Missing);
    assert!(state.is_finished());
    let response = response_of(action);
    assert_eq!(response.status, Status::NotFound);
    assert_eq!(response.content_type, Some("text/html"));
    assert_eq!(
        response.body,
        with_script(b"<!DOCTYPE html><h1>404: Not found</h1><p>page nothing/here.txt not found</p>")
    );
    let text = String::from_utf8(response.to_bytes()).unwrap();
    assert!(text.starts_with("HTTP/1.1 404 NOT FOUND\r\n"));
    assert!(text.contains("nothing/here.txt"));
}

#[test]
fn query_string_that_matches_no_file_is_not_found() {
    let (state, action) = request("GET /index.html?draft=1 HTTP/1.1");
    assert_eq!(action, Action::ReadFile { path: "index.html?draft=1".to_string() });
    let (state, _) = state.step(Event::Missing);
    let (_, action) = state.step(Event::Missing);
    let response = response_of(action);
    assert_eq!(response.status, Status::NotFound);
    assert!(String::from_utf8(response.body).unwrap().contains("index.html?draft=1"));
}

#[test]
fn reserved_path_subscribes() {
    let (state, action) = request(&format!("GET /{} HTTP/1.1", SENTINEL));
    assert_eq!(action, Action::ReadFile { path: SENTINEL.to_string() });
    let (state, action) = state.step(Event::Missing);
    assert_eq!(action, Action::ReadIndex { directory: SENTINEL.to_string() });
    let (state, action) = state.step(Event::Missing);
    assert!(state.is_finished());
    assert_eq!(action, Action::Subscribe { greeting: greeting_bytes() });
    match action {
        Action::Subscribe { greeting } => {
            assert!(greeting.ends_with(b"\r\n\r\ndata: initial\n\n"));
            assert!(greeting.starts_with(b"HTTP/1.1 200 OK\r\nContent-Type: text/event-stream\r\n"));
        }
        other => panic!("expected a subscription, got {:?}", other),
    }
}

#[test]
fn file_under_the_reserved_path_wins_over_subscription() {
    let (state, _) = request(&format!("GET /{} HTTP/1.1", SENTINEL));
    let (state, action) = state.step(Event::Found(b"fn f() {}".to_vec()));
    assert!(state.is_finished());
    let response = response_of(action);
    assert_eq!(response.status, Status::Success);
    assert_eq!(response.content_type, None);
    assert_eq!(response.body, b"fn f() {}".to_vec());
}

#[test]
fn nearly_reserved_path_is_not_found() {
    let (state, _) = request(&format!("GET /{}x HTTP/1.1", SENTINEL));
    let (state, _) = state.step(Event::Missing);
    let (_, action) = state.step(Event::Missing);
    assert_eq!(response_of(action).status, Status::NotFound);
}

#[test]
fn finished_handler_ignores_everything() {
    let (state, _) = request("GET /a.txt HTTP/1.1");
    let (state, _) = state.step(Event::Found(Vec::new()));
    let (state, action) = state.step(Event::Missing);
    assert_eq!((state, action), (Handler::Finished, Action::Ignore));
    let (state, action) = Handler::Finished.step(Event::Found(vec![1]));
    assert_eq!((state, action), (Handler::Finished, Action::Ignore));
    let (state, action) = Handler::Finished.step(Event::Request(Some("GET / HTTP/1.1".to_string())));
    assert_eq!((state, action), (Handler::Finished, Action::Ignore));
}

#[test]
fn events_out_of_turn_are_ignored() {
    let (state, action) = Handler::new().step(Event::Missing);
    assert_eq!((state, action), (Handler::AwaitingRequest, Action::Ignore));
    let (state, action) = Handler::new().step(Event::Found(vec![1, 2]));
    assert_eq!((state, action), (Handler::AwaitingRequest, Action::Ignore));
    let (state, _) = request("GET /a HTTP/1.1");
    let (state, action) = state.step(Event::Request(Some("GET /b HTTP/1.1".to_string())));
    assert_eq!(state, Handler::AwaitingFile { path: "a".to_string() });
    assert_eq!(action, Action::Ignore);
    let (state, _) = state.step(Event::Missing);
    let (state, action) = state.step(Event::Request(None));
    assert_eq!(state, Handler::AwaitingIndex { path: "a".to_string() });
    assert_eq!(action, Action::Ignore);
}
