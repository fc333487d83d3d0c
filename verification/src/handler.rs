//! The connection handler: what to do with one accepted connection.
//!
//! The handler itself touches neither the connection nor the disk. It is a
//! small state machine: the caller reports what happened (the request line
//! arrived, a file was read or could not be read), and the handler answers with
//! the next thing to do. A connection ends in one of two ways: a response is
//! written and the connection is closed, or the connection subscribes to change
//! notifications and stays open.

use vstd::prelude::*;
use vstd::utf8::encode_utf8;
use crate::mime::{
    get_mime_type,
    lemma_extension_of_dotted_name,
    lemma_no_extension_without_inner_dot,
    mime_of_extension,
    mime_of_path,
    path_file_name,
};
use crate::reload::{
    greeting,
    greeting_bytes,
    is_sentinel,
    lemma_sentinel_shape,
    reload_script,
    INITIAL_FRAME,
    SENTINEL,
    STREAM_HEAD,
};
use crate::request::{
    get_line,
    is_plain_path,
    lemma_get_line_round_trip,
    parse_request_path,
    request_path,
};
use crate::response::{
    composed,
    contains_bytes,
    head_text,
    lemma_not_found_page_shows_path,
    not_found_bytes,
    not_found_page,
    Response,
    ResponseView,
    Status,
    HTML,
};

verus! {

/// The file that stands for a directory.
pub const INDEX_FILE: &'static str = "index.html";

/// Where the handling of a connection stands.
#[derive(Debug, PartialEq, Eq)]
pub enum Handler {
    /// Nothing has been read from the connection yet.
    AwaitingRequest,
    /// The file at `path` under the served root is being read.
    AwaitingFile { path: String },
    /// The index file of the directory at `path` is being read.
    AwaitingIndex { path: String },
    /// The connection has been answered or has subscribed.
    Finished,
}

/// What happened since the handler's last answer.
#[derive(Debug, PartialEq, Eq)]
pub enum Event {
    /// The first line of the request, or `None` where the peer sent none.
    Request(Option<String>),
    /// The file asked for was read; these are its bytes.
    Found(Vec<u8>),
    /// The file asked for does not exist or cannot be read.
    Missing,
}

/// What the caller is to do next.
#[derive(Debug, PartialEq, Eq)]
pub enum Action {
    /// Read the file at `path` under the served root, and report the result.
    ReadFile { path: String },
    /// Read [`INDEX_FILE`] in the directory at `directory` under the served
    /// root, and report the result.
    ReadIndex { directory: String },
    /// Write the response and close the connection.
    Respond { response: Response },
    /// Turn off write delay on the connection, write `greeting`, flush, and
    /// hand the connection to the subscriber registry.
    Subscribe { greeting: Vec<u8> },
    /// The event does not fit the handler's state: do nothing.
    Ignore,
}

/// A handler state as a mathematical value.
pub enum HandlerView {
    AwaitingRequest,
    AwaitingFile { path: Seq<char> },
    AwaitingIndex { path: Seq<char> },
    Finished,
}

/// An event as a mathematical value.
pub enum EventView {
    Request(Option<Seq<char>>),
    Found(Seq<u8>),
    Missing,
}

/// An action as a mathematical value.
pub enum ActionView {
    ReadFile { path: Seq<char> },
    ReadIndex { directory: Seq<char> },
    Respond { response: ResponseView },
    Subscribe { greeting: Seq<u8> },
    Ignore,
}

impl View for Handler {
    type V = HandlerView;

    open spec fn view(&self) -> HandlerView {
        match self {
            Handler::AwaitingRequest => HandlerView::AwaitingRequest,
            Handler::AwaitingFile { path } => HandlerView::AwaitingFile { path: path@ },
            Handler::AwaitingIndex { path } => HandlerView::AwaitingIndex { path: path@ },
            Handler::Finished => HandlerView::Finished,
        }
    }
}

impl View for Event {
    type V = EventView;

    open spec fn view(&self) -> EventView {
        match self {
            Event::Request(Some(line)) => EventView::Request(Some(line@)),
            Event::Request(None) => EventView::Request(None),
            Event::Found(bytes) => EventView::Found(bytes@),
            Event::Missing => EventView::Missing,
        }
    }
}

impl View for Action {
    type V = ActionView;

    open spec fn view(&self) -> ActionView {
        match self {
            Action::ReadFile { path } => ActionView::ReadFile { path: path@ },
            Action::ReadIndex { directory } => ActionView::ReadIndex { directory: directory@ },
            Action::Respond { response } => ActionView::Respond { response: response@ },
            Action::Subscribe { greeting } => ActionView::Subscribe { greeting: greeting@ },
            Action::Ignore => ActionView::Ignore,
        }
    }
}

/// The response for the file at `path`, whose bytes are `content`.
pub open spec fn file_response(path: Seq<char>, content: Seq<u8>) -> ResponseView {
    composed(Status::Success, mime_of_path(path), content)
}

/// The response for a directory whose index file holds `content`.
pub open spec fn index_response(content: Seq<u8>) -> ResponseView {
    composed(Status::Success, Some(HTML@), content)
}

/// The response for a path under which nothing was found.
pub open spec fn not_found_response(path: Seq<char>) -> ResponseView {
    composed(Status::NotFound, Some(HTML@), not_found_page(path))
}

/// How a connection ends once neither the file at `path` nor an index file
/// under it could be read: a request for the reserved path subscribes, any
/// other gets the not-found page.
pub open spec fn fallback(path: Seq<char>) -> ActionView {
    if path == SENTINEL@ {
        ActionView::Subscribe { greeting: greeting() }
    } else {
        ActionView::Respond { response: not_found_response(path) }
    }
}

impl HandlerView {
    /// The handler's rule: the state after `event`, and what to do next.
    ///
    /// The first match wins: the file itself, then the index file of the
    /// directory, then the reserved path, then the not-found page. A missing
    /// request line counts as an empty one. An event that does not fit the
    /// state changes nothing.
    pub open spec fn step(self, event: EventView) -> (HandlerView, ActionView) {
        match (self, event) {
            (HandlerView::AwaitingRequest, EventView::Request(line)) => {
                let path = request_path(
                    match line {
                        Some(text) => text,
                        None => Seq::empty(),
                    },
                );
                (HandlerView::AwaitingFile { path }, ActionView::ReadFile { path })
            },
            (HandlerView::AwaitingFile { path }, EventView::Found(content)) => (
                HandlerView::Finished,
                ActionView::Respond { response: file_response(path, content) },
            ),
            (HandlerView::AwaitingFile { path }, EventView::Missing) => (
                HandlerView::AwaitingIndex { path },
                ActionView::ReadIndex { directory: path },
            ),
            (HandlerView::AwaitingIndex { path }, EventView::Found(content)) => (
                HandlerView::Finished,
                ActionView::Respond { response: index_response(content) },
            ),
            (HandlerView::AwaitingIndex { path }, EventView::Missing) => (
                HandlerView::Finished,
                fallback(path),
            ),
            (state, _) => (state, ActionView::Ignore),
        }
    }
}

impl Handler {
    /// The handler for a connection that has just been accepted.
    pub fn new() -> (handler: Handler)
        ensures
            handler@ == HandlerView::AwaitingRequest,
    {
        Handler::AwaitingRequest
    }

    /// Whether the connection has been answered or has subscribed.
    pub fn is_finished(&self) -> (finished: bool)
        ensures
            finished == (self@ == HandlerView::Finished),
    {
        match self {
            Handler::Finished => true,
            _ => false,
        }
    }

    /// Takes in `event` and says what to do next.
    pub fn step(self, event: Event) -> (next: (Handler, Action))
        ensures
            (next.0@, next.1@) == self@.step(event@),
    {
        match self {
            Handler::AwaitingRequest => match event {
                Event::Request(line) => {
                    let path = match &line {
                        Some(text) => parse_request_path(text.as_str()),
                        None => {
                            proof {
                                reveal_strlit("");
                            }
                            assert(""@ =~= Seq::<char>::empty());
                            parse_request_path("")
                        },
                    };
                    (Handler::AwaitingFile { path: path.to_owned() }, Action::ReadFile {
                        path: path.to_owned(),
                    })
                },
                _ => (Handler::AwaitingRequest, Action::Ignore),
            },
            Handler::AwaitingFile { path } => match event {
                Event::Found(content) => {
                    let mime = get_mime_type(path.as_str());
                    let response = Response::compose(Status::Success, mime, content);
                    (Handler::Finished, Action::Respond { response })
                },
                Event::Missing => {
                    let directory = path.clone();
                    (Handler::AwaitingIndex { path }, Action::ReadIndex { directory })
                },
                _ => (Handler::AwaitingFile { path }, Action::Ignore),
            },
            Handler::AwaitingIndex { path } => match event {
                Event::Found(content) => {
                    let response = Response::compose(Status::Success, Some(HTML), content);
                    (Handler::Finished, Action::Respond { response })
                },
                Event::Missing => {
                    if is_sentinel(path.as_str()) {
                        (Handler::Finished, Action::Subscribe { greeting: greeting_bytes() })
                    } else {
                        let page = not_found_bytes(path.as_str());
                        let response = Response::compose(Status::NotFound, Some(HTML), page);
                        (Handler::Finished, Action::Respond { response })
                    }
                },
                _ => (Handler::AwaitingIndex { path }, Action::Ignore),
            },
            Handler::Finished => (Handler::Finished, Action::Ignore),
        }
    }
}

/// A request line starts the lookup of the path it asks for: the handler's
/// first answer to any line is to read the file at that path.
pub proof fn lemma_request_starts_lookup(line: Seq<char>)
    ensures
        HandlerView::AwaitingRequest.step(EventView::Request(Some(line))) == (
            HandlerView::AwaitingFile { path: request_path(line) },
            ActionView::ReadFile { path: request_path(line) },
        ),
{
}

/// A `GET` request for a plain path starts the lookup of exactly that path.
pub proof fn lemma_get_request_reads_named_file(path: Seq<char>)
    requires
        is_plain_path(path),
    ensures
        HandlerView::AwaitingRequest.step(EventView::Request(Some(get_line(path)))) == (
            HandlerView::AwaitingFile { path },
            ActionView::ReadFile { path },
        ),
{
    lemma_get_line_round_trip(path);
}

/// A file that exists is served as it is. Whatever the request line, once the
/// file at its path has been read the connection is answered with status 200
/// and a body that is exactly the file's bytes, followed by the reload script
/// where, and only where, the content type is HTML.
pub proof fn lemma_existing_file_is_served(line: Seq<char>, content: Seq<u8>)
    ensures
        ({
            let path = request_path(line);
            let (lookup, _) = HandlerView::AwaitingRequest.step(EventView::Request(Some(line)));
            let (end, answer) = lookup.step(EventView::Found(content));
            &&& end == HandlerView::Finished
            &&& answer matches ActionView::Respond { response }
            &&& response.status == Status::Success
            &&& response.content_type == mime_of_path(path)
            &&& response.body == if response.content_type == Some(HTML@) {
                content + encode_utf8(reload_script())
            } else {
                content
            }
        }),
{
    assert(content + Seq::<u8>::empty() =~= content);
}

/// A path under which there is neither a file nor an index file, and which is
/// not the reserved path, gets status 404 and a page that shows the path.
pub proof fn lemma_unknown_path_is_not_found(line: Seq<char>)
    requires
        request_path(line) != SENTINEL@,
    ensures
        ({
            let path = request_path(line);
            let (lookup, _) = HandlerView::AwaitingRequest.step(EventView::Request(Some(line)));
            let (index, second) = lookup.step(EventView::Missing);
            let (end, answer) = index.step(EventView::Missing);
            &&& second == ActionView::ReadIndex { directory: path }
            &&& end == HandlerView::Finished
            &&& answer matches ActionView::Respond { response }
            &&& response.status == Status::NotFound
            &&& response.content_type == Some(HTML@)
            &&& response.body == not_found_page(path) + encode_utf8(reload_script())
            &&& contains_bytes(response.body, encode_utf8(path))
        }),
{
    let path = request_path(line);
    let page = not_found_page(path);
    let body = page + encode_utf8(reload_script());
    lemma_not_found_page_shows_path(path);
    let at = choose|at: int|
        0 <= at && at + encode_utf8(path).len() <= page.len() && #[trigger] page.subrange(
            at,
            at + encode_utf8(path).len(),
        ) == encode_utf8(path);
    assert(body.subrange(at, at + encode_utf8(path).len()) =~= page.subrange(
        at,
        at + encode_utf8(path).len(),
    ));
}

/// A request for the reserved path, where no file and no index file stands
/// under that path, never gets a response: the connection is greeted with the
/// head of an event stream and the initial frame, and subscribes. After that
/// the handler has nothing more to say to it, whatever is reported.
pub proof fn lemma_sentinel_subscribes(line: Seq<char>, later: EventView)
    requires
        request_path(line) == SENTINEL@,
    ensures
        ({
            let (lookup, _) = HandlerView::AwaitingRequest.step(EventView::Request(Some(line)));
            let (index, _) = lookup.step(EventView::Missing);
            let (end, answer) = index.step(EventView::Missing);
            &&& answer == ActionView::Subscribe {
                greeting: encode_utf8(STREAM_HEAD@) + encode_utf8(INITIAL_FRAME@),
            }
            &&& end == HandlerView::Finished
            &&& end.step(later) == (HandlerView::Finished, ActionView::Ignore)
        }),
{
}

/// The `GET` request for the reserved path subscribes, where no file and no
/// index file stands under that path.
pub proof fn lemma_get_sentinel_subscribes()
    ensures
        ({
            let line = get_line(SENTINEL@);
            let (lookup, first) = HandlerView::AwaitingRequest.step(EventView::Request(Some(line)));
            let (index, _) = lookup.step(EventView::Missing);
            let (end, answer) = index.step(EventView::Missing);
            &&& first == ActionView::ReadFile { path: SENTINEL@ }
            &&& answer == ActionView::Subscribe { greeting: greeting() }
            &&& end == HandlerView::Finished
        }),
{
    lemma_sentinel_shape();
    lemma_get_line_round_trip(SENTINEL@);
}

/// A directory is served through its index file: where the path itself cannot
/// be read as a file but its index file can, the connection is answered with
/// status 200, content type HTML, and the index file's bytes followed by the
/// reload script.
pub proof fn lemma_directory_serves_index(line: Seq<char>, content: Seq<u8>)
    ensures
        ({
            let path = request_path(line);
            let (lookup, _) = HandlerView::AwaitingRequest.step(EventView::Request(Some(line)));
            let (index, second) = lookup.step(EventView::Missing);
            let (end, answer) = index.step(EventView::Found(content));
            &&& second == ActionView::ReadIndex { directory: path }
            &&& end == HandlerView::Finished
            &&& answer matches ActionView::Respond { response }
            &&& response.status == Status::Success
            &&& response.content_type == Some(HTML@)
            &&& response.body == content + encode_utf8(reload_script())
        }),
{
}

/// The content type of a served file follows the table. For a file whose
/// name is a stem, a dot and the extension `ext`, the response announces the
/// table's entry for `ext`, and its head carries the matching `Content-Type`
/// line; where the table has no entry for `ext`, the response announces no type
/// and its head has no such line.
pub proof fn lemma_content_type_follows_table(
    path: Seq<char>,
    stem: Seq<char>,
    ext: Seq<char>,
    content: Seq<u8>,
)
    requires
        path_file_name(path) == Some(stem + seq!['.'] + ext),
        stem.len() > 0,
        !ext.contains('.'),
    ensures
        ({
            let (_, answer) = (HandlerView::AwaitingFile { path }).step(EventView::Found(content));
            &&& answer matches ActionView::Respond { response }
            &&& response.content_type == mime_of_extension(ext)
            &&& response.wire() == encode_utf8(
                head_text(Status::Success, response.body.len(), mime_of_extension(ext)),
            ) + response.body
        }),
{
    lemma_extension_of_dotted_name(stem, ext);
}

/// A file whose name has no extension is served as it is, without a content
/// type: that holds of a path that ends in no file name, and of a file name
/// with no dot beyond its first character.
pub proof fn lemma_no_extension_no_content_type(path: Seq<char>, content: Seq<u8>)
    requires
        path_file_name(path) matches Some(name) ==> forall|k: int|
            0 < k < name.len() ==> name[k] != '.',
    ensures
        ({
            let (_, answer) = (HandlerView::AwaitingFile { path }).step(EventView::Found(content));
            &&& answer matches ActionView::Respond { response }
            &&& response.content_type is None
            &&& response.body == content
            &&& response.wire() == encode_utf8(head_text(Status::Success, content.len(), None))
                + content
        }),
{
    if let Some(name) = path_file_name(path) {
        lemma_no_extension_without_inner_dot(name);
    }
    assert(content + Seq::<u8>::empty() =~= content);
}

} // verus!
