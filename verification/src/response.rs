//! Responses: what the server answers, and how the answer looks on the wire.

use vstd::prelude::*;
use vstd::string::*;
use vstd::utf8::encode_utf8;
use crate::reload::{reload_script, script_text};
use crate::text::{decimal, extend_bytes, push_decimal, str_eq, text_of};

verus! {

/// The content type of HTML pages, the only one that gets the reload script.
pub const HTML: &'static str = "text/html";

/// The not-found page up to the path it names.
pub const NOT_FOUND_OPEN: &'static str = "<!DOCTYPE html><h1>404: Not found</h1><p>page ";

/// The not-found page after the path it names.
pub const NOT_FOUND_CLOSE: &'static str = " not found</p>";

/// The outcome a response reports.
#[derive(Clone, Copy, Debug, PartialEq, Eq, Structural)]
pub enum Status {
    /// The requested file was found.
    Success,
    /// Nothing was found under the requested path.
    NotFound,
}

impl Status {
    /// Code and reason as they stand in the status line.
    pub open spec fn reason(self) -> Seq<char> {
        match self {
            Status::Success => "200 OK"@,
            Status::NotFound => "404 NOT FOUND"@,
        }
    }

    /// Code and reason as they stand in the status line.
    pub fn reason_text(self) -> (text: &'static str)
        ensures
            text@ == self.reason(),
    {
        match self {
            Status::Success => "200 OK",
            Status::NotFound => "404 NOT FOUND",
        }
    }
}

/// A response, ready to be written.
#[derive(Debug, PartialEq, Eq)]
pub struct Response {
    /// What the status line reports.
    pub status: Status,
    /// The content type to announce, if one is known.
    pub content_type: Option<&'static str>,
    /// The bytes after the head, exactly as sent.
    pub body: Vec<u8>,
}

/// A response as a mathematical value.
pub struct ResponseView {
    pub status: Status,
    pub content_type: Option<Seq<char>>,
    pub body: Seq<u8>,
}

impl View for Response {
    type V = ResponseView;

    open spec fn view(&self) -> ResponseView {
        ResponseView {
            status: self.status,
            content_type: text_of(self.content_type),
            body: self.body@,
        }
    }
}

/// What follows the content of a page of the given type: the reload script for
/// HTML, nothing for anything else.
pub open spec fn trailer(content_type: Option<Seq<char>>) -> Seq<u8> {
    if content_type == Some(HTML@) {
        encode_utf8(reload_script())
    } else {
        Seq::empty()
    }
}

/// The response that carries `content` under the given status and type: its
/// body is the content, followed by the reload script where the type is HTML.
pub open spec fn composed(
    status: Status,
    content_type: Option<Seq<char>>,
    content: Seq<u8>,
) -> ResponseView {
    ResponseView { status, content_type, body: content + trailer(content_type) }
}

/// The page shown when nothing is found under `path`: it names the path
/// between [`NOT_FOUND_OPEN`] and [`NOT_FOUND_CLOSE`].
pub open spec fn not_found_page(path: Seq<char>) -> Seq<u8> {
    encode_utf8(NOT_FOUND_OPEN@) + encode_utf8(path) + encode_utf8(NOT_FOUND_CLOSE@)
}

/// The header line that announces the content type: present where a type is
/// known, absent where none is.
pub open spec fn content_type_line(content_type: Option<Seq<char>>) -> Seq<char> {
    match content_type {
        Some(mime) => "Content-Type: "@ + mime + "\r\n"@,
        None => Seq::empty(),
    }
}

/// The head of a response: the status line, the length of the body, the
/// caching rule, the content type where one is known, and the empty line that
/// ends the head.
pub open spec fn head_text(
    status: Status,
    length: nat,
    content_type: Option<Seq<char>>,
) -> Seq<char> {
    "HTTP/1.1 "@ + status.reason() + "\r\n"@ + "Content-Length: "@ + decimal(length) + "\r\n"@
        + "Cache-Control: no-cache\r\n"@ + content_type_line(content_type) + "\r\n"@
}

/// Whether `needle` occurs somewhere in `hay`.
pub open spec fn contains_bytes(hay: Seq<u8>, needle: Seq<u8>) -> bool {
    exists|at: int|
        0 <= at && at + needle.len() <= hay.len() && #[trigger] hay.subrange(
            at,
            at + needle.len(),
        ) == needle
}

impl ResponseView {
    /// The head that announces this response.
    pub open spec fn head(self) -> Seq<char> {
        head_text(self.status, self.body.len(), self.content_type)
    }

    /// The bytes that go over the wire: the head, then the body.
    pub open spec fn wire(self) -> Seq<u8> {
        encode_utf8(self.head()) + self.body
    }
}

/// The bytes of the page shown when nothing is found under `path`.
pub fn not_found_bytes(path: &str) -> (page: Vec<u8>)
    ensures
        page@ == not_found_page(path@),
{
    let mut page: Vec<u8> = Vec::new();
    extend_bytes(&mut page, NOT_FOUND_OPEN.as_bytes());
    extend_bytes(&mut page, path.as_bytes());
    extend_bytes(&mut page, NOT_FOUND_CLOSE.as_bytes());
    page
}

impl Response {
    /// Wraps `content` into a response, appending the reload script where the
    /// content type is HTML.
    pub fn compose(
        status: Status,
        content_type: Option<&'static str>,
        content: Vec<u8>,
    ) -> (response: Response)
        ensures
            response@ == composed(status, text_of(content_type), content@),
    {
        let html = match content_type {
            Some(mime) => str_eq(mime, HTML),
            None => false,
        };
        let mut body = content;
        if html {
            let script = script_text();
            extend_bytes(&mut body, script.as_str().as_bytes());
        }
        assert(body@ =~= content@ + trailer(text_of(content_type)));
        Response { status, content_type, body }
    }

    /// The head that announces this response.
    pub fn head(&self) -> (head: String)
        ensures
            head@ == self@.head(),
    {
        let mut head = "HTTP/1.1 ".to_owned();
        head.append(self.status.reason_text());
        head.append("\r\n");
        head.append("Content-Length: ");
        push_decimal(&mut head, self.body.len());
        head.append("\r\n");
        head.append("Cache-Control: no-cache\r\n");
        match self.content_type {
            Some(mime) => {
                head.append("Content-Type: ");
                head.append(mime);
                head.append("\r\n");
            },
            None => {},
        }
        head.append("\r\n");
        assert(head@ =~= self@.head());
        head
    }

    /// The bytes to write to the connection: the head, then the body.
    pub fn to_bytes(&self) -> (bytes: Vec<u8>)
        ensures
            bytes@ == self@.wire(),
    {
        let head = self.head();
        let mut bytes: Vec<u8> = Vec::new();
        extend_bytes(&mut bytes, head.as_str().as_bytes());
        extend_bytes(&mut bytes, self.body.as_slice());
        bytes
    }
}

/// The reload script goes to HTML and to nothing else: a composed response
/// carries its content unchanged, followed by the script exactly where its
/// content type is HTML.
pub proof fn lemma_script_only_for_html(
    status: Status,
    content_type: Option<Seq<char>>,
    content: Seq<u8>,
)
    ensures
        content_type == Some(HTML@) ==> composed(status, content_type, content).body == content
            + encode_utf8(reload_script()),
        content_type != Some(HTML@) ==> composed(status, content_type, content).body == content,
{
    assert(content + Seq::<u8>::empty() =~= content);
}

/// The not-found page shows the path that was asked for.
pub proof fn lemma_not_found_page_shows_path(path: Seq<char>)
    ensures
        contains_bytes(not_found_page(path), encode_utf8(path)),
{
    let before = encode_utf8(NOT_FOUND_OPEN@);
    let page = not_found_page(path);
    let needle = encode_utf8(path);
    let at = before.len() as int;
    assert(page.subrange(at, at + needle.len()) =~= needle);
}

} // verus!
