//! The live-reload channel: its reserved path, what is sent over it, and the
//! script that makes a page listen to it.

use vstd::prelude::*;
use vstd::string::*;
use vstd::utf8::encode_utf8;
use crate::text::{extend_bytes, str_eq};

verus! {

/// The reserved path. A request for it subscribes the connection to change
/// notifications; it is long and odd so that no real file collides with it.
pub const SENTINEL: &'static str =
    "very-long-path-name-intentionally-used-to-get-update-notifications-please-do-not-name-your-files-like-this.rs";

/// The response head that opens an event stream.
pub const STREAM_HEAD: &'static str =
    "HTTP/1.1 200 OK\r\nContent-Type: text/event-stream\r\nCache-Control: no-cache\r\n\r\n";

/// The frame a subscriber gets at once when it subscribes.
pub const INITIAL_FRAME: &'static str = "data: initial\n\n";

/// The frame every subscriber gets when the served files have changed.
pub const UPDATE_FRAME: &'static str = "data: update\n\n";

/// The reload script up to the path it listens on.
pub const SCRIPT_OPEN: &'static str = "<script>new EventSource(\"/";

/// The reload script from the path on: reload the page on an `update` message.
pub const SCRIPT_CLOSE: &'static str =
    "\").onmessage = function (event) { if (event.data === \"update\") { location.reload(); } };</script>";

/// The script appended to every HTML page: it opens an event stream on
/// [`SENTINEL`] and reloads the page when an update arrives.
pub open spec fn reload_script() -> Seq<char> {
    SCRIPT_OPEN@ + SENTINEL@ + SCRIPT_CLOSE@
}

/// What a new subscriber is sent: the stream's head, then the initial frame.
pub open spec fn greeting() -> Seq<u8> {
    encode_utf8(STREAM_HEAD@) + encode_utf8(INITIAL_FRAME@)
}

/// Whether `path` is the reserved path.
pub fn is_sentinel(path: &str) -> (reserved: bool)
    ensures
        reserved == (path@ == SENTINEL@),
{
    str_eq(path, SENTINEL)
}

/// The text of the reload script.
pub fn script_text() -> (script: String)
    ensures
        script@ == reload_script(),
{
    let mut script = SCRIPT_OPEN.to_owned();
    script.append(SENTINEL);
    script.append(SCRIPT_CLOSE);
    script
}

/// The bytes to send to a connection that has just subscribed.
pub fn greeting_bytes() -> (bytes: Vec<u8>)
    ensures
        bytes@ == greeting(),
{
    let mut bytes: Vec<u8> = Vec::new();
    extend_bytes(&mut bytes, STREAM_HEAD.as_bytes());
    extend_bytes(&mut bytes, INITIAL_FRAME.as_bytes());
    bytes
}

/// The bytes of the frame that announces a change.
pub fn update_frame_bytes() -> (bytes: Vec<u8>)
    ensures
        bytes@ == encode_utf8(UPDATE_FRAME@),
{
    let mut bytes: Vec<u8> = Vec::new();
    extend_bytes(&mut bytes, UPDATE_FRAME.as_bytes());
    bytes
}

/// The reserved path begins with a letter and ends in one: nothing of it is
/// lost when it is read out of a request line.
pub proof fn lemma_sentinel_shape()
    ensures
        SENTINEL@.len() > 0,
        SENTINEL@.first() == 'v',
        SENTINEL@.last() == 's',
{
    reveal_strlit(
        "very-long-path-name-intentionally-used-to-get-update-notifications-please-do-not-name-your-files-like-this.rs",
    );
}

} // verus!
