//! The server loop's own decisions: where to listen, what to watch, how long
//! to wait for a burst of changes to end, and what to do when something fails.

use vstd::prelude::*;

verus! {

/// The address the server listens on when the caller names none.
pub const DEFAULT_ADDRESS: &'static str = "127.0.0.1:1111";

/// How long the served files must have been quiet before a change is
/// announced, in milliseconds. Changes that follow one another faster than
/// this are announced once.
pub const DEBOUNCE_MILLIS: u64 = 500;

/// The address to bind: the requested one, or [`DEFAULT_ADDRESS`] when absent.
pub fn bind_address(requested: Option<String>) -> (address: String)
    ensures
        address@ == match requested {
            Some(a) => a@,
            None => DEFAULT_ADDRESS@,
        },
{
    match requested {
        Some(a) => a,
        None => DEFAULT_ADDRESS.to_owned(),
    }
}

/// What the watcher is to watch, recursively.
#[derive(Clone, Copy, Debug, PartialEq, Eq, Structural)]
pub enum WatchTarget {
    /// The served root itself.
    Root,
    /// The directory that holds the served root.
    Parent,
}

/// What to watch for a served root. A root that is a single file is watched
/// through its directory, since a file that is replaced by renaming cannot be
/// followed reliably on its own; a directory is watched itself.
pub fn watch_target(root_is_file: bool) -> (target: WatchTarget)
    ensures
        target == if root_is_file {
            WatchTarget::Parent
        } else {
            WatchTarget::Root
        },
{
    if root_is_file {
        WatchTarget::Parent
    } else {
        WatchTarget::Root
    }
}

/// What can fail while the server runs.
#[derive(Clone, Copy, Debug, PartialEq, Eq, Structural)]
pub enum Failure {
    /// The listening socket could not be bound.
    Bind,
    /// The watcher could not be started.
    WatcherStart,
    /// The listening socket failed to hand over a connection.
    Accept,
    /// One connection could not be read, answered or subscribed.
    Connection,
    /// The running watcher reported a failure of its own.
    Watcher,
    /// A frame could not be written to a subscriber.
    Delivery,
}

/// What the server does about a failure.
#[derive(Clone, Copy, Debug, PartialEq, Eq, Structural)]
pub enum Remedy {
    /// Give up and end the process with the error.
    Abort,
    /// Report the error, drop the one connection, and keep serving.
    DropConnection,
    /// Report the error and keep serving; notifications may be lost.
    Report,
    /// Drop the subscriber without a word and go on with the broadcast.
    DropSubscriber,
}

/// The remedy for each failure. Only what keeps the server from listening or
/// accepting is fatal; a failing connection, watcher or subscriber never takes
/// the server down with it.
pub open spec fn remedy_for(failure: Failure) -> Remedy {
    match failure {
        Failure::Bind => Remedy::Abort,
        Failure::WatcherStart => Remedy::Abort,
        Failure::Accept => Remedy::Abort,
        Failure::Connection => Remedy::DropConnection,
        Failure::Watcher => Remedy::Report,
        Failure::Delivery => Remedy::DropSubscriber,
    }
}

/// The remedy for `failure`.
pub fn remedy(failure: Failure) -> (remedy: Remedy)
    ensures
        remedy == remedy_for(failure),
{
    match failure {
        Failure::Bind | Failure::WatcherStart | Failure::Accept => Remedy::Abort,
        Failure::Connection => Remedy::DropConnection,
        Failure::Watcher => Remedy::Report,
        Failure::Delivery => Remedy::DropSubscriber,
    }
}

} // verus!
