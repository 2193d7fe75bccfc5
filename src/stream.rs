//! The subscription to a relay's firehose: its address, and what to do with
//! each websocket event.
use vstd::prelude::*;
use crate::frame::{Frame, FrameError};
use crate::record::Record;
use crate::types::Post;
use crate::text::text_eq;

verus! {

/// The relay used when none is given.
pub const BLUESKY_FEED_DOMAIN: &'static str = "bsky.network";

/// Seconds to wait for a frame before the sequence ends.
pub const DEFAULT_READ_TIMEOUT_SECONDS: u64 = 30;

/// A subscription to the repository events of one relay.
#[derive(Debug, Clone)]
pub struct EventStream {
    relay: String,
    read_timeout_seconds: u64,
}

/// What the websocket gave.
#[derive(Debug)]
pub enum StreamEvent {
    /// A binary message, decoded.
    Received(Result<Frame, FrameError>),
    /// The connection closed.
    Closed,
    /// No message came within the read timeout.
    TimedOut,
}

/// What to do next.
#[derive(Debug, Clone)]
pub enum StreamAction {
    /// Decode this message body as a commit and hand it on.
    DecodeCommit(Vec<u8>),
    /// Read the next message.
    Skip,
    /// End the sequence.
    End,
}

/// The action for one websocket event: commit messages are decoded, other
/// frames and undecodable messages skipped; a close or a timeout ends the sequence.
pub fn next_action(event: StreamEvent) -> (r: StreamAction)
    ensures
        match event {
            StreamEvent::Received(Ok(Frame::Message(Some(t), m))) => if t@ == "#commit"@ {
                r == StreamAction::DecodeCommit(m.body)
            } else {
                r is Skip
            },
            StreamEvent::Received(_) => r is Skip,
            StreamEvent::Closed | StreamEvent::TimedOut => r is End,
        },
{
    match event {
        StreamEvent::Received(Ok(Frame::Message(Some(t), m))) => if text_eq(t.as_str(), "#commit") {
            StreamAction::DecodeCommit(m.body)
        } else {
            StreamAction::Skip
        },
        StreamEvent::Received(_) => StreamAction::Skip,
        StreamEvent::Closed | StreamEvent::TimedOut => StreamAction::End,
    }
}

impl EventStream {
    pub closed spec fn relay_spec(&self) -> Seq<char> {
        self.relay@
    }

    pub closed spec fn timeout_spec(&self) -> u64 {
        self.read_timeout_seconds
    }

    /// A subscription to `relay` with the default read timeout.
    pub fn new(relay: &str) -> (r: EventStream)
        ensures
            r.relay_spec() == relay@,
            r.timeout_spec() == DEFAULT_READ_TIMEOUT_SECONDS,
    {
        EventStream { relay: relay.to_string(), read_timeout_seconds: DEFAULT_READ_TIMEOUT_SECONDS }
    }

    /// The same subscription with another read timeout.
    pub fn with_read_timeout(self, seconds: u64) -> (r: EventStream)
        ensures
            r.relay_spec() == self.relay_spec(),
            r.timeout_spec() == seconds,
    {
        EventStream { relay: self.relay, read_timeout_seconds: seconds }
    }

    /// Seconds to wait for each frame.
    pub fn read_timeout_seconds(&self) -> (r: u64)
        ensures
            r == self.timeout_spec(),
    {
        self.read_timeout_seconds
    }

    /// The websocket address of the relay's repository subscription.
    pub fn url(&self) -> (r: String)
        ensures
            r@ == "wss://"@ + self.relay_spec() + "/xrpc/com.atproto.sync.subscribeRepos"@,
    {
        let mut u = String::from_str("wss://");
        u.append(self.relay.as_str());
        u.append("/xrpc/com.atproto.sync.subscribeRepos");
        u
    }
}

/// A subscription that hands on posts only.
#[derive(Debug, Clone)]
pub struct PostStream {
    pub subscription: EventStream,
}

impl PostStream {
    pub fn new(inner: EventStream) -> (r: PostStream)
        ensures
            r.subscription == inner,
    {
        PostStream { subscription: inner }
    }

    /// The post a record carries, if it is one.
    pub fn select(record: Record) -> (r: Option<Post>)
        ensures
            match record {
                Record::Post(p) => r == Some(p),
                _ => r is None,
            },
    {
        match record {
            Record::Post(p) => Some(p),
            _ => None,
        }
    }
}

/// A sink that only logs what it is given; it counts the posts it saw.
#[derive(Debug, Clone, Copy, PartialEq, Eq, Structural)]
pub struct DryRunExporter {
    pub exported: u64,
}

impl DryRunExporter {
    pub fn new() -> (r: DryRunExporter)
        ensures
            r.exported == 0,
    {
        DryRunExporter { exported: 0 }
    }

    /// Takes one post; this always succeeds.
    pub fn export(&mut self, post: &Post) -> (r: Result<(), ()>)
        ensures
            r is Ok,
            final(self).exported == if old(self).exported < u64::MAX { old(self).exported + 1 } else { old(self).exported as int },
    {
        if self.exported < u64::MAX {
            self.exported = self.exported + 1;
        }
        Ok(())
    }
}

} // verus!
