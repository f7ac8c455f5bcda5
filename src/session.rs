//! A log connection as a state machine. The connection itself, its timer and
//! its socket live outside this library; they hand each tick and each inbound
//! message to `LogWs` and carry out the action it returns.
use vstd::prelude::*;

use crate::error::ServiceError;
use crate::lifecycle::{log_access, log_target};
use crate::log_stream::{chunk_views, concat_chunks, is_chunking, new_output, FollowCursor};
use crate::registry::{RegistryState, TaskRegistry};
use crate::request::{log_request_of, parse_log_request, LogRequest};

verus! {

/// How often, in milliseconds, a ping is sent to the client.
pub const HEARTBEAT_INTERVAL_MS: u64 = 5000;

/// How long, in milliseconds, the client may stay silent before the
/// connection is closed.
pub const CLIENT_TIMEOUT_MS: u64 = 10000;

/// Where the connection stands.
#[derive(Debug, Clone, Copy, PartialEq, Eq, Structural)]
pub enum WsState {
    /// The client has answered the last ping, or none was sent yet.
    Open,
    /// A ping was sent and no answer has come since.
    AwaitingPong,
    /// The connection is closed.
    Closed,
}

/// An inbound message on the connection.
pub enum WsMessage {
    Ping(Vec<u8>),
    Pong,
    Text(String),
    Binary,
    Close,
    Continuation,
    Nop,
}

/// What the connection is to do after an inbound message.
pub enum WsAction {
    /// Nothing.
    Nothing,
    /// Answer a ping with this payload.
    Pong(Vec<u8>),
    /// Start delivering the output that the request asks for.
    Start(LogRequest),
    /// Report the error to the client and close.
    Refuse(ServiceError),
    /// Close the connection.
    Close,
}

/// What the connection is to do on a heartbeat tick.
#[derive(Debug, Clone, Copy, PartialEq, Eq, Structural)]
pub enum HeartbeatAction {
    /// Ping the client.
    SendPing,
    /// Drop the connection: the client is silent or the connection closed.
    Disconnect,
}

/// Whether a client last heard from at `hb` has been silent too long at `now`.
pub open spec fn timed_out(hb: u64, now: u64) -> bool {
    now > hb + CLIENT_TIMEOUT_MS
}

/// The state of one log connection.
pub struct LogWs {
    /// When the client was last heard from, in milliseconds.
    pub hb: u64,
    pub state: WsState,
    /// What the client asked for, once it has.
    pub request: Option<LogRequest>,
    /// How far a following client has been sent the standard output.
    pub cursor: FollowCursor,
    /// How far a following client has been sent the standard error.
    pub err_cursor: FollowCursor,
}

/// The action that the opening message `text` leads to, given the running
/// tasks: start delivering when the request is well formed and its task's
/// output can be read, else refuse with the reason.
pub open spec fn text_action<H>(text: Seq<char>, s: RegistryState<H>) -> WsAction {
    match log_request_of(text) {
        Err(e) => WsAction::Refuse(e),
        Ok(req) => match log_access(s, req.id) {
            Ok(_) => WsAction::Start(req),
            Err(e) => WsAction::Refuse(e),
        },
    }
}

/// The deliveries of one stream: for a follower, the bytes appended since its
/// cursor, cut into transfer units.
pub open spec fn follows(chunks: Seq<Vec<u8>>, seen: usize, stream: Seq<u8>) -> bool {
    concat_chunks(chunk_views(chunks)) == new_output(seen as nat, stream) && is_chunking(
        chunk_views(chunks),
    )
}

/// Where a follower's cursor stands after a poll of `stream`.
pub open spec fn seen_after(seen: usize, stream: Seq<u8>) -> nat {
    if seen <= stream.len() {
        stream.len()
    } else {
        seen as nat
    }
}

/// The deliveries of one stream to a snapshot reader: the whole stream in
/// one delivery, or none when it is empty.
pub open spec fn snapshot_of(stream: Seq<u8>) -> Seq<Seq<u8>> {
    if stream.len() == 0 {
        Seq::empty()
    } else {
        seq![stream]
    }
}

/// A copy of `stream`.
fn copy_bytes(stream: &[u8]) -> (r: Vec<u8>)
    ensures
        r@ == stream@,
{
    let mut whole: Vec<u8> = Vec::new();
    let mut i: usize = 0;
    while i < stream.len()
        invariant
            i <= stream@.len(),
            whole@ == stream@.subrange(0, i as int),
        decreases stream@.len() - i,
    {
        whole.push(stream[i]);
        i += 1;
        assert(whole@ =~= stream@.subrange(0, i as int));
    }
    assert(whole@ =~= stream@);
    whole
}

/// The snapshot deliveries of `stream`.
fn snapshot(stream: &[u8]) -> (r: Vec<Vec<u8>>)
    ensures
        chunk_views(r@) == snapshot_of(stream@),
{
    let mut out: Vec<Vec<u8>> = Vec::new();
    if stream.len() > 0 {
        out.push(copy_bytes(stream));
    }
    assert(chunk_views(out@) =~= snapshot_of(stream@));
    out
}

impl LogWs {
    /// A connection that has just been opened at `now`.
    pub fn started(now: u64) -> (r: Self)
        ensures
            r.hb == now,
            r.state == WsState::Open,
            r.request.is_none(),
            r.cursor.seen == 0,
            r.err_cursor.seen == 0,
    {
        LogWs {
            hb: now,
            state: WsState::Open,
            request: None,
            cursor: FollowCursor::new(),
            err_cursor: FollowCursor::new(),
        }
    }

    /// A heartbeat tick at `now`: a client silent for longer than the timeout
    /// is disconnected, any other is pinged.
    pub fn hb(&mut self, now: u64) -> (r: HeartbeatAction)
        ensures
            final(self).hb == old(self).hb,
            final(self).request == old(self).request,
            final(self).cursor == old(self).cursor,
            final(self).err_cursor == old(self).err_cursor,
            (old(self).state == WsState::Closed || timed_out(old(self).hb, now)) ==> r
                == HeartbeatAction::Disconnect && final(self).state == WsState::Closed,
            !(old(self).state == WsState::Closed || timed_out(old(self).hb, now)) ==> r
                == HeartbeatAction::SendPing && final(self).state == WsState::AwaitingPong,
    {
        if self.state == WsState::Closed || (now > self.hb && now - self.hb > CLIENT_TIMEOUT_MS) {
            self.state = WsState::Closed;
            HeartbeatAction::Disconnect
        } else {
            self.state = WsState::AwaitingPong;
            HeartbeatAction::SendPing
        }
    }

    /// An inbound message at `now`. Pings and pongs show the client alive; a
    /// text is the request, which starts when it is well formed and names a
    /// task of `registry` whose output can be read, and is refused otherwise;
    /// a close or a fragment ends the connection.
    pub fn handle<H>(&mut self, msg: WsMessage, now: u64, registry: &TaskRegistry<H>) -> (r: WsAction)
        ensures
            final(self).cursor == old(self).cursor,
            final(self).err_cursor == old(self).err_cursor,
            old(self).state == WsState::Closed ==> r is Nothing && *final(self) == *old(self),
            old(self).state != WsState::Closed ==> match msg {
                WsMessage::Ping(p) => r == WsAction::Pong(p) && final(self).hb == now
                    && final(self).state == WsState::Open && final(self).request == old(
                    self,
                ).request,
                WsMessage::Pong => r is Nothing && final(self).hb == now && final(self).state
                    == WsState::Open && final(self).request == old(self).request,
                WsMessage::Text(t) => {
                    &&& r == text_action(t@, registry@)
                    &&& final(self).hb == old(self).hb
                    &&& match r {
                        WsAction::Start(req) => final(self).request == Some(req)
                            && final(self).state == old(self).state,
                        _ => final(self).state == WsState::Closed && final(self).request == old(
                            self,
                        ).request,
                    }
                },
                WsMessage::Close | WsMessage::Continuation => r is Close && final(self).state
                    == WsState::Closed && final(self).hb == old(self).hb && final(self).request
                    == old(self).request,
                WsMessage::Binary | WsMessage::Nop => r is Nothing && *final(self) == *old(self),
            },
    {
        if self.state == WsState::Closed {
            return WsAction::Nothing;
        }
        match msg {
            WsMessage::Ping(p) => {
                self.hb = now;
                self.state = WsState::Open;
                WsAction::Pong(p)
            },
            WsMessage::Pong => {
                self.hb = now;
                self.state = WsState::Open;
                WsAction::Nothing
            },
            WsMessage::Text(t) => match parse_log_request(t.as_str()) {
                Ok(req) => match log_target(registry, req.id) {
                    Ok(_) => {
                        self.request = Some(req);
                        WsAction::Start(req)
                    },
                    Err(e) => {
                        self.state = WsState::Closed;
                        WsAction::Refuse(e)
                    },
                },
                Err(e) => {
                    self.state = WsState::Closed;
                    WsAction::Refuse(e)
                },
            },
            WsMessage::Close | WsMessage::Continuation => {
                self.state = WsState::Closed;
                WsAction::Close
            },
            WsMessage::Binary | WsMessage::Nop => WsAction::Nothing,
        }
    }

    /// The deliveries owed to the client for the task's standard output
    /// `stdout` and standard error `stderr`. A follower gets, of each stream,
    /// the bytes appended since its last delivery, cut into transfer units. A
    /// snapshot reader gets each stream whole in one delivery, after which
    /// the connection closes. Before a request, or once closed, nothing is
    /// owed.
    pub fn deliver(&mut self, stdout: &[u8], stderr: &[u8]) -> (r: (Vec<Vec<u8>>, Vec<Vec<u8>>))
        ensures
            final(self).hb == old(self).hb,
            final(self).request == old(self).request,
            (old(self).state == WsState::Closed || old(self).request.is_none()) ==> r.0@.len() == 0
                && r.1@.len() == 0 && *final(self) == *old(self),
            old(self).state != WsState::Closed ==> match old(self).request {
                None => true,
                Some(req) => if req.follow {
                    &&& follows(r.0@, old(self).cursor.seen, stdout@)
                    &&& follows(r.1@, old(self).err_cursor.seen, stderr@)
                    &&& final(self).state == old(self).state
                    &&& final(self).cursor.seen == seen_after(old(self).cursor.seen, stdout@)
                    &&& final(self).err_cursor.seen == seen_after(
                        old(self).err_cursor.seen,
                        stderr@,
                    )
                } else {
                    &&& chunk_views(r.0@) == snapshot_of(stdout@)
                    &&& chunk_views(r.1@) == snapshot_of(stderr@)
                    &&& final(self).state == WsState::Closed
                    &&& final(self).cursor == old(self).cursor
                    &&& final(self).err_cursor == old(self).err_cursor
                },
            },
    {
        if self.state == WsState::Closed {
            return (Vec::new(), Vec::new());
        }
        match self.request {
            None => (Vec::new(), Vec::new()),
            Some(req) => if req.follow {
                let out = self.cursor.poll_chunks(stdout);
                let err = self.err_cursor.poll_chunks(stderr);
                (out, err)
            } else {
                let out = snapshot(stdout);
                let err = snapshot(stderr);
                self.state = WsState::Closed;
                (out, err)
            },
        }
    }

    /// The task's output has ended. A follower gets what is left of both
    /// streams, as a delivery would give it, and the connection then closes; a
    /// snapshot reader gets its snapshot as `deliver` gives it. Before a
    /// request, or once closed, nothing is owed and nothing changes.
    pub fn finish(&mut self, stdout: &[u8], stderr: &[u8]) -> (r: (Vec<Vec<u8>>, Vec<Vec<u8>>))
        ensures
            final(self).hb == old(self).hb,
            final(self).request == old(self).request,
            (old(self).state == WsState::Closed || old(self).request.is_none()) ==> r.0@.len() == 0
                && r.1@.len() == 0 && *final(self) == *old(self),
            old(self).state != WsState::Closed ==> match old(self).request {
                None => true,
                Some(req) => {
                    &&& final(self).state == WsState::Closed
                    &&& if req.follow {
                        &&& follows(r.0@, old(self).cursor.seen, stdout@)
                        &&& follows(r.1@, old(self).err_cursor.seen, stderr@)
                        &&& final(self).cursor.seen == seen_after(old(self).cursor.seen, stdout@)
                        &&& final(self).err_cursor.seen == seen_after(
                            old(self).err_cursor.seen,
                            stderr@,
                        )
                    } else {
                        &&& chunk_views(r.0@) == snapshot_of(stdout@)
                        &&& chunk_views(r.1@) == snapshot_of(stderr@)
                        &&& final(self).cursor == old(self).cursor
                        &&& final(self).err_cursor == old(self).err_cursor
                    }
                },
            },
    {
        let r = self.deliver(stdout, stderr);
        if self.request.is_some() {
            self.state = WsState::Closed;
        }
        r
    }
}

} // verus!