//! One websocket connection's life: the handshake, the snapshot, and the
//! frames it reads while open.

use vstd::prelude::*;
use crate::json::{str_eq, Json, JsonValue};
use crate::protocol::{decode_frame, decode_message, snapshot, snapshot_messages, list_models, ClientMessage, MessageModel};
use crate::todo_list::TodoList;

verus! {

/// Where a connection stands.
#[derive(Debug, Clone, Copy, PartialEq, Eq, Structural)]
pub enum ConnState {
    Connecting,
    Authenticating,
    Syncing,
    Open,
    Closed,
}

/// The HTTP status that refuses an upgrade.
pub const UNAUTHORIZED: u16 = 401;

/// The HTTP status that completes an upgrade.
pub const SWITCHING_PROTOCOLS: u16 = 101;

/// The upgrade is allowed: the authorization header is there and equals the
/// configured secret.
pub open spec fn authorized(header: Option<Seq<char>>, secret: Seq<char>) -> bool {
    header == Some(secret)
}

/// Checks the authorization header of an upgrade request.
pub fn is_authorized(header: Option<&str>, secret: &str) -> (r: bool)
    ensures
        r == authorized(
            match header {
                Some(h) => Some(h@),
                None => None,
            },
            secret@,
        ),
{
    match header {
        Some(h) => str_eq(h, secret),
        None => false,
    }
}

/// The state after a frame is read: an open connection stays open.
pub open spec fn frame_step(state: ConnState, frame: Option<Json>) -> (ConnState, Option<MessageModel>) {
    if state == ConnState::Open {
        (
            ConnState::Open,
            match frame {
                Some(j) => decode_frame(j),
                None => None,
            },
        )
    } else {
        (state, None)
    }
}

/// One connection, by the id it is registered under.
#[derive(Debug)]
pub struct Connection {
    id: u64,
    state: ConnState,
}

impl Connection {
    pub closed spec fn spec_state(&self) -> ConnState {
        self.state
    }

    pub closed spec fn spec_id(&self) -> u64 {
        self.id
    }

    /// The id the connection is registered under.
    pub fn id(&self) -> (r: u64)
        ensures
            r == self.spec_id(),
    {
        self.id
    }

    pub fn new(id: u64) -> (r: Connection)
        ensures
            r.spec_id() == id,
            r.spec_state() == ConnState::Connecting,
    {
        Connection { id, state: ConnState::Connecting }
    }

    pub fn state(&self) -> (r: ConnState)
        ensures
            r == self.spec_state(),
    {
        self.state
    }

    /// An upgrade request arrived.
    pub fn upgrade_requested(&mut self)
        requires
            old(self).spec_state() == ConnState::Connecting,
        ensures
            final(self).spec_id() == old(self).spec_id(),
            final(self).spec_state() == ConnState::Authenticating,
    {
        self.state = ConnState::Authenticating;
    }

    /// Checks the request's authorization header against the secret. On
    /// success the upgrade completes and the connection waits for its
    /// snapshot; else it is refused with 401 and closed.
    pub fn authenticate(&mut self, header: Option<&str>, secret: &str) -> (status: u16)
        requires
            old(self).spec_state() == ConnState::Authenticating,
        ensures
            final(self).spec_id() == old(self).spec_id(),
            ({
                let ok = authorized(
                    match header {
                        Some(h) => Some(h@),
                        None => None,
                    },
                    secret@,
                );
                &&& ok ==> status == SWITCHING_PROTOCOLS && final(self).spec_state() == ConnState::Syncing
                &&& !ok ==> status == UNAUTHORIZED && final(self).spec_state() == ConnState::Closed
            }),
    {
        if is_authorized(header, secret) {
            self.state = ConnState::Syncing;
            SWITCHING_PROTOCOLS
        } else {
            self.state = ConnState::Closed;
            UNAUTHORIZED
        }
    }

    /// The snapshot for the lists the store holds: to be queued on the
    /// connection's channel before the connection joins the registry, so
    /// that it comes before any broadcast. The connection is then open.
    pub fn sync(&mut self, lists: &Vec<TodoList>) -> (r: Vec<JsonValue>)
        requires
            old(self).spec_state() == ConnState::Syncing,
        ensures
            final(self).spec_id() == old(self).spec_id(),
            final(self).spec_state() == ConnState::Open,
            r@.map_values(|m: JsonValue| m@) == snapshot(list_models(lists@)),
    {
        let msgs = snapshot_messages(lists);
        self.state = ConnState::Open;
        msgs
    }

    /// Reads one text frame; `None` stands for a frame that is not JSON. A
    /// frame that does not decode is dropped and the connection stays open.
    /// The caller answers every text frame with a ping.
    pub fn on_text_frame(&mut self, frame: Option<&JsonValue>) -> (r: Option<ClientMessage>)
        requires
            old(self).spec_state() == ConnState::Open,
        ensures
            final(self).spec_id() == old(self).spec_id(),
            final(self).spec_state() == frame_step(
                old(self).spec_state(),
                match frame {
                    Some(j) => Some(j@),
                    None => None,
                },
            ).0,
            match r {
                Some(m) => frame_step(
                    old(self).spec_state(),
                    match frame {
                        Some(j) => Some(j@),
                        None => None,
                    },
                ).1 == Some(m.model()),
                None => frame_step(
                    old(self).spec_state(),
                    match frame {
                        Some(j) => Some(j@),
                        None => None,
                    },
                ).1 is None,
            },
    {
        match frame {
            Some(j) => decode_message(j),
            None => None,
        }
    }

    /// The socket failed or closed, or the channel did. Closing twice is
    /// harmless.
    pub fn close(&mut self)
        ensures
            final(self).spec_id() == old(self).spec_id(),
            final(self).spec_state() == ConnState::Closed,
    {
        self.state = ConnState::Closed;
    }
}

/// A frame that is dropped, however malformed, leaves the connection open,
/// and the frame after it is read exactly as it would be on its own.
pub proof fn lemma_malformed_frame_resilience(first: Option<Json>, second: Option<Json>)
    ensures
        frame_step(ConnState::Open, first).0 == ConnState::Open,
        frame_step(frame_step(ConnState::Open, first).0, second) == frame_step(ConnState::Open, second),
        second matches Some(j) ==> frame_step(frame_step(ConnState::Open, first).0, second).1
            == decode_frame(j),
{
}

} // verus!
