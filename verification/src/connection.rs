//! The per-connection protocol engine: the connection lifecycle
//! (connecting, ready, closing, closed), the handshake that seeds a new
//! client with a consistent baseline, and the rule that a command's
//! direct response goes back to its originator while broadcast-worthy
//! events are re-published to every connection.

use vstd::prelude::*;
use crate::fabric::BroadcastFabric;
use crate::protocol::{
    handle_command, should_broadcast, spec_should_broadcast, state_event_of, step_holds,
    WebSocketCommand, WebSocketEvent,
};
use crate::session::SessionState;

verus! {

/// Where a connection stands in its life.
#[derive(Clone, Copy, Debug, PartialEq, Eq, Structural)]
pub enum ConnectionPhase {
    /// Accepted, handshake not yet complete.
    Connecting,
    /// Handshake done; commands are served.
    Ready,
    /// A close frame was seen; about to release resources.
    Closing,
    /// Loop ended; registry entry and subscription released.
    Closed,
}

/// One live connection: its lifecycle phase and its subscription slot in
/// the broadcast fabric.
pub struct Connection {
    pub phase: ConnectionPhase,
    pub subscription: usize,
}

/// Complete the handshake for a newly accepted connection: register it,
/// subscribe it to the broadcast fabric, and hand back the two events
/// that seed the client — the handshake confirmation first, then a full
/// state snapshot, so every client starts from a consistent baseline.
pub fn open_connection(state: &mut SessionState, fabric: &mut BroadcastFabric, version: String)
    -> (r: (Connection, Vec<WebSocketEvent>))
    requires
        old(state).wf(),
        old(fabric).wf(),
    ensures
        final(state).wf(),
        final(fabric).wf(),
        r.0.phase == ConnectionPhase::Ready,
        r.0.subscription == old(fabric).queues@.len(),
        final(fabric).is_subscribed(r.0.subscription as int),
        final(fabric).queue(r.0.subscription as int) == Seq::<WebSocketEvent>::empty(),
        final(fabric).queues@.len() == old(fabric).queues@.len() + 1,
        final(fabric).capacity == old(fabric).capacity,
        forall|j: int|
            0 <= j < old(fabric).queues@.len() ==> final(fabric).queues@[j] == old(fabric).queues@[j],
        final(state).websocket.active_connections == crate::session::inc32(
            old(state).websocket.active_connections,
        ),
        final(state).pdf == old(state).pdf,
        final(state).presenter == old(state).presenter,
        final(state).integration == old(state).integration,
        final(state).annotations == old(state).annotations,
        final(state).capture == old(state).capture,
        r.1@.len() == 2,
        r.1@[0] == (WebSocketEvent::Connected { version }),
        r.1@[1] == state_event_of(old(state).pdf, old(state).presenter),
{
    let subscription = fabric.subscribe();
    state.connection_joined();
    let mut outputs: Vec<WebSocketEvent> = Vec::new();
    outputs.push(WebSocketEvent::connected(version));
    outputs.push(crate::protocol::get_current_state(state));
    (Connection { phase: ConnectionPhase::Ready, subscription }, outputs)
}

/// Serve one parsed command from a ready connection. The returned reply
/// answers the originating connection first; only if the reply is
/// broadcast-worthy is it then re-published to every subscriber. A reply
/// that is not broadcast-worthy leaves the fabric untouched, so no other
/// connection ever observes it.
pub fn on_client_command(
    conn: &Connection,
    state: &mut SessionState,
    fabric: &mut BroadcastFabric,
    cmd: WebSocketCommand,
) -> (reply: WebSocketEvent)
    requires
        conn.phase == ConnectionPhase::Ready,
        old(state).wf(),
        old(fabric).wf(),
    ensures
        final(state).wf(),
        final(fabric).wf(),
        step_holds(cmd, *old(state), *final(state), reply),
        spec_should_broadcast(reply) ==> BroadcastFabric::published(
            *old(fabric),
            *final(fabric),
            reply,
        ),
        !spec_should_broadcast(reply) ==> *final(fabric) == *old(fabric),
{
    let reply = handle_command(cmd, state);
    if should_broadcast(&reply) {
        fabric.publish(&reply);
    }
    reply
}

/// The per-connection answer to an inbound payload that could not be
/// parsed: an error carrying the parser's diagnostic, for that connection
/// only; the connection stays open and nothing is broadcast.
pub fn malformed_command_response(detail: &str) -> (r: WebSocketEvent)
    ensures
        (r matches WebSocketEvent::Error { message } && message@ == "Invalid command: "@
            + detail@),
        !spec_should_broadcast(r),
{
    let mut message = "Invalid command: ".to_owned();
    message.append(detail);
    WebSocketEvent::Error { message }
}

/// Take the next broadcast event waiting for this connection, oldest
/// first, to forward to its client.
pub fn poll_broadcast(conn: &Connection, fabric: &mut BroadcastFabric) -> (r: Option<
    WebSocketEvent,
>)
    requires
        conn.phase == ConnectionPhase::Ready,
        old(fabric).wf(),
    ensures
        final(fabric).wf(),
        final(fabric).queues@.len() == old(fabric).queues@.len(),
        forall|j: int|
            0 <= j < old(fabric).queues@.len() && j != conn.subscription ==> final(fabric).queues@[j] == old(fabric).queues@[j],
        old(fabric).is_subscribed(conn.subscription as int) && old(fabric).queue(
            conn.subscription as int,
        ).len() > 0 ==> {
            &&& r == Some(old(fabric).queue(conn.subscription as int).first())
            &&& final(fabric).queue(conn.subscription as int) == old(fabric).queue(
                conn.subscription as int,
            ).drop_first()
        },
        !(old(fabric).is_subscribed(conn.subscription as int) && old(fabric).queue(
            conn.subscription as int,
        ).len() > 0) ==> r is None && *final(fabric) == *old(fabric),
{
    fabric.recv(conn.subscription)
}

/// End a connection's loop: release its subscription and its registry
/// entry and mark it closed. Other connections' queues are untouched.
pub fn close_connection(
    conn: &mut Connection,
    state: &mut SessionState,
    fabric: &mut BroadcastFabric,
)
    requires
        old(state).wf(),
        old(fabric).wf(),
    ensures
        final(state).wf(),
        final(fabric).wf(),
        final(conn).phase == ConnectionPhase::Closed,
        final(conn).subscription == old(conn).subscription,
        !final(fabric).is_subscribed(old(conn).subscription as int),
        final(fabric).queues@.len() == old(fabric).queues@.len(),
        forall|j: int|
            0 <= j < old(fabric).queues@.len() && j != old(conn).subscription ==> final(fabric).queues@[j] == old(fabric).queues@[j],
        final(state).websocket.active_connections == if old(state).websocket.active_connections > 0 {
            (old(state).websocket.active_connections - 1) as u32
        } else {
            0u32
        },
        final(state).pdf == old(state).pdf,
        final(state).presenter == old(state).presenter,
        final(state).integration == old(state).integration,
        final(state).annotations == old(state).annotations,
        final(state).capture == old(state).capture,
{
    fabric.unsubscribe(conn.subscription);
    state.connection_left();
    conn.phase = ConnectionPhase::Closed;
}

/// What a second connection observes after a first one's command was
/// served: a broadcast-worthy reply (a page, zoom or presenter change, or
/// a document opened or closed) lands at the tail of the second
/// connection's queue, record for record; any other reply (a pong, a
/// per-connection error) leaves that queue exactly as it was.
pub proof fn lemma_broadcast_observed_by_other_connection(
    pre: BroadcastFabric,
    post: BroadcastFabric,
    reply: WebSocketEvent,
    other: int,
)
    requires
        pre.wf(),
        pre.is_subscribed(other),
        spec_should_broadcast(reply) ==> BroadcastFabric::published(pre, post, reply),
        !spec_should_broadcast(reply) ==> post == pre,
    ensures
        spec_should_broadcast(reply) ==> post.queue(other).len() >= 1
            && crate::protocol::event_models(
            post.queue(other)[post.queue(other).len() - 1],
            reply,
        ),
        !spec_should_broadcast(reply) ==> post.queue(other) == pre.queue(other),
{
}

/// Listener status handed to callers of the command surface.
#[derive(Clone, Copy, Debug, PartialEq, Eq, Structural)]
pub struct WebSocketStatus {
    pub is_running: bool,
    pub port: u16,
    pub client_count: usize,
}

/// The listener status: whether the endpoint runs, where, and how many
/// clients are connected right now.
pub fn websocket_status(ws: &crate::session::WebSocketState, client_count: usize) -> (r:
    WebSocketStatus)
    ensures
        r.is_running == ws.is_connected,
        r.port == ws.port,
        r.client_count == client_count,
{
    WebSocketStatus { is_running: ws.is_connected, port: ws.port, client_count }
}

} // verus!
