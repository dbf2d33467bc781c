//! The local endpoint and the relay between one local connection and its
//! tunnel.

use crate::cli::Local;
use crate::error::Error;
use vstd::prelude::*;

verus! {

/// The largest chunk that is read from the local connection at once, and so
/// the largest message that is sent to the tunnel.
pub const CHUNK_SIZE: usize = 4096;

/// The local endpoint that the client listens on.
#[derive(Debug)]
pub enum Listener {
    /// A network listener on the loopback address.
    Tcp { address: (u8, u8, u8, u8), port: u16 },
    /// A local socket at a filesystem path.
    Unix { path: String },
}

impl Listener {
    /// Chooses the endpoint for a listen target: a port is bound on the
    /// loopback address, a path as a local socket. A path on a platform
    /// without local sockets is a bind error.
    pub fn bind(local: Local, unix_supported: bool) -> (listener: Result<Listener, Error>)
        ensures
            match local {
                Local::Port(port) => listener matches Ok(Listener::Tcp { address, port: bound })
                    && address == (127u8, 0u8, 0u8, 1u8) && bound == port,
                Local::Unix(path) => if unix_supported {
                    listener matches Ok(Listener::Unix { path: bound }) && bound@ == path@
                } else {
                    listener == Err::<Listener, Error>(Error::Bind)
                },
            },
    {
        match local {
            Local::Port(port) => Ok(Listener::Tcp { address: (127, 0, 0, 1), port }),
            Local::Unix(path) => {
                if unix_supported {
                    Ok(Listener::Unix { path })
                } else {
                    Err(Error::Bind)
                }
            },
        }
    }

    /// The path to remove when the listener closes: that of a local socket.
    /// A network listener leaves nothing behind.
    pub fn cleanup(&self) -> (path: Option<&String>)
        ensures
            match *self {
                Listener::Tcp { .. } => path is None,
                Listener::Unix { path: bound } => path matches Some(p) && p@ == bound@,
            },
    {
        match self {
            Listener::Tcp { .. } => None,
            Listener::Unix { path } => Some(path),
        }
    }
}

/// What happened on one of the two sides of a relay.
#[derive(Debug, Clone)]
pub enum RelayEvent {
    /// The handshake with the tunnel endpoint failed.
    ConnectFailed,
    /// The local connection was read; no bytes means that the peer closed.
    LocalRead(Vec<u8>),
    /// Reading or writing the local connection failed.
    LocalFailed,
    /// The tunnel delivered a message with this payload.
    TunnelMessage(Vec<u8>),
    /// The tunnel's stream ended.
    TunnelClosed,
    /// Reading or writing the tunnel failed.
    TunnelFailed,
}

/// What the relay does next.
#[derive(Debug)]
pub enum RelayAction {
    /// Send these bytes to the tunnel as one binary message.
    Send(Vec<u8>),
    /// Write all of these bytes to the local connection.
    Write(Vec<u8>),
    /// Stop both directions with this result.
    Finish(Result<(), Error>),
}

/// An action as the laws see it.
pub enum Reaction {
    Send(Seq<u8>),
    Write(Seq<u8>),
    Finish(Result<(), Error>),
}

impl View for RelayAction {
    type V = Reaction;

    open spec fn view(&self) -> Reaction {
        match *self {
            RelayAction::Send(message) => Reaction::Send(message@),
            RelayAction::Write(data) => Reaction::Write(data@),
            RelayAction::Finish(result) => Reaction::Finish(result),
        }
    }
}

/// The relay's rule. A chunk read from the local connection goes to the
/// tunnel as one message, a tunnel message is written to the local
/// connection in full, and the first close or failure on either side ends
/// the whole relay: a close without an error, a failed handshake as a
/// connect error, any other failure as an I/O error.
pub open spec fn reaction(event: RelayEvent) -> Reaction {
    match event {
        RelayEvent::ConnectFailed => Reaction::Finish(Err(Error::TunnelConnect)),
        RelayEvent::LocalRead(bytes) => if bytes@.len() == 0 {
            Reaction::Finish(Ok(()))
        } else {
            Reaction::Send(bytes@)
        },
        RelayEvent::LocalFailed => Reaction::Finish(Err(Error::Io)),
        RelayEvent::TunnelMessage(payload) => Reaction::Write(payload@),
        RelayEvent::TunnelClosed => Reaction::Finish(Ok(())),
        RelayEvent::TunnelFailed => Reaction::Finish(Err(Error::Io)),
    }
}

/// Whether an event keeps to the chunk size: what one read of the local
/// connection yields is at most one chunk.
pub open spec fn within_chunk(event: RelayEvent) -> bool {
    event matches RelayEvent::LocalRead(bytes) ==> bytes@.len() <= CHUNK_SIZE
}

/// Whether an event ends the relay.
pub open spec fn finishes(event: RelayEvent) -> bool {
    reaction(event) is Finish
}

/// The relay's answer to one event, as the rule gives it. The local
/// connection is read one chunk at a time, so that no message to the tunnel
/// is empty or longer than a chunk.
pub fn copy(event: RelayEvent) -> (action: RelayAction)
    requires
        within_chunk(event),
    ensures
        action@ == reaction(event),
        action matches RelayAction::Send(message) ==> 1 <= message@.len() <= CHUNK_SIZE,
{
    match event {
        RelayEvent::ConnectFailed => RelayAction::Finish(Err(Error::TunnelConnect)),
        RelayEvent::LocalRead(bytes) => {
            if bytes.len() == 0 {
                RelayAction::Finish(Ok(()))
            } else {
                RelayAction::Send(bytes)
            }
        },
        RelayEvent::LocalFailed => RelayAction::Finish(Err(Error::Io)),
        RelayEvent::TunnelMessage(payload) => RelayAction::Write(payload),
        RelayEvent::TunnelClosed => RelayAction::Finish(Ok(())),
        RelayEvent::TunnelFailed => RelayAction::Finish(Err(Error::Io)),
    }
}

/// The bytes of a run of messages, in order.
pub open spec fn joined(messages: Seq<Seq<u8>>) -> Seq<u8>
    decreases messages.len(),
{
    if messages.len() == 0 {
        Seq::empty()
    } else {
        messages[0] + joined(messages.drop_first())
    }
}

/// The messages that a relay sends to the tunnel over a run of events: what
/// the rule sends for each, until an event ends the relay.
pub open spec fn forwarded(events: Seq<RelayEvent>) -> Seq<Seq<u8>>
    decreases events.len(),
{
    if events.len() == 0 {
        Seq::empty()
    } else {
        match reaction(events[0]) {
            Reaction::Finish(_) => Seq::empty(),
            Reaction::Send(message) => seq![message] + forwarded(events.drop_first()),
            Reaction::Write(_) => forwarded(events.drop_first()),
        }
    }
}

/// The bytes that a relay writes to the local connection over a run of
/// events: what the rule writes for each, until an event ends the relay.
pub open spec fn delivered(events: Seq<RelayEvent>) -> Seq<u8>
    decreases events.len(),
{
    if events.len() == 0 {
        Seq::empty()
    } else {
        match reaction(events[0]) {
            Reaction::Finish(_) => Seq::empty(),
            Reaction::Send(_) => delivered(events.drop_first()),
            Reaction::Write(data) => data + delivered(events.drop_first()),
        }
    }
}

/// The bytes that the local peer sent over a run of events.
pub open spec fn local_bytes(events: Seq<RelayEvent>) -> Seq<u8>
    decreases events.len(),
{
    if events.len() == 0 {
        Seq::empty()
    } else {
        match events[0] {
            RelayEvent::LocalRead(bytes) => bytes@ + local_bytes(events.drop_first()),
            _ => local_bytes(events.drop_first()),
        }
    }
}

/// The bytes that the tunnel sent over a run of events.
pub open spec fn tunnel_bytes(events: Seq<RelayEvent>) -> Seq<u8>
    decreases events.len(),
{
    if events.len() == 0 {
        Seq::empty()
    } else {
        match events[0] {
            RelayEvent::TunnelMessage(payload) => payload@ + tunnel_bytes(events.drop_first()),
            _ => tunnel_bytes(events.drop_first()),
        }
    }
}

/// Where every read keeps to the chunk size, every message that the relay
/// sends to the tunnel holds at least one byte and at most one chunk.
pub proof fn law_messages_fit_chunk(events: Seq<RelayEvent>, i: int)
    requires
        forall|k: int| 0 <= k < events.len() ==> within_chunk(#[trigger] events[k]),
        0 <= i < forwarded(events).len(),
    ensures
        1 <= forwarded(events)[i].len() <= CHUNK_SIZE,
    decreases events.len(),
{
    if events.len() > 0 {
        let rest = events.drop_first();
        assert(within_chunk(events[0]));
        assert forall|k: int| 0 <= k < rest.len() implies within_chunk(#[trigger] rest[k]) by {
            assert(rest[k] == events[k + 1]);
        }
        match reaction(events[0]) {
            Reaction::Finish(_) => {},
            Reaction::Send(message) => {
                if i > 0 {
                    law_messages_fit_chunk(rest, i - 1);
                }
            },
            Reaction::Write(_) => {
                law_messages_fit_chunk(rest, i);
            },
        }
    }
}

/// While nothing ends the relay, it neither drops nor reorders a byte: the
/// messages sent to the tunnel hold the local peer's bytes, and the local
/// peer is written the tunnel's bytes.
pub proof fn law_relay_is_faithful(events: Seq<RelayEvent>)
    requires
        forall|i: int| 0 <= i < events.len() ==> !finishes(#[trigger] events[i]),
    ensures
        joined(forwarded(events)) == local_bytes(events),
        delivered(events) == tunnel_bytes(events),
    decreases events.len(),
{
    if events.len() > 0 {
        let rest = events.drop_first();
        assert forall|i: int| 0 <= i < rest.len() implies !finishes(#[trigger] rest[i]) by {
            assert(rest[i] == events[i + 1]);
        }
        law_relay_is_faithful(rest);
        assert(!finishes(events[0]));
        match events[0] {
            RelayEvent::LocalRead(bytes) => {
                let sent = seq![bytes@] + forwarded(rest);
                assert(sent.drop_first() =~= forwarded(rest));
                assert(sent[0] == bytes@);
            },
            _ => {},
        }
    }
}

/// A tunnel that echoes hands the local peer its own bytes back: where the
/// tunnel's messages hold what was forwarded to it, byte for byte, the local
/// peer is written exactly what it sent.
pub proof fn law_echo_returns_input(events: Seq<RelayEvent>)
    requires
        forall|i: int| 0 <= i < events.len() ==> !finishes(#[trigger] events[i]),
        tunnel_bytes(events) == joined(forwarded(events)),
    ensures
        delivered(events) == local_bytes(events),
{
    law_relay_is_faithful(events);
}

/// A close on either side ends the relay at once and without an error,
/// whichever side closes first.
pub proof fn law_close_ends_relay(event: RelayEvent)
    requires
        event is TunnelClosed || (event matches RelayEvent::LocalRead(bytes) && bytes@.len() == 0),
    ensures
        reaction(event) == Reaction::Finish(Ok(())),
{
}

/// Once an event ends the relay, nothing that follows is sent or written.
pub proof fn law_relay_stops(before: Seq<RelayEvent>, end: RelayEvent, after: Seq<RelayEvent>)
    requires
        forall|i: int| 0 <= i < before.len() ==> !finishes(#[trigger] before[i]),
        finishes(end),
    ensures
        forwarded(before.push(end) + after) == forwarded(before),
        delivered(before.push(end) + after) == delivered(before),
    decreases before.len(),
{
    let all = before.push(end) + after;
    if before.len() == 0 {
        assert(all[0] == end);
    } else {
        let rest = before.drop_first();
        assert(all[0] == before[0]);
        assert(all.drop_first() =~= rest.push(end) + after);
        assert forall|i: int| 0 <= i < rest.len() implies !finishes(#[trigger] rest[i]) by {
            assert(rest[i] == before[i + 1]);
        }
        law_relay_stops(rest, end, after);
    }
}

} // verus!
