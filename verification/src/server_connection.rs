//! How the WebSocket server opens a tunnel: it takes the client's WebSocket,
//! learns the tunnel's name from the first message, registers it and connects to
//! the target by the protocol that the name tells.

use vstd::prelude::*;

use crate::message::Message;
#[allow(unused_imports)]
use crate::message::MessageView;
use crate::tunnel_id::{tunnel_kind, TunnelKind};
#[allow(unused_imports)]
use crate::tunnel_id::{id_text, kind_of, name_tells_the_kind};

verus! {

/// Why a tunnel was not opened.
#[derive(Clone, Copy, Debug, PartialEq, Eq, Structural)]
pub enum ConnectionError {
    /// The WebSocket handshake failed.
    Handshake,
    /// The client did not send the tunnel's name in time.
    NoName,
    /// No local UDP socket could be had.
    BindUdp,
    /// The target could not be reached by UDP.
    ConnectUdp,
    /// The target could not be reached by TCP.
    ConnectTcp,
}

/// The text of an error.
pub open spec fn error_text(e: ConnectionError) -> Seq<char> {
    match e {
        ConnectionError::Handshake => "WebSocket handshake failed"@,
        ConnectionError::NoName => "Client failed to send UUID on time."@,
        ConnectionError::BindUdp => "Failed to bind local UDP socket"@,
        ConnectionError::ConnectUdp => "Failed to connect to target UDP address"@,
        ConnectionError::ConnectTcp => "Failed to connect to target TCP address"@,
    }
}

impl ConnectionError {
    /// The text of the error.
    pub fn text(&self) -> (r: String)
        ensures
            r@ == error_text(*self),
    {
        match self {
            ConnectionError::Handshake => "WebSocket handshake failed".to_owned(),
            ConnectionError::NoName => "Client failed to send UUID on time.".to_owned(),
            ConnectionError::BindUdp => "Failed to bind local UDP socket".to_owned(),
            ConnectionError::ConnectUdp => "Failed to connect to target UDP address".to_owned(),
            ConnectionError::ConnectTcp => "Failed to connect to target TCP address".to_owned(),
        }
    }
}

/// Where the opening of a tunnel stands.
enum Phase {
    Upgrading,
    AwaitingName,
    Registering(String),
    Binding(String),
    Connecting(String, TunnelKind),
    Open,
    Failed,
}

/// The opening of one tunnel.
pub struct ServerConnection {
    phase: Phase,
}

/// What happened to the opening of a tunnel.
#[derive(Debug, PartialEq, Eq)]
pub enum ServerEvent {
    /// The handshake, the binding or the connecting is done; it may have failed.
    Done(bool),
    /// The client's first message, or nothing where none came in time or the
    /// WebSocket ended or failed.
    First(Option<Message>),
    /// The tunnel has been entered in the registry.
    Registered,
}

/// What the server does next to open a tunnel.
#[derive(Debug, PartialEq, Eq)]
pub enum ServerAction {
    /// Wait for the client's first message, for a limited time.
    AwaitName,
    /// Enter the tunnel in the registry.
    Register(String),
    /// Bind a local UDP socket.
    BindUdp,
    /// Connect the local UDP socket to the target.
    ConnectUdp,
    /// Connect to the target by TCP.
    ConnectTcp,
    /// Start the relay.
    Relay { uuid: String, kind: TunnelKind },
    /// Send a close message, and give up for want of a name.
    Reject,
    /// Give up.
    Fail(ConnectionError),
}

/// `Phase` as a mathematical value.
pub enum PhaseView {
    Upgrading,
    AwaitingName,
    Registering(Seq<char>),
    Binding(Seq<char>),
    Connecting(Seq<char>, TunnelKind),
    Open,
    Failed,
}

/// `ServerEvent` as a mathematical value.
pub enum ServerEventView {
    Done(bool),
    First(Option<MessageView>),
    Registered,
}

/// `ServerAction` as a mathematical value.
pub enum ServerActionView {
    AwaitName,
    Register(Seq<char>),
    BindUdp,
    ConnectUdp,
    ConnectTcp,
    Relay { uuid: Seq<char>, kind: TunnelKind },
    Reject,
    Fail(ConnectionError),
}

impl View for ServerConnection {
    type V = PhaseView;

    closed spec fn view(&self) -> PhaseView {
        match self.phase {
            Phase::Upgrading => PhaseView::Upgrading,
            Phase::AwaitingName => PhaseView::AwaitingName,
            Phase::Registering(u) => PhaseView::Registering(u@),
            Phase::Binding(u) => PhaseView::Binding(u@),
            Phase::Connecting(u, k) => PhaseView::Connecting(u@, k),
            Phase::Open => PhaseView::Open,
            Phase::Failed => PhaseView::Failed,
        }
    }
}

impl View for ServerEvent {
    type V = ServerEventView;

    open spec fn view(&self) -> ServerEventView {
        match self {
            ServerEvent::Done(ok) => ServerEventView::Done(*ok),
            ServerEvent::First(Some(m)) => ServerEventView::First(Some(m@)),
            ServerEvent::First(None) => ServerEventView::First(None),
            ServerEvent::Registered => ServerEventView::Registered,
        }
    }
}

impl View for ServerAction {
    type V = ServerActionView;

    open spec fn view(&self) -> ServerActionView {
        match self {
            ServerAction::AwaitName => ServerActionView::AwaitName,
            ServerAction::Register(u) => ServerActionView::Register(u@),
            ServerAction::BindUdp => ServerActionView::BindUdp,
            ServerAction::ConnectUdp => ServerActionView::ConnectUdp,
            ServerAction::ConnectTcp => ServerActionView::ConnectTcp,
            ServerAction::Relay { uuid, kind } => ServerActionView::Relay {
                uuid: uuid@,
                kind: *kind,
            },
            ServerAction::Reject => ServerActionView::Reject,
            ServerAction::Fail(e) => ServerActionView::Fail(*e),
        }
    }
}

/// What follows a failure.
pub open spec fn failed(e: ConnectionError) -> (PhaseView, Option<ServerActionView>) {
    (PhaseView::Failed, Some(ServerActionView::Fail(e)))
}

/// The phase after an event, and the action that the event calls for; an event
/// that the phase does not wait for changes nothing and calls for nothing.
pub open spec fn next(p: PhaseView, e: ServerEventView) -> (PhaseView, Option<ServerActionView>) {
    match (p, e) {
        (PhaseView::Upgrading, ServerEventView::Done(ok)) => if ok {
            (PhaseView::AwaitingName, Some(ServerActionView::AwaitName))
        } else {
            failed(ConnectionError::Handshake)
        },
        (PhaseView::AwaitingName, ServerEventView::First(first)) => match first {
            Some(MessageView::Text(u)) => (
                PhaseView::Registering(u),
                Some(ServerActionView::Register(u)),
            ),
            _ => (PhaseView::Failed, Some(ServerActionView::Reject)),
        },
        (PhaseView::Registering(u), ServerEventView::Registered) => match kind_of(u) {
            TunnelKind::Udp => (PhaseView::Binding(u), Some(ServerActionView::BindUdp)),
            TunnelKind::Tcp => (
                PhaseView::Connecting(u, TunnelKind::Tcp),
                Some(ServerActionView::ConnectTcp),
            ),
        },
        (PhaseView::Binding(u), ServerEventView::Done(ok)) => if ok {
            (PhaseView::Connecting(u, TunnelKind::Udp), Some(ServerActionView::ConnectUdp))
        } else {
            failed(ConnectionError::BindUdp)
        },
        (PhaseView::Connecting(u, kind), ServerEventView::Done(ok)) => if ok {
            (PhaseView::Open, Some(ServerActionView::Relay { uuid: u, kind }))
        } else {
            failed(
                match kind {
                    TunnelKind::Udp => ConnectionError::ConnectUdp,
                    TunnelKind::Tcp => ConnectionError::ConnectTcp,
                },
            )
        },
        _ => (p, None),
    }
}

impl ServerConnection {
    /// A connection that was just accepted, whose WebSocket handshake is under way.
    pub fn new() -> (c: ServerConnection)
        ensures
            c@ == PhaseView::Upgrading,
    {
        ServerConnection { phase: Phase::Upgrading }
    }

    fn fail(&mut self, e: ConnectionError) -> (a: Option<ServerAction>)
        ensures
            final(self)@ == PhaseView::Failed,
            a matches Some(action) && action@ == ServerActionView::Fail(e),
    {
        self.phase = Phase::Failed;
        Some(ServerAction::Fail(e))
    }

    /// Takes an event and returns the action that it calls for, or nothing where
    /// it is not an event that the server is waiting for.
    pub fn step(&mut self, event: ServerEvent) -> (a: Option<ServerAction>)
        ensures
            final(self)@ == next(old(self)@, event@).0,
            match a {
                Some(action) => next(old(self)@, event@).1 == Some(action@),
                None => next(old(self)@, event@).1 is None,
            },
    {
        let mut phase = Phase::Failed;
        std::mem::swap(&mut phase, &mut self.phase);
        match (phase, event) {
            (Phase::Upgrading, ServerEvent::Done(ok)) => {
                if !ok {
                    return self.fail(ConnectionError::Handshake);
                }
                self.phase = Phase::AwaitingName;
                Some(ServerAction::AwaitName)
            },
            (Phase::AwaitingName, ServerEvent::First(Some(Message::Text(uuid)))) => {
                self.phase = Phase::Registering(uuid.clone());
                Some(ServerAction::Register(uuid))
            },
            (Phase::AwaitingName, ServerEvent::First(_)) => {
                self.phase = Phase::Failed;
                Some(ServerAction::Reject)
            },
            (Phase::Registering(uuid), ServerEvent::Registered) => match tunnel_kind(
                uuid.as_str(),
            ) {
                TunnelKind::Udp => {
                    self.phase = Phase::Binding(uuid);
                    Some(ServerAction::BindUdp)
                },
                TunnelKind::Tcp => {
                    self.phase = Phase::Connecting(uuid, TunnelKind::Tcp);
                    Some(ServerAction::ConnectTcp)
                },
            },
            (Phase::Binding(uuid), ServerEvent::Done(ok)) => {
                if !ok {
                    return self.fail(ConnectionError::BindUdp);
                }
                self.phase = Phase::Connecting(uuid, TunnelKind::Udp);
                Some(ServerAction::ConnectUdp)
            },
            (Phase::Connecting(uuid, kind), ServerEvent::Done(ok)) => {
                if !ok {
                    return match kind {
                        TunnelKind::Udp => self.fail(ConnectionError::ConnectUdp),
                        TunnelKind::Tcp => self.fail(ConnectionError::ConnectTcp),
                    };
                }
                self.phase = Phase::Open;
                Some(ServerAction::Relay { uuid, kind })
            },
            (phase, _) => {
                self.phase = phase;
                None
            },
        }
    }
}

/// The phase after a sequence of events.
pub open spec fn after(p: PhaseView, events: Seq<ServerEventView>) -> PhaseView
    decreases events.len(),
{
    if events.len() == 0 {
        p
    } else {
        next(after(p, events.drop_last()), events.last()).0
    }
}

/// The actions that a sequence of events calls for.
pub open spec fn actions(p: PhaseView, events: Seq<ServerEventView>) -> Seq<ServerActionView>
    decreases events.len(),
{
    if events.len() == 0 {
        Seq::empty()
    } else {
        let before = actions(p, events.drop_last());
        match next(after(p, events.drop_last()), events.last()).1 {
            Some(a) => before.push(a),
            None => before,
        }
    }
}

/// The name of the tunnel that is being opened, once it has been registered.
pub open spec fn name(p: PhaseView) -> Option<Seq<char>> {
    match p {
        PhaseView::Registering(u) => Some(u),
        PhaseView::Binding(u) => Some(u),
        PhaseView::Connecting(u, _) => Some(u),
        _ => None,
    }
}

proof fn named_is_registered(events: Seq<ServerEventView>)
    ensures
        ({
            let p = after(PhaseView::Upgrading, events);
            let acts = actions(PhaseView::Upgrading, events);
            &&& name(p) matches Some(u) ==> acts.contains(ServerActionView::Register(u))
            &&& p matches PhaseView::Connecting(u, k) ==> k == kind_of(u)
            &&& p matches PhaseView::Binding(u) ==> kind_of(u) is Udp
        }),
    decreases events.len(),
{
    if events.len() > 0 {
        let prev = events.drop_last();
        let p = PhaseView::Upgrading;
        named_is_registered(prev);
        let before = actions(p, prev);
        let acts = actions(p, events);
        match next(after(p, prev), events.last()).1 {
            Some(a) => {
                assert(acts.last() == a);
                assert(acts.contains(a));
                assert forall|x: ServerActionView| before.contains(x) implies acts.contains(x) by {
                    let i = choose|i: int| 0 <= i < before.len() && before[i] == x;
                    assert(acts[i] == x);
                }
            },
            None => {},
        }
    }
}

/// A relay is started only for a tunnel that was registered before, under the name
/// that the client gave, and it is of the kind that the name tells.
pub proof fn relays_are_registered(
    events: Seq<ServerEventView>,
    e: ServerEventView,
    uuid: Seq<char>,
    kind: TunnelKind,
)
    requires
        next(after(PhaseView::Upgrading, events), e).1 == Some(
            ServerActionView::Relay { uuid, kind },
        ),
    ensures
        actions(PhaseView::Upgrading, events).contains(ServerActionView::Register(uuid)),
        kind == kind_of(uuid),
{
    named_is_registered(events);
}

/// A client whose first message is anything but a text, or that sends nothing in
/// time, is turned away with a close message; a text of any contents is taken for
/// the tunnel's name.
pub proof fn only_a_name_opens(first: Option<MessageView>)
    ensures
        ({
            let answer = next(PhaseView::AwaitingName, ServerEventView::First(first)).1;
            &&& answer == Some(ServerActionView::Reject) <==> !(first matches Some(m)
                && m is Text)
            &&& first matches Some(MessageView::Text(u)) ==> answer == Some(
                ServerActionView::Register(u),
            )
        }),
{
}

/// A client that sends a name it made up for a kind gets a relay of that kind under
/// that name, where nothing fails on the way.
pub proof fn client_gets_its_tunnel(kind: TunnelKind, bits: u128)
    ensures
        ({
            let id = id_text(kind, bits);
            let ok = ServerEventView::Done(true);
            let p1 = next(PhaseView::Upgrading, ok).0;
            let p2 = next(p1, ServerEventView::First(Some(MessageView::Text(id)))).0;
            let p3 = next(p2, ServerEventView::Registered).0;
            let p4 = if kind is Udp {
                next(p3, ok).0
            } else {
                p3
            };
            next(p4, ok) == (PhaseView::Open, Some(ServerActionView::Relay { uuid: id, kind }))
        }),
{
    name_tells_the_kind(kind, bits);
}

/// The first message is for a server that awaits a name, the news of a registration for
/// one that registers, an outcome for one that shakes hands, binds or connects. Every
/// such event calls for an action; any other calls for nothing and changes nothing.
pub proof fn which_events_are_taken(
    p: PhaseView,
    event: ServerEvent,
    q: PhaseView,
    a: Option<ServerAction>,
)
    requires
        q == next(p, event@).0,
        match a {
            Some(x) => next(p, event@).1 == Some(x@),
            None => next(p, event@).1 is None,
        },
    ensures
        a is Some <==> match event {
            ServerEvent::Done(_) => p is Upgrading || p is Binding || p is Connecting,
            ServerEvent::First(_) => p is AwaitingName,
            ServerEvent::Registered => p is Registering,
        },
        a is None ==> q == p,
{
}

/// After a handshake the name is awaited. A text is the name and is registered as it is;
/// anything else, and nothing, is turned away.
pub proof fn how_the_name_is_learned(
    p: PhaseView,
    event: ServerEvent,
    q: PhaseView,
    a: Option<ServerAction>,
)
    requires
        q == next(p, event@).0,
        match a {
            Some(x) => next(p, event@).1 == Some(x@),
            None => next(p, event@).1 is None,
        },
    ensures
        p is Upgrading && event == ServerEvent::Done(true) ==> q is AwaitingName && a == Some(
            ServerAction::AwaitName,
        ),
        p is AwaitingName ==> (event matches ServerEvent::First(first) ==> match first {
            Some(Message::Text(name)) => q == PhaseView::Registering(name@) && (a matches Some(
                ServerAction::Register(u),
            ) && u@ == name@),
            _ => q is Failed && a == Some(ServerAction::Reject),
        }),
{
}

/// A tunnel whose name begins with `U` gets a UDP socket that is bound and then
/// connected, every other tunnel is connected by TCP. Then the relay is started under
/// the name, as the kind that was connected.
pub proof fn how_the_target_is_connected(
    p: PhaseView,
    event: ServerEvent,
    q: PhaseView,
    a: Option<ServerAction>,
)
    requires
        q == next(p, event@).0,
        match a {
            Some(x) => next(p, event@).1 == Some(x@),
            None => next(p, event@).1 is None,
        },
    ensures
        p matches PhaseView::Registering(u) ==> (event is Registered ==> if u.len() > 0 && u[0]
            == 'U' {
            q == PhaseView::Binding(u) && a == Some(ServerAction::BindUdp)
        } else {
            q == PhaseView::Connecting(u, TunnelKind::Tcp) && a == Some(ServerAction::ConnectTcp)
        }),
        p matches PhaseView::Binding(u) ==> (event == ServerEvent::Done(true) ==> q
            == PhaseView::Connecting(u, TunnelKind::Udp) && a == Some(ServerAction::ConnectUdp)),
        p matches PhaseView::Connecting(u, k) ==> (event == ServerEvent::Done(true) ==> q is Open
            && (a matches Some(ServerAction::Relay { uuid, kind }) && uuid@ == u && kind == k)),
        a matches Some(x) ==> (x is Relay ==> p is Connecting && event == ServerEvent::Done(true)),
{
}

/// A failure ends the opening with the error of what failed, and nothing but a failure
/// does.
pub proof fn what_a_failure_leads_to(
    p: PhaseView,
    event: ServerEvent,
    q: PhaseView,
    a: Option<ServerAction>,
)
    requires
        q == next(p, event@).0,
        match a {
            Some(x) => next(p, event@).1 == Some(x@),
            None => next(p, event@).1 is None,
        },
    ensures
        event == ServerEvent::Done(false) ==> match p {
            PhaseView::Upgrading => q is Failed && a == Some(
                ServerAction::Fail(ConnectionError::Handshake),
            ),
            PhaseView::Binding(_) => q is Failed && a == Some(
                ServerAction::Fail(ConnectionError::BindUdp),
            ),
            PhaseView::Connecting(_, TunnelKind::Udp) => q is Failed && a == Some(
                ServerAction::Fail(ConnectionError::ConnectUdp),
            ),
            PhaseView::Connecting(_, TunnelKind::Tcp) => q is Failed && a == Some(
                ServerAction::Fail(ConnectionError::ConnectTcp),
            ),
            _ => a is None,
        },
        a matches Some(x) ==> (x is Fail ==> event == ServerEvent::Done(false)),
{
}

/// Under any name, a client that is not failed by anything is registered, connected by
/// the kind that the name begins with, and relayed, in this order.
pub proof fn every_named_client_is_served(name: Seq<char>)
    ensures
        ({
            let ok = ServerEventView::Done(true);
            let named = ServerEventView::First(Some(MessageView::Text(name)));
            if name.len() > 0 && name[0] == 'U' {
                actions(
                    PhaseView::Upgrading,
                    seq![ok, named, ServerEventView::Registered, ok, ok],
                ) == seq![
                    ServerActionView::AwaitName,
                    ServerActionView::Register(name),
                    ServerActionView::BindUdp,
                    ServerActionView::ConnectUdp,
                    ServerActionView::Relay { uuid: name, kind: TunnelKind::Udp },
                ]
            } else {
                actions(PhaseView::Upgrading, seq![ok, named, ServerEventView::Registered, ok])
                    == seq![
                    ServerActionView::AwaitName,
                    ServerActionView::Register(name),
                    ServerActionView::ConnectTcp,
                    ServerActionView::Relay { uuid: name, kind: TunnelKind::Tcp },
                ]
            }
        }),
{
    let ok = ServerEventView::Done(true);
    let e0 = Seq::<ServerEventView>::empty();
    let e1 = e0.push(ok);
    let e2 = e1.push(ServerEventView::First(Some(MessageView::Text(name))));
    let e3 = e2.push(ServerEventView::Registered);
    let e4 = e3.push(ok);
    let e5 = e4.push(ok);
    assert(e1.drop_last() == e0 && e2.drop_last() == e1 && e3.drop_last() == e2 && e4.drop_last() == e3 && e5.drop_last()
        == e4);
    assert(after(PhaseView::Upgrading, e0) == PhaseView::Upgrading);
    assert(actions(PhaseView::Upgrading, e0) == Seq::<ServerActionView>::empty());
    assert(after(PhaseView::Upgrading, e1) == PhaseView::AwaitingName);
    assert(after(PhaseView::Upgrading, e2) == PhaseView::Registering(name));
    assert(actions(PhaseView::Upgrading, e1) == seq![ServerActionView::AwaitName]);
    assert(actions(PhaseView::Upgrading, e2) == seq![
        ServerActionView::AwaitName,
        ServerActionView::Register(name),
    ]);
    assert(e4 == seq![e4[0], e4[1], e4[2], e4[3]]);
    assert(e5 == seq![e5[0], e5[1], e5[2], e5[3], e5[4]]);
    let shown = actions(PhaseView::Upgrading, e3);
    assert(after(PhaseView::Upgrading, e3) == next(PhaseView::Registering(name), e3[2]).0);
    assert(shown.len() == 3);
    assert(actions(PhaseView::Upgrading, e4).len() == 4);
}

/// The texts of the errors.
pub proof fn what_the_errors_say(e: ConnectionError)
    ensures
        e is Handshake ==> error_text(e) == "WebSocket handshake failed"@,
        e is NoName ==> error_text(e) == "Client failed to send UUID on time."@,
        e is BindUdp ==> error_text(e) == "Failed to bind local UDP socket"@,
        e is ConnectUdp ==> error_text(e) == "Failed to connect to target UDP address"@,
        e is ConnectTcp ==> error_text(e) == "Failed to connect to target TCP address"@,
{
}

} // verus!
