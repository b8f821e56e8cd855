//! How a client opens a tunnel: a fixed list of actions for each way to go, each
//! taken when the one before it has succeeded. The first thing that the server
//! hears is the tunnel's name.

use vstd::prelude::*;

use crate::message::{Message, MessageType, TunnelMessage};
#[allow(unused_imports)]
use crate::grpc_service;
#[allow(unused_imports)]
use crate::message::{MessageTypeView, MessageView};
#[allow(unused_imports)]
use crate::server_connection;
use crate::tunnel_id::TunnelKind;

verus! {

/// The way that a tunnel goes. A UDP tunnel over WebSocket is opened packet by
/// packet; see `udp_client`.
#[derive(Clone, Copy, Debug, PartialEq, Eq, Structural)]
pub enum Route {
    WebSocketTcp,
    GrpcTcp,
    GrpcUdp,
}

/// Why a tunnel could not be opened.
#[derive(Clone, Copy, Debug, PartialEq, Eq, Structural)]
pub enum OpenError {
    /// The local UDP socket could not be bound.
    Bind,
    /// The WebSocket server could not be reached.
    ConnectWebSocket,
    /// The gRPC server could not be reached.
    ConnectGrpc,
    /// The tunnel's name could not be sent.
    Greet,
    /// The server did not open the stream.
    OpenStream,
}

/// What is said of an error beyond its cause, if anything.
pub open spec fn context_text(e: OpenError) -> Option<Seq<char>> {
    match e {
        OpenError::Bind => Some("Failed to bind local UDP socket"@),
        OpenError::ConnectWebSocket => Some("Failed to connect to WebSocket server"@),
        OpenError::ConnectGrpc => Some("Failed to connect to gRPC server"@),
        OpenError::Greet => None,
        OpenError::OpenStream => None,
    }
}

impl OpenError {
    /// What is said of the error beyond its cause, if anything.
    pub fn context(&self) -> (r: Option<String>)
        ensures
            match r {
                Some(s) => context_text(*self) == Some(s@),
                None => context_text(*self) is None,
            },
    {
        match self {
            OpenError::Bind => Some("Failed to bind local UDP socket".to_owned()),
            OpenError::ConnectWebSocket => Some(
                "Failed to connect to WebSocket server".to_owned(),
            ),
            OpenError::ConnectGrpc => Some("Failed to connect to gRPC server".to_owned()),
            OpenError::Greet => None,
            OpenError::OpenStream => None,
        }
    }
}

/// The word for a kind of tunnel in an init message.
pub open spec fn protocol_word(kind: TunnelKind) -> Seq<char> {
    match kind {
        TunnelKind::Tcp => "tcp"@,
        TunnelKind::Udp => "udp"@,
    }
}

/// The message that opens a gRPC tunnel.
pub fn init_message(kind: TunnelKind, uuid: String) -> (m: TunnelMessage)
    ensures
        m@ == Some(MessageTypeView::Init { uuid: uuid@, protocol: protocol_word(kind) }),
{
    let protocol = match kind {
        TunnelKind::Tcp => "tcp".to_owned(),
        TunnelKind::Udp => "udp".to_owned(),
    };
    TunnelMessage { message_type: Some(MessageType::Init { uuid, protocol }) }
}

/// What a client does next to open a tunnel.
#[derive(Debug, PartialEq, Eq)]
pub enum OpenAction {
    /// Bind the local UDP socket.
    Bind,
    /// Connect to the server.
    Connect,
    /// Send the tunnel's name on the WebSocket.
    Greet(Message),
    /// Put the init message on the stream to the server.
    Init(TunnelMessage),
    /// Call the server's method and take the stream that it answers with.
    OpenStream,
    /// Start the relay.
    Relay,
    /// Give up.
    Fail(OpenError),
}

/// `OpenAction` as a mathematical value.
pub enum OpenActionView {
    Bind,
    Connect,
    Greet(MessageView),
    Init(Option<MessageTypeView>),
    OpenStream,
    Relay,
    Fail(OpenError),
}

impl View for OpenAction {
    type V = OpenActionView;

    open spec fn view(&self) -> OpenActionView {
        match self {
            OpenAction::Bind => OpenActionView::Bind,
            OpenAction::Connect => OpenActionView::Connect,
            OpenAction::Greet(m) => OpenActionView::Greet(m@),
            OpenAction::Init(m) => OpenActionView::Init(m@),
            OpenAction::OpenStream => OpenActionView::OpenStream,
            OpenAction::Relay => OpenActionView::Relay,
            OpenAction::Fail(e) => OpenActionView::Fail(*e),
        }
    }
}

/// What opens a tunnel, in order.
pub open spec fn script(route: Route, uuid: Seq<char>) -> Seq<OpenActionView> {
    match route {
        Route::WebSocketTcp => seq![
            OpenActionView::Connect,
            OpenActionView::Greet(MessageView::Text(uuid)),
            OpenActionView::Relay,
        ],
        Route::GrpcTcp => seq![
            OpenActionView::Connect,
            OpenActionView::Init(
                Some(MessageTypeView::Init { uuid, protocol: protocol_word(TunnelKind::Tcp) }),
            ),
            OpenActionView::OpenStream,
            OpenActionView::Relay,
        ],
        Route::GrpcUdp => seq![
            OpenActionView::Bind,
            OpenActionView::Connect,
            OpenActionView::Init(
                Some(MessageTypeView::Init { uuid, protocol: protocol_word(TunnelKind::Udp) }),
            ),
            OpenActionView::OpenStream,
            OpenActionView::Relay,
        ],
    }
}

/// The error that the failure of an action means.
pub open spec fn fault(route: Route, action: OpenActionView) -> OpenError {
    match action {
        OpenActionView::Bind => OpenError::Bind,
        OpenActionView::Connect => if route is WebSocketTcp {
            OpenError::ConnectWebSocket
        } else {
            OpenError::ConnectGrpc
        },
        OpenActionView::OpenStream => OpenError::OpenStream,
        _ => OpenError::Greet,
    }
}

/// The opening of one tunnel.
pub struct ClientConnection {
    route: Route,
    uuid: String,
    at: usize,
    over: bool,
}

/// `ClientConnection` as a mathematical value.
pub struct ClientConnectionView {
    pub route: Route,
    /// The name of the tunnel.
    pub uuid: Seq<char>,
    /// The action of the script that is under way.
    pub at: int,
    /// Whether the opening has succeeded or failed.
    pub over: bool,
}

impl View for ClientConnection {
    type V = ClientConnectionView;

    closed spec fn view(&self) -> ClientConnectionView {
        ClientConnectionView {
            route: self.route,
            uuid: self.uuid@,
            at: self.at as int,
            over: self.over,
        }
    }
}

/// An opening that has just begun: its first action is under way.
pub open spec fn begun(route: Route, uuid: Seq<char>) -> ClientConnectionView {
    ClientConnectionView { route, uuid, at: 0, over: false }
}

/// The opening after the outcome of the action under way, and the action that
/// follows; after its end nothing follows.
pub open spec fn next(c: ClientConnectionView, ok: bool) -> (
    ClientConnectionView,
    Option<OpenActionView>,
) {
    let list = script(c.route, c.uuid);
    if c.over {
        (c, None)
    } else if !ok {
        (
            ClientConnectionView { over: true, ..c },
            Some(OpenActionView::Fail(fault(c.route, list[c.at]))),
        )
    } else {
        (
            ClientConnectionView { at: c.at + 1, over: c.at + 1 == list.len() - 1, ..c },
            Some(list[c.at + 1]),
        )
    }
}

impl ClientConnection {
    #[verifier::type_invariant]
    spec fn inside_the_script(&self) -> bool {
        &&& self.at < script(self.route, self.uuid@).len()
        &&& !self.over ==> self.at < script(self.route, self.uuid@).len() - 1
    }

    fn action(&self, at: usize) -> (a: OpenAction)
        requires
            at < script(self.route, self.uuid@).len(),
        ensures
            a@ == script(self.route, self.uuid@)[at as int],
    {
        let place: usize = match self.route {
            Route::GrpcUdp => at,
            _ => at + 1,
        };
        match place {
            0 => OpenAction::Bind,
            1 => OpenAction::Connect,
            2 => match self.route {
                Route::WebSocketTcp => OpenAction::Greet(Message::Text(self.uuid.clone())),
                Route::GrpcTcp => OpenAction::Init(
                    init_message(TunnelKind::Tcp, self.uuid.clone()),
                ),
                Route::GrpcUdp => OpenAction::Init(
                    init_message(TunnelKind::Udp, self.uuid.clone()),
                ),
            },
            3 => match self.route {
                Route::WebSocketTcp => OpenAction::Relay,
                _ => OpenAction::OpenStream,
            },
            _ => OpenAction::Relay,
        }
    }

    /// Begins to open the tunnel of the given name; the first action comes with it.
    pub fn new(route: Route, uuid: String) -> (r: (ClientConnection, OpenAction))
        ensures
            r.0@ == begun(route, uuid@),
            r.1@ == script(route, uuid@)[0],
    {
        let c = ClientConnection { route, uuid, at: 0, over: false };
        let a = c.action(0);
        (c, a)
    }

    /// Takes the outcome of the action under way and returns the one that follows,
    /// or nothing once the opening is over.
    pub fn step(&mut self, ok: bool) -> (a: Option<OpenAction>)
        ensures
            final(self)@ == next(old(self)@, ok).0,
            match a {
                Some(action) => next(old(self)@, ok).1 == Some(action@),
                None => next(old(self)@, ok).1 is None,
            },
    {
        proof {
            use_type_invariant(&*self);
        }
        if self.over {
            return None;
        }
        if !ok {
            let e = match self.action(self.at) {
                OpenAction::Bind => OpenError::Bind,
                OpenAction::Connect => match self.route {
                    Route::WebSocketTcp => OpenError::ConnectWebSocket,
                    _ => OpenError::ConnectGrpc,
                },
                OpenAction::OpenStream => OpenError::OpenStream,
                _ => OpenError::Greet,
            };
            self.over = true;
            return Some(OpenAction::Fail(e));
        }
        let at: usize = self.at + 1;
        let a = self.action(at);
        match a {
            OpenAction::Relay => {
                self.over = true;
            },
            _ => {},
        }
        self.at = at;
        Some(a)
    }
}

/// The opening after a number of successes in a row.
pub open spec fn after(c: ClientConnectionView, successes: nat) -> ClientConnectionView
    decreases successes,
{
    if successes == 0 {
        c
    } else {
        next(after(c, (successes - 1) as nat), true).0
    }
}

/// A client works through its script from the first action to the relay: after so
/// many successes it is at the action of that place, and a failure there ends the
/// opening with the error that belongs to the action.
pub proof fn script_is_followed(route: Route, uuid: Seq<char>, successes: nat)
    requires
        successes < script(route, uuid).len(),
    ensures
        ({
            let list = script(route, uuid);
            let c = after(begun(route, uuid), successes);
            &&& c == (ClientConnectionView {
                route,
                uuid,
                at: successes as int,
                over: successes == list.len() - 1,
            })
            &&& c.over <==> list[successes as int] is Relay
            &&& !c.over ==> next(c, true).1 == Some(list[successes as int + 1])
            &&& !c.over ==> next(c, false).1 == Some(
                OpenActionView::Fail(fault(route, list[successes as int])),
            ) && next(c, false).0.over
        }),
    decreases successes,
{
    if successes > 0 {
        script_is_followed(route, uuid, (successes - 1) as nat);
    }
}

/// The WebSocket server takes the client's first message for the tunnel's name.
pub proof fn websocket_server_learns_the_name(uuid: Seq<char>)
    ensures
        script(Route::WebSocketTcp, uuid)[1] matches OpenActionView::Greet(greeting)
            && server_connection::next(
            server_connection::PhaseView::AwaitingName,
            server_connection::ServerEventView::First(Some(greeting)),
        ) == (
            server_connection::PhaseView::Registering(uuid),
            Some(server_connection::ServerActionView::Register(uuid)),
        ),
{
}

/// The gRPC server takes the tunnel's name from the init message that the client
/// sends before anything else.
pub proof fn grpc_server_learns_the_name(uuid: Seq<char>)
    ensures
        script(Route::GrpcTcp, uuid)[1] matches OpenActionView::Init(m)
            && grpc_service::init_name(grpc_service::FirstReadView::Message(m)) == Ok::<
            Seq<char>,
            grpc_service::StatusView,
        >(uuid),
        script(Route::GrpcUdp, uuid)[2] matches OpenActionView::Init(m)
            && grpc_service::init_name(grpc_service::FirstReadView::Message(m)) == Ok::<
            Seq<char>,
            grpc_service::StatusView,
        >(uuid),
{
}

/// An opening begins with its first action: a UDP tunnel over gRPC binds its local
/// socket, every other tunnel connects to the server.
pub proof fn how_an_opening_begins(route: Route, uuid: Seq<char>, first: OpenAction)
    requires
        first@ == script(route, uuid)[0],
    ensures
        first == (if route == Route::GrpcUdp {
            OpenAction::Bind
        } else {
            OpenAction::Connect
        }),
        begun(route, uuid).route == route,
        begun(route, uuid).uuid == uuid,
        begun(route, uuid).at == 0,
        !begun(route, uuid).over,
{
}

/// Each success leads to the next action. A TCP tunnel over WebSocket connects, sends
/// its name as a text and relays. A gRPC tunnel connects, puts its name and protocol on
/// the stream, opens it and relays.
pub proof fn what_a_success_leads_to(
    c: ClientConnectionView,
    d: ClientConnectionView,
    a: Option<OpenAction>,
)
    requires
        !c.over,
        d == next(c, true).0,
        match a {
            Some(x) => next(c, true).1 == Some(x@),
            None => next(c, true).1 is None,
        },
        0 <= c.at <= (match c.route {
            Route::WebSocketTcp => 1int,
            Route::GrpcTcp => 2int,
            Route::GrpcUdp => 3int,
        }),
    ensures
        d.route == c.route,
        d.uuid == c.uuid,
        d.at == c.at + 1,
        d.over <==> a == Some(OpenAction::Relay),
        match c.route {
            Route::WebSocketTcp => if c.at == 0 {
                a matches Some(OpenAction::Greet(Message::Text(name))) && name@ == c.uuid
            } else {
                a == Some(OpenAction::Relay)
            },
            Route::GrpcTcp => if c.at == 0 {
                a matches Some(OpenAction::Init(m)) && m.message_type matches Some(
                    MessageType::Init { uuid, protocol },
                ) && uuid@ == c.uuid && protocol@ == "tcp"@
            } else if c.at == 1 {
                a == Some(OpenAction::OpenStream)
            } else {
                a == Some(OpenAction::Relay)
            },
            Route::GrpcUdp => if c.at == 0 {
                a == Some(OpenAction::Connect)
            } else if c.at == 1 {
                a matches Some(OpenAction::Init(m)) && m.message_type matches Some(
                    MessageType::Init { uuid, protocol },
                ) && uuid@ == c.uuid && protocol@ == "udp"@
            } else if c.at == 2 {
                a == Some(OpenAction::OpenStream)
            } else {
                a == Some(OpenAction::Relay)
            },
        },
{
}

/// A failure ends the opening with the error of the action that failed; after its end
/// nothing follows.
pub proof fn what_a_failure_leads_to(
    c: ClientConnectionView,
    d: ClientConnectionView,
    a: Option<OpenAction>,
)
    requires
        d == next(c, false).0,
        match a {
            Some(x) => next(c, false).1 == Some(x@),
            None => next(c, false).1 is None,
        },
        0 <= c.at <= (match c.route {
            Route::WebSocketTcp => 1int,
            Route::GrpcTcp => 2int,
            Route::GrpcUdp => 3int,
        }),
    ensures
        d.over,
        c.over ==> d == c && a is None,
        !c.over ==> a == Some(
            OpenAction::Fail(
                match c.route {
                    Route::WebSocketTcp => if c.at == 0 {
                        OpenError::ConnectWebSocket
                    } else {
                        OpenError::Greet
                    },
                    Route::GrpcTcp => if c.at == 0 {
                        OpenError::ConnectGrpc
                    } else if c.at == 1 {
                        OpenError::Greet
                    } else {
                        OpenError::OpenStream
                    },
                    Route::GrpcUdp => if c.at == 0 {
                        OpenError::Bind
                    } else if c.at == 1 {
                        OpenError::ConnectGrpc
                    } else if c.at == 2 {
                        OpenError::Greet
                    } else {
                        OpenError::OpenStream
                    },
                },
            ),
        ),
{
}

/// Once an opening is over, neither outcome leads to anything.
pub proof fn nothing_follows_the_end(c: ClientConnectionView, ok: bool)
    requires
        c.over,
    ensures
        next(c, ok) == (c, None::<OpenActionView>),
{
}

/// What is said of the errors beyond their causes.
pub proof fn what_the_errors_say(e: OpenError)
    ensures
        e is Bind ==> context_text(e) == Some("Failed to bind local UDP socket"@),
        e is ConnectWebSocket ==> context_text(e) == Some("Failed to connect to WebSocket server"@),
        e is ConnectGrpc ==> context_text(e) == Some("Failed to connect to gRPC server"@),
        e is Greet || e is OpenStream ==> context_text(e) is None,
{
}

/// An init message speaks of its tunnel as `tcp` or `udp`.
pub proof fn how_a_kind_is_spelled(kind: TunnelKind)
    ensures
        kind is Tcp ==> protocol_word(kind) == "tcp"@,
        kind is Udp ==> protocol_word(kind) == "udp"@,
{
}

} // verus!
