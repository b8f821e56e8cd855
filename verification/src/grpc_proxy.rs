//! The relay between a gRPC stream and a socket: both relays of the server, and
//! the client's relay for TCP.
//!
//! A relay waits for its stream and its socket at once. A source that has nothing
//! more to give drops out of the wait until the next wait begins; when both have
//! dropped out, the relay ends.

use vstd::prelude::*;

use crate::message::{close_message, data_message, pong_message, MessageType, TunnelMessage};
#[allow(unused_imports)]
use crate::message::MessageTypeView;

verus! {

/// Which relay it is.
#[derive(Clone, Copy, Debug, PartialEq, Eq, Structural)]
pub enum GrpcSide {
    ServerTcp,
    ServerUdp,
    ClientTcp,
}

/// A relay loop in progress.
#[derive(Clone, Copy, Debug, PartialEq, Eq, Structural)]
pub struct GrpcProxy {
    pub side: GrpcSide,
    /// Whether the current wait still includes the stream.
    pub link: bool,
    /// Whether the current wait still includes the socket.
    pub socket: bool,
    /// Whether the relay has ended.
    pub stopped: bool,
}

/// What a read from a gRPC stream gave.
#[derive(Debug, PartialEq, Eq)]
pub enum Inbound {
    /// The stream has ended.
    Ended,
    /// The stream reported an error.
    Failed,
    Message(TunnelMessage),
}

/// What happened to a relay.
#[derive(Debug, PartialEq, Eq)]
pub enum GrpcEvent {
    /// The stream was read.
    Link(Inbound),
    /// The socket delivered data, or its read failed.
    Socket(Option<Vec<u8>>),
    /// The send or write that was asked for is done; it may have failed.
    Delivered(bool),
}

/// What a relay does next.
#[derive(Debug, PartialEq, Eq)]
pub enum GrpcAction {
    /// Wait for the sources that are marked.
    Wait { link: bool, socket: bool },
    /// Write the data to the socket (and flush it, on TCP).
    WriteSocket(Vec<u8>),
    /// Send the message on the stream.
    SendLink(TunnelMessage),
    /// The relay has just ended: send the message, if there is one, and let the
    /// stream go.
    Finish(Option<TunnelMessage>),
    /// Nothing: the relay ended before.
    Finished,
}

/// One step of a relay.
#[derive(Debug, PartialEq, Eq)]
pub struct GrpcStep {
    /// Whether to note the tunnel's activity before the action.
    pub touch: bool,
    pub action: GrpcAction,
    /// Whether to take the tunnel out of the registry after the action.
    pub remove: bool,
}

/// `Inbound` as a mathematical value.
pub enum InboundView {
    Ended,
    Failed,
    Message(Option<MessageTypeView>),
}

/// `GrpcEvent` as a mathematical value.
pub enum GrpcEventView {
    Link(InboundView),
    Socket(Option<Seq<u8>>),
    Delivered(bool),
}

/// `GrpcAction` as a mathematical value.
pub enum GrpcActionView {
    Wait { link: bool, socket: bool },
    WriteSocket(Seq<u8>),
    SendLink(Option<MessageTypeView>),
    Finish(Option<Option<MessageTypeView>>),
    Finished,
}

/// `GrpcStep` as a mathematical value.
pub struct GrpcStepView {
    pub touch: bool,
    pub action: GrpcActionView,
    pub remove: bool,
}

impl View for Inbound {
    type V = InboundView;

    open spec fn view(&self) -> InboundView {
        match self {
            Inbound::Ended => InboundView::Ended,
            Inbound::Failed => InboundView::Failed,
            Inbound::Message(m) => InboundView::Message(m@),
        }
    }
}

impl View for GrpcEvent {
    type V = GrpcEventView;

    open spec fn view(&self) -> GrpcEventView {
        match self {
            GrpcEvent::Link(i) => GrpcEventView::Link(i@),
            GrpcEvent::Socket(Some(d)) => GrpcEventView::Socket(Some(d@)),
            GrpcEvent::Socket(None) => GrpcEventView::Socket(None),
            GrpcEvent::Delivered(ok) => GrpcEventView::Delivered(*ok),
        }
    }
}

impl View for GrpcAction {
    type V = GrpcActionView;

    open spec fn view(&self) -> GrpcActionView {
        match self {
            GrpcAction::Wait { link, socket } => GrpcActionView::Wait {
                link: *link,
                socket: *socket,
            },
            GrpcAction::WriteSocket(d) => GrpcActionView::WriteSocket(d@),
            GrpcAction::SendLink(m) => GrpcActionView::SendLink(m@),
            GrpcAction::Finish(Some(m)) => GrpcActionView::Finish(Some(m@)),
            GrpcAction::Finish(None) => GrpcActionView::Finish(None),
            GrpcAction::Finished => GrpcActionView::Finished,
        }
    }
}

impl View for GrpcStep {
    type V = GrpcStepView;

    open spec fn view(&self) -> GrpcStepView {
        GrpcStepView { touch: self.touch, action: self.action@, remove: self.remove }
    }
}

/// Whether a relay belongs to the server. Only the server keeps a registry,
/// answers pings and says goodbye.
pub open spec fn at_server(side: GrpcSide) -> bool {
    !(side is ClientTcp)
}

/// Whether a relay's socket is a stream, which ends with an empty read.
pub open spec fn over_tcp(side: GrpcSide) -> bool {
    !(side is ServerUdp)
}

/// A relay at the start of a wait for both its sources.
pub open spec fn fresh(side: GrpcSide) -> GrpcProxy {
    GrpcProxy { side, link: true, socket: true, stopped: false }
}

/// What the server sends last on a stream.
pub open spec fn goodbye() -> Option<MessageTypeView> {
    Some(MessageTypeView::Close { reason: "Connection closed"@ })
}

/// What makes a running relay end: a failed delivery, an error of the stream, a
/// close message, the end of the TCP stream, or both sources having dropped out
/// of one wait.
pub open spec fn ends(p: GrpcProxy, e: GrpcEventView) -> bool {
    match e {
        GrpcEventView::Link(InboundView::Ended) => !p.socket,
        GrpcEventView::Link(InboundView::Failed) => true,
        GrpcEventView::Link(InboundView::Message(m)) => m matches Some(t) && t is Close,
        GrpcEventView::Socket(Some(d)) => over_tcp(p.side) && d.len() == 0,
        GrpcEventView::Socket(None) => !p.link,
        GrpcEventView::Delivered(ok) => !ok,
    }
}

/// The data, if any, that an event makes a running relay write to its socket.
pub open spec fn to_socket(e: GrpcEventView) -> Option<Seq<u8>> {
    match e {
        GrpcEventView::Link(InboundView::Message(Some(MessageTypeView::Data { payload }))) => Some(
            payload,
        ),
        _ => None,
    }
}

/// The message, if any, that an event makes a running relay send on the stream.
pub open spec fn to_link(p: GrpcProxy, e: GrpcEventView) -> Option<MessageTypeView> {
    match e {
        GrpcEventView::Link(InboundView::Message(Some(MessageTypeView::Ping { timestamp })))
            if at_server(p.side) => Some(MessageTypeView::Pong { timestamp }),
        GrpcEventView::Socket(Some(d)) if !(over_tcp(p.side) && d.len() == 0) => Some(
            MessageTypeView::Data { payload: d },
        ),
        _ => None,
    }
}

/// The relay after an event that does not end it. A source that drops out leaves
/// the wait to the other; everything else begins a new wait.
pub open spec fn waits(p: GrpcProxy, e: GrpcEventView) -> GrpcProxy {
    match e {
        GrpcEventView::Link(InboundView::Ended) => GrpcProxy { link: false, ..p },
        GrpcEventView::Socket(None) => GrpcProxy { socket: false, ..p },
        _ => fresh(p.side),
    }
}

/// Whether an event is activity of the tunnel in the server's registry: every
/// message from the stream is, and every piece of data from the socket.
pub open spec fn active(p: GrpcProxy, e: GrpcEventView) -> bool {
    at_server(p.side) && match e {
        GrpcEventView::Link(InboundView::Message(_)) => true,
        GrpcEventView::Socket(Some(d)) => !(over_tcp(p.side) && d.len() == 0),
        _ => false,
    }
}

/// The relay after an event, and the step that the event calls for.
pub open spec fn next(p: GrpcProxy, e: GrpcEventView) -> (GrpcProxy, GrpcStepView) {
    if p.stopped {
        (p, GrpcStepView { touch: false, action: GrpcActionView::Finished, remove: false })
    } else if ends(p, e) {
        (
            GrpcProxy { stopped: true, ..p },
            GrpcStepView {
                touch: active(p, e),
                action: GrpcActionView::Finish(
                    if at_server(p.side) {
                        Some(goodbye())
                    } else {
                        None
                    },
                ),
                remove: at_server(p.side),
            },
        )
    } else {
        let q = waits(p, e);
        let action = match (to_socket(e), to_link(p, e)) {
            (Some(d), _) => GrpcActionView::WriteSocket(d),
            (None, Some(t)) => GrpcActionView::SendLink(Some(t)),
            (None, None) => GrpcActionView::Wait { link: q.link, socket: q.socket },
        };
        (q, GrpcStepView { touch: active(p, e), action, remove: false })
    }
}

impl GrpcProxy {
    /// A relay that is about to wait for both its sources.
    pub fn new(side: GrpcSide) -> (p: GrpcProxy)
        ensures
            p == fresh(side),
    {
        GrpcProxy { side, link: true, socket: true, stopped: false }
    }

    fn is_server(&self) -> (r: bool)
        ensures
            r == at_server(self.side),
    {
        match self.side {
            GrpcSide::ClientTcp => false,
            _ => true,
        }
    }

    fn is_tcp(&self) -> (r: bool)
        ensures
            r == over_tcp(self.side),
    {
        match self.side {
            GrpcSide::ServerUdp => false,
            _ => true,
        }
    }

    /// Begins a new wait, after the given action.
    fn act(&mut self, active: bool, action: GrpcAction) -> (s: GrpcStep)
        requires
            !old(self).stopped,
        ensures
            *final(self) == fresh(old(self).side),
            s@ == (GrpcStepView {
                touch: at_server(old(self).side) && active,
                action: action@,
                remove: false,
            }),
    {
        self.link = true;
        self.socket = true;
        let touch = self.is_server() && active;
        GrpcStep { touch, action, remove: false }
    }

    /// Ends the relay.
    fn stop(&mut self, active: bool) -> (s: GrpcStep)
        ensures
            *final(self) == (GrpcProxy { stopped: true, ..*old(self) }),
            s@ == (GrpcStepView {
                touch: at_server(old(self).side) && active,
                action: GrpcActionView::Finish(
                    if at_server(old(self).side) {
                        Some(goodbye())
                    } else {
                        None
                    },
                ),
                remove: at_server(old(self).side),
            }),
    {
        self.stopped = true;
        let server = self.is_server();
        if server {
            GrpcStep {
                touch: active,
                action: GrpcAction::Finish(Some(close_message())),
                remove: true,
            }
        } else {
            GrpcStep { touch: false, action: GrpcAction::Finish(None), remove: false }
        }
    }

    /// Goes on with the current wait.
    fn wait_on(&self) -> (s: GrpcStep)
        ensures
            s@ == (GrpcStepView {
                touch: false,
                action: GrpcActionView::Wait { link: self.link, socket: self.socket },
                remove: false,
            }),
    {
        GrpcStep {
            touch: false,
            action: GrpcAction::Wait { link: self.link, socket: self.socket },
            remove: false,
        }
    }

    /// Takes a message from the stream.
    fn receive(&mut self, message: TunnelMessage) -> (s: GrpcStep)
        requires
            !old(self).stopped,
        ensures
            (*final(self), s@) == next(
                *old(self),
                GrpcEventView::Link(InboundView::Message(message@)),
            ),
    {
        let server = self.is_server();
        match message.message_type {
            Some(MessageType::Data { payload }) => self.act(
                true,
                GrpcAction::WriteSocket(payload),
            ),
            Some(MessageType::Ping { timestamp }) if server => self.act(
                true,
                GrpcAction::SendLink(pong_message(timestamp)),
            ),
            Some(MessageType::Close { .. }) => self.stop(true),
            _ => self.act(true, GrpcAction::Wait { link: true, socket: true }),
        }
    }

    /// Takes an event and returns the step that it calls for.
    pub fn step(&mut self, event: GrpcEvent) -> (s: GrpcStep)
        ensures
            (*final(self), s@) == next(*old(self), event@),
    {
        if self.stopped {
            return GrpcStep { touch: false, action: GrpcAction::Finished, remove: false };
        }
        match event {
            GrpcEvent::Link(Inbound::Ended) => {
                if !self.socket {
                    return self.stop(false);
                }
                self.link = false;
                self.wait_on()
            },
            GrpcEvent::Link(Inbound::Failed) => self.stop(false),
            GrpcEvent::Link(Inbound::Message(message)) => self.receive(message),
            GrpcEvent::Socket(None) => {
                if !self.link {
                    return self.stop(false);
                }
                self.socket = false;
                self.wait_on()
            },
            GrpcEvent::Socket(Some(data)) => {
                if self.is_tcp() && data.len() == 0 {
                    return self.stop(false);
                }
                self.act(true, GrpcAction::SendLink(data_message(data)))
            },
            GrpcEvent::Delivered(ok) => {
                if ok {
                    self.act(false, GrpcAction::Wait { link: true, socket: true })
                } else {
                    self.stop(false)
                }
            },
        }
    }
}

/// The relay after a sequence of events.
pub open spec fn after(p: GrpcProxy, events: Seq<GrpcEventView>) -> GrpcProxy
    decreases events.len(),
{
    if events.len() == 0 {
        p
    } else {
        next(after(p, events.drop_last()), events.last()).0
    }
}

/// The steps that a sequence of events calls for.
pub open spec fn steps(p: GrpcProxy, events: Seq<GrpcEventView>) -> Seq<GrpcStepView>
    decreases events.len(),
{
    if events.len() == 0 {
        Seq::empty()
    } else {
        steps(p, events.drop_last()).push(next(after(p, events.drop_last()), events.last()).1)
    }
}

/// The events that found the relay running.
pub open spec fn handled(p: GrpcProxy, events: Seq<GrpcEventView>) -> Seq<GrpcEventView>
    decreases events.len(),
{
    if events.len() == 0 {
        events
    } else if after(p, events.drop_last()).stopped {
        handled(p, events.drop_last())
    } else {
        handled(p, events.drop_last()).push(events.last())
    }
}

/// The pieces of data that the socket delivered. The end of a TCP stream is no
/// data; an empty datagram is.
pub open spec fn socket_input(side: GrpcSide, events: Seq<GrpcEventView>) -> Seq<Seq<u8>>
    decreases events.len(),
{
    if events.len() == 0 {
        Seq::empty()
    } else {
        let before = socket_input(side, events.drop_last());
        match events.last() {
            GrpcEventView::Socket(Some(d)) if !(over_tcp(side) && d.len() == 0) => before.push(d),
            _ => before,
        }
    }
}

/// The pieces of data that the stream delivered.
pub open spec fn link_input(events: Seq<GrpcEventView>) -> Seq<Seq<u8>>
    decreases events.len(),
{
    if events.len() == 0 {
        Seq::empty()
    } else {
        let before = link_input(events.drop_last());
        match to_socket(events.last()) {
            Some(d) => before.push(d),
            None => before,
        }
    }
}

/// The times in the pings that the stream delivered.
pub open spec fn ping_input(events: Seq<GrpcEventView>) -> Seq<i64>
    decreases events.len(),
{
    if events.len() == 0 {
        Seq::empty()
    } else {
        let before = ping_input(events.drop_last());
        match events.last() {
            GrpcEventView::Link(
                InboundView::Message(Some(MessageTypeView::Ping { timestamp })),
            ) => before.push(timestamp),
            _ => before,
        }
    }
}

/// The pieces of data written to the socket.
pub open spec fn socket_output(steps: Seq<GrpcStepView>) -> Seq<Seq<u8>>
    decreases steps.len(),
{
    if steps.len() == 0 {
        Seq::empty()
    } else {
        let before = socket_output(steps.drop_last());
        match steps.last().action {
            GrpcActionView::WriteSocket(d) => before.push(d),
            _ => before,
        }
    }
}

/// The pieces of data sent on the stream.
pub open spec fn link_output(steps: Seq<GrpcStepView>) -> Seq<Seq<u8>>
    decreases steps.len(),
{
    if steps.len() == 0 {
        Seq::empty()
    } else {
        let before = link_output(steps.drop_last());
        match steps.last().action {
            GrpcActionView::SendLink(Some(MessageTypeView::Data { payload })) => before.push(
                payload,
            ),
            _ => before,
        }
    }
}

/// The times in the pongs sent on the stream.
pub open spec fn pong_output(steps: Seq<GrpcStepView>) -> Seq<i64>
    decreases steps.len(),
{
    if steps.len() == 0 {
        Seq::empty()
    } else {
        let before = pong_output(steps.drop_last());
        match steps.last().action {
            GrpcActionView::SendLink(Some(MessageTypeView::Pong { timestamp })) => before.push(
                timestamp,
            ),
            _ => before,
        }
    }
}

/// How often the relay came to its end.
pub open spec fn endings(steps: Seq<GrpcStepView>) -> nat
    decreases steps.len(),
{
    if steps.len() == 0 {
        0
    } else {
        endings(steps.drop_last()) + if steps.last().action is Finish {
            1nat
        } else {
            0nat
        }
    }
}

/// How often the tunnel was taken out of the registry.
pub open spec fn removals(steps: Seq<GrpcStepView>) -> nat
    decreases steps.len(),
{
    if steps.len() == 0 {
        0
    } else {
        removals(steps.drop_last()) + if steps.last().remove {
            1nat
        } else {
            0nat
        }
    }
}

/// A running relay ends on an event exactly where `ends` says so, and an ended
/// relay does not start again.
pub proof fn only_endings_end(p: GrpcProxy, e: GrpcEventView)
    ensures
        next(p, e).0.stopped <==> p.stopped || ends(p, e),
        next(p, e).0.side == p.side,
{
}

proof fn side_stays(p: GrpcProxy, events: Seq<GrpcEventView>)
    ensures
        after(p, events).side == p.side,
    decreases events.len(),
{
    if events.len() > 0 {
        side_stays(p, events.drop_last());
    }
}

/// A relay passes on everything it is given and nothing else: each piece of data
/// goes to the other side unchanged, once and in order, for as long as the relay
/// runs.
pub proof fn relay_passes_everything_on(p: GrpcProxy, events: Seq<GrpcEventView>)
    ensures
        link_output(steps(p, events)) == socket_input(p.side, handled(p, events)),
        socket_output(steps(p, events)) == link_input(handled(p, events)),
    decreases events.len(),
{
    if events.len() > 0 {
        let prev = events.drop_last();
        relay_passes_everything_on(p, prev);
        side_stays(p, prev);
        assert(steps(p, events).drop_last() == steps(p, prev));
        if !after(p, prev).stopped {
            assert(handled(p, events).drop_last() == handled(p, prev));
        }
    }
}

/// The server answers each ping with a pong of the same time, in order; the
/// client answers none.
pub proof fn pings_are_answered(p: GrpcProxy, events: Seq<GrpcEventView>)
    ensures
        pong_output(steps(p, events)) == (if at_server(p.side) {
            ping_input(handled(p, events))
        } else {
            Seq::empty()
        }),
    decreases events.len(),
{
    if events.len() > 0 {
        let prev = events.drop_last();
        pings_are_answered(p, prev);
        side_stays(p, prev);
        assert(steps(p, events).drop_last() == steps(p, prev));
        if !after(p, prev).stopped {
            assert(handled(p, events).drop_last() == handled(p, prev));
        }
    }
}

/// The events that a relay handles are the first ones, and all of them while it
/// runs.
pub proof fn running_relay_handles_all(p: GrpcProxy, events: Seq<GrpcEventView>)
    ensures
        handled(p, events).is_prefix_of(events),
        !after(p, events).stopped ==> handled(p, events) == events,
    decreases events.len(),
{
    if events.len() > 0 {
        let prev = events.drop_last();
        running_relay_handles_all(p, prev);
        if !after(p, prev).stopped {
            assert(prev.push(events.last()) == events);
        } else {
            let h = handled(p, prev);
            assert(h == events.subrange(0, h.len() as int));
        }
    }
}

/// A relay ends at most once; the server takes the tunnel out of its registry
/// just then, the client never touches one.
pub proof fn relay_ends_once(p: GrpcProxy, events: Seq<GrpcEventView>)
    requires
        !p.stopped,
    ensures
        endings(steps(p, events)) == if after(p, events).stopped {
            1nat
        } else {
            0nat
        },
        removals(steps(p, events)) == if at_server(p.side) {
            endings(steps(p, events))
        } else {
            0nat
        },
    decreases events.len(),
{
    if events.len() > 0 {
        relay_ends_once(p, events.drop_last());
        side_stays(p, events.drop_last());
        assert(steps(p, events).drop_last() == steps(p, events.drop_last()));
    }
}

/// What one end of a TCP tunnel read from its socket, the other end writes to
/// its own, whichever of the two is the client: where the stream delivers at the
/// far end a first part of what the near end sent, the far end has written just
/// that part of what the near end read, in the same pieces and the same order.
pub proof fn tcp_tunnel_carries_the_stream(
    near_side: GrpcSide,
    near: Seq<GrpcEventView>,
    far_side: GrpcSide,
    far: Seq<GrpcEventView>,
)
    requires
        over_tcp(near_side),
        over_tcp(far_side),
        link_input(handled(fresh(far_side), far)).is_prefix_of(
            link_output(steps(fresh(near_side), near)),
        ),
    ensures
        ({
            let read = socket_input(near_side, handled(fresh(near_side), near));
            let delivered = link_input(handled(fresh(far_side), far));
            let written = socket_output(steps(fresh(far_side), far));
            written == read.take(delivered.len() as int)
        }),
{
    relay_passes_everything_on(fresh(near_side), near);
    relay_passes_everything_on(fresh(far_side), far);
}

/// What `step` makes of an event, whichever it is, is a relay of the same side; a relay
/// that has ended stays as it is and asks for nothing.
pub proof fn an_ended_relay_does_nothing(
    p: GrpcProxy,
    event: GrpcEvent,
    q: GrpcProxy,
    s: GrpcStep,
)
    requires
        (q, s@) == next(p, event@),
    ensures
        q.side == p.side,
        p.stopped ==> q == p && s.action is Finished && !s.touch && !s.remove,
        !p.stopped ==> !(s.action is Finished),
{
}

/// A new relay runs and waits for both its sources.
pub proof fn a_new_relay_runs(side: GrpcSide)
    ensures
        fresh(side) == (GrpcProxy { side, link: true, socket: true, stopped: false }),
{
}

/// A running relay ends over a failed delivery, an error of the stream, a close
/// message, the end of a TCP stream, or when its second source drops out of a wait.
/// Nothing else ends it. The server then says goodbye and leaves the registry, the
/// client does neither.
pub proof fn what_ends_a_relay(p: GrpcProxy, event: GrpcEvent, q: GrpcProxy, s: GrpcStep)
    requires
        (q, s@) == next(p, event@),
        !p.stopped,
    ensures
        q.stopped <==> {
            ||| event == GrpcEvent::Delivered(false)
            ||| event == GrpcEvent::Link(Inbound::Failed)
            ||| event matches GrpcEvent::Link(Inbound::Message(m)) && m.message_type matches Some(
                t,
            ) && t is Close
            ||| event matches GrpcEvent::Socket(Some(d)) && d@.len() == 0 && p.side
                != GrpcSide::ServerUdp
            ||| event == GrpcEvent::Link(Inbound::Ended) && !p.socket
            ||| event == GrpcEvent::Socket(None) && !p.link
        },
        q.stopped <==> s.action is Finish,
        s.remove <==> q.stopped && p.side != GrpcSide::ClientTcp,
        s.action matches GrpcAction::Finish(m) ==> (m is None <==> p.side == GrpcSide::ClientTcp),
        s.action matches GrpcAction::Finish(Some(m)) ==> m.message_type matches Some(
            MessageType::Close { reason },
        ) && reason@ == "Connection closed"@,
{
}

/// A running relay writes to its socket exactly what a data message holds, and goes on.
pub proof fn data_messages_are_written(p: GrpcProxy, event: GrpcEvent, q: GrpcProxy, s: GrpcStep)
    requires
        (q, s@) == next(p, event@),
        !p.stopped,
    ensures
        event matches GrpcEvent::Link(Inbound::Message(m)) ==> (m.message_type matches Some(
            MessageType::Data { payload },
        ) ==> s.action matches GrpcAction::WriteSocket(w) && w@ == payload@),
        s.action matches GrpcAction::WriteSocket(w) ==> event matches GrpcEvent::Link(
            Inbound::Message(m),
        ) && m.message_type matches Some(MessageType::Data { payload }) && w@ == payload@,
        s.action is WriteSocket ==> !q.stopped,
{
}

/// A running relay sends in one data message exactly what its socket delivered, an
/// empty datagram too, and goes on.
pub proof fn socket_data_is_sent(p: GrpcProxy, event: GrpcEvent, q: GrpcProxy, s: GrpcStep)
    requires
        (q, s@) == next(p, event@),
        !p.stopped,
    ensures
        event matches GrpcEvent::Socket(Some(d)) ==> (d@.len() > 0 || p.side == GrpcSide::ServerUdp
            ==> (s.action matches GrpcAction::SendLink(m) && m.message_type matches Some(
            MessageType::Data { payload },
        ) && payload@ == d@)),
        s.action matches GrpcAction::SendLink(m) ==> (m.message_type matches Some(
            MessageType::Data { payload },
        ) ==> event matches GrpcEvent::Socket(Some(d)) && payload@ == d@),
        s.action is SendLink ==> !q.stopped,
{
}

/// A running relay of the server answers a ping with a pong of the same time, the
/// client's answers none. No other message than these and data is sent by a relay that
/// goes on.
pub proof fn pings_and_pongs(p: GrpcProxy, event: GrpcEvent, q: GrpcProxy, s: GrpcStep)
    requires
        (q, s@) == next(p, event@),
        !p.stopped,
    ensures
        event matches GrpcEvent::Link(Inbound::Message(m)) ==> (m.message_type matches Some(
            MessageType::Ping { timestamp },
        ) ==> (p.side != GrpcSide::ClientTcp ==> (s.action matches GrpcAction::SendLink(a)
            && a.message_type == Some(MessageType::Pong { timestamp })))),
        s.action matches GrpcAction::SendLink(a) ==> (a.message_type matches Some(
            MessageType::Pong { timestamp },
        ) ==> p.side != GrpcSide::ClientTcp && (event matches GrpcEvent::Link(Inbound::Message(m))
            && m.message_type == Some(MessageType::Ping { timestamp }))),
        s.action matches GrpcAction::SendLink(a) ==> a.message_type matches Some(t) && (t is Data
            || t is Pong),
{
}

/// A source is left out of a wait only from its dropping out until the next event that
/// is no dropping out: every other event of a running relay, a delivery in particular,
/// begins a wait for both.
pub proof fn what_a_wait_includes(p: GrpcProxy, event: GrpcEvent, q: GrpcProxy, s: GrpcStep)
    requires
        (q, s@) == next(p, event@),
        !p.stopped,
        !q.stopped,
    ensures
        event == GrpcEvent::Link(Inbound::Ended) ==> !q.link && q.socket == p.socket,
        event == GrpcEvent::Socket(None) ==> !q.socket && q.link == p.link,
        event != GrpcEvent::Link(Inbound::Ended) && event != GrpcEvent::Socket(None) ==> q.link
            && q.socket,
        s.action matches GrpcAction::Wait { link, socket } ==> link == q.link && socket == q.socket,
        event == GrpcEvent::Delivered(true) ==> s.action == (GrpcAction::Wait {
            link: true,
            socket: true,
        }),
        event == GrpcEvent::Link(Inbound::Ended) || event == GrpcEvent::Socket(None)
            ==> s.action is Wait,
        event matches GrpcEvent::Link(Inbound::Message(m)) ==> match m.message_type {
            None => s.action is Wait,
            Some(t) => (t is Init || t is Pong || (t is Ping && p.side == GrpcSide::ClientTcp)
                ==> s.action is Wait),
        },
{
}

/// A running relay of the server notes activity for every message from the stream, a
/// close message too, and for every piece of data from its socket, and for nothing
/// else; the client's notes none.
pub proof fn what_counts_as_activity(p: GrpcProxy, event: GrpcEvent, q: GrpcProxy, s: GrpcStep)
    requires
        (q, s@) == next(p, event@),
        !p.stopped,
    ensures
        p.side == GrpcSide::ClientTcp ==> !s.touch,
        p.side != GrpcSide::ClientTcp ==> (s.touch <==> {
            ||| event matches GrpcEvent::Link(i) && i is Message
            ||| event matches GrpcEvent::Socket(Some(d)) && (d@.len() > 0 || p.side
                == GrpcSide::ServerUdp)
        }),
{
}

} // verus!
