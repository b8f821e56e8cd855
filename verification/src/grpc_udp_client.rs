//! The client's end of a UDP tunnel over gRPC.
//!
//! One local socket serves every local application; what comes back goes to the
//! application that was heard of last. The client waits for its socket and its
//! stream at once, and a source that has nothing more to give drops out of the
//! wait until the next wait begins.

use vstd::prelude::*;

use crate::grpc_proxy::Inbound;
#[allow(unused_imports)]
use crate::grpc_proxy::{self, GrpcEventView, GrpcSide, InboundView};
use crate::message::{data_message, MessageType, TunnelMessage};
#[allow(unused_imports)]
use crate::message::MessageTypeView;

verus! {

/// The client's end of a UDP tunnel. `P` is the address of a local application.
#[derive(Debug, PartialEq, Eq)]
pub struct GrpcClientUdp<P> {
    /// Whether the current wait still includes the local socket.
    pub local: bool,
    /// Whether the current wait still includes the stream.
    pub link: bool,
    /// The application that was heard of last.
    pub last_peer: Option<P>,
    /// Whether the relay has ended.
    pub stopped: bool,
}

/// What happened to the client.
#[derive(Debug, PartialEq, Eq)]
pub enum GrpcUdpEvent<P> {
    /// The local socket delivered a packet and its sender, or its read failed.
    Local(Option<(Vec<u8>, P)>),
    /// The stream was read.
    Link(Inbound),
    /// The send on the stream is done; it may have failed.
    Sent(bool),
    /// The send to a local application is done; it may have failed.
    Replied(bool),
}

/// What the client does next.
#[derive(Debug, PartialEq, Eq)]
pub enum GrpcUdpAction<P> {
    /// Wait for the sources that are marked.
    Wait { local: bool, link: bool },
    /// Send the message on the stream.
    SendLink(TunnelMessage),
    /// Send a reply to a local application.
    SendTo(Vec<u8>, P),
    /// Let the stream go: the relay has just ended.
    Finish,
    /// Give up: both sources have dropped out of one wait, which the client has
    /// no way to go on from.
    Stalled,
    /// Nothing: the relay ended before.
    Finished,
}

/// `GrpcUdpEvent` as a mathematical value.
pub enum GrpcUdpEventView<P> {
    Local(Option<(Seq<u8>, P)>),
    Link(InboundView),
    Sent(bool),
    Replied(bool),
}

/// `GrpcUdpAction` as a mathematical value.
pub enum GrpcUdpActionView<P> {
    Wait { local: bool, link: bool },
    SendLink(Option<MessageTypeView>),
    SendTo(Seq<u8>, P),
    Finish,
    Stalled,
    Finished,
}

impl<P> View for GrpcUdpEvent<P> {
    type V = GrpcUdpEventView<P>;

    open spec fn view(&self) -> GrpcUdpEventView<P> {
        match self {
            GrpcUdpEvent::Local(Some((d, p))) => GrpcUdpEventView::Local(Some((d@, *p))),
            GrpcUdpEvent::Local(None) => GrpcUdpEventView::Local(None),
            GrpcUdpEvent::Link(i) => GrpcUdpEventView::Link(i@),
            GrpcUdpEvent::Sent(ok) => GrpcUdpEventView::Sent(*ok),
            GrpcUdpEvent::Replied(ok) => GrpcUdpEventView::Replied(*ok),
        }
    }
}

impl<P> View for GrpcUdpAction<P> {
    type V = GrpcUdpActionView<P>;

    open spec fn view(&self) -> GrpcUdpActionView<P> {
        match self {
            GrpcUdpAction::Wait { local, link } => GrpcUdpActionView::Wait {
                local: *local,
                link: *link,
            },
            GrpcUdpAction::SendLink(m) => GrpcUdpActionView::SendLink(m@),
            GrpcUdpAction::SendTo(d, p) => GrpcUdpActionView::SendTo(d@, *p),
            GrpcUdpAction::Finish => GrpcUdpActionView::Finish,
            GrpcUdpAction::Stalled => GrpcUdpActionView::Stalled,
            GrpcUdpAction::Finished => GrpcUdpActionView::Finished,
        }
    }
}

/// A client that has heard of no application and waits for both its sources.
pub open spec fn fresh<P>() -> GrpcClientUdp<P> {
    GrpcClientUdp { local: true, link: true, last_peer: None, stopped: false }
}

/// Whether an event leaves a running client without a source to wait for.
pub open spec fn stalls<P>(c: GrpcClientUdp<P>, e: GrpcUdpEventView<P>) -> bool {
    match e {
        GrpcUdpEventView::Local(None) => !c.link,
        GrpcUdpEventView::Link(InboundView::Ended) => !c.local,
        _ => false,
    }
}

/// What makes a running client end: a failed send on the stream, an error of the
/// stream, or a close message.
pub open spec fn ends<P>(e: GrpcUdpEventView<P>) -> bool {
    match e {
        GrpcUdpEventView::Link(InboundView::Failed) => true,
        GrpcUdpEventView::Link(InboundView::Message(m)) => m matches Some(t) && t is Close,
        GrpcUdpEventView::Sent(ok) => !ok,
        _ => false,
    }
}

/// The application that was heard of last, after an event.
pub open spec fn heard<P>(peer: Option<P>, e: GrpcUdpEventView<P>) -> Option<P> {
    match e {
        GrpcUdpEventView::Local(Some((_, p))) => Some(p),
        _ => peer,
    }
}

/// The client after an event that does not end it. A source that drops out leaves
/// the wait to the other; everything else begins a new wait.
pub open spec fn waits<P>(c: GrpcClientUdp<P>, e: GrpcUdpEventView<P>) -> GrpcClientUdp<P> {
    match e {
        GrpcUdpEventView::Local(None) => GrpcClientUdp { local: false, ..c },
        GrpcUdpEventView::Link(InboundView::Ended) => GrpcClientUdp { link: false, ..c },
        _ => GrpcClientUdp { local: true, link: true, last_peer: heard(c.last_peer, e), ..c },
    }
}

/// The client after an event, and the action that the event calls for.
pub open spec fn next<P>(c: GrpcClientUdp<P>, e: GrpcUdpEventView<P>) -> (
    GrpcClientUdp<P>,
    GrpcUdpActionView<P>,
) {
    if c.stopped {
        (c, GrpcUdpActionView::Finished)
    } else if stalls(c, e) {
        (GrpcClientUdp { stopped: true, ..c }, GrpcUdpActionView::Stalled)
    } else if ends(e) {
        (GrpcClientUdp { stopped: true, ..c }, GrpcUdpActionView::Finish)
    } else {
        let d = waits(c, e);
        let action = match (e, c.last_peer) {
            (GrpcUdpEventView::Local(Some((data, _))), _) => GrpcUdpActionView::SendLink(
                Some(MessageTypeView::Data { payload: data }),
            ),
            (
                GrpcUdpEventView::Link(
                    InboundView::Message(Some(MessageTypeView::Data { payload })),
                ),
                Some(p),
            ) => GrpcUdpActionView::SendTo(payload, p),
            _ => GrpcUdpActionView::Wait { local: d.local, link: d.link },
        };
        (d, action)
    }
}

impl<P: Copy> GrpcClientUdp<P> {
    /// A client that has heard of no application.
    pub fn new() -> (c: GrpcClientUdp<P>)
        ensures
            c == fresh::<P>(),
    {
        GrpcClientUdp { local: true, link: true, last_peer: None, stopped: false }
    }

    /// Begins a new wait.
    fn wait(&mut self) -> (a: GrpcUdpAction<P>)
        ensures
            *final(self) == (GrpcClientUdp { local: true, link: true, ..*old(self) }),
            a@ == (GrpcUdpActionView::<P>::Wait { local: true, link: true }),
    {
        self.local = true;
        self.link = true;
        GrpcUdpAction::Wait { local: true, link: true }
    }

    /// Ends the relay with the given action.
    fn stop(&mut self, action: GrpcUdpAction<P>) -> (a: GrpcUdpAction<P>)
        ensures
            *final(self) == (GrpcClientUdp { stopped: true, ..*old(self) }),
            a@ == action@,
    {
        self.stopped = true;
        action
    }

    /// Takes a message from the stream.
    fn receive(&mut self, message: TunnelMessage) -> (a: GrpcUdpAction<P>)
        requires
            !old(self).stopped,
        ensures
            (*final(self), a@) == next(
                *old(self),
                GrpcUdpEventView::Link(InboundView::Message(message@)),
            ),
    {
        match message.message_type {
            Some(MessageType::Data { payload }) => match self.last_peer {
                Some(peer) => {
                    self.local = true;
                    self.link = true;
                    GrpcUdpAction::SendTo(payload, peer)
                },
                None => self.wait(),
            },
            Some(MessageType::Close { .. }) => self.stop(GrpcUdpAction::Finish),
            _ => self.wait(),
        }
    }

    /// Takes an event and returns the action that it calls for.
    pub fn step(&mut self, event: GrpcUdpEvent<P>) -> (a: GrpcUdpAction<P>)
        ensures
            (*final(self), a@) == next(*old(self), event@),
    {
        if self.stopped {
            return GrpcUdpAction::Finished;
        }
        match event {
            GrpcUdpEvent::Local(None) => {
                if !self.link {
                    return self.stop(GrpcUdpAction::Stalled);
                }
                self.local = false;
                GrpcUdpAction::Wait { local: false, link: true }
            },
            GrpcUdpEvent::Local(Some((data, peer))) => {
                self.last_peer = Some(peer);
                self.local = true;
                self.link = true;
                GrpcUdpAction::SendLink(data_message(data))
            },
            GrpcUdpEvent::Link(Inbound::Ended) => {
                if !self.local {
                    return self.stop(GrpcUdpAction::Stalled);
                }
                self.link = false;
                GrpcUdpAction::Wait { local: true, link: false }
            },
            GrpcUdpEvent::Link(Inbound::Failed) => self.stop(GrpcUdpAction::Finish),
            GrpcUdpEvent::Link(Inbound::Message(message)) => self.receive(message),
            GrpcUdpEvent::Sent(ok) => {
                if ok {
                    self.wait()
                } else {
                    self.stop(GrpcUdpAction::Finish)
                }
            },
            GrpcUdpEvent::Replied(_) => self.wait(),
        }
    }
}

/// The client after a sequence of events.
pub open spec fn after<P>(c: GrpcClientUdp<P>, events: Seq<GrpcUdpEventView<P>>) -> GrpcClientUdp<P>
    decreases events.len(),
{
    if events.len() == 0 {
        c
    } else {
        next(after(c, events.drop_last()), events.last()).0
    }
}

/// The actions that a sequence of events calls for.
pub open spec fn actions<P>(c: GrpcClientUdp<P>, events: Seq<GrpcUdpEventView<P>>) -> Seq<
    GrpcUdpActionView<P>,
>
    decreases events.len(),
{
    if events.len() == 0 {
        Seq::empty()
    } else {
        actions(c, events.drop_last()).push(
            next(after(c, events.drop_last()), events.last()).1,
        )
    }
}

/// The events that found the client running.
pub open spec fn handled<P>(c: GrpcClientUdp<P>, events: Seq<GrpcUdpEventView<P>>) -> Seq<
    GrpcUdpEventView<P>,
>
    decreases events.len(),
{
    if events.len() == 0 {
        events
    } else if after(c, events.drop_last()).stopped {
        handled(c, events.drop_last())
    } else {
        handled(c, events.drop_last()).push(events.last())
    }
}

/// The packets among some events.
pub open spec fn packets<P>(events: Seq<GrpcUdpEventView<P>>) -> Seq<Seq<u8>>
    decreases events.len(),
{
    if events.len() == 0 {
        Seq::empty()
    } else {
        let before = packets(events.drop_last());
        match events.last() {
            GrpcUdpEventView::Local(Some((d, _))) => before.push(d),
            _ => before,
        }
    }
}

/// The application that sent the last packet among some events.
pub open spec fn latest_sender<P>(events: Seq<GrpcUdpEventView<P>>) -> Option<P>
    decreases events.len(),
{
    if events.len() == 0 {
        None
    } else {
        heard(latest_sender(events.drop_last()), events.last())
    }
}

/// The data messages among some events.
pub open spec fn reply_input<P>(events: Seq<GrpcUdpEventView<P>>) -> Seq<Seq<u8>>
    decreases events.len(),
{
    if events.len() == 0 {
        Seq::empty()
    } else {
        let before = reply_input(events.drop_last());
        match events.last() {
            GrpcUdpEventView::Link(
                InboundView::Message(Some(MessageTypeView::Data { payload })),
            ) => before.push(payload),
            _ => before,
        }
    }
}

/// The data messages among some events, each with the application that had sent
/// the last packet before it; those that came before every packet are left out.
pub open spec fn replies_due<P>(events: Seq<GrpcUdpEventView<P>>) -> Seq<(Seq<u8>, P)>
    decreases events.len(),
{
    if events.len() == 0 {
        Seq::empty()
    } else {
        let before = replies_due(events.drop_last());
        match (events.last(), latest_sender(events.drop_last())) {
            (
                GrpcUdpEventView::Link(
                    InboundView::Message(Some(MessageTypeView::Data { payload })),
                ),
                Some(p),
            ) => before.push((payload, p)),
            _ => before,
        }
    }
}

/// The packets sent on the stream.
pub open spec fn forwarded<P>(acts: Seq<GrpcUdpActionView<P>>) -> Seq<Seq<u8>>
    decreases acts.len(),
{
    if acts.len() == 0 {
        Seq::empty()
    } else {
        let before = forwarded(acts.drop_last());
        match acts.last() {
            GrpcUdpActionView::SendLink(Some(MessageTypeView::Data { payload })) => before.push(
                payload,
            ),
            _ => before,
        }
    }
}

/// The replies sent to local applications.
pub open spec fn replies<P>(acts: Seq<GrpcUdpActionView<P>>) -> Seq<(Seq<u8>, P)>
    decreases acts.len(),
{
    if acts.len() == 0 {
        Seq::empty()
    } else {
        let before = replies(acts.drop_last());
        match acts.last() {
            GrpcUdpActionView::SendTo(d, p) => before.push((d, p)),
            _ => before,
        }
    }
}

/// A running client ends on an event exactly where `ends` or `stalls` says so, and
/// an ended client does not start again.
pub proof fn only_endings_end<P>(c: GrpcClientUdp<P>, e: GrpcUdpEventView<P>)
    ensures
        next(c, e).0.stopped <==> c.stopped || ends(e) || stalls(c, e),
{
}

/// A running client sends on each packet, once, unchanged and in order.
pub proof fn packets_are_forwarded<P>(c: GrpcClientUdp<P>, events: Seq<GrpcUdpEventView<P>>)
    ensures
        forwarded(actions(c, events)) == packets(handled(c, events)),
    decreases events.len(),
{
    if events.len() > 0 {
        let prev = events.drop_last();
        packets_are_forwarded(c, prev);
        assert(actions(c, events).drop_last() == actions(c, prev));
        if !after(c, prev).stopped {
            assert(handled(c, events).drop_last() == handled(c, prev));
        }
    }
}

proof fn last_peer_is_latest_sender<P>(events: Seq<GrpcUdpEventView<P>>)
    ensures
        after(fresh::<P>(), events).last_peer == latest_sender(handled(fresh::<P>(), events)),
    decreases events.len(),
{
    if events.len() > 0 {
        let c = fresh::<P>();
        let prev = events.drop_last();
        last_peer_is_latest_sender(prev);
        if !after(c, prev).stopped {
            assert(handled(c, events).drop_last() == handled(c, prev));
        }
    }
}

/// Each reply goes, unchanged and in order, to the application that sent the last
/// packet before it; a reply that came before every packet goes nowhere.
pub proof fn replies_go_to_the_latest_sender<P>(events: Seq<GrpcUdpEventView<P>>)
    ensures
        replies(actions(fresh::<P>(), events)) == replies_due(handled(fresh::<P>(), events)),
    decreases events.len(),
{
    if events.len() > 0 {
        let c = fresh::<P>();
        let prev = events.drop_last();
        replies_go_to_the_latest_sender(prev);
        last_peer_is_latest_sender(prev);
        assert(actions(c, events).drop_last() == actions(c, prev));
        if !after(c, prev).stopped {
            assert(handled(c, events).drop_last() == handled(c, prev));
        }
    }
}

/// The packets that the client took are the ones that the server writes to its
/// target: where the stream delivers at the server a first part of what the client
/// sent, the server has written just that part, packet by packet.
pub proof fn udp_tunnel_carries_the_packets<P>(
    near: Seq<GrpcUdpEventView<P>>,
    far: Seq<GrpcEventView>,
)
    requires
        grpc_proxy::link_input(
            grpc_proxy::handled(grpc_proxy::fresh(GrpcSide::ServerUdp), far),
        ).is_prefix_of(forwarded(actions(fresh::<P>(), near))),
    ensures
        ({
            let server = grpc_proxy::fresh(GrpcSide::ServerUdp);
            let delivered = grpc_proxy::link_input(grpc_proxy::handled(server, far));
            grpc_proxy::socket_output(grpc_proxy::steps(server, far)) == packets(
                handled(fresh::<P>(), near),
            ).take(delivered.len() as int)
        }),
{
    grpc_proxy::relay_passes_everything_on(grpc_proxy::fresh(GrpcSide::ServerUdp), far);
    packets_are_forwarded(fresh::<P>(), near);
}

/// What the target sends back, the client hands to the local application that was
/// heard of last: where the data that reaches the client is a first part of what
/// the server sent, it is just that part of what the server read.
pub proof fn udp_tunnel_carries_the_replies<P>(
    near: Seq<GrpcUdpEventView<P>>,
    far: Seq<GrpcEventView>,
)
    requires
        reply_input(handled(fresh::<P>(), near)).is_prefix_of(
            grpc_proxy::link_output(
                grpc_proxy::steps(grpc_proxy::fresh(GrpcSide::ServerUdp), far),
            ),
        ),
    ensures
        ({
            let server = grpc_proxy::fresh(GrpcSide::ServerUdp);
            let arrived = reply_input(handled(fresh::<P>(), near));
            arrived == grpc_proxy::socket_input(
                GrpcSide::ServerUdp,
                grpc_proxy::handled(server, far),
            ).take(arrived.len() as int)
        }),
        replies(actions(fresh::<P>(), near)) == replies_due(handled(fresh::<P>(), near)),
{
    grpc_proxy::relay_passes_everything_on(grpc_proxy::fresh(GrpcSide::ServerUdp), far);
    replies_go_to_the_latest_sender(near);
}

/// A new client runs, has no application to answer and waits for both its sources.
pub proof fn a_new_client_waits<P>()
    ensures
        !fresh::<P>().stopped,
        fresh::<P>().local && fresh::<P>().link,
        fresh::<P>().last_peer is None,
{
}

/// A client that has ended stays as it is and asks for nothing.
pub proof fn an_ended_client_does_nothing<P>(
    c: GrpcClientUdp<P>,
    event: GrpcUdpEvent<P>,
    d: GrpcClientUdp<P>,
    a: GrpcUdpAction<P>,
)
    requires
        (d, a@) == next(c, event@),
    ensures
        c.stopped ==> d == c && a is Finished,
        !c.stopped ==> !(a is Finished),
{
}

/// A running client ends over a failed send on the stream, an error of the stream or a
/// close message, and gives up when its second source drops out of a wait. Nothing else
/// ends it, whatever becomes of a reply.
pub proof fn what_ends_a_client<P>(
    c: GrpcClientUdp<P>,
    event: GrpcUdpEvent<P>,
    d: GrpcClientUdp<P>,
    a: GrpcUdpAction<P>,
)
    requires
        (d, a@) == next(c, event@),
        !c.stopped,
    ensures
        a is Finish <==> {
            ||| event == GrpcUdpEvent::<P>::Sent(false)
            ||| event == GrpcUdpEvent::<P>::Link(Inbound::Failed)
            ||| event matches GrpcUdpEvent::Link(Inbound::Message(m)) && m.message_type matches Some(
                t,
            ) && t is Close
        },
        a is Stalled <==> {
            ||| event == GrpcUdpEvent::<P>::Local(None) && !c.link
            ||| event == GrpcUdpEvent::<P>::Link(Inbound::Ended) && !c.local
        },
        d.stopped <==> a is Finish || a is Stalled,
{
}

/// A running client sends each packet as it is in one data message, and its sender
/// becomes the application to answer; nothing else is sent on the stream and no other
/// event changes whom to answer.
pub proof fn packets_are_sent<P>(
    c: GrpcClientUdp<P>,
    event: GrpcUdpEvent<P>,
    d: GrpcClientUdp<P>,
    a: GrpcUdpAction<P>,
)
    requires
        (d, a@) == next(c, event@),
        !c.stopped,
    ensures
        event matches GrpcUdpEvent::Local(Some((data, peer))) ==> d.last_peer == Some(peer) && (
        a matches GrpcUdpAction::SendLink(m) && m.message_type matches Some(
            MessageType::Data { payload },
        ) && payload@ == data@),
        a is SendLink ==> event matches GrpcUdpEvent::Local(Some(_)),
        !(event matches GrpcUdpEvent::Local(Some(_))) ==> d.last_peer == c.last_peer,
{
}

/// A running client hands each piece of data from the stream as it is to the
/// application that was heard of last, where there is one, and hands out nothing else.
pub proof fn replies_are_handed_out<P>(
    c: GrpcClientUdp<P>,
    event: GrpcUdpEvent<P>,
    d: GrpcClientUdp<P>,
    a: GrpcUdpAction<P>,
)
    requires
        (d, a@) == next(c, event@),
        !c.stopped,
    ensures
        event matches GrpcUdpEvent::Link(Inbound::Message(m)) ==> (m.message_type matches Some(
            MessageType::Data { payload },
        ) ==> match c.last_peer {
            Some(peer) => a matches GrpcUdpAction::SendTo(w, p) && w@ == payload@ && p == peer,
            None => a == (GrpcUdpAction::<P>::Wait { local: true, link: true }),
        }),
        a matches GrpcUdpAction::SendTo(w, p) ==> c.last_peer == Some(p) && (event matches
            GrpcUdpEvent::Link(Inbound::Message(m)) && m.message_type matches Some(
            MessageType::Data { payload },
        ) && w@ == payload@),
{
}

/// A source is left out of a wait only from its dropping out until the next event that
/// is no dropping out: every other event of a running client, the sending of a packet or
/// of a reply in particular, leads to a wait for both.
pub proof fn what_a_wait_includes<P>(
    c: GrpcClientUdp<P>,
    event: GrpcUdpEvent<P>,
    d: GrpcClientUdp<P>,
    a: GrpcUdpAction<P>,
)
    requires
        (d, a@) == next(c, event@),
        !c.stopped,
        !d.stopped,
    ensures
        event == GrpcUdpEvent::<P>::Local(None) ==> !d.local && d.link == c.link,
        event == GrpcUdpEvent::<P>::Link(Inbound::Ended) ==> !d.link && d.local == c.local,
        event != GrpcUdpEvent::<P>::Local(None) && event != GrpcUdpEvent::<P>::Link(Inbound::Ended)
            ==> d.local && d.link,
        a matches GrpcUdpAction::Wait { local, link } ==> local == d.local && link == d.link,
        event is Sent || event is Replied ==> a == (GrpcUdpAction::<P>::Wait {
            local: true,
            link: true,
        }),
        event == GrpcUdpEvent::<P>::Local(None) || event == GrpcUdpEvent::<P>::Link(Inbound::Ended)
            ==> a is Wait,
        event matches GrpcUdpEvent::Link(Inbound::Message(m)) ==> match m.message_type {
            None => a is Wait,
            Some(t) => (t is Init || t is Ping || t is Pong ==> a is Wait),
        },
{
}

/// After a packet and its sending, and after a reply and its sending, the client waits
/// for both its sources.
pub proof fn every_turn_waits_for_both<P>(c: GrpcClientUdp<P>, data: Seq<u8>, peer: P, ok: bool)
    requires
        !c.stopped,
    ensures
        ({
            let sent = next(c, GrpcUdpEventView::Local(Some((data, peer)))).0;
            next(sent, GrpcUdpEventView::Sent(true)).1 == (GrpcUdpActionView::<P>::Wait {
                local: true,
                link: true,
            })
        }),
        ({
            let message = InboundView::Message(Some(MessageTypeView::Data { payload: data }));
            let answered = next(c, GrpcUdpEventView::<P>::Link(message)).0;
            next(answered, GrpcUdpEventView::Replied(ok)).1 == (GrpcUdpActionView::<P>::Wait {
                local: true,
                link: true,
            })
        }),
{
}

} // verus!
