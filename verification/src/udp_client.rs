//! The client's end of a UDP tunnel over WebSocket.
//!
//! One local socket serves every local application. The WebSocket is opened when
//! the first packet arrives and opened again, with the next packet, after a send
//! has failed. What comes back goes to the application that was heard of last.

use vstd::prelude::*;

use crate::message::Message;
#[allow(unused_imports)]
use crate::message::MessageView;
#[allow(unused_imports)]
use crate::tunnel_id::TunnelKind;
#[allow(unused_imports)]
use crate::ws_proxy;

verus! {

/// Where the client is between two events.
enum Phase {
    /// Waiting for a local packet or a reply.
    Waiting,
    /// Connecting, with the packet that asked for it.
    Connecting(Vec<u8>),
    /// Sending the tunnel's name, with the packet that comes next.
    Greeting(Vec<u8>),
    /// Sending a packet on the WebSocket.
    Forwarding,
    /// Sending a reply to a local application.
    Replying,
    /// Given up.
    Failed,
}

/// The client's end of a UDP tunnel. `P` is the address of a local application.
pub struct ClientUdp<P> {
    uuid: String,
    local: bool,
    connected: bool,
    last_peer: Option<P>,
    phase: Phase,
}

/// What happened to the client.
#[derive(Debug, PartialEq, Eq)]
pub enum UdpEvent<P> {
    /// The local socket delivered a packet and its sender, or its read failed.
    Local(Option<(Vec<u8>, P)>),
    /// A reader of the WebSocket passed a packet on.
    Reply(Vec<u8>),
    /// The action that was asked for is done; it may have failed.
    Done(bool),
}

/// What the client does next.
#[derive(Debug, PartialEq, Eq)]
pub enum UdpAction<P> {
    /// Wait for a reply, and for the local socket where it is marked.
    Wait { local: bool },
    /// Open a WebSocket, in place of any that was open.
    Connect,
    /// Send the tunnel's name on the WebSocket.
    Greet(Message),
    /// Send a packet on the WebSocket; `start_reader` where the WebSocket is new
    /// and nothing reads from it yet.
    Forward { message: Message, start_reader: bool },
    /// Send a reply to a local application.
    SendTo(Vec<u8>, P),
    /// Give up: the tunnel's name could not be sent.
    Fail,
}

/// `Phase` as a mathematical value.
pub enum PhaseView {
    Waiting,
    Connecting(Seq<u8>),
    Greeting(Seq<u8>),
    Forwarding,
    Replying,
    Failed,
}

/// `ClientUdp` as a mathematical value.
pub struct ClientUdpView<P> {
    /// The name of the tunnel.
    pub uuid: Seq<char>,
    /// Whether the current wait still includes the local socket.
    pub local: bool,
    /// Whether a WebSocket is open, as far as is known.
    pub connected: bool,
    /// The application that was heard of last.
    pub last_peer: Option<P>,
    pub phase: PhaseView,
}

/// `UdpEvent` as a mathematical value.
pub enum UdpEventView<P> {
    Local(Option<(Seq<u8>, P)>),
    Reply(Seq<u8>),
    Done(bool),
}

/// `UdpAction` as a mathematical value.
pub enum UdpActionView<P> {
    Wait { local: bool },
    Connect,
    Greet(MessageView),
    Forward { message: MessageView, start_reader: bool },
    SendTo(Seq<u8>, P),
    Fail,
}

impl View for Phase {
    type V = PhaseView;

    closed spec fn view(&self) -> PhaseView {
        match self {
            Phase::Waiting => PhaseView::Waiting,
            Phase::Connecting(d) => PhaseView::Connecting(d@),
            Phase::Greeting(d) => PhaseView::Greeting(d@),
            Phase::Forwarding => PhaseView::Forwarding,
            Phase::Replying => PhaseView::Replying,
            Phase::Failed => PhaseView::Failed,
        }
    }
}

impl<P> View for ClientUdp<P> {
    type V = ClientUdpView<P>;

    closed spec fn view(&self) -> ClientUdpView<P> {
        ClientUdpView {
            uuid: self.uuid@,
            local: self.local,
            connected: self.connected,
            last_peer: self.last_peer,
            phase: self.phase@,
        }
    }
}

impl<P> View for UdpEvent<P> {
    type V = UdpEventView<P>;

    open spec fn view(&self) -> UdpEventView<P> {
        match self {
            UdpEvent::Local(Some((d, p))) => UdpEventView::Local(Some((d@, *p))),
            UdpEvent::Local(None) => UdpEventView::Local(None),
            UdpEvent::Reply(d) => UdpEventView::Reply(d@),
            UdpEvent::Done(ok) => UdpEventView::Done(*ok),
        }
    }
}

impl<P> View for UdpAction<P> {
    type V = UdpActionView<P>;

    open spec fn view(&self) -> UdpActionView<P> {
        match self {
            UdpAction::Wait { local } => UdpActionView::Wait { local: *local },
            UdpAction::Connect => UdpActionView::Connect,
            UdpAction::Greet(m) => UdpActionView::Greet(m@),
            UdpAction::Forward { message, start_reader } => UdpActionView::Forward {
                message: message@,
                start_reader: *start_reader,
            },
            UdpAction::SendTo(d, p) => UdpActionView::SendTo(d@, *p),
            UdpAction::Fail => UdpActionView::Fail,
        }
    }
}

/// Whether an event is one that the client is waiting for: a packet or a reply
/// while it waits, an outcome while it acts, nothing after it gave up.
pub open spec fn expected<P>(c: ClientUdpView<P>, e: UdpEventView<P>) -> bool {
    match c.phase {
        PhaseView::Waiting => !(e is Done),
        PhaseView::Failed => false,
        _ => e is Done,
    }
}

/// The client at the start of a new wait.
pub open spec fn waiting<P>(c: ClientUdpView<P>) -> ClientUdpView<P> {
    ClientUdpView { local: true, phase: PhaseView::Waiting, ..c }
}

/// What a packet or a reply leads to.
pub open spec fn on_arrival<P>(c: ClientUdpView<P>, e: UdpEventView<P>) -> (
    ClientUdpView<P>,
    UdpActionView<P>,
) {
    match e {
        UdpEventView::Local(None) => (
            ClientUdpView { local: false, ..c },
            UdpActionView::Wait { local: false },
        ),
        UdpEventView::Local(Some((d, p))) => {
            let heard = ClientUdpView { last_peer: Some(p), ..c };
            if c.connected {
                (
                    ClientUdpView { phase: PhaseView::Forwarding, ..heard },
                    UdpActionView::Forward {
                        message: MessageView::Binary(d),
                        start_reader: false,
                    },
                )
            } else {
                (
                    ClientUdpView { phase: PhaseView::Connecting(d), ..heard },
                    UdpActionView::Connect,
                )
            }
        },
        UdpEventView::Reply(d) => match c.last_peer {
            Some(p) => (
                ClientUdpView { phase: PhaseView::Replying, ..c },
                UdpActionView::SendTo(d, p),
            ),
            None => (waiting(c), UdpActionView::Wait { local: true }),
        },
        UdpEventView::Done(_) => (c, UdpActionView::Wait { local: c.local }),
    }
}

/// What the outcome of an action leads to. A packet whose connection cannot be
/// opened is dropped; a packet that cannot be sent is lost, and the next one opens
/// a new connection; whether a reply arrives does not matter.
pub open spec fn on_outcome<P>(c: ClientUdpView<P>, ok: bool) -> (
    ClientUdpView<P>,
    UdpActionView<P>,
) {
    match (c.phase, ok) {
        (PhaseView::Connecting(d), true) => (
            ClientUdpView { connected: true, phase: PhaseView::Greeting(d), ..c },
            UdpActionView::Greet(MessageView::Text(c.uuid)),
        ),
        (PhaseView::Greeting(d), true) => (
            ClientUdpView { phase: PhaseView::Forwarding, ..c },
            UdpActionView::Forward { message: MessageView::Binary(d), start_reader: true },
        ),
        (PhaseView::Greeting(_), false) => (
            ClientUdpView { phase: PhaseView::Failed, ..c },
            UdpActionView::Fail,
        ),
        (PhaseView::Forwarding, false) => (
            waiting(ClientUdpView { connected: false, ..c }),
            UdpActionView::Wait { local: true },
        ),
        _ => (waiting(c), UdpActionView::Wait { local: true }),
    }
}

/// The client after an event, and the action that the event calls for; an event
/// that the client is not waiting for changes nothing and calls for nothing.
pub open spec fn next<P>(c: ClientUdpView<P>, e: UdpEventView<P>) -> (
    ClientUdpView<P>,
    Option<UdpActionView<P>>,
) {
    if !expected(c, e) {
        (c, None)
    } else {
        let (d, action) = match e {
            UdpEventView::Done(ok) => on_outcome(c, ok),
            _ => on_arrival(c, e),
        };
        (d, Some(action))
    }
}

/// A client that has heard of no application and waits for the first packet.
pub open spec fn fresh<P>(uuid: Seq<char>) -> ClientUdpView<P> {
    ClientUdpView {
        uuid,
        local: true,
        connected: false,
        last_peer: None,
        phase: PhaseView::Waiting,
    }
}

/// What a reader of the WebSocket passes on: the data of a binary message. Any
/// other message, and the end or failure of the WebSocket, end the reader.
pub fn reader_passes(received: Option<Message>) -> (r: Option<Vec<u8>>)
    ensures
        match (received, r) {
            (Some(Message::Binary(d)), Some(passed)) => passed@ == d@,
            (Some(Message::Binary(_)), None) => false,
            (_, passed) => passed is None,
        },
{
    match received {
        Some(Message::Binary(data)) => Some(data),
        _ => None,
    }
}

impl<P: Copy> ClientUdp<P> {
    /// The client's end of the tunnel of the given name, before its first packet.
    pub fn new(uuid: String) -> (c: ClientUdp<P>)
        ensures
            c@ == fresh::<P>(uuid@),
    {
        ClientUdp {
            uuid,
            local: true,
            connected: false,
            last_peer: None,
            phase: Phase::Waiting,
        }
    }

    fn wait(&mut self) -> (a: UdpAction<P>)
        ensures
            final(self)@ == waiting(old(self)@),
            a@ == (UdpActionView::<P>::Wait { local: true }),
    {
        self.local = true;
        self.phase = Phase::Waiting;
        UdpAction::Wait { local: true }
    }

    fn arrived(&mut self, data: Vec<u8>, peer: P) -> (a: UdpAction<P>)
        requires
            old(self)@.phase is Waiting,
        ensures
            (final(self)@, a@) == on_arrival(old(self)@, UdpEventView::Local(Some((data@, peer)))),
    {
        self.last_peer = Some(peer);
        if self.connected {
            self.phase = Phase::Forwarding;
            UdpAction::Forward { message: Message::Binary(data), start_reader: false }
        } else {
            self.phase = Phase::Connecting(data);
            UdpAction::Connect
        }
    }

    fn replied(&mut self, data: Vec<u8>) -> (a: UdpAction<P>)
        requires
            old(self)@.phase is Waiting,
        ensures
            (final(self)@, a@) == on_arrival(old(self)@, UdpEventView::Reply(data@)),
    {
        match self.last_peer {
            Some(peer) => {
                self.phase = Phase::Replying;
                UdpAction::SendTo(data, peer)
            },
            None => self.wait(),
        }
    }

    fn done(&mut self, ok: bool) -> (a: UdpAction<P>)
        requires
            !(old(self)@.phase is Waiting),
            !(old(self)@.phase is Failed),
        ensures
            (final(self)@, a@) == on_outcome(old(self)@, ok),
    {
        let mut phase = Phase::Waiting;
        std::mem::swap(&mut phase, &mut self.phase);
        match phase {
            Phase::Connecting(data) => {
                if ok {
                    self.connected = true;
                    self.phase = Phase::Greeting(data);
                    UdpAction::Greet(Message::Text(self.uuid.clone()))
                } else {
                    self.wait()
                }
            },
            Phase::Greeting(data) => {
                if ok {
                    self.phase = Phase::Forwarding;
                    UdpAction::Forward { message: Message::Binary(data), start_reader: true }
                } else {
                    self.phase = Phase::Failed;
                    UdpAction::Fail
                }
            },
            Phase::Forwarding => {
                if !ok {
                    self.connected = false;
                }
                self.wait()
            },
            _ => self.wait(),
        }
    }

    /// Takes an event and returns the action that it calls for, or nothing where
    /// it is not an event that the client is waiting for.
    pub fn step(&mut self, event: UdpEvent<P>) -> (a: Option<UdpAction<P>>)
        ensures
            final(self)@ == next(old(self)@, event@).0,
            match a {
                Some(action) => next(old(self)@, event@).1 == Some(action@),
                None => next(old(self)@, event@).1 is None,
            },
    {
        let waiting = match self.phase {
            Phase::Waiting => true,
            _ => false,
        };
        let failed = match self.phase {
            Phase::Failed => true,
            _ => false,
        };
        match event {
            UdpEvent::Local(Some((data, peer))) => {
                if waiting {
                    Some(self.arrived(data, peer))
                } else {
                    None
                }
            },
            UdpEvent::Local(None) => {
                if waiting {
                    self.local = false;
                    Some(UdpAction::Wait { local: false })
                } else {
                    None
                }
            },
            UdpEvent::Reply(data) => {
                if waiting {
                    Some(self.replied(data))
                } else {
                    None
                }
            },
            UdpEvent::Done(ok) => {
                if waiting || failed {
                    None
                } else {
                    Some(self.done(ok))
                }
            },
        }
    }
}

/// The client after a sequence of events.
pub open spec fn after<P>(c: ClientUdpView<P>, events: Seq<UdpEventView<P>>) -> ClientUdpView<P>
    decreases events.len(),
{
    if events.len() == 0 {
        c
    } else {
        next(after(c, events.drop_last()), events.last()).0
    }
}

/// The actions that a sequence of events calls for.
pub open spec fn actions<P>(c: ClientUdpView<P>, events: Seq<UdpEventView<P>>) -> Seq<
    UdpActionView<P>,
>
    decreases events.len(),
{
    if events.len() == 0 {
        Seq::empty()
    } else {
        let before = actions(c, events.drop_last());
        match next(after(c, events.drop_last()), events.last()).1 {
            Some(a) => before.push(a),
            None => before,
        }
    }
}

/// The events that the client was waiting for.
pub open spec fn taken<P>(c: ClientUdpView<P>, events: Seq<UdpEventView<P>>) -> Seq<
    UdpEventView<P>,
>
    decreases events.len(),
{
    if events.len() == 0 {
        events
    } else {
        let before = taken(c, events.drop_last());
        if expected(after(c, events.drop_last()), events.last()) {
            before.push(events.last())
        } else {
            before
        }
    }
}

/// The packets among some events.
pub open spec fn packets<P>(events: Seq<UdpEventView<P>>) -> Seq<Seq<u8>>
    decreases events.len(),
{
    if events.len() == 0 {
        Seq::empty()
    } else {
        let before = packets(events.drop_last());
        match events.last() {
            UdpEventView::Local(Some((d, _))) => before.push(d),
            _ => before,
        }
    }
}

/// The application that sent the last packet among some events.
pub open spec fn latest_sender<P>(events: Seq<UdpEventView<P>>) -> Option<P>
    decreases events.len(),
{
    if events.len() == 0 {
        None
    } else {
        match events.last() {
            UdpEventView::Local(Some((_, p))) => Some(p),
            _ => latest_sender(events.drop_last()),
        }
    }
}

/// The replies among some events, each with the application that had sent the
/// last packet before it; those that came before every packet are left out.
pub open spec fn replies_due<P>(events: Seq<UdpEventView<P>>) -> Seq<(Seq<u8>, P)>
    decreases events.len(),
{
    if events.len() == 0 {
        Seq::empty()
    } else {
        let before = replies_due(events.drop_last());
        match (events.last(), latest_sender(events.drop_last())) {
            (UdpEventView::Reply(d), Some(p)) => before.push((d, p)),
            _ => before,
        }
    }
}

/// The data of the replies among some events.
pub open spec fn reply_input<P>(events: Seq<UdpEventView<P>>) -> Seq<Seq<u8>>
    decreases events.len(),
{
    if events.len() == 0 {
        Seq::empty()
    } else {
        let before = reply_input(events.drop_last());
        match events.last() {
            UdpEventView::Reply(d) => before.push(d),
            _ => before,
        }
    }
}

/// The packets sent on a WebSocket.
pub open spec fn forwarded<P>(acts: Seq<UdpActionView<P>>) -> Seq<Seq<u8>>
    decreases acts.len(),
{
    if acts.len() == 0 {
        Seq::empty()
    } else {
        let before = forwarded(acts.drop_last());
        match acts.last() {
            UdpActionView::Forward { message: MessageView::Binary(d), .. } => before.push(d),
            _ => before,
        }
    }
}

/// The replies sent to local applications.
pub open spec fn replies<P>(acts: Seq<UdpActionView<P>>) -> Seq<(Seq<u8>, P)>
    decreases acts.len(),
{
    if acts.len() == 0 {
        Seq::empty()
    } else {
        let before = replies(acts.drop_last());
        match acts.last() {
            UdpActionView::SendTo(d, p) => before.push((d, p)),
            _ => before,
        }
    }
}

/// What was said on the WebSocket that was opened last.
pub open spec fn said<P>(acts: Seq<UdpActionView<P>>) -> Seq<MessageView>
    decreases acts.len(),
{
    if acts.len() == 0 {
        Seq::empty()
    } else {
        let before = said(acts.drop_last());
        match acts.last() {
            UdpActionView::Connect => Seq::empty(),
            UdpActionView::Greet(m) => before.push(m),
            UdpActionView::Forward { message, .. } => before.push(message),
            _ => before,
        }
    }
}

/// How many readers were started for the WebSocket that was opened last.
pub open spec fn readers<P>(acts: Seq<UdpActionView<P>>) -> nat
    decreases acts.len(),
{
    if acts.len() == 0 {
        0
    } else {
        let before = readers(acts.drop_last());
        match acts.last() {
            UdpActionView::Connect => 0,
            UdpActionView::Forward { start_reader: true, .. } => before + 1,
            _ => before,
        }
    }
}

/// The packet that waits for its WebSocket.
pub open spec fn pending<P>(c: ClientUdpView<P>) -> Seq<Seq<u8>> {
    match c.phase {
        PhaseView::Connecting(d) => seq![d],
        PhaseView::Greeting(d) => seq![d],
        _ => Seq::empty(),
    }
}

/// The packets that the client took, without those that were given up because
/// their WebSocket could not be opened or greeted.
pub open spec fn kept<P>(c: ClientUdpView<P>, events: Seq<UdpEventView<P>>) -> Seq<Seq<u8>>
    decreases events.len(),
{
    if events.len() == 0 {
        Seq::empty()
    } else {
        let before = kept(c, events.drop_last());
        let now = after(c, events.drop_last());
        match events.last() {
            UdpEventView::Local(Some((d, _))) if now.phase is Waiting => before.push(d),
            UdpEventView::Done(false) if now.phase is Connecting || now.phase is Greeting =>
                before.drop_last(),
            _ => before,
        }
    }
}

/// Each packet that the client took is sent on, once, unchanged and in order,
/// unless its WebSocket could not be opened; the last may still be waiting for
/// its WebSocket.
pub proof fn packets_are_forwarded<P>(uuid: Seq<char>, events: Seq<UdpEventView<P>>)
    ensures
        forwarded(actions(fresh::<P>(uuid), events)) + pending(after(fresh::<P>(uuid), events))
            == kept(fresh::<P>(uuid), events),
    decreases events.len(),
{
    let c = fresh::<P>(uuid);
    if events.len() > 0 {
        let prev = events.drop_last();
        packets_are_forwarded(uuid, prev);
        let now = after(c, prev);
        let sent = forwarded(actions(c, prev));
        match next(now, events.last()).1 {
            Some(a) => {
                assert(actions(c, events).drop_last() == actions(c, prev));
                match now.phase {
                    PhaseView::Connecting(d) => {
                        assert((sent + seq![d]).drop_last() == sent);
                        assert(sent + Seq::<Seq<u8>>::empty() == sent);
                    },
                    PhaseView::Greeting(d) => {
                        assert((sent + seq![d]).drop_last() == sent);
                        assert(sent + seq![d] == sent.push(d));
                        assert(sent + Seq::<Seq<u8>>::empty() == sent);
                        assert(sent.push(d) + Seq::<Seq<u8>>::empty() == sent.push(d));
                    },
                    _ => {
                        assert(sent + Seq::<Seq<u8>>::empty() == sent);
                        match events.last() {
                            UdpEventView::Local(Some((d, _))) => {
                                assert(sent + seq![d] == sent.push(d));
                                assert(sent.push(d) + Seq::<Seq<u8>>::empty() == sent.push(d));
                            },
                            _ => {},
                        }
                    },
                }
            },
            None => {},
        }
    } else {
        assert(forwarded(actions(c, events)) + pending(c) == Seq::<Seq<u8>>::empty());
    }
}

/// Where no action fails, no packet is given up.
pub proof fn no_packet_is_given_up<P>(uuid: Seq<char>, events: Seq<UdpEventView<P>>)
    requires
        forall|i: int| 0 <= i < events.len() ==> #[trigger] events[i] != UdpEventView::<P>::Done(
            false,
        ),
    ensures
        kept(fresh::<P>(uuid), events) == packets(taken(fresh::<P>(uuid), events)),
    decreases events.len(),
{
    if events.len() > 0 {
        let c = fresh::<P>(uuid);
        let prev = events.drop_last();
        assert forall|i: int| 0 <= i < prev.len() implies #[trigger] prev[i] != UdpEventView::<
            P,
        >::Done(false) by {
            assert(prev[i] == events[i]);
        }
        no_packet_is_given_up(uuid, prev);
        assert(events[events.len() - 1] == events.last());
        if expected(after(c, prev), events.last()) {
            assert(taken(c, events).drop_last() == taken(c, prev));
        }
    }
}

proof fn last_peer_is_latest_sender<P>(uuid: Seq<char>, events: Seq<UdpEventView<P>>)
    ensures
        after(fresh::<P>(uuid), events).last_peer == latest_sender(
            taken(fresh::<P>(uuid), events),
        ),
    decreases events.len(),
{
    if events.len() > 0 {
        let c = fresh::<P>(uuid);
        let prev = events.drop_last();
        last_peer_is_latest_sender(uuid, prev);
        if expected(after(c, prev), events.last()) {
            assert(taken(c, events).drop_last() == taken(c, prev));
        }
    }
}

/// Each reply goes, unchanged and in order, to the application that sent the last
/// packet before it; a reply that came before every packet goes nowhere.
pub proof fn replies_go_to_the_latest_sender<P>(uuid: Seq<char>, events: Seq<UdpEventView<P>>)
    ensures
        replies(actions(fresh::<P>(uuid), events)) == replies_due(
            taken(fresh::<P>(uuid), events),
        ),
    decreases events.len(),
{
    if events.len() > 0 {
        let c = fresh::<P>(uuid);
        let prev = events.drop_last();
        replies_go_to_the_latest_sender(uuid, prev);
        last_peer_is_latest_sender(uuid, prev);
        if expected(after(c, prev), events.last()) {
            assert(taken(c, events).drop_last() == taken(c, prev));
            assert(actions(c, events).drop_last() == actions(c, prev));
        }
    }
}

proof fn greeted_before_data<P>(uuid: Seq<char>, events: Seq<UdpEventView<P>>)
    ensures
        ({
            let c = after(fresh::<P>(uuid), events);
            let acts = actions(fresh::<P>(uuid), events);
            let words = said(acts);
            &&& c.uuid == uuid
            &&& c.phase is Connecting ==> !c.connected && words.len() == 0
            &&& c.phase is Greeting ==> c.connected && words.len() == 1
            &&& c.connected && !(c.phase is Greeting || c.phase is Failed) ==> words.len() >= 2
            &&& c.phase is Forwarding ==> c.connected
            &&& words.len() > 0 ==> words[0] == MessageView::Text(uuid)
            &&& forall|i: int| 0 < i < words.len() ==> #[trigger] words[i] is Binary
            &&& readers(acts) == if words.len() >= 2 {
                1nat
            } else {
                0nat
            }
        }),
    decreases events.len(),
{
    if events.len() > 0 {
        let c = fresh::<P>(uuid);
        let prev = events.drop_last();
        greeted_before_data(uuid, prev);
        if expected(after(c, prev), events.last()) {
            assert(actions(c, events).drop_last() == actions(c, prev));
        }
    }
}

/// On every WebSocket that the client opens, the tunnel's name comes first and
/// nothing but packets follows.
pub proof fn the_name_comes_first<P>(uuid: Seq<char>, events: Seq<UdpEventView<P>>)
    ensures
        ({
            let words = said(actions(fresh::<P>(uuid), events));
            &&& words.len() > 0 ==> words[0] == MessageView::Text(uuid)
            &&& forall|i: int| 0 < i < words.len() ==> #[trigger] words[i] is Binary
        }),
{
    greeted_before_data(uuid, events);
}

/// A packet opens a WebSocket exactly where none is open: the first packet does, and
/// so does the packet that follows a failed send.
pub proof fn lost_connections_are_reopened<P>(
    uuid: Seq<char>,
    events: Seq<UdpEventView<P>>,
    d: Seq<u8>,
    p: P,
)
    ensures
        ({
            let c = after(fresh::<P>(uuid), events);
            let packet = UdpEventView::Local(Some((d, p)));
            &&& c.phase is Waiting ==> (next(c, packet).1 == Some(UdpActionView::<P>::Connect)
                <==> !c.connected)
            &&& c.phase is Forwarding ==> {
                let lost = next(c, UdpEventView::Done(false)).0;
                next(lost, packet).1 == Some(UdpActionView::<P>::Connect)
            }
        }),
        next(fresh::<P>(uuid), UdpEventView::Local(Some((d, p)))).1 == Some(
            UdpActionView::<P>::Connect,
        ),
{
}

/// Each WebSocket gets one reader, together with the first packet that is sent on
/// it.
pub proof fn one_reader_for_each_websocket<P>(uuid: Seq<char>, events: Seq<UdpEventView<P>>)
    ensures
        readers(actions(fresh::<P>(uuid), events)) == if said(
            actions(fresh::<P>(uuid), events),
        ).len() >= 2 {
            1nat
        } else {
            0nat
        },
{
    greeted_before_data(uuid, events);
}

/// The packets that the client kept are the ones that the server writes to its
/// target: where a relay of the server has been delivered a first part of what the
/// client sent, it has written just that part, packet by packet.
pub proof fn udp_tunnel_carries_the_packets<P>(
    uuid: Seq<char>,
    near: Seq<UdpEventView<P>>,
    far: Seq<ws_proxy::WsEventView>,
)
    requires
        ws_proxy::link_input(
            ws_proxy::handled(ws_proxy::fresh(TunnelKind::Udp), far),
        ).is_prefix_of(forwarded(actions(fresh::<P>(uuid), near))),
    ensures
        ({
            let server = ws_proxy::fresh(TunnelKind::Udp);
            let delivered = ws_proxy::link_input(ws_proxy::handled(server, far));
            ws_proxy::socket_output(ws_proxy::steps(server, far)) == kept(
                fresh::<P>(uuid),
                near,
            ).take(delivered.len() as int)
        }),
{
    let server = ws_proxy::fresh(TunnelKind::Udp);
    ws_proxy::relay_passes_everything_on(server, far);
    packets_are_forwarded(uuid, near);
    let sent = forwarded(actions(fresh::<P>(uuid), near));
    let delivered = ws_proxy::link_input(ws_proxy::handled(server, far));
    assert(kept(fresh::<P>(uuid), near).take(delivered.len() as int) == sent.subrange(
        0,
        delivered.len() as int,
    ));
}

/// What the target sends back, the client hands to the local application that was
/// heard of last: where the replies that reach the client are a first part of what
/// the server sent, they are just that part of what the server read.
pub proof fn udp_tunnel_carries_the_replies<P>(
    uuid: Seq<char>,
    near: Seq<UdpEventView<P>>,
    far: Seq<ws_proxy::WsEventView>,
)
    requires
        reply_input(taken(fresh::<P>(uuid), near)).is_prefix_of(
            ws_proxy::link_output(ws_proxy::steps(ws_proxy::fresh(TunnelKind::Udp), far)),
        ),
    ensures
        ({
            let server = ws_proxy::fresh(TunnelKind::Udp);
            let arrived = reply_input(taken(fresh::<P>(uuid), near));
            arrived == ws_proxy::socket_input(
                TunnelKind::Udp,
                ws_proxy::handled(server, far),
            ).take(arrived.len() as int)
        }),
        replies(actions(fresh::<P>(uuid), near)) == replies_due(taken(fresh::<P>(uuid), near)),
{
    ws_proxy::relay_passes_everything_on(ws_proxy::fresh(TunnelKind::Udp), far);
    replies_go_to_the_latest_sender(uuid, near);
}

/// A new client has the name it was given, no WebSocket and no application to answer,
/// and waits for its local socket.
pub proof fn a_new_client_waits<P>(uuid: Seq<char>)
    ensures
        fresh::<P>(uuid).uuid == uuid,
        fresh::<P>(uuid).local,
        !fresh::<P>(uuid).connected,
        fresh::<P>(uuid).last_peer is None,
        fresh::<P>(uuid).phase is Waiting,
{
}

/// Packets and replies are for a client that waits, outcomes for one that acts. Every
/// such event calls for an action; any other calls for nothing and changes nothing, and
/// so does every event after the client gave up. The name of the tunnel stays.
pub proof fn which_events_are_taken<P>(
    c: ClientUdpView<P>,
    event: UdpEvent<P>,
    d: ClientUdpView<P>,
    a: Option<UdpAction<P>>,
)
    requires
        d == next(c, event@).0,
        match a {
            Some(x) => next(c, event@).1 == Some(x@),
            None => next(c, event@).1 is None,
        },
    ensures
        d.uuid == c.uuid,
        a is Some <==> !(c.phase is Failed) && (c.phase is Waiting <==> !(event is Done)),
        a is None ==> d == c,
{
}

/// A packet makes its sender the application to answer. It goes out as it is where a
/// WebSocket is open, and otherwise waits for one to be opened.
pub proof fn what_a_packet_leads_to<P>(
    c: ClientUdpView<P>,
    event: UdpEvent<P>,
    d: ClientUdpView<P>,
    a: Option<UdpAction<P>>,
)
    requires
        d == next(c, event@).0,
        match a {
            Some(x) => next(c, event@).1 == Some(x@),
            None => next(c, event@).1 is None,
        },
        c.phase is Waiting,
        event matches UdpEvent::Local(Some(_)),
    ensures
        d.last_peer == Some((event->Local_0->0).1),
        d.connected == c.connected,
        c.connected ==> d.phase is Forwarding && (a matches Some(
            UdpAction::Forward { message: Message::Binary(w), start_reader },
        ) && w@ == (event->Local_0->0).0@ && !start_reader),
        !c.connected ==> d.phase == PhaseView::Connecting((event->Local_0->0).0@) && a == Some(
            UdpAction::<P>::Connect,
        ),
{
}

/// A reply goes as it is to the application that was heard of last, or nowhere where
/// there is none.
pub proof fn what_a_reply_leads_to<P>(
    c: ClientUdpView<P>,
    event: UdpEvent<P>,
    d: ClientUdpView<P>,
    a: Option<UdpAction<P>>,
)
    requires
        d == next(c, event@).0,
        match a {
            Some(x) => next(c, event@).1 == Some(x@),
            None => next(c, event@).1 is None,
        },
        c.phase is Waiting,
        event is Reply,
    ensures
        d.connected == c.connected,
        d.last_peer == c.last_peer,
        match c.last_peer {
            Some(peer) => d.phase is Replying && (a matches Some(UdpAction::SendTo(w, p)) && w@
                == event->Reply_0@ && p == peer),
            None => d.phase is Waiting && d.local && a == Some(
                UdpAction::<P>::Wait { local: true },
            ),
        },
{
}

/// A local socket that cannot be read is left out of the current wait; nothing else
/// changes.
pub proof fn what_a_failed_read_leads_to<P>(
    c: ClientUdpView<P>,
    event: UdpEvent<P>,
    d: ClientUdpView<P>,
    a: Option<UdpAction<P>>,
)
    requires
        d == next(c, event@).0,
        match a {
            Some(x) => next(c, event@).1 == Some(x@),
            None => next(c, event@).1 is None,
        },
        c.phase is Waiting,
        event == UdpEvent::<P>::Local(None),
    ensures
        a == Some(UdpAction::<P>::Wait { local: false }),
        !d.local,
        d.connected == c.connected,
        d.last_peer == c.last_peer,
        d.phase is Waiting,
{
}

/// The client gives up only over a greeting that could not be sent.
pub proof fn what_makes_the_client_give_up<P>(
    c: ClientUdpView<P>,
    event: UdpEvent<P>,
    d: ClientUdpView<P>,
    a: Option<UdpAction<P>>,
)
    requires
        d == next(c, event@).0,
        match a {
            Some(x) => next(c, event@).1 == Some(x@),
            None => next(c, event@).1 is None,
        },
    ensures
        a == Some(UdpAction::<P>::Fail) <==> c.phase is Greeting && event == UdpEvent::<P>::Done(
            false,
        ),
        d.phase is Failed <==> c.phase is Failed || (c.phase is Greeting && event == UdpEvent::<
            P,
        >::Done(false)),
{
}

/// Once a WebSocket is open the tunnel's name is sent on it, and after the name the
/// packet that waited, together with the start of a reader.
pub proof fn what_a_new_websocket_leads_to<P>(
    c: ClientUdpView<P>,
    event: UdpEvent<P>,
    d: ClientUdpView<P>,
    a: Option<UdpAction<P>>,
)
    requires
        d == next(c, event@).0,
        match a {
            Some(x) => next(c, event@).1 == Some(x@),
            None => next(c, event@).1 is None,
        },
        event == UdpEvent::<P>::Done(true),
        c.phase is Connecting || c.phase is Greeting,
    ensures
        d.last_peer == c.last_peer,
        match c.phase {
            PhaseView::Connecting(packet) => d.connected && d.phase == PhaseView::Greeting(packet)
                && (a matches Some(UdpAction::Greet(Message::Text(name))) && name@ == c.uuid),
            PhaseView::Greeting(packet) => d.connected == c.connected && d.phase is Forwarding && (
            a matches Some(UdpAction::Forward { message: Message::Binary(w), start_reader }) && w@
                == packet && start_reader),
            _ => true,
        },
{
}

/// After a packet or a reply has been sent, well or badly, or no WebSocket could be
/// opened, the client waits for everything again. It takes its WebSocket for lost
/// exactly where a packet could not be sent on it.
pub proof fn what_a_finished_action_leads_to<P>(
    c: ClientUdpView<P>,
    event: UdpEvent<P>,
    d: ClientUdpView<P>,
    a: Option<UdpAction<P>>,
)
    requires
        d == next(c, event@).0,
        match a {
            Some(x) => next(c, event@).1 == Some(x@),
            None => next(c, event@).1 is None,
        },
        event is Done,
        c.phase is Forwarding || c.phase is Replying || (c.phase is Connecting && event
            == UdpEvent::<P>::Done(false)),
    ensures
        a == Some(UdpAction::<P>::Wait { local: true }),
        d.phase is Waiting,
        d.local,
        d.last_peer == c.last_peer,
        d.connected == (c.connected && !(c.phase is Forwarding && event == UdpEvent::<P>::Done(
            false,
        ))),
{
}

} // verus!
