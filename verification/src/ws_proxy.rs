//! The relay between a WebSocket and a TCP or UDP socket.
//!
//! A relay waits on several sources at once. A source whose read fails drops out
//! of the wait until the next wait begins; what the others deliver decides what
//! happens next. `WsProxy` holds which sources are still waited for and says, for
//! each event, what to do.

use vstd::prelude::*;

#[allow(unused_imports)]
use crate::config::WS_PING_INTERVAL;
use crate::message::Message;
#[allow(unused_imports)]
use crate::message::MessageView;
use crate::tunnel_id::TunnelKind;

verus! {

/// A relay loop in progress.
#[derive(Clone, Copy, Debug, PartialEq, Eq, Structural)]
pub struct WsProxy {
    /// What kind of socket stands behind the relay.
    pub kind: TunnelKind,
    /// Whether the current wait still includes the WebSocket.
    pub link: bool,
    /// Whether the current wait still includes the socket.
    pub socket: bool,
    /// Whether the relay has ended.
    pub stopped: bool,
}

/// What happened to a relay.
#[derive(Debug, PartialEq, Eq)]
pub enum WsEvent {
    /// The ping timer of a TCP relay fired.
    PingDue,
    /// The WebSocket delivered a message, or ended or failed.
    Link(Option<Message>),
    /// The socket delivered data, or its read failed.
    Socket(Option<Vec<u8>>),
    /// The send or write that was asked for is done; it may have failed.
    Delivered(bool),
}

/// What a relay does next.
#[derive(Debug, PartialEq, Eq)]
pub enum WsAction {
    /// Wait for the sources that are marked, and for the ping timer of a TCP
    /// relay.
    Wait { link: bool, socket: bool },
    /// Write the data to the socket (and flush it, on TCP).
    WriteSocket(Vec<u8>),
    /// Send the message on the WebSocket.
    SendLink(Message),
    /// Close the WebSocket: the relay has just ended.
    CloseLink,
    /// Nothing: the relay ended before.
    Finished,
}

/// One step of a relay.
#[derive(Debug, PartialEq, Eq)]
pub struct WsStep {
    /// Whether to note the tunnel's activity before the action.
    pub touch: bool,
    pub action: WsAction,
    /// Whether to take the tunnel out of the registry after the action.
    pub remove: bool,
}

/// `WsEvent` as a mathematical value.
pub enum WsEventView {
    PingDue,
    Link(Option<MessageView>),
    Socket(Option<Seq<u8>>),
    Delivered(bool),
}

/// `WsAction` as a mathematical value.
pub enum WsActionView {
    Wait { link: bool, socket: bool },
    WriteSocket(Seq<u8>),
    SendLink(MessageView),
    CloseLink,
    Finished,
}

/// `WsStep` as a mathematical value.
pub struct WsStepView {
    pub touch: bool,
    pub action: WsActionView,
    pub remove: bool,
}

impl View for WsEvent {
    type V = WsEventView;

    open spec fn view(&self) -> WsEventView {
        match self {
            WsEvent::PingDue => WsEventView::PingDue,
            WsEvent::Link(Some(m)) => WsEventView::Link(Some(m@)),
            WsEvent::Link(None) => WsEventView::Link(None),
            WsEvent::Socket(Some(d)) => WsEventView::Socket(Some(d@)),
            WsEvent::Socket(None) => WsEventView::Socket(None),
            WsEvent::Delivered(ok) => WsEventView::Delivered(*ok),
        }
    }
}

impl View for WsAction {
    type V = WsActionView;

    open spec fn view(&self) -> WsActionView {
        match self {
            WsAction::Wait { link, socket } => WsActionView::Wait { link: *link, socket: *socket },
            WsAction::WriteSocket(d) => WsActionView::WriteSocket(d@),
            WsAction::SendLink(m) => WsActionView::SendLink(m@),
            WsAction::CloseLink => WsActionView::CloseLink,
            WsAction::Finished => WsActionView::Finished,
        }
    }
}

impl View for WsStep {
    type V = WsStepView;

    open spec fn view(&self) -> WsStepView {
        WsStepView { touch: self.touch, action: self.action@, remove: self.remove }
    }
}

/// A relay at the start of a wait for all its sources.
pub open spec fn fresh(kind: TunnelKind) -> WsProxy {
    WsProxy { kind, link: true, socket: true, stopped: false }
}

/// What makes a running relay end.
///
/// A failed delivery ends every relay. A close message or the end of the TCP
/// stream ends a TCP relay; a TCP relay never runs out of sources, since its ping
/// timer stays. A UDP relay has no timer and ends when both sources have dropped
/// out of one wait.
pub open spec fn ends(p: WsProxy, e: WsEventView) -> bool {
    match e {
        WsEventView::PingDue => false,
        WsEventView::Link(Some(m)) => p.kind is Tcp && m is Close,
        WsEventView::Link(None) => p.kind is Udp && !p.socket,
        WsEventView::Socket(Some(d)) => p.kind is Tcp && d.len() == 0,
        WsEventView::Socket(None) => p.kind is Udp && !p.link,
        WsEventView::Delivered(ok) => !ok,
    }
}

/// The data, if any, that an event makes a running relay write to its socket.
pub open spec fn to_socket(e: WsEventView) -> Option<Seq<u8>> {
    match e {
        WsEventView::Link(Some(MessageView::Binary(d))) => Some(d),
        _ => None,
    }
}

/// The message, if any, that an event makes a running relay send on the
/// WebSocket.
pub open spec fn to_link(p: WsProxy, e: WsEventView) -> Option<MessageView> {
    match e {
        WsEventView::PingDue if p.kind is Tcp => Some(MessageView::Ping(Seq::empty())),
        WsEventView::Link(Some(MessageView::Ping(d))) if p.kind is Tcp => Some(
            MessageView::Pong(d),
        ),
        WsEventView::Socket(Some(d)) if !(p.kind is Tcp && d.len() == 0) => Some(
            MessageView::Binary(d),
        ),
        _ => None,
    }
}

/// The relay after an event that does not end it. A read that failed, or a timer
/// that the relay does not have, goes on with the current wait; everything else
/// begins a new one.
pub open spec fn waits(p: WsProxy, e: WsEventView) -> WsProxy {
    match e {
        WsEventView::PingDue if p.kind is Udp => p,
        WsEventView::Link(None) => WsProxy { link: false, ..p },
        WsEventView::Socket(None) => WsProxy { socket: false, ..p },
        _ => fresh(p.kind),
    }
}

/// Whether an event is activity of the tunnel: every message from the WebSocket
/// is, and every piece of data from the socket.
pub open spec fn active(p: WsProxy, e: WsEventView) -> bool {
    match e {
        WsEventView::Link(Some(_)) => true,
        WsEventView::Socket(Some(d)) => !(p.kind is Tcp && d.len() == 0),
        _ => false,
    }
}

/// The relay after an event, and the step that the event calls for.
pub open spec fn next(p: WsProxy, e: WsEventView) -> (WsProxy, WsStepView) {
    if p.stopped {
        (p, WsStepView { touch: false, action: WsActionView::Finished, remove: false })
    } else if ends(p, e) {
        (
            WsProxy { stopped: true, ..p },
            WsStepView { touch: active(p, e), action: WsActionView::CloseLink, remove: true },
        )
    } else {
        let q = waits(p, e);
        let action = match (to_socket(e), to_link(p, e)) {
            (Some(d), _) => WsActionView::WriteSocket(d),
            (None, Some(m)) => WsActionView::SendLink(m),
            (None, None) => WsActionView::Wait { link: q.link, socket: q.socket },
        };
        (q, WsStepView { touch: active(p, e), action, remove: false })
    }
}

impl WsProxy {
    /// A relay that is about to wait for all its sources.
    pub fn new(kind: TunnelKind) -> (p: WsProxy)
        ensures
            p == fresh(kind),
    {
        WsProxy { kind, link: true, socket: true, stopped: false }
    }

    /// Begins a new wait, after the given action.
    fn act(&mut self, touch: bool, action: WsAction) -> (s: WsStep)
        requires
            !old(self).stopped,
        ensures
            *final(self) == fresh(old(self).kind),
            s@ == (WsStepView { touch, action: action@, remove: false }),
    {
        self.link = true;
        self.socket = true;
        WsStep { touch, action, remove: false }
    }

    /// Ends the relay.
    fn stop(&mut self, touch: bool) -> (s: WsStep)
        ensures
            *final(self) == (WsProxy { stopped: true, ..*old(self) }),
            s@ == (WsStepView { touch, action: WsActionView::CloseLink, remove: true }),
    {
        self.stopped = true;
        WsStep { touch, action: WsAction::CloseLink, remove: true }
    }

    /// Goes on with the current wait.
    fn wait_on(&self) -> (s: WsStep)
        ensures
            s@ == (WsStepView {
                touch: false,
                action: WsActionView::Wait { link: self.link, socket: self.socket },
                remove: false,
            }),
    {
        WsStep {
            touch: false,
            action: WsAction::Wait { link: self.link, socket: self.socket },
            remove: false,
        }
    }

    /// Takes an event and returns the step that it calls for.
    pub fn step(&mut self, event: WsEvent) -> (s: WsStep)
        ensures
            (*final(self), s@) == next(*old(self), event@),
    {
        if self.stopped {
            return WsStep { touch: false, action: WsAction::Finished, remove: false };
        }
        match event {
            WsEvent::PingDue => match self.kind {
                TunnelKind::Tcp => {
                    let nothing: Vec<u8> = Vec::new();
                    self.act(false, WsAction::SendLink(Message::Ping(nothing)))
                },
                TunnelKind::Udp => self.wait_on(),
            },
            WsEvent::Link(None) => {
                if self.kind == TunnelKind::Udp && !self.socket {
                    return self.stop(false);
                }
                self.link = false;
                self.wait_on()
            },
            WsEvent::Link(Some(Message::Binary(data))) => self.act(
                true,
                WsAction::WriteSocket(data),
            ),
            WsEvent::Link(Some(Message::Ping(data))) => match self.kind {
                TunnelKind::Tcp => self.act(true, WsAction::SendLink(Message::Pong(data))),
                TunnelKind::Udp => self.act(true, WsAction::Wait { link: true, socket: true }),
            },
            WsEvent::Link(Some(Message::Close)) => match self.kind {
                TunnelKind::Tcp => self.stop(true),
                TunnelKind::Udp => self.act(true, WsAction::Wait { link: true, socket: true }),
            },
            WsEvent::Link(Some(_)) => self.act(true, WsAction::Wait { link: true, socket: true }),
            WsEvent::Socket(None) => {
                if self.kind == TunnelKind::Udp && !self.link {
                    return self.stop(false);
                }
                self.socket = false;
                self.wait_on()
            },
            WsEvent::Socket(Some(data)) => {
                if self.kind == TunnelKind::Tcp && data.len() == 0 {
                    return self.stop(false);
                }
                self.act(true, WsAction::SendLink(Message::Binary(data)))
            },
            WsEvent::Delivered(ok) => {
                if ok {
                    self.act(false, WsAction::Wait { link: true, socket: true })
                } else {
                    self.stop(false)
                }
            },
        }
    }
}

/// The relay after a sequence of events.
pub open spec fn after(p: WsProxy, events: Seq<WsEventView>) -> WsProxy
    decreases events.len(),
{
    if events.len() == 0 {
        p
    } else {
        next(after(p, events.drop_last()), events.last()).0
    }
}

/// The steps that a sequence of events calls for.
pub open spec fn steps(p: WsProxy, events: Seq<WsEventView>) -> Seq<WsStepView>
    decreases events.len(),
{
    if events.len() == 0 {
        Seq::empty()
    } else {
        steps(p, events.drop_last()).push(next(after(p, events.drop_last()), events.last()).1)
    }
}

/// The events that found the relay running.
pub open spec fn handled(p: WsProxy, events: Seq<WsEventView>) -> Seq<WsEventView>
    decreases events.len(),
{
    if events.len() == 0 {
        events
    } else if after(p, events.drop_last()).stopped {
        handled(p, events.drop_last())
    } else {
        handled(p, events.drop_last()).push(events.last())
    }
}

/// The pieces of data that the socket delivered. The end of a TCP stream is no
/// data; an empty datagram is.
pub open spec fn socket_input(kind: TunnelKind, events: Seq<WsEventView>) -> Seq<Seq<u8>>
    decreases events.len(),
{
    if events.len() == 0 {
        Seq::empty()
    } else {
        let before = socket_input(kind, events.drop_last());
        match events.last() {
            WsEventView::Socket(Some(d)) if !(kind is Tcp && d.len() == 0) => before.push(d),
            _ => before,
        }
    }
}

/// The pieces of data that the WebSocket delivered.
pub open spec fn link_input(events: Seq<WsEventView>) -> Seq<Seq<u8>>
    decreases events.len(),
{
    if events.len() == 0 {
        Seq::empty()
    } else {
        let before = link_input(events.drop_last());
        match events.last() {
            WsEventView::Link(Some(MessageView::Binary(d))) => before.push(d),
            _ => before,
        }
    }
}

/// The contents of the pings that the WebSocket delivered.
pub open spec fn ping_input(events: Seq<WsEventView>) -> Seq<Seq<u8>>
    decreases events.len(),
{
    if events.len() == 0 {
        Seq::empty()
    } else {
        let before = ping_input(events.drop_last());
        match events.last() {
            WsEventView::Link(Some(MessageView::Ping(d))) => before.push(d),
            _ => before,
        }
    }
}

/// The pieces of data written to the socket.
pub open spec fn socket_output(steps: Seq<WsStepView>) -> Seq<Seq<u8>>
    decreases steps.len(),
{
    if steps.len() == 0 {
        Seq::empty()
    } else {
        let before = socket_output(steps.drop_last());
        match steps.last().action {
            WsActionView::WriteSocket(d) => before.push(d),
            _ => before,
        }
    }
}

/// The pieces of data sent on the WebSocket.
pub open spec fn link_output(steps: Seq<WsStepView>) -> Seq<Seq<u8>>
    decreases steps.len(),
{
    if steps.len() == 0 {
        Seq::empty()
    } else {
        let before = link_output(steps.drop_last());
        match steps.last().action {
            WsActionView::SendLink(MessageView::Binary(d)) => before.push(d),
            _ => before,
        }
    }
}

/// The contents of the pongs sent on the WebSocket.
pub open spec fn pong_output(steps: Seq<WsStepView>) -> Seq<Seq<u8>>
    decreases steps.len(),
{
    if steps.len() == 0 {
        Seq::empty()
    } else {
        let before = pong_output(steps.drop_last());
        match steps.last().action {
            WsActionView::SendLink(MessageView::Pong(d)) => before.push(d),
            _ => before,
        }
    }
}

/// How many keepalives, empty pings, were sent on the WebSocket.
pub open spec fn keepalives(steps: Seq<WsStepView>) -> nat
    decreases steps.len(),
{
    if steps.len() == 0 {
        0
    } else {
        keepalives(steps.drop_last()) + if steps.last().action == WsActionView::SendLink(
            MessageView::Ping(Seq::empty()),
        ) {
            1nat
        } else {
            0nat
        }
    }
}

/// How many pings of any contents were sent on the WebSocket.
pub open spec fn pings_sent(steps: Seq<WsStepView>) -> nat
    decreases steps.len(),
{
    if steps.len() == 0 {
        0
    } else {
        pings_sent(steps.drop_last()) + if steps.last().action matches WsActionView::SendLink(m)
            && m is Ping {
            1nat
        } else {
            0nat
        }
    }
}

/// How often the ping timer fired.
pub open spec fn ticks(events: Seq<WsEventView>) -> nat
    decreases events.len(),
{
    if events.len() == 0 {
        0
    } else {
        ticks(events.drop_last()) + if events.last() is PingDue {
            1nat
        } else {
            0nat
        }
    }
}

/// The times, among those of some events, at which the ping timer fired.
pub open spec fn tick_times(events: Seq<WsEventView>, times: Seq<nat>) -> Seq<nat>
    decreases events.len(),
{
    if events.len() == 0 {
        Seq::empty()
    } else {
        let before = tick_times(events.drop_last(), times.drop_last());
        if events.last() is PingDue {
            before.push(times.last())
        } else {
            before
        }
    }
}

/// The ping interval, counted from the start of the relay, that a time falls into.
/// Times are in whole seconds since the start of the relay.
pub open spec fn interval_of(time: nat) -> nat {
    time / (WS_PING_INTERVAL as nat)
}

/// Whether the ping timer fired at most once in each interval: a tick that comes late
/// takes the place of those that were missed.
pub open spec fn no_bursts(tick_times: Seq<nat>) -> bool {
    forall|i: int, j: int|
        0 <= i < j < tick_times.len() ==> interval_of(#[trigger] tick_times[i]) < interval_of(
            #[trigger] tick_times[j],
        )
}

/// Whether the ping timer fired in an interval.
pub open spec fn fired_in(tick_times: Seq<nat>, interval: nat) -> bool {
    exists|i: int| 0 <= i < tick_times.len() && #[trigger] interval_of(tick_times[i]) == interval
}

/// Whether the ping timer fired in every interval up to that of `now`, from the first
/// one on, which begins at once.
pub open spec fn no_gaps(tick_times: Seq<nat>, now: nat) -> bool {
    forall|interval: nat| interval <= interval_of(now) ==> #[trigger] fired_in(tick_times, interval)
}

/// How often the WebSocket was closed, or the tunnel taken out of the registry.
pub open spec fn endings(steps: Seq<WsStepView>) -> nat
    decreases steps.len(),
{
    if steps.len() == 0 {
        0
    } else {
        let last = steps.last();
        endings(steps.drop_last()) + if last.action is CloseLink || last.remove {
            1nat
        } else {
            0nat
        }
    }
}

/// A running relay ends on an event exactly where `ends` says so, and an ended
/// relay does not start again.
pub proof fn only_endings_end(p: WsProxy, e: WsEventView)
    ensures
        next(p, e).0.stopped <==> p.stopped || ends(p, e),
        next(p, e).0.kind == p.kind,
{
}

proof fn kind_stays(p: WsProxy, events: Seq<WsEventView>)
    ensures
        after(p, events).kind == p.kind,
    decreases events.len(),
{
    if events.len() > 0 {
        kind_stays(p, events.drop_last());
    }
}

/// A relay passes on everything it is given and nothing else: each piece of data
/// goes to the other side unchanged, once and in order, for as long as the relay
/// runs.
pub proof fn relay_passes_everything_on(p: WsProxy, events: Seq<WsEventView>)
    ensures
        link_output(steps(p, events)) == socket_input(p.kind, handled(p, events)),
        socket_output(steps(p, events)) == link_input(handled(p, events)),
    decreases events.len(),
{
    if events.len() > 0 {
        let prev = events.drop_last();
        let last = events.last();
        relay_passes_everything_on(p, prev);
        kind_stays(p, prev);
        assert(steps(p, events).drop_last() == steps(p, prev));
        if !after(p, prev).stopped {
            assert(handled(p, events).drop_last() == handled(p, prev));
        }
    }
}

/// A TCP relay answers each ping with a pong of the same contents, in order; a
/// UDP relay answers none.
pub proof fn pings_are_answered(p: WsProxy, events: Seq<WsEventView>)
    ensures
        pong_output(steps(p, events)) == (if p.kind is Tcp {
            ping_input(handled(p, events))
        } else {
            Seq::empty()
        }),
    decreases events.len(),
{
    if events.len() > 0 {
        let prev = events.drop_last();
        pings_are_answered(p, prev);
        kind_stays(p, prev);
        assert(steps(p, events).drop_last() == steps(p, prev));
        if !after(p, prev).stopped {
            assert(handled(p, events).drop_last() == handled(p, prev));
        }
    }
}

/// A TCP relay sends one keepalive for each tick of its ping timer that finds it
/// running, and no other ping; a UDP relay sends none.
pub proof fn each_tick_sends_a_keepalive(p: WsProxy, events: Seq<WsEventView>)
    ensures
        keepalives(steps(p, events)) == (if p.kind is Tcp {
            ticks(handled(p, events))
        } else {
            0
        }),
        pings_sent(steps(p, events)) == keepalives(steps(p, events)),
    decreases events.len(),
{
    if events.len() > 0 {
        let prev = events.drop_last();
        each_tick_sends_a_keepalive(p, prev);
        kind_stays(p, prev);
        assert(steps(p, events).drop_last() == steps(p, prev));
        if !after(p, prev).stopped {
            assert(handled(p, events).drop_last() == handled(p, prev));
        }
    }
}

proof fn ticks_are_timed(events: Seq<WsEventView>, times: Seq<nat>, now: nat)
    requires
        events.len() == times.len(),
        forall|i: int| 0 <= i < times.len() ==> #[trigger] times[i] <= now,
    ensures
        tick_times(events, times).len() == ticks(events),
        forall|i: int|
            0 <= i < tick_times(events, times).len() ==> #[trigger] tick_times(events, times)[i]
                <= now,
    decreases events.len(),
{
    if events.len() > 0 {
        let earlier = times.drop_last();
        assert forall|i: int| 0 <= i < earlier.len() implies #[trigger] earlier[i] <= now by {
            assert(earlier[i] == times[i]);
        }
        ticks_are_timed(events.drop_last(), earlier, now);
        assert(times[times.len() - 1] <= now);
    }
}

proof fn ticks_come_one_by_one(tick_times: Seq<nat>, i: int)
    requires
        no_bursts(tick_times),
        0 <= i < tick_times.len(),
    ensures
        i <= interval_of(tick_times[i]),
    decreases i,
{
    if i > 0 {
        ticks_come_one_by_one(tick_times, i - 1);
        assert(interval_of(tick_times[i - 1]) < interval_of(tick_times[i]));
    }
}

proof fn ticks_come_every_time(tick_times: Seq<nat>, now: nat, k: nat)
    requires
        no_bursts(tick_times),
        no_gaps(tick_times, now),
        k <= interval_of(now),
    ensures
        k < tick_times.len(),
        interval_of(tick_times[k as int]) == k,
    decreases k,
{
    assert(fired_in(tick_times, k));
    let i = choose|i: int|
        0 <= i < tick_times.len() && #[trigger] interval_of(tick_times[i]) == k;
    ticks_come_one_by_one(tick_times, i);
    if k > 0 {
        let before = k - 1;
        ticks_come_every_time(tick_times, now, before as nat);
        if i < before {
            assert(interval_of(tick_times[i]) < interval_of(tick_times[before]));
        }
    }
}

proof fn only_the_first_are_handled(p: WsProxy, events: Seq<WsEventView>)
    ensures
        ticks(handled(p, events)) <= ticks(events),
    decreases events.len(),
{
    if events.len() > 0 {
        let prev = events.drop_last();
        only_the_first_are_handled(p, prev);
        if !after(p, prev).stopped {
            assert(handled(p, events).drop_last() == handled(p, prev));
        }
    }
}

/// Up to any time, a TCP relay has sent at most one keepalive for each ping interval
/// that has begun, the first of which begins at once: its timer may be late and skip
/// ticks, but does not make up for them. A relay that still runs, and whose timer
/// skipped none, has sent exactly so many.
pub proof fn keepalives_keep_their_interval(
    p: WsProxy,
    events: Seq<WsEventView>,
    times: Seq<nat>,
    now: nat,
)
    requires
        events.len() == times.len(),
        forall|i: int| 0 <= i < times.len() ==> #[trigger] times[i] <= now,
        no_bursts(tick_times(events, times)),
    ensures
        keepalives(steps(p, events)) <= interval_of(now) + 1,
        p.kind is Tcp && !after(p, events).stopped && no_gaps(tick_times(events, times), now)
            ==> keepalives(steps(p, events)) == interval_of(now) + 1,
{
    let fired = tick_times(events, times);
    each_tick_sends_a_keepalive(p, events);
    only_the_first_are_handled(p, events);
    running_relay_handles_all(p, events);
    ticks_are_timed(events, times, now);
    if fired.len() > 0 {
        let last = fired.len() - 1;
        ticks_come_one_by_one(fired, last);
        assert(fired[last] <= now);
        assert(interval_of(fired[last]) <= interval_of(now));
    }
    if no_gaps(fired, now) {
        ticks_come_every_time(fired, now, interval_of(now));
    }
}

/// The events that a relay handles are the first ones, and all of them while it
/// runs.
pub proof fn running_relay_handles_all(p: WsProxy, events: Seq<WsEventView>)
    ensures
        handled(p, events).is_prefix_of(events),
        !after(p, events).stopped ==> handled(p, events) == events,
    decreases events.len(),
{
    if events.len() > 0 {
        let prev = events.drop_last();
        running_relay_handles_all(p, prev);
        if !after(p, prev).stopped {
            assert(prev.push(events.last()) == events);
        } else {
            let h = handled(p, prev);
            assert(h == events.subrange(0, h.len() as int));
        }
    }
}

/// A relay closes its WebSocket and leaves the registry exactly once, when it
/// ends.
pub proof fn relay_ends_once(p: WsProxy, events: Seq<WsEventView>)
    requires
        !p.stopped,
    ensures
        endings(steps(p, events)) == if after(p, events).stopped {
            1nat
        } else {
            0nat
        },
    decreases events.len(),
{
    if events.len() > 0 {
        relay_ends_once(p, events.drop_last());
        assert(steps(p, events).drop_last() == steps(p, events.drop_last()));
    }
}

/// What one end of a TCP tunnel read from its socket, the other end writes to
/// its own: where the WebSocket delivers at the far end a first part of what the
/// near end sent, the far end has written just that part of what the near end
/// read, in the same pieces and the same order.
pub proof fn tcp_tunnel_carries_the_stream(near: Seq<WsEventView>, far: Seq<WsEventView>)
    requires
        link_input(handled(fresh(TunnelKind::Tcp), far)).is_prefix_of(
            link_output(steps(fresh(TunnelKind::Tcp), near)),
        ),
    ensures
        ({
            let read = socket_input(TunnelKind::Tcp, handled(fresh(TunnelKind::Tcp), near));
            let delivered = link_input(handled(fresh(TunnelKind::Tcp), far));
            let written = socket_output(steps(fresh(TunnelKind::Tcp), far));
            written == read.take(delivered.len() as int)
        }),
{
    relay_passes_everything_on(fresh(TunnelKind::Tcp), near);
    relay_passes_everything_on(fresh(TunnelKind::Tcp), far);
}

/// What `step` makes of an event, whichever it is, is a relay of the same kind; a relay
/// that has ended stays as it is and asks for nothing.
pub proof fn an_ended_relay_does_nothing(p: WsProxy, event: WsEvent, q: WsProxy, s: WsStep)
    requires
        (q, s@) == next(p, event@),
    ensures
        q.kind == p.kind,
        p.stopped ==> q == p && s.action is Finished && !s.touch && !s.remove,
        !p.stopped ==> !(s.action is Finished),
{
}

/// A new relay runs and waits for both its sources.
pub proof fn a_new_relay_runs(kind: TunnelKind)
    ensures
        fresh(kind) == (WsProxy { kind, link: true, socket: true, stopped: false }),
{
}

/// A running relay ends over a failed delivery, a TCP relay also over a close message
/// or the end of its stream, and a UDP relay when its second source drops out of a
/// wait. Nothing else ends it, and it ends by closing the WebSocket and leaving the
/// registry.
pub proof fn what_ends_a_relay(p: WsProxy, event: WsEvent, q: WsProxy, s: WsStep)
    requires
        (q, s@) == next(p, event@),
        !p.stopped,
    ensures
        p.kind is Tcp ==> (q.stopped <==> event == WsEvent::Delivered(false) || event
            == WsEvent::Link(Some(Message::Close)) || (event matches WsEvent::Socket(Some(d))
            && d@.len() == 0)),
        p.kind is Udp ==> (q.stopped <==> event == WsEvent::Delivered(false) || (event
            == WsEvent::Link(None) && !p.socket) || (event == WsEvent::Socket(None) && !p.link)),
        q.stopped <==> s.action is CloseLink,
        q.stopped <==> s.remove,
{
}

/// A running relay writes to its socket exactly what a binary message holds, and goes
/// on.
pub proof fn binary_messages_are_written(p: WsProxy, event: WsEvent, q: WsProxy, s: WsStep)
    requires
        (q, s@) == next(p, event@),
        !p.stopped,
    ensures
        event matches WsEvent::Link(Some(Message::Binary(d))) ==> s.action matches
            WsAction::WriteSocket(w) && w@ == d@,
        s.action matches WsAction::WriteSocket(w) ==> event matches WsEvent::Link(
            Some(Message::Binary(d)),
        ) && w@ == d@,
        s.action is WriteSocket ==> !q.stopped,
{
}

/// A running relay sends in one binary message exactly what its socket delivered, an
/// empty datagram too, and goes on.
pub proof fn socket_data_is_sent(p: WsProxy, event: WsEvent, q: WsProxy, s: WsStep)
    requires
        (q, s@) == next(p, event@),
        !p.stopped,
    ensures
        event matches WsEvent::Socket(Some(d)) ==> (d@.len() > 0 || p.kind is Udp ==> (
        s.action matches WsAction::SendLink(Message::Binary(w)) && w@ == d@)),
        s.action matches WsAction::SendLink(Message::Binary(w)) ==> event matches WsEvent::Socket(
            Some(d),
        ) && w@ == d@,
        s.action is SendLink ==> !q.stopped,
{
}

/// A running TCP relay answers a ping with its contents and pings on each tick of its
/// timer; a UDP relay does neither. No other message than these and data is sent.
pub proof fn pings_and_pongs(p: WsProxy, event: WsEvent, q: WsProxy, s: WsStep)
    requires
        (q, s@) == next(p, event@),
        !p.stopped,
    ensures
        event matches WsEvent::Link(Some(Message::Ping(d))) ==> (p.kind is Tcp ==> (
        s.action matches WsAction::SendLink(Message::Pong(w)) && w@ == d@)),
        event is PingDue && p.kind is Tcp ==> (s.action matches WsAction::SendLink(
            Message::Ping(w),
        ) && w@.len() == 0),
        s.action matches WsAction::SendLink(Message::Pong(w)) ==> p.kind is Tcp && (event
            matches WsEvent::Link(Some(Message::Ping(d))) && w@ == d@),
        s.action matches WsAction::SendLink(Message::Ping(w)) ==> p.kind is Tcp && event is PingDue
            && w@.len() == 0,
        s.action matches WsAction::SendLink(m) ==> m is Binary || m is Ping || m is Pong,
{
}

/// A source is left out of a wait only from the failure of its read until the next
/// event that is no such failure: every other event of a running relay, a delivery in
/// particular, begins a wait for both. A timer that a UDP relay does not have changes
/// nothing.
pub proof fn what_a_wait_includes(p: WsProxy, event: WsEvent, q: WsProxy, s: WsStep)
    requires
        (q, s@) == next(p, event@),
        !p.stopped,
        !q.stopped,
    ensures
        event == WsEvent::Link(None) ==> !q.link && q.socket == p.socket,
        event == WsEvent::Socket(None) ==> !q.socket && q.link == p.link,
        event is PingDue && p.kind is Udp ==> q == p,
        event != WsEvent::Link(None) && event != WsEvent::Socket(None) && !(event is PingDue
            && p.kind is Udp) ==> q.link && q.socket,
        s.action matches WsAction::Wait { link, socket } ==> link == q.link && socket == q.socket,
        event == WsEvent::Delivered(true) ==> s.action == (WsAction::Wait {
            link: true,
            socket: true,
        }),
        event == WsEvent::Link(None) || event == WsEvent::Socket(None) ==> s.action is Wait,
        event matches WsEvent::Link(Some(m)) ==> (m is Text || m is Pong || m is Frame
            ==> s.action is Wait) && (p.kind is Udp && (m is Ping || m is Close) ==> s.action is Wait),
        event is PingDue && p.kind is Udp ==> s.action is Wait,
{
}

/// A running relay notes activity for every message from the WebSocket, a close message
/// too, and for every piece of data from its socket, and for nothing else.
pub proof fn what_counts_as_activity(p: WsProxy, event: WsEvent, q: WsProxy, s: WsStep)
    requires
        (q, s@) == next(p, event@),
        !p.stopped,
    ensures
        event is Link ==> (s.touch <==> event != WsEvent::Link(None)),
        event matches WsEvent::Socket(Some(d)) ==> (s.touch <==> d@.len() > 0 || p.kind is Udp),
        event == WsEvent::Socket(None) || event is PingDue || event is Delivered ==> !s.touch,
{
}

} // verus!
