//! How the gRPC server opens a tunnel: it learns the tunnel's name from the first
//! message of the stream, registers it and connects to the target. Which kind of
//! tunnel it is, the called method says.

use vstd::prelude::*;

use crate::message::{MessageType, TunnelMessage};
#[allow(unused_imports)]
use crate::message::MessageTypeView;
use crate::text::joined;
use crate::tunnel_id::TunnelKind;

verus! {

/// The code of a refusal.
#[derive(Clone, Copy, Debug, PartialEq, Eq, Structural)]
pub enum Code {
    InvalidArgument,
    Internal,
}

/// What a caller is told whose tunnel is not opened.
#[derive(Debug, PartialEq, Eq)]
pub struct Status {
    pub code: Code,
    pub message: String,
}

/// `Status` as a mathematical value.
pub struct StatusView {
    pub code: Code,
    pub message: Seq<char>,
}

impl View for Status {
    type V = StatusView;

    open spec fn view(&self) -> StatusView {
        StatusView { code: self.code, message: self.message@ }
    }
}

/// What the first read from the stream gave.
#[derive(Debug, PartialEq, Eq)]
pub enum FirstRead {
    /// The stream ended before its first message.
    Ended,
    /// The stream reported an error, of the given text.
    Failed(String),
    Message(TunnelMessage),
}

/// `FirstRead` as a mathematical value.
pub enum FirstReadView {
    Ended,
    Failed(Seq<char>),
    Message(Option<MessageTypeView>),
}

impl View for FirstRead {
    type V = FirstReadView;

    open spec fn view(&self) -> FirstReadView {
        match self {
            FirstRead::Ended => FirstReadView::Ended,
            FirstRead::Failed(e) => FirstReadView::Failed(e@),
            FirstRead::Message(m) => FirstReadView::Message(m@),
        }
    }
}

/// The tunnel's name, where the first read gave an init message, or the refusal.
pub open spec fn init_name(first: FirstReadView) -> Result<Seq<char>, StatusView> {
    match first {
        FirstReadView::Ended => Err(
            StatusView { code: Code::InvalidArgument, message: "Missing init message"@ },
        ),
        FirstReadView::Failed(e) => Err(
            StatusView { code: Code::Internal, message: "Stream error: "@ + e },
        ),
        FirstReadView::Message(Some(MessageTypeView::Init { uuid, .. })) => Ok(uuid),
        FirstReadView::Message(_) => Err(
            StatusView { code: Code::InvalidArgument, message: "First message must be init"@ },
        ),
    }
}

/// The tunnel's name, where the first read gave an init message, or the refusal.
pub fn read_init(first: FirstRead) -> (r: Result<String, Status>)
    ensures
        match r {
            Ok(uuid) => init_name(first@) == Ok::<Seq<char>, StatusView>(uuid@),
            Err(status) => init_name(first@) == Err::<Seq<char>, StatusView>(status@),
        },
{
    match first {
        FirstRead::Ended => Err(
            Status { code: Code::InvalidArgument, message: "Missing init message".to_owned() },
        ),
        FirstRead::Failed(e) => Err(
            Status { code: Code::Internal, message: joined("Stream error: ", e.as_str()) },
        ),
        FirstRead::Message(message) => match message.message_type {
            Some(MessageType::Init { uuid, protocol: _ }) => Ok(uuid),
            _ => Err(
                Status {
                    code: Code::InvalidArgument,
                    message: "First message must be init".to_owned(),
                },
            ),
        },
    }
}

/// Where the opening of a tunnel stands.
enum Phase {
    AwaitingInit,
    Registering(String),
    Binding(String),
    Connecting(String),
    Open,
    Refused,
}

/// The opening of one tunnel by a call of a given kind.
pub struct TunnelCall {
    kind: TunnelKind,
    phase: Phase,
}

/// What happened to the opening of a tunnel.
#[derive(Debug, PartialEq, Eq)]
pub enum CallEvent {
    /// The stream was read for the first time.
    First(FirstRead),
    /// The tunnel has been entered in the registry.
    Registered,
    /// The binding or the connecting is done, or failed with an error of the given
    /// text.
    Done(Result<(), String>),
}

/// What the server does next to open a tunnel.
#[derive(Debug, PartialEq, Eq)]
pub enum CallAction {
    /// Enter the tunnel in the registry.
    Register(String),
    /// Bind a local UDP socket.
    BindUdp,
    /// Connect the local UDP socket to the target.
    ConnectUdp,
    /// Connect to the target by TCP.
    ConnectTcp,
    /// Start the relay, and answer the call with its stream.
    Serve(String),
    /// Answer the call with a refusal.
    Refuse(Status),
}

/// `Phase` as a mathematical value.
pub enum PhaseView {
    AwaitingInit,
    Registering(Seq<char>),
    Binding(Seq<char>),
    Connecting(Seq<char>),
    Open,
    Refused,
}

/// `TunnelCall` as a mathematical value.
pub struct TunnelCallView {
    pub kind: TunnelKind,
    pub phase: PhaseView,
}

/// `CallEvent` as a mathematical value.
pub enum CallEventView {
    First(FirstReadView),
    Registered,
    Done(Result<(), Seq<char>>),
}

/// `CallAction` as a mathematical value.
pub enum CallActionView {
    Register(Seq<char>),
    BindUdp,
    ConnectUdp,
    ConnectTcp,
    Serve(Seq<char>),
    Refuse(StatusView),
}

impl View for TunnelCall {
    type V = TunnelCallView;

    closed spec fn view(&self) -> TunnelCallView {
        TunnelCallView {
            kind: self.kind,
            phase: match self.phase {
                Phase::AwaitingInit => PhaseView::AwaitingInit,
                Phase::Registering(u) => PhaseView::Registering(u@),
                Phase::Binding(u) => PhaseView::Binding(u@),
                Phase::Connecting(u) => PhaseView::Connecting(u@),
                Phase::Open => PhaseView::Open,
                Phase::Refused => PhaseView::Refused,
            },
        }
    }
}

impl View for CallEvent {
    type V = CallEventView;

    open spec fn view(&self) -> CallEventView {
        match self {
            CallEvent::First(f) => CallEventView::First(f@),
            CallEvent::Registered => CallEventView::Registered,
            CallEvent::Done(Ok(_)) => CallEventView::Done(Ok(())),
            CallEvent::Done(Err(e)) => CallEventView::Done(Err(e@)),
        }
    }
}

impl View for CallAction {
    type V = CallActionView;

    open spec fn view(&self) -> CallActionView {
        match self {
            CallAction::Register(u) => CallActionView::Register(u@),
            CallAction::BindUdp => CallActionView::BindUdp,
            CallAction::ConnectUdp => CallActionView::ConnectUdp,
            CallAction::ConnectTcp => CallActionView::ConnectTcp,
            CallAction::Serve(u) => CallActionView::Serve(u@),
            CallAction::Refuse(s) => CallActionView::Refuse(s@),
        }
    }
}

/// A call of a given kind whose first message is awaited.
pub open spec fn fresh(kind: TunnelKind) -> TunnelCallView {
    TunnelCallView { kind, phase: PhaseView::AwaitingInit }
}

/// The call in another phase.
pub open spec fn moved(c: TunnelCallView, phase: PhaseView) -> TunnelCallView {
    TunnelCallView { phase, ..c }
}

/// The refusal that follows an error of the server's own: the given words and the
/// text of the error.
pub open spec fn internal(words: Seq<char>, error: Seq<char>) -> CallActionView {
    CallActionView::Refuse(StatusView { code: Code::Internal, message: words + error })
}

/// The call after an event, and the action that the event calls for; an event that
/// the call does not wait for changes nothing and calls for nothing.
pub open spec fn next(c: TunnelCallView, e: CallEventView) -> (
    TunnelCallView,
    Option<CallActionView>,
) {
    match (c.phase, e) {
        (PhaseView::AwaitingInit, CallEventView::First(first)) => match init_name(first) {
            Ok(u) => (moved(c, PhaseView::Registering(u)), Some(CallActionView::Register(u))),
            Err(s) => (moved(c, PhaseView::Refused), Some(CallActionView::Refuse(s))),
        },
        (PhaseView::Registering(u), CallEventView::Registered) => match c.kind {
            TunnelKind::Tcp => (
                moved(c, PhaseView::Connecting(u)),
                Some(CallActionView::ConnectTcp),
            ),
            TunnelKind::Udp => (moved(c, PhaseView::Binding(u)), Some(CallActionView::BindUdp)),
        },
        (PhaseView::Binding(u), CallEventView::Done(r)) => match r {
            Ok(_) => (moved(c, PhaseView::Connecting(u)), Some(CallActionView::ConnectUdp)),
            Err(e) => (
                moved(c, PhaseView::Refused),
                Some(internal("Failed to bind UDP socket: "@, e)),
            ),
        },
        (PhaseView::Connecting(u), CallEventView::Done(r)) => match r {
            Ok(_) => (moved(c, PhaseView::Open), Some(CallActionView::Serve(u))),
            Err(e) => (
                moved(c, PhaseView::Refused),
                Some(internal("Failed to connect to target: "@, e)),
            ),
        },
        _ => (c, None),
    }
}

impl TunnelCall {
    /// A call that opens a tunnel of the given kind and whose first message is
    /// awaited.
    pub fn new(kind: TunnelKind) -> (c: TunnelCall)
        ensures
            c@ == fresh(kind),
    {
        TunnelCall { kind, phase: Phase::AwaitingInit }
    }

    fn refuse(&mut self, words: &str, error: &str) -> (a: Option<CallAction>)
        ensures
            final(self)@ == moved(old(self)@, PhaseView::Refused),
            a matches Some(action) && action@ == internal(words@, error@),
    {
        self.phase = Phase::Refused;
        Some(
            CallAction::Refuse(Status { code: Code::Internal, message: joined(words, error) }),
        )
    }

    /// Takes an event and returns the action that it calls for, or nothing where
    /// it is not an event that the call is waiting for.
    pub fn step(&mut self, event: CallEvent) -> (a: Option<CallAction>)
        ensures
            final(self)@ == next(old(self)@, event@).0,
            match a {
                Some(action) => next(old(self)@, event@).1 == Some(action@),
                None => next(old(self)@, event@).1 is None,
            },
    {
        let mut phase = Phase::Refused;
        std::mem::swap(&mut phase, &mut self.phase);
        match (phase, event) {
            (Phase::AwaitingInit, CallEvent::First(first)) => match read_init(first) {
                Ok(uuid) => {
                    self.phase = Phase::Registering(uuid.clone());
                    Some(CallAction::Register(uuid))
                },
                Err(status) => {
                    self.phase = Phase::Refused;
                    Some(CallAction::Refuse(status))
                },
            },
            (Phase::Registering(uuid), CallEvent::Registered) => match self.kind {
                TunnelKind::Tcp => {
                    self.phase = Phase::Connecting(uuid);
                    Some(CallAction::ConnectTcp)
                },
                TunnelKind::Udp => {
                    self.phase = Phase::Binding(uuid);
                    Some(CallAction::BindUdp)
                },
            },
            (Phase::Binding(uuid), CallEvent::Done(Ok(_))) => {
                self.phase = Phase::Connecting(uuid);
                Some(CallAction::ConnectUdp)
            },
            (Phase::Binding(_), CallEvent::Done(Err(e))) => self.refuse(
                "Failed to bind UDP socket: ",
                e.as_str(),
            ),
            (Phase::Connecting(uuid), CallEvent::Done(Ok(_))) => {
                self.phase = Phase::Open;
                Some(CallAction::Serve(uuid))
            },
            (Phase::Connecting(_), CallEvent::Done(Err(e))) => self.refuse(
                "Failed to connect to target: ",
                e.as_str(),
            ),
            (phase, _) => {
                self.phase = phase;
                None
            },
        }
    }
}

/// The call after a sequence of events.
pub open spec fn after(c: TunnelCallView, events: Seq<CallEventView>) -> TunnelCallView
    decreases events.len(),
{
    if events.len() == 0 {
        c
    } else {
        next(after(c, events.drop_last()), events.last()).0
    }
}

/// The actions that a sequence of events calls for.
pub open spec fn actions(c: TunnelCallView, events: Seq<CallEventView>) -> Seq<CallActionView>
    decreases events.len(),
{
    if events.len() == 0 {
        Seq::empty()
    } else {
        let before = actions(c, events.drop_last());
        match next(after(c, events.drop_last()), events.last()).1 {
            Some(a) => before.push(a),
            None => before,
        }
    }
}

/// The name of the tunnel that is being opened, once it has been registered.
pub open spec fn name(p: PhaseView) -> Option<Seq<char>> {
    match p {
        PhaseView::Registering(u) => Some(u),
        PhaseView::Binding(u) => Some(u),
        PhaseView::Connecting(u) => Some(u),
        _ => None,
    }
}

proof fn named_is_registered(kind: TunnelKind, events: Seq<CallEventView>)
    ensures
        name(after(fresh(kind), events).phase) matches Some(u) ==> actions(
            fresh(kind),
            events,
        ).contains(CallActionView::Register(u)),
    decreases events.len(),
{
    if events.len() > 0 {
        let prev = events.drop_last();
        let c = fresh(kind);
        named_is_registered(kind, prev);
        let before = actions(c, prev);
        let acts = actions(c, events);
        match next(after(c, prev), events.last()).1 {
            Some(a) => {
                assert(acts.last() == a);
                assert(acts.contains(a));
                assert forall|x: CallActionView| before.contains(x) implies acts.contains(x) by {
                    let i = choose|i: int| 0 <= i < before.len() && before[i] == x;
                    assert(acts[i] == x);
                }
            },
            None => {},
        }
    }
}

/// A relay is started only for a tunnel that was registered before under the name
/// in the init message.
pub proof fn relays_are_registered(
    kind: TunnelKind,
    events: Seq<CallEventView>,
    e: CallEventView,
    uuid: Seq<char>,
)
    requires
        next(after(fresh(kind), events), e).1 == Some(CallActionView::Serve(uuid)),
    ensures
        actions(fresh(kind), events).contains(CallActionView::Register(uuid)),
{
    named_is_registered(kind, events);
}

/// A call is refused over its first message exactly where that is no init message,
/// and then the stream is not looked at again; an init message of any name is
/// taken.
pub proof fn only_init_opens(kind: TunnelKind, first: FirstReadView, later: CallEventView)
    ensures
        ({
            let (c, answer) = next(fresh(kind), CallEventView::First(first));
            &&& answer matches Some(a)
            &&& a is Refuse <==> !(first matches FirstReadView::Message(Some(t)) && t is Init)
            &&& a is Refuse ==> next(c, later) == (c, None::<CallActionView>)
            &&& first matches FirstReadView::Message(Some(MessageTypeView::Init { uuid, .. }))
                ==> a == CallActionView::Register(uuid)
        }),
{
}

/// A new call is of its kind and awaits its first message.
pub proof fn a_new_call_awaits_init(kind: TunnelKind)
    ensures
        fresh(kind).kind == kind,
        fresh(kind).phase is AwaitingInit,
{
}

/// The first read is for a call that awaits it, the news of a registration for one that
/// registers, an outcome for one that binds or connects. Every such event calls for an
/// action; any other calls for nothing and changes nothing. The kind stays.
pub proof fn which_events_are_taken(
    c: TunnelCallView,
    event: CallEvent,
    d: TunnelCallView,
    a: Option<CallAction>,
)
    requires
        d == next(c, event@).0,
        match a {
            Some(x) => next(c, event@).1 == Some(x@),
            None => next(c, event@).1 is None,
        },
    ensures
        d.kind == c.kind,
        a is Some <==> match event {
            CallEvent::First(_) => c.phase is AwaitingInit,
            CallEvent::Registered => c.phase is Registering,
            CallEvent::Done(_) => c.phase is Binding || c.phase is Connecting,
        },
        a is None ==> d == c,
{
}

/// An init message gives the name, whichever it is and whatever protocol it speaks of,
/// and the name is registered as it is. A call that begins otherwise is refused with the
/// reason.
pub proof fn how_the_name_is_learned(
    c: TunnelCallView,
    event: CallEvent,
    d: TunnelCallView,
    a: Option<CallAction>,
)
    requires
        d == next(c, event@).0,
        match a {
            Some(x) => next(c, event@).1 == Some(x@),
            None => next(c, event@).1 is None,
        },
        c.phase is AwaitingInit,
        event is First,
    ensures
        match event->First_0 {
            FirstRead::Ended => d.phase is Refused && (a matches Some(CallAction::Refuse(s))
                && s.code is InvalidArgument && s.message@ == "Missing init message"@),
            FirstRead::Failed(e) => d.phase is Refused && (a matches Some(CallAction::Refuse(s))
                && s.code is Internal && s.message@ == "Stream error: "@ + e@),
            FirstRead::Message(m) => match m.message_type {
                Some(MessageType::Init { uuid, protocol }) => d.phase == PhaseView::Registering(
                    uuid@,
                ) && (a matches Some(CallAction::Register(u)) && u@ == uuid@),
                _ => d.phase is Refused && (a matches Some(CallAction::Refuse(s))
                    && s.code is InvalidArgument && s.message@ == "First message must be init"@),
            },
        },
{
}

/// A TCP call is connected by TCP and a UDP call by a UDP socket that is bound first,
/// whatever the name; then the relay is started under the name.
pub proof fn how_the_target_is_connected(
    c: TunnelCallView,
    event: CallEvent,
    d: TunnelCallView,
    a: Option<CallAction>,
)
    requires
        d == next(c, event@).0,
        match a {
            Some(x) => next(c, event@).1 == Some(x@),
            None => next(c, event@).1 is None,
        },
    ensures
        c.phase matches PhaseView::Registering(u) ==> (event is Registered ==> match c.kind {
            TunnelKind::Tcp => d.phase == PhaseView::Connecting(u) && a == Some(
                CallAction::ConnectTcp,
            ),
            TunnelKind::Udp => d.phase == PhaseView::Binding(u) && a == Some(CallAction::BindUdp),
        }),
        c.phase matches PhaseView::Binding(u) ==> (event matches CallEvent::Done(Ok(_)) ==> d.phase
            == PhaseView::Connecting(u) && a == Some(CallAction::ConnectUdp)),
        c.phase matches PhaseView::Connecting(u) ==> (event matches CallEvent::Done(Ok(_))
            ==> d.phase is Open && (a matches Some(CallAction::Serve(uuid)) && uuid@ == u)),
        a matches Some(x) ==> (x is Serve ==> c.phase is Connecting && event matches
            CallEvent::Done(Ok(_))),
{
}

/// A failure to bind or to connect refuses the call with the text of the error.
pub proof fn what_a_failure_leads_to(
    c: TunnelCallView,
    event: CallEvent,
    d: TunnelCallView,
    a: Option<CallAction>,
)
    requires
        d == next(c, event@).0,
        match a {
            Some(x) => next(c, event@).1 == Some(x@),
            None => next(c, event@).1 is None,
        },
        event matches CallEvent::Done(Err(_)),
    ensures
        c.phase is Binding ==> d.phase is Refused && (a matches Some(CallAction::Refuse(s))
            && s.code is Internal && s.message@ == "Failed to bind UDP socket: "@
            + event->Done_0->Err_0@),
        c.phase is Connecting ==> d.phase is Refused && (a matches Some(CallAction::Refuse(s))
            && s.code is Internal && s.message@ == "Failed to connect to target: "@
            + event->Done_0->Err_0@),
{
}

/// Under any name, a call that is not failed by anything is registered, connected by its
/// own kind, and served, in this order.
pub proof fn every_call_is_served_by_its_kind(uuid: Seq<char>, protocol: Seq<char>)
    ensures
        ({
            let ok = CallEventView::Done(Ok(()));
            let init = CallEventView::First(
                FirstReadView::Message(Some(MessageTypeView::Init { uuid, protocol })),
            );
            &&& actions(fresh(TunnelKind::Tcp), seq![init, CallEventView::Registered, ok]) == seq![
                CallActionView::Register(uuid),
                CallActionView::ConnectTcp,
                CallActionView::Serve(uuid),
            ]
            &&& actions(fresh(TunnelKind::Udp), seq![init, CallEventView::Registered, ok, ok])
                == seq![
                CallActionView::Register(uuid),
                CallActionView::BindUdp,
                CallActionView::ConnectUdp,
                CallActionView::Serve(uuid),
            ]
        }),
{
    let ok = CallEventView::Done(Ok(()));
    let init = CallEventView::First(
        FirstReadView::Message(Some(MessageTypeView::Init { uuid, protocol })),
    );
    let e0 = Seq::<CallEventView>::empty();
    let e1 = e0.push(init);
    let e2 = e1.push(CallEventView::Registered);
    let e3 = e2.push(ok);
    let e4 = e3.push(ok);
    assert(e1.drop_last() == e0 && e2.drop_last() == e1 && e3.drop_last() == e2 && e4.drop_last() == e3);
    assert(e3 == seq![init, CallEventView::Registered, ok]);
    assert(e4 == seq![init, CallEventView::Registered, ok, ok]);
    let tcp = fresh(TunnelKind::Tcp);
    let udp = fresh(TunnelKind::Udp);
    assert(after(tcp, e0) == tcp && after(udp, e0) == udp);
    assert(actions(tcp, e0) == Seq::<CallActionView>::empty());
    assert(actions(udp, e0) == Seq::<CallActionView>::empty());
    assert(after(tcp, e1) == moved(tcp, PhaseView::Registering(uuid)));
    assert(after(tcp, e2) == moved(tcp, PhaseView::Connecting(uuid)));
    assert(actions(tcp, e1) == seq![CallActionView::Register(uuid)]);
    assert(actions(tcp, e2) == seq![CallActionView::Register(uuid), CallActionView::ConnectTcp]);
    assert(after(udp, e1) == moved(udp, PhaseView::Registering(uuid)));
    assert(after(udp, e2) == moved(udp, PhaseView::Binding(uuid)));
    assert(after(udp, e3) == moved(udp, PhaseView::Connecting(uuid)));
    assert(actions(udp, e1) == seq![CallActionView::Register(uuid)]);
    assert(actions(udp, e2) == seq![CallActionView::Register(uuid), CallActionView::BindUdp]);
    assert(actions(tcp, e3) == actions(tcp, e2).push(CallActionView::Serve(uuid)));
    assert(actions(udp, e3) == actions(udp, e2).push(CallActionView::ConnectUdp));
    assert(actions(udp, e4) == actions(udp, e3).push(CallActionView::Serve(uuid)));
}

/// What `read_init` makes of a first read: the name in an init message as it is, or the
/// refusal that tells what came in its place.
pub proof fn what_a_first_read_gives(first: FirstRead, r: Result<String, Status>)
    requires
        match r {
            Ok(uuid) => init_name(first@) == Ok::<Seq<char>, StatusView>(uuid@),
            Err(status) => init_name(first@) == Err::<Seq<char>, StatusView>(status@),
        },
    ensures
        match first {
            FirstRead::Ended => r matches Err(s) && s.code is InvalidArgument && s.message@
                == "Missing init message"@,
            FirstRead::Failed(e) => r matches Err(s) && s.code is Internal && s.message@
                == "Stream error: "@ + e@,
            FirstRead::Message(m) => match m.message_type {
                Some(MessageType::Init { uuid, protocol }) => r matches Ok(name) && name@ == uuid@,
                _ => r matches Err(s) && s.code is InvalidArgument && s.message@
                    == "First message must be init"@,
            },
        },
{
}

} // verus!
