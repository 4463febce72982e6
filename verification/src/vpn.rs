//! The client's connection sequence: connect to the server, learn the port of
//! the second connection, run the key exchange, reconnect, open the encrypted
//! tunnel and run it. The sequence is a state machine: the caller performs
//! each action and reports what came of it.

use vstd::prelude::*;
use crate::addr::PeerAddr;

verus! {

/// What the client reports when the first connection is refused.
pub const CONNECTION_REFUSED: &'static str = "ERROR: Connection refused. Do you have the correct IP address?";

/// What the client reports when it may not create the tunnel interface.
pub const TUN_DENIED: &'static str = "ERROR: Permission denied. Try running as superuser";

/// The identity the client gives itself in the key exchange.
pub const CLIENT_ID: &'static str = "0.0.0.0:1337";

/// The two halves of a tunnel: the sink that takes packets to the interface
/// and the stream of packets that come from it.
pub struct EncryptedTun<T, U> {
    pub sink: T,
    pub stream: U,
}

impl<T, U> EncryptedTun<T, U> {
    /// The tunnel made of the interface's sink and stream, or the refusal
    /// where the interface could not be created.
    pub fn new(parts: Option<(T, U)>) -> (r: Result<EncryptedTun<T, U>, &'static str>)
        ensures
            parts is None ==> r == Err::<EncryptedTun<T, U>, &'static str>(TUN_DENIED),
            parts matches Some(p) ==> (r matches Ok(e) && e.sink == p.0 && e.stream == p.1),
    {
        match parts {
            Some((sink, stream)) => Ok(EncryptedTun { sink, stream }),
            None => Err(TUN_DENIED),
        }
    }

    /// The sink and the stream, apart.
    pub fn split(self) -> (r: (T, U))
        ensures
            r.0 == self.sink,
            r.1 == self.stream,
    {
        (self.sink, self.stream)
    }
}

/// Where the connection sequence stands.
#[derive(Clone, Copy, PartialEq, Eq, Structural, Debug)]
pub enum Phase {
    Start,
    Connecting,
    ReadingPort,
    Handshaking,
    Reconnecting,
    OpeningTun,
    Running,
    Done,
}

/// What the caller reports of the action it performed.
#[derive(Clone, Copy, PartialEq, Eq, Debug)]
pub enum Event {
    /// Begin the sequence.
    Begin,
    /// The first connection was made, or refused.
    Connected(bool),
    /// The two bytes of the client number that the server sent.
    PortRead([u8; 2]),
    /// The key exchange ended: with a key, or with the error it reported.
    HandshakeDone(Result<(), &'static str>),
    /// The first connection was closed and the second one made.
    Reconnected,
    /// The tunnel was opened, or the error that opening it reported.
    TunOpened(Result<(), &'static str>),
    /// The tunnel stopped.
    Stopped,
}

/// What the caller is to do next.
#[derive(Clone, Copy, PartialEq, Eq, Debug)]
pub enum Action {
    /// Connect to the endpoint.
    Connect(PeerAddr),
    /// Read the two bytes of the client number.
    ReadPort,
    /// Run the key exchange with this identity, naming the server by this
    /// endpoint.
    Handshake { client_id: &'static str, server: PeerAddr },
    /// Close the first connection and connect to this endpoint.
    Reconnect(PeerAddr),
    /// Open the encrypted tunnel with the session key.
    OpenTun,
    /// Run the tunnel until it stops.
    Run,
    /// End the sequence with this result.
    Return(Result<(), &'static str>),
}

/// The state of a client's connection sequence.
#[derive(Clone, Copy, PartialEq, Eq, Debug)]
pub struct Connector {
    /// The server as the user named it.
    pub remote: PeerAddr,
    /// The port of the second connection, once the server has sent it.
    pub port: u16,
    pub phase: Phase,
}

/// A port sent as two bytes, most significant first (`u16::from_be_bytes`).
pub open spec fn be_u16(b: [u8; 2]) -> u16 {
    (b[0] as int * 256 + b[1] as int) as u16
}

/// Whether the sequence, in phase `p`, waits for event `e`.
pub open spec fn accepts(p: Phase, e: Event) -> bool {
    match (p, e) {
        (Phase::Start, Event::Begin) => true,
        (Phase::Connecting, Event::Connected(_)) => true,
        (Phase::ReadingPort, Event::PortRead(_)) => true,
        (Phase::Handshaking, Event::HandshakeDone(_)) => true,
        (Phase::Reconnecting, Event::Reconnected) => true,
        (Phase::OpeningTun, Event::TunOpened(_)) => true,
        (Phase::Running, Event::Stopped) => true,
        _ => false,
    }
}

/// One step of the sequence: the state after event `e`, and the next action.
/// A failure ends the sequence with its message; the key exchange names the
/// server as the user did; the second connection goes to the same address, on
/// the port the server sent.
pub open spec fn step_spec(c: Connector, e: Event) -> (Connector, Action) {
    match e {
        Event::Begin => (Connector { phase: Phase::Connecting, ..c }, Action::Connect(c.remote)),
        Event::Connected(ok) => if ok {
            (Connector { phase: Phase::ReadingPort, ..c }, Action::ReadPort)
        } else {
            (Connector { phase: Phase::Done, ..c }, Action::Return(Err(CONNECTION_REFUSED)))
        },
        Event::PortRead(b) => (
            Connector { phase: Phase::Handshaking, port: be_u16(b), ..c },
            Action::Handshake { client_id: CLIENT_ID, server: c.remote },
        ),
        Event::HandshakeDone(r) => match r {
            Ok(_) => (
                Connector { phase: Phase::Reconnecting, ..c },
                Action::Reconnect(PeerAddr { ip: c.remote.ip, port: c.port }),
            ),
            Err(msg) => (Connector { phase: Phase::Done, ..c }, Action::Return(Err(msg))),
        },
        Event::Reconnected => (Connector { phase: Phase::OpeningTun, ..c }, Action::OpenTun),
        Event::TunOpened(r) => match r {
            Ok(_) => (Connector { phase: Phase::Running, ..c }, Action::Run),
            Err(msg) => (Connector { phase: Phase::Done, ..c }, Action::Return(Err(msg))),
        },
        Event::Stopped => (Connector { phase: Phase::Done, ..c }, Action::Return(Ok(()))),
    }
}


/// Whether every event of `es`, in turn, is one the sequence waits for.
pub open spec fn accepted_run(c: Connector, es: Seq<Event>) -> bool
    decreases es.len(),
{
    es.len() == 0 || (accepts(c.phase, es[0]) && accepted_run(step_spec(c, es[0]).0, es.drop_first()))
}

/// The actions that the events `es` draw, in order.
pub open spec fn run_actions(c: Connector, es: Seq<Event>) -> Seq<Action>
    decreases es.len(),
{
    if es.len() == 0 {
        Seq::<Action>::empty()
    } else {
        seq![step_spec(c, es[0]).1] + run_actions(step_spec(c, es[0]).0, es.drop_first())
    }
}

/// How far along the sequence a phase stands.
pub open spec fn rank(p: Phase) -> int {
    match p {
        Phase::Start => 0,
        Phase::Connecting => 1,
        Phase::ReadingPort => 2,
        Phase::Handshaking => 3,
        Phase::Reconnecting => 4,
        Phase::OpeningTun => 5,
        Phase::Running => 6,
        Phase::Done => 7,
    }
}

/// A finished sequence waits for nothing.
pub proof fn done_is_final(c: Connector, e: Event)
    requires
        c.phase == Phase::Done,
    ensures
        !accepts(c.phase, e),
{
}

/// Every step that the sequence takes moves it forward.
pub proof fn steps_move_forward(c: Connector, e: Event)
    requires
        accepts(c.phase, e),
    ensures
        rank(step_spec(c, e).0.phase) > rank(c.phase),
        step_spec(c, e).0.remote == c.remote,
{
}

/// The key exchange names the server as the user did, and the second
/// connection goes to the same address, on the port that the server sent.
pub proof fn reconnect_goes_to_sent_port(c: Connector, b: [u8; 2])
    requires
        c.phase == Phase::ReadingPort,
    ensures
        ({
            let (c1, a1) = step_spec(c, Event::PortRead(b));
            let (c2, a2) = step_spec(c1, Event::HandshakeDone(Ok(())));
            &&& a1 == Action::Handshake { client_id: CLIENT_ID, server: c.remote }
            &&& a2 == Action::Reconnect(PeerAddr { ip: c.remote.ip, port: be_u16(b) })
        }),
{
}

/// What the rest of a sequence holds, the whole holds.
proof fn contains_after_first(es: Seq<Event>, x: Event)
    requires
        es.len() > 0,
        es.drop_first().contains(x),
    ensures
        es.contains(x),
{
    let j = choose|j: int| 0 <= j < es.drop_first().len() && es.drop_first()[j] == x;
    assert(es[j + 1] == x);
}

/// A sequence ends in success only after the first connection was made, the
/// key exchange gave a key and the tunnel was opened.
pub proof fn success_needs_every_step(c: Connector, es: Seq<Event>)
    requires
        accepted_run(c, es),
        run_actions(c, es).contains(Action::Return(Ok(()))),
    ensures
        rank(c.phase) <= 1 ==> es.contains(Event::Connected(true)),
        rank(c.phase) <= 3 ==> es.contains(Event::HandshakeDone(Ok(()))),
        rank(c.phase) <= 5 ==> es.contains(Event::TunOpened(Ok(()))),
    decreases es.len(),
{
    let e = es[0];
    let (c1, a1) = step_spec(c, e);
    let rest = es.drop_first();
    assert(run_actions(c, es) == seq![a1] + run_actions(c1, rest));
    let ok = Action::Return(Ok(()));
    if a1 == ok {
        assert(c.phase == Phase::Running);
    } else {
        let k = choose|k: int| 0 <= k < run_actions(c, es).len() && run_actions(c, es)[k] == ok;
        assert(k > 0);
        assert(run_actions(c1, rest)[k - 1] == ok);
        assert(run_actions(c1, rest).contains(ok));
        if rest.len() == 0 {
            assert(run_actions(c1, rest) == Seq::<Action>::empty());
        }
        assert(accepted_run(c1, rest));
        assert(rest.len() > 0);
        assert(accepts(c1.phase, rest[0]));
        assert(c1.phase != Phase::Done);
        success_needs_every_step(c1, rest);
        let x1 = Event::Connected(true);
        let x3 = Event::HandshakeDone(Ok(()));
        let x5 = Event::TunOpened(Ok(()));
        if rank(c1.phase) <= 1 {
            contains_after_first(es, x1);
        } else if rank(c.phase) <= 1 {
            assert(e == x1);
            assert(es[0] == x1);
        }
        if rank(c1.phase) <= 3 {
            contains_after_first(es, x3);
        } else if rank(c.phase) <= 3 {
            match e {
                Event::HandshakeDone(r) => {
                    assert(r is Ok);
                    let u: () = r->Ok_0;
                    assert(u == ());
                    assert(r == Ok::<(), &'static str>(u));
                },
                _ => {},
            }
            assert(e == x3);
            assert(es[0] == x3);
        }
        if rank(c1.phase) <= 5 {
            contains_after_first(es, x5);
        } else if rank(c.phase) <= 5 {
            match e {
                Event::TunOpened(r) => {
                    assert(r is Ok);
                    let u: () = r->Ok_0;
                    assert(u == ());
                    assert(r == Ok::<(), &'static str>(u));
                },
                _ => {},
            }
            assert(e == x5);
            assert(es[0] == x5);
        }
    }
}

/// Whether event `e` reports the outcome of action `a`: a connection attempt
/// is answered by `Connected`, reading the port by `PortRead`, the key exchange
/// by `HandshakeDone`, reconnecting by `Reconnected`, opening the tunnel by
/// `TunOpened`, running it by `Stopped`.
pub open spec fn reports(a: Action, e: Event) -> bool {
    match (a, e) {
        (Action::Connect(_), Event::Connected(_)) => true,
        (Action::ReadPort, Event::PortRead(_)) => true,
        (Action::Handshake { .. }, Event::HandshakeDone(_)) => true,
        (Action::Reconnect(_), Event::Reconnected) => true,
        (Action::OpenTun, Event::TunOpened(_)) => true,
        (Action::Run, Event::Stopped) => true,
        _ => false,
    }
}

/// The sequence never gets stuck: after every step, either it has ended (the
/// action is `Return` and the sequence is done), or it waits for every event
/// that reports the outcome of the action it asked for.
pub proof fn each_action_is_awaited(c: Connector, e: Event, e2: Event)
    requires
        accepts(c.phase, e),
    ensures
        step_spec(c, e).1 is Return ==> step_spec(c, e).0.phase == Phase::Done,
        reports(step_spec(c, e).1, e2) ==> accepts(step_spec(c, e).0.phase, e2),
        !(step_spec(c, e).1 is Return) ==> exists|e3: Event| reports(step_spec(c, e).1, e3),
{
    let a = step_spec(c, e).1;
    match a {
        Action::Connect(_) => assert(reports(a, Event::Connected(true))),
        Action::ReadPort => assert(reports(a, Event::PortRead([0u8, 0u8]))),
        Action::Handshake { .. } => assert(reports(a, Event::HandshakeDone(Ok(())))),
        Action::Reconnect(_) => assert(reports(a, Event::Reconnected)),
        Action::OpenTun => assert(reports(a, Event::TunOpened(Ok(())))),
        Action::Run => assert(reports(a, Event::Stopped)),
        Action::Return(_) => {},
    }
}

/// Where every step succeeds, the whole sequence runs from the start: it
/// connects to the server, reads the port, runs the key exchange naming the
/// server as given, reconnects to the same address on the port the server sent
/// (its two bytes, most significant first), opens and runs the tunnel, and
/// ends in success.
pub proof fn successful_run(remote: PeerAddr, b: [u8; 2])
    ensures
        ({
            let c = Connector { remote, port: remote.port, phase: Phase::Start };
            let es = seq![
                Event::Begin,
                Event::Connected(true),
                Event::PortRead(b),
                Event::HandshakeDone(Ok(())),
                Event::Reconnected,
                Event::TunOpened(Ok(())),
                Event::Stopped,
            ];
            &&& accepted_run(c, es)
            &&& run_actions(c, es) == seq![
                Action::Connect(remote),
                Action::ReadPort,
                Action::Handshake { client_id: "0.0.0.0:1337", server: remote },
                Action::Reconnect(PeerAddr { ip: remote.ip, port: (b[0] as int * 256 + b[1] as int) as u16 }),
                Action::OpenTun,
                Action::Run,
                Action::Return(Ok(())),
            ]
        }),
{
    let c0 = Connector { remote, port: remote.port, phase: Phase::Start };
    let es = seq![
        Event::Begin,
        Event::Connected(true),
        Event::PortRead(b),
        Event::HandshakeDone(Ok(())),
        Event::Reconnected,
        Event::TunOpened(Ok(())),
        Event::Stopped,
    ];
    let c1 = step_spec(c0, es[0]).0;
    let c2 = step_spec(c1, es[1]).0;
    let c3 = step_spec(c2, es[2]).0;
    let c4 = step_spec(c3, es[3]).0;
    let c5 = step_spec(c4, es[4]).0;
    let c6 = step_spec(c5, es[5]).0;
    let c7 = step_spec(c6, es[6]).0;
    let r6 = es.drop_first().drop_first().drop_first().drop_first().drop_first().drop_first();
    let r5 = es.drop_first().drop_first().drop_first().drop_first().drop_first();
    let r4 = es.drop_first().drop_first().drop_first().drop_first();
    let r3 = es.drop_first().drop_first().drop_first();
    let r2 = es.drop_first().drop_first();
    let r1 = es.drop_first();
    assert(r6 == seq![Event::Stopped]);
    assert(r5 == seq![Event::TunOpened(Ok(())), Event::Stopped]);
    assert(r4 == seq![Event::Reconnected, Event::TunOpened(Ok(())), Event::Stopped]);
    assert(r3 =~= seq![Event::HandshakeDone(Ok(())), Event::Reconnected, Event::TunOpened(Ok(())), Event::Stopped]);
    assert(r2 =~= es.subrange(2, 7));
    assert(r1 =~= es.subrange(1, 7));
    assert(r6.drop_first() == Seq::<Event>::empty());
    assert(accepted_run(c7, r6.drop_first()));
    assert(accepted_run(c6, r6));
    assert(accepted_run(c5, r5));
    assert(accepted_run(c4, r4));
    assert(accepted_run(c3, r3));
    assert(accepted_run(c2, r2));
    assert(accepted_run(c1, r1));
    assert(accepted_run(c0, es));
    assert(run_actions(c7, r6.drop_first()) == Seq::<Action>::empty());
    assert(run_actions(c6, r6) =~= seq![Action::Return(Ok(()))]);
    assert(run_actions(c5, r5) =~= seq![Action::Run, Action::Return(Ok(()))]);
    assert(run_actions(c4, r4) =~= seq![Action::OpenTun, Action::Run, Action::Return(Ok(()))]);
    let reconnect = Action::Reconnect(PeerAddr { ip: remote.ip, port: (b[0] as int * 256 + b[1] as int) as u16 });
    let handshake = Action::Handshake { client_id: "0.0.0.0:1337", server: remote };
    assert(CLIENT_ID == "0.0.0.0:1337");
    assert(step_spec(c3, es[3]).1 == reconnect);
    assert(step_spec(c2, es[2]).1 == handshake);
    assert(run_actions(c3, r3) =~= seq![reconnect, Action::OpenTun, Action::Run, Action::Return(Ok(()))]);
    assert(run_actions(c2, r2) =~= seq![handshake, reconnect, Action::OpenTun, Action::Run, Action::Return(Ok(()))]);
    assert(run_actions(c1, r1) =~= seq![Action::ReadPort, handshake, reconnect, Action::OpenTun, Action::Run, Action::Return(Ok(()))]);
    assert(run_actions(c0, es) =~= seq![
        Action::Connect(remote),
        Action::ReadPort,
        Action::Handshake { client_id: "0.0.0.0:1337", server: remote },
        Action::Reconnect(PeerAddr { ip: remote.ip, port: (b[0] as int * 256 + b[1] as int) as u16 }),
        Action::OpenTun,
        Action::Run,
        Action::Return(Ok(())),
    ]);
}

impl Connector {
    /// A sequence that has not begun, towards the server `remote`.
    pub fn new(remote: PeerAddr) -> (c: Connector)
        ensures
            c.remote == remote,
            c.port == remote.port,
            c.phase == Phase::Start,
    {
        Connector { remote, port: remote.port, phase: Phase::Start }
    }

    /// Whether the sequence waits for this event.
    pub fn accepts(&self, e: &Event) -> (b: bool)
        ensures
            b == accepts(self.phase, *e),
    {
        match (self.phase, e) {
            (Phase::Start, Event::Begin) => true,
            (Phase::Connecting, Event::Connected(_)) => true,
            (Phase::ReadingPort, Event::PortRead(_)) => true,
            (Phase::Handshaking, Event::HandshakeDone(_)) => true,
            (Phase::Reconnecting, Event::Reconnected) => true,
            (Phase::OpeningTun, Event::TunOpened(_)) => true,
            (Phase::Running, Event::Stopped) => true,
            _ => false,
        }
    }

    /// Takes the event the caller reports and gives the next action.
    pub fn step(&mut self, e: Event) -> (a: Action)
        requires
            accepts(old(self).phase, e),
        ensures
            (*final(self), a) == step_spec(*old(self), e),
    {
        match e {
            Event::Begin => {
                self.phase = Phase::Connecting;
                Action::Connect(self.remote)
            },
            Event::Connected(ok) => {
                if ok {
                    self.phase = Phase::ReadingPort;
                    Action::ReadPort
                } else {
                    self.phase = Phase::Done;
                    Action::Return(Err(CONNECTION_REFUSED))
                }
            },
            Event::PortRead(b) => {
                self.phase = Phase::Handshaking;
                self.port = (b[0] as u16) * 256 + (b[1] as u16);
                Action::Handshake { client_id: CLIENT_ID, server: self.remote }
            },
            Event::HandshakeDone(r) => match r {
                Ok(_) => {
                    self.phase = Phase::Reconnecting;
                    Action::Reconnect(PeerAddr { ip: self.remote.ip, port: self.port })
                },
                Err(msg) => {
                    self.phase = Phase::Done;
                    Action::Return(Err(msg))
                },
            },
            Event::Reconnected => {
                self.phase = Phase::OpeningTun;
                Action::OpenTun
            },
            Event::TunOpened(r) => match r {
                Ok(_) => {
                    self.phase = Phase::Running;
                    Action::Run
                },
                Err(msg) => {
                    self.phase = Phase::Done;
                    Action::Return(Err(msg))
                },
            },
            Event::Stopped => {
                self.phase = Phase::Done;
                Action::Return(Ok(()))
            },
        }
    }
}

} // verus!
