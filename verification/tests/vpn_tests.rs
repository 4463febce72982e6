use cobweb::addr::PeerAddr;
use cobweb::vpn::{Action, Connector, EncryptedTun, Event, Phase, CLIENT_ID, CONNECTION_REFUSED, TUN_DENIED};

fn server() -> PeerAddr {
    PeerAddr { ip: [10, 0, 0, 1], port: 1337 }
}

#[test]
fn full_sequence_succeeds() {
    let mut c = Connector::new(server());
    assert_eq!(c.phase, Phase::Start);
    assert_eq!(c.step(Event::Begin), Action::Connect(server()));
    assert_eq!(c.phase, Phase::Connecting);
    assert_eq!(c.step(Event::Connected(true)), Action::ReadPort);
    assert_eq!(c.phase, Phase::ReadingPort);
    assert_eq!(c.step(Event::PortRead([0x1f, 0x90])), Action::Handshake { client_id: "0.0.0.0:1337", server: server() });
    assert_eq!(c.step(Event::HandshakeDone(Ok(()))), Action::Reconnect(PeerAddr { ip: [10, 0, 0, 1], port: 8080 }));
    assert_eq!(c.step(Event::Reconnected), Action::OpenTun);
    assert_eq!(c.step(Event::TunOpened(Ok(()))), Action::Run);
    assert_eq!(c.step(Event::Stopped), Action::Return(Ok(())));
    assert_eq!(c.phase, Phase::Done);
    assert!(!c.accepts(&Event::Begin));
    assert_eq!(CLIENT_ID, "0.0.0.0:1337");
}

#[test]
fn refused_connection_ends_with_message() {
    let mut c = Connector::new(server());
    c.step(Event::Begin);
    assert_eq!(c.step(Event::Connected(false)), Action::Return(Err(CONNECTION_REFUSED)));
    assert_eq!(CONNECTION_REFUSED, "ERROR: Connection refused. Do you have the correct IP address?");
    assert_eq!(c.phase, Phase::Done);
}

#[test]
fn handshake_error_is_passed_on() {
    let mut c = Connector::new(server());
    c.step(Event::Begin);
    c.step(Event::Connected(true));
    c.step(Event::PortRead([0, 1]));
    assert_eq!(c.step(Event::HandshakeDone(Err("bad"))), Action::Return(Err("bad")));
}

#[test]
fn tun_error_is_passed_on() {
    let mut c = Connector::new(server());
    c.step(Event::Begin);
    c.step(Event::Connected(true));
    c.step(Event::PortRead([255, 255]));
    assert_eq!(c.step(Event::HandshakeDone(Ok(()))), Action::Reconnect(PeerAddr { ip: [10, 0, 0, 1], port: 65535 }));
    c.step(Event::Reconnected);
    assert_eq!(c.step(Event::TunOpened(Err(TUN_DENIED))), Action::Return(Err(TUN_DENIED)));
}

#[test]
fn events_out_of_turn_are_not_accepted() {
    let c = Connector::new(server());
    assert!(c.accepts(&Event::Begin));
    assert!(!c.accepts(&Event::Connected(true)));
    assert!(!c.accepts(&Event::Stopped));
}

#[test]
fn tunnel_parts() {
    let t: Result<EncryptedTun<u8, u16>, &str> = EncryptedTun::new(None);
    assert_eq!(t.err(), Some(TUN_DENIED));
    assert_eq!(TUN_DENIED, "ERROR: Permission denied. Try running as superuser");
    let t = EncryptedTun::new(Some((1u8, 2u16))).ok().unwrap();
    assert_eq!(t.split(), (1, 2));
}
