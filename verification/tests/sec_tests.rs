use cobweb::addr::PeerAddr;
use cobweb::sec::client::ClientHandshake;
use cobweb::sec::server::{ServerHandshake, CONNECT_FAILED, SERVER_REPLY_LEN};
use cobweb::sec::{derive_session_key, key_from_exchange, PakeError, PAKE_MESSAGE_LEN, SIDE_A, SIDE_B};

#[test]
fn client_message_and_identities() {
    let server = PeerAddr { ip: [10, 0, 0, 1], port: 1337 };
    let (hs, msg) = ClientHandshake::start("0.0.0.0:1337", &server, "secret");
    assert_eq!(msg.len(), PAKE_MESSAGE_LEN);
    assert_eq!(msg[0], SIDE_A);
    assert_eq!(hs.client_id, "0.0.0.0:1337");
    assert_eq!(hs.server_id, "10.0.0.1:1337");
}

#[test]
fn server_message_and_identities() {
    let client = PeerAddr { ip: [192, 168, 1, 20], port: 4000 };
    let (hs, msg) = ServerHandshake::start(&client, "server", "secret");
    assert_eq!(msg.len(), PAKE_MESSAGE_LEN);
    assert_eq!(msg[0], SIDE_B);
    assert_eq!(hs.client_id, "192.168.1.20:4000");
    assert_eq!(hs.server_id, "server");
}

#[test]
fn both_sides_finish_with_each_others_messages() {
    let client_addr = PeerAddr { ip: [10, 0, 0, 2], port: 5000 };
    let server_addr = PeerAddr { ip: [10, 0, 0, 1], port: 1337 };
    let (c, c_msg) = ClientHandshake::start("10.0.0.2:5000", &server_addr, "pw");
    let (s, s_msg) = ServerHandshake::start(&client_addr, "10.0.0.1:1337", "pw");
    let ck = c.finish(&s_msg).expect("client key");
    let sk = s.finish(&c_msg).expect("server key");
    assert_eq!(ck.bytes.len(), 32);
    assert_eq!(sk.bytes.len(), 32);
    assert_eq!(ck.key.as_slice(), &ck.bytes[..]);
    // The two sides salt the key with different identities.
    assert_ne!(ck.bytes, sk.bytes);
}

#[test]
fn wrong_length_is_refused() {
    let server = PeerAddr { ip: [10, 0, 0, 1], port: 1337 };
    let (c, _) = ClientHandshake::start("0.0.0.0:1337", &server, "pw");
    assert!(c.finish(&[0u8; 32]).is_none());
    let client = PeerAddr { ip: [10, 0, 0, 2], port: 1 };
    let (s, _) = ServerHandshake::start(&client, "srv", "pw");
    assert!(s.finish(&vec![0u8; SERVER_REPLY_LEN]).is_none());
}

#[test]
fn message_from_the_same_side_is_refused() {
    let server = PeerAddr { ip: [10, 0, 0, 1], port: 1337 };
    let (c1, _) = ClientHandshake::start("a", &server, "pw");
    let (_, other) = ClientHandshake::start("a", &server, "pw");
    assert!(c1.finish(&other).is_none());
}

#[test]
fn session_key_is_keybob_from_debug_text() {
    let k = derive_session_key(&[1, 2, 250], "0.0.0.0:1337");
    let expected = keybob::Key::from_pw(keybob::KeyType::Aes128, "[1, 2, 250]", "0.0.0.0:1337");
    assert_eq!(k.bytes, expected.as_slice().to_vec());
    assert_ne!(k.bytes, vec![1, 2, 250]);
    assert_eq!(k.key.as_slice(), &k.bytes[..]);
    assert_eq!(k.key, expected);
}

#[test]
fn server_outcome() {
    let k = derive_session_key(&[3], "srv");
    let bytes = k.bytes.clone();
    match ServerHandshake::outcome(true, k) {
        Ok(key) => assert_eq!(key.bytes, bytes),
        Err(_) => panic!("expected a key"),
    }
    let k = derive_session_key(&[3], "srv");
    match ServerHandshake::outcome(false, k) {
        Ok(_) => panic!("expected an error"),
        Err(e) => assert_eq!(e, CONNECT_FAILED),
    }
    assert_eq!(CONNECT_FAILED, "ERROR: Unable to connect to server");
}

#[test]
fn exchange_outcome_gives_key_or_nothing() {
    let k = key_from_exchange(Ok(vec![7, 8]), "user").expect("a key");
    assert_eq!(k.bytes, derive_session_key(&[7, 8], "user").bytes);
    assert!(key_from_exchange(Err(PakeError::BadSide), "user").is_none());
    assert!(key_from_exchange(Err(PakeError::WrongLength), "user").is_none());
}

#[test]
fn client_finishes_exactly_when_the_exchange_accepts() {
    let server = PeerAddr { ip: [10, 0, 0, 1], port: 1337 };
    for first in [SIDE_A, SIDE_B, 0x53u8] {
        for fill in [0u8, 1, 2, 5, 9, 0x58, 0xff] {
            let mut m = vec![first];
            m.extend(std::iter::repeat(fill).take(32));
            let (c, _) = ClientHandshake::start("0.0.0.0:1337", &server, "pw");
            let (s, _) = spake2::Spake2::<spake2::Ed25519Group>::start_a(
                &spake2::Password::new(b"pw"),
                &spake2::Identity::new(b"0.0.0.0:1337"),
                &spake2::Identity::new(b"10.0.0.1:1337"),
            );
            let expected = s.finish(&m).is_ok();
            assert_eq!(c.finish(&m).is_some(), expected);
            if first != SIDE_B {
                assert!(!expected);
            }
        }
    }
}

#[test]
fn server_finishes_exactly_when_the_exchange_accepts() {
    let client = PeerAddr { ip: [10, 0, 0, 2], port: 7 };
    for first in [SIDE_A, SIDE_B] {
        for fill in [0u8, 1, 2, 5, 9, 0x58, 0xff] {
            let mut m = vec![first];
            m.extend(std::iter::repeat(fill).take(32));
            let (h, _) = ServerHandshake::start(&client, "srv", "pw");
            let (s, _) = spake2::Spake2::<spake2::Ed25519Group>::start_b(
                &spake2::Password::new(b"pw"),
                &spake2::Identity::new(b"10.0.0.2:7"),
                &spake2::Identity::new(b"srv"),
            );
            assert_eq!(h.finish(&m).is_some(), s.finish(&m).is_ok());
        }
    }
}
