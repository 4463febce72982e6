use bytes::BytesMut;
use cobweb::addr::PeerAddr;
use cobweb::tun::{setup_commands, TcpVecCodec, UdpVecCodec, TUN_ADDRESS};

#[test]
fn tcp_decode_copies_without_consuming() {
    let mut codec = TcpVecCodec;
    let mut buf = BytesMut::from(vec![1u8, 2, 3]);
    assert_eq!(codec.decode(&mut buf), Some(vec![1, 2, 3]));
    assert_eq!(&buf[..], &[1, 2, 3]);
    assert_eq!(codec.decode(&mut buf), Some(vec![1, 2, 3]));
}

#[test]
fn tcp_decode_of_empty_buffer() {
    let mut codec = TcpVecCodec;
    let mut buf = BytesMut::new();
    assert_eq!(codec.decode(&mut buf), Some(vec![]));
}

#[test]
fn tcp_encode_appends_and_reads_back() {
    let mut codec = TcpVecCodec;
    let mut buf = BytesMut::new();
    codec.encode(vec![9, 8], &mut buf);
    codec.encode(vec![7], &mut buf);
    assert_eq!(&buf[..], &[9, 8, 7]);
    let mut empty = BytesMut::new();
    codec.encode(vec![5, 6, 7, 8], &mut empty);
    assert_eq!(codec.decode(&mut empty), Some(vec![5, 6, 7, 8]));
}

#[test]
fn udp_codec_frames_and_peer() {
    let peer = PeerAddr { ip: [0, 0, 0, 0], port: 11443 };
    let mut codec = UdpVecCodec(peer);
    let from = PeerAddr { ip: [1, 2, 3, 4], port: 5 };
    assert_eq!(codec.decode(&from, &[4, 5, 6]), vec![4, 5, 6]);
    let mut out = vec![1u8];
    let to = codec.encode(vec![2, 3], &mut out);
    assert_eq!(out, vec![1, 2, 3]);
    assert_eq!(to, peer);
}

#[test]
fn interface_setup_commands() {
    let cmds = setup_commands("vpn0");
    assert_eq!(cmds, vec![
        vec!["addr", "add", "dev", "vpn0", "10.107.1.3/24"],
        vec!["link", "set", "up", "dev", "vpn0"],
    ]);
    assert_eq!(TUN_ADDRESS, "10.107.1.3/24");
}

#[test]
fn frames_that_fit_can_be_encoded() {
    let codec = TcpVecCodec;
    let buf = BytesMut::from(vec![1u8, 2, 3]);
    assert!(codec.can_encode(&vec![4, 5], &buf));
    assert!(codec.can_encode(&vec![], &BytesMut::new()));
}
