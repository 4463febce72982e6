use cobweb::addr::{parse_octets, target_from_octets, addr_string, PeerAddr, VPN_PORT};
use cobweb::text::{debug_string, parse_u8, push_decimal, push_lower_hex};

fn chars(s: &str) -> Vec<char> {
    s.chars().collect()
}

#[test]
fn decimal_writes_without_leading_zeros() {
    for (n, text) in [(0u64, "0"), (7, "7"), (10, "10"), (1337, "1337"), (18446744073709551615, "18446744073709551615")] {
        let mut s = String::from(">");
        push_decimal(&mut s, n);
        assert_eq!(s, format!(">{}", text));
    }
}

#[test]
fn u8_reading_matches_std() {
    for s in ["0", "7", "255", "256", "+5", "+", "", "-0", "007", "0255", "0256", "1a", " 1", "٣", "99999999999"] {
        assert_eq!(parse_u8(&chars(s)), s.parse::<u8>().ok(), "{}", s);
    }
}

#[test]
fn debug_format_of_bytes_matches_std() {
    for b in [vec![], vec![0u8], vec![1, 22, 255], vec![9, 10, 99, 100]] {
        assert_eq!(debug_string(&b), format!("{:?}", b));
    }
}

#[test]
fn lower_hex_of_bytes() {
    let mut s = String::from("x");
    push_lower_hex(&mut s, &[0x00, 0x0f, 0xa5, 0xff]);
    assert_eq!(s, "x000fa5ff");
}

#[test]
fn octets_of_a_dotted_address() {
    assert_eq!(parse_octets("10.107.1.3"), Some(vec![10, 107, 1, 3]));
    assert_eq!(parse_octets("1.2.3.4.5"), Some(vec![1, 2, 3, 4, 5]));
    assert_eq!(parse_octets("1.2"), Some(vec![1, 2]));
    assert_eq!(parse_octets("1.2.3.256"), None);
    assert_eq!(parse_octets("1..3.4"), None);
    assert_eq!(parse_octets(""), None);
    assert_eq!(parse_octets("localhost"), None);
    assert_eq!(parse_octets("+1.02.3.4"), Some(vec![1, 2, 3, 4]));
}

#[test]
fn first_connection_goes_to_the_server_port() {
    let a = target_from_octets(&vec![192, 168, 0, 9, 77]);
    assert_eq!(a, PeerAddr { ip: [192, 168, 0, 9], port: 1337 });
    assert_eq!(VPN_PORT, 1337);
}

#[test]
fn endpoint_text_matches_std_socket_addr() {
    let a = PeerAddr { ip: [127, 0, 0, 1], port: 6969 };
    assert_eq!(addr_string(&a), "127.0.0.1:6969");
    let b = PeerAddr { ip: [0, 10, 200, 255], port: 65535 };
    assert_eq!(addr_string(&b), "0.10.200.255:65535");
}

#[test]
fn written_address_reads_back() {
    for ip in [[0u8, 0, 0, 0], [255, 255, 255, 255], [10, 107, 1, 3]] {
        let a = PeerAddr { ip, port: 1 };
        let text = addr_string(&a);
        let dotted: String = text.split(':').next().unwrap().to_string();
        assert_eq!(parse_octets(&dotted), Some(ip.to_vec()));
    }
}
