//! IPv4 endpoints: reading the address a user types and writing an endpoint
//! the way the standard library displays a socket address.

use vstd::prelude::*;
use crate::text;
use crate::text::{decimal, parse_u8_spec, all_digits, is_digit};

verus! {

/// The port on which a Cobweb server accepts the first connection of a client.
pub const VPN_PORT: u16 = 1337;

/// An IPv4 endpoint: the four bytes of the address and a port.
#[derive(Clone, Copy, Debug, PartialEq, Eq)]
pub struct PeerAddr {
    pub ip: [u8; 4],
    pub port: u16,
}

/// The pieces of `s` between dots, as `str::split('.')` yields them: one more
/// piece than there are dots, empty pieces included.
pub open spec fn split_dots(s: Seq<char>) -> Seq<Seq<char>>
    decreases s.len(),
{
    if s.len() == 0 {
        seq![Seq::<char>::empty()]
    } else {
        let prev = split_dots(s.drop_last());
        if s.last() == '.' {
            prev.push(Seq::<char>::empty())
        } else {
            prev.update(prev.len() - 1, prev.last().push(s.last()))
        }
    }
}

/// Every piece read as a `u8`; `None` as soon as one of them is not one.
pub open spec fn parse_parts(parts: Seq<Seq<char>>) -> Option<Seq<u8>>
    decreases parts.len(),
{
    if parts.len() == 0 {
        Some(Seq::<u8>::empty())
    } else {
        match (parse_parts(parts.drop_last()), parse_u8_spec(parts.last())) {
            (Some(v), Some(b)) => Some(v.push(b)),
            _ => None,
        }
    }
}

/// The bytes of a dotted address text: each dot-separated piece read as a `u8`.
pub open spec fn parse_octets_spec(s: Seq<char>) -> Option<Seq<u8>> {
    parse_parts(split_dots(s))
}

/// An IPv4 address in dotted decimal, such as `10.0.0.1`.
pub open spec fn ipv4_text(ip: Seq<u8>) -> Seq<char> {
    decimal(ip[0] as nat) + seq!['.'] + decimal(ip[1] as nat) + seq!['.'] + decimal(ip[2] as nat)
        + seq!['.'] + decimal(ip[3] as nat)
}

/// An endpoint as `address:port`, such as `10.0.0.1:1337`.
pub open spec fn addr_text(a: PeerAddr) -> Seq<char> {
    ipv4_text(a.ip@) + seq![':'] + decimal(a.port as nat)
}

/// The endpoint that a client connects to first: the first four bytes typed,
/// and the server port.
pub open spec fn target_spec(octets: Seq<u8>) -> PeerAddr {
    PeerAddr { ip: [octets[0], octets[1], octets[2], octets[3]], port: VPN_PORT }
}


/// There is always at least one piece.
pub proof fn lemma_split_len(s: Seq<char>)
    ensures
        split_dots(s).len() >= 1,
    decreases s.len(),
{
    if s.len() > 0 {
        lemma_split_len(s.drop_last());
    }
}

/// Appending text without dots extends the last piece.
pub proof fn lemma_split_append_digits(p: Seq<char>, y: Seq<char>)
    requires
        all_digits(y),
    ensures
        split_dots(p + y) == split_dots(p).update(
            split_dots(p).len() - 1,
            split_dots(p).last() + y,
        ),
    decreases y.len(),
{
    lemma_split_len(p);
    let sp = split_dots(p);
    if y.len() == 0 {
        assert(p + y == p);
        assert(sp.last() + y == sp.last());
        assert(sp.update(sp.len() - 1, sp.last()) == sp);
    } else {
        let y0 = y.drop_last();
        assert(all_digits(y0)) by {
            assert forall|i: int| 0 <= i < y0.len() implies is_digit(#[trigger] y0[i]) by {
                assert(y0[i] == y[i]);
            }
        }
        lemma_split_append_digits(p, y0);
        assert((p + y).drop_last() == p + y0);
        assert(is_digit(y[y.len() - 1]));
        assert((p + y).last() == y.last());
        assert((sp.last() + y0).push(y.last()) == sp.last() + y);
        assert(split_dots(p + y) == sp.update(sp.len() - 1, sp.last() + y));
    }
}

/// Appending a dot starts a new, empty piece.
pub proof fn lemma_split_append_dot(p: Seq<char>)
    ensures
        split_dots(p.push('.')) == split_dots(p).push(Seq::<char>::empty()),
{
    assert(p.push('.').drop_last() == p);
}

/// Reading back an address written in dotted decimal gives its four bytes.
pub proof fn ipv4_text_roundtrip(ip: [u8; 4])
    ensures
        parse_octets_spec(ipv4_text(ip@)) == Some(ip@),
{
    let d0 = decimal(ip@[0] as nat);
    let d1 = decimal(ip@[1] as nat);
    let d2 = decimal(ip@[2] as nat);
    let d3 = decimal(ip@[3] as nat);
    text::lemma_decimal(ip@[0] as nat);
    text::lemma_decimal(ip@[1] as nat);
    text::lemma_decimal(ip@[2] as nat);
    text::lemma_decimal(ip@[3] as nat);
    let e = Seq::<char>::empty();
    lemma_split_append_digits(e, d0);
    assert(e + d0 == d0);
    assert(split_dots(e) == seq![e]);
    assert(split_dots(d0) == seq![d0]);
    lemma_split_append_dot(d0);
    assert(d0 + seq!['.'] == d0.push('.'));
    let p1 = d0.push('.');
    lemma_split_append_digits(p1, d1);
    assert(split_dots(p1 + d1) == seq![d0, d1]);
    let p2 = (p1 + d1).push('.');
    lemma_split_append_dot(p1 + d1);
    lemma_split_append_digits(p2, d2);
    assert(split_dots(p2 + d2) == seq![d0, d1, d2]);
    let p3 = (p2 + d2).push('.');
    lemma_split_append_dot(p2 + d2);
    lemma_split_append_digits(p3, d3);
    assert(split_dots(p3 + d3) == seq![d0, d1, d2, d3]);
    assert(ipv4_text(ip@) == p3 + d3);
    text::lemma_parse_decimal_u8(ip[0]);
    text::lemma_parse_decimal_u8(ip[1]);
    text::lemma_parse_decimal_u8(ip[2]);
    text::lemma_parse_decimal_u8(ip[3]);
    let parts = seq![d0, d1, d2, d3];
    assert(parts.drop_last() == seq![d0, d1, d2]);
    assert(seq![d0, d1, d2].drop_last() == seq![d0, d1]);
    assert(seq![d0, d1].drop_last() == seq![d0]);
    assert(seq![d0].drop_last() == Seq::<Seq<char>>::empty());
    assert(parse_parts(Seq::<Seq<char>>::empty()) == Some(Seq::<u8>::empty()));
    assert(Seq::<u8>::empty().push(ip@[0]) == seq![ip@[0]]);
    assert(parse_parts(seq![d0]) == Some(seq![ip@[0]]));
    assert(seq![ip@[0]].push(ip@[1]) == seq![ip@[0], ip@[1]]);
    assert(seq![ip@[0], ip@[1]].push(ip@[2]) == seq![ip@[0], ip@[1], ip@[2]]);
    assert(seq![ip@[0], ip@[1], ip@[2]].push(ip@[3]) == seq![ip@[0], ip@[1], ip@[2], ip@[3]]);
    assert(parse_parts(seq![d0, d1]) == Some(seq![ip@[0], ip@[1]]));
    assert(parse_parts(seq![d0, d1, d2]) == Some(seq![ip@[0], ip@[1], ip@[2]]));
    assert(parse_parts(parts) == Some(seq![ip@[0], ip@[1], ip@[2], ip@[3]]));
    assert(seq![ip@[0], ip@[1], ip@[2], ip@[3]] == ip@);
}

/// Reads the bytes of an address typed as dotted decimal. Every piece between
/// dots must read as a `u8` (`None` otherwise); all pieces are returned, however
/// many there are.
pub fn parse_octets(text: &str) -> (r: Option<Vec<u8>>)
    ensures
        r matches Some(v) ==> parse_octets_spec(text@) == Some(v@),
        r is None ==> parse_octets_spec(text@) is None,
{
    let n: usize = text.unicode_len();
    let mut cur: Vec<char> = Vec::new();
    let mut acc: Vec<u8> = Vec::new();
    let mut ok: bool = true;
    let ghost s = text@;
    let ghost mut done: Seq<Seq<char>> = Seq::empty();
    let mut i: usize = 0;
    assert(s.take(0) == Seq::<char>::empty());
    assert(split_dots(s.take(0)) == done.push(cur@));
    while i < n
        invariant
            i <= n,
            n == s.len(),
            s == text@,
            split_dots(s.take(i as int)) == done.push(cur@),
            ok ==> parse_parts(done) == Some(acc@),
            !ok ==> parse_parts(done) is None,
        decreases n - i,
    {
        let c: char = text.get_char(i);
        assert(s.take(i + 1).drop_last() == s.take(i as int));
        assert(s.take(i + 1).last() == c);
        if c == '.' {
            let piece = text::parse_u8(&cur);
            assert(done.push(cur@).drop_last() == done);
            match piece {
                Some(b) => {
                    if ok {
                        acc.push(b);
                    }
                },
                None => {
                    ok = false;
                },
            }
            proof {
                done = done.push(cur@);
            }
            cur = Vec::new();
            assert(split_dots(s.take(i + 1)) == done.push(cur@));
        } else {
            cur.push(c);
            assert(split_dots(s.take(i + 1)) == done.push(cur@));
        }
        i = i + 1;
    }
    assert(s.take(n as int) == s);
    let piece = text::parse_u8(&cur);
    assert(done.push(cur@).drop_last() == done);
    match piece {
        Some(b) => {
            if ok {
                acc.push(b);
                Some(acc)
            } else {
                None
            }
        },
        None => None,
    }
}

/// The endpoint of the first connection, from the bytes typed: the first four
/// of them, and the server port (the bytes after the fourth are not used).
pub fn target_from_octets(octets: &Vec<u8>) -> (a: PeerAddr)
    requires
        octets.len() >= 4,
    ensures
        a == target_spec(octets@),
{
    PeerAddr { ip: [octets[0], octets[1], octets[2], octets[3]], port: VPN_PORT }
}

/// Writes an endpoint as `address:port`, as std displays a `SocketAddrV4`.
pub fn addr_string(a: &PeerAddr) -> (s: String)
    ensures
        s@ == addr_text(*a),
{
    let mut s = String::new();
    text::push_decimal(&mut s, a.ip[0] as u64);
    text::push_char(&mut s, '.');
    text::push_decimal(&mut s, a.ip[1] as u64);
    text::push_char(&mut s, '.');
    text::push_decimal(&mut s, a.ip[2] as u64);
    text::push_char(&mut s, '.');
    text::push_decimal(&mut s, a.ip[3] as u64);
    text::push_char(&mut s, ':');
    text::push_decimal(&mut s, a.port as u64);
    assert(s@ == addr_text(*a));
    s
}

} // verus!
