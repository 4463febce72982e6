//! The packet codecs of the tunnel endpoints, and the commands that bring a
//! tunnel interface up.

use vstd::prelude::*;
use crate::addr::PeerAddr;
use bytes::BytesMut;

verus! {

/// `bytes::BytesMut`, a growable byte buffer.
#[verifier::external_type_specification]
#[verifier::external_body]
pub struct ExBytesMut(BytesMut);

/// The bytes that a `BytesMut` holds, in order.
pub uninterp spec fn bytes_mut_contents(b: BytesMut) -> Seq<u8>;

/// A copy of what the buffer holds (`buf.iter().cloned().collect()`); the
/// buffer itself is left as it is.
#[verifier::external_body]
fn bytes_mut_to_vec(b: &BytesMut) -> (v: Vec<u8>)
    ensures
        v@ == bytes_mut_contents(*b),
{
    b.iter().cloned().collect()
}

/// `BytesMut::extend_from_slice`: appends the slice. The buffer grows first,
/// and growing past `isize::MAX` bytes panics in `Vec::reserve`, hence the bound.
#[verifier::external_body]
fn bytes_mut_extend(b: &mut BytesMut, s: &[u8])
    requires
        bytes_mut_contents(*old(b)).len() + s@.len() <= isize::MAX,
    ensures
        bytes_mut_contents(*final(b)) == bytes_mut_contents(*old(b)) + s@,
{
    b.extend_from_slice(s)
}

/// `BytesMut::len`: how many bytes the buffer holds.
#[verifier::external_body]
fn bytes_mut_len(b: &BytesMut) -> (n: usize)
    ensures
        n == bytes_mut_contents(*b).len(),
{
    b.len()
}

/// What decoding a TCP buffer gives: everything in it.
pub open spec fn tcp_decoded(buf: Seq<u8>) -> Seq<u8> {
    buf
}

/// What a TCP buffer holds after a frame is encoded into it.
pub open spec fn tcp_encoded(buf: Seq<u8>, item: Seq<u8>) -> Seq<u8> {
    buf + item
}

/// The address the tunnel interface is given.
pub const TUN_ADDRESS: &'static str = "10.107.1.3/24";

/// The stream codec of a TCP tunnel connection: a frame is whatever the
/// buffer holds.
pub struct TcpVecCodec;

impl TcpVecCodec {
    /// Decoding yields a copy of everything in the buffer, every time: the
    /// buffer is not consumed.
    pub fn decode(&mut self, buf: &mut BytesMut) -> (r: Option<Vec<u8>>)
        ensures
            r matches Some(v) && v@ == tcp_decoded(bytes_mut_contents(*old(buf))),
            bytes_mut_contents(*final(buf)) == bytes_mut_contents(*old(buf)),
    {
        Some(bytes_mut_to_vec(buf))
    }

    /// Encoding appends the frame to the buffer as it is.
    pub fn encode(&mut self, item: Vec<u8>, dst: &mut BytesMut)
        requires
            bytes_mut_contents(*old(dst)).len() + item@.len() <= isize::MAX,
        ensures
            bytes_mut_contents(*final(dst)) == tcp_encoded(bytes_mut_contents(*old(dst)), item@),
    {
        bytes_mut_extend(dst, item.as_slice());
    }

    /// Whether `encode` can take the frame into the buffer: the two together
    /// must fit in memory (`isize::MAX` bytes), else growing the buffer panics.
    pub fn can_encode(&self, item: &Vec<u8>, dst: &BytesMut) -> (b: bool)
        ensures
            b == (bytes_mut_contents(*dst).len() + item@.len() <= isize::MAX),
    {
        let n: usize = bytes_mut_len(dst);
        n <= isize::MAX as usize && item.len() <= isize::MAX as usize - n
    }
}

/// The datagram codec of a UDP tunnel: every datagram is a frame, and every
/// frame goes to one fixed peer.
pub struct UdpVecCodec(pub PeerAddr);

impl UdpVecCodec {
    /// A received datagram is the frame, whoever sent it.
    pub fn decode(&mut self, _src: &PeerAddr, buf: &[u8]) -> (r: Vec<u8>)
        ensures
            r@ == buf@,
            *final(self) == *old(self),
    {
        vstd::slice::slice_to_vec(buf)
    }

    /// A frame is appended to the outgoing datagram, which goes to the peer.
    pub fn encode(&mut self, msg: Vec<u8>, buf: &mut Vec<u8>) -> (to: PeerAddr)
        ensures
            final(buf)@ == old(buf)@ + msg@,
            to == old(self).0,
            *final(self) == *old(self),
    {
        let mut msg = msg;
        buf.append(&mut msg);
        self.0
    }
}

/// Encoding appends the frame to whatever the buffer held: the buffer grows
/// by the frame's length, keeps its old bytes in front, and ends with the
/// frame; decoding it then gives exactly that.
pub proof fn tcp_encode_appends(buf: Seq<u8>, item: Seq<u8>)
    ensures
        tcp_encoded(buf, item).len() == buf.len() + item.len(),
        tcp_encoded(buf, item).subrange(0, buf.len() as int) == buf,
        tcp_encoded(buf, item).subrange(buf.len() as int, (buf.len() + item.len()) as int) == item,
        tcp_decoded(tcp_encoded(buf, item)).len() == buf.len() + item.len(),
        tcp_decoded(tcp_encoded(buf, item)).subrange(0, buf.len() as int) == buf,
        tcp_decoded(tcp_encoded(buf, item)).subrange(buf.len() as int, (buf.len() + item.len()) as int) == item,
{
    assert((buf + item).subrange(0, buf.len() as int) == buf);
    assert((buf + item).subrange(buf.len() as int, (buf.len() + item.len()) as int) == item);
}

/// A frame encoded into an empty buffer is what decoding that buffer gives
/// back.
pub proof fn tcp_frame_roundtrip(item: Seq<u8>)
    ensures
        tcp_decoded(tcp_encoded(Seq::<u8>::empty(), item)) == item,
{
    assert(Seq::<u8>::empty() + item =~= item);
}

/// The arguments of the two `ip` commands that bring an interface up: give it
/// the tunnel address, then set its link up.
pub open spec fn setup_args(name: Seq<char>) -> Seq<Seq<Seq<char>>> {
    seq![
        seq!["addr"@, "add"@, "dev"@, name, TUN_ADDRESS@],
        seq!["link"@, "set"@, "up"@, "dev"@, name],
    ]
}

/// The two commands configure the interface they are given: the first adds
/// the tunnel address to device `name`, the second sets the link of device
/// `name` up.
pub proof fn setup_args_name_the_interface(name: Seq<char>)
    ensures
        setup_args(name).len() == 2,
        setup_args(name)[0].len() == 5,
        setup_args(name)[1].len() == 5,
        setup_args(name)[0][0] == "addr"@,
        setup_args(name)[0][1] == "add"@,
        setup_args(name)[0][2] == "dev"@,
        setup_args(name)[0][3] == name,
        setup_args(name)[0][4] == "10.107.1.3/24"@,
        setup_args(name)[1][0] == "link"@,
        setup_args(name)[1][1] == "set"@,
        setup_args(name)[1][2] == "up"@,
        setup_args(name)[1][3] == "dev"@,
        setup_args(name)[1][4] == name,
{
}

/// The view of a list of argument lists.
pub open spec fn args_view(cmds: Seq<Vec<String>>) -> Seq<Seq<Seq<char>>> {
    cmds.map_values(|c: Vec<String>| c@.map_values(|a: String| a@))
}

/// The `ip` commands (as argument lists) that configure the interface `name`.
pub fn setup_commands(name: &str) -> (cmds: Vec<Vec<String>>)
    ensures
        args_view(cmds@) == setup_args(name@),
{
    let mut first: Vec<String> = Vec::new();
    first.push(String::from_str("addr"));
    first.push(String::from_str("add"));
    first.push(String::from_str("dev"));
    first.push(String::from_str(name));
    first.push(String::from_str(TUN_ADDRESS));
    let mut second: Vec<String> = Vec::new();
    second.push(String::from_str("link"));
    second.push(String::from_str("set"));
    second.push(String::from_str("up"));
    second.push(String::from_str("dev"));
    second.push(String::from_str(name));
    let mut cmds: Vec<Vec<String>> = Vec::new();
    cmds.push(first);
    cmds.push(second);
    assert(args_view(cmds@) =~~= setup_args(name@));
    cmds
}

} // verus!
