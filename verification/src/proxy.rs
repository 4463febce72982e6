//! The local HTTP proxy: how a request is forwarded into the tunnel, and what
//! the proxy answers.

use vstd::prelude::*;
use crate::text::decimal;
use vstd::string::StringSliceAdditionalSpecFns;
use bytecodec::bytes::BytesEncoder;
use bytecodec::io::IoEncodeExt;
use bytecodec::Encode;
use httpcodec::{BodyEncoder, HttpVersion, Method, Request, RequestEncoder, RequestTarget};

verus! {

/// What the proxy answers every request with.
pub const PHRASE: &'static str = "Hello World!";

/// The stand-in body of the request line that is forwarded.
pub const STAND_IN_BODY: &'static str = "IGNORE";

/// A token character of HTTP (RFC 7230, section 3.2.6), which a method is made of.
pub open spec fn is_tchar(c: char) -> bool {
    ||| c == '!' || c == '#' || c == '$' || c == '%' || c == '&' || c == '\'' || c == '*'
    ||| c == '+' || c == '-' || c == '.' || c == '^' || c == '_' || c == '`' || c == '|' || c == '~'
    ||| ('0' <= c && c <= '9')
    ||| ('a' <= c && c <= 'z')
    ||| ('A' <= c && c <= 'Z')
}

/// A visible character (`0x21` to `0x7E`), which a request target is made of.
pub open spec fn is_vchar(c: char) -> bool {
    '!' <= c && c <= '~'
}

/// The bytes of ASCII text.
pub open spec fn ascii_bytes(s: Seq<char>) -> Seq<u8> {
    s.map_values(|c: char| c as u8)
}

/// An HTTP/1.1 request as httpcodec encodes it with a sized body: the request
/// line, a `Content-Length` header, an empty line, and the body.
pub open spec fn request_bytes(method: Seq<char>, target: Seq<char>, body: Seq<u8>) -> Seq<u8> {
    ascii_bytes(method) + seq![32u8] + ascii_bytes(target) + seq![32u8]
        + ascii_bytes("HTTP/1.1\r\nContent-Length: "@) + ascii_bytes(decimal(body.len()))
        + ascii_bytes("\r\n\r\n"@) + body
}

/// Encodes a request with httpcodec (`Request::new` with `HttpVersion::V1_1`,
/// then `RequestEncoder` over `BodyEncoder` over `BytesEncoder`, written out
/// with `encode_all`). `Method::new` and `RequestTarget::new` refuse a method
/// that is not all token characters and a target that is not all visible
/// characters, and the unwraps would panic there: `requires` leaves them out.
/// For such inputs the crate writes the request line, a `Content-Length`
/// header with the body's length, an empty line and the body.
#[verifier::external_body]
fn encode_request(method: &str, target: &str, body: &[u8]) -> (out: Vec<u8>)
    requires
        forall|i: int| 0 <= i < method@.len() ==> is_tchar(#[trigger] method@[i]),
        forall|i: int| 0 <= i < target@.len() ==> is_vchar(#[trigger] target@[i]),
    ensures
        out@ == request_bytes(method@, target@, body@),
{
    let request = Request::new(Method::new(method).unwrap(), RequestTarget::new(target).unwrap(),
        HttpVersion::V1_1, body);
    let mut encoder = RequestEncoder::new(BodyEncoder::new(BytesEncoder::new()));
    encoder.start_encoding(request).unwrap();
    let mut buf = Vec::new();
    encoder.encode_all(&mut buf).unwrap();
    buf
}

/// The messages a request is forwarded as, in order: its request line with the
/// stand-in body, then each chunk of its body as it is.
pub fn forward_frames(method: &str, target: &str, chunks: Vec<Vec<u8>>) -> (frames: Vec<Vec<u8>>)
    requires
        forall|i: int| 0 <= i < method@.len() ==> is_tchar(#[trigger] method@[i]),
        forall|i: int| 0 <= i < target@.len() ==> is_vchar(#[trigger] target@[i]),
    ensures
        frames.len() == chunks.len() + 1,
        frames[0]@ == request_bytes(method@, target@, STAND_IN_BODY.spec_bytes()),
        forall|i: int| 0 <= i < chunks.len() ==> #[trigger] frames[i + 1]@ == chunks[i]@,
{
    let head = encode_request(method, target, STAND_IN_BODY.as_bytes());
    let mut frames: Vec<Vec<u8>> = Vec::new();
    frames.push(head);
    let n: usize = chunks.len();
    let ghost original = chunks@;
    let mut i: usize = 0;
    while i < n
        invariant
            i <= n,
            n == original.len(),
            chunks@ == original,
            frames.len() == i + 1,
            frames[0]@ == request_bytes(method@, target@, STAND_IN_BODY.spec_bytes()),
            forall|j: int| 0 <= j < i ==> #[trigger] frames[j + 1]@ == original[j]@,
        decreases n - i,
    {
        let chunk = chunks[i].clone();
        frames.push(chunk);
        i = i + 1;
    }
    frames
}

} // verus!
