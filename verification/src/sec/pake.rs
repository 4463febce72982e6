//! The SPAKE2 exchange over Ed25519: the state of one side, how it starts,
//! and when it accepts the other side's message.

use vstd::prelude::*;
use spake2::{Ed25519Group, Spake2};

verus! {

/// The secret of one side of an exchange, a `spake2::Spake2` over Ed25519.
/// It is carried, never read: nothing of its contents is visible to proofs.
#[verifier::external_body]
pub struct PakeSecret {
    state: Spake2<Ed25519Group>,
}

/// Which side of an exchange a state plays.
#[derive(Clone, Copy, PartialEq, Eq, Structural, Debug)]
pub enum PakeSide {
    A,
    B,
}

/// The side byte that a side puts first in its message.
pub open spec fn side_byte(s: PakeSide) -> u8 {
    match s {
        PakeSide::A => SIDE_A,
        PakeSide::B => SIDE_B,
    }
}

/// The side byte that a side wants first in the other side's message.
pub open spec fn peer_byte(s: PakeSide) -> u8 {
    match s {
        PakeSide::A => SIDE_B,
        PakeSide::B => SIDE_A,
    }
}

/// One side of a started exchange: the secret, and what it was started with.
/// Its fields are private to this module, and only the starting functions of
/// this module make one, so the recorded side, password, identities and
/// message are those of the secret.
pub struct PakeState {
    secret: PakeSecret,
    side: PakeSide,
    password: String,
    id_a: String,
    id_b: String,
    sent: Vec<u8>,
}

impl PakeState {
    /// The side the exchange was started as.
    pub closed spec fn side(&self) -> PakeSide {
        self.side
    }

    /// The password the exchange was started with.
    pub closed spec fn password(&self) -> Seq<char> {
        self.password@
    }

    /// The identity of the first side.
    pub closed spec fn id_a(&self) -> Seq<char> {
        self.id_a@
    }

    /// The identity of the second side.
    pub closed spec fn id_b(&self) -> Seq<char> {
        self.id_b@
    }

    /// The message this side sent.
    pub closed spec fn sent(&self) -> Seq<u8> {
        self.sent@
    }
}

/// Whether 32 bytes are the compressed form of an Ed25519 point
/// (`Ed25519Group::bytes_to_element` gives `Some`).
pub uninterp spec fn ed25519_decodes(b: Seq<u8>) -> bool;

/// The key that a SPAKE2 exchange over Ed25519 derives from its transcript:
/// SHA-256 over the SHA-256 digests of the password and of both identities,
/// the first side's point, the second side's point and the shared point.
pub uninterp spec fn spake_transcript_key(pw: Seq<char>, id_a: Seq<char>, id_b: Seq<char>, x_msg: Seq<u8>, y_msg: Seq<u8>, k: Seq<u8>) -> Seq<u8>;

/// Whether `secret` is a secret that finishing `state` with `msg` can give:
/// the transcript key over the password and identities the state was started
/// with, the first side's and the second side's points (this side's own from
/// its message, the other's from `msg`), and some 32-byte shared point.
pub open spec fn exchange_secret(state: PakeState, msg: Seq<u8>, secret: Seq<u8>) -> bool {
    match state.side() {
        PakeSide::A => exists|kb: Seq<u8>|
            kb.len() == 32 && secret == #[trigger] spake_transcript_key(
                state.password(),
                state.id_a(),
                state.id_b(),
                state.sent().drop_first(),
                msg.drop_first(),
                kb,
            ),
        PakeSide::B => exists|kb: Seq<u8>|
            kb.len() == 32 && secret == #[trigger] spake_transcript_key(
                state.password(),
                state.id_a(),
                state.id_b(),
                msg.drop_first(),
                state.sent().drop_first(),
                kb,
            ),
    }
}

/// The length of an exchange message: a side byte and a group element.
pub const PAKE_MESSAGE_LEN: usize = 33;

/// The side byte of the first side (`A`).
pub const SIDE_A: u8 = 0x41;

/// The side byte of the second side (`B`).
pub const SIDE_B: u8 = 0x42;

/// Why finishing an exchange failed.
#[derive(Clone, Copy, PartialEq, Eq, Structural, Debug)]
pub enum PakeError {
    /// The message came from the wrong side.
    BadSide,
    /// The message does not hold a group element.
    CorruptMessage,
    /// The message is not `PAKE_MESSAGE_LEN` bytes long.
    WrongLength,
}

/// The side facing `s`.
pub open spec fn other_side(s: PakeSide) -> PakeSide {
    match s {
        PakeSide::A => PakeSide::B,
        PakeSide::B => PakeSide::A,
    }
}

/// Whether `msg` is a message that side `s` sends: its side byte, then a
/// compressed Ed25519 point.
pub open spec fn sent_message(s: PakeSide, msg: Seq<u8>) -> bool {
    &&& msg.len() == PAKE_MESSAGE_LEN
    &&& msg[0] == side_byte(s)
    &&& ed25519_decodes(msg.drop_first())
}

/// Whether side `s` accepts `msg` as the other side's message: the other
/// side's byte, then a compressed Ed25519 point.
pub open spec fn accepted_message(s: PakeSide, msg: Seq<u8>) -> bool {
    &&& msg.len() == PAKE_MESSAGE_LEN
    &&& msg[0] == peer_byte(s)
    &&& ed25519_decodes(msg.drop_first())
}

/// Each side accepts the message that the other side sends.
pub proof fn honest_message_accepted(s: PakeSide, msg: Seq<u8>)
    requires
        sent_message(other_side(s), msg),
    ensures
        accepted_message(s, msg),
{
}

/// `Spake2::<Ed25519Group>::start_a`: starts the exchange as the first side,
/// with a scalar drawn from the system's random source. The state records the
/// side, the password and the identities it was started with, and the message
/// returned. Of the message the contract states its length, its side byte, and
/// that the rest is a compressed Ed25519 point (the crate writes a point it
/// computed, compressed), which hold of every outcome; which point it is
/// depends on the random draw.
#[verifier::external_body]
pub(crate) fn pake_start_a(pass: &str, id_a: &str, id_b: &str) -> (r: (PakeState, Vec<u8>))
    ensures
        r.0.side() == PakeSide::A,
        r.0.password() == pass@,
        r.0.id_a() == id_a@,
        r.0.id_b() == id_b@,
        r.0.sent() == r.1@,
        r.1@.len() == PAKE_MESSAGE_LEN,
        r.1@[0] == SIDE_A,
        ed25519_decodes(r.1@.drop_first()),
{
    let (state, msg) = Spake2::<Ed25519Group>::start_a(
        &spake2::Password::new(pass.as_bytes()),
        &spake2::Identity::new(id_a.as_bytes()),
        &spake2::Identity::new(id_b.as_bytes()),
    );
    let secret = PakeSecret { state };
    let (password, id_a, id_b, sent) = (pass.to_string(), id_a.to_string(), id_b.to_string(), msg.clone());
    (PakeState { secret, side: PakeSide::A, password, id_a, id_b, sent }, msg)
}

/// `Spake2::<Ed25519Group>::start_b`: as `pake_start_a`, for the second side.
#[verifier::external_body]
pub(crate) fn pake_start_b(pass: &str, id_a: &str, id_b: &str) -> (r: (PakeState, Vec<u8>))
    ensures
        r.0.side() == PakeSide::B,
        r.0.password() == pass@,
        r.0.id_a() == id_a@,
        r.0.id_b() == id_b@,
        r.0.sent() == r.1@,
        r.1@.len() == PAKE_MESSAGE_LEN,
        r.1@[0] == SIDE_B,
        ed25519_decodes(r.1@.drop_first()),
{
    let (state, msg) = Spake2::<Ed25519Group>::start_b(
        &spake2::Password::new(pass.as_bytes()),
        &spake2::Identity::new(id_a.as_bytes()),
        &spake2::Identity::new(id_b.as_bytes()),
    );
    let secret = PakeSecret { state };
    let (password, id_a, id_b, sent) = (pass.to_string(), id_a.to_string(), id_b.to_string(), msg.clone());
    (PakeState { secret, side: PakeSide::B, password, id_a, id_b, sent }, msg)
}

/// `Spake2::finish`: completes the exchange with the other side's message.
/// A message of any length but `PAKE_MESSAGE_LEN` is refused as `WrongLength`;
/// one whose first byte is not the other side's is refused as `BadSide`; one
/// whose last 32 bytes are not an Ed25519 point is refused as `CorruptMessage`;
/// any other message gives the shared secret, a SHA-256 digest of 32 bytes
/// over the exchange's transcript. The shared point in that transcript depends
/// on the random scalar of the state, and is not stated.
#[verifier::external_body]
pub(crate) fn pake_finish(state: PakeState, msg: &[u8]) -> (r: Result<Vec<u8>, PakeError>)
    ensures
        msg@.len() != PAKE_MESSAGE_LEN ==> r matches Err(PakeError::WrongLength),
        msg@.len() == PAKE_MESSAGE_LEN && msg@[0] != peer_byte(state.side()) ==> r matches Err(PakeError::BadSide),
        msg@.len() == PAKE_MESSAGE_LEN && msg@[0] == peer_byte(state.side()) && !ed25519_decodes(msg@.drop_first()) ==> r matches Err(PakeError::CorruptMessage),
        msg@.len() == PAKE_MESSAGE_LEN && msg@[0] == peer_byte(state.side()) && ed25519_decodes(msg@.drop_first()) ==> r is Ok,
        r matches Ok(k) ==> k@.len() == 32,
        state.side() == PakeSide::A ==> (r matches Ok(k) ==> exists|kb: Seq<u8>| kb.len() == 32 && k@ == #[trigger] spake_transcript_key(state.password(), state.id_a(), state.id_b(), state.sent().drop_first(), msg@.drop_first(), kb)),
        state.side() == PakeSide::B ==> (r matches Ok(k) ==> exists|kb: Seq<u8>| kb.len() == 32 && k@ == #[trigger] spake_transcript_key(state.password(), state.id_a(), state.id_b(), msg@.drop_first(), state.sent().drop_first(), kb)),
{
    match state.secret.state.finish(msg) {
        Ok(k) => Ok(k),
        Err(spake2::Error::BadSide) => Err(PakeError::BadSide),
        Err(spake2::Error::CorruptMessage) => Err(PakeError::CorruptMessage),
        Err(spake2::Error::WrongLength) => Err(PakeError::WrongLength),
    }
}

} // verus!
