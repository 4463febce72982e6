//! The password-authenticated key exchange (SPAKE2 over Ed25519) and the
//! session key derived from its result.

use vstd::prelude::*;
use crate::text;
use crate::text::debug_bytes;

pub mod pake;
pub mod client;
pub mod server;

pub use pake::{PakeError, PakeSide, PakeState, PAKE_MESSAGE_LEN, SIDE_A, SIDE_B};

verus! {

/// `keybob::Key`, a symmetric key.
#[verifier::external_type_specification]
#[verifier::external_body]
pub struct ExKey(keybob::Key);

/// The kinds of key a password can be stretched into.
#[derive(Clone, Copy, PartialEq, Eq, Structural, Debug)]
pub enum KeyKind {
    Aes128,
    Aes256,
}

/// The length in bytes of a key of each kind.
pub open spec fn key_len(kind: KeyKind) -> nat {
    match kind {
        KeyKind::Aes128 => 32,
        KeyKind::Aes256 => 64,
    }
}

/// The key bytes that `keybob::Key::from_pw` derives from a password and a
/// user name (PBKDF2 with HMAC-Blake2b, the user name as salt).
pub uninterp spec fn pw_key_bytes(kind: KeyKind, pw: Seq<char>, user: Seq<char>) -> Seq<u8>;

/// The bytes that a `keybob::Key` holds (`as_slice`).
pub uninterp spec fn key_bytes(k: keybob::Key) -> Seq<u8>;

/// A session key: the key object and the bytes it holds.
pub struct SessionKey {
    pub key: keybob::Key,
    pub bytes: Vec<u8>,
}

/// `keybob::Key::from_pw`: stretches a password, salted with a user name, into
/// a key. The bytes returned beside the key are the key's own (`as_slice`).
#[verifier::external_body]
pub(crate) fn key_from_pw(kind: KeyKind, pw: &str, user: &str) -> (r: (keybob::Key, Vec<u8>))
    ensures
        r.1@ == pw_key_bytes(kind, pw@, user@),
        key_bytes(r.0) == r.1@,
        r.1@.len() == key_len(kind),
{
    let tt = match kind {
        KeyKind::Aes128 => keybob::KeyType::Aes128,
        KeyKind::Aes256 => keybob::KeyType::Aes256,
    };
    let key = keybob::Key::from_pw(tt, pw, user);
    let bytes = key.as_slice().to_vec();
    (key, bytes)
}

/// The session key that a shared secret gives: the secret's debug text
/// (`[1, 2, ...]`) used as a password, salted with `user`, into an AES-128 key.
pub fn derive_session_key(shared: &[u8], user: &str) -> (k: SessionKey)
    ensures
        k.bytes@ == pw_key_bytes(KeyKind::Aes128, debug_bytes(shared@), user@),
        k.bytes@.len() == 32,
        key_bytes(k.key) == k.bytes@,
{
    let key_pass = text::debug_string(shared);
    let (key, bytes) = key_from_pw(KeyKind::Aes128, key_pass.as_str(), user);
    SessionKey { key, bytes }
}

/// What the outcome of an exchange gives: the session key derived from the
/// shared secret, salted with `user`, or nothing where the exchange refused
/// the other side's message.
pub fn key_from_exchange(outcome: Result<Vec<u8>, PakeError>, user: &str) -> (r: Option<SessionKey>)
    ensures
        outcome is Err ==> r is None,
        outcome matches Ok(shared) ==> (r matches Some(k) && k.bytes@ == pw_key_bytes(
            KeyKind::Aes128,
            debug_bytes(shared@),
            user@,
        )),
        r matches Some(k) ==> key_bytes(k.key) == k.bytes@,
{
    match outcome {
        Ok(shared) => Some(derive_session_key(shared.as_slice(), user)),
        Err(_) => None,
    }
}

} // verus!
