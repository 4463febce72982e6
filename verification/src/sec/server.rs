//! The server's side of the key exchange.

use vstd::prelude::*;
use crate::addr::{PeerAddr, addr_string};
use crate::addr::addr_text;
use crate::sec::{SessionKey, KeyKind, key_from_exchange};
use crate::sec::pake::{PakeState, PAKE_MESSAGE_LEN, SIDE_B, pake_start_b, pake_finish};
use crate::sec::{pw_key_bytes, key_bytes};
use crate::sec::pake::{accepted_message, sent_message, exchange_secret, PakeSide};
use crate::text::debug_bytes;

verus! {

/// What the server reports when it could not connect back to the client.
pub const CONNECT_FAILED: &'static str = "ERROR: Unable to connect to server";

/// How many bytes the server reads for the client's exchange message.
pub const SERVER_REPLY_LEN: usize = 1;

/// A server between sending its exchange message and receiving the client's.
pub struct ServerHandshake {
    /// The secret state of the exchange.
    pub state: PakeState,
    /// The identity it gave the client: the client's endpoint as text.
    pub client_id: String,
    /// The identity the server gave itself in the exchange.
    pub server_id: String,
}

impl ServerHandshake {
    /// Starts the exchange as the second side, with the client's endpoint
    /// (`address:port`) as the first identity and the server's own as the
    /// second. Returns the state and the message to send to the client.
    pub fn start(client_addr: &PeerAddr, server_id: &str, pass: &str) -> (r: (ServerHandshake, Vec<u8>))
        ensures
            r.0.client_id@ == addr_text(*client_addr),
            r.0.server_id@ == server_id@,
            r.0.state.side() == PakeSide::B,
            r.0.state.password() == pass@,
            r.0.state.id_a() == addr_text(*client_addr),
            r.0.state.id_b() == server_id@,
            r.0.state.sent() == r.1@,
            r.1@.len() == PAKE_MESSAGE_LEN,
            r.1@[0] == SIDE_B,
            sent_message(PakeSide::B, r.1@),
    {
        let client_id = addr_string(client_addr);
        let (state, msg) = pake_start_b(pass, client_id.as_str(), server_id);
        (ServerHandshake { state, client_id, server_id: String::from_str(server_id) }, msg)
    }

    /// Completes the exchange with the client's message, and derives the
    /// session key from the shared secret, salted with the server's identity.
    /// `None` where the exchange refuses the message, always so for a message
    /// that is not `PAKE_MESSAGE_LEN` bytes long (as the `SERVER_REPLY_LEN`
    /// bytes that the server reads are).
    pub fn finish(self, inbound: &[u8]) -> (r: Option<SessionKey>)
        ensures
            r is Some <==> accepted_message(self.state.side(), inbound@),
            r matches Some(k) ==> key_bytes(k.key) == k.bytes@,
            r matches Some(k) ==> exists|shared: Seq<u8>|
                shared.len() == 32 && exchange_secret(self.state, inbound@, shared) && k.bytes@
                    == #[trigger] pw_key_bytes(KeyKind::Aes128, debug_bytes(shared), self.server_id@),
    {
        let outcome = pake_finish(self.state, inbound);
        key_from_exchange(outcome, self.server_id.as_str())
    }

    /// What the server's handshake reports: the key, unless it could not
    /// connect to the client.
    pub fn outcome(connected: bool, key: SessionKey) -> (r: Result<SessionKey, String>)
        ensures
            connected ==> (r matches Ok(k) && k == key),
            !connected ==> (r matches Err(e) && e@ == CONNECT_FAILED@),
    {
        if connected {
            Ok(key)
        } else {
            Err(String::from_str(CONNECT_FAILED))
        }
    }
}

} // verus!
