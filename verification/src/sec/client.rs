//! The client's side of the key exchange.

use vstd::prelude::*;
use crate::addr::{PeerAddr, addr_string};
use crate::addr::addr_text;
use crate::sec::{SessionKey, KeyKind, key_from_exchange};
use crate::sec::pake::{PakeState, PAKE_MESSAGE_LEN, SIDE_A, pake_start_a, pake_finish};
use crate::sec::{pw_key_bytes, key_bytes};
use crate::sec::pake::{accepted_message, sent_message, exchange_secret, PakeSide};
use crate::text::debug_bytes;

verus! {

/// A client between sending its exchange message and receiving the server's.
pub struct ClientHandshake {
    /// The secret state of the exchange.
    pub state: PakeState,
    /// The identity the client gave itself in the exchange.
    pub client_id: String,
    /// The identity it gave the server: the server's endpoint as text.
    pub server_id: String,
}

impl ClientHandshake {
    /// Starts the exchange as the first side, with the client's identity and
    /// the server's endpoint (`address:port`) as the second identity. Returns
    /// the state and the message to send to the server.
    pub fn start(client_id: &str, server_addr: &PeerAddr, pass: &str) -> (r: (ClientHandshake, Vec<u8>))
        ensures
            r.0.client_id@ == client_id@,
            r.0.server_id@ == addr_text(*server_addr),
            r.0.state.side() == PakeSide::A,
            r.0.state.password() == pass@,
            r.0.state.id_a() == client_id@,
            r.0.state.id_b() == addr_text(*server_addr),
            r.0.state.sent() == r.1@,
            r.1@.len() == PAKE_MESSAGE_LEN,
            r.1@[0] == SIDE_A,
            sent_message(PakeSide::A, r.1@),
    {
        let server_id = addr_string(server_addr);
        let (state, msg) = pake_start_a(pass, client_id, server_id.as_str());
        (ClientHandshake { state, client_id: String::from_str(client_id), server_id }, msg)
    }

    /// Completes the exchange with the server's message, and derives the
    /// session key from the shared secret, salted with the client's identity.
    /// `None` where the exchange refuses the message, always so for a message
    /// that is not `PAKE_MESSAGE_LEN` bytes long.
    pub fn finish(self, inbound: &[u8]) -> (r: Option<SessionKey>)
        ensures
            r is Some <==> accepted_message(self.state.side(), inbound@),
            r matches Some(k) ==> key_bytes(k.key) == k.bytes@,
            r matches Some(k) ==> exists|shared: Seq<u8>|
                shared.len() == 32 && exchange_secret(self.state, inbound@, shared) && k.bytes@
                    == #[trigger] pw_key_bytes(KeyKind::Aes128, debug_bytes(shared), self.client_id@),
    {
        let outcome = pake_finish(self.state, inbound);
        key_from_exchange(outcome, self.client_id.as_str())
    }
}

} // verus!
