# cobweb

The logic of Cobweb, a small VPN suite, as a library verified with Verus,
and the program around it.

- `src/` — the verified library:
  - `text`: decimal and hexadecimal text, reading a `u8`, the debug form of bytes;
  - `addr`: reading a typed IPv4 address and writing an endpoint as `address:port`;
  - `rpc`: the node information exchanged over RPC and how a node settles on its identifier;
  - `tun`: the tunnel packet codecs and the interface setup commands;
  - `sec`: the SPAKE2 key exchange steps of client and server and the session key;
  - `vpn`: the client's connection sequence as a state machine, and the tunnel halves;
  - `proxy`: how the local HTTP proxy forwards a request.
- `app/` — the program: the window, the sockets, the tunnel interface, the RPC server.
- `tests/` — tests of the library.
